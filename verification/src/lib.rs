//! A customer-support backend: cases, messages, activity and their lifecycle.

pub mod access;
pub mod admission;
pub mod answers;
pub mod command;
pub mod config;
pub mod cursor;
pub mod database;
pub mod decimal;
pub mod disclosure;
pub mod effects;
pub mod erasure;
pub mod errors;
pub mod failures;
pub mod fault;
pub mod identifiers;
pub mod intake;
pub mod intents;
pub mod lifecycle;
pub mod model;
pub mod operator;
pub mod outcomes;
pub mod outside;
pub mod paging;
pub mod privacy;
pub mod reads;
pub mod requests;
pub mod resource;
pub mod responses;
pub mod retained;
pub mod retention;
pub mod retention_run;
pub mod rows;
pub mod rules;
pub mod runs;
pub mod service;
pub mod text;
pub mod tools;
pub mod transaction;
pub mod validate;
pub mod views;
pub mod wire;
pub mod words;
