//! The lifecycle of a case: which state may follow which, and what a change of
//! state does to the recorded times.

use vstd::prelude::*;
use vstd::string::*;

use crate::model;
use crate::model::{CaseState, Priority, Visibility};
use crate::text::same_text;

verus! {

/// The transitions that the lifecycle allows: an open case is taken up; a case in
/// progress waits or is resolved; a waiting case is taken up again or resolved; a
/// resolved case is closed or taken up again; a closed case is reopened.
pub open spec fn allowed_transition(current: Seq<char>, target: Seq<char>) -> bool {
    ||| (current == "open"@ || current == "closed"@) && target == "in_progress"@
    ||| current == "in_progress"@ && (target == "waiting_customer"@ || target == "resolved"@)
    ||| current == "waiting_customer"@ && (target == "in_progress"@ || target == "resolved"@)
    ||| current == "resolved"@ && (target == "in_progress"@ || target == "closed"@)
}

/// Whether a case in one state may be moved to another.
pub fn valid_transition(current: &str, target: &str) -> (result: bool)
    ensures
        result == allowed_transition(current@, target@),
{
    if same_text(current, "open") || same_text(current, "closed") {
        proof {
            lemma_state_names_differ();
        }
        same_text(target, "in_progress")
    } else if same_text(current, "in_progress") {
        proof {
            lemma_state_names_differ();
        }
        same_text(target, "waiting_customer") || same_text(target, "resolved")
    } else if same_text(current, "waiting_customer") {
        proof {
            lemma_state_names_differ();
        }
        same_text(target, "in_progress") || same_text(target, "resolved")
    } else if same_text(current, "resolved") {
        same_text(target, "in_progress") || same_text(target, "closed")
    } else {
        false
    }
}

/// When a case counts as resolved after a transition.
pub open spec fn resolved_at_after(target: Seq<char>, now: i128, current: Option<i128>) -> Option<
    i128,
> {
    if target == "resolved"@ {
        Some(now)
    } else if target == "in_progress"@ {
        None
    } else {
        current
    }
}

/// When a case counts as closed after a transition.
pub open spec fn closed_at_after(target: Seq<char>, now: i128, current: Option<i128>) -> Option<
    i128,
> {
    if target == "closed"@ {
        Some(now)
    } else if target == "in_progress"@ {
        None
    } else {
        current
    }
}

pub fn next_resolved_at(target: &str, now: i128, current: Option<i128>) -> (result: Option<i128>)
    ensures
        result == resolved_at_after(target@, now, current),
{
    if same_text(target, "resolved") {
        Some(now)
    } else if same_text(target, "in_progress") {
        None
    } else {
        current
    }
}

pub fn next_closed_at(target: &str, now: i128, current: Option<i128>) -> (result: Option<i128>)
    ensures
        result == closed_at_after(target@, now, current),
{
    if same_text(target, "closed") {
        Some(now)
    } else if same_text(target, "in_progress") {
        None
    } else {
        current
    }
}

/// The state that a stored text names.
pub open spec fn state_named(name: Seq<char>) -> Option<CaseState> {
    if name == "open"@ {
        Some(CaseState::Open)
    } else if name == "in_progress"@ {
        Some(CaseState::InProgress)
    } else if name == "waiting_customer"@ {
        Some(CaseState::WaitingCustomer)
    } else if name == "resolved"@ {
        Some(CaseState::Resolved)
    } else if name == "closed"@ {
        Some(CaseState::Closed)
    } else {
        None
    }
}

pub fn parse_state(name: &str) -> (state: Option<CaseState>)
    ensures
        state == state_named(name@),
{
    if same_text(name, "open") {
        Some(CaseState::Open)
    } else if same_text(name, "in_progress") {
        Some(CaseState::InProgress)
    } else if same_text(name, "waiting_customer") {
        Some(CaseState::WaitingCustomer)
    } else if same_text(name, "resolved") {
        Some(CaseState::Resolved)
    } else if same_text(name, "closed") {
        Some(CaseState::Closed)
    } else {
        None
    }
}

/// The priority that a stored text names.
pub open spec fn priority_named(name: Seq<char>) -> Option<Priority> {
    if name == "low"@ {
        Some(Priority::Low)
    } else if name == "normal"@ {
        Some(Priority::Normal)
    } else if name == "high"@ {
        Some(Priority::High)
    } else if name == "urgent"@ {
        Some(Priority::Urgent)
    } else {
        None
    }
}

pub fn parse_priority(name: &str) -> (priority: Option<Priority>)
    ensures
        priority == priority_named(name@),
{
    if same_text(name, "low") {
        Some(Priority::Low)
    } else if same_text(name, "normal") {
        Some(Priority::Normal)
    } else if same_text(name, "high") {
        Some(Priority::High)
    } else if same_text(name, "urgent") {
        Some(Priority::Urgent)
    } else {
        None
    }
}

/// The visibility that a stored text names.
pub open spec fn visibility_named(name: Seq<char>) -> Option<Visibility> {
    if name == "public"@ {
        Some(Visibility::Public)
    } else if name == "internal"@ {
        Some(Visibility::Internal)
    } else {
        None
    }
}

pub fn parse_visibility(name: &str) -> (visibility: Option<Visibility>)
    ensures
        visibility == visibility_named(name@),
{
    if same_text(name, "public") {
        Some(Visibility::Public)
    } else if same_text(name, "internal") {
        Some(Visibility::Internal)
    } else {
        None
    }
}

/// The five state names are different texts.
pub proof fn lemma_state_names_differ()
    ensures
        "open"@ != "in_progress"@,
        "open"@ != "waiting_customer"@,
        "open"@ != "resolved"@,
        "open"@ != "closed"@,
        "in_progress"@ != "waiting_customer"@,
        "in_progress"@ != "resolved"@,
        "in_progress"@ != "closed"@,
        "waiting_customer"@ != "resolved"@,
        "waiting_customer"@ != "closed"@,
        "resolved"@ != "closed"@,
{
    reveal_strlit("open");
    reveal_strlit("in_progress");
    reveal_strlit("waiting_customer");
    reveal_strlit("resolved");
    reveal_strlit("closed");
    assert("open"@.len() == 4);
    assert("in_progress"@.len() == 11);
    assert("waiting_customer"@.len() == 16);
    assert("resolved"@.len() == 8);
    assert("closed"@.len() == 6);
}

/// Reading the stored text of a state gives the state back.
pub proof fn law_state_names_round_trip(state: CaseState)
    ensures
        state_named(model::state_name(state)) == Some(state),
{
    lemma_state_names_differ();
}

/// Reading the stored text of a priority gives the priority back.
pub proof fn law_priority_names_round_trip(priority: Priority)
    ensures
        priority_named(model::priority_name(priority)) == Some(priority),
{
    reveal_strlit("low");
    reveal_strlit("normal");
    reveal_strlit("high");
    reveal_strlit("urgent");
    assert("low"@.len() == 3);
    assert("high"@.len() == 4);
    assert("normal"@.len() == 6 && "normal"@[0] == 'n');
    assert("urgent"@.len() == 6 && "urgent"@[0] == 'u');
}

/// Reading the stored text of a visibility gives the visibility back.
pub proof fn law_visibility_names_round_trip(visibility: Visibility)
    ensures
        visibility_named(model::visibility_name(visibility)) == Some(visibility),
{
    reveal_strlit("public");
    reveal_strlit("internal");
    assert("public"@.len() == 6);
    assert("internal"@.len() == 8);
}

/// A case whose times agree with its state: only a resolved or closed case has been
/// resolved, and only a closed one has been closed.
pub open spec fn times_agree(
    state: Seq<char>,
    resolved_at: Option<i128>,
    closed_at: Option<i128>,
) -> bool {
    match state_named(state) {
        Some(CaseState::Resolved) => resolved_at is Some && closed_at is None,
        Some(CaseState::Closed) => resolved_at is Some && closed_at is Some,
        Some(_) => resolved_at is None && closed_at is None,
        None => false,
    }
}

/// An allowed transition keeps the recorded times in agreement with the state.
pub proof fn law_transitions_keep_times(
    current: Seq<char>,
    target: Seq<char>,
    now: i128,
    resolved_at: Option<i128>,
    closed_at: Option<i128>,
)
    requires
        times_agree(current, resolved_at, closed_at),
        allowed_transition(current, target),
    ensures
        times_agree(
            target,
            resolved_at_after(target, now, resolved_at),
            closed_at_after(target, now, closed_at),
        ),
{
    lemma_state_names_differ();
}

/// Only the five named states take part in a transition, and no state follows itself.
pub proof fn law_transitions_are_explicit(current: Seq<char>, target: Seq<char>)
    requires
        allowed_transition(current, target),
    ensures
        state_named(current) is Some,
        state_named(target) is Some,
        current != target,
        target != "open"@,
{
    lemma_state_names_differ();
}

} // verus!
