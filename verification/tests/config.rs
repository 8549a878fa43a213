use lenso_auth_sdk::ActorAssertionIssuer;
use support_case::config::{
    default_max_export_bytes, validate_config, SupportCaseConfig, SupportCaseConfigError,
    DEFAULT_MAX_EXPORT_BYTES,
};
use support_case::fault::Fault;
use support_case::operator::{
    SchemaAction, SchemaEvent, SchemaStage, SchemaWorkflow, SupportCaseOperator,
    SupportCaseOperatorError,
};

fn config() -> SupportCaseConfig {
    let issuer = ActorAssertionIssuer::new("auth.users", b"support-case-test-key");
    SupportCaseConfig::new(
        "support_case".to_owned(),
        "support-case/database-url".to_owned(),
        "auth.users".to_owned(),
        issuer.public_key_base64(),
        vec!["support-api".to_owned()],
        vec!["support-email".to_owned(), "help-center".to_owned()],
        vec!["support-attachment".to_owned()],
        vec!["privacy-export".to_owned()],
        vec!["privacy-retention".to_owned()],
        DEFAULT_MAX_EXPORT_BYTES,
    )
    .unwrap()
}

#[test]
fn config_rejects_ambient_and_duplicate_callers() {
    let mut invalid = config();
    invalid.business_callers.clear();
    assert_eq!(
        invalid.validate(),
        Err(SupportCaseConfigError::InvalidBusinessCallers)
    );
    let mut invalid = config();
    invalid.intake_callers.clear();
    assert_eq!(
        invalid.validate(),
        Err(SupportCaseConfigError::InvalidIntakeCallers)
    );
    let mut invalid = config();
    invalid.export_callers.push("privacy-export".to_owned());
    assert_eq!(
        invalid.validate(),
        Err(SupportCaseConfigError::InvalidExportCallers)
    );
}

#[test]
fn every_rule_of_the_configuration_has_its_error() {
    assert_eq!(config().validate(), Ok(()));
    let check = |change: &dyn Fn(&mut SupportCaseConfig), error: SupportCaseConfigError| {
        let mut invalid = config();
        change(&mut invalid);
        assert_eq!(invalid.validate(), Err(error));
    };
    for schema in [
        "",
        "Support",
        "1support",
        "support-case",
        "public",
        "information_schema",
        "pg_support",
    ] {
        check(&|c| c.schema = schema.to_owned(), SupportCaseConfigError::InvalidSchema);
    }
    check(&|c| c.schema = "s".repeat(64), SupportCaseConfigError::InvalidSchema);
    check(
        &|c| c.database_url_secret = "../url".to_owned(),
        SupportCaseConfigError::InvalidSecretReference,
    );
    check(&|c| c.auth_issuer = "auth/users".to_owned(), SupportCaseConfigError::InvalidAuthIssuer);
    check(
        &|c| c.auth_assertion_public_key = "auth.users".to_owned(),
        SupportCaseConfigError::InvalidAuthPublicKey,
    );
    check(&|c| c.resource_callers.clear(), SupportCaseConfigError::InvalidResourceCallers);
    check(&|c| c.retention_callers.clear(), SupportCaseConfigError::InvalidRetentionCallers);
    check(&|c| c.max_export_bytes = 0, SupportCaseConfigError::InvalidExportLimit);
    check(
        &|c| c.max_export_bytes = DEFAULT_MAX_EXPORT_BYTES + 1,
        SupportCaseConfigError::InvalidExportLimit,
    );
}

#[test]
fn the_first_broken_rule_is_reported() {
    let mut invalid = config();
    invalid.max_export_bytes = 0;
    invalid.business_callers.clear();
    assert_eq!(
        invalid.validate_with_key(true),
        Err(SupportCaseConfigError::InvalidBusinessCallers)
    );
    assert_eq!(
        invalid.validate_with_key(false),
        Err(SupportCaseConfigError::InvalidAuthPublicKey)
    );
    invalid.schema = "public".to_owned();
    assert_eq!(invalid.validate_with_key(false), Err(SupportCaseConfigError::InvalidSchema));
    assert_eq!(config().validate_with_key(true), Ok(()));
}

#[test]
fn an_invalid_configuration_fails_the_resolved_plan() {
    let mut invalid = config();
    invalid.max_export_bytes = 0;
    let failed: Result<(), Fault<()>> = validate_config(&invalid);
    assert_eq!(
        failed,
        Err(Fault::InvalidResolvedPlan {
            detail: "Support Case configuration is invalid: max_export_bytes must be between 1 and 8388608"
                .to_owned()
        })
    );
    let fine: Result<(), Fault<()>> = validate_config(&config());
    assert_eq!(fine, Ok(()));
    assert_eq!(default_max_export_bytes(), 8 * 1024 * 1024);
}

#[test]
fn only_owned_schemas_are_administered() {
    let mut workflow: SchemaWorkflow<u8> = SupportCaseOperator::setup("pg_catalog");
    for event in [SchemaEvent::Connected, SchemaEvent::Worked(3)] {
        assert_eq!(workflow.action(), SchemaAction::Finish);
        workflow = workflow.resume(event);
    }
    let refused = SupportCaseOperatorError::Plan { schema: "pg_catalog".to_owned() };
    assert_eq!(refused.text(), "invalid owned schema name `pg_catalog`");
    assert_eq!(workflow.stage, SchemaStage::Ended(Err(refused)));
}

#[test]
fn workflows_connect_and_then_do_their_task() {
    let workflow: SchemaWorkflow<u8> = SupportCaseOperator::setup("support_case");
    assert_eq!(workflow.action(), SchemaAction::Connect { schema: "support_case" });
    let workflow = workflow.resume(SchemaEvent::Worked(9)).resume(SchemaEvent::Connected);
    assert_eq!(workflow.action(), SchemaAction::Setup);
    let workflow = workflow.resume(SchemaEvent::Worked(3));
    assert_eq!(workflow.stage, SchemaStage::Ended(Ok(3)));

    let workflow: SchemaWorkflow<u8> = SupportCaseOperator::upgrade("support_case");
    let connected = workflow.resume(SchemaEvent::Connected);
    assert_eq!(connected.action(), SchemaAction::Upgrade);
    let failed = connected.resume(SchemaEvent::Failed("no connection".to_owned()));
    assert_eq!(failed.action(), SchemaAction::Finish);
    match failed.stage {
        SchemaStage::Ended(Err(error)) => assert_eq!(error.text(), "no connection"),
        other => panic!("{other:?}"),
    }
}
