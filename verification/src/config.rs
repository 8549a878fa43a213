//! The immutable configuration of one Support Case instance.

use vstd::prelude::*;
use vstd::string::*;

use crate::fault::Fault;
use crate::outside;
use crate::outside::{accepts_schema_name, accepts_verification_key};
use crate::validate;
use crate::validate::{
    valid_identifier, valid_secret_reference, validate_callers, MAX_IDENTIFIER_BYTES,
};

verus! {

/// The size of an export that no configuration may exceed: eight mebibytes.
pub const DEFAULT_MAX_EXPORT_BYTES: usize = 8_388_608;

/// Immutable configuration for one Support Case Plugin Instance.
#[derive(Clone, Debug, Eq, PartialEq)]
pub struct SupportCaseConfig {
    pub schema: String,
    pub database_url_secret: String,
    pub auth_issuer: String,
    pub auth_assertion_public_key: String,
    pub business_callers: Vec<String>,
    pub intake_callers: Vec<String>,
    pub resource_callers: Vec<String>,
    pub export_callers: Vec<String>,
    pub retention_callers: Vec<String>,
    pub max_export_bytes: usize,
}

/// Invalid immutable Support Case configuration.
#[derive(Clone, Copy, Debug, Eq, PartialEq)]
pub enum SupportCaseConfigError {
    InvalidSchema,
    InvalidSecretReference,
    InvalidAuthIssuer,
    InvalidAuthPublicKey,
    InvalidBusinessCallers,
    InvalidIntakeCallers,
    InvalidResourceCallers,
    InvalidExportCallers,
    InvalidRetentionCallers,
    InvalidExportLimit,
}

/// The first rule that a configuration breaks, in the order in which they are
/// checked, given whether its verification key is accepted.
pub open spec fn first_violation(
    config: SupportCaseConfig,
    key_accepted: bool,
) -> Option<SupportCaseConfigError> {
    if !outside::owned_schema_name(config.schema@) {
        Some(SupportCaseConfigError::InvalidSchema)
    } else if !validate::secret_reference(config.database_url_secret@) {
        Some(SupportCaseConfigError::InvalidSecretReference)
    } else if !validate::identifier(config.auth_issuer@, MAX_IDENTIFIER_BYTES as nat) {
        Some(SupportCaseConfigError::InvalidAuthIssuer)
    } else if !key_accepted {
        Some(SupportCaseConfigError::InvalidAuthPublicKey)
    } else if !validate::caller_list(config.business_callers@) {
        Some(SupportCaseConfigError::InvalidBusinessCallers)
    } else if !validate::caller_list(config.intake_callers@) {
        Some(SupportCaseConfigError::InvalidIntakeCallers)
    } else if !validate::caller_list(config.resource_callers@) {
        Some(SupportCaseConfigError::InvalidResourceCallers)
    } else if !validate::caller_list(config.export_callers@) {
        Some(SupportCaseConfigError::InvalidExportCallers)
    } else if !validate::caller_list(config.retention_callers@) {
        Some(SupportCaseConfigError::InvalidRetentionCallers)
    } else if !(1 <= config.max_export_bytes <= DEFAULT_MAX_EXPORT_BYTES) {
        Some(SupportCaseConfigError::InvalidExportLimit)
    } else {
        None
    }
}

/// What a configuration error says.
pub open spec fn error_text(error: SupportCaseConfigError) -> Seq<char> {
    match error {
        SupportCaseConfigError::InvalidSchema => "invalid owned PostgreSQL schema"@,
        SupportCaseConfigError::InvalidSecretReference => "invalid database URL secret reference"@,
        SupportCaseConfigError::InvalidAuthIssuer => "invalid Auth issuer"@,
        SupportCaseConfigError::InvalidAuthPublicKey => "invalid Auth assertion public key"@,
        SupportCaseConfigError::InvalidBusinessCallers =>
            "business_callers must contain unique exact Instance keys"@,
        SupportCaseConfigError::InvalidIntakeCallers =>
            "intake_callers must contain unique exact Instance keys"@,
        SupportCaseConfigError::InvalidResourceCallers =>
            "resource_callers must contain unique exact Instance keys"@,
        SupportCaseConfigError::InvalidExportCallers =>
            "export_callers must contain unique exact Instance keys"@,
        SupportCaseConfigError::InvalidRetentionCallers =>
            "retention_callers must contain unique exact Instance keys"@,
        SupportCaseConfigError::InvalidExportLimit =>
            "max_export_bytes must be between 1 and 8388608"@,
    }
}

impl SupportCaseConfigError {
    /// The message of the error.
    pub fn text(&self) -> (text: &'static str)
        ensures
            text@ == error_text(*self),
    {
        match self {
            SupportCaseConfigError::InvalidSchema => "invalid owned PostgreSQL schema",
            SupportCaseConfigError::InvalidSecretReference => "invalid database URL secret reference",
            SupportCaseConfigError::InvalidAuthIssuer => "invalid Auth issuer",
            SupportCaseConfigError::InvalidAuthPublicKey => "invalid Auth assertion public key",
            SupportCaseConfigError::InvalidBusinessCallers =>
                "business_callers must contain unique exact Instance keys",
            SupportCaseConfigError::InvalidIntakeCallers =>
                "intake_callers must contain unique exact Instance keys",
            SupportCaseConfigError::InvalidResourceCallers =>
                "resource_callers must contain unique exact Instance keys",
            SupportCaseConfigError::InvalidExportCallers =>
                "export_callers must contain unique exact Instance keys",
            SupportCaseConfigError::InvalidRetentionCallers =>
                "retention_callers must contain unique exact Instance keys",
            SupportCaseConfigError::InvalidExportLimit =>
                "max_export_bytes must be between 1 and 8388608",
        }
    }
}

/// The export limit of a configuration that names none.
pub fn default_max_export_bytes() -> (limit: usize)
    ensures
        limit == DEFAULT_MAX_EXPORT_BYTES,
{
    DEFAULT_MAX_EXPORT_BYTES
}

impl SupportCaseConfig {
    /// Whether the configuration breaks no rule.
    pub open spec fn valid(self) -> bool {
        first_violation(
            self,
            outside::verification_key(self.auth_assertion_public_key@),
        ) is None
    }

    /// Creates and validates immutable Support Case configuration.
    pub fn new(
        schema: String,
        database_url_secret: String,
        auth_issuer: String,
        auth_assertion_public_key: String,
        business_callers: Vec<String>,
        intake_callers: Vec<String>,
        resource_callers: Vec<String>,
        export_callers: Vec<String>,
        retention_callers: Vec<String>,
        max_export_bytes: usize,
    ) -> (result: Result<SupportCaseConfig, SupportCaseConfigError>)
        ensures
            ({
                let config = SupportCaseConfig {
                    schema,
                    database_url_secret,
                    auth_issuer,
                    auth_assertion_public_key,
                    business_callers,
                    intake_callers,
                    resource_callers,
                    export_callers,
                    retention_callers,
                    max_export_bytes,
                };
                match first_violation(
                    config,
                    outside::verification_key(auth_assertion_public_key@),
                ) {
                    Some(error) => result == Err::<SupportCaseConfig, _>(error),
                    None => result == Ok::<_, SupportCaseConfigError>(config),
                }
            }),
    {
        let config = SupportCaseConfig {
            schema,
            database_url_secret,
            auth_issuer,
            auth_assertion_public_key,
            business_callers,
            intake_callers,
            resource_callers,
            export_callers,
            retention_callers,
            max_export_bytes,
        };
        match config.validate() {
            Ok(()) => Ok(config),
            Err(error) => Err(error),
        }
    }

    /// Checks every rule and reports the first that is broken.
    pub fn validate(&self) -> (result: Result<(), SupportCaseConfigError>)
        ensures
            result == match first_violation(
                *self,
                outside::verification_key(self.auth_assertion_public_key@),
            ) {
                Some(error) => Err::<(), _>(error),
                None => Ok(()),
            },
    {
        let accepted = accepts_verification_key(
            self.auth_issuer.as_str(),
            self.auth_assertion_public_key.as_str(),
        );
        self.validate_with_key(accepted)
    }

    /// Checks every rule, given whether the verification key is accepted.
    pub fn validate_with_key(&self, key_accepted: bool) -> (result: Result<
        (),
        SupportCaseConfigError,
    >)
        ensures
            result == match first_violation(*self, key_accepted) {
                Some(error) => Err::<(), _>(error),
                None => Ok(()),
            },
    {
        if !accepts_schema_name(self.schema.as_str()) {
            return Err(SupportCaseConfigError::InvalidSchema);
        }
        if !valid_secret_reference(self.database_url_secret.as_str()) {
            return Err(SupportCaseConfigError::InvalidSecretReference);
        }
        if !valid_identifier(self.auth_issuer.as_str(), MAX_IDENTIFIER_BYTES) {
            return Err(SupportCaseConfigError::InvalidAuthIssuer);
        }
        if !key_accepted {
            return Err(SupportCaseConfigError::InvalidAuthPublicKey);
        }
        if validate_callers(&self.business_callers).is_err() {
            return Err(SupportCaseConfigError::InvalidBusinessCallers);
        }
        if validate_callers(&self.intake_callers).is_err() {
            return Err(SupportCaseConfigError::InvalidIntakeCallers);
        }
        if validate_callers(&self.resource_callers).is_err() {
            return Err(SupportCaseConfigError::InvalidResourceCallers);
        }
        if validate_callers(&self.export_callers).is_err() {
            return Err(SupportCaseConfigError::InvalidExportCallers);
        }
        if validate_callers(&self.retention_callers).is_err() {
            return Err(SupportCaseConfigError::InvalidRetentionCallers);
        }
        if !(1 <= self.max_export_bytes && self.max_export_bytes <= DEFAULT_MAX_EXPORT_BYTES) {
            return Err(SupportCaseConfigError::InvalidExportLimit);
        }
        Ok(())
    }
}

/// Refuses a resolved plan whose configuration is invalid.
pub fn validate_config<F>(config: &SupportCaseConfig) -> (result: Result<(), Fault<F>>)
    ensures
        match first_violation(
            *config,
            outside::verification_key(config.auth_assertion_public_key@),
        ) {
            Some(error) => result matches Err(Fault::InvalidResolvedPlan { detail }) && detail@
                == "Support Case configuration is invalid: "@ + error_text(error),
            None => result is Ok,
        },
{
    match config.validate() {
        Ok(()) => Ok(()),
        Err(error) => {
            let mut detail = "Support Case configuration is invalid: ".to_owned();
            detail.append(error.text());
            Err(Fault::InvalidResolvedPlan { detail })
        },
    }
}

} // verus!
