use vstd::prelude::*;
use vstd::string::StringExecFns;

verus! {

/// A configuration-time failure: the settings tree is absent or malformed,
/// or the Keycloak server URL does not parse. Every failure aborts layer
/// construction; there is no runtime error path.
#[derive(Debug, Clone, PartialEq, Eq)]
pub enum ConfigError {
    /// The `keycloak_settings` sub-tree is absent from the configuration.
    MissingSettings,
    /// The `keycloak_settings` sub-tree has the wrong shape; `detail` names
    /// the missing or ill-typed field.
    InvalidSettings { detail: String },
    /// The `url` field does not hold a usable absolute URL; `detail` carries
    /// the parser's description.
    InvalidUrl { detail: String },
    /// The `passthrough_mode` field holds neither `"block"` nor `"pass"` in
    /// any casing; `token` is the offending string.
    InvalidPassthroughMode { token: String },
}

impl ConfigError {
    /// The human-readable message that this error renders to.
    pub open spec fn message_view(self) -> Seq<char> {
        match self {
            ConfigError::MissingSettings => "Missing `keycloak_settings` in config"@,
            ConfigError::InvalidSettings { detail } => "Invalid settings: "@ + detail@,
            ConfigError::InvalidUrl { detail } => "Invalid Keycloak server URL: "@ + detail@,
            ConfigError::InvalidPassthroughMode { token } => "Invalid passthrough mode: "@
                + token@,
        }
    }

    /// Renders the error as a human-readable message.
    pub fn message(&self) -> (r: String)
        ensures
            r@ == self.message_view(),
    {
        match self {
            ConfigError::MissingSettings => "Missing `keycloak_settings` in config".to_owned(),
            ConfigError::InvalidSettings { detail } => "Invalid settings: ".to_owned().concat(
                detail.as_str(),
            ),
            ConfigError::InvalidUrl { detail } => "Invalid Keycloak server URL: ".to_owned()
                .concat(detail.as_str()),
            ConfigError::InvalidPassthroughMode { token } => "Invalid passthrough mode: "
                .to_owned().concat(token.as_str()),
        }
    }
}

} // verus!
