use vstd::prelude::*;
use vstd::string::StringExecFns;

use crate::build_keycloak_layer;
use crate::build_failure_matches;
use crate::config::ConfigValue;
use crate::config_accepted;
use crate::config_view;
use crate::error::ConfigError;
use crate::external::layer_router;

verus! {

/// Registers the Keycloak authentication layer with the host framework's
/// startup sequence: once all routes are in place, the layer built from the
/// application's settings is wrapped around every one of them.
pub struct KeycloakAuthInitializer;

impl KeycloakAuthInitializer {
    /// The fixed name under which this initializer is known to the host
    /// framework, whatever the configuration holds.
    pub fn name(&self) -> (r: String)
        ensures
            r@ == "keycloak_auth"@,
    {
        "keycloak_auth".to_owned()
    }

    /// The hook run after the host framework has registered all routes:
    /// builds the authentication layer from the settings tree and wraps the
    /// router in it, or reports the first configuration fault.
    pub fn after_routes(&self, router: axum::Router, config: Option<&ConfigValue>) -> (r: Result<
        axum::Router,
        ConfigError,
    >)
        ensures
            r is Ok <==> config_accepted(config_view(config)),
            r matches Err(e) ==> build_failure_matches(config_view(config), e),
    {
        match build_keycloak_layer(config) {
            Ok(layer) => Ok(layer_router(router, layer)),
            Err(e) => Err(e),
        }
    }

    /// The message the host framework's startup sequence reports when layer
    /// construction fails.
    pub fn failure_message(e: &ConfigError) -> (r: String)
        ensures
            r@ == "Failed to create Keycloak layer: "@ + e.message_view(),
    {
        let detail = e.message();
        "Failed to create Keycloak layer: ".to_owned().concat(detail.as_str())
    }
}

} // verus!
