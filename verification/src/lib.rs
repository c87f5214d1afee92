pub mod config;
pub mod external;
pub mod settings;
pub mod error;
pub mod initializer;

use vstd::prelude::*;

pub use axum_keycloak_auth::decode::KeycloakToken;

use crate::config::ConfigValue;
use crate::error::ConfigError;
use crate::external::{
    is_server_url, layer_router, new_auth_instance, new_auth_layer, server_url_fault,
    validate_server_url, AuthLayer, InstanceConfig, LayerConfig,
};
use crate::settings::{
    keycloak_error_matches, mode_of_token, mode_token_view, text_views, wf_keycloak_tree,
    wf_settings_tree, Settings,
};

verus! {

/// The settings tree as the layer builder sees it: absent, or handed over
/// by the host application.
pub open spec fn config_view(config: Option<&ConfigValue>) -> Option<ConfigValue> {
    match config {
        Some(v) => Some(*v),
        None => None,
    }
}

/// The `keycloak_settings` section of a settings tree that carries one.
pub open spec fn section_view(config: Option<ConfigValue>) -> ConfigValue {
    config->0.get_view("keycloak_settings"@)->0
}

/// The URL the settings tree spells out for the Keycloak server.
pub open spec fn server_url_view(v: ConfigValue) -> Seq<char> {
    v.get_view("keycloak_settings"@)->0.get_view("url"@)->0->Text_0@
}

/// The configuration the authentication layer is owed from a well-shaped
/// `keycloak_settings` sub-tree `v`: its URL and realm into the instance,
/// its mode token's meaning, its flag and its audiences into the layer.
pub open spec fn layer_config_of_tree(v: ConfigValue) -> LayerConfig {
    LayerConfig {
        instance: InstanceConfig {
            server_url: v.get_view("url"@)->0->Text_0@,
            realm: v.get_view("realm"@)->0->Text_0@,
        },
        passthrough_mode: mode_of_token(mode_token_view(v)),
        persist_raw_claims: v.get_view("persist_raw_claims"@)->0->Bool_0,
        expected_audiences: text_views(v.get_view("expected_audiences"@)->0->Array_0@),
    }
}

/// The configuration is complete: a settings tree was handed over, its
/// `keycloak_settings` section is well shaped, and the server URL is one
/// the URL parser accepts. Layer construction succeeds exactly on such
/// configurations.
pub open spec fn config_accepted(config: Option<ConfigValue>) -> bool {
    &&& config is Some
    &&& wf_settings_tree(config->0)
    &&& is_server_url(server_url_view(config->0))
}

/// The exact error a rejected configuration is reported with: a missing
/// tree or section, the first fault of a malformed section, or the URL the
/// parser refused.
pub open spec fn build_failure_matches(config: Option<ConfigValue>, e: ConfigError) -> bool {
    if config is None || config->0.get_view("keycloak_settings"@) is None {
        e == ConfigError::MissingSettings
    } else if !wf_keycloak_tree(config->0.get_view("keycloak_settings"@)->0) {
        keycloak_error_matches(config->0.get_view("keycloak_settings"@)->0, e)
    } else {
        e matches ConfigError::InvalidUrl { detail } && detail@ == server_url_fault(
            server_url_view(config->0),
        )->0
    }
}

/// Builds the Keycloak authentication layer from the host application's
/// settings tree: reads and checks the `keycloak_settings` section, checks
/// the server URL, and hands the values to the middleware builder.
/// Fail-fast: the first fault is reported and nothing is constructed.
pub fn build_keycloak_layer(config: Option<&ConfigValue>) -> (r: Result<AuthLayer, ConfigError>)
    ensures
        r is Ok <==> config_accepted(config_view(config)),
        r matches Ok(l) ==> l.config() == layer_config_of_tree(section_view(config_view(config))),
        r matches Err(e) ==> build_failure_matches(config_view(config), e),
{
    let v: &ConfigValue = match config {
        None => {
            return Err(ConfigError::MissingSettings);
        },
        Some(v) => v,
    };
    let settings: Settings = match Settings::from_config(v) {
        Ok(s) => s,
        Err(e) => {
            return Err(e);
        },
    };
    let ks = settings.keycloak_settings;
    match validate_server_url(ks.url.as_str()) {
        Ok(_) => {},
        Err(detail) => {
            return Err(ConfigError::InvalidUrl { detail });
        },
    }
    let instance = new_auth_instance(ks.url.as_str(), ks.realm);
    Ok(
        new_auth_layer(
            instance,
            ks.passthrough_mode.0,
            ks.persist_raw_claims,
            ks.expected_audiences,
        ),
    )
}

/// Holds the Keycloak authentication layer once it is built from the
/// application's settings.
pub struct Keycloak {
    pub layer: AuthLayer,
}

impl Keycloak {
    /// Builds the layer from the settings tree the application context
    /// hands over.
    pub fn from_context(config: Option<&ConfigValue>) -> (r: Result<Keycloak, ConfigError>)
        ensures
            r is Ok <==> config_accepted(config_view(config)),
            r matches Ok(kc) ==> kc.layer.config() == layer_config_of_tree(
                section_view(config_view(config)),
            ),
            r matches Err(e) ==> build_failure_matches(config_view(config), e),
    {
        match build_keycloak_layer(config) {
            Ok(layer) => Ok(Keycloak { layer }),
            Err(e) => Err(e),
        }
    }

    /// Wraps every route of the router in the authentication layer.
    pub fn attach(self, router: axum::Router) -> axum::Router {
        layer_router(router, self.layer)
    }
}

} // verus!
