use vstd::prelude::*;

use crate::settings::PassthroughMode;

verus! {

/// What the URL parser of the `url` crate (re-exported by
/// `axum_keycloak_auth`) makes of `s` as a Keycloak server address: `None`
/// when `s` parses as an absolute URL to which path segments can be
/// appended, otherwise the description it is refused with — the parser's
/// message, or the fixed note for a parseable URL that cannot carry a
/// path. A function of the characters alone.
pub uninterp spec fn server_url_fault(s: Seq<char>) -> Option<Seq<char>>;

/// The URL parser accepts `s` as a Keycloak server address.
pub open spec fn is_server_url(s: Seq<char>) -> bool {
    server_url_fault(s) is None
}

#[verifier::external_type_specification]
#[verifier::external_body]
pub struct ExKeycloakAuthInstance(axum_keycloak_auth::instance::KeycloakAuthInstance);

#[verifier::external_type_specification]
#[verifier::external_body]
#[verifier::reject_recursive_types(S)]
pub struct ExRouter<S>(axum::Router<S>);

/// The values an authentication instance is built from.
pub struct InstanceConfig {
    pub server_url: Seq<char>,
    pub realm: Seq<char>,
}

/// The values a built authentication layer is configured with: what the
/// middleware validates bearer tokens against.
pub struct LayerConfig {
    pub instance: InstanceConfig,
    pub passthrough_mode: PassthroughMode,
    pub persist_raw_claims: bool,
    pub expected_audiences: Seq<Seq<char>>,
}

/// An authentication instance of `axum_keycloak_auth`, together with the
/// record of the values it was built from.
pub struct AuthInstance {
    inner: axum_keycloak_auth::instance::KeycloakAuthInstance,
    server_url: String,
    realm: String,
}

impl AuthInstance {
    /// The values this instance was built from.
    pub closed spec fn config(self) -> InstanceConfig {
        InstanceConfig { server_url: self.server_url@, realm: self.realm@ }
    }
}

/// The token-validating middleware that `axum_keycloak_auth` produces. It
/// is held in a private field because Verus cannot declare the outside
/// type itself: its generic parameters carry bounds on outside traits.
#[verifier::external_body]
struct AuthLayerInner {
    layer: axum_keycloak_auth::layer::KeycloakAuthLayer<String>,
}

/// The built authentication layer, together with the record of the values
/// it was configured with.
pub struct AuthLayer {
    inner: AuthLayerInner,
    server_url: String,
    realm: String,
    passthrough_mode: PassthroughMode,
    persist_raw_claims: bool,
    expected_audiences: Vec<String>,
}

impl AuthLayer {
    /// The values this layer was configured with.
    pub closed spec fn config(self) -> LayerConfig {
        LayerConfig {
            instance: InstanceConfig { server_url: self.server_url@, realm: self.realm@ },
            passthrough_mode: self.passthrough_mode,
            persist_raw_claims: self.persist_raw_claims,
            expected_audiences: self.expected_audiences@.map_values(|x: String| x@),
        }
    }

    /// The server URL this layer's instance was built for.
    pub fn server_url(&self) -> (r: &String)
        ensures
            r@ == self.config().instance.server_url,
    {
        &self.server_url
    }

    /// The realm this layer's instance was built for.
    pub fn realm(&self) -> (r: &String)
        ensures
            r@ == self.config().instance.realm,
    {
        &self.realm
    }

    /// The passthrough mode this layer was configured with.
    pub fn passthrough_mode(&self) -> (r: PassthroughMode)
        ensures
            r == self.config().passthrough_mode,
    {
        self.passthrough_mode
    }

    /// Whether this layer was configured to keep raw claims available.
    pub fn persist_raw_claims(&self) -> (r: bool)
        ensures
            r == self.config().persist_raw_claims,
    {
        self.persist_raw_claims
    }

    /// The audiences this layer was configured to expect.
    pub fn expected_audiences(&self) -> (r: &Vec<String>)
        ensures
            r@.map_values(|x: String| x@) == self.config().expected_audiences,
    {
        &self.expected_audiences
    }
}

/// Relies on `url::Url::parse` and `url::Url::cannot_be_a_base`: accepts
/// exactly the strings that parse as an absolute URL to which path segments
/// can be appended (instance construction appends the realm discovery
/// path), and reports the refused string's description otherwise.
#[verifier::external_body]
pub(crate) fn validate_server_url(s: &str) -> (r: Result<(), String>)
    ensures
        r is Ok <==> is_server_url(s@),
        r matches Err(d) ==> d@ == server_url_fault(s@)->0,
{
    match axum_keycloak_auth::Url::parse(s) {
        Ok(url) => {
            if url.cannot_be_a_base() {
                Err(format!("URL cannot be a base for the realm path"))
            } else {
                Ok(())
            }
        },
        Err(e) => Err(format!("{}", e)),
    }
}

/// Relies on `KeycloakConfig::builder` and `KeycloakAuthInstance::new` of
/// `axum_keycloak_auth`: builds the instance from exactly the given server
/// URL and realm and starts its OIDC discovery task, which is what the
/// record states. The caller must run inside a tokio runtime. The URL must
/// have been accepted by `validate_server_url`, since instance
/// construction appends path segments to it and refuses a URL that cannot
/// carry them.
#[verifier::external_body]
pub(crate) fn new_auth_instance(server_url: &str, realm: String) -> (r: AuthInstance)
    requires
        is_server_url(server_url@),
    ensures
        r.config() == (InstanceConfig { server_url: server_url@, realm: realm@ }),
{
    let server = axum_keycloak_auth::Url::parse(server_url).expect("a validated server URL");
    let inner = axum_keycloak_auth::instance::KeycloakAuthInstance::new(
        axum_keycloak_auth::instance::KeycloakConfig::builder().server(server).realm(
            realm.clone(),
        ).build(),
    );
    AuthInstance { inner, server_url: server_url.to_owned(), realm }
}

/// Relies on `KeycloakAuthLayer::builder` of `axum_keycloak_auth`: builds
/// the token-validating middleware over exactly the given instance, with
/// exactly the given passthrough mode, claim persistence and expected
/// audiences, which is what the record states.
#[verifier::external_body]
pub(crate) fn new_auth_layer(
    instance: AuthInstance,
    mode: PassthroughMode,
    persist_raw_claims: bool,
    expected_audiences: Vec<String>,
) -> (r: AuthLayer)
    ensures
        r.config() == (LayerConfig {
            instance: instance.config(),
            passthrough_mode: mode,
            persist_raw_claims: persist_raw_claims,
            expected_audiences: expected_audiences@.map_values(|x: String| x@),
        }),
{
    let m = match mode {
        PassthroughMode::Block => axum_keycloak_auth::PassthroughMode::Block,
        PassthroughMode::Pass => axum_keycloak_auth::PassthroughMode::Pass,
    };
    let AuthInstance { inner, server_url, realm } = instance;
    let layer = axum_keycloak_auth::layer::KeycloakAuthLayer::<String>::builder().instance(inner)
        .passthrough_mode(m).persist_raw_claims(persist_raw_claims)
        .expected_audiences(expected_audiences.clone()).build();
    let inner = AuthLayerInner { layer };
    AuthLayer { inner, server_url, realm, passthrough_mode: mode, persist_raw_claims,
        expected_audiences }
}

/// Relies on `axum::Router::layer`: wraps every previously registered route
/// of the router in the given middleware.
#[verifier::external_body]
pub(crate) fn layer_router(router: axum::Router, layer: AuthLayer) -> (r: axum::Router) {
    router.layer(layer.inner.layer)
}

} // verus!
