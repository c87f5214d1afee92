use vstd::prelude::*;

use crate::config::ConfigValue;
use crate::error::ConfigError;

verus! {

/// Policy for requests that fail authentication: reject them with an error
/// response, or let them through with the failure recorded as request
/// metadata.
#[derive(Debug, Clone, Copy, PartialEq, Eq, Structural)]
pub enum PassthroughMode {
    Block,
    Pass,
}

/// The passthrough-mode policy as it is read from the configuration, where
/// it is written as one of the two tokens `"block"` and `"pass"`, in any
/// casing that Unicode lowercasing maps to the token.
#[derive(Debug, Clone, Copy, PartialEq, Eq, Structural)]
pub struct PassthroughModeDef(pub PassthroughMode);

/// `s` lowercases to `block`: each letter in its ASCII casings, and the
/// final `k` also as the Kelvin sign (U+212A), the one other character
/// whose Unicode lowercase is an ASCII letter of the token.
pub open spec fn is_block_token(s: Seq<char>) -> bool {
    &&& s.len() == 5
    &&& (s[0] == 'b' || s[0] == 'B')
    &&& (s[1] == 'l' || s[1] == 'L')
    &&& (s[2] == 'o' || s[2] == 'O')
    &&& (s[3] == 'c' || s[3] == 'C')
    &&& (s[4] == 'k' || s[4] == 'K' || s[4] == '\u{212A}')
}

/// `s` lowercases to `pass`: no character outside the ASCII casings
/// lowercases to `p`, `a` or `s`.
pub open spec fn is_pass_token(s: Seq<char>) -> bool {
    &&& s.len() == 4
    &&& (s[0] == 'p' || s[0] == 'P')
    &&& (s[1] == 'a' || s[1] == 'A')
    &&& (s[2] == 's' || s[2] == 'S')
    &&& (s[3] == 's' || s[3] == 'S')
}

/// `s` is one of the two accepted passthrough-mode tokens.
pub open spec fn is_mode_token(s: Seq<char>) -> bool {
    is_block_token(s) || is_pass_token(s)
}

/// The mode a valid token denotes.
pub open spec fn mode_of_token(s: Seq<char>) -> PassthroughMode
    recommends
        is_mode_token(s),
{
    if is_block_token(s) {
        PassthroughMode::Block
    } else {
        PassthroughMode::Pass
    }
}

impl PassthroughModeDef {
    /// Parses a passthrough-mode token: exactly the strings whose Unicode
    /// lowercase is `"block"` or `"pass"` are accepted; any other string is
    /// rejected with an error naming it.
    pub fn parse(s: &str) -> (r: Result<PassthroughModeDef, ConfigError>)
        ensures
            r is Ok <==> is_mode_token(s@),
            is_mode_token(s@) ==> r == Ok::<PassthroughModeDef, ConfigError>(
                PassthroughModeDef(mode_of_token(s@)),
            ),
            !is_mode_token(s@) ==> (r matches Err(e)
                && e matches ConfigError::InvalidPassthroughMode { token } && token@ == s@),
    {
        let n = s.unicode_len();
        if n == 5 {
            let c0 = s.get_char(0);
            let c1 = s.get_char(1);
            let c2 = s.get_char(2);
            let c3 = s.get_char(3);
            let c4 = s.get_char(4);
            if (c0 == 'b' || c0 == 'B') && (c1 == 'l' || c1 == 'L') && (c2 == 'o' || c2 == 'O')
                && (c3 == 'c' || c3 == 'C') && (c4 == 'k' || c4 == 'K' || c4 == '\u{212A}') {
                return Ok(PassthroughModeDef(PassthroughMode::Block));
            }
        }
        if n == 4 {
            let c0 = s.get_char(0);
            let c1 = s.get_char(1);
            let c2 = s.get_char(2);
            let c3 = s.get_char(3);
            if (c0 == 'p' || c0 == 'P') && (c1 == 'a' || c1 == 'A') && (c2 == 's' || c2 == 'S')
                && (c3 == 's' || c3 == 'S') {
                return Ok(PassthroughModeDef(PassthroughMode::Pass));
            }
        }
        Err(ConfigError::InvalidPassthroughMode { token: s.to_owned() })
    }
}

/// The values needed to initialize the Keycloak authentication layer, read
/// from the `keycloak_settings` section of the application's configuration.
#[derive(Debug, Clone, PartialEq, Eq)]
pub struct KeycloakSettings {
    /// The full URL of the Keycloak server (e.g. `https://sso.example.com`).
    pub url: String,
    /// The realm name in Keycloak (e.g. `myrealm`).
    pub realm: String,
    /// The audiences a token is expected to carry (typically `"account"`).
    pub expected_audiences: Vec<String>,
    /// How the authentication layer treats requests that fail to
    /// authenticate: `Block` rejects them, `Pass` lets them through with the
    /// status recorded as request metadata.
    pub passthrough_mode: PassthroughModeDef,
    /// Whether the raw token claims are kept available to request handlers.
    pub persist_raw_claims: bool,
}

/// The application's custom settings, of which this library reads only the
/// `keycloak_settings` section.
#[derive(Debug, Clone, PartialEq, Eq)]
pub struct Settings {
    pub keycloak_settings: KeycloakSettings,
}

/// Every entry is a text value.
pub open spec fn all_text(items: Seq<ConfigValue>) -> bool {
    forall|i: int| 0 <= i < items.len() ==> items[i] is Text
}

/// The character sequences the entries hold.
pub open spec fn text_views(items: Seq<ConfigValue>) -> Seq<Seq<char>> {
    items.map_values(|v: ConfigValue| v->Text_0@)
}

/// The `keycloak_settings` sub-tree carries every required field with the
/// right shape: text `url` and `realm`, a list of text `expected_audiences`,
/// a valid `passthrough_mode` token, and a boolean `persist_raw_claims`.
pub open spec fn wf_keycloak_tree(v: ConfigValue) -> bool {
    &&& (v.get_view("url"@) matches Some(u) && u is Text)
    &&& (v.get_view("realm"@) matches Some(r) && r is Text)
    &&& (v.get_view("expected_audiences"@) matches Some(a) && a is Array && all_text(
        a->Array_0@,
    ))
    &&& (v.get_view("passthrough_mode"@) matches Some(m) && m is Text && is_mode_token(
        m->Text_0@,
    ))
    &&& (v.get_view("persist_raw_claims"@) matches Some(b) && b is Bool)
}

/// The token under `passthrough_mode`, where that field is text.
pub open spec fn mode_token_view(v: ConfigValue) -> Seq<char> {
    v.get_view("passthrough_mode"@)->0->Text_0@
}

/// Everything up to and including the `passthrough_mode` field is shaped
/// right, but the token it holds is not one of the two accepted ones. The
/// fields are checked in declaration order, so this is the exact condition
/// under which extraction reports the bad token itself.
pub open spec fn has_bad_mode_token(v: ConfigValue) -> bool {
    &&& (v.get_view("url"@) matches Some(u) && u is Text)
    &&& (v.get_view("realm"@) matches Some(r) && r is Text)
    &&& (v.get_view("expected_audiences"@) matches Some(a) && a is Array && all_text(
        a->Array_0@,
    ))
    &&& (v.get_view("passthrough_mode"@) matches Some(m) && m is Text && !is_mode_token(
        m->Text_0@,
    ))
}

/// The detail a malformed `keycloak_settings` sub-tree is reported with,
/// following the order in which the fields are checked. Meaningful only
/// when the tree is malformed otherwise than by a bad mode token.
pub open spec fn keycloak_tree_fault(v: ConfigValue) -> Seq<char>
    recommends
        !wf_keycloak_tree(v),
        !has_bad_mode_token(v),
{
    if !(v is Object) {
        "`keycloak_settings` must be a mapping"@
    } else if v.get_view("url"@) is None {
        "missing field `url`"@
    } else if !(v.get_view("url"@)->0 is Text) {
        "field `url` must be a string"@
    } else if v.get_view("realm"@) is None {
        "missing field `realm`"@
    } else if !(v.get_view("realm"@)->0 is Text) {
        "field `realm` must be a string"@
    } else if v.get_view("expected_audiences"@) is None {
        "missing field `expected_audiences`"@
    } else if !(v.get_view("expected_audiences"@)->0 is Array && all_text(
        v.get_view("expected_audiences"@)->0->Array_0@,
    )) {
        "field `expected_audiences` must be a list of strings"@
    } else if v.get_view("passthrough_mode"@) is None {
        "missing field `passthrough_mode`"@
    } else if !(v.get_view("passthrough_mode"@)->0 is Text) {
        "field `passthrough_mode` must be a string"@
    } else if v.get_view("persist_raw_claims"@) is None {
        "missing field `persist_raw_claims`"@
    } else {
        "field `persist_raw_claims` must be a boolean"@
    }
}

/// The exact error a malformed `keycloak_settings` sub-tree is rejected
/// with: the offending token for a bad passthrough mode, the first fault in
/// field order otherwise.
pub open spec fn keycloak_error_matches(v: ConfigValue, e: ConfigError) -> bool {
    if has_bad_mode_token(v) {
        e matches ConfigError::InvalidPassthroughMode { token } && token@ == mode_token_view(v)
    } else {
        e matches ConfigError::InvalidSettings { detail } && detail@ == keycloak_tree_fault(v)
    }
}

/// `s` holds exactly the values the `keycloak_settings` sub-tree `v` spells
/// out.
pub open spec fn settings_match_tree(s: KeycloakSettings, v: ConfigValue) -> bool {
    &&& s.url@ == v.get_view("url"@)->0->Text_0@
    &&& s.realm@ == v.get_view("realm"@)->0->Text_0@
    &&& s.expected_audiences@.map_values(|x: String| x@) == text_views(
        v.get_view("expected_audiences"@)->0->Array_0@,
    )
    &&& s.passthrough_mode == PassthroughModeDef(mode_of_token(mode_token_view(v)))
    &&& s.persist_raw_claims == v.get_view("persist_raw_claims"@)->0->Bool_0
}

/// Repeated constructions from one settings tree cannot diverge: every
/// value handed to the middleware builder — server URL, realm, audiences,
/// passthrough mode, claim persistence — is pinned by the tree alone, so
/// any two extractions from equal trees agree on all of them.
pub proof fn lemma_settings_determined(s1: KeycloakSettings, s2: KeycloakSettings, v: ConfigValue)
    requires
        settings_match_tree(s1, v),
        settings_match_tree(s2, v),
    ensures
        s1.url@ == s2.url@,
        s1.realm@ == s2.realm@,
        s1.expected_audiences@.map_values(|x: String| x@) == s2.expected_audiences@.map_values(
            |x: String| x@,
        ),
        s1.passthrough_mode == s2.passthrough_mode,
        s1.persist_raw_claims == s2.persist_raw_claims,
{
}

impl KeycloakSettings {
    /// Reads the settings out of the `keycloak_settings` sub-tree, checking
    /// the fields in declaration order and rejecting the first fault.
    pub fn from_config(v: &ConfigValue) -> (r: Result<KeycloakSettings, ConfigError>)
        ensures
            r is Ok <==> wf_keycloak_tree(*v),
            r matches Ok(s) ==> settings_match_tree(s, *v),
            r matches Err(e) ==> keycloak_error_matches(*v, e),
    {
        match v {
            ConfigValue::Object(_) => {},
            _ => {
                return Err(
                    ConfigError::InvalidSettings {
                        detail: "`keycloak_settings` must be a mapping".to_owned(),
                    },
                );
            },
        }
        let url: String = match v.get("url") {
            None => {
                return Err(
                    ConfigError::InvalidSettings { detail: "missing field `url`".to_owned() },
                );
            },
            Some(ConfigValue::Text(s)) => s.clone(),
            Some(_) => {
                return Err(
                    ConfigError::InvalidSettings { detail: "field `url` must be a string".to_owned() },
                );
            },
        };
        let realm: String = match v.get("realm") {
            None => {
                return Err(
                    ConfigError::InvalidSettings { detail: "missing field `realm`".to_owned() },
                );
            },
            Some(ConfigValue::Text(s)) => s.clone(),
            Some(_) => {
                return Err(
                    ConfigError::InvalidSettings {
                        detail: "field `realm` must be a string".to_owned(),
                    },
                );
            },
        };
        let entries: &Vec<ConfigValue> = match v.get("expected_audiences") {
            None => {
                return Err(
                    ConfigError::InvalidSettings {
                        detail: "missing field `expected_audiences`".to_owned(),
                    },
                );
            },
            Some(ConfigValue::Array(items)) => items,
            Some(_) => {
                return Err(
                    ConfigError::InvalidSettings {
                        detail: "field `expected_audiences` must be a list of strings".to_owned(),
                    },
                );
            },
        };
        let mut audiences: Vec<String> = Vec::new();
        let n = entries.len();
        for i in 0..n
            invariant
                *v is Object,
                v.get_view("url"@) matches Some(u) && u is Text,
                v.get_view("realm"@) matches Some(t) && t is Text,
                v.get_view("expected_audiences"@) == Some(ConfigValue::Array(*entries)),
                n == entries@.len(),
                audiences@.len() == i,
                forall|j: int| 0 <= j < i ==> entries@[j] is Text,
                forall|j: int| 0 <= j < i ==> #[trigger] audiences@[j]@ == entries@[j]->Text_0@,
        {
            match &entries[i] {
                ConfigValue::Text(s) => audiences.push(s.clone()),
                _ => {
                    proof {
                        assert(entries@[i as int] !is Text);
                        assert(!all_text(entries@));
                    }
                    return Err(
                        ConfigError::InvalidSettings {
                            detail: "field `expected_audiences` must be a list of strings"
                                .to_owned(),
                        },
                    );
                },
            }
        }
        let mode: PassthroughModeDef = match v.get("passthrough_mode") {
            None => {
                return Err(
                    ConfigError::InvalidSettings {
                        detail: "missing field `passthrough_mode`".to_owned(),
                    },
                );
            },
            Some(ConfigValue::Text(s)) => match PassthroughModeDef::parse(s.as_str()) {
                Ok(m) => m,
                Err(e) => {
                    return Err(e);
                },
            },
            Some(_) => {
                return Err(
                    ConfigError::InvalidSettings {
                        detail: "field `passthrough_mode` must be a string".to_owned(),
                    },
                );
            },
        };
        let persist_raw_claims: bool = match v.get("persist_raw_claims") {
            None => {
                return Err(
                    ConfigError::InvalidSettings {
                        detail: "missing field `persist_raw_claims`".to_owned(),
                    },
                );
            },
            Some(ConfigValue::Bool(b)) => *b,
            Some(_) => {
                return Err(
                    ConfigError::InvalidSettings {
                        detail: "field `persist_raw_claims` must be a boolean".to_owned(),
                    },
                );
            },
        };
        proof {
            assert(audiences@.map_values(|x: String| x@) =~= text_views(entries@));
        }
        Ok(
            KeycloakSettings {
                url,
                realm,
                expected_audiences: audiences,
                passthrough_mode: mode,
                persist_raw_claims,
            },
        )
    }
}

/// The application settings tree carries a `keycloak_settings` section of
/// the right shape.
pub open spec fn wf_settings_tree(v: ConfigValue) -> bool {
    v.get_view("keycloak_settings"@) matches Some(k) && wf_keycloak_tree(k)
}

impl Settings {
    /// Reads the library's settings out of the application's settings tree:
    /// the `keycloak_settings` section must be present and well shaped.
    pub fn from_config(v: &ConfigValue) -> (r: Result<Settings, ConfigError>)
        ensures
            r is Ok <==> wf_settings_tree(*v),
            v.get_view("keycloak_settings"@) is None ==> r == Err::<Settings, ConfigError>(
                ConfigError::MissingSettings,
            ),
            v.get_view("keycloak_settings"@) is Some && !wf_keycloak_tree(
                v.get_view("keycloak_settings"@)->0,
            ) ==> (r matches Err(e) && keycloak_error_matches(
                v.get_view("keycloak_settings"@)->0,
                e,
            )),
            r matches Ok(s) ==> settings_match_tree(
                s.keycloak_settings,
                v.get_view("keycloak_settings"@)->0,
            ),
    {
        match v.get("keycloak_settings") {
            None => Err(ConfigError::MissingSettings),
            Some(k) => match KeycloakSettings::from_config(k) {
                Ok(ks) => Ok(Settings { keycloak_settings: ks }),
                Err(e) => Err(e),
            },
        }
    }
}

} // verus!
