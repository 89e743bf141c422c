//! The configuration: its fields, their defaults, and the checks a loaded
//! configuration must pass.

use vstd::prelude::*;
use vstd::string::StringExecFns;
use crate::text::{is_blank, is_blank_str, join, join_strings, views};

verus! {

/// Default margin, in seconds, by which a tail session is renewed before it expires.
pub const DEFAULT_TAIL_REFRESH_MARGIN_SECS: u64 = 60;

/// Default first wait, in seconds, after a failed tail session.
pub const DEFAULT_RECONNECT_MIN_SECS: u64 = 1;

/// Default ceiling, in seconds, of the wait after failed tail sessions.
pub const DEFAULT_RECONNECT_MAX_SECS: u64 = 30;

/// The Cloudflare API base used when the configuration names none.
pub open spec fn default_api_base_text() -> Seq<char> {
    "https://api.cloudflare.com/client/v4"@
}

/// What the bridge is configured with.
#[derive(Debug, Clone)]
pub struct Config {
    pub account_id: String,
    pub api_token: String,
    pub scripts: Vec<String>,
    pub api_base: String,
    pub tail_refresh_margin_secs: u64,
    pub reconnect_min_secs: u64,
    pub reconnect_max_secs: u64,
}

/// Why a configuration was refused.
#[derive(Debug)]
pub enum ConfigError {
    AccountIdEmpty,
    ApiTokenEmpty,
    NoScripts,
    EmptyScriptName,
    RefreshMarginZero,
    ReconnectMinZero,
    ReconnectMaxBelowMin,
    /// Variables referenced without a default and not set, in the order of
    /// their references.
    MissingEnvVars(Vec<String>),
}

/// The default API base.
pub fn default_api_base() -> (r: String)
    ensures
        r@ == default_api_base_text(),
{
    String::from_str("https://api.cloudflare.com/client/v4")
}

/// The default refresh margin.
pub fn default_tail_refresh_margin_secs() -> (r: u64)
    ensures
        r == DEFAULT_TAIL_REFRESH_MARGIN_SECS,
{
    DEFAULT_TAIL_REFRESH_MARGIN_SECS
}

/// The default first reconnect wait.
pub fn default_reconnect_min_secs() -> (r: u64)
    ensures
        r == DEFAULT_RECONNECT_MIN_SECS,
{
    DEFAULT_RECONNECT_MIN_SECS
}

/// The default ceiling of the reconnect wait.
pub fn default_reconnect_max_secs() -> (r: u64)
    ensures
        r == DEFAULT_RECONNECT_MAX_SECS,
{
    DEFAULT_RECONNECT_MAX_SECS
}

/// Some script name of `cfg` is blank.
pub open spec fn has_blank_script(cfg: Config) -> bool {
    exists|i: int| 0 <= i < cfg.scripts@.len() && is_blank(#[trigger] cfg.scripts@[i]@)
}

/// The first check, in the order `validate` makes them, that `cfg` fails.
pub open spec fn config_violation(cfg: Config) -> Option<ConfigError> {
    if is_blank(cfg.account_id@) {
        Some(ConfigError::AccountIdEmpty)
    } else if is_blank(cfg.api_token@) {
        Some(ConfigError::ApiTokenEmpty)
    } else if cfg.scripts@.len() == 0 {
        Some(ConfigError::NoScripts)
    } else if has_blank_script(cfg) {
        Some(ConfigError::EmptyScriptName)
    } else if cfg.tail_refresh_margin_secs == 0 {
        Some(ConfigError::RefreshMarginZero)
    } else if cfg.reconnect_min_secs == 0 {
        Some(ConfigError::ReconnectMinZero)
    } else if cfg.reconnect_max_secs < cfg.reconnect_min_secs {
        Some(ConfigError::ReconnectMaxBelowMin)
    } else {
        None
    }
}

/// `cfg` passes every check.
pub open spec fn config_valid(cfg: Config) -> bool {
    config_violation(cfg) is None
}

/// Checks a loaded configuration: account id and token not blank, at least
/// one script and none blank, a refresh margin and a first reconnect wait
/// of at least one second, and a ceiling no lower than the first wait.
/// The error is that of the first check that fails.
pub fn validate(cfg: &Config) -> (r: Result<(), ConfigError>)
    ensures
        r == (match config_violation(*cfg) {
            Some(e) => Err(e),
            None => Ok(()),
        }),
{
    if is_blank_str(cfg.account_id.as_str()) {
        return Err(ConfigError::AccountIdEmpty);
    }
    if is_blank_str(cfg.api_token.as_str()) {
        return Err(ConfigError::ApiTokenEmpty);
    }
    if cfg.scripts.len() == 0 {
        return Err(ConfigError::NoScripts);
    }
    let mut i: usize = 0;
    while i < cfg.scripts.len()
        invariant
            i <= cfg.scripts@.len(),
            !is_blank(cfg.account_id@),
            !is_blank(cfg.api_token@),
            cfg.scripts@.len() > 0,
            forall|j: int| 0 <= j < i ==> !is_blank(#[trigger] cfg.scripts@[j]@),
        decreases cfg.scripts.len() - i,
    {
        if is_blank_str(cfg.scripts[i].as_str()) {
            assert(is_blank(cfg.scripts@[i as int]@));
            return Err(ConfigError::EmptyScriptName);
        }
        i = i + 1;
    }
    if cfg.tail_refresh_margin_secs == 0 {
        return Err(ConfigError::RefreshMarginZero);
    }
    if cfg.reconnect_min_secs == 0 {
        return Err(ConfigError::ReconnectMinZero);
    }
    if cfg.reconnect_max_secs < cfg.reconnect_min_secs {
        return Err(ConfigError::ReconnectMaxBelowMin);
    }
    Ok(())
}

/// The text of each refusal.
pub open spec fn config_error_text(e: ConfigError) -> Seq<char> {
    match e {
        ConfigError::AccountIdEmpty => "account_id must not be empty"@,
        ConfigError::ApiTokenEmpty => "api_token must not be empty"@,
        ConfigError::NoScripts => "scripts must contain at least one worker name"@,
        ConfigError::EmptyScriptName => "scripts must not contain empty worker names"@,
        ConfigError::RefreshMarginZero => "tail_refresh_margin_secs must be >= 1"@,
        ConfigError::ReconnectMinZero => "reconnect_min_secs must be >= 1"@,
        ConfigError::ReconnectMaxBelowMin => "reconnect_max_secs must be >= reconnect_min_secs"@,
        ConfigError::MissingEnvVars(names) => "missing env vars referenced in config: "@ + join(
            views(names@),
            ", "@,
        ),
    }
}

impl ConfigError {
    /// The message shown for this refusal.
    pub fn message(&self) -> (r: String)
        ensures
            r@ == config_error_text(*self),
    {
        match self {
            ConfigError::AccountIdEmpty => String::from_str("account_id must not be empty"),
            ConfigError::ApiTokenEmpty => String::from_str("api_token must not be empty"),
            ConfigError::NoScripts => String::from_str(
                "scripts must contain at least one worker name",
            ),
            ConfigError::EmptyScriptName => String::from_str(
                "scripts must not contain empty worker names",
            ),
            ConfigError::RefreshMarginZero => String::from_str(
                "tail_refresh_margin_secs must be >= 1",
            ),
            ConfigError::ReconnectMinZero => String::from_str("reconnect_min_secs must be >= 1"),
            ConfigError::ReconnectMaxBelowMin => String::from_str(
                "reconnect_max_secs must be >= reconnect_min_secs",
            ),
            ConfigError::MissingEnvVars(names) => {
                let mut r = String::from_str("missing env vars referenced in config: ");
                let joined = join_strings(names, ", ");
                r.append(joined.as_str());
                r
            },
        }
    }
}

/// A configuration that names an account, a token and scripts, none of
/// them blank, and leaves every other field at its default, passes every
/// check.
pub proof fn law_defaults_pass_validation(cfg: Config)
    requires
        !is_blank(cfg.account_id@),
        !is_blank(cfg.api_token@),
        cfg.scripts@.len() > 0,
        forall|i: int| 0 <= i < cfg.scripts@.len() ==> !is_blank(#[trigger] cfg.scripts@[i]@),
        cfg.api_base@ == default_api_base_text(),
        cfg.tail_refresh_margin_secs == DEFAULT_TAIL_REFRESH_MARGIN_SECS,
        cfg.reconnect_min_secs == DEFAULT_RECONNECT_MIN_SECS,
        cfg.reconnect_max_secs == DEFAULT_RECONNECT_MAX_SECS,
    ensures
        config_valid(cfg),
{
}

/// A configuration passes exactly when its account id and token are not
/// blank, it names at least one script and every one of them, whatever its
/// position, is not blank, its refresh margin and first wait are at least
/// one second, and its ceiling is no lower than its first wait.
pub proof fn law_valid_exactly_when_every_check_holds(cfg: Config)
    ensures
        config_valid(cfg) <==> {
            &&& !is_blank(cfg.account_id@)
            &&& !is_blank(cfg.api_token@)
            &&& cfg.scripts@.len() > 0
            &&& forall|i: int| 0 <= i < cfg.scripts@.len() ==> !is_blank(#[trigger] cfg.scripts@[i]@)
            &&& cfg.tail_refresh_margin_secs >= 1
            &&& cfg.reconnect_min_secs >= 1
            &&& cfg.reconnect_max_secs >= cfg.reconnect_min_secs
        },
{
}

/// A blank script name at any position, the first included, is refused
/// as such once the account id and token pass.
pub proof fn law_blank_script_anywhere_is_refused(cfg: Config, i: int)
    requires
        !is_blank(cfg.account_id@),
        !is_blank(cfg.api_token@),
        0 <= i < cfg.scripts@.len(),
        is_blank(cfg.scripts@[i]@),
    ensures
        config_violation(cfg) == Some(ConfigError::EmptyScriptName),
{
    assert(has_blank_script(cfg));
}

} // verus!
