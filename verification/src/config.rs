//! Runtime configuration: the YAML shape (which names env vars for
//! secrets), the resolved runtime shape, the built-in defaults, and
//! the resolution of one into the other against an environment.
//!
//! Resolution never downgrades silently: a referenced env var that is
//! unset or empty, a non-empty `cors_origin`, or an S3 `bucket_path`
//! holding `..` or starting with `/` refuses the configuration.

use vstd::prelude::*;
use crate::text::{chars_of, str_eq, trim_chars, lower_chars, string_of, trimmed, ascii_lowercase};

verus! {

/// Local filesystem backend settings.
#[derive(Clone)]
pub struct FsConfig {
    pub data_directory: String,
}

/// S3 backend settings, with credentials already resolved.
#[derive(Clone)]
pub struct S3Config {
    pub region: String,
    /// Empty means the default AWS endpoint of the region.
    pub endpoint_url: String,
    pub bucket: String,
    pub bucket_path: String,
    pub access_key_id: String,
    pub secret_access_key: String,
}

/// Resource ceilings.
#[derive(Clone)]
pub struct LimitsConfig {
    pub max_request_bytes: u64,
    pub max_response_bytes: u64,
    pub request_timeout_secs: u64,
    pub copy_inactivity_secs: u64,
}

/// Optional inter-service auth and exposure posture.
#[derive(Clone)]
pub struct SecurityConfig {
    /// The bearer token `/v1/files*` require, when configured.
    pub inter_service_token: Option<String>,
    /// A reverse proxy authenticates every request.
    pub trust_network: bool,
    /// `GET /api` is served (`FILEFERRY_ADMIN_ENABLED`).
    pub admin_enabled: bool,
}

/// Fully resolved runtime configuration.
#[derive(Clone)]
pub struct AppConfig {
    pub port: u16,
    pub documentation_enabled: bool,
    pub cors_origin: String,
    pub fs: FsConfig,
    /// `Some` only when the YAML declares an `s3:` block.
    pub s3: Option<S3Config>,
    pub limits: LimitsConfig,
    pub security: SecurityConfig,
}

impl Default for LimitsConfig {
    fn default() -> (r: Self)
        ensures
            r.max_request_bytes == 33_554_432,
            r.max_response_bytes == 5_368_709_120,
            r.request_timeout_secs == 300,
            r.copy_inactivity_secs == 30,
    {
        LimitsConfig {
            max_request_bytes: 33_554_432,
            max_response_bytes: 5_368_709_120,
            request_timeout_secs: 300,
            copy_inactivity_secs: 30,
        }
    }
}

impl Default for FsConfig {
    fn default() -> (r: Self)
        ensures
            r.data_directory@ == "./data"@,
    {
        FsConfig { data_directory: String::from_str("./data") }
    }
}

impl Default for SecurityConfig {
    fn default() -> (r: Self)
        ensures
            r.inter_service_token is None,
            !r.trust_network,
            !r.admin_enabled,
    {
        SecurityConfig { inter_service_token: None, trust_network: false, admin_enabled: false }
    }
}

/// The built-in defaults: port 8080, `/api` documented, no CORS
/// origin, FS at `./data`, no S3, 32 MiB request / 5 GiB transfer caps,
/// 300 s request timeout, 30 s copy inactivity, no token, no trusted
/// network, admin endpoint off.
pub open spec fn is_default_config(c: AppConfig) -> bool {
    &&& c.port == 8080
    &&& c.documentation_enabled
    &&& c.cors_origin@ == Seq::<char>::empty()
    &&& c.fs.data_directory@ == "./data"@
    &&& c.s3 is None
    &&& c.limits.max_request_bytes == 33_554_432
    &&& c.limits.max_response_bytes == 5_368_709_120
    &&& c.limits.request_timeout_secs == 300
    &&& c.limits.copy_inactivity_secs == 30
    &&& c.security.inter_service_token is None
    &&& !c.security.trust_network
    &&& !c.security.admin_enabled
}

impl Default for AppConfig {
    fn default() -> (r: Self)
        ensures
            is_default_config(r),
    {
        AppConfig {
            port: 8080,
            documentation_enabled: true,
            cors_origin: String::new(),
            fs: FsConfig::default(),
            s3: None,
            limits: LimitsConfig::default(),
            security: SecurityConfig::default(),
        }
    }
}

// ------------------------------------------------------------------
// YAML shape.
// ------------------------------------------------------------------

/// Top level of `fileferry.yaml`; every key optional.
#[derive(Default)]
pub struct AppConfigYaml {
    pub port: Option<u16>,
    pub documentation_enabled: Option<bool>,
    pub cors_origin: Option<String>,
    pub fs: Option<FsConfigYaml>,
    pub s3: Option<S3ConfigYaml>,
    pub limits: Option<LimitsConfigYaml>,
    pub security: Option<SecurityConfigYaml>,
}

/// The `fs:` block.
#[derive(Default)]
pub struct FsConfigYaml {
    pub data_directory: Option<String>,
}

/// The `s3:` block; credentials are named by env var.
#[derive(Default)]
pub struct S3ConfigYaml {
    pub region: String,
    pub endpoint_url: String,
    pub bucket: String,
    pub bucket_path: String,
    pub access_key_id_env: String,
    pub secret_access_key_env: String,
}

/// The `limits:` block.
#[derive(Default)]
pub struct LimitsConfigYaml {
    pub max_request_bytes: Option<u64>,
    pub max_response_bytes: Option<u64>,
    pub request_timeout_secs: Option<u64>,
    pub copy_inactivity_secs: Option<u64>,
}

/// The `security:` block; the token is named by env var.
#[derive(Default)]
pub struct SecurityConfigYaml {
    pub inter_service_token_env: Option<String>,
    pub trust_network: Option<bool>,
}

// ------------------------------------------------------------------
// Environment.
// ------------------------------------------------------------------

/// A snapshot of the process environment: `(name, value)` pairs.
pub struct EnvVars {
    pub vars: Vec<(String, String)>,
}

/// The value of the first variable named `name`.
pub open spec fn env_lookup(vars: Seq<(String, String)>, name: Seq<char>) -> Option<Seq<char>>
    decreases vars.len(),
{
    if vars.len() == 0 {
        None
    } else if vars[0].0@ == name {
        Some(vars[0].1@)
    } else {
        env_lookup(vars.drop_first(), name)
    }
}

impl EnvVars {
    /// The value of the variable named `name`, if set.
    pub fn get(&self, name: &str) -> (r: Option<&String>)
        ensures
            match env_lookup(self.vars@, name@) {
                Some(v) => r matches Some(s) && s@ == v,
                None => r is None,
            },
    {
        let mut i: usize = 0;
        assert(self.vars@.skip(0) =~= self.vars@);
        while i < self.vars.len()
            invariant
                i <= self.vars@.len(),
                env_lookup(self.vars@, name@) == env_lookup(self.vars@.skip(i as int), name@),
            decreases self.vars@.len() - i,
        {
            if str_eq(self.vars[i].0.as_str(), name) {
                return Some(&self.vars[i].1);
            }
            assert(self.vars@.skip(i as int).drop_first() =~= self.vars@.skip(i + 1));
            i = i + 1;
        }
        None
    }
}

/// A value that switches a feature on: after trimming whitespace and
/// lowercasing ASCII, `1`, `true` or `yes`.
pub open spec fn flag_is_set(v: Option<Seq<char>>) -> bool {
    match v {
        None => false,
        Some(s) => {
            let t = ascii_lowercase(trimmed(s));
            t == "1"@ || t == "true"@ || t == "yes"@
        },
    }
}

/// Reads an on/off env value: `1`, `true` or `yes`, in any ASCII case
/// and surrounded by any whitespace, means on; anything else, or no
/// value, means off.
pub fn env_flag_enabled(v: Option<&str>) -> (r: bool)
    ensures
        r == flag_is_set(match v { Some(s) => Some(s@), None => None }),
{
    match v {
        None => false,
        Some(s) => {
            let chars = chars_of(s);
            let t = lower_chars(trim_chars(chars.as_slice()).as_slice());
            let text = string_of(t.as_slice());
            str_eq(text.as_str(), "1") || str_eq(text.as_str(), "true") || str_eq(text.as_str(), "yes")
        },
    }
}

/// Name of the env var that enables `GET /api`.
pub const ADMIN_ENABLED_ENV: &'static str = "FILEFERRY_ADMIN_ENABLED";


// ------------------------------------------------------------------
// Resolution.
// ------------------------------------------------------------------

/// Why a configuration is refused.
#[derive(Debug)]
pub enum ConfigError {
    /// A referenced env var is not set.
    EnvUnset(String),
    /// A referenced env var is set but empty.
    EnvEmpty(String),
    /// `cors_origin` is non-empty; CORS is not implemented.
    CorsOriginSet,
    /// `s3.bucket_path` contains `..`.
    BucketPathTraversal,
    /// `s3.bucket_path` starts with `/`.
    BucketPathAbsolute,
}

/// The text of each configuration error.
pub open spec fn config_error_text(e: ConfigError) -> Seq<char> {
    match e {
        ConfigError::EnvUnset(n) => "env var "@ + n@ + " referenced by config but is unset"@,
        ConfigError::EnvEmpty(n) => "env var "@ + n@ + " referenced by config but is empty"@,
        ConfigError::CorsOriginSet => "config.cors_origin is set but CORS is not implemented"@,
        ConfigError::BucketPathTraversal => "config.s3.bucket_path may not contain '..'"@,
        ConfigError::BucketPathAbsolute => "config.s3.bucket_path may not start with '/'"@,
    }
}

impl ConfigError {
    /// The operator-facing text of this error.
    pub fn message(&self) -> (m: String)
        ensures
            m@ == config_error_text(*self),
    {
        let mut out = String::new();
        match self {
            ConfigError::EnvUnset(n) => {
                out.append("env var ");
                out.append(n.as_str());
                out.append(" referenced by config but is unset");
            },
            ConfigError::EnvEmpty(n) => {
                out.append("env var ");
                out.append(n.as_str());
                out.append(" referenced by config but is empty");
            },
            ConfigError::CorsOriginSet => {
                out.append("config.cors_origin is set but CORS is not implemented");
            },
            ConfigError::BucketPathTraversal => {
                out.append("config.s3.bucket_path may not contain '..'");
            },
            ConfigError::BucketPathAbsolute => {
                out.append("config.s3.bucket_path may not start with '/'");
            },
        }
        out
    }
}

/// The referenced env var `name` holds a non-empty value.
pub open spec fn env_resolves(vars: Seq<(String, String)>, name: Seq<char>) -> bool {
    env_lookup(vars, name) matches Some(v) && v.len() > 0
}

/// `e` is the error for an env var `name` that does not resolve.
pub open spec fn env_error_is(vars: Seq<(String, String)>, name: Seq<char>, e: ConfigError) -> bool {
    match env_lookup(vars, name) {
        None => e matches ConfigError::EnvUnset(n) && n@ == name,
        Some(_) => e matches ConfigError::EnvEmpty(n) && n@ == name,
    }
}

/// `..` starts at position `i` of `s`.
pub open spec fn dot_dot_at(s: Seq<char>, i: int) -> bool {
    0 <= i && i + 1 < s.len() && s[i] == '.' && s[i + 1] == '.'
}

/// `s` holds `..` somewhere.
pub open spec fn has_dot_dot(s: Seq<char>) -> bool {
    exists|i: int| dot_dot_at(s, i)
}

/// The first check that refuses the `s3:` block, if any.
pub open spec fn s3_block_refused(s: S3ConfigYaml, vars: Seq<(String, String)>) -> bool {
    ||| has_dot_dot(s.bucket_path@)
    ||| (s.bucket_path@.len() > 0 && s.bucket_path@[0] == '/')
    ||| !env_resolves(vars, s.access_key_id_env@)
    ||| !env_resolves(vars, s.secret_access_key_env@)
}

/// The error for a refused `s3:` block (checks in order: `..`, leading
/// `/`, access key env var, secret key env var).
pub open spec fn s3_block_error_is(s: S3ConfigYaml, vars: Seq<(String, String)>, e: ConfigError) -> bool {
    if has_dot_dot(s.bucket_path@) {
        e is BucketPathTraversal
    } else if s.bucket_path@.len() > 0 && s.bucket_path@[0] == '/' {
        e is BucketPathAbsolute
    } else if !env_resolves(vars, s.access_key_id_env@) {
        env_error_is(vars, s.access_key_id_env@, e)
    } else {
        env_error_is(vars, s.secret_access_key_env@, e)
    }
}

/// The token env var of a `security:` block does not resolve.
pub open spec fn security_block_refused(s: SecurityConfigYaml, vars: Seq<(String, String)>) -> bool {
    s.inter_service_token_env matches Some(n) && !env_resolves(vars, n@)
}

/// The YAML cannot be resolved: non-empty `cors_origin`, a refused
/// `s3:` block, or a refused `security:` block.
pub open spec fn config_refused(y: AppConfigYaml, vars: Seq<(String, String)>) -> bool {
    ||| (y.cors_origin matches Some(c) && c@.len() > 0)
    ||| (y.s3 matches Some(s) && s3_block_refused(s, vars))
    ||| (y.security matches Some(s) && security_block_refused(s, vars))
}

/// `e` is the error of the first refusing check (CORS, then S3, then
/// security).
pub open spec fn config_error_is(y: AppConfigYaml, vars: Seq<(String, String)>, e: ConfigError) -> bool {
    if y.cors_origin matches Some(c) && c@.len() > 0 {
        e is CorsOriginSet
    } else if y.s3 matches Some(s) && s3_block_refused(s, vars) {
        s3_block_error_is(y.s3->0, vars, e)
    } else {
        env_error_is(vars, y.security->0.inter_service_token_env->0@, e)
    }
}

/// `c` is the resolution of `y`: each field from the YAML when given,
/// else its default; S3 credentials and the bearer token from the env
/// vars the YAML names; `admin_enabled` from `FILEFERRY_ADMIN_ENABLED`.
pub open spec fn config_resolves_to(y: AppConfigYaml, vars: Seq<(String, String)>, c: AppConfig) -> bool {
    &&& c.port == (match y.port { Some(p) => p, None => 8080 })
    &&& c.documentation_enabled == (match y.documentation_enabled { Some(b) => b, None => true })
    &&& c.cors_origin@ == (match y.cors_origin { Some(s) => s@, None => Seq::<char>::empty() })
    &&& c.fs.data_directory@ == (match y.fs {
        Some(f) => match f.data_directory { Some(d) => d@, None => "./data"@ },
        None => "./data"@,
    })
    &&& c.limits.max_request_bytes == (match y.limits {
        Some(l) => match l.max_request_bytes { Some(v) => v, None => 33_554_432 },
        None => 33_554_432,
    })
    &&& c.limits.max_response_bytes == (match y.limits {
        Some(l) => match l.max_response_bytes { Some(v) => v, None => 5_368_709_120 },
        None => 5_368_709_120,
    })
    &&& c.limits.request_timeout_secs == (match y.limits {
        Some(l) => match l.request_timeout_secs { Some(v) => v, None => 300 },
        None => 300,
    })
    &&& c.limits.copy_inactivity_secs == (match y.limits {
        Some(l) => match l.copy_inactivity_secs { Some(v) => v, None => 30 },
        None => 30,
    })
    &&& match y.s3 {
        None => c.s3 is None,
        Some(s) => c.s3 matches Some(cs) && {
            &&& cs.region@ == s.region@
            &&& cs.endpoint_url@ == s.endpoint_url@
            &&& cs.bucket@ == s.bucket@
            &&& cs.bucket_path@ == s.bucket_path@
            &&& env_lookup(vars, s.access_key_id_env@) == Some(cs.access_key_id@)
            &&& env_lookup(vars, s.secret_access_key_env@) == Some(cs.secret_access_key@)
        },
    }
    &&& match y.security {
        None => c.security.inter_service_token is None && !c.security.trust_network,
        Some(s) => {
            &&& match s.inter_service_token_env {
                None => c.security.inter_service_token is None,
                Some(n) => c.security.inter_service_token matches Some(t) && env_lookup(vars, n@)
                    == Some(t@),
            }
            &&& c.security.trust_network == (match s.trust_network { Some(b) => b, None => false })
        },
    }
    &&& c.security.admin_enabled == flag_is_set(env_lookup(vars, ADMIN_ENABLED_ENV@))
}

/// Every key of the YAML is omitted.
pub open spec fn yaml_is_empty(y: AppConfigYaml) -> bool {
    &&& y.port is None
    &&& y.documentation_enabled is None
    &&& y.cors_origin is None
    &&& y.fs is None
    &&& y.s3 is None
    &&& y.limits is None
    &&& y.security is None
}

/// Law: a YAML that omits every key is never refused, and resolves to
/// the built-in defaults, the admin flag aside (only
/// `FILEFERRY_ADMIN_ENABLED` sets it).
pub proof fn omitted_keys_take_defaults(y: AppConfigYaml, vars: Seq<(String, String)>, c: AppConfig)
    requires
        yaml_is_empty(y),
        config_resolves_to(y, vars, c),
        !flag_is_set(env_lookup(vars, ADMIN_ENABLED_ENV@)),
    ensures
        !config_refused(y, vars),
        is_default_config(c),
{
}

/// The value the YAML gives for a `limits:` key, `None` when the key
/// or the whole block is omitted.
pub open spec fn yaml_max_request_bytes(y: AppConfigYaml) -> Option<u64> {
    match y.limits {
        Some(l) => l.max_request_bytes,
        None => None,
    }
}

pub open spec fn yaml_max_response_bytes(y: AppConfigYaml) -> Option<u64> {
    match y.limits {
        Some(l) => l.max_response_bytes,
        None => None,
    }
}

pub open spec fn yaml_request_timeout_secs(y: AppConfigYaml) -> Option<u64> {
    match y.limits {
        Some(l) => l.request_timeout_secs,
        None => None,
    }
}

pub open spec fn yaml_copy_inactivity_secs(y: AppConfigYaml) -> Option<u64> {
    match y.limits {
        Some(l) => l.copy_inactivity_secs,
        None => None,
    }
}

/// Law: each `limits:` key resolves on its own: the value the YAML
/// gives, or its built-in default when the key is omitted, whether or
/// not the `limits:` block itself is present (32 MiB request body,
/// 5 GiB transfer, 300 s request, 30 s copy inactivity); the same holds
/// of `fs.data_directory` (`./data`) and `security.trust_network`
/// (off).
pub proof fn omitted_keys_default_in_any_block(y: AppConfigYaml, vars: Seq<(String, String)>, c: AppConfig)
    requires
        config_resolves_to(y, vars, c),
    ensures
        c.limits.max_request_bytes == (match yaml_max_request_bytes(y) { Some(v) => v, None => 33_554_432 }),
        c.limits.max_response_bytes == (match yaml_max_response_bytes(y) { Some(v) => v, None => 5_368_709_120 }),
        c.limits.request_timeout_secs == (match yaml_request_timeout_secs(y) { Some(v) => v, None => 300 }),
        c.limits.copy_inactivity_secs == (match yaml_copy_inactivity_secs(y) { Some(v) => v, None => 30 }),
        c.port == (match y.port { Some(p) => p, None => 8080u16 }),
        c.documentation_enabled == (match y.documentation_enabled { Some(b) => b, None => true }),
        y.cors_origin is None ==> c.cors_origin@.len() == 0,
        (match y.fs { Some(f) => f.data_directory is None, None => true }) ==> c.fs.data_directory@ == "./data"@,
        match y.fs {
            Some(f) => match f.data_directory { Some(d) => c.fs.data_directory@ == d@, None => true },
            None => true,
        },
        (match y.security { Some(s) => s.trust_network is None, None => true }) ==> !c.security.trust_network,
{
}

/// Law: two YAMLs that give the same value (or none) for a `limits:`
/// key resolve that key alike, whatever else either of them holds.
pub proof fn limits_resolve_key_by_key(
    y1: AppConfigYaml,
    v1: Seq<(String, String)>,
    c1: AppConfig,
    y2: AppConfigYaml,
    v2: Seq<(String, String)>,
    c2: AppConfig,
)
    requires
        config_resolves_to(y1, v1, c1),
        config_resolves_to(y2, v2, c2),
    ensures
        yaml_max_request_bytes(y1) == yaml_max_request_bytes(y2) ==> c1.limits.max_request_bytes == c2.limits.max_request_bytes,
        yaml_max_response_bytes(y1) == yaml_max_response_bytes(y2) ==> c1.limits.max_response_bytes == c2.limits.max_response_bytes,
        yaml_request_timeout_secs(y1) == yaml_request_timeout_secs(y2) ==> c1.limits.request_timeout_secs == c2.limits.request_timeout_secs,
        yaml_copy_inactivity_secs(y1) == yaml_copy_inactivity_secs(y2) ==> c1.limits.copy_inactivity_secs == c2.limits.copy_inactivity_secs,
{
}

/// The non-empty value of the env var `name`.
fn require_env(env: &EnvVars, name: &str) -> (r: Result<String, ConfigError>)
    ensures
        env_resolves(env.vars@, name@) ==> (r matches Ok(v) && env_lookup(env.vars@, name@) == Some(v@)),
        !env_resolves(env.vars@, name@) ==> (r matches Err(e) && env_error_is(env.vars@, name@, e)),
{
    match env.get(name) {
        Some(v) => {
            if v.as_str().is_empty() {
                Err(ConfigError::EnvEmpty(String::from_str(name)))
            } else {
                Ok(v.clone())
            }
        },
        None => Err(ConfigError::EnvUnset(String::from_str(name))),
    }
}

fn has_dot_dot_exec(s: &str) -> (r: bool)
    ensures
        r == has_dot_dot(s@),
{
    let c = chars_of(s);
    let mut i: usize = 0;
    while i < c.len() && i + 1 < c.len()
        invariant
            c@ == s@,
            i <= c@.len(),
            forall|k: int| 0 <= k < i ==> !dot_dot_at(c@, k),
        decreases c@.len() - i,
    {
        if c[i] == '.' && c[i + 1] == '.' {
            assert(dot_dot_at(s@, i as int));
            return true;
        }
        i = i + 1;
    }
    false
}

fn starts_with_slash(s: &str) -> (r: bool)
    ensures
        r == (s@.len() > 0 && s@[0] == '/'),
{
    let c = chars_of(s);
    c.len() > 0 && c[0] == '/'
}

fn resolve_s3(s: S3ConfigYaml, env: &EnvVars) -> (r: Result<S3Config, ConfigError>)
    ensures
        s3_block_refused(s, env.vars@) ==> (r matches Err(e) && s3_block_error_is(s, env.vars@, e)),
        !s3_block_refused(s, env.vars@) ==> (r matches Ok(cs) && {
            &&& cs.region@ == s.region@
            &&& cs.endpoint_url@ == s.endpoint_url@
            &&& cs.bucket@ == s.bucket@
            &&& cs.bucket_path@ == s.bucket_path@
            &&& env_lookup(env.vars@, s.access_key_id_env@) == Some(cs.access_key_id@)
            &&& env_lookup(env.vars@, s.secret_access_key_env@) == Some(cs.secret_access_key@)
        }),
{
    if has_dot_dot_exec(s.bucket_path.as_str()) {
        return Err(ConfigError::BucketPathTraversal);
    }
    if starts_with_slash(s.bucket_path.as_str()) {
        return Err(ConfigError::BucketPathAbsolute);
    }
    let access_key_id = match require_env(env, s.access_key_id_env.as_str()) {
        Ok(v) => v,
        Err(e) => return Err(e),
    };
    let secret_access_key = match require_env(env, s.secret_access_key_env.as_str()) {
        Ok(v) => v,
        Err(e) => return Err(e),
    };
    Ok(S3Config {
        region: s.region,
        endpoint_url: s.endpoint_url,
        bucket: s.bucket,
        bucket_path: s.bucket_path,
        access_key_id,
        secret_access_key,
    })
}

/// Resolves the YAML configuration against the environment `env`.
/// Refused exactly when `config_refused` holds, with the error of the
/// first refusing check; otherwise every field comes from the YAML or
/// its default, and every referenced secret from its env var.
pub fn from_yaml(y: AppConfigYaml, env: &EnvVars) -> (r: Result<AppConfig, ConfigError>)
    ensures
        config_refused(y, env.vars@) ==> (r matches Err(e) && config_error_is(y, env.vars@, e)),
        !config_refused(y, env.vars@) ==> (r matches Ok(c) && config_resolves_to(y, env.vars@, c)),
{
    let ghost yv = y;
    let AppConfigYaml { port, documentation_enabled, cors_origin, fs, s3, limits, security } = y;
    let cors_origin = match cors_origin {
        Some(c) => c,
        None => String::new(),
    };
    if !cors_origin.as_str().is_empty() {
        return Err(ConfigError::CorsOriginSet);
    }
    let s3 = match s3 {
        None => None,
        Some(s) => match resolve_s3(s, env) {
            Ok(c) => Some(c),
            Err(e) => return Err(e),
        },
    };
    let (inter_service_token, trust_network) = match security {
        None => (None, false),
        Some(sec) => {
            let token = match sec.inter_service_token_env {
                None => None,
                Some(name) => match require_env(env, name.as_str()) {
                    Ok(v) => Some(v),
                    Err(e) => return Err(e),
                },
            };
            let trust = match sec.trust_network {
                Some(b) => b,
                None => false,
            };
            (token, trust)
        },
    };
    let admin_enabled = match env.get(ADMIN_ENABLED_ENV) {
        Some(v) => env_flag_enabled(Some(v.as_str())),
        None => env_flag_enabled(None),
    };
    let data_directory = match fs {
        Some(f) => match f.data_directory {
            Some(d) => d,
            None => String::from_str("./data"),
        },
        None => String::from_str("./data"),
    };
    let (max_request_bytes, max_response_bytes, request_timeout_secs, copy_inactivity_secs) =
        match limits {
        Some(l) => (
            match l.max_request_bytes {
                Some(v) => v,
                None => 33_554_432,
            },
            match l.max_response_bytes {
                Some(v) => v,
                None => 5_368_709_120,
            },
            match l.request_timeout_secs {
                Some(v) => v,
                None => 300,
            },
            match l.copy_inactivity_secs {
                Some(v) => v,
                None => 30,
            },
        ),
        None => (33_554_432, 5_368_709_120, 300, 30),
    };
    Ok(AppConfig {
        port: match port {
            Some(p) => p,
            None => 8080,
        },
        documentation_enabled: match documentation_enabled {
            Some(b) => b,
            None => true,
        },
        cors_origin,
        fs: FsConfig { data_directory },
        s3,
        limits: LimitsConfig {
            max_request_bytes,
            max_response_bytes,
            request_timeout_secs,
            copy_inactivity_secs,
        },
        security: SecurityConfig { inter_service_token, trust_network, admin_enabled },
    })
}

// ------------------------------------------------------------------
// Where the configuration comes from.
// ------------------------------------------------------------------

/// Name of the env var that names the configuration file.
pub const CONFIG_ENV: &'static str = "FILEFERRY_CONFIG";

/// The file read when neither `--config` nor `FILEFERRY_CONFIG` names
/// one, if it exists.
pub const DEFAULT_CONFIG_PATH: &'static str = "./fileferry.yaml";

/// The configuration file to read: the `--config` path; else a
/// non-empty `FILEFERRY_CONFIG`; else `./fileferry.yaml` when it
/// exists; else none, and the built-in defaults apply.
pub open spec fn config_path(explicit: Option<Seq<char>>, vars: Seq<(String, String)>, default_exists: bool) -> Option<Seq<char>> {
    match explicit {
        Some(p) => Some(p),
        None => match env_lookup(vars, CONFIG_ENV@) {
            Some(v) if v.len() > 0 => Some(v),
            _ => if default_exists {
                Some(DEFAULT_CONFIG_PATH@)
            } else {
                None
            },
        },
    }
}

/// Picks the configuration file to read (see `config_path`);
/// `default_exists` tells whether `./fileferry.yaml` exists.
pub fn resolve_config_path(explicit: Option<&str>, env: &EnvVars, default_exists: bool) -> (r: Option<String>)
    ensures
        match config_path(
            match explicit { Some(p) => Some(p@), None => None },
            env.vars@,
            default_exists,
        ) {
            Some(p) => r matches Some(s) && s@ == p,
            None => r is None,
        },
{
    match explicit {
        Some(p) => return Some(p.to_owned()),
        None => {},
    }
    match env.get(CONFIG_ENV) {
        Some(v) => {
            if v.as_str().unicode_len() > 0 {
                return Some(v.clone());
            }
        },
        None => {},
    }
    if default_exists {
        Some(String::from_str(DEFAULT_CONFIG_PATH))
    } else {
        None
    }
}

} // verus!
