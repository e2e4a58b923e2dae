//! Server configuration: SMTP, OAuth providers and the main settings, and
//! how they are read from a set of environment variables.
use vstd::prelude::*;
use crate::text::{chars_of, first_index, has_prefix, join2, join3, matches_at, owned, parse_integer,
    parse_in_range, slice_chars, str_eq, string_of, u64_to_decimal, decimal_of, find_char};

verus! {

/// SMTP configuration for sending emails.
pub struct SmtpConfig {
    /// SMTP server host.
    pub host: Option<String>,
    /// SMTP server port.
    pub port: u16,
    /// SMTP username for authentication.
    pub username: Option<String>,
    /// SMTP password for authentication.
    pub password: Option<String>,
    /// Sender email address.
    pub from_email: String,
    /// Sender display name.
    pub from_name: String,
    /// Use STARTTLS.
    pub use_tls: bool,
    /// Use implicit TLS.
    pub use_ssl: bool,
    /// Whether emails are sent at all.
    pub enabled: bool,
}

/// The SMTP port used when none is set: 465 with implicit TLS, else 587
/// with STARTTLS, else 25.
pub open spec fn smtp_default_port(use_ssl: bool, use_tls: bool) -> u16 {
    if use_ssl {
        465
    } else if use_tls {
        587
    } else {
        25
    }
}

impl SmtpConfig {
    /// SMTP is usable: enabled and with a host.
    pub fn is_configured(&self) -> (r: bool)
        ensures
            r == (self.enabled && self.host is Some),
    {
        self.enabled && self.host.is_some()
    }
}

/// Credentials and endpoints of one external OAuth provider.
pub struct OAuthProviderConfig {
    pub client_id: Option<String>,
    pub client_secret: Option<String>,
    /// Custom base URL (self-hosted GitLab and the like).
    pub base_url: Option<String>,
    /// Azure AD tenant.
    pub tenant_id: Option<String>,
}

/// A provider is enabled when both its client id and its secret are set.
pub open spec fn provider_enabled(p: OAuthProviderConfig) -> bool {
    p.client_id is Some && p.client_secret is Some
}

impl OAuthProviderConfig {
    /// Whether both the client id and the client secret are set.
    pub fn is_enabled(&self) -> (r: bool)
        ensures
            r == provider_enabled(*self),
    {
        self.client_id.is_some() && self.client_secret.is_some()
    }
}

/// The configuration of all built-in OAuth providers.
pub struct OAuthConfig {
    pub github: OAuthProviderConfig,
    pub gitlab: OAuthProviderConfig,
    pub google: OAuthProviderConfig,
    pub azure_ad: OAuthProviderConfig,
    pub bitbucket: OAuthProviderConfig,
}

/// `s` followed by `name` when `on` holds.
pub open spec fn push_if(s: Seq<Seq<char>>, on: bool, name: Seq<char>) -> Seq<Seq<char>> {
    if on {
        s.push(name)
    } else {
        s
    }
}

/// The names of the enabled providers, in the order github, gitlab, google,
/// azure_ad, bitbucket.
pub open spec fn enabled_provider_names(c: OAuthConfig) -> Seq<Seq<char>> {
    push_if(
        push_if(
            push_if(
                push_if(
                    push_if(Seq::empty(), provider_enabled(c.github), "github"@),
                    provider_enabled(c.gitlab),
                    "gitlab"@,
                ),
                provider_enabled(c.google),
                "google"@,
            ),
            provider_enabled(c.azure_ad),
            "azure_ad"@,
        ),
        provider_enabled(c.bitbucket),
        "bitbucket"@,
    )
}

/// The views of a sequence of string slices.
pub open spec fn str_views(s: Seq<&str>) -> Seq<Seq<char>> {
    s.map_values(|x: &str| x@)
}

impl OAuthConfig {
    /// The names of the providers whose credentials are set.
    pub fn enabled_providers(&self) -> (r: Vec<&'static str>)
        ensures
            str_views(r@) == enabled_provider_names(*self),
    {
        let mut providers: Vec<&'static str> = Vec::new();
        let ghost names: Seq<Seq<char>> = Seq::empty();
        if self.github.is_enabled() {
            providers.push("github");
        }
        proof {
            names = push_if(names, provider_enabled(self.github), "github"@);
            assert(str_views(providers@) =~= names);
        }
        if self.gitlab.is_enabled() {
            providers.push("gitlab");
        }
        proof {
            names = push_if(names, provider_enabled(self.gitlab), "gitlab"@);
            assert(str_views(providers@) =~= names);
        }
        if self.google.is_enabled() {
            providers.push("google");
        }
        proof {
            names = push_if(names, provider_enabled(self.google), "google"@);
            assert(str_views(providers@) =~= names);
        }
        if self.azure_ad.is_enabled() {
            providers.push("azure_ad");
        }
        proof {
            names = push_if(names, provider_enabled(self.azure_ad), "azure_ad"@);
            assert(str_views(providers@) =~= names);
        }
        if self.bitbucket.is_enabled() {
            providers.push("bitbucket");
        }
        proof {
            names = push_if(names, provider_enabled(self.bitbucket), "bitbucket"@);
            assert(str_views(providers@) =~= names);
        }
        providers
    }
}

/// The main server configuration.
pub struct Config {
    pub server_host: String,
    pub server_port: u16,
    /// Unix socket path of the backend (preferred over TCP when set).
    pub server_socket_path: Option<String>,
    pub assets_path: String,
    pub database_url: String,
    pub redis_url: String,
    pub jwt_secret: String,
    pub jwt_expiration: i64,
    pub git_repos_path: String,
    /// Secret token of the internal API used by the SSH shell.
    pub shell_secret: String,
    /// Base URL of the instance.
    pub base_url: String,
    /// Internal API URL for the SSH shell.
    pub internal_api_url: String,
    pub ssh_enabled: bool,
    pub ssh_host: String,
    pub ssh_port: u16,
    pub ssh_public_host: String,
    pub ssh_public_port: u16,
    pub ssh_host_key_path: String,
    pub gitfox_shell_path: String,
    pub initial_admin_username: Option<String>,
    pub initial_admin_email: Option<String>,
    pub initial_admin_password: Option<String>,
    pub oauth: OAuthConfig,
    /// Default lifetime of personal access tokens in days (0: none).
    pub pat_default_expiration_days: u32,
    /// Longest lifetime of personal access tokens in days (0: no limit).
    pub pat_max_expiration_days: u32,
    pub smtp: SmtpConfig,
    pub webauthn_rp_name: String,
    pub webauthn_rp_id: String,
    pub webauthn_origin: String,
    /// Identifier of this instance: `host:pid`.
    pub instance_id: String,
    pub webide_client_id: String,
    pub webide_redirect_uri_path: String,
    /// Largest accepted upload in bytes.
    pub max_upload_size: usize,
}

// ---------------------------------------------------------------------------
// Reading the environment
// ---------------------------------------------------------------------------

/// The value the environment gives to a variable: the first pair with that
/// name.
pub open spec fn env_var(env: Seq<(String, String)>, name: Seq<char>) -> Option<Seq<char>>
    decreases env.len(),
{
    if env.len() == 0 {
        None
    } else if env[0].0@ == name {
        Some(env[0].1@)
    } else {
        env_var(env.drop_first(), name)
    }
}

/// A value, or a default when it is missing.
pub open spec fn or_default(v: Option<Seq<char>>, d: Seq<char>) -> Seq<char> {
    match v {
        Some(x) => x,
        None => d,
    }
}

/// The value of a variable, or the default.
pub open spec fn env_or(env: Seq<(String, String)>, name: Seq<char>, d: Seq<char>) -> Seq<char> {
    or_default(env_var(env, name), d)
}

/// What `str::to_lowercase` gives for a text (Unicode lower case).
pub uninterp spec fn lowercase_of(s: Seq<char>) -> Seq<char>;

/// Whether every character of a text is ASCII.
pub open spec fn is_ascii_text(s: Seq<char>) -> bool {
    forall|i: int| 0 <= i < s.len() ==> (#[trigger] s[i] as int) < 128
}

/// The lower case of an ASCII character: `A`..`Z` become `a`..`z`, other
/// characters stay.
pub open spec fn ascii_lower_char(c: char) -> char {
    if 'A' <= c <= 'Z' {
        ((c as int) + 32) as char
    } else {
        c
    }
}

/// An ASCII text in lower case, letter by letter.
pub open spec fn ascii_lowercase(s: Seq<char>) -> Seq<char> {
    s.map_values(|c: char| ascii_lower_char(c))
}

/// The lower case of a text: letter by letter for ASCII text, else what
/// `str::to_lowercase` gives.
pub open spec fn lowercase_text(s: Seq<char>) -> Seq<char> {
    if is_ascii_text(s) {
        ascii_lowercase(s)
    } else {
        lowercase_of(s)
    }
}

/// Lower-cases a text with `str::to_lowercase`. The result is named; for
/// ASCII text it is the text with `A`..`Z` turned into `a`..`z`, as the
/// standard library documents (ASCII letters have ASCII lower cases).
#[verifier::external_body]
pub(crate) fn to_lowercase(s: &str) -> (r: String)
    ensures
        r@ == lowercase_of(s@),
        is_ascii_text(s@) ==> r@ == ascii_lowercase(s@),
{
    s.to_lowercase()
}

/// Lower-cases a text.
pub(crate) fn lowercased(s: &str) -> (r: String)
    ensures
        r@ == lowercase_text(s@),
{
    to_lowercase(s)
}

/// A switch value: `1`, or `true` in any case.
pub open spec fn flag_value(v: Seq<char>) -> bool {
    v == "1"@ || lowercase_text(v) == "true"@
}

/// A switch read from a variable, with a default when it is unset.
pub open spec fn env_flag(env: Seq<(String, String)>, name: Seq<char>, d: bool) -> bool {
    match env_var(env, name) {
        Some(v) => flag_value(v),
        None => d,
    }
}

/// A port number read from a text.
pub open spec fn port_of(text: Seq<char>) -> Option<u16> {
    match parse_in_range(text, false, 0, 65535) {
        Some(v) => Some(v as u16),
        None => None,
    }
}

/// A number of days read from a text.
pub open spec fn days_of(text: Seq<char>) -> Option<u32> {
    match parse_in_range(text, false, 0, u32::MAX as int) {
        Some(v) => Some(v as u32),
        None => None,
    }
}

/// Whether a switch value is on.
pub fn is_flag_on(v: &str) -> (r: bool)
    ensures
        r == flag_value(v@),
{
    if str_eq(v, "1") {
        return true;
    }
    let l = lowercased(v);
    str_eq(l.as_str(), "true")
}

/// The value the environment gives to a variable.
pub fn var(env: &Vec<(String, String)>, name: &str) -> (r: Option<String>)
    ensures
        match r {
            Some(v) => env_var(env@, name@) == Some(v@),
            None => env_var(env@, name@) is None,
        },
{
    let mut i: usize = 0;
    assert(env@.skip(0) =~= env@);
    while i < env.len()
        invariant
            i <= env.len(),
            env_var(env@, name@) == env_var(env@.skip(i as int), name@),
        decreases env.len() - i,
    {
        proof {
            assert(env@.skip(i as int).drop_first() =~= env@.skip(i + 1));
            assert(env@.skip(i as int)[0] == env@[i as int]);
        }
        if str_eq(env[i].0.as_str(), name) {
            return Some(env[i].1.clone());
        }
        i = i + 1;
    }
    None
}

/// The value of a variable, or the default.
pub fn var_or(env: &Vec<(String, String)>, name: &str, default: &str) -> (r: String)
    ensures
        r@ == env_or(env@, name@, default@),
{
    match var(env, name) {
        Some(v) => v,
        None => owned(default),
    }
}

/// A switch read from a variable, with a default when it is unset.
pub fn var_flag(env: &Vec<(String, String)>, name: &str, default: bool) -> (r: bool)
    ensures
        r == env_flag(env@, name@, default),
{
    match var(env, name) {
        Some(v) => is_flag_on(v.as_str()),
        None => default,
    }
}

/// A port number read from a text.
pub fn parse_port(text: &str) -> (r: Option<u16>)
    ensures
        r == port_of(text@),
{
    let cs = chars_of(text);
    match parse_integer(&cs, false, 0, 65535) {
        Some(v) => Some(v as u16),
        None => None,
    }
}

fn parse_days(text: &str) -> (r: Option<u32>)
    ensures
        r == days_of(text@),
{
    let cs = chars_of(text);
    match parse_integer(&cs, false, 0, 0xffff_ffff) {
        Some(v) => Some(v as u32),
        None => None,
    }
}

/// Index of the first occurrence of `p` in `s`.
pub open spec fn first_occurrence(s: Seq<char>, p: Seq<char>) -> Option<int>
    decreases s.len(),
{
    if p.len() > s.len() {
        None
    } else if has_prefix(s, p) {
        Some(0)
    } else if s.len() == 0 {
        None
    } else {
        match first_occurrence(s.drop_first(), p) {
            Some(i) => Some(i + 1),
            None => None,
        }
    }
}

/// An optional index moved by `k`.
pub open spec fn shifted(o: Option<int>, k: int) -> Option<int> {
    match o {
        Some(i) => Some(i + k),
        None => None,
    }
}

/// `s` up to the first `c`, or all of it.
pub open spec fn cut_at(s: Seq<char>, c: char) -> Seq<char> {
    match first_index(s, c) {
        Some(k) => s.take(k),
        None => s,
    }
}

/// The domain of a base URL, without protocol, port or path: after the
/// first `://`, up to the first `/` or `:`; `localhost` when there is no
/// `://`.
pub open spec fn rp_id_of(base: Seq<char>) -> Seq<char> {
    match first_occurrence(base, "://"@) {
        Some(i) => cut_at(cut_at(base.skip(i + 3), '/'), ':'),
        None => "localhost"@,
    }
}

/// `s` up to the first `c`.
fn cut_chars(s: &Vec<char>, c: char) -> (r: Vec<char>)
    ensures
        r@ == cut_at(s@, c),
{
    match find_char(s, c) {
        Some(k) => {
            let r = slice_chars(s, 0, k);
            assert(r@ =~= s@.take(k as int));
            r
        },
        None => s.clone(),
    }
}

/// The WebAuthn relying-party id derived from a base URL.
pub fn rp_id_from_base(base: &str) -> (r: String)
    ensures
        r@ == rp_id_of(base@),
{
    let cs = chars_of(base);
    let sep = chars_of("://");
    proof {
        reveal_strlit("://");
    }
    if cs.len() < 3 {
        assert(first_occurrence(cs@, "://"@) is None);
        return owned("localhost");
    }
    let last = cs.len() - 3;
    let mut i: usize = 0;
    assert(cs@.skip(0) =~= cs@);
    loop
        invariant
            sep@ == "://"@,
            cs@ == base@,
            last == cs.len() - 3,
            i <= last,
            first_occurrence(cs@, "://"@) == shifted(first_occurrence(cs@.skip(i as int), "://"@), i as int),
        decreases last - i,
    {
        let hit = matches_at(&cs, i, &sep);
        if hit {
            let rest = slice_chars(&cs, i + 3, cs.len());
            assert(rest@ =~= base@.skip(i + 3));
            let host = cut_chars(&cut_chars(&rest, '/'), ':');
            return string_of(&host);
        }
        proof {
            assert(cs@.skip(i as int).drop_first() =~= cs@.skip(i + 1));
        }
        if i == last {
            proof {
                reveal_strlit("://");
                assert(cs@.skip(i + 1).len() < 3);
                assert(first_occurrence(cs@.skip(i + 1), "://"@) is None);
                assert(cs@.skip(i as int).len() == 3);
                assert(first_occurrence(cs@.skip(i as int), "://"@) is None);
            }
            return owned("localhost");
        }
        i = i + 1;
    }
}

/// Why the configuration cannot be built from the environment.
pub open spec fn config_error(env: Seq<(String, String)>) -> Option<Seq<char>> {
    if env_or(env, "SERVER_CONNECTION_TYPE"@, "tcp"@) == "unix_socket"@ && env_var(env, "SERVER_SOCKET_PATH"@) is None {
        Some("SERVER_SOCKET_PATH must be set when SERVER_CONNECTION_TYPE=unix_socket"@)
    } else if env_or(env, "SERVER_CONNECTION_TYPE"@, "tcp"@) != "unix_socket"@
        && port_of(env_or(env, "SERVER_PORT"@, "8080"@)) is None {
        Some("Invalid SERVER_PORT"@)
    } else if env_var(env, "DATABASE_URL"@) is None {
        Some("DATABASE_URL must be set"@)
    } else if parse_in_range(env_or(env, "JWT_EXPIRATION"@, "86400"@), true, i64::MIN as int, i64::MAX as int) is None {
        Some("Invalid JWT_EXPIRATION"@)
    } else if port_of(env_or(env, "SSH_PORT"@, "2222"@)) is None {
        Some("Invalid SSH_PORT"@)
    } else if port_of(env_or(env, "SSH_PUBLIC_PORT"@, env_or(env, "SSH_PORT"@, "2222"@))) is None {
        Some("Invalid SSH_PUBLIC_PORT"@)
    } else {
        None
    }
}

/// The views of an optional string.
pub open spec fn opt_string_view(o: Option<String>) -> Option<Seq<char>> {
    match o {
        Some(s) => Some(s@),
        None => None,
    }
}

/// The provider configuration that a pair of credential variables gives.
pub open spec fn provider_from_env(
    p: OAuthProviderConfig,
    env: Seq<(String, String)>,
    id: Seq<char>,
    secret: Seq<char>,
) -> bool {
    opt_string_view(p.client_id) == env_var(env, id) && opt_string_view(p.client_secret) == env_var(env, secret)
}

fn opt_var(env: &Vec<(String, String)>, name: &str) -> (r: Option<String>)
    ensures
        opt_string_view(r) == env_var(env@, name@),
{
    var(env, name)
}

/// The OAuth settings the environment gives: the credentials of the
/// built-in providers (`OAUTH_<PROVIDER>_CLIENT_ID` and `_CLIENT_SECRET`),
/// the GitLab URL and the Azure tenant; nothing else is set.
pub open spec fn oauth_from_env(r: OAuthConfig, env: Seq<(String, String)>) -> bool {
    &&& provider_from_env(r.github, env, "OAUTH_GITHUB_CLIENT_ID"@, "OAUTH_GITHUB_CLIENT_SECRET"@)
    &&& provider_from_env(r.gitlab, env, "OAUTH_GITLAB_CLIENT_ID"@, "OAUTH_GITLAB_CLIENT_SECRET"@)
    &&& provider_from_env(r.google, env, "OAUTH_GOOGLE_CLIENT_ID"@, "OAUTH_GOOGLE_CLIENT_SECRET"@)
    &&& provider_from_env(r.azure_ad, env, "OAUTH_AZURE_CLIENT_ID"@, "OAUTH_AZURE_CLIENT_SECRET"@)
    &&& provider_from_env(r.bitbucket, env, "OAUTH_BITBUCKET_CLIENT_ID"@, "OAUTH_BITBUCKET_CLIENT_SECRET"@)
    &&& r.github.base_url is None && r.github.tenant_id is None
    &&& opt_string_view(r.gitlab.base_url) == env_var(env, "OAUTH_GITLAB_URL"@)
    &&& r.gitlab.tenant_id is None
    &&& r.google.base_url is None && r.google.tenant_id is None
    &&& r.azure_ad.base_url is None
    &&& opt_string_view(r.azure_ad.tenant_id) == env_var(env, "OAUTH_AZURE_TENANT_ID"@)
    &&& r.bitbucket.base_url is None && r.bitbucket.tenant_id is None
}

/// The SMTP settings the environment gives: host and credentials as given,
/// the port that is set, else the default of the encryption in use, sender
/// `noreply@gitfox.local` / `GitFox` by default, STARTTLS on, implicit TLS
/// and sending off unless switched.
pub open spec fn smtp_from_env(r: SmtpConfig, env: Seq<(String, String)>) -> bool {
    &&& opt_string_view(r.host) == env_var(env, "SMTP_HOST"@)
    &&& r.port == (match env_var(env, "SMTP_PORT"@) {
        Some(t) => match port_of(t) {
            Some(p) => p,
            None => smtp_default_port(r.use_ssl, r.use_tls),
        },
        None => smtp_default_port(r.use_ssl, r.use_tls),
    })
    &&& opt_string_view(r.username) == env_var(env, "SMTP_USERNAME"@)
    &&& opt_string_view(r.password) == env_var(env, "SMTP_PASSWORD"@)
    &&& r.from_email@ == env_or(env, "SMTP_FROM_EMAIL"@, "noreply@gitfox.local"@)
    &&& r.from_name@ == env_or(env, "SMTP_FROM_NAME"@, "GitFox"@)
    &&& r.use_tls == env_flag(env, "SMTP_USE_TLS"@, true)
    &&& r.use_ssl == env_flag(env, "SMTP_USE_SSL"@, false)
    &&& r.enabled == env_flag(env, "SMTP_ENABLED"@, false)
}

impl OAuthConfig {
    /// Reads the credentials of the built-in providers from the environment
    /// (`OAUTH_<PROVIDER>_CLIENT_ID` and `_CLIENT_SECRET`, the GitLab URL and
    /// the Azure tenant).
    pub fn from_vars(env: &Vec<(String, String)>) -> (r: OAuthConfig)
        ensures
            oauth_from_env(r, env@),
    {
        OAuthConfig {
            github: OAuthProviderConfig {
                client_id: opt_var(env, "OAUTH_GITHUB_CLIENT_ID"),
                client_secret: opt_var(env, "OAUTH_GITHUB_CLIENT_SECRET"),
                base_url: None,
                tenant_id: None,
            },
            gitlab: OAuthProviderConfig {
                client_id: opt_var(env, "OAUTH_GITLAB_CLIENT_ID"),
                client_secret: opt_var(env, "OAUTH_GITLAB_CLIENT_SECRET"),
                base_url: opt_var(env, "OAUTH_GITLAB_URL"),
                tenant_id: None,
            },
            google: OAuthProviderConfig {
                client_id: opt_var(env, "OAUTH_GOOGLE_CLIENT_ID"),
                client_secret: opt_var(env, "OAUTH_GOOGLE_CLIENT_SECRET"),
                base_url: None,
                tenant_id: None,
            },
            azure_ad: OAuthProviderConfig {
                client_id: opt_var(env, "OAUTH_AZURE_CLIENT_ID"),
                client_secret: opt_var(env, "OAUTH_AZURE_CLIENT_SECRET"),
                base_url: None,
                tenant_id: opt_var(env, "OAUTH_AZURE_TENANT_ID"),
            },
            bitbucket: OAuthProviderConfig {
                client_id: opt_var(env, "OAUTH_BITBUCKET_CLIENT_ID"),
                client_secret: opt_var(env, "OAUTH_BITBUCKET_CLIENT_SECRET"),
                base_url: None,
                tenant_id: None,
            },
        }
    }
}

impl SmtpConfig {
    /// Reads the SMTP settings from the environment: host and credentials
    /// as given, the port that is set, else the default of the encryption
    /// in use, sender `noreply@gitfox.local` / `GitFox` by default, STARTTLS
    /// on, implicit TLS and sending off unless switched.
    pub fn from_vars(env: &Vec<(String, String)>) -> (r: SmtpConfig)
        ensures
            smtp_from_env(r, env@),
    {
        let use_tls = var_flag(env, "SMTP_USE_TLS", true);
        let use_ssl = var_flag(env, "SMTP_USE_SSL", false);
        let default_port = if use_ssl {
            465
        } else if use_tls {
            587
        } else {
            25
        };
        let port = match opt_var(env, "SMTP_PORT") {
            Some(t) => match parse_port(t.as_str()) {
                Some(p) => p,
                None => default_port,
            },
            None => default_port,
        };
        SmtpConfig {
            host: opt_var(env, "SMTP_HOST"),
            port,
            username: opt_var(env, "SMTP_USERNAME"),
            password: opt_var(env, "SMTP_PASSWORD"),
            from_email: var_or(env, "SMTP_FROM_EMAIL", "noreply@gitfox.local"),
            from_name: var_or(env, "SMTP_FROM_NAME", "GitFox"),
            use_tls,
            use_ssl,
            enabled: var_flag(env, "SMTP_ENABLED", false),
        }
    }
}

/// The identifier of an instance: `host:pid`.
pub open spec fn instance_id_of(hostname: Seq<char>, pid: u32) -> Seq<char> {
    hostname + ":"@ + decimal_of(pid as nat)
}

impl Config {
    /// Builds the configuration from the environment, the host name and the
    /// process id. Fails, with the reason, when the Unix socket mode lacks
    /// its path, a port or the token lifetime does not read as a number, or
    /// the database URL is missing.
    #[verifier::rlimit(50)]
    pub fn from_vars(env: &Vec<(String, String)>, hostname: &str, pid: u32) -> (r: Result<Config, String>)
        ensures
            match r {
                Err(m) => config_error(env@) == Some(m@),
                Ok(c) => config_error(env@) is None
                    && (env_or(env@, "SERVER_CONNECTION_TYPE"@, "tcp"@) == "unix_socket"@ ==> {
                        &&& c.server_host@ == "127.0.0.1"@
                        &&& c.server_port == 8081
                        &&& opt_string_view(c.server_socket_path) == env_var(env@, "SERVER_SOCKET_PATH"@)
                    })
                    && (env_or(env@, "SERVER_CONNECTION_TYPE"@, "tcp"@) != "unix_socket"@ ==> {
                        &&& c.server_host@ == env_or(env@, "SERVER_HOST"@, "127.0.0.1"@)
                        &&& Some(c.server_port) == port_of(env_or(env@, "SERVER_PORT"@, "8080"@))
                        &&& c.server_socket_path is None
                    })
                    && c.assets_path@ == env_or(env@, "ASSETS_PATH"@, "./assets"@)
                    && Some(c.database_url@) == env_var(env@, "DATABASE_URL"@)
                    && c.redis_url@ == env_or(env@, "REDIS_URL"@, "redis://127.0.0.1:6379"@)
                    && c.jwt_secret@ == env_or(env@, "JWT_SECRET"@, "your-super-secret-jwt-key"@)
                    && parse_in_range(env_or(env@, "JWT_EXPIRATION"@, "86400"@), true, i64::MIN as int, i64::MAX as int)
                        == Some(c.jwt_expiration as int)
                    && c.git_repos_path@ == env_or(env@, "GIT_REPOS_PATH"@, "./repos"@)
                    && c.shell_secret@ == env_or(env@, "GITFOX_SHELL_SECRET"@,
                        env_or(env@, "GITFOX_API_SECRET"@, "change-me-in-production"@))
                    && c.base_url@ == env_or(env@, "GITFOX_BASE_URL"@, "http://localhost:8080"@)
                    && c.internal_api_url@ == env_or(env@, "GITFOX_INTERNAL_API_URL"@,
                        "http://127.0.0.1:"@ + env_or(env@, "SERVER_PORT"@, "8080"@))
                    && c.ssh_enabled == env_flag(env@, "SSH_ENABLED"@, true)
                    && c.ssh_host@ == env_or(env@, "SSH_HOST"@, "0.0.0.0"@)
                    && Some(c.ssh_port) == port_of(env_or(env@, "SSH_PORT"@, "2222"@))
                    && c.ssh_public_host@ == env_or(env@, "SSH_PUBLIC_HOST"@, env_or(env@, "SSH_HOST"@, "localhost"@))
                    && Some(c.ssh_public_port) == port_of(env_or(env@, "SSH_PUBLIC_PORT"@, env_or(env@, "SSH_PORT"@, "2222"@)))
                    && c.ssh_host_key_path@ == env_or(env@, "SSH_HOST_KEY_PATH"@, "./data/ssh/host_key"@)
                    && c.gitfox_shell_path@ == env_or(env@, "GITFOX_SHELL_PATH"@,
                        "./gitfox-shell/target/debug/gitfox-shell"@)
                    && opt_string_view(c.initial_admin_username) == env_var(env@, "INITIAL_ADMIN_USERNAME"@)
                    && opt_string_view(c.initial_admin_email) == env_var(env@, "INITIAL_ADMIN_EMAIL"@)
                    && opt_string_view(c.initial_admin_password) == env_var(env@, "INITIAL_ADMIN_PASSWORD"@)
                    && c.pat_default_expiration_days == (match days_of(env_or(env@, "PAT_DEFAULT_EXPIRATION_DAYS"@, "365"@)) {
                        Some(d) => d,
                        None => 365u32,
                    })
                    && c.pat_max_expiration_days == (match days_of(env_or(env@, "PAT_MAX_EXPIRATION_DAYS"@, "0"@)) {
                        Some(d) => d,
                        None => 0u32,
                    })
                    && c.webauthn_rp_name@ == env_or(env@, "WEBAUTHN_RP_NAME"@, "GitFox"@)
                    && c.webauthn_rp_id@ == (match env_var(env@, "WEBAUTHN_RP_ID"@) {
                        Some(v) => v,
                        None => rp_id_of(env_or(env@, "GITFOX_BASE_URL"@, "http://localhost:8080"@)),
                    })
                    && c.webauthn_origin@ == env_or(env@, "WEBAUTHN_ORIGIN"@,
                        env_or(env@, "GITFOX_BASE_URL"@, "http://localhost:8080"@))
                    && c.instance_id@ == instance_id_of(hostname@, pid)
                    && c.webide_client_id@ == env_or(env@, "WEBIDE_CLIENT_ID"@, "gitfox-webide"@)
                    && c.webide_redirect_uri_path@ == env_or(env@, "WEBIDE_REDIRECT_URI_PATH"@,
                        "/-/ide/oauth/callback"@)
                    && oauth_from_env(c.oauth, env@)
                    && smtp_from_env(c.smtp, env@)
                    && c.max_upload_size == (match env_var(env@, "MAX_UPLOAD_SIZE"@) {
                        Some(t) => match parse_in_range(t, false, 0, usize::MAX as int) {
                            Some(v) => v as usize,
                            None => 1073741824usize,
                        },
                        None => 1073741824usize,
                    }),
            },
    {
        let instance_id = {
            let d = u64_to_decimal(pid as u64);
            let ds = string_of(&d);
            join3(hostname, ":", ds.as_str())
        };
        let connection_type = var_or(env, "SERVER_CONNECTION_TYPE", "tcp");
        let use_unix_socket = str_eq(connection_type.as_str(), "unix_socket");
        let server_host;
        let server_port: u16;
        let server_socket_path;
        if use_unix_socket {
            match var(env, "SERVER_SOCKET_PATH") {
                Some(p) => {
                    server_host = owned("127.0.0.1");
                    server_port = 8081;
                    server_socket_path = Some(p);
                },
                None => {
                    return Err(owned("SERVER_SOCKET_PATH must be set when SERVER_CONNECTION_TYPE=unix_socket"));
                },
            }
        } else {
            let host = var_or(env, "SERVER_HOST", "127.0.0.1");
            let port_text = var_or(env, "SERVER_PORT", "8080");
            match parse_port(port_text.as_str()) {
                Some(p) => {
                    server_host = host;
                    server_port = p;
                    server_socket_path = None;
                },
                None => {
                    return Err(owned("Invalid SERVER_PORT"));
                },
            }
        }
        let database_url = match var(env, "DATABASE_URL") {
            Some(u) => u,
            None => {
                return Err(owned("DATABASE_URL must be set"));
            },
        };
        let jwt_text = var_or(env, "JWT_EXPIRATION", "86400");
        let jwt_expiration: i64 = match parse_integer(&chars_of(jwt_text.as_str()), true, i64::MIN as i128, i64::MAX as i128) {
            Some(v) => v as i64,
            None => {
                return Err(owned("Invalid JWT_EXPIRATION"));
            },
        };
        let ssh_port_text = var_or(env, "SSH_PORT", "2222");
        let ssh_port = match parse_port(ssh_port_text.as_str()) {
            Some(p) => p,
            None => {
                return Err(owned("Invalid SSH_PORT"));
            },
        };
        let ssh_public_port_text = match var(env, "SSH_PUBLIC_PORT") {
            Some(v) => v,
            None => var_or(env, "SSH_PORT", "2222"),
        };
        let ssh_public_port = match parse_port(ssh_public_port_text.as_str()) {
            Some(p) => p,
            None => {
                return Err(owned("Invalid SSH_PUBLIC_PORT"));
            },
        };
        let shell_secret = match var(env, "GITFOX_SHELL_SECRET") {
            Some(v) => v,
            None => var_or(env, "GITFOX_API_SECRET", "change-me-in-production"),
        };
        let internal_api_url = match var(env, "GITFOX_INTERNAL_API_URL") {
            Some(v) => v,
            None => {
                let port = var_or(env, "SERVER_PORT", "8080");
                join2("http://127.0.0.1:", port.as_str())
            },
        };
        let ssh_public_host = match var(env, "SSH_PUBLIC_HOST") {
            Some(v) => v,
            None => var_or(env, "SSH_HOST", "localhost"),
        };
        let pat_default_text = var_or(env, "PAT_DEFAULT_EXPIRATION_DAYS", "365");
        let pat_default_expiration_days = match parse_days(pat_default_text.as_str()) {
            Some(d) => d,
            None => 365,
        };
        let pat_max_text = var_or(env, "PAT_MAX_EXPIRATION_DAYS", "0");
        let pat_max_expiration_days = match parse_days(pat_max_text.as_str()) {
            Some(d) => d,
            None => 0,
        };
        let webauthn_rp_id = match var(env, "WEBAUTHN_RP_ID") {
            Some(v) => v,
            None => {
                let base = var_or(env, "GITFOX_BASE_URL", "http://localhost:8080");
                rp_id_from_base(base.as_str())
            },
        };
        let webauthn_origin = match var(env, "WEBAUTHN_ORIGIN") {
            Some(v) => v,
            None => var_or(env, "GITFOX_BASE_URL", "http://localhost:8080"),
        };
        let max_upload_size: usize = match var(env, "MAX_UPLOAD_SIZE") {
            Some(t) => match parse_integer(&chars_of(t.as_str()), false, 0, usize::MAX as i128) {
                Some(v) => v as usize,
                None => 1073741824,
            },
            None => 1073741824,
        };
        Ok(Config {
            server_host,
            server_port,
            server_socket_path,
            assets_path: var_or(env, "ASSETS_PATH", "./assets"),
            database_url,
            redis_url: var_or(env, "REDIS_URL", "redis://127.0.0.1:6379"),
            jwt_secret: var_or(env, "JWT_SECRET", "your-super-secret-jwt-key"),
            jwt_expiration,
            git_repos_path: var_or(env, "GIT_REPOS_PATH", "./repos"),
            shell_secret,
            base_url: var_or(env, "GITFOX_BASE_URL", "http://localhost:8080"),
            internal_api_url,
            ssh_enabled: var_flag(env, "SSH_ENABLED", true),
            ssh_host: var_or(env, "SSH_HOST", "0.0.0.0"),
            ssh_port,
            ssh_public_host,
            ssh_public_port,
            ssh_host_key_path: var_or(env, "SSH_HOST_KEY_PATH", "./data/ssh/host_key"),
            gitfox_shell_path: var_or(env, "GITFOX_SHELL_PATH", "./gitfox-shell/target/debug/gitfox-shell"),
            initial_admin_username: opt_var(env, "INITIAL_ADMIN_USERNAME"),
            initial_admin_email: opt_var(env, "INITIAL_ADMIN_EMAIL"),
            initial_admin_password: opt_var(env, "INITIAL_ADMIN_PASSWORD"),
            oauth: OAuthConfig::from_vars(env),
            pat_default_expiration_days,
            pat_max_expiration_days,
            smtp: SmtpConfig::from_vars(env),
            webauthn_rp_name: var_or(env, "WEBAUTHN_RP_NAME", "GitFox"),
            webauthn_rp_id,
            webauthn_origin,
            instance_id,
            webide_client_id: var_or(env, "WEBIDE_CLIENT_ID", "gitfox-webide"),
            webide_redirect_uri_path: var_or(env, "WEBIDE_REDIRECT_URI_PATH", "/-/ide/oauth/callback"),
            max_upload_size,
        })
    }
}

} // verus!
