//! Settings of a gateway process, read once at start from the environment.

use crate::text::{parse_decimal, parse_u64, str_eq};
use vstd::prelude::*;
use vstd::utf8::*;

verus! {

/// A key for tokens: a text that is not empty.
#[derive(Debug, PartialEq, Eq)]
pub struct TokenKey {
    text: String,
}

impl View for TokenKey {
    type V = Seq<char>;

    closed spec fn view(&self) -> Seq<char> {
        self.text@
    }
}

impl Clone for TokenKey {
    fn clone(&self) -> (key: Self)
        ensures
            key@ == self@,
    {
        proof {
            use_type_invariant(self);
        }
        TokenKey { text: self.text.clone() }
    }
}

impl TokenKey {
    #[verifier::type_invariant]
    spec fn is_filled(self) -> bool {
        self.text@.len() > 0
    }

    /// The key with the text `text`, and none for the empty text.
    pub fn new(text: String) -> (key: Option<TokenKey>)
        ensures
            key is Some <==> text@.len() > 0,
            key matches Some(k) ==> k@ == text@,
    {
        if text.as_str().unicode_len() == 0 {
            None
        } else {
            Some(TokenKey { text })
        }
    }

    /// The text of the key, which is never empty.
    pub fn as_str(&self) -> (text: &str)
        ensures
            text@ == self@,
            text@.len() > 0,
    {
        proof {
            use_type_invariant(self);
        }
        self.text.as_str()
    }
}

/// What a gateway process is configured with.
#[derive(Clone, Debug)]
pub struct Settings {
    pub port: u16,
    pub base_url: String,
    pub encryption_key: TokenKey,
    pub temp_dir: String,
    pub cookies_path: String,
    pub max_workers: usize,
    pub ytdlp_timeout: u64,
    pub download_timeout: u64,
    pub redis_host: String,
    pub redis_port: u16,
    pub instance_id: String,
    pub instance_region: String,
    pub gluetun_control_port: u16,
    pub gluetun_username: String,
    pub gluetun_password: String,
}

/// Why the environment gives no settings.
#[derive(Clone, Copy, Debug, PartialEq, Eq, Structural)]
pub enum ConfigError {
    /// The key for tokens is set and empty.
    EmptyKey,
}

impl ConfigError {
    /// The sentence that tells the operator what is wrong.
    pub fn message(&self) -> (text: &'static str)
        ensures
            text@ == "ENCRYPTION_KEY must not be empty"@,
    {
        "ENCRYPTION_KEY must not be empty"
    }
}

/// The key for tokens that the variables name, or the key that stands in
/// where they name none.
pub open spec fn key_of(vars: Seq<(String, String)>) -> Seq<char> {
    text_or(vars, "ENCRYPTION_KEY"@, "overflow"@)
}

/// The value of the first variable called `name`.
pub open spec fn lookup(vars: Seq<(String, String)>, name: Seq<char>) -> Option<Seq<char>>
    decreases vars.len(),
{
    if vars.len() == 0 {
        None
    } else if vars[0].0@ == name {
        Some(vars[0].1@)
    } else {
        lookup(vars.skip(1), name)
    }
}

/// The text of the variable `name`, or `default` where it is not set.
pub open spec fn text_or(vars: Seq<(String, String)>, name: Seq<char>, default: Seq<char>) -> Seq<
    char,
> {
    match lookup(vars, name) {
        Some(value) => value,
        None => default,
    }
}

/// The number in the variable `name`, or `default` where it is not set, is no
/// number, or is above `max`.
pub open spec fn number_or(vars: Seq<(String, String)>, name: Seq<char>, default: u64, max: u64) -> u64 {
    match lookup(vars, name) {
        Some(value) => match parse_u64(encode_utf8(value)) {
            Some(n) => if n <= max {
                n
            } else {
                default
            },
            None => default,
        },
        None => default,
    }
}

/// True when each setting is what the variables give for it, or its default.
pub open spec fn describes(settings: Settings, vars: Seq<(String, String)>) -> bool {
    &&& settings.port == number_or(vars, "PORT"@, 3021, u16::MAX as u64)
    &&& settings.base_url@ == text_or(vars, "BASE_URL"@, "http://localhost:3021"@)
    &&& settings.encryption_key@ == key_of(vars)
    &&& settings.temp_dir@ == text_or(vars, "TEMP_DIR"@, "./temp"@)
    &&& settings.cookies_path@ == text_or(
        vars,
        "COOKIES_PATH"@,
        "./cookies/www.tiktok.com_cookies.txt"@,
    )
    &&& settings.max_workers == number_or(vars, "MAX_WORKERS"@, 20, usize::MAX as u64)
    &&& settings.ytdlp_timeout == number_or(vars, "YTDLP_TIMEOUT"@, 30, u64::MAX)
    &&& settings.download_timeout == number_or(vars, "DOWNLOAD_TIMEOUT"@, 120, u64::MAX)
    &&& settings.redis_host@ == text_or(vars, "REDIS_HOST"@, "redis"@)
    &&& settings.redis_port == number_or(vars, "REDIS_PORT"@, 6379, u16::MAX as u64)
    &&& settings.instance_id@ == text_or(vars, "INSTANCE_ID"@, "unknown"@)
    &&& settings.instance_region@ == text_or(vars, "INSTANCE_REGION"@, "unknown"@)
    &&& settings.gluetun_control_port == number_or(
        vars,
        "GLUETUN_CONTROL_PORT"@,
        8000,
        u16::MAX as u64,
    )
    &&& settings.gluetun_username@ == text_or(vars, "GLUETUN_USERNAME"@, "admin"@)
    &&& settings.gluetun_password@ == text_or(vars, "GLUETUN_PASSWORD"@, "secretpassword"@)
}

/// The value of the first variable called `name`.
pub fn find_var<'a>(vars: &'a Vec<(String, String)>, name: &str) -> (r: Option<&'a str>)
    ensures
        match r {
            Some(value) => lookup(vars@, name@) == Some(value@),
            None => lookup(vars@, name@) is None,
        },
{
    let mut i: usize = 0;
    assert(vars@.skip(0) =~= vars@);
    while i < vars.len()
        invariant
            0 <= i <= vars@.len(),
            lookup(vars@, name@) == lookup(vars@.skip(i as int), name@),
        decreases vars@.len() - i,
    {
        if str_eq(vars[i].0.as_str(), name) {
            assert(vars@.skip(i as int)[0] == vars@[i as int]);
            return Some(vars[i].1.as_str());
        }
        assert(vars@.skip(i as int)[0] == vars@[i as int]);
        assert(vars@.skip(i as int).skip(1) =~= vars@.skip(i + 1));
        i = i + 1;
    }
    None
}

/// The text of the variable `name`, or `default`.
pub fn env_str(vars: &Vec<(String, String)>, name: &str, default: &str) -> (r: String)
    ensures
        r@ == text_or(vars@, name@, default@),
{
    match find_var(vars, name) {
        Some(value) => value.to_owned(),
        None => default.to_owned(),
    }
}

/// The number in the variable `name`, or `default`.
pub fn env_parse(vars: &Vec<(String, String)>, name: &str, default: u64, max: u64) -> (r: u64)
    ensures
        r == number_or(vars@, name@, default, max),
        default <= max ==> r <= max,
{
    match find_var(vars, name) {
        Some(value) => match parse_decimal(value.as_bytes()) {
            Some(n) => if n <= max {
                n
            } else {
                default
            },
            None => default,
        },
        None => default,
    }
}

impl Settings {
    /// The settings that the variables `vars` of the environment describe.
    /// A variable that is missing, or a number that cannot be read, gives the
    /// default. An empty key is refused.
    pub fn from_env(vars: &Vec<(String, String)>) -> (r: Result<Settings, ConfigError>)
        ensures
            r is Err <==> key_of(vars@).len() == 0,
            r matches Err(e) ==> e == ConfigError::EmptyKey,
            r matches Ok(settings) ==> settings.encryption_key@.len() > 0 && describes(
                settings,
                vars@,
            ),
    {
        let encryption_key = match TokenKey::new(env_str(vars, "ENCRYPTION_KEY", "overflow")) {
            Some(key) => key,
            None => {
                return Err(ConfigError::EmptyKey);
            },
        };
        proof {
            use_type_invariant(&encryption_key);
        }
        {
            Ok(Settings {
                port: env_parse(vars, "PORT", 3021, u16::MAX as u64) as u16,
                base_url: env_str(vars, "BASE_URL", "http://localhost:3021"),
                encryption_key,
                temp_dir: env_str(vars, "TEMP_DIR", "./temp"),
                cookies_path: env_str(vars, "COOKIES_PATH", "./cookies/www.tiktok.com_cookies.txt"),
                max_workers: env_parse(vars, "MAX_WORKERS", 20, usize::MAX as u64) as usize,
                ytdlp_timeout: env_parse(vars, "YTDLP_TIMEOUT", 30, u64::MAX),
                download_timeout: env_parse(vars, "DOWNLOAD_TIMEOUT", 120, u64::MAX),
                redis_host: env_str(vars, "REDIS_HOST", "redis"),
                redis_port: env_parse(vars, "REDIS_PORT", 6379, u16::MAX as u64) as u16,
                instance_id: env_str(vars, "INSTANCE_ID", "unknown"),
                instance_region: env_str(vars, "INSTANCE_REGION", "unknown"),
                gluetun_control_port: env_parse(vars, "GLUETUN_CONTROL_PORT", 8000, u16::MAX as u64) as u16,
                gluetun_username: env_str(vars, "GLUETUN_USERNAME", "admin"),
                gluetun_password: env_str(vars, "GLUETUN_PASSWORD", "secretpassword"),
            })
        }
    }
}

/// What a session gateway process is configured with. It makes no tokens,
/// so it has no key; it listens on a port of its own and names its store by
/// its address.
#[derive(Clone, Debug, PartialEq, Eq)]
pub struct SessionSettings {
    pub port: u16,
    pub base_url: String,
    pub redis_url: String,
}

/// True when each setting of a session gateway is what the variables give
/// for it, or its default.
pub open spec fn describes_sessions(settings: SessionSettings, vars: Seq<(String, String)>) -> bool {
    &&& settings.port == number_or(vars, "PORT"@, 8025, u16::MAX as u64)
    &&& settings.base_url@ == text_or(vars, "BASE_URL"@, "http://localhost:8025"@)
    &&& settings.redis_url@ == text_or(vars, "REDIS_URL"@, "redis://127.0.0.1:6379"@)
}

impl SessionSettings {
    /// The settings of a session gateway that the variables `vars` of the
    /// environment describe.
    pub fn from_env(vars: &Vec<(String, String)>) -> (settings: SessionSettings)
        ensures
            describes_sessions(settings, vars@),
    {
        SessionSettings {
            port: env_parse(vars, "PORT", 8025, u16::MAX as u64) as u16,
            base_url: env_str(vars, "BASE_URL", "http://localhost:8025"),
            redis_url: env_str(vars, "REDIS_URL", "redis://127.0.0.1:6379"),
        }
    }
}

} // verus!
