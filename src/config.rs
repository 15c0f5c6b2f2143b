use vstd::prelude::*;
use crate::decimal::{parse_unsigned, unsigned_decimal};

verus! {

/// Settings of the service, each an opaque value to the logic that uses it.
pub struct Config {
    /// Key of the keyed hash that signs capabilities.
    pub secret_key: String,
    /// Directory that holds the stored objects.
    pub upload_dir: String,
    /// Largest accepted upload, in bytes.
    pub max_file_size: usize,
    /// Time to live of an object, in seconds.
    pub file_lifetime: u64,
    /// Size of the write buffer used while ingesting, in bytes.
    pub buffer_size: usize,
    /// Address the server listens on.
    pub bind_addr: String,
    /// Externally visible base URL of capability links.
    pub base_url: String,
    /// Configured worker count; informational only.
    pub workers: usize,
}

pub const DEFAULT_MAX_FILE_SIZE: usize = 536870912;

pub const DEFAULT_FILE_LIFETIME: u64 = 300;

pub const DEFAULT_BUFFER_SIZE: usize = 2097152;

pub const DEFAULT_WORKERS: usize = 16;

/// The text of an optional string.
pub open spec fn opt_view(v: Option<String>) -> Option<Seq<char>> {
    match v {
        Some(s) => Some(s@),
        None => None,
    }
}

/// A text setting, or its default when absent.
pub open spec fn text_setting(v: Option<Seq<char>>, default: Seq<char>) -> Seq<char> {
    match v {
        Some(s) => s,
        None => default,
    }
}

/// A numeric setting no larger than `limit`, or its default when absent or
/// not a number in range.
pub open spec fn number_setting(v: Option<Seq<char>>, limit: nat, default: nat) -> nat {
    match v {
        Some(s) => match unsigned_decimal(s) {
            Some(n) => if n <= limit {
                n
            } else {
                default
            },
            None => default,
        },
        None => default,
    }
}

fn text_or(v: Option<String>, default: &str) -> (r: String)
    ensures
        r@ == text_setting(opt_view(v), default@),
{
    match v {
        Some(s) => s,
        None => String::from_str(default),
    }
}

fn number_or(v: &Option<String>, limit: u64, default: u64) -> (r: u64)
    requires
        default <= limit,
    ensures
        r == number_setting(opt_view(*v), limit as nat, default as nat),
{
    match v {
        Some(s) => match parse_unsigned(s.as_str(), limit) {
            Some(n) => n,
            None => default,
        },
        None => default,
    }
}

impl Config {
    /// Builds the settings from optional raw values; an absent value, or a
    /// number that does not parse, takes its default.
    pub fn from_settings(
        secret_key: Option<String>,
        upload_dir: Option<String>,
        max_file_size: Option<String>,
        file_lifetime: Option<String>,
        buffer_size: Option<String>,
        bind_addr: Option<String>,
        base_url: Option<String>,
        workers: Option<String>,
    ) -> (r: Config)
        ensures
            r.secret_key@ == text_setting(
                opt_view(secret_key),
                "sptzx-change-me-in-production"@,
            ),
            r.upload_dir@ == text_setting(opt_view(upload_dir), "./uploads"@),
            r.max_file_size == number_setting(
                opt_view(max_file_size),
                usize::MAX as nat,
                DEFAULT_MAX_FILE_SIZE as nat,
            ),
            r.file_lifetime == number_setting(
                opt_view(file_lifetime),
                u64::MAX as nat,
                DEFAULT_FILE_LIFETIME as nat,
            ),
            r.buffer_size == number_setting(
                opt_view(buffer_size),
                usize::MAX as nat,
                DEFAULT_BUFFER_SIZE as nat,
            ),
            r.bind_addr@ == text_setting(opt_view(bind_addr), "0.0.0.0:3000"@),
            r.base_url@ == text_setting(opt_view(base_url), "http://localhost:3000"@),
            r.workers == number_setting(
                opt_view(workers),
                usize::MAX as nat,
                DEFAULT_WORKERS as nat,
            ),
    {
        let max_file_size = number_or(&max_file_size, usize::MAX as u64, DEFAULT_MAX_FILE_SIZE as u64);
        let file_lifetime = number_or(&file_lifetime, u64::MAX, DEFAULT_FILE_LIFETIME);
        let buffer_size = number_or(&buffer_size, usize::MAX as u64, DEFAULT_BUFFER_SIZE as u64);
        let workers = number_or(&workers, usize::MAX as u64, DEFAULT_WORKERS as u64);
        Config {
            secret_key: text_or(secret_key, "sptzx-change-me-in-production"),
            upload_dir: text_or(upload_dir, "./uploads"),
            max_file_size: max_file_size as usize,
            file_lifetime,
            buffer_size: buffer_size as usize,
            bind_addr: text_or(bind_addr, "0.0.0.0:3000"),
            base_url: text_or(base_url, "http://localhost:3000"),
            workers: workers as usize,
        }
    }
}

} // verus!
