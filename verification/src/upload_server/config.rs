//! The settings of the file cache server.
use vstd::prelude::*;
use crate::text::{ends_with_seq, is_blank, only, strip_end, trim, trim_end_matches};

verus! {

/// The shortest interval, in seconds, at which expired files are swept.
pub const MIN_CLEANUP_INTERVAL_SECS: u64 = 10;

/// The settings as given. Times are in seconds.
#[derive(Debug, Clone)]
pub struct ServerConfig {
    /// The address to listen on, as text.
    pub bind: String,
    /// The base of the URLs under which files are handed out.
    pub public_base_url: String,
    /// The directory that holds the files.
    pub storage_dir: String,
    pub max_file_bytes: u64,
    pub default_ttl_secs: u64,
    pub min_ttl_secs: u64,
    pub cleanup_interval_secs: u64,
}

/// The settings made fit for use. Times are in seconds.
#[derive(Debug, Clone)]
pub struct SanitizedConfig {
    pub bind: String,
    pub public_base_url: String,
    pub storage_dir: String,
    pub max_file_bytes: u64,
    pub default_ttl: u64,
    pub min_ttl: u64,
    pub cleanup_interval: u64,
}

/// What a `SanitizedConfig` is in contracts: its strings are sequences of characters.
pub struct SanitizedConfigView {
    pub bind: Seq<char>,
    pub public_base_url: Seq<char>,
    pub storage_dir: Seq<char>,
    pub max_file_bytes: u64,
    pub default_ttl: u64,
    pub min_ttl: u64,
    pub cleanup_interval: u64,
}

impl View for SanitizedConfig {
    type V = SanitizedConfigView;

    open spec fn view(&self) -> SanitizedConfigView {
        SanitizedConfigView {
            bind: self.bind@,
            public_base_url: self.public_base_url@,
            storage_dir: self.storage_dir@,
            max_file_bytes: self.max_file_bytes,
            default_ttl: self.default_ttl,
            min_ttl: self.min_ttl,
            cleanup_interval: self.cleanup_interval,
        }
    }
}

/// Why settings cannot be used.
#[derive(Debug, Clone, Copy, PartialEq, Eq, Structural)]
pub enum ServerConfigError {
    EmptyPublicBaseUrl,
    ZeroMaxFileBytes,
    ZeroMinTtl,
}

/// What is said of a blank base URL.
pub const TEXT_EMPTY_PUBLIC_BASE_URL: &'static str = "GEWE_SERVER_PUBLIC_BASE_URL 不能为空";

/// What is said of a size ceiling of zero.
pub const TEXT_ZERO_MAX_FILE_BYTES: &'static str = "GEWE_SERVER_MAX_BYTES 必须大于 0";

/// What is said of a shortest lifetime of zero.
pub const TEXT_ZERO_MIN_TTL: &'static str = "GEWE_SERVER_MIN_TTL 必须大于 0";

impl ServerConfigError {
    /// The failure in words.
    pub fn message(self) -> (r: &'static str)
        ensures
            r@ == match self {
                ServerConfigError::EmptyPublicBaseUrl => TEXT_EMPTY_PUBLIC_BASE_URL@,
                ServerConfigError::ZeroMaxFileBytes => TEXT_ZERO_MAX_FILE_BYTES@,
                ServerConfigError::ZeroMinTtl => TEXT_ZERO_MIN_TTL@,
            },
    {
        match self {
            ServerConfigError::EmptyPublicBaseUrl => TEXT_EMPTY_PUBLIC_BASE_URL,
            ServerConfigError::ZeroMaxFileBytes => TEXT_ZERO_MAX_FILE_BYTES,
            ServerConfigError::ZeroMinTtl => TEXT_ZERO_MIN_TTL,
        }
    }
}

impl SanitizedConfigView {
    /// What holds of every set of settings that is fit for use.
    pub open spec fn valid(self) -> bool {
        &&& self.max_file_bytes > 0
        &&& self.min_ttl > 0
        &&& self.default_ttl >= self.min_ttl
        &&& self.cleanup_interval >= MIN_CLEANUP_INTERVAL_SECS
        &&& !ends_with_seq(self.public_base_url, "/"@)
    }
}

impl ServerConfig {
    /// The settings made fit for use, or the first reason why they cannot
    /// be: the base URL may not be blank and loses the slashes at its end;
    /// the size ceiling and the shortest lifetime may not be zero; the
    /// default lifetime is raised to the shortest one, and the sweep
    /// interval to its minimum.
    pub open spec fn sanitized(&self) -> Result<SanitizedConfigView, ServerConfigError> {
        if is_blank(self.public_base_url@) {
            Err(ServerConfigError::EmptyPublicBaseUrl)
        } else if self.max_file_bytes == 0 {
            Err(ServerConfigError::ZeroMaxFileBytes)
        } else if self.min_ttl_secs == 0 {
            Err(ServerConfigError::ZeroMinTtl)
        } else {
            Ok(
                SanitizedConfigView {
                    bind: self.bind@,
                    public_base_url: strip_end(self.public_base_url@, only('/')),
                    storage_dir: self.storage_dir@,
                    max_file_bytes: self.max_file_bytes,
                    default_ttl: if self.default_ttl_secs >= self.min_ttl_secs {
                        self.default_ttl_secs
                    } else {
                        self.min_ttl_secs
                    },
                    min_ttl: self.min_ttl_secs,
                    cleanup_interval: if self.cleanup_interval_secs >= MIN_CLEANUP_INTERVAL_SECS {
                        self.cleanup_interval_secs
                    } else {
                        MIN_CLEANUP_INTERVAL_SECS
                    },
                },
            )
        }
    }

    /// Makes the settings fit for use. `storage_dir` is taken as it is: the
    /// caller resolves a relative directory first.
    pub fn sanitize(self) -> (r: Result<SanitizedConfig, ServerConfigError>)
        ensures
            match r {
                Ok(c) => self.sanitized() == Ok::<SanitizedConfigView, ServerConfigError>(c@),
                Err(e) => self.sanitized() == Err::<SanitizedConfigView, ServerConfigError>(e),
            },
    {
        if trim(self.public_base_url.as_str()).as_str().unicode_len() == 0 {
            return Err(ServerConfigError::EmptyPublicBaseUrl);
        }
        let public_base_url = trim_end_matches(self.public_base_url.as_str(), '/');
        if self.max_file_bytes == 0 {
            return Err(ServerConfigError::ZeroMaxFileBytes);
        }
        if self.min_ttl_secs == 0 {
            return Err(ServerConfigError::ZeroMinTtl);
        }
        let default_ttl = if self.default_ttl_secs >= self.min_ttl_secs {
            self.default_ttl_secs
        } else {
            self.min_ttl_secs
        };
        let cleanup_interval = if self.cleanup_interval_secs >= MIN_CLEANUP_INTERVAL_SECS {
            self.cleanup_interval_secs
        } else {
            MIN_CLEANUP_INTERVAL_SECS
        };
        Ok(
            SanitizedConfig {
                bind: self.bind,
                public_base_url,
                storage_dir: self.storage_dir,
                max_file_bytes: self.max_file_bytes,
                default_ttl,
                min_ttl: self.min_ttl_secs,
                cleanup_interval,
            },
        )
    }
}

/// Settings that were made fit for use are valid.
pub proof fn lemma_sanitized_is_valid(config: ServerConfig)
    ensures
        config.sanitized() matches Ok(c) ==> c.valid(),
{
    crate::text::lemma_strip_end_is_stripped(config.public_base_url@, '/');
    reveal_strlit("/");
    assert("/"@ =~= seq!['/']);
}

} // verus!
