//! The uploader that puts the bytes into object storage and hands out a
//! presigned URL of bounded lifetime.
use vstd::prelude::*;
use crate::bindings::{fresh_id, is_simple_uuid, sanitize_file_name, sanitized_name};
use crate::config::S3UploadConfig;
use crate::text::{append, opt_str_view, opt_view};
use crate::uploader::UploadResult;

verus! {

/// The longest lifetime of a presigned URL that the storage allows: seven
/// days, in seconds.
pub const PRESIGN_MAX_SECS: u64 = 604800;

/// The lifetime of a presigned URL where none is asked for, in seconds.
pub const PRESIGN_DEFAULT_SECS: u64 = 300;

/// The lifetime of the presigned URL, in seconds: the one asked for, or the
/// default one, cut off at the longest that the storage allows.
pub open spec fn presign_lifetime(ttl: Option<u64>, presign_max: u64) -> u64 {
    let asked = match ttl {
        Some(t) => t,
        None => PRESIGN_DEFAULT_SECS,
    };
    if asked <= presign_max {
        asked
    } else {
        presign_max
    }
}

/// The key of an object: under the prefix, where there is one that is not
/// empty, the unique part, an underscore, and the sanitized name.
pub open spec fn object_key_of(prefix: Option<Seq<char>>, unique: Seq<char>, safe_name: Seq<char>) -> Seq<
    char,
> {
    match prefix {
        Some(p) => if p.len() > 0 {
            p + "/"@ + unique + "_"@ + safe_name
        } else {
            unique + "_"@ + safe_name
        },
        None => unique + "_"@ + safe_name,
    }
}

/// Builds the key of an object from its parts.
pub fn object_key(prefix: Option<&str>, unique: &str, safe_name: &str) -> (r: String)
    ensures
        r@ == object_key_of(
            opt_str_view(prefix),
            unique@,
            safe_name@,
        ),
{
    let tail = append(append(unique, "_").as_str(), safe_name);
    match prefix {
        Some(p) => {
            if p.unicode_len() != 0 {
                append(append(p, "/").as_str(), tail.as_str())
            } else {
                tail
            }
        },
        None => tail,
    }
}

/// Builds a key for a file named `file_name`: the name is sanitized, and
/// a fresh unique part, which has the shape of a UUID in simple form, keeps
/// two uploads of one name apart.
pub fn build_object_key(prefix: Option<&str>, file_name: &str, windows_names: bool) -> (r: String)
    ensures
        exists|unique: Seq<char>|
            is_simple_uuid(unique) && r@ == #[trigger] object_key_of(
                opt_str_view(prefix),
                unique,
                sanitized_name(file_name@, windows_names),
            ),
{
    let safe_name = sanitize_file_name(file_name, windows_names);
    let unique = fresh_id();
    object_key(prefix, unique.as_str(), safe_name.as_str())
}

/// The uploader's settings. The storage client is the caller's.
#[derive(Debug, Clone)]
pub struct S3Uploader {
    bucket: String,
    prefix: Option<String>,
    presign_max: u64,
    windows_names: bool,
}

impl S3Uploader {
    /// The bucket that takes the uploads.
    pub closed spec fn spec_bucket(&self) -> Seq<char> {
        self.bucket@
    }

    /// The prefix under which the keys are made.
    pub closed spec fn spec_prefix(&self) -> Option<Seq<char>> {
        opt_view(self.prefix)
    }

    /// The longest lifetime of a presigned URL, in seconds.
    pub closed spec fn spec_presign_max(&self) -> u64 {
        self.presign_max
    }

    /// Whether names are sanitized by the rules for Windows too.
    pub closed spec fn spec_windows_names(&self) -> bool {
        self.windows_names
    }

    /// An uploader into the bucket of `config`. `windows_names` says
    /// whether names are sanitized by the rules for Windows too.
    pub fn new(config: S3UploadConfig, windows_names: bool) -> (r: Self)
        ensures
            r.spec_bucket() == config.bucket@,
            r.spec_prefix() == opt_view(config.prefix),
            r.spec_presign_max() == PRESIGN_MAX_SECS,
            r.spec_windows_names() == windows_names,
    {
        S3Uploader {
            bucket: config.bucket,
            prefix: config.prefix,
            presign_max: PRESIGN_MAX_SECS,
            windows_names,
        }
    }

    /// The bucket that takes the uploads.
    pub fn bucket(&self) -> (r: &str)
        ensures
            r@ == self.spec_bucket(),
    {
        self.bucket.as_str()
    }

    /// A key for a file named `file_name`, with a fresh unique part that
    /// has the shape of a UUID in simple form.
    pub fn key_for(&self, file_name: &str) -> (r: String)
        ensures
            exists|unique: Seq<char>|
                is_simple_uuid(unique) && r@ == #[trigger] object_key_of(
                    self.spec_prefix(),
                    unique,
                    sanitized_name(file_name@, self.spec_windows_names()),
                ),
    {
        let prefix = match &self.prefix {
            Some(p) => Some(p.as_str()),
            None => None,
        };
        let r = build_object_key(prefix, file_name, self.windows_names);
        proof {
            let safe_name = sanitized_name(file_name@, self.windows_names);
            let unique = choose|unique: Seq<char>|
                is_simple_uuid(unique) && r@ == #[trigger] object_key_of(
                    opt_str_view(prefix),
                    unique,
                    safe_name,
                );
            assert(r@ == object_key_of(
                self.spec_prefix(),
                unique,
                sanitized_name(file_name@, self.spec_windows_names()),
            ));
        }
        r
    }

    /// The lifetime of the presigned URL, in seconds.
    pub fn presign_ttl(&self, ttl: Option<u64>) -> (r: u64)
        ensures
            r == presign_lifetime(ttl, self.spec_presign_max()),
            r <= self.spec_presign_max(),
    {
        let asked = match ttl {
            Some(t) => t,
            None => PRESIGN_DEFAULT_SECS,
        };
        if asked <= self.presign_max {
            asked
        } else {
            self.presign_max
        }
    }

    /// The result of an upload of `size` bytes that was presigned at `now`
    /// for `lifetime` seconds. The expiry must be a second that can be
    /// counted.
    pub fn uploaded(url: String, size: usize, lifetime: u64, now: u64) -> (r: UploadResult)
        requires
            now + lifetime <= u64::MAX,
        ensures
            r.file_url@ == url@,
            r.expires_at == Some((now + lifetime) as u64),
            r.size == size,
    {
        UploadResult { file_url: url, expires_at: Some(now + lifetime), size: size as u64 }
    }
}

} // verus!
