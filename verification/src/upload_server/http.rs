//! What the file cache server's HTTP interface takes and answers: the routes,
//! the bodies, and the rules that turn one into the other. The server that
//! listens and the disk are the caller's.
use vstd::prelude::*;
use crate::bindings::{base64_decode, base64_decoded, percent_encoded};
use crate::text::{append, is_blank, opt_view, trim, trimmed};
use crate::upload_server::error::{UploadServerError, UploadServerErrorView};
use crate::upload_server::storage::{percent_encode_filename, SavedFile, StoredFile};

verus! {

/// The route that takes uploads.
pub const ROUTE_UPLOAD: &'static str = "/upload";

/// The route that hands files out.
pub const ROUTE_DOWNLOAD: &'static str = "/files/:id/:filename";

/// The route that deletes a file.
pub const ROUTE_DELETE: &'static str = "/files/:id";

/// The route that reports that the server is up.
pub const ROUTE_HEALTH: &'static str = "/health";

/// The status of a file handed out, and of the health answer.
pub const STATUS_OK: u16 = 200;

/// The status of an accepted upload.
pub const STATUS_CREATED: u16 = 201;

/// The status of a delete, whether or not the file was there.
pub const STATUS_NO_CONTENT: u16 = 204;

/// The body of the health answer.
pub const HEALTH_BODY: &'static str = "ok";

/// The content type of a file that was stored without one.
pub const DEFAULT_CONTENT_TYPE: &'static str = "application/octet-stream";

/// What is said of an upload with a blank name.
pub const TEXT_BLANK_FILE_NAME: &'static str = "file_name 不能为空";

/// What is said of an upload whose content is no base64.
pub const TEXT_BAD_BASE64: &'static str = "content_base64 不是有效的 base64";

/// The body of an upload.
#[derive(Debug, Clone)]
pub struct UploadPayload {
    pub file_name: String,
    pub content_base64: String,
    pub content_type: Option<String>,
    pub ttl_seconds: Option<u64>,
}

/// An upload read from its body: the name trimmed, the content decoded.
#[derive(Debug, Clone)]
pub struct DecodedUpload {
    pub file_name: String,
    pub bytes: Vec<u8>,
    pub content_type: Option<String>,
    pub ttl: Option<u64>,
}

/// What a `DecodedUpload` is in contracts: its strings are sequences of characters.
pub struct DecodedUploadView {
    pub file_name: Seq<char>,
    pub bytes: Seq<u8>,
    pub content_type: Option<Seq<char>>,
    pub ttl: Option<u64>,
}

impl View for DecodedUpload {
    type V = DecodedUploadView;

    open spec fn view(&self) -> DecodedUploadView {
        DecodedUploadView {
            file_name: self.file_name@,
            bytes: self.bytes@,
            content_type: opt_view(self.content_type),
            ttl: self.ttl,
        }
    }
}

/// The body that answers an upload.
#[derive(Debug, Clone)]
pub struct UploadResponse {
    pub file_id: String,
    pub file_url: String,
    pub expires_at: u64,
    pub size: u64,
}

impl UploadPayload {
    /// What the body of an upload asks to store: a blank name is refused
    /// first, then content that is no base64.
    pub open spec fn decoded(&self) -> Result<DecodedUploadView, UploadServerErrorView> {
        if is_blank(self.file_name@) {
            Err(UploadServerErrorView::BadRequest(TEXT_BLANK_FILE_NAME@))
        } else {
            match base64_decoded(self.content_base64@) {
                None => Err(UploadServerErrorView::BadRequest(TEXT_BAD_BASE64@)),
                Some(bytes) => Ok(
                    DecodedUploadView {
                        file_name: trimmed(self.file_name@),
                        bytes,
                        content_type: opt_view(self.content_type),
                        ttl: self.ttl_seconds,
                    },
                ),
            }
        }
    }

    /// Reads the body of an upload.
    pub fn decode(self) -> (r: Result<DecodedUpload, UploadServerError>)
        ensures
            match r {
                Ok(upload) => self.decoded() == Ok::<DecodedUploadView, UploadServerErrorView>(
                    upload@,
                ),
                Err(e) => self.decoded() == Err::<DecodedUploadView, UploadServerErrorView>(e@),
            },
    {
        let file_name = trim(self.file_name.as_str());
        if file_name.as_str().unicode_len() == 0 {
            return Err(UploadServerError::BadRequest(TEXT_BLANK_FILE_NAME.to_string()));
        }
        match base64_decode(self.content_base64.as_str()) {
            Ok(bytes) => Ok(
                DecodedUpload {
                    file_name,
                    bytes,
                    content_type: self.content_type,
                    ttl: self.ttl_seconds,
                },
            ),
            Err(_) => Err(UploadServerError::BadRequest(TEXT_BAD_BASE64.to_string())),
        }
    }
}

/// The URL under which the file `id` is handed out: the base, the
/// identifier, and the name percent-encoded.
pub open spec fn download_url(base: Seq<char>, id: Seq<char>, file_name: Seq<char>) -> Seq<char> {
    base + "/files/"@ + id + "/"@ + percent_encoded(vstd::utf8::encode_utf8(file_name))
}

/// The URL under which the file `id` is handed out.
pub fn file_url(public_base_url: &str, id: &str, file_name: &str) -> (r: String)
    ensures
        r@ == download_url(public_base_url@, id@, file_name@),
{
    let a = append(public_base_url, "/files/");
    let b = append(a.as_str(), id);
    let c = append(b.as_str(), "/");
    append(c.as_str(), percent_encode_filename(file_name).as_str())
}

/// The body that answers the upload of `saved`.
pub fn upload_response(public_base_url: &str, saved: SavedFile) -> (r: UploadResponse)
    ensures
        r.file_id@ == saved.id@,
        r.file_url@ == download_url(public_base_url@, saved.id@, saved.file_name@),
        r.expires_at == saved.expires_at,
        r.size == saved.size,
{
    let url = file_url(public_base_url, saved.id.as_str(), saved.file_name.as_str());
    UploadResponse { file_id: saved.id, file_url: url, expires_at: saved.expires_at, size: saved.size }
}

/// The content type that a stored file is handed out with: its own, or the
/// default one.
pub fn download_content_type(file: &StoredFile) -> (r: String)
    ensures
        r@ == match file.content_type {
            Some(t) => t@,
            None => DEFAULT_CONTENT_TYPE@,
        },
{
    match &file.content_type {
        Some(t) => t.clone(),
        None => DEFAULT_CONTENT_TYPE.to_string(),
    }
}

/// The content disposition that a stored file is handed out with: an
/// attachment under the file's name.
pub fn download_disposition(file: &StoredFile) -> (r: String)
    ensures
        r@ == "attachment; filename=\""@ + file.file_name@ + "\""@,
{
    let front = append("attachment; filename=\"", file.file_name.as_str());
    append(front.as_str(), "\"")
}

} // verus!
