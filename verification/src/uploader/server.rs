//! The uploader that hands the bytes to the file cache server: one POST with
//! the content in base64, answered with `201` and the URL, or refused.
use vstd::prelude::*;
use crate::bindings::{base64_encode, base64_encoded};
use crate::config::ServerUploadConfig;
use crate::text::{append, opt_str_view, opt_view};
use crate::uploader::{UploadError, UploadErrorView, UploadRequest, UploadResult};

verus! {

/// The only status with which the file cache server accepts an upload.
pub const STATUS_ACCEPTED_UPLOAD: u16 = 201;

/// The name of the header that carries the API key.
pub const API_KEY_HEADER: &'static str = "X-API-Key";

/// What a refused upload is described with, before the status.
pub const TEXT_REFUSED: &'static str = "上传服务器返回非 201 状态码 ";

/// What stands for a body that could not be read.
pub const TEXT_UNREADABLE_BODY: &'static str = "<failed to read body>";

/// The body of the upload request.
#[derive(Debug, Clone)]
pub struct ServerUploadPayload {
    pub file_name: String,
    pub content_base64: String,
    pub content_type: Option<String>,
    pub ttl_seconds: Option<u64>,
}

/// The body with which the file cache server accepts an upload.
#[derive(Debug, Clone)]
pub struct ServerUploadResponse {
    pub file_url: String,
    pub expires_at: u64,
    pub size: u64,
}

/// The uploader's settings. The HTTP client is the caller's.
#[derive(Debug, Clone)]
pub struct ServerUploader {
    endpoint: String,
    api_key: Option<String>,
}

impl ServerUploader {
    /// The URL that takes the upload.
    pub closed spec fn spec_endpoint(&self) -> Seq<char> {
        self.endpoint@
    }

    /// The API key to send along, where one is configured.
    pub closed spec fn spec_api_key(&self) -> Option<Seq<char>> {
        opt_view(self.api_key)
    }

    /// An uploader to the endpoint of `config`.
    pub fn new(config: ServerUploadConfig) -> (r: Self)
        ensures
            r.spec_endpoint() == config.endpoint@,
            r.spec_api_key() == opt_view(config.api_key),
    {
        ServerUploader { endpoint: config.endpoint, api_key: config.api_key }
    }

    /// The URL that takes the upload.
    pub fn endpoint(&self) -> (r: &str)
        ensures
            r@ == self.spec_endpoint(),
    {
        self.endpoint.as_str()
    }

    /// The API key to send along, where one is configured.
    pub fn api_key(&self) -> (r: Option<&str>)
        ensures
            opt_str_view(r) == self.spec_api_key(),
    {
        match &self.api_key {
            Some(k) => Some(k.as_str()),
            None => None,
        }
    }

    /// The body that uploads `request`: its content in base64, the rest as
    /// it is.
    pub fn payload(request: &UploadRequest<'_>) -> (r: ServerUploadPayload)
        ensures
            r.file_name@ == request.file_name@,
            r.content_base64@ == base64_encoded(request.content@),
            opt_view(r.content_type) == opt_str_view(request.content_type),
            r.ttl_seconds == request.ttl,
    {
        ServerUploadPayload {
            file_name: request.file_name.to_string(),
            content_base64: base64_encode(request.content),
            content_type: match request.content_type {
                Some(t) => Some(t.to_string()),
                None => None,
            },
            ttl_seconds: request.ttl,
        }
    }

    /// Whether the status accepts the upload. Every other status is a
    /// refusal, and none is tried again.
    pub fn is_accepted(status: u16) -> (r: bool)
        ensures
            r == (status == STATUS_ACCEPTED_UPLOAD),
    {
        status == STATUS_ACCEPTED_UPLOAD
    }

    /// The result of an accepted upload.
    pub fn accepted(response: ServerUploadResponse) -> (r: UploadResult)
        ensures
            r.file_url@ == response.file_url@,
            r.expires_at == Some(response.expires_at),
            r.size == response.size,
    {
        UploadResult {
            file_url: response.file_url,
            expires_at: Some(response.expires_at),
            size: response.size,
        }
    }

    /// The failure of a refused upload. `status` is the status as the HTTP
    /// client writes it, `body` what the server said.
    pub fn refused(status: &str, body: &str) -> (e: UploadError)
        ensures
            e@ == UploadErrorView::Http(TEXT_REFUSED@ + status@ + ": "@ + body@),
    {
        let a = append(TEXT_REFUSED, status);
        let b = append(a.as_str(), ": ");
        UploadError::Http(append(b.as_str(), body))
    }
}

} // verus!
