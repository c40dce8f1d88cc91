//! Uploaders turn bytes into a URL from which the backend can fetch them.
//! There are two: one hands the bytes to the file cache server, one puts
//! them into object storage. What both take and give stands here.
use vstd::prelude::*;
use crate::text::append;

pub mod s3;
pub mod server;

verus! {

/// What a failed request is described with, before its reason.
pub const TEXT_HTTP: &'static str = "HTTP 请求失败: ";

/// What an answer that cannot be read is described with, before its reason.
pub const TEXT_INVALID_RESPONSE: &'static str = "响应解析失败: ";

/// What any other failure is described with, before its reason.
pub const TEXT_OTHER: &'static str = "上传失败: ";

/// Why an upload failed.
#[derive(Debug)]
pub enum UploadError {
    /// The request failed, or was answered with a refusal.
    Http(String),
    /// The answer could not be read.
    InvalidResponse(String),
    Other(String),
}

/// What a `UploadError` is in contracts: its strings are sequences of characters.
pub enum UploadErrorView {
    Http(Seq<char>),
    InvalidResponse(Seq<char>),
    Other(Seq<char>),
}

impl View for UploadError {
    type V = UploadErrorView;

    open spec fn view(&self) -> UploadErrorView {
        match self {
            UploadError::Http(text) => UploadErrorView::Http(text@),
            UploadError::InvalidResponse(text) => UploadErrorView::InvalidResponse(text@),
            UploadError::Other(text) => UploadErrorView::Other(text@),
        }
    }
}

impl UploadErrorView {
    /// The failure in words.
    pub open spec fn text(self) -> Seq<char> {
        match self {
            UploadErrorView::Http(text) => TEXT_HTTP@ + text,
            UploadErrorView::InvalidResponse(text) => TEXT_INVALID_RESPONSE@ + text,
            UploadErrorView::Other(text) => TEXT_OTHER@ + text,
        }
    }
}

impl UploadError {
    /// The failure in words.
    pub fn message(&self) -> (r: String)
        ensures
            r@ == self@.text(),
    {
        match self {
            UploadError::Http(text) => append(TEXT_HTTP, text.as_str()),
            UploadError::InvalidResponse(text) => append(TEXT_INVALID_RESPONSE, text.as_str()),
            UploadError::Other(text) => append(TEXT_OTHER, text.as_str()),
        }
    }
}

/// What is to be uploaded. `ttl` is the lifetime asked for, in seconds.
pub struct UploadRequest<'a> {
    pub file_name: &'a str,
    pub content: &'a [u8],
    pub content_type: Option<&'a str>,
    pub ttl: Option<u64>,
}

/// Where the upload can be fetched. `expires_at` is in seconds since the
/// Unix epoch.
#[derive(Debug, Clone)]
pub struct UploadResult {
    pub file_url: String,
    pub expires_at: Option<u64>,
    pub size: u64,
}

} // verus!
