//! The failures of the file cache server, and how each is answered over HTTP.
use vstd::prelude::*;
use crate::text::{append, decimal, decimal_digits};

verus! {

/// A failure of the file cache server.
#[derive(Debug)]
pub enum UploadServerError {
    /// The request cannot be served as it is; the text says why.
    BadRequest(String),
    /// The payload is larger than the configured ceiling.
    FileTooLarge { max_bytes: u64 },
    /// The server could not do its own part; the text says what failed.
    Internal(String),
    /// No file is stored under the identifier, or it has expired.
    NotFound,
}

/// What a `UploadServerError` is in contracts: its strings are sequences of characters.
pub enum UploadServerErrorView {
    BadRequest(Seq<char>),
    FileTooLarge { max_bytes: u64 },
    Internal(Seq<char>),
    NotFound,
}

impl View for UploadServerError {
    type V = UploadServerErrorView;

    open spec fn view(&self) -> UploadServerErrorView {
        match self {
            UploadServerError::BadRequest(text) => UploadServerErrorView::BadRequest(text@),
            UploadServerError::FileTooLarge { max_bytes } => UploadServerErrorView::FileTooLarge {
                max_bytes: *max_bytes,
            },
            UploadServerError::Internal(text) => UploadServerErrorView::Internal(text@),
            UploadServerError::NotFound => UploadServerErrorView::NotFound,
        }
    }
}

/// The status of a request that cannot be served as it is.
pub const STATUS_BAD_REQUEST: u16 = 400;

/// The status of a file that is not there.
pub const STATUS_GONE: u16 = 410;

/// The status of a failure of the server's own.
pub const STATUS_INTERNAL_SERVER_ERROR: u16 = 500;

/// What a bad request is described with, before its reason.
pub const TEXT_BAD_REQUEST: &'static str = "无效请求: ";

/// What a payload above the ceiling is described with, before the ceiling.
pub const TEXT_TOO_LARGE_BEFORE: &'static str = "文件超出大小限制(";

/// What a payload above the ceiling is described with, after the ceiling.
pub const TEXT_TOO_LARGE_AFTER: &'static str = " 字节)";

/// What a failure of the server's own is described with, before what failed.
pub const TEXT_INTERNAL: &'static str = "内部错误: ";

/// What a file that is not there is described with.
pub const TEXT_NOT_FOUND: &'static str = "文件不存在或已过期";

/// What a payload above the ceiling is answered with, before the ceiling.
pub const TEXT_LIMIT_BEFORE: &'static str = "文件大小超过限制: 最大 ";

/// What a payload above the ceiling is answered with, after the ceiling.
pub const TEXT_LIMIT_AFTER: &'static str = " 字节";

impl UploadServerErrorView {
    /// The HTTP status that answers the failure: gone for a file that is
    /// not there, a server error for a failure of the server's own, a bad
    /// request for the rest.
    pub open spec fn status(self) -> u16 {
        match self {
            UploadServerErrorView::BadRequest(_) => STATUS_BAD_REQUEST,
            UploadServerErrorView::FileTooLarge { .. } => STATUS_BAD_REQUEST,
            UploadServerErrorView::NotFound => STATUS_GONE,
            UploadServerErrorView::Internal(_) => STATUS_INTERNAL_SERVER_ERROR,
        }
    }

    /// The failure in words.
    pub open spec fn text(self) -> Seq<char> {
        match self {
            UploadServerErrorView::BadRequest(text) => TEXT_BAD_REQUEST@ + text,
            UploadServerErrorView::FileTooLarge { max_bytes } => TEXT_TOO_LARGE_BEFORE@
                + decimal_digits(max_bytes as nat) + TEXT_TOO_LARGE_AFTER@,
            UploadServerErrorView::Internal(text) => TEXT_INTERNAL@ + text,
            UploadServerErrorView::NotFound => TEXT_NOT_FOUND@,
        }
    }

    /// The message in the body of the HTTP answer.
    pub open spec fn body_message(self) -> Seq<char> {
        match self {
            UploadServerErrorView::BadRequest(text) => text,
            UploadServerErrorView::FileTooLarge { max_bytes } => TEXT_LIMIT_BEFORE@ + decimal_digits(
                max_bytes as nat,
            ) + TEXT_LIMIT_AFTER@,
            _ => self.text(),
        }
    }
}

impl UploadServerError {
    /// The failure in words.
    pub fn message(&self) -> (r: String)
        ensures
            r@ == self@.text(),
    {
        match self {
            UploadServerError::BadRequest(text) => append(TEXT_BAD_REQUEST, text.as_str()),
            UploadServerError::FileTooLarge { max_bytes } => {
                let front = append(TEXT_TOO_LARGE_BEFORE, decimal(*max_bytes).as_str());
                append(front.as_str(), TEXT_TOO_LARGE_AFTER)
            },
            UploadServerError::Internal(text) => append(TEXT_INTERNAL, text.as_str()),
            UploadServerError::NotFound => TEXT_NOT_FOUND.to_string(),
        }
    }

    /// The HTTP answer to the failure: its status, and the message of its body.
    pub fn into_response(self) -> (r: (u16, String))
        ensures
            r.0 == self@.status(),
            r.1@ == self@.body_message(),
    {
        match self {
            UploadServerError::BadRequest(text) => (STATUS_BAD_REQUEST, text),
            UploadServerError::FileTooLarge { max_bytes } => {
                let front = append(TEXT_LIMIT_BEFORE, decimal(max_bytes).as_str());
                (STATUS_BAD_REQUEST, append(front.as_str(), TEXT_LIMIT_AFTER))
            },
            UploadServerError::NotFound => (STATUS_GONE, self.message()),
            UploadServerError::Internal(_) => (STATUS_INTERNAL_SERVER_ERROR, self.message()),
        }
    }
}

} // verus!
