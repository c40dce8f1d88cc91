//! The closed taxonomy of failures, and the predicates that the retry logic
//! branches on.
use vstd::prelude::*;
use crate::bindings::{duration_debug, duration_text, quoted_text, str_debug};
use crate::text::{
    append, contains, contains_seq, decimal, decimal_digits, opt_view, signed_decimal,
    signed_decimal_digits,
};

verus! {

/// Why a token was refused.
#[derive(Debug, Clone)]
pub enum TokenValidationError {
    NotUuid,
    /// The text is no UUID; the parser's own words say why.
    ParseError(String),
}

/// What a `TokenValidationError` is in contracts: its strings are sequences of characters.
pub enum TokenValidationErrorView {
    NotUuid,
    ParseError(Seq<char>),
}

impl View for TokenValidationError {
    type V = TokenValidationErrorView;

    open spec fn view(&self) -> TokenValidationErrorView {
        match self {
            TokenValidationError::NotUuid => TokenValidationErrorView::NotUuid,
            TokenValidationError::ParseError(detail) => TokenValidationErrorView::ParseError(detail@),
        }
    }
}

/// Why a recipient identifier was refused.
#[derive(Debug, Clone, Copy, PartialEq, Eq, Structural)]
pub enum WxIdValidationError {
    Empty,
    InvalidChatroomFormat,
}

/// A configuration that cannot be used. Found before any network activity.
#[derive(Debug, Clone)]
#[allow(inconsistent_fields)]
pub enum ConfigValidationError {
    InvalidToken { reason: TokenValidationError },
    InvalidAppId { value: String },
    InvalidWxId { reason: WxIdValidationError },
    InvalidUploadMode { value: String },
    MissingUploadField { field: &'static str },
    ConflictingUploadConfig { reason: String },
    InvalidUrl { value: String },
}

/// What a `ConfigValidationError` is in contracts: its strings are sequences of characters.
#[allow(inconsistent_fields)]
pub enum ConfigValidationErrorView {
    InvalidToken { reason: TokenValidationErrorView },
    InvalidAppId { value: Seq<char> },
    InvalidWxId { reason: WxIdValidationError },
    InvalidUploadMode { value: Seq<char> },
    MissingUploadField { field: Seq<char> },
    ConflictingUploadConfig { reason: Seq<char> },
    InvalidUrl { value: Seq<char> },
}

impl View for ConfigValidationError {
    type V = ConfigValidationErrorView;

    open spec fn view(&self) -> ConfigValidationErrorView {
        match self {
            ConfigValidationError::InvalidToken { reason } => ConfigValidationErrorView::InvalidToken {
                reason: reason@,
            },
            ConfigValidationError::InvalidAppId { value } => ConfigValidationErrorView::InvalidAppId {
                value: value@,
            },
            ConfigValidationError::InvalidWxId { reason } => ConfigValidationErrorView::InvalidWxId {
                reason: *reason,
            },
            ConfigValidationError::InvalidUploadMode { value } => ConfigValidationErrorView::InvalidUploadMode {
                value: value@,
            },
            ConfigValidationError::MissingUploadField { field } => ConfigValidationErrorView::MissingUploadField {
                field: field@,
            },
            ConfigValidationError::ConflictingUploadConfig { reason } => ConfigValidationErrorView::ConflictingUploadConfig {
                reason: reason@,
            },
            ConfigValidationError::InvalidUrl { value } => ConfigValidationErrorView::InvalidUrl {
                value: value@,
            },
        }
    }
}

/// A failure of the transport below the backend's envelope. Durations are in
/// milliseconds.
#[derive(Debug, Clone)]
pub enum NetworkError {
    Timeout { duration_ms: u64 },
    ConnectionRefused,
    DnsResolution { host: String },
    TlsError,
    HttpError { status: u16, body: Option<String> },
    Underlying(String),
}

/// What a `NetworkError` is in contracts: its strings are sequences of characters.
pub enum NetworkErrorView {
    Timeout { duration_ms: u64 },
    ConnectionRefused,
    DnsResolution { host: Seq<char> },
    TlsError,
    HttpError { status: u16, body: Option<Seq<char>> },
    Underlying(Seq<char>),
}

impl View for NetworkError {
    type V = NetworkErrorView;

    open spec fn view(&self) -> NetworkErrorView {
        match self {
            NetworkError::Timeout { duration_ms } => NetworkErrorView::Timeout { duration_ms: *duration_ms },
            NetworkError::ConnectionRefused => NetworkErrorView::ConnectionRefused,
            NetworkError::DnsResolution { host } => NetworkErrorView::DnsResolution { host: host@ },
            NetworkError::TlsError => NetworkErrorView::TlsError,
            NetworkError::HttpError { status, body } => NetworkErrorView::HttpError {
                status: *status,
                body: opt_view(*body),
            },
            NetworkError::Underlying(text) => NetworkErrorView::Underlying(text@),
        }
    }
}

impl TokenValidationErrorView {
    /// The failure in words.
    pub open spec fn text(self) -> Seq<char> {
        match self {
            TokenValidationErrorView::NotUuid => "不是有效的UUID格式"@,
            TokenValidationErrorView::ParseError(detail) => "UUID解析失败: "@ + detail,
        }
    }
}

impl TokenValidationError {
    /// The failure in words.
    pub fn message(&self) -> (r: String)
        ensures
            r@ == self@.text(),
    {
        match self {
            TokenValidationError::NotUuid => "不是有效的UUID格式".to_string(),
            TokenValidationError::ParseError(detail) => append("UUID解析失败: ", detail.as_str()),
        }
    }
}

impl WxIdValidationError {
    /// The failure in words.
    pub open spec fn text(self) -> Seq<char> {
        match self {
            WxIdValidationError::Empty => "WxId不能为空"@,
            WxIdValidationError::InvalidChatroomFormat => "群聊ID格式无效: 应以 '@chatroom' 结尾"@,
        }
    }

    /// The failure in words.
    pub fn message(&self) -> (r: String)
        ensures
            r@ == self.text(),
    {
        match self {
            WxIdValidationError::Empty => "WxId不能为空".to_string(),
            WxIdValidationError::InvalidChatroomFormat => "群聊ID格式无效: 应以 '@chatroom' 结尾".to_string(),
        }
    }
}

impl ConfigValidationErrorView {
    /// The failure in words.
    pub open spec fn text(self) -> Seq<char> {
        match self {
            ConfigValidationErrorView::InvalidToken { reason } => "Token格式无效: "@ + reason.text(),
            ConfigValidationErrorView::InvalidAppId { value } => "AppId格式无效: 应以 'wx_' 开头，实际值: "@
                + value,
            ConfigValidationErrorView::InvalidWxId { reason } => "WxId格式无效: "@ + reason.text(),
            ConfigValidationErrorView::InvalidUploadMode { value } => "上传模式无效: "@ + value,
            ConfigValidationErrorView::MissingUploadField { field } => "上传配置缺少字段: "@ + field,
            ConfigValidationErrorView::ConflictingUploadConfig { reason } => "上传配置冲突: "@ + reason,
            ConfigValidationErrorView::InvalidUrl { value } => "URL 无效: "@ + value,
        }
    }
}

impl ConfigValidationError {
    /// The failure in words.
    pub fn message(&self) -> (r: String)
        ensures
            r@ == self@.text(),
    {
        match self {
            ConfigValidationError::InvalidToken { reason } => append(
                "Token格式无效: ",
                reason.message().as_str(),
            ),
            ConfigValidationError::InvalidAppId { value } => append(
                "AppId格式无效: 应以 'wx_' 开头，实际值: ",
                value.as_str(),
            ),
            ConfigValidationError::InvalidWxId { reason } => append(
                "WxId格式无效: ",
                reason.message().as_str(),
            ),
            ConfigValidationError::InvalidUploadMode { value } => append("上传模式无效: ", value.as_str()),
            ConfigValidationError::MissingUploadField { field } => append("上传配置缺少字段: ", field),
            ConfigValidationError::ConflictingUploadConfig { reason } => append(
                "上传配置冲突: ",
                reason.as_str(),
            ),
            ConfigValidationError::InvalidUrl { value } => append("URL 无效: ", value.as_str()),
        }
    }
}

/// An optional text as it is written for a reader of logs: `None`, or the
/// text between double quotes inside `Some(..)`.
pub open spec fn optional_quoted(o: Option<Seq<char>>) -> Seq<char> {
    match o {
        Some(s) => "Some("@ + quoted_text(s) + ")"@,
        None => "None"@,
    }
}

/// An optional duration in milliseconds as it is written for a reader of
/// logs: `None`, or the duration with its unit inside `Some(..)`.
pub open spec fn optional_duration(o: Option<u64>) -> Seq<char> {
    match o {
        Some(ms) => "Some("@ + duration_text(ms) + ")"@,
        None => "None"@,
    }
}

impl NetworkErrorView {
    /// The failure in words.
    pub open spec fn text(self) -> Seq<char> {
        match self {
            NetworkErrorView::Timeout { duration_ms } => "请求超时 (持续时间: "@ + duration_text(
                duration_ms,
            ) + ")"@,
            NetworkErrorView::ConnectionRefused => "连接被拒绝"@,
            NetworkErrorView::DnsResolution { host } => "DNS解析失败: "@ + host,
            NetworkErrorView::TlsError => "TLS/SSL错误"@,
            NetworkErrorView::HttpError { status, body } => "HTTP错误 (状态码: "@ + decimal_digits(
                status as nat,
            ) + ", 响应: "@ + optional_quoted(body) + ")"@,
            NetworkErrorView::Underlying(text) => "底层网络错误: "@ + text,
        }
    }
}

impl NetworkError {
    /// The failure in words.
    pub fn message(&self) -> (r: String)
        ensures
            r@ == self@.text(),
    {
        match self {
            NetworkError::Timeout { duration_ms } => {
                let a = append("请求超时 (持续时间: ", duration_debug(*duration_ms).as_str());
                append(a.as_str(), ")")
            },
            NetworkError::ConnectionRefused => "连接被拒绝".to_string(),
            NetworkError::DnsResolution { host } => append("DNS解析失败: ", host.as_str()),
            NetworkError::TlsError => "TLS/SSL错误".to_string(),
            NetworkError::HttpError { status, body } => {
                let shown = match body {
                    Some(text) => {
                        let quoted = append("Some(", str_debug(text.as_str()).as_str());
                        append(quoted.as_str(), ")")
                    },
                    None => "None".to_string(),
                };
                let a = append("HTTP错误 (状态码: ", decimal(*status as u64).as_str());
                let b = append(a.as_str(), ", 响应: ");
                let c = append(b.as_str(), shown.as_str());
                append(c.as_str(), ")")
            },
            NetworkError::Underlying(text) => append("底层网络错误: ", text.as_str()),
        }
    }
}

/// What the HTTP client reports of a request that got no response: the plain
/// facts that the classification reads.
pub struct TransportFailure {
    /// The request ran into its time limit.
    pub timeout: bool,
    /// The connection could not be made.
    pub connect: bool,
    /// The failure names the URL it happened on.
    pub has_url: bool,
    /// The host of that URL, where it has one.
    pub host: Option<String>,
    /// The client's own description of the failure.
    pub description: String,
}

/// The time limit, in milliseconds, that a timed-out request is reported with.
pub const REQUEST_TIMEOUT_MS: u64 = 10000;

/// The delay, in milliseconds, after which a timed-out request may be tried again.
pub const TIMEOUT_RETRY_AFTER_MS: u64 = 1000;

impl TransportFailure {
    /// Whether the description speaks of name resolution.
    pub open spec fn mentions_dns(&self) -> bool {
        contains_seq(self.description@, "dns"@) || contains_seq(self.description@, "resolve"@)
    }

    /// Whether the description speaks of the secure channel.
    pub open spec fn mentions_tls(&self) -> bool {
        contains_seq(self.description@, "ssl"@) || contains_seq(self.description@, "tls"@)
            || contains_seq(self.description@, "certificate"@)
    }

    /// The network error that this failure is: a timeout first, a refused
    /// connection next; then, only where the failure names a URL, a name
    /// resolution or secure-channel failure by what the description says.
    pub open spec fn classified(&self) -> NetworkErrorView {
        if self.timeout {
            NetworkErrorView::Timeout { duration_ms: REQUEST_TIMEOUT_MS }
        } else if self.connect {
            NetworkErrorView::ConnectionRefused
        } else if self.has_url && self.mentions_dns() {
            NetworkErrorView::DnsResolution {
                host: match self.host {
                    Some(h) => h@,
                    None => "unknown"@,
                },
            }
        } else if self.has_url && self.mentions_tls() {
            NetworkErrorView::TlsError
        } else {
            NetworkErrorView::Underlying(self.description@)
        }
    }
}

impl NetworkError {
    /// Classifies a transport failure.
    pub fn from_failure(failure: TransportFailure) -> (r: NetworkError)
        ensures
            r@ == failure.classified(),
    {
        if failure.timeout {
            NetworkError::Timeout { duration_ms: REQUEST_TIMEOUT_MS }
        } else if failure.connect {
            NetworkError::ConnectionRefused
        } else if failure.has_url {
            let text = failure.description.as_str();
            if contains(text, "dns") || contains(text, "resolve") {
                let host = match failure.host {
                    Some(h) => h,
                    None => "unknown".to_string(),
                };
                NetworkError::DnsResolution { host }
            } else if contains(text, "ssl") || contains(text, "tls") || contains(text, "certificate") {
                NetworkError::TlsError
            } else {
                NetworkError::Underlying(failure.description)
            }
        } else {
            NetworkError::Underlying(failure.description)
        }
    }
}

/// The backend's failure codes whose meaning is known.
#[derive(Debug, Clone, Copy, PartialEq, Eq, Structural)]
pub enum ApiErrorCode {
    NotInGroup,
    ChatroomMissing,
    PermissionDenied,
}

impl ApiErrorCode {
    /// The number that the backend sends for this code.
    pub open spec fn number(self) -> i32 {
        match self {
            ApiErrorCode::NotInGroup => -219i32,
            ApiErrorCode::ChatroomMissing => -104i32,
            ApiErrorCode::PermissionDenied => -2i32,
        }
    }

    /// The code that the backend's number stands for, if it is a known one.
    pub open spec fn of_number(code: i32) -> Option<ApiErrorCode> {
        if code == -219 {
            Some(ApiErrorCode::NotInGroup)
        } else if code == -104 {
            Some(ApiErrorCode::ChatroomMissing)
        } else if code == -2 {
            Some(ApiErrorCode::PermissionDenied)
        } else {
            None
        }
    }

    /// The known code that the backend's number stands for.
    pub fn from_code(code: i32) -> (r: Option<Self>)
        ensures
            r == Self::of_number(code),
    {
        if code == -219 {
            Some(ApiErrorCode::NotInGroup)
        } else if code == -104 {
            Some(ApiErrorCode::ChatroomMissing)
        } else if code == -2 {
            Some(ApiErrorCode::PermissionDenied)
        } else {
            None
        }
    }

    /// The number that the backend sends for this code.
    pub fn as_i32(self) -> (r: i32)
        ensures
            r == self.number(),
    {
        match self {
            ApiErrorCode::NotInGroup => -219,
            ApiErrorCode::ChatroomMissing => -104,
            ApiErrorCode::PermissionDenied => -2,
        }
    }

    /// A known code and its number stand for each other.
    pub proof fn lemma_code_round_trip(code: ApiErrorCode, number: i32)
        ensures
            Self::of_number(code.number()) == Some(code),
            Self::of_number(number) == Some(code) ==> code.number() == number,
    {
    }
}

/// A failure that the backend reported inside a well-formed envelope.
/// `retry_after_ms` is in milliseconds.
#[derive(Debug, Clone)]
#[allow(inconsistent_fields)]
pub enum ApiBusinessError {
    BotOffline,
    KnownError { code: ApiErrorCode },
    UnknownError { code: i32, message: String },
    RateLimited { retry_after_ms: Option<u64> },
}

/// What a `ApiBusinessError` is in contracts: its strings are sequences of characters.
#[allow(inconsistent_fields)]
pub enum ApiBusinessErrorView {
    BotOffline,
    KnownError { code: ApiErrorCode },
    UnknownError { code: i32, message: Seq<char> },
    RateLimited { retry_after_ms: Option<u64> },
}

impl View for ApiBusinessError {
    type V = ApiBusinessErrorView;

    open spec fn view(&self) -> ApiBusinessErrorView {
        match self {
            ApiBusinessError::BotOffline => ApiBusinessErrorView::BotOffline,
            ApiBusinessError::KnownError { code } => ApiBusinessErrorView::KnownError { code: *code },
            ApiBusinessError::UnknownError { code, message } => ApiBusinessErrorView::UnknownError {
                code: *code,
                message: message@,
            },
            ApiBusinessError::RateLimited { retry_after_ms } => ApiBusinessErrorView::RateLimited {
                retry_after_ms: *retry_after_ms,
            },
        }
    }
}

impl ApiErrorCode {
    /// The code in words.
    pub open spec fn text(self) -> Seq<char> {
        match self {
            ApiErrorCode::NotInGroup => "不在群内"@,
            ApiErrorCode::ChatroomMissing => "群聊不存在"@,
            ApiErrorCode::PermissionDenied => "无权限"@,
        }
    }

    /// The code in words.
    pub fn message(self) -> (r: &'static str)
        ensures
            r@ == self.text(),
    {
        match self {
            ApiErrorCode::NotInGroup => "不在群内",
            ApiErrorCode::ChatroomMissing => "群聊不存在",
            ApiErrorCode::PermissionDenied => "无权限",
        }
    }
}

impl ApiBusinessErrorView {
    /// The failure in words.
    pub open spec fn text(self) -> Seq<char> {
        match self {
            ApiBusinessErrorView::BotOffline => "微信机器人不在线"@,
            ApiBusinessErrorView::KnownError { code } => "已知API错误: "@ + code.text(),
            ApiBusinessErrorView::UnknownError { code, message } => "未知API错误 (代码: "@
                + signed_decimal_digits(code as int) + ", 消息: "@ + message + ")"@,
            ApiBusinessErrorView::RateLimited { retry_after_ms } => "请求被限流 (重试时间: "@
                + optional_duration(retry_after_ms) + ")"@,
        }
    }
}

impl ApiBusinessError {
    /// The failure in words.
    pub fn message(&self) -> (r: String)
        ensures
            r@ == self@.text(),
    {
        match self {
            ApiBusinessError::BotOffline => "微信机器人不在线".to_string(),
            ApiBusinessError::KnownError { code } => append("已知API错误: ", code.message()),
            ApiBusinessError::UnknownError { code, message } => {
                let a = append("未知API错误 (代码: ", signed_decimal(*code).as_str());
                let b = append(a.as_str(), ", 消息: ");
                let c = append(b.as_str(), message.as_str());
                append(c.as_str(), ")")
            },
            ApiBusinessError::RateLimited { retry_after_ms } => {
                let shown = match retry_after_ms {
                    Some(ms) => {
                        let inner = append("Some(", duration_debug(*ms).as_str());
                        append(inner.as_str(), ")")
                    },
                    None => "None".to_string(),
                };
                let a = append("请求被限流 (重试时间: ", shown.as_str());
                append(a.as_str(), ")")
            },
        }
    }
}

/// Every failure that a delivery can end in.
#[derive(Debug, Clone)]
pub enum GeweNoticeError {
    Config(ConfigValidationError),
    Network(NetworkError),
    Business(ApiBusinessError),
    Json(String),
    Cancelled,
}

/// What a `GeweNoticeError` is in contracts: its strings are sequences of characters.
pub enum GeweNoticeErrorView {
    Config(ConfigValidationErrorView),
    Network(NetworkErrorView),
    Business(ApiBusinessErrorView),
    Json(Seq<char>),
    Cancelled,
}

impl View for GeweNoticeError {
    type V = GeweNoticeErrorView;

    open spec fn view(&self) -> GeweNoticeErrorView {
        match self {
            GeweNoticeError::Config(e) => GeweNoticeErrorView::Config(e@),
            GeweNoticeError::Network(e) => GeweNoticeErrorView::Network(e@),
            GeweNoticeError::Business(e) => GeweNoticeErrorView::Business(e@),
            GeweNoticeError::Json(text) => GeweNoticeErrorView::Json(text@),
            GeweNoticeError::Cancelled => GeweNoticeErrorView::Cancelled,
        }
    }
}

impl GeweNoticeErrorView {
    /// Whether trying again may help: a timeout, a refused connection, a
    /// failure to resolve a name or to set up the secure channel, or a rate
    /// limit.
    pub open spec fn is_retryable(self) -> bool {
        match self {
            GeweNoticeErrorView::Network(NetworkErrorView::Timeout { .. }) => true,
            GeweNoticeErrorView::Network(NetworkErrorView::ConnectionRefused) => true,
            GeweNoticeErrorView::Network(NetworkErrorView::DnsResolution { .. }) => true,
            GeweNoticeErrorView::Network(NetworkErrorView::TlsError) => true,
            GeweNoticeErrorView::Business(ApiBusinessErrorView::RateLimited { .. }) => true,
            _ => false,
        }
    }

    /// Whether the failure is known to be permanent: a bad configuration, an
    /// offline bot, or any failure whose code the backend is known to send
    /// for a state that no retry can change.
    pub open spec fn is_fatal(self) -> bool {
        match self {
            GeweNoticeErrorView::Config(_) => true,
            GeweNoticeErrorView::Business(ApiBusinessErrorView::BotOffline) => true,
            GeweNoticeErrorView::Business(ApiBusinessErrorView::KnownError { .. }) => true,
            _ => false,
        }
    }

    /// The delay in milliseconds after which to try again, where the failure
    /// gives one.
    pub open spec fn retry_after(self) -> Option<u64> {
        match self {
            GeweNoticeErrorView::Business(ApiBusinessErrorView::RateLimited { retry_after_ms }) => retry_after_ms,
            GeweNoticeErrorView::Network(NetworkErrorView::Timeout { .. }) => Some(TIMEOUT_RETRY_AFTER_MS),
            _ => None,
        }
    }

    /// Whether the retry loop gives up on this failure at once: every failure
    /// that is not retryable ends the delivery, the fatal ones among them.
    pub open spec fn stops_delivery(self) -> bool {
        !self.is_retryable()
    }
}

impl GeweNoticeError {
    /// Whether trying again may help.
    pub fn is_retryable(&self) -> (r: bool)
        ensures
            r == self@.is_retryable(),
    {
        match self {
            GeweNoticeError::Network(NetworkError::Timeout { .. }) => true,
            GeweNoticeError::Network(NetworkError::ConnectionRefused) => true,
            GeweNoticeError::Network(NetworkError::DnsResolution { .. }) => true,
            GeweNoticeError::Network(NetworkError::TlsError) => true,
            GeweNoticeError::Business(ApiBusinessError::RateLimited { .. }) => true,
            _ => false,
        }
    }

    /// Whether the failure is known to be permanent.
    pub fn is_fatal(&self) -> (r: bool)
        ensures
            r == self@.is_fatal(),
    {
        match self {
            GeweNoticeError::Config(_) => true,
            GeweNoticeError::Business(ApiBusinessError::BotOffline) => true,
            GeweNoticeError::Business(ApiBusinessError::KnownError { .. }) => true,
            _ => false,
        }
    }

    /// The delay in milliseconds after which to try again, where the failure gives one.
    pub fn retry_after(&self) -> (r: Option<u64>)
        ensures
            r == self@.retry_after(),
    {
        match self {
            GeweNoticeError::Business(ApiBusinessError::RateLimited { retry_after_ms }) => *retry_after_ms,
            GeweNoticeError::Network(NetworkError::Timeout { .. }) => Some(TIMEOUT_RETRY_AFTER_MS),
            _ => None,
        }
    }
}

impl GeweNoticeErrorView {
    /// The failure in words.
    pub open spec fn text(self) -> Seq<char> {
        match self {
            GeweNoticeErrorView::Config(e) => "配置验证失败: "@ + e.text(),
            GeweNoticeErrorView::Network(e) => "网络错误: "@ + e.text(),
            GeweNoticeErrorView::Business(e) => "业务逻辑错误: "@ + e.text(),
            GeweNoticeErrorView::Json(detail) => "JSON解析错误: "@ + detail,
            GeweNoticeErrorView::Cancelled => "任务被取消"@,
        }
    }
}

impl GeweNoticeError {
    /// The failure in words.
    pub fn message(&self) -> (r: String)
        ensures
            r@ == self@.text(),
    {
        match self {
            GeweNoticeError::Config(e) => append("配置验证失败: ", e.message().as_str()),
            GeweNoticeError::Network(e) => append("网络错误: ", e.message().as_str()),
            GeweNoticeError::Business(e) => append("业务逻辑错误: ", e.message().as_str()),
            GeweNoticeError::Json(detail) => append("JSON解析错误: ", detail.as_str()),
            GeweNoticeError::Cancelled => "任务被取消".to_string(),
        }
    }
}

/// No failure is both retryable and fatal, and a fatal failure always stops
/// the delivery. Every failure with a known code is fatal; of the network
/// failures the timeout, the refused connection, the failed name resolution
/// and the failed secure channel are retryable.
pub proof fn lemma_retryable_and_fatal_exclude(e: GeweNoticeErrorView)
    ensures
        !(e.is_retryable() && e.is_fatal()),
        e.is_fatal() ==> e.stops_delivery(),
        e matches GeweNoticeErrorView::Business(ApiBusinessErrorView::KnownError { .. })
            ==> e.is_fatal(),
        e matches GeweNoticeErrorView::Network(n) ==> (e.is_retryable() <==> n is Timeout
            || n is ConnectionRefused || n is DnsResolution || n is TlsError),
{
}

} // verus!
