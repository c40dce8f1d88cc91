//! The tool server's rules: which tools there are, what their parameters must
//! be, and which log messages pass the level that the peer has set. The
//! protocol that carries tools and messages is the caller's.
use vstd::prelude::*;
use crate::bindings::{base64_decode, base64_decoded};
use crate::gewe_api::GeweApiClient;
use crate::text::{append, opt_view, same_text, trim_option, trimmed_text};

verus! {

/// The name under which log messages are sent to the peer.
pub const LOGGER_NAME: &'static str = "gewe-notice-mcp";

/// The name of the tool that sends a text.
pub const TOOL_POST_TEXT: &'static str = "post_text";

/// The name of the tool that sends a file.
pub const TOOL_POST_FILE: &'static str = "post_file";

/// What is said of a text call without content.
pub const TEXT_CONTENT_REQUIRED: &'static str = "content parameter is required";

/// What is said of a file call without a name.
pub const TEXT_FILE_NAME_REQUIRED: &'static str = "file_name 参数必须为非空字符串";

/// What is said of a file call without content.
pub const TEXT_CONTENT_MISSING: &'static str = "content_base64 参数缺失";

/// What is said of content that is no base64.
pub const TEXT_CONTENT_NOT_BASE64: &'static str = "content_base64 不是有效的 Base64";

/// What is said of content without a byte.
pub const TEXT_CONTENT_EMPTY: &'static str = "文件内容不能为空";

/// What is said of a lifetime that is no number of whole seconds.
pub const TEXT_TTL_INVALID: &'static str = "ttl_seconds 必须为非负整数";

/// What is logged of a bot that is online.
pub const TEXT_BOT_ONLINE: &'static str = "机器人在线，准备就绪。";

/// What is logged of a bot that is offline.
pub const TEXT_BOT_OFFLINE: &'static str = "机器人当前不在线。请检查微信客户端或 Gewe 服务。";

/// What is logged, before the failure, of an online check that failed.
pub const TEXT_ONLINE_CHECK_FAILED: &'static str = "在线状态检查失败: ";

/// What the summary of a sent file begins with.
pub const TEXT_FILE_SENT: &'static str = "文件已发送: ";

/// The severity of a log message, least severe first.
#[derive(Debug, Clone, Copy, PartialEq, Eq, Structural)]
pub enum LoggingLevel {
    Debug,
    Info,
    Notice,
    Warning,
    Error,
    Critical,
    Alert,
    Emergency,
}

/// The channel of the local log that a message of a given severity goes to.
#[derive(Debug, Clone, Copy, PartialEq, Eq, Structural)]
pub enum TraceLevel {
    Debug,
    Info,
    Warn,
    Error,
}

impl LoggingLevel {
    /// The rank of the severity, from zero for the least severe.
    pub open spec fn rank(self) -> u8 {
        match self {
            LoggingLevel::Debug => 0,
            LoggingLevel::Info => 1,
            LoggingLevel::Notice => 2,
            LoggingLevel::Warning => 3,
            LoggingLevel::Error => 4,
            LoggingLevel::Critical => 5,
            LoggingLevel::Alert => 6,
            LoggingLevel::Emergency => 7,
        }
    }

    /// The channel of the local log for this severity.
    pub open spec fn channel(self) -> TraceLevel {
        match self {
            LoggingLevel::Debug => TraceLevel::Debug,
            LoggingLevel::Info => TraceLevel::Info,
            LoggingLevel::Notice => TraceLevel::Info,
            LoggingLevel::Warning => TraceLevel::Warn,
            _ => TraceLevel::Error,
        }
    }

    /// The channel of the local log for this severity.
    pub fn trace_level(self) -> (r: TraceLevel)
        ensures
            r == self.channel(),
    {
        match self {
            LoggingLevel::Debug => TraceLevel::Debug,
            LoggingLevel::Info => TraceLevel::Info,
            LoggingLevel::Notice => TraceLevel::Info,
            LoggingLevel::Warning => TraceLevel::Warn,
            _ => TraceLevel::Error,
        }
    }
}

/// The ranks order the severities: two severities of one rank are the same.
pub proof fn lemma_rank_is_injective(a: LoggingLevel, b: LoggingLevel)
    ensures
        a.rank() == b.rank() ==> a == b,
        a.rank() <= 7,
{
}

/// Why a tool call is refused.
#[derive(Debug)]
pub enum ToolError {
    /// The arguments cannot be used; the text says why.
    InvalidParams(String),
    /// There is no such tool.
    MethodNotFound,
}

/// What a `ToolError` is in contracts: its strings are sequences of characters.
pub enum ToolErrorView {
    InvalidParams(Seq<char>),
    MethodNotFound,
}

impl View for ToolError {
    type V = ToolErrorView;

    open spec fn view(&self) -> ToolErrorView {
        match self {
            ToolError::InvalidParams(text) => ToolErrorView::InvalidParams(text@),
            ToolError::MethodNotFound => ToolErrorView::MethodNotFound,
        }
    }
}

/// The tools that the server offers.
#[derive(Debug, Clone, Copy, PartialEq, Eq, Structural)]
pub enum ToolCall {
    PostText,
    PostFile,
}

/// The tool that a call by `name` reaches: the text tool always, the file
/// tool only where an uploader is configured, and no other.
pub open spec fn tool_named(name: Seq<char>, has_file_uploader: bool) -> Option<ToolCall> {
    if name == TOOL_POST_TEXT@ {
        Some(ToolCall::PostText)
    } else if name == TOOL_POST_FILE@ && has_file_uploader {
        Some(ToolCall::PostFile)
    } else {
        None
    }
}

/// The lifetime parameter of a file call, as it was found in the arguments.
#[derive(Debug, Clone, Copy, PartialEq, Eq, Structural)]
pub enum TtlParam {
    /// Left out, or null.
    Absent,
    /// A number of whole seconds that is not negative.
    Seconds(u64),
    /// Anything else.
    Invalid,
}

/// The arguments of a file call, each as it was found: a string where the
/// argument is there and is a string, none otherwise.
#[derive(Debug, Clone)]
pub struct PostFileParams {
    pub file_name: Option<String>,
    pub content_base64: Option<String>,
    pub content_type: Option<String>,
    pub ttl_seconds: TtlParam,
}

/// A file call whose arguments were accepted. `ttl` is in seconds.
#[derive(Debug, Clone)]
pub struct FileToSend {
    pub file_name: String,
    pub bytes: Vec<u8>,
    pub content_type: Option<String>,
    pub ttl: Option<u64>,
}

/// What a `FileToSend` is in contracts: its strings are sequences of characters.
pub struct FileToSendView {
    pub file_name: Seq<char>,
    pub bytes: Seq<u8>,
    pub content_type: Option<Seq<char>>,
    pub ttl: Option<u64>,
}

impl View for FileToSend {
    type V = FileToSendView;

    open spec fn view(&self) -> FileToSendView {
        FileToSendView {
            file_name: self.file_name@,
            bytes: self.bytes@,
            content_type: opt_view(self.content_type),
            ttl: self.ttl,
        }
    }
}

impl PostFileParams {
    /// What the arguments of a file call ask to send, or the first reason
    /// why they are refused: the name must be a string that is not blank,
    /// the content a string that is the base64 form of at least one byte,
    /// the lifetime, where given, a number of whole seconds.
    pub open spec fn accepted(&self) -> Result<FileToSendView, ToolErrorView> {
        match trimmed_text(opt_view(self.file_name)) {
            None => Err(ToolErrorView::InvalidParams(TEXT_FILE_NAME_REQUIRED@)),
            Some(file_name) => match self.content_base64 {
                None => Err(ToolErrorView::InvalidParams(TEXT_CONTENT_MISSING@)),
                Some(content) => match base64_decoded(content@) {
                    None => Err(ToolErrorView::InvalidParams(TEXT_CONTENT_NOT_BASE64@)),
                    Some(bytes) => if bytes.len() == 0 {
                        Err(ToolErrorView::InvalidParams(TEXT_CONTENT_EMPTY@))
                    } else if self.ttl_seconds is Invalid {
                        Err(ToolErrorView::InvalidParams(TEXT_TTL_INVALID@))
                    } else {
                        Ok(
                            FileToSendView {
                                file_name,
                                bytes,
                                content_type: trimmed_text(opt_view(self.content_type)),
                                ttl: match self.ttl_seconds {
                                    TtlParam::Seconds(secs) => Some(secs),
                                    _ => None,
                                },
                            },
                        )
                    },
                },
            },
        }
    }

    /// Judges the arguments of a file call.
    pub fn validate(self) -> (r: Result<FileToSend, ToolError>)
        ensures
            match r {
                Ok(file) => self.accepted() == Ok::<FileToSendView, ToolErrorView>(file@),
                Err(e) => self.accepted() == Err::<FileToSendView, ToolErrorView>(e@),
            },
    {
        let file_name = match trim_option(&self.file_name) {
            Some(name) => name,
            None => {
                return Err(ToolError::InvalidParams(TEXT_FILE_NAME_REQUIRED.to_string()));
            },
        };
        let content = match &self.content_base64 {
            Some(content) => content,
            None => {
                return Err(ToolError::InvalidParams(TEXT_CONTENT_MISSING.to_string()));
            },
        };
        let bytes = match base64_decode(content.as_str()) {
            Ok(bytes) => bytes,
            Err(_) => {
                return Err(ToolError::InvalidParams(TEXT_CONTENT_NOT_BASE64.to_string()));
            },
        };
        if bytes.len() == 0 {
            return Err(ToolError::InvalidParams(TEXT_CONTENT_EMPTY.to_string()));
        }
        let content_type = trim_option(&self.content_type);
        let ttl = match self.ttl_seconds {
            TtlParam::Seconds(secs) => Some(secs),
            TtlParam::Absent => None,
            TtlParam::Invalid => {
                return Err(ToolError::InvalidParams(TEXT_TTL_INVALID.to_string()));
            },
        };
        Ok(FileToSend { file_name, bytes, content_type, ttl })
    }
}

/// The content of a text call: the `content` argument, which must be there
/// and be a string.
pub fn text_content(content: Option<String>) -> (r: Result<String, ToolError>)
    ensures
        match r {
            Ok(text) => content matches Some(given) && text@ == given@,
            Err(e) => content is None && e@ == ToolErrorView::InvalidParams(TEXT_CONTENT_REQUIRED@),
        },
{
    match content {
        Some(text) => Ok(text),
        None => Err(ToolError::InvalidParams(TEXT_CONTENT_REQUIRED.to_string())),
    }
}

/// What is logged, and how severely, when the bot's state is known:
/// `online` is the state, or the description of the failure to learn it.
pub fn online_report(online: Result<bool, String>) -> (r: (LoggingLevel, String))
    ensures
        match online {
            Ok(true) => r.0 == LoggingLevel::Info && r.1@ == TEXT_BOT_ONLINE@,
            Ok(false) => r.0 == LoggingLevel::Error && r.1@ == TEXT_BOT_OFFLINE@,
            Err(e) => r.0 == LoggingLevel::Error && r.1@ == TEXT_ONLINE_CHECK_FAILED@ + e@,
        },
{
    match online {
        Ok(true) => (LoggingLevel::Info, TEXT_BOT_ONLINE.to_string()),
        Ok(false) => (LoggingLevel::Error, TEXT_BOT_OFFLINE.to_string()),
        Err(e) => (LoggingLevel::Error, append(TEXT_ONLINE_CHECK_FAILED, e.as_str())),
    }
}

/// The summary of a file that was sent: its name, an arrow, its URL.
pub fn file_sent_summary(file_name: &str, file_url: &str) -> (r: String)
    ensures
        r@ == TEXT_FILE_SENT@ + file_name@ + " -> "@ + file_url@,
{
    let a = append(TEXT_FILE_SENT, file_name);
    let b = append(a.as_str(), " -> ");
    append(b.as_str(), file_url)
}

/// The tool server's state: the delivery client, whether files can be
/// uploaded, and the least severity that the peer wants to hear of.
#[derive(Debug, Clone)]
pub struct GeweNoticeServer {
    api_client: GeweApiClient,
    has_file_uploader: bool,
    min_log_level: u8,
}

impl GeweNoticeServer {
    /// The rank of the least severity that is passed on.
    pub closed spec fn spec_min_level(&self) -> u8 {
        self.min_log_level
    }

    /// Whether an uploader is configured.
    pub closed spec fn spec_has_file_uploader(&self) -> bool {
        self.has_file_uploader
    }

    /// The delivery client.
    pub closed spec fn spec_api_client(&self) -> GeweApiClient {
        self.api_client
    }

    /// A server that passes messages from `Info` upwards.
    pub fn new(api_client: GeweApiClient, has_file_uploader: bool) -> (r: Self)
        ensures
            r.spec_min_level() == LoggingLevel::Info.rank(),
            r.spec_has_file_uploader() == has_file_uploader,
            r.spec_api_client() == api_client,
    {
        GeweNoticeServer {
            api_client,
            has_file_uploader,
            min_log_level: Self::level_value(LoggingLevel::Info),
        }
    }

    /// The delivery client.
    pub fn api_client(&self) -> (r: &GeweApiClient)
        ensures
            *r == self.spec_api_client(),
    {
        &self.api_client
    }

    /// Whether an uploader is configured.
    pub fn has_file_uploader(&self) -> (r: bool)
        ensures
            r == self.spec_has_file_uploader(),
    {
        self.has_file_uploader
    }

    /// The rank of a severity.
    pub fn level_value(level: LoggingLevel) -> (r: u8)
        ensures
            r == level.rank(),
    {
        match level {
            LoggingLevel::Debug => 0,
            LoggingLevel::Info => 1,
            LoggingLevel::Notice => 2,
            LoggingLevel::Warning => 3,
            LoggingLevel::Error => 4,
            LoggingLevel::Critical => 5,
            LoggingLevel::Alert => 6,
            LoggingLevel::Emergency => 7,
        }
    }

    /// Sets the least severity that is passed on.
    pub fn store_min_level(&mut self, level: LoggingLevel)
        ensures
            final(self).spec_min_level() == level.rank(),
            final(self).spec_has_file_uploader() == old(self).spec_has_file_uploader(),
            final(self).spec_api_client() == old(self).spec_api_client(),
    {
        self.min_log_level = Self::level_value(level);
    }

    /// The rank of the least severity that is passed on.
    pub fn min_level_value(&self) -> (r: u8)
        ensures
            r == self.spec_min_level(),
    {
        self.min_log_level
    }

    /// Whether a message of this severity is passed on to the peer.
    pub fn should_emit(&self, level: LoggingLevel) -> (r: bool)
        ensures
            r == (level.rank() >= self.spec_min_level()),
    {
        Self::level_value(level) >= self.min_log_level
    }

    /// The names of the tools that are offered: the file tool only where an
    /// uploader is configured.
    pub fn tool_names(&self) -> (r: Vec<&'static str>)
        ensures
            r@.len() == if self.spec_has_file_uploader() {
                2int
            } else {
                1int
            },
            r@[0]@ == TOOL_POST_TEXT@,
            self.spec_has_file_uploader() ==> r@[1]@ == TOOL_POST_FILE@,
    {
        let mut names: Vec<&'static str> = Vec::new();
        names.push(TOOL_POST_TEXT);
        if self.has_file_uploader {
            names.push(TOOL_POST_FILE);
        }
        names
    }

    /// The tool that a call by `name` reaches.
    pub fn route(&self, name: &str) -> (r: Result<ToolCall, ToolError>)
        ensures
            match r {
                Ok(tool) => tool_named(name@, self.spec_has_file_uploader()) == Some(tool),
                Err(e) => tool_named(name@, self.spec_has_file_uploader()) is None && e@
                    == ToolErrorView::MethodNotFound,
            },
    {
        if same_text(name, TOOL_POST_TEXT) {
            Ok(ToolCall::PostText)
        } else if same_text(name, TOOL_POST_FILE) && self.has_file_uploader {
            Ok(ToolCall::PostFile)
        } else {
            Err(ToolError::MethodNotFound)
        }
    }
}

} // verus!
