//! The delivery client: what is sent to the backend, what its answers mean,
//! and how a text delivery moves from one backend call to the next.
use vstd::prelude::*;
use crate::config::{
    all_sentinel, chatroom_suffix, wxid_views, Config, ConfigView, WxId,
};
use crate::errors::{
    ApiBusinessError, ApiBusinessErrorView, ApiErrorCode, GeweNoticeError, GeweNoticeErrorView,
    NetworkError, NetworkErrorView,
};
use crate::bindings::random_u32;
use crate::retry::{
    jitter_of, outcome_view, RetryPolicy, RetryPolicyView, RetryVerdict, RetryVerdictView,
};
use crate::text::{
    append, contains, contains_seq, join, joined, opt_str_view, opt_view, parse_i32, parse_u64,
    parsed_i32, parsed_u64, same_text, trim, trimmed, views,
};

verus! {

/// The only `ret` value with which the backend reports success.
pub const RET_SUCCESS: i32 = 200;

/// The `ret` value with which the backend reports a failure of its own.
pub const RET_FAILURE: i32 = 500;

/// The word with which the backend marks a failure inside `msg`.
pub const FAILURE_MARK: &'static str = "失败";

/// The `msg` with which the member lookup fails when the bot is not in the
/// group or the group is gone.
pub const MEMBER_LIST_UNAVAILABLE: &'static str = "获取群成员列表异常:null";

/// The mention parameter that notifies every member of a group.
pub const NOTIFY_ALL: &'static str = "notify@all";

/// What is put before the content of a message that mentions everyone.
pub const EVERYONE_PREFIX: &'static str = "@所有人 ";

/// The path of the online check.
pub const CHECK_ONLINE_PATH: &'static str = "/gewe/v2/api/login/checkOnline";

/// The path of the member lookup.
pub const MEMBER_LIST_PATH: &'static str = "/gewe/v2/api/group/getChatroomMemberList";

/// The path of the text send.
pub const POST_TEXT_PATH: &'static str = "/gewe/v2/api/message/postText";

/// The path of the file send.
pub const POST_FILE_PATH: &'static str = "/gewe/v2/api/message/postFile";

/// The name of the header that carries the shared secret.
pub const TOKEN_HEADER: &'static str = "X-GEWE-TOKEN";

/// How many backend calls may be in flight at once.
pub const MAX_IN_FLIGHT: usize = 10;

/// The time limit of one backend call, in milliseconds.
pub const CALL_TIMEOUT_MS: u64 = 10000;

/// The time limit of one delivery with all its retries, in milliseconds.
pub const DELIVERY_DEADLINE_MS: u64 = 30000;

/// Whether an HTTP status is in the range that reports success.
pub open spec fn success_status(status: u16) -> bool {
    200 <= status < 300
}

/// Whether an HTTP status is in the range that reports success.
pub fn is_success_status(status: u16) -> (r: bool)
    ensures
        r == success_status(status),
{
    200 <= status && status < 300
}

/// The failure that a response outside the success range is.
pub fn http_failure(status: u16, body: String) -> (e: GeweNoticeError)
    ensures
        e@ == GeweNoticeErrorView::Network(NetworkErrorView::HttpError { status, body: Some(body@) }),
{
    GeweNoticeError::Network(NetworkError::HttpError { status, body: Some(body) })
}

/// The failure that a call is which ran into its time limit.
pub fn call_timed_out(limit_ms: u64) -> (e: GeweNoticeError)
    ensures
        e@ == GeweNoticeErrorView::Network(NetworkErrorView::Timeout { duration_ms: limit_ms }),
        e@.is_retryable(),
{
    GeweNoticeError::Network(NetworkError::Timeout { duration_ms: limit_ms })
}

/// The failure that a call is which got no permit because the pool was shut.
pub fn permit_refused() -> (e: GeweNoticeError)
    ensures
        e@ == GeweNoticeErrorView::Network(NetworkErrorView::ConnectionRefused),
{
    GeweNoticeError::Network(NetworkError::ConnectionRefused)
}

/// The name of the header in which the backend names the delay after which
/// it may be called again.
pub const RETRY_AFTER_HEADER: &'static str = "Retry-After";

/// The rate-limit hint, in milliseconds, that the header value names: the
/// value, trimmed, is a number of whole seconds. There is no hint without a
/// header, nor where the value is no such number or its milliseconds cannot
/// be counted.
pub open spec fn hinted_delay(header: Option<Seq<char>>) -> Option<u64> {
    match header {
        Some(value) => match parsed_u64(trimmed(value)) {
            Some(secs) => if secs * 1000 <= u64::MAX {
                Some((secs * 1000) as u64)
            } else {
                None
            },
            None => None,
        },
        None => None,
    }
}

/// Reads the rate-limit hint from the value of the header, where the answer
/// has one.
pub fn rate_limit_hint(header: Option<&str>) -> (r: Option<u64>)
    ensures
        r == hinted_delay(opt_str_view(header)),
{
    match header {
        Some(value) => match parse_u64(trim(value).as_str()) {
            Some(secs) => secs.checked_mul(1000),
            None => None,
        },
        None => None,
    }
}

/// The backend's verdict on a call, read from the `ret` of its envelope.
#[derive(Debug, Clone, Copy, PartialEq, Eq, Structural)]
pub enum ApiRet {
    Success,
    Failure(i32),
}

impl ApiRet {
    /// The verdict that the number `ret` stands for.
    pub open spec fn of(ret: i32) -> ApiRet {
        if ret == RET_SUCCESS {
            ApiRet::Success
        } else {
            ApiRet::Failure(ret)
        }
    }

    /// The number that stands for this verdict.
    pub open spec fn number(self) -> i32 {
        match self {
            ApiRet::Success => RET_SUCCESS,
            ApiRet::Failure(code) => code,
        }
    }

    /// Whether the verdict is success.
    pub fn is_success(self) -> (r: bool)
        ensures
            r == (self is Success),
    {
        match self {
            ApiRet::Success => true,
            ApiRet::Failure(_) => false,
        }
    }

    /// The number that stands for this verdict.
    pub fn code(self) -> (r: i32)
        ensures
            r == self.number(),
    {
        match self {
            ApiRet::Success => RET_SUCCESS,
            ApiRet::Failure(code) => code,
        }
    }

    /// The verdict read from a number stands for that number again.
    pub proof fn lemma_number_of(ret: i32)
        ensures
            ApiRet::of(ret).number() == ret,
            ApiRet::of(ret) is Success <==> ret == RET_SUCCESS,
    {
    }
}

impl From<i32> for ApiRet {
    fn from(ret: i32) -> (r: ApiRet) {
        if ret == RET_SUCCESS {
            ApiRet::Success
        } else {
            ApiRet::Failure(ret)
        }
    }
}

impl vstd::std_specs::convert::FromSpecImpl<i32> for ApiRet {
    open spec fn obeys_from_spec() -> bool {
        true
    }

    open spec fn from_spec(ret: i32) -> ApiRet {
        ApiRet::of(ret)
    }
}

/// The body of the online check.
#[derive(Debug, Clone)]
pub struct CheckOnlineRequest {
    pub app_id: String,
}

/// The envelope that answers the online check.
#[derive(Debug, Clone)]
pub struct CheckOnlineResponse {
    pub ret: i32,
    pub msg: String,
    pub data: Option<bool>,
}

impl CheckOnlineResponse {
    /// What the answer to the online check means: a business failure where
    /// `ret` is not the success value, online where `data` is `true`, and an
    /// offline bot in every other case.
    pub open spec fn meaning(&self) -> Result<bool, GeweNoticeErrorView> {
        if self.ret != RET_SUCCESS {
            Err(
                GeweNoticeErrorView::Business(
                    ApiBusinessErrorView::UnknownError { code: self.ret, message: self.msg@ },
                ),
            )
        } else if self.data == Some(true) {
            Ok(true)
        } else {
            Err(GeweNoticeErrorView::Business(ApiBusinessErrorView::BotOffline))
        }
    }

    /// Reads the answer to the online check.
    pub fn outcome(self) -> (r: Result<bool, GeweNoticeError>)
        ensures
            match r {
                Ok(online) => self.meaning() == Ok::<bool, GeweNoticeErrorView>(online),
                Err(e) => self.meaning() == Err::<bool, GeweNoticeErrorView>(e@),
            },
    {
        if self.ret != RET_SUCCESS {
            return Err(
                GeweNoticeError::Business(
                    ApiBusinessError::UnknownError { code: self.ret, message: self.msg },
                ),
            );
        }
        match self.data {
            Some(true) => Ok(true),
            _ => Err(GeweNoticeError::Business(ApiBusinessError::BotOffline)),
        }
    }
}

/// The body of the member lookup.
#[derive(Debug, Clone)]
pub struct GetChatroomMemberListRequest {
    pub app_id: String,
    pub chatroom_id: String,
}

/// One member of a group, as the backend lists it.
#[derive(Debug, Clone)]
pub struct ChatroomMember {
    pub wxid: String,
    pub nick_name: String,
    pub display_name: Option<String>,
}

impl ChatroomMember {
    /// The name under which the member is mentioned: the name shown in the
    /// group where there is one, else the nickname.
    pub open spec fn shown(&self) -> Seq<char> {
        match self.display_name {
            Some(name) => name@,
            None => self.nick_name@,
        }
    }
}

/// The `data` of the envelope that answers the member lookup.
#[derive(Debug, Clone)]
pub struct ChatroomMemberData {
    pub member_list: Vec<ChatroomMember>,
}

/// The envelope that answers the member lookup.
#[derive(Debug, Clone)]
pub struct GetChatroomMemberListResponse {
    pub ret: i32,
    pub msg: String,
    pub data: Option<ChatroomMemberData>,
}

/// A member's identifier with the name under which the member is mentioned.
#[derive(Debug, Clone)]
pub struct MemberName {
    pub wxid: String,
    pub name: String,
}

impl View for MemberName {
    type V = (Seq<char>, Seq<char>);

    open spec fn view(&self) -> (Seq<char>, Seq<char>) {
        (self.wxid@, self.name@)
    }
}

/// The views of the entries of `v`.
pub open spec fn member_views(v: Seq<MemberName>) -> Seq<(Seq<char>, Seq<char>)> {
    Seq::new(v.len(), |i: int| v[i]@)
}

/// The identifiers and shown names of the listed members, in the order of
/// the list.
pub open spec fn names_of(list: Seq<ChatroomMember>) -> Seq<(Seq<char>, Seq<char>)> {
    Seq::new(list.len(), |i: int| (list[i].wxid@, list[i].shown()))
}

impl GetChatroomMemberListResponse {
    /// What the answer to the member lookup means: the names of the members
    /// where `ret` is the success value (none where `data` is missing); the
    /// known failure of a bot outside the group for the backend's own way of
    /// saying so; any other failure as the backend reports it.
    pub open spec fn meaning(&self) -> Result<Seq<(Seq<char>, Seq<char>)>, GeweNoticeErrorView> {
        if self.ret == RET_SUCCESS {
            match self.data {
                Some(data) => Ok(names_of(data.member_list@)),
                None => Ok(Seq::empty()),
            }
        } else if self.ret == RET_FAILURE && self.msg@ == MEMBER_LIST_UNAVAILABLE@ {
            Err(
                GeweNoticeErrorView::Business(
                    ApiBusinessErrorView::KnownError { code: ApiErrorCode::NotInGroup },
                ),
            )
        } else {
            Err(
                GeweNoticeErrorView::Business(
                    ApiBusinessErrorView::UnknownError { code: self.ret, message: self.msg@ },
                ),
            )
        }
    }

    /// Reads the answer to the member lookup.
    pub fn outcome(self) -> (r: Result<Vec<MemberName>, GeweNoticeError>)
        ensures
            match r {
                Ok(names) => self.meaning() == Ok::<
                    Seq<(Seq<char>, Seq<char>)>,
                    GeweNoticeErrorView,
                >(member_views(names@)),
                Err(e) => self.meaning() == Err::<Seq<(Seq<char>, Seq<char>)>, GeweNoticeErrorView>(
                    e@,
                ),
            },
    {
        if self.ret != RET_SUCCESS {
            if self.ret == RET_FAILURE && same_text(self.msg.as_str(), MEMBER_LIST_UNAVAILABLE) {
                return Err(
                    GeweNoticeError::Business(
                        ApiBusinessError::KnownError { code: ApiErrorCode::NotInGroup },
                    ),
                );
            }
            return Err(
                GeweNoticeError::Business(
                    ApiBusinessError::UnknownError { code: self.ret, message: self.msg },
                ),
            );
        }
        let mut names: Vec<MemberName> = Vec::new();
        match self.data {
            Some(data) => {
                let list = data.member_list;
                let mut i: usize = 0;
                while i < list.len()
                    invariant
                        i <= list.len(),
                        names.len() == i,
                        forall|k: int| 0 <= k < i ==> names@[k]@ == names_of(list@)[k],
                    decreases list.len() - i,
                {
                    let member = &list[i];
                    let name = match &member.display_name {
                        Some(shown) => shown.clone(),
                        None => member.nick_name.clone(),
                    };
                    names.push(MemberName { wxid: member.wxid.clone(), name });
                    i += 1;
                }
                assert(member_views(names@) =~= names_of(list@));
            },
            None => {
                assert(member_views(names@) =~= Seq::<(Seq<char>, Seq<char>)>::empty());
            },
        }
        Ok(names)
    }
}

/// The body of a text send.
#[derive(Debug, Clone)]
pub struct PostTextRequest {
    pub app_id: String,
    pub to_wxid: String,
    pub content: String,
    /// The mention parameter; left out of the body where there is none.
    pub ats: Option<String>,
}

/// What a `PostTextRequest` is in contracts: its strings are sequences of characters.
pub struct PostTextRequestView {
    pub app_id: Seq<char>,
    pub to_wxid: Seq<char>,
    pub content: Seq<char>,
    pub ats: Option<Seq<char>>,
}

impl View for PostTextRequest {
    type V = PostTextRequestView;

    open spec fn view(&self) -> PostTextRequestView {
        PostTextRequestView {
            app_id: self.app_id@,
            to_wxid: self.to_wxid@,
            content: self.content@,
            ats: opt_view(self.ats),
        }
    }
}

/// The `data` of the envelope that answers a text send: the failure code of a refused send.
#[derive(Debug, Clone)]
pub struct PostTextData {
    pub code: Option<String>,
}

/// The envelope that answers a text send.
#[derive(Debug, Clone)]
pub struct PostTextResponse {
    pub ret: i32,
    pub msg: String,
    pub data: Option<PostTextData>,
}

/// The failure code that the `data` of a send envelope carries, where it is
/// a known one: the nested `code` is a decimal numeral in a string.
pub open spec fn known_code(code: Option<Seq<char>>) -> Option<ApiErrorCode> {
    match code {
        Some(text) => match parsed_i32(text) {
            Some(number) => ApiErrorCode::of_number(number),
            None => None,
        },
        None => None,
    }
}

impl PostTextResponse {
    /// The nested failure code as text, where the envelope has one.
    pub open spec fn code_text(&self) -> Option<Seq<char>> {
        match self.data {
            Some(data) => opt_view(data.code),
            None => None,
        }
    }

    /// Whether the envelope reports success: `ret` is the success value and
    /// `msg` does not speak of failure.
    pub open spec fn succeeded(&self) -> bool {
        self.ret == RET_SUCCESS && !contains_seq(self.msg@, FAILURE_MARK@)
    }

    /// The backend's verdict on the send.
    pub fn ret_status(&self) -> (r: ApiRet)
        ensures
            r == ApiRet::of(self.ret),
    {
        ApiRet::from(self.ret)
    }

    /// Whether the envelope reports success.
    pub fn is_success(&self) -> (r: bool)
        ensures
            r == self.succeeded(),
    {
        self.ret_status().is_success() && !contains(self.msg.as_str(), FAILURE_MARK)
    }

    /// The known failure code that the envelope carries, where it carries one.
    pub fn failure_code(&self) -> (r: Option<ApiErrorCode>)
        ensures
            r == known_code(self.code_text()),
    {
        match &self.data {
            Some(data) => match &data.code {
                Some(code) => match parse_i32(code.as_str()) {
                    Some(number) => ApiErrorCode::from_code(number),
                    None => None,
                },
                None => None,
            },
            None => None,
        }
    }
}

/// One answered text send: the HTTP status, the body as it came, the
/// envelope read from it, and the delay in milliseconds after which the
/// backend asks to be called again, where it named one.
#[derive(Debug, Clone)]
pub struct PostTextCall {
    pub status: u16,
    pub body: String,
    pub response: PostTextResponse,
    pub retry_after_ms: Option<u64>,
}

/// What an answered send with the given status, body, envelope fields and
/// rate-limit hint means: success where the status and the envelope both
/// report it; else the known failure that the nested code names, which is
/// permanent; else a rate limit where the backend named a delay; else the
/// failure that `msg` describes; else, with nothing said, the bare HTTP
/// answer.
pub open spec fn send_meaning(
    status: u16,
    body: Seq<char>,
    ret: i32,
    msg: Seq<char>,
    code: Option<Seq<char>>,
    hint: Option<u64>,
) -> Result<(), GeweNoticeErrorView> {
    if success_status(status) && ret == RET_SUCCESS && !contains_seq(msg, FAILURE_MARK@) {
        Ok(())
    } else {
        match known_code(code) {
            Some(known) => Err(
                GeweNoticeErrorView::Business(ApiBusinessErrorView::KnownError { code: known }),
            ),
            None => if hint is Some {
                Err(
                    GeweNoticeErrorView::Business(
                        ApiBusinessErrorView::RateLimited { retry_after_ms: hint },
                    ),
                )
            } else if msg.len() > 0 {
                Err(
                    GeweNoticeErrorView::Business(
                        ApiBusinessErrorView::UnknownError { code: ret, message: msg },
                    ),
                )
            } else {
                Err(
                    GeweNoticeErrorView::Network(
                        NetworkErrorView::HttpError { status, body: Some(body) },
                    ),
                )
            },
        }
    }
}

impl PostTextCall {
    /// What this answered send means.
    pub open spec fn meaning(&self) -> Result<(), GeweNoticeErrorView> {
        send_meaning(
            self.status,
            self.body@,
            self.response.ret,
            self.response.msg@,
            self.response.code_text(),
            self.retry_after_ms,
        )
    }

    /// Whether the backend refused the send for want of permission: the
    /// failure after which a message to everyone is sent again without the
    /// mention.
    pub open spec fn permission_denied(&self) -> bool {
        self.response.ret == RET_FAILURE && known_code(self.response.code_text()) == Some(
            ApiErrorCode::PermissionDenied,
        )
    }

    /// Whether the backend refused the send for want of permission.
    pub fn is_permission_denied(&self) -> (r: bool)
        ensures
            r == self.permission_denied(),
    {
        self.response.ret == RET_FAILURE && match self.response.failure_code() {
            Some(ApiErrorCode::PermissionDenied) => true,
            _ => false,
        }
    }

    /// Reads the answered send.
    pub fn outcome(self) -> (r: Result<(), GeweNoticeError>)
        ensures
            match r {
                Ok(()) => self.meaning() is Ok,
                Err(e) => self.meaning() == Err::<(), GeweNoticeErrorView>(e@),
            },
    {
        if is_success_status(self.status) && self.response.is_success() {
            return Ok(());
        }
        match self.response.failure_code() {
            Some(code) => Err(GeweNoticeError::Business(ApiBusinessError::KnownError { code })),
            None => {
                if self.retry_after_ms.is_some() {
                    Err(
                        GeweNoticeError::Business(
                            ApiBusinessError::RateLimited { retry_after_ms: self.retry_after_ms },
                        ),
                    )
                } else if self.response.msg.as_str().unicode_len() != 0 {
                    Err(
                        GeweNoticeError::Business(
                            ApiBusinessError::UnknownError {
                                code: self.response.ret_status().code(),
                                message: self.response.msg,
                            },
                        ),
                    )
                } else {
                    Err(
                        GeweNoticeError::Network(
                            NetworkError::HttpError { status: self.status, body: Some(self.body) },
                        ),
                    )
                }
            },
        }
    }
}

/// The name under which the member `wxid` is mentioned, where the list has
/// the member. Of two entries for one member the later one counts.
pub open spec fn shown_name(members: Seq<(Seq<char>, Seq<char>)>, wxid: Seq<char>) -> Option<
    Seq<char>,
>
    decreases members.len(),
{
    if members.len() == 0 {
        None
    } else if members.last().0 == wxid {
        Some(members.last().1)
    } else {
        shown_name(members.drop_last(), wxid)
    }
}

/// The requested identifiers that the member list knows, each with the name
/// under which it is mentioned, in the order in which they were requested.
/// An identifier that the list does not know is left out.
pub open spec fn resolved(at_list: Seq<Seq<char>>, members: Seq<(Seq<char>, Seq<char>)>) -> Seq<
    (Seq<char>, Seq<char>),
>
    decreases at_list.len(),
{
    if at_list.len() == 0 {
        Seq::empty()
    } else {
        let before = resolved(at_list.drop_last(), members);
        match shown_name(members, at_list.last()) {
            Some(name) => before.push((at_list.last(), name)),
            None => before,
        }
    }
}

/// The identifiers of resolved mentions.
pub open spec fn ids_of(mentions: Seq<(Seq<char>, Seq<char>)>) -> Seq<Seq<char>> {
    Seq::new(mentions.len(), |i: int| mentions[i].0)
}

/// The visible tags of resolved mentions: an at sign before each name.
pub open spec fn tags_of(mentions: Seq<(Seq<char>, Seq<char>)>) -> Seq<Seq<char>> {
    Seq::new(mentions.len(), |i: int| "@"@ + mentions[i].1)
}

/// The content of a message that mentions `mentions`: the tags, a space
/// between them and one after them, then the content. Without a mention the
/// content stays as it is.
pub open spec fn mentioned_content(mentions: Seq<(Seq<char>, Seq<char>)>, content: Seq<char>) -> Seq<
    char,
> {
    if mentions.len() == 0 {
        content
    } else {
        joined(tags_of(mentions), " "@) + " "@ + content
    }
}

/// The mention parameter of a message that mentions `mentions`: the
/// identifiers with commas between them; none without a mention.
pub open spec fn mention_param(mentions: Seq<(Seq<char>, Seq<char>)>) -> Option<Seq<char>> {
    if mentions.len() == 0 {
        None
    } else {
        Some(joined(ids_of(mentions), ","@))
    }
}

/// The mentions that are resolved are exactly the requested identifiers
/// that the member list knows, in their order, each with its shown name.
pub proof fn lemma_resolved_are_the_known(
    at_list: Seq<Seq<char>>,
    members: Seq<(Seq<char>, Seq<char>)>,
)
    ensures
        ids_of(resolved(at_list, members)) == at_list.filter(
            |w: Seq<char>| shown_name(members, w) is Some,
        ),
        forall|i: int|
            0 <= i < resolved(at_list, members).len() ==> shown_name(
                members,
                (#[trigger] resolved(at_list, members)[i]).0,
            ) == Some(resolved(at_list, members)[i].1),
    decreases at_list.len(),
{
    reveal(Seq::filter);
    if at_list.len() > 0 {
        let before = at_list.drop_last();
        lemma_resolved_are_the_known(before, members);
    }
}

fn lookup(members: &Vec<MemberName>, wxid: &str) -> (r: Option<String>)
    ensures
        opt_view(r) == shown_name(member_views(members@), wxid@),
{
    let ghost all = member_views(members@);
    let mut i: usize = members.len();
    assert(all.take(i as int) =~= all);
    while i > 0
        invariant
            i <= members.len(),
            all == member_views(members@),
            shown_name(all, wxid@) == shown_name(all.take(i as int), wxid@),
        decreases i,
    {
        let ghost here = all.take(i as int);
        assert(here.drop_last() =~= all.take(i - 1));
        if same_text(members[i - 1].wxid.as_str(), wxid) {
            return Some(members[i - 1].name.clone());
        }
        i -= 1;
    }
    None
}

/// The identifiers and tags of the mentions that the member list resolves.
fn resolve(at_list: &Vec<WxId>, members: &Vec<MemberName>) -> (r: (Vec<String>, Vec<String>))
    ensures
        views(r.0@) == ids_of(resolved(wxid_views(at_list@), member_views(members@))),
        views(r.1@) == tags_of(resolved(wxid_views(at_list@), member_views(members@))),
{
    let ghost wanted = wxid_views(at_list@);
    let ghost known = member_views(members@);
    let mut ids: Vec<String> = Vec::new();
    let mut tags: Vec<String> = Vec::new();
    let mut i: usize = 0;
    while i < at_list.len()
        invariant
            i <= at_list.len(),
            wanted == wxid_views(at_list@),
            known == member_views(members@),
            views(ids@) == ids_of(resolved(wanted.take(i as int), known)),
            views(tags@) == tags_of(resolved(wanted.take(i as int), known)),
        decreases at_list.len() - i,
    {
        let ghost before = resolved(wanted.take(i as int), known);
        let ghost next = wanted.take(i + 1);
        assert(next.drop_last() =~= wanted.take(i as int));
        let ghost old_ids = views(ids@);
        let ghost old_tags = views(tags@);
        let wxid = at_list[i].as_str();
        match lookup(members, wxid) {
            Some(name) => {
                tags.push(append("@", name.as_str()));
                ids.push(wxid.to_string());
                assert(ids_of(before.push((wxid@, name@))) =~= old_ids.push(wxid@));
                assert(tags_of(before.push((wxid@, name@))) =~= old_tags.push("@"@ + name@));
            },
            None => {},
        }
        i += 1;
    }
    assert(wanted.take(at_list.len() as int) =~= wanted);
    (ids, tags)
}

/// Where one attempt at a text delivery stands.
#[derive(Debug, Clone, Copy, PartialEq, Eq, Structural)]
pub enum SendState {
    /// The member lookup is under way.
    AwaitingMembers,
    /// The message is on its way to the backend for the first time in this
    /// attempt.
    Sent,
    /// The backend refused to mention everyone; the plain message is on its way.
    RetryingWithoutMentions,
    /// The attempt is over. Whether another follows is for the retry policy
    /// to say.
    Done,
    /// The member lookup failed. The attempt is over and so is the delivery:
    /// no attempt follows, whatever the failure.
    LookupFailed,
}

/// What a delivery remembers from one attempt to the next.
#[derive(Debug, Clone, Copy, PartialEq, Eq, Structural)]
pub struct SendMemory {
    /// Whether the plain message was sent in place of the message to
    /// everyone. It is sent so once in a delivery at most; from then on every
    /// attempt sends the plain message.
    pub fallback_used: bool,
}

impl SendMemory {
    /// What a delivery remembers before its first attempt.
    pub open spec fn fresh() -> SendMemory {
        SendMemory { fallback_used: false }
    }

    /// What a delivery remembers before its first attempt.
    pub fn new() -> (r: SendMemory)
        ensures
            r == SendMemory::fresh(),
    {
        SendMemory { fallback_used: false }
    }
}

impl SendState {
    /// How many backend calls an attempt in this state can still be
    /// waiting for: the lookup and two sends at most.
    pub open spec fn calls_left(self) -> nat {
        match self {
            SendState::AwaitingMembers => 3,
            SendState::Sent => 2,
            SendState::RetryingWithoutMentions => 1,
            SendState::Done => 0,
            SendState::LookupFailed => 0,
        }
    }

    /// Whether the attempt is over.
    pub open spec fn is_over(self) -> bool {
        self == SendState::Done || self == SendState::LookupFailed
    }

    /// Whether the action is the one that an attempt in this state waits
    /// on: the lookup while the members are awaited, a send while the message
    /// is on its way, and the end when it is over.
    pub open spec fn waits_on(self, action: SendActionView) -> bool {
        match self {
            SendState::AwaitingMembers => action is LookupMembers,
            SendState::Sent => action is Post,
            SendState::RetryingWithoutMentions => action is Post,
            SendState::Done => action is Finish,
            SendState::LookupFailed => action matches SendActionView::Finish(Err(_)),
        }
    }
}

/// What the caller of the delivery does next.
#[derive(Debug)]
pub enum SendAction {
    /// Ask the backend for the members of this group.
    LookupMembers { chatroom_id: String },
    /// Send this body to the text endpoint.
    Post(PostTextRequest),
    /// The attempt is over, with this result.
    Finish(Result<(), GeweNoticeError>),
}

/// What a `SendAction` is in contracts: its strings are sequences of characters.
pub enum SendActionView {
    LookupMembers { chatroom_id: Seq<char> },
    Post(PostTextRequestView),
    Finish(Result<(), GeweNoticeErrorView>),
}

impl View for SendAction {
    type V = SendActionView;

    open spec fn view(&self) -> SendActionView {
        match self {
            SendAction::LookupMembers { chatroom_id } => SendActionView::LookupMembers {
                chatroom_id: chatroom_id@,
            },
            SendAction::Post(request) => SendActionView::Post(request@),
            SendAction::Finish(Ok(())) => SendActionView::Finish(Ok(())),
            SendAction::Finish(Err(e)) => SendActionView::Finish(Err(e@)),
        }
    }
}

/// One step of a text delivery: the state that the attempt is in now, what
/// the delivery remembers, and what to do.
#[derive(Debug)]
pub struct SendStep {
    pub state: SendState,
    pub memory: SendMemory,
    pub action: SendAction,
}

/// What a `SendStep` is in contracts: its strings are sequences of characters.
pub struct SendStepView {
    pub state: SendState,
    pub memory: SendMemory,
    pub action: SendActionView,
}

impl View for SendStep {
    type V = SendStepView;

    open spec fn view(&self) -> SendStepView {
        SendStepView { state: self.state, memory: self.memory, action: self.action@ }
    }
}

impl ConfigView {
    /// Whether the recipient is a group.
    pub open spec fn is_group(self) -> bool {
        contains_seq(self.wxid, chatroom_suffix())
    }

    /// Whether the mention list is the sentinel alone.
    pub open spec fn mentions_everyone(self) -> bool {
        self.at_list matches Some(list) && list.len() == 1 && list[0] == all_sentinel()
    }

    /// The requested mentions; none where no list is configured.
    pub open spec fn requested(self) -> Seq<Seq<char>> {
        match self.at_list {
            Some(list) => list,
            None => Seq::empty(),
        }
    }

    /// The body that carries `content` with the mention parameter `ats`.
    pub open spec fn request(self, content: Seq<char>, ats: Option<Seq<char>>) -> PostTextRequestView {
        PostTextRequestView { app_id: self.app_id, to_wxid: self.wxid, content, ats }
    }

    /// The first step of an attempt to deliver `content`. A message to a
    /// group with a mention list goes out with the mark for everyone where
    /// the list is the sentinel alone and the fallback has not been used in
    /// this delivery, goes out plain where it has been used, and waits for
    /// the member lookup where the list names members; every other message
    /// goes out as it is.
    pub open spec fn first_step(self, content: Seq<char>, memory: SendMemory) -> SendStepView {
        if self.is_group() && self.at_list is Some {
            if self.mentions_everyone() {
                SendStepView {
                    state: SendState::Sent,
                    memory,
                    action: SendActionView::Post(
                        if memory.fallback_used {
                            self.request(content, None)
                        } else {
                            self.request(EVERYONE_PREFIX@ + content, Some(NOTIFY_ALL@))
                        },
                    ),
                }
            } else {
                SendStepView {
                    state: SendState::AwaitingMembers,
                    memory,
                    action: SendActionView::LookupMembers { chatroom_id: self.wxid },
                }
            }
        } else {
            SendStepView {
                state: SendState::Sent,
                memory,
                action: SendActionView::Post(self.request(content, None)),
            }
        }
    }

    /// The step after the member lookup. A failed lookup ends the delivery
    /// with its failure; an answered one sends the message with the mentions
    /// that it resolves.
    pub open spec fn step_after_lookup(
        self,
        content: Seq<char>,
        memory: SendMemory,
        lookup: Result<Seq<(Seq<char>, Seq<char>)>, GeweNoticeErrorView>,
    ) -> SendStepView {
        match lookup {
            Err(e) => SendStepView {
                state: SendState::LookupFailed,
                memory,
                action: SendActionView::Finish(Err(e)),
            },
            Ok(members) => {
                let mentions = resolved(self.requested(), members);
                SendStepView {
                    state: SendState::Sent,
                    memory,
                    action: SendActionView::Post(
                        self.request(mentioned_content(mentions, content), mention_param(mentions)),
                    ),
                }
            },
        }
    }

    /// Whether the answer `call` to the first send of an attempt makes the
    /// delivery fall back to the plain message: the message went to everyone
    /// in a group, the backend refused it for want of permission, and the
    /// delivery has not fallen back before.
    pub open spec fn falls_back(self, state: SendState, memory: SendMemory, call: PostTextCall) -> bool {
        state == SendState::Sent && !memory.fallback_used && self.is_group()
            && self.mentions_everyone() && call.permission_denied()
    }

    /// The step after a send was answered, or failed to be. A send that
    /// got no answer ends the attempt with its failure. The send of a message
    /// to everyone in a group, refused for want of permission, is followed
    /// by one send of the plain message, once in a delivery. Every other
    /// answer ends the attempt with what it means.
    pub open spec fn step_after_post(
        self,
        content: Seq<char>,
        state: SendState,
        memory: SendMemory,
        answer: Result<PostTextCall, GeweNoticeError>,
    ) -> SendStepView {
        match answer {
            Err(e) => SendStepView {
                state: SendState::Done,
                memory,
                action: SendActionView::Finish(Err(e@)),
            },
            Ok(call) => if self.falls_back(state, memory, call) {
                SendStepView {
                    state: SendState::RetryingWithoutMentions,
                    memory: SendMemory { fallback_used: true },
                    action: SendActionView::Post(self.request(content, None)),
                }
            } else {
                SendStepView {
                    state: SendState::Done,
                    memory,
                    action: SendActionView::Finish(call.meaning()),
                }
            },
        }
    }

    /// Whether `after` can be the step that follows `before` in a delivery
    /// of `content`: the first step of another attempt, the step after a
    /// lookup, or the step after a send, each with what the delivery
    /// remembered at `before`.
    pub open spec fn is_next_step(self, content: Seq<char>, before: SendStepView, after: SendStepView) -> bool {
        ||| after == self.first_step(content, before.memory)
        ||| exists|lookup: Result<Seq<(Seq<char>, Seq<char>)>, GeweNoticeErrorView>|
            after == #[trigger] self.step_after_lookup(content, before.memory, lookup)
        ||| exists|answer: Result<PostTextCall, GeweNoticeError>|
            after == #[trigger] self.step_after_post(content, before.state, before.memory, answer)
    }

    /// Whether `steps` can be the steps of one delivery of `content`, over
    /// all its attempts: it begins with the first step of a delivery that
    /// remembers nothing, and each step follows the one before it.
    pub open spec fn is_delivery(self, content: Seq<char>, steps: Seq<SendStepView>) -> bool {
        &&& steps.len() > 0
        &&& steps[0] == self.first_step(content, SendMemory::fresh())
        &&& forall|i: int|
            1 <= i < steps.len() ==> self.is_next_step(content, steps[i - 1], #[trigger] steps[i])
    }
}

/// How many of the steps are sends of the plain message in place of the
/// message to everyone.
pub open spec fn fallbacks_in(steps: Seq<SendStepView>) -> nat
    decreases steps.len(),
{
    if steps.len() == 0 {
        0
    } else {
        fallbacks_in(steps.drop_last()) + if steps.last().state == SendState::RetryingWithoutMentions {
            1nat
        } else {
            0nat
        }
    }
}

/// What follows attempt number `attempts_made` at a text delivery, which
/// ended in `state` with `outcome`: nothing after a failed lookup, whose
/// failure is the result of the delivery whatever it is; in every other case
/// what the retry policy says.
pub open spec fn send_verdict(
    policy: RetryPolicyView,
    attempts_made: int,
    state: SendState,
    outcome: Result<(), GeweNoticeErrorView>,
    jitter: int,
) -> RetryVerdictView<()> {
    if state == SendState::LookupFailed {
        RetryVerdictView::Finish(outcome)
    } else {
        policy.verdict(attempts_made, outcome, jitter)
    }
}

/// The view of the result of a member lookup.
pub open spec fn lookup_view(lookup: Result<Vec<MemberName>, GeweNoticeError>) -> Result<
    Seq<(Seq<char>, Seq<char>)>,
    GeweNoticeErrorView,
> {
    match lookup {
        Ok(names) => Ok(member_views(names@)),
        Err(e) => Err(e@),
    }
}

/// The delivery client's part that decides: it holds the configuration and
/// the limits, and says for every step of a delivery what to do next. The
/// connection pool and the permits belong to whoever performs the calls.
#[derive(Debug, Clone)]
pub struct GeweApiClient {
    config: Config,
    retry_policy: RetryPolicy,
    request_timeout_ms: u64,
}

impl GeweApiClient {
    /// The configuration that the client delivers for.
    pub closed spec fn config_view(&self) -> ConfigView {
        self.config@
    }

    /// The retry policy of the client.
    pub closed spec fn spec_retry_policy(&self) -> RetryPolicy {
        self.retry_policy
    }

    /// The time limit of one backend call, in milliseconds.
    pub closed spec fn spec_request_timeout_ms(&self) -> u64 {
        self.request_timeout_ms
    }

    /// A client for `config` with the standard retry policy and call limit.
    pub fn new(config: Config) -> (r: Self)
        ensures
            r.config_view() == config@,
            r.spec_retry_policy()@ == (RetryPolicyView {
                max_retries: 3,
                initial_delay_ms: 100,
                max_delay_ms: 5000,
                multiplier: 2,
            }),
            r.spec_request_timeout_ms() == CALL_TIMEOUT_MS,
    {
        GeweApiClient {
            config,
            retry_policy: RetryPolicy::standard(),
            request_timeout_ms: CALL_TIMEOUT_MS,
        }
    }

    /// The configuration that the client delivers for.
    pub fn config(&self) -> (r: &Config)
        ensures
            r@ == self.config_view(),
    {
        &self.config
    }

    /// The retry policy of the client.
    pub fn retry_policy(&self) -> (r: RetryPolicy)
        ensures
            r == self.spec_retry_policy(),
    {
        self.retry_policy
    }

    /// The time limit of one backend call, in milliseconds.
    pub fn request_timeout_ms(&self) -> (r: u64)
        ensures
            r == self.spec_request_timeout_ms(),
    {
        self.request_timeout_ms
    }

    /// The URL of the backend endpoint at `path`.
    pub fn endpoint(&self, path: &str) -> (r: String)
        ensures
            r@ == self.config_view().base_url + path@,
    {
        append(self.config.base_url.as_str(), path)
    }

    /// The body of the online check.
    pub fn check_online_request(&self) -> (r: CheckOnlineRequest)
        ensures
            r.app_id@ == self.config_view().app_id,
    {
        CheckOnlineRequest { app_id: self.config.app_id_str().to_string() }
    }

    /// The body of the lookup of the members of `chatroom_id`.
    pub fn member_list_request(&self, chatroom_id: &str) -> (r: GetChatroomMemberListRequest)
        ensures
            r.app_id@ == self.config_view().app_id,
            r.chatroom_id@ == chatroom_id@,
    {
        GetChatroomMemberListRequest {
            app_id: self.config.app_id_str().to_string(),
            chatroom_id: chatroom_id.to_string(),
        }
    }

    fn request(&self, content: String, ats: Option<String>) -> (r: PostTextRequest)
        ensures
            r@ == self.config_view().request(content@, opt_view(ats)),
    {
        PostTextRequest {
            app_id: self.config.app_id_str().to_string(),
            to_wxid: self.config.wxid_str().to_string(),
            content,
            ats,
        }
    }

    fn mentions_everyone(&self) -> (r: bool)
        ensures
            r == self.config_view().mentions_everyone(),
    {
        match &self.config.at_list {
            Some(list) => {
                if list.len() == 1 {
                    list[0].is_all()
                } else {
                    false
                }
            },
            None => false,
        }
    }

    /// Begins an attempt to deliver `content`. `memory` is what the
    /// delivery remembers: `SendMemory::new()` for the first attempt, and
    /// for every other attempt the memory of the last step of the attempt
    /// before it.
    pub fn begin_text(&self, content: &str, memory: SendMemory) -> (r: SendStep)
        ensures
            r@ == self.config_view().first_step(content@, memory),
    {
        if self.config.is_chatroom() && self.config.at_list.is_some() {
            if self.mentions_everyone() {
                let request = if memory.fallback_used {
                    self.request(content.to_string(), None)
                } else {
                    self.request(append(EVERYONE_PREFIX, content), Some(NOTIFY_ALL.to_string()))
                };
                SendStep { state: SendState::Sent, memory, action: SendAction::Post(request) }
            } else {
                SendStep {
                    state: SendState::AwaitingMembers,
                    memory,
                    action: SendAction::LookupMembers {
                        chatroom_id: self.config.wxid_str().to_string(),
                    },
                }
            }
        } else {
            let request = self.request(content.to_string(), None);
            SendStep { state: SendState::Sent, memory, action: SendAction::Post(request) }
        }
    }

    /// Goes on with the delivery of `content` after the member lookup.
    pub fn members_resolved(
        &self,
        content: &str,
        memory: SendMemory,
        lookup: Result<Vec<MemberName>, GeweNoticeError>,
    ) -> (r: SendStep)
        ensures
            r@ == self.config_view().step_after_lookup(content@, memory, lookup_view(lookup)),
    {
        match lookup {
            Err(e) => SendStep {
                state: SendState::LookupFailed,
                memory,
                action: SendAction::Finish(Err(e)),
            },
            Ok(members) => {
                let (ids, tags) = match &self.config.at_list {
                    Some(list) => resolve(list, &members),
                    None => {
                        let empty: Vec<WxId> = Vec::new();
                        resolve(&empty, &members)
                    },
                };
                if tags.len() == 0 {
                    let request = self.request(content.to_string(), None);
                    SendStep { state: SendState::Sent, memory, action: SendAction::Post(request) }
                } else {
                    let prefix = append(join(&tags, " ").as_str(), " ");
                    let request = self.request(
                        append(prefix.as_str(), content),
                        Some(join(&ids, ",")),
                    );
                    SendStep { state: SendState::Sent, memory, action: SendAction::Post(request) }
                }
            },
        }
    }

    /// Goes on with the delivery of `content` after a send was answered or
    /// failed to be. `state` and `memory` are those of the step that asked
    /// for the send.
    pub fn post_answered(
        &self,
        content: &str,
        state: SendState,
        memory: SendMemory,
        answer: Result<PostTextCall, GeweNoticeError>,
    ) -> (r: SendStep)
        ensures
            r@ == self.config_view().step_after_post(content@, state, memory, answer),
    {
        match answer {
            Err(e) => SendStep { state: SendState::Done, memory, action: SendAction::Finish(Err(e)) },
            Ok(call) => {
                let first = match state {
                    SendState::Sent => true,
                    _ => false,
                };
                if first && !memory.fallback_used && self.config.is_chatroom()
                    && self.mentions_everyone() && call.is_permission_denied() {
                    let request = self.request(content.to_string(), None);
                    SendStep {
                        state: SendState::RetryingWithoutMentions,
                        memory: SendMemory { fallback_used: true },
                        action: SendAction::Post(request),
                    }
                } else {
                    SendStep {
                        state: SendState::Done,
                        memory,
                        action: SendAction::Finish(call.outcome()),
                    }
                }
            },
        }
    }

    /// Judges attempt number `attempts_made` at a text delivery, which ended
    /// in `state` with `outcome`, with the random draw `draw` for the jitter.
    pub fn judge_text(
        &self,
        attempts_made: u8,
        state: SendState,
        outcome: Result<(), GeweNoticeError>,
        draw: u32,
    ) -> (r: RetryVerdict<()>)
        requires
            attempts_made >= 1,
        ensures
            r@ == send_verdict(
                self.spec_retry_policy()@,
                attempts_made as int,
                state,
                outcome_view(outcome),
                jitter_of(draw),
            ),
    {
        match state {
            SendState::LookupFailed => RetryVerdict::Finish(outcome),
            _ => self.retry_policy.judge(attempts_made, outcome, draw),
        }
    }

    /// Judges attempt number `attempts_made` at a text delivery, which ended
    /// in `state` with `outcome`, with a jitter factor drawn at random.
    pub fn after_text_attempt(
        &self,
        attempts_made: u8,
        state: SendState,
        outcome: Result<(), GeweNoticeError>,
    ) -> (r: RetryVerdict<()>)
        requires
            attempts_made >= 1,
        ensures
            exists|draw: u32|
                r@ == send_verdict(
                    self.spec_retry_policy()@,
                    attempts_made as int,
                    state,
                    outcome_view(outcome),
                    jitter_of(draw),
                ),
    {
        let draw = random_u32();
        self.judge_text(attempts_made, state, outcome, draw)
    }
}

/// A message to a recipient that is no group goes out at once and as it
/// is, and no step of any delivery to such a recipient asks for a member
/// lookup, whatever mention list is configured. The lookup is asked for by
/// the first step of an attempt alone, for a group with a mention list that
/// is not the sentinel alone.
pub proof fn lemma_no_lookup_outside_groups(
    config: ConfigView,
    content: Seq<char>,
    state: SendState,
    memory: SendMemory,
    lookup: Result<Seq<(Seq<char>, Seq<char>)>, GeweNoticeErrorView>,
    answer: Result<PostTextCall, GeweNoticeError>,
)
    ensures
        !config.is_group() ==> config.first_step(content, memory) == (SendStepView {
            state: SendState::Sent,
            memory,
            action: SendActionView::Post(config.request(content, None)),
        }),
        config.first_step(content, memory).action is LookupMembers <==> config.is_group()
            && config.at_list is Some && !config.mentions_everyone(),
        !(config.step_after_lookup(content, memory, lookup).action is LookupMembers),
        !(config.step_after_post(content, state, memory, answer).action is LookupMembers),
{
}

/// Every attempt comes to its end: each step asks for the action that its
/// state waits on, and leaves fewer backend calls to wait for than the step
/// before it. So one attempt makes one lookup and two sends at most, and a
/// second send only as the fallback after the first.
pub proof fn lemma_delivery_moves_on(
    config: ConfigView,
    content: Seq<char>,
    state: SendState,
    memory: SendMemory,
    lookup: Result<Seq<(Seq<char>, Seq<char>)>, GeweNoticeErrorView>,
    answer: Result<PostTextCall, GeweNoticeError>,
)
    ensures
        ({
            let first = config.first_step(content, memory);
            let second = config.step_after_lookup(content, memory, lookup);
            let later = config.step_after_post(content, state, memory, answer);
            &&& first.state.waits_on(first.action)
            &&& second.state.waits_on(second.action)
            &&& later.state.waits_on(later.action)
            &&& !first.state.is_over()
            &&& second.state.calls_left() < SendState::AwaitingMembers.calls_left()
            &&& !state.is_over() ==> later.state.calls_left() < state.calls_left()
            &&& later.state == SendState::Done || (state == SendState::Sent && later.state
                == SendState::RetryingWithoutMentions)
        }),
{
}

/// A failed member lookup is the end of the delivery: the step after it
/// asks for no backend call, its failure is the result, and no attempt
/// follows, be the failure retryable or not and however many attempts are
/// left.
pub proof fn lemma_failed_lookup_is_not_retried(
    config: ConfigView,
    policy: RetryPolicyView,
    content: Seq<char>,
    memory: SendMemory,
    e: GeweNoticeErrorView,
    attempts_made: int,
    jitter: int,
)
    ensures
        config.step_after_lookup(content, memory, Err(e)) == (SendStepView {
            state: SendState::LookupFailed,
            memory,
            action: SendActionView::Finish(Err(e)),
        }),
        send_verdict(policy, attempts_made, SendState::LookupFailed, Err(e), jitter)
            == RetryVerdictView::Finish(Err::<(), GeweNoticeErrorView>(e)),
{
}

/// What a delivery remembers is never forgotten, and the fallback is
/// taken only by a delivery that has not taken it: the step that sends the
/// plain message in place of the message to everyone finds the fallback
/// unused and leaves it used, and from then on no step is such a step and a
/// message to everyone in a group goes out plain.
pub proof fn lemma_fallback_is_remembered(
    config: ConfigView,
    content: Seq<char>,
    state: SendState,
    memory: SendMemory,
    lookup: Result<Seq<(Seq<char>, Seq<char>)>, GeweNoticeErrorView>,
    answer: Result<PostTextCall, GeweNoticeError>,
)
    ensures
        ({
            let first = config.first_step(content, memory);
            let second = config.step_after_lookup(content, memory, lookup);
            let later = config.step_after_post(content, state, memory, answer);
            &&& first.memory == memory
            &&& second.memory == memory
            &&& memory.fallback_used ==> later.memory == memory
            &&& first.state != SendState::RetryingWithoutMentions
            &&& second.state != SendState::RetryingWithoutMentions
            &&& later.state == SendState::RetryingWithoutMentions <==> answer is Ok
                && config.falls_back(state, memory, answer->Ok_0)
            &&& later.state == SendState::RetryingWithoutMentions ==> !memory.fallback_used
                && later.memory.fallback_used
            &&& later.state != SendState::RetryingWithoutMentions ==> later.memory == memory
            &&& memory.fallback_used && config.is_group() && config.mentions_everyone() ==> first.action
                == SendActionView::Post(config.request(content, None))
        }),
{
}

/// In one delivery, over all its attempts, the plain message is sent in
/// place of the message to everyone once at most: among the steps of a
/// delivery there is one such step where the delivery remembers the fallback
/// in the end, and none where it does not.
pub proof fn lemma_one_fallback_in_a_delivery(
    config: ConfigView,
    content: Seq<char>,
    steps: Seq<SendStepView>,
)
    requires
        config.is_delivery(content, steps),
    ensures
        fallbacks_in(steps) <= 1,
        fallbacks_in(steps) == if steps.last().memory.fallback_used {
            1nat
        } else {
            0nat
        },
    decreases steps.len(),
{
    if steps.len() == 1 {
        assert(steps.drop_last().len() == 0);
        assert(fallbacks_in(steps.drop_last()) == 0);
    } else {
        let before = steps.drop_last();
        assert(config.is_delivery(content, before)) by {
            assert(before[0] == steps[0]);
            assert forall|i: int| 1 <= i < before.len() implies config.is_next_step(
                content,
                before[i - 1],
                #[trigger] before[i],
            ) by {
                assert(config.is_next_step(content, steps[i - 1], steps[i]));
            }
        }
        lemma_one_fallback_in_a_delivery(config, content, before);
        let last = steps.len() - 1;
        assert(config.is_next_step(content, steps[last - 1], steps[last]));
        assert(before.last() == steps[last - 1]);
    }
}

/// A message to everyone in a group, refused once for want of permission,
/// takes exactly two sends: the first carries the mark for everyone and the
/// visible prefix, the second the plain content without a mention, and the
/// answer to the second is the result of the attempt. A second refusal is
/// not followed by a third send.
pub proof fn lemma_everyone_fallback(
    config: ConfigView,
    content: Seq<char>,
    denied: PostTextCall,
    second: PostTextCall,
)
    requires
        config.is_group(),
        config.mentions_everyone(),
        denied.permission_denied(),
    ensures
        config.first_step(content, SendMemory::fresh()) == (SendStepView {
            state: SendState::Sent,
            memory: SendMemory::fresh(),
            action: SendActionView::Post(
                config.request(EVERYONE_PREFIX@ + content, Some(NOTIFY_ALL@)),
            ),
        }),
        config.step_after_post(content, SendState::Sent, SendMemory::fresh(), Ok(denied))
            == (SendStepView {
            state: SendState::RetryingWithoutMentions,
            memory: SendMemory { fallback_used: true },
            action: SendActionView::Post(config.request(content, None)),
        }),
        config.step_after_post(
            content,
            SendState::RetryingWithoutMentions,
            SendMemory { fallback_used: true },
            Ok(second),
        ) == (SendStepView {
            state: SendState::Done,
            memory: SendMemory { fallback_used: true },
            action: SendActionView::Finish(second.meaning()),
        }),
        second.meaning() is Ok ==> config.step_after_post(
            content,
            SendState::RetryingWithoutMentions,
            SendMemory { fallback_used: true },
            Ok(second),
        ).action == SendActionView::Finish(Ok(())),
{
}

/// An answered member lookup never fails the delivery: the message goes
/// out with the mentions of exactly those requested identifiers that the
/// member list knows, and without a mention where it knows none of them.
pub proof fn lemma_unknown_mentions_are_dropped(
    config: ConfigView,
    content: Seq<char>,
    memory: SendMemory,
    members: Seq<(Seq<char>, Seq<char>)>,
)
    ensures
        ({
            let mentions = resolved(config.requested(), members);
            let step = config.step_after_lookup(content, memory, Ok(members));
            &&& step.state == SendState::Sent
            &&& step.action == SendActionView::Post(
                config.request(mentioned_content(mentions, content), mention_param(mentions)),
            )
            &&& ids_of(mentions) == config.requested().filter(
                |w: Seq<char>| shown_name(members, w) is Some,
            )
            &&& mentions.len() == 0 ==> step.action == SendActionView::Post(
                config.request(content, None),
            )
        }),
{
    lemma_resolved_are_the_known(config.requested(), members);
}

/// The body of a file send: the backend fetches the file from `file_url`
/// and relays it under `file_name`.
#[derive(Debug, Clone)]
pub struct PostFileRequest {
    pub app_id: String,
    pub to_wxid: String,
    pub file_url: String,
    pub file_name: String,
}

/// What the backend reports of a message that it relayed.
#[derive(Debug, Clone)]
pub struct FileSendInfo {
    pub to_wxid: Option<String>,
    pub create_time: Option<i64>,
    pub msg_id: Option<i64>,
    pub new_msg_id: Option<i64>,
    pub message_type: Option<i32>,
}

/// What a `FileSendInfo` is in contracts: its strings are sequences of characters.
pub struct FileSendInfoView {
    pub to_wxid: Option<Seq<char>>,
    pub create_time: Option<i64>,
    pub msg_id: Option<i64>,
    pub new_msg_id: Option<i64>,
    pub message_type: Option<i32>,
}

impl View for FileSendInfo {
    type V = FileSendInfoView;

    open spec fn view(&self) -> FileSendInfoView {
        FileSendInfoView {
            to_wxid: opt_view(self.to_wxid),
            create_time: self.create_time,
            msg_id: self.msg_id,
            new_msg_id: self.new_msg_id,
            message_type: self.message_type,
        }
    }
}

/// The `data` of the envelope that answers a file send: the failure code of
/// a refused send, or the report of a relayed one.
#[derive(Debug, Clone)]
pub struct PostFileData {
    pub code: Option<String>,
    pub to_wxid: Option<String>,
    pub create_time: Option<i64>,
    pub msg_id: Option<i64>,
    pub new_msg_id: Option<i64>,
    pub message_type: Option<i32>,
}

/// The envelope that answers a file send.
#[derive(Debug, Clone)]
pub struct PostFileResponse {
    pub ret: i32,
    pub msg: String,
    pub data: Option<PostFileData>,
}

/// One answered file send.
#[derive(Debug, Clone)]
pub struct PostFileCall {
    pub status: u16,
    pub body: String,
    pub response: PostFileResponse,
    pub retry_after_ms: Option<u64>,
}

impl PostFileResponse {
    /// The nested failure code as text, where the envelope has one.
    pub open spec fn code_text(&self) -> Option<Seq<char>> {
        match self.data {
            Some(data) => opt_view(data.code),
            None => None,
        }
    }

    /// The report that the envelope carries; an empty one without `data`.
    pub open spec fn report(&self) -> FileSendInfoView {
        match self.data {
            Some(data) => FileSendInfoView {
                to_wxid: opt_view(data.to_wxid),
                create_time: data.create_time,
                msg_id: data.msg_id,
                new_msg_id: data.new_msg_id,
                message_type: data.message_type,
            },
            None => FileSendInfoView {
                to_wxid: None,
                create_time: None,
                msg_id: None,
                new_msg_id: None,
                message_type: None,
            },
        }
    }
}

impl PostFileCall {
    /// What this answered file send means: the backend's report where a
    /// text send with the same status and envelope would have succeeded, and
    /// the failure of that text send where it would not.
    pub open spec fn meaning(&self) -> Result<FileSendInfoView, GeweNoticeErrorView> {
        match send_meaning(
            self.status,
            self.body@,
            self.response.ret,
            self.response.msg@,
            self.response.code_text(),
            self.retry_after_ms,
        ) {
            Ok(()) => Ok(self.response.report()),
            Err(e) => Err(e),
        }
    }

    /// Reads the answered file send.
    pub fn outcome(self) -> (r: Result<FileSendInfo, GeweNoticeError>)
        ensures
            match r {
                Ok(info) => self.meaning() == Ok::<FileSendInfoView, GeweNoticeErrorView>(info@),
                Err(e) => self.meaning() == Err::<FileSendInfoView, GeweNoticeErrorView>(e@),
            },
    {
        let PostFileCall { status, body, response, retry_after_ms } = self;
        let PostFileResponse { ret, msg, data } = response;
        let (code, info) = match data {
            Some(d) => (
                d.code,
                FileSendInfo {
                    to_wxid: d.to_wxid,
                    create_time: d.create_time,
                    msg_id: d.msg_id,
                    new_msg_id: d.new_msg_id,
                    message_type: d.message_type,
                },
            ),
            None => (
                None,
                FileSendInfo {
                    to_wxid: None,
                    create_time: None,
                    msg_id: None,
                    new_msg_id: None,
                    message_type: None,
                },
            ),
        };
        let text = PostTextCall {
            status,
            body,
            response: PostTextResponse { ret, msg, data: Some(PostTextData { code }) },
            retry_after_ms,
        };
        match text.outcome() {
            Ok(()) => Ok(info),
            Err(e) => Err(e),
        }
    }
}

impl GeweApiClient {
    /// The body that tells the backend to relay the file at `file_url`
    /// under the name `file_name`. No mention is ever made with a file.
    pub fn file_request(&self, file_name: &str, file_url: &str) -> (r: PostFileRequest)
        ensures
            r.app_id@ == self.config_view().app_id,
            r.to_wxid@ == self.config_view().wxid,
            r.file_url@ == file_url@,
            r.file_name@ == file_name@,
    {
        PostFileRequest {
            app_id: self.config.app_id_str().to_string(),
            to_wxid: self.config.wxid_str().to_string(),
            file_url: file_url.to_string(),
            file_name: file_name.to_string(),
        }
    }
}

} // verus!
