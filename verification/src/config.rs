//! The validated configuration of a delivery client: who sends, who receives,
//! whom to mention, and where files are uploaded.
use vstd::prelude::*;
use vstd::string::StringSliceAdditionalSpecFns;
use vstd::utf8::{decode_utf8, encode_utf8, encode_utf8_decode_utf8, is_char_boundary};
use crate::bindings::{
    format_uuid, is_lower_hex, parse_url, parse_uuid, parsed_url, parsed_uuid, uuid_text,
};
use crate::errors::{
    ConfigValidationError, ConfigValidationErrorView, GeweNoticeError, GeweNoticeErrorView,
    TokenValidationError, TokenValidationErrorView, WxIdValidationError,
};
use crate::text::{
    append, contains, contains_seq, ends_with, ends_with_seq, eq_ignore_ascii_case, is_blank,
    lowered, only, opt_view, same_text, starts_with, starts_with_seq, strip,
    to_ascii_lowercase, trim, trim_matches, trim_option, trimmed, trimmed_text, views,
};

verus! {

/// The backend's shared secret: a UUID, kept as its 128-bit value.
#[derive(Debug, Clone)]
pub struct ValidatedToken {
    value: u128,
}

impl View for ValidatedToken {
    type V = u128;

    closed spec fn view(&self) -> u128 {
        self.value
    }
}

impl ValidatedToken {
    /// Accepts `s` where it writes a UUID, and refuses it with the parser's
    /// own words where it writes none.
    pub fn new(s: &str) -> (r: Result<Self, GeweNoticeError>)
        ensures
            match r {
                Ok(token) => parsed_uuid(s@) == Ok::<u128, Seq<char>>(token@),
                Err(e) => parsed_uuid(s@) is Err && e@ == GeweNoticeErrorView::Config(
                    ConfigValidationErrorView::InvalidToken {
                        reason: TokenValidationErrorView::ParseError(parsed_uuid(s@)->Err_0),
                    },
                ),
            },
    {
        match parse_uuid(s) {
            Ok(value) => Ok(ValidatedToken { value }),
            Err(e) => Err(
                GeweNoticeError::Config(
                    ConfigValidationError::InvalidToken {
                        reason: TokenValidationError::ParseError(e),
                    },
                ),
            ),
        }
    }

    /// The token in the form that the backend expects in its header.
    pub fn as_str(&self) -> (r: String)
        ensures
            r@ == uuid_text(self@),
    {
        format_uuid(self.value)
    }
}

/// The token is written in thirty-six characters: hyphens at the four places
/// between the groups, and hexadecimal digits in lower case everywhere else.
pub proof fn lemma_token_text_shape(v: u128, i: int)
    requires
        0 <= i < 36,
    ensures
        uuid_text(v).len() == 36,
        i == 8 || i == 13 || i == 18 || i == 23 ==> uuid_text(v)[i] == '-',
        !(i == 8 || i == 13 || i == 18 || i == 23) ==> is_lower_hex(uuid_text(v)[i]),
{
}

/// Whether `s` can be an application identifier: it begins with `wx_`.
pub open spec fn valid_app_id(s: Seq<char>) -> bool {
    starts_with_seq(s, "wx_"@)
}

/// The identifier of the bot application.
#[derive(Debug)]
pub struct AppId(String);

impl Clone for AppId {
    fn clone(&self) -> (r: Self)
        ensures
            r@ == self@,
    {
        proof {
            use_type_invariant(self);
        }
        AppId(self.0.clone())
    }
}

impl View for AppId {
    type V = Seq<char>;

    closed spec fn view(&self) -> Seq<char> {
        self.0@
    }
}

impl AppId {
    #[verifier::type_invariant]
    spec fn well_formed(self) -> bool {
        valid_app_id(self.0@)
    }

    /// Accepts `s` where it begins with `wx_`, and hands it back in the error
    /// where it does not.
    pub fn new(s: String) -> (r: Result<Self, GeweNoticeError>)
        ensures
            match r {
                Ok(id) => valid_app_id(s@) && id@ == s@,
                Err(e) => !valid_app_id(s@) && e@ == GeweNoticeErrorView::Config(
                    ConfigValidationErrorView::InvalidAppId { value: s@ },
                ),
            },
    {
        if !starts_with(s.as_str(), "wx_") {
            return Err(GeweNoticeError::Config(ConfigValidationError::InvalidAppId { value: s }));
        }
        Ok(AppId(s))
    }

    /// The identifier as text.
    pub fn as_str(&self) -> (r: &str)
        ensures
            r@ == self@,
            valid_app_id(r@),
    {
        proof {
            use_type_invariant(self);
        }
        self.0.as_str()
    }
}

/// The suffix that marks a group identifier.
pub open spec fn chatroom_suffix() -> Seq<char> {
    "@chatroom"@
}

/// The sentinel that stands for every member of a group.
pub open spec fn all_sentinel() -> Seq<char> {
    "all"@
}

/// Whether `s` is the sentinel in any mix of upper and lower case.
pub open spec fn names_everyone(s: Seq<char>) -> bool {
    lowered(s) == lowered(all_sentinel())
}

/// Whether `s` is a recipient identifier in normal form: not empty, and
/// either the sentinel or a text in which the group suffix, if it occurs
/// at all, also stands at the end.
pub open spec fn valid_wxid(s: Seq<char>) -> bool {
    s.len() > 0 && (s == all_sentinel() || !contains_seq(s, chatroom_suffix()) || ends_with_seq(
        s,
        chatroom_suffix(),
    ))
}

/// What becomes of the text `s` offered as a recipient identifier: the
/// identifier in normal form, or the reason why there is none.
pub open spec fn wxid_of(s: Seq<char>) -> Result<Seq<char>, WxIdValidationError> {
    if s.len() == 0 {
        Err(WxIdValidationError::Empty)
    } else if names_everyone(s) {
        Ok(all_sentinel())
    } else if contains_seq(s, chatroom_suffix()) && !ends_with_seq(s, chatroom_suffix()) {
        Err(WxIdValidationError::InvalidChatroomFormat)
    } else {
        Ok(s)
    }
}

/// A recipient: one person, a group, or the sentinel for every member.
#[derive(Debug)]
pub struct WxId(String);

impl Clone for WxId {
    fn clone(&self) -> (r: Self)
        ensures
            r@ == self@,
    {
        proof {
            use_type_invariant(self);
        }
        WxId(self.0.clone())
    }
}

impl View for WxId {
    type V = Seq<char>;

    closed spec fn view(&self) -> Seq<char> {
        self.0@
    }
}

impl WxId {
    #[verifier::type_invariant]
    spec fn well_formed(self) -> bool {
        valid_wxid(self.0@)
    }

    /// Validates and normalizes `s`.
    pub fn new(s: String) -> (r: Result<Self, GeweNoticeError>)
        ensures
            match r {
                Ok(id) => wxid_of(s@) == Ok::<Seq<char>, WxIdValidationError>(id@),
                Err(e) => wxid_of(s@) is Err && e@ == GeweNoticeErrorView::Config(
                    ConfigValidationErrorView::InvalidWxId { reason: wxid_of(s@)->Err_0 },
                ),
            },
    {
        if s.as_str().unicode_len() == 0 {
            return Err(
                GeweNoticeError::Config(
                    ConfigValidationError::InvalidWxId { reason: WxIdValidationError::Empty },
                ),
            );
        }
        if eq_ignore_ascii_case(s.as_str(), "all") {
            proof {
                reveal_strlit("all");
            }
            return Ok(WxId("all".to_string()));
        }
        if contains(s.as_str(), "@chatroom") && !ends_with(s.as_str(), "@chatroom") {
            return Err(
                GeweNoticeError::Config(
                    ConfigValidationError::InvalidWxId {
                        reason: WxIdValidationError::InvalidChatroomFormat,
                    },
                ),
            );
        }
        Ok(WxId(s))
    }

    /// Whether the recipient is a group: whether the identifier carries the
    /// group suffix, which in an identifier in normal form stands at the end.
    pub fn is_chatroom(&self) -> (r: bool)
        ensures
            r == contains_seq(self@, chatroom_suffix()),
            r == ends_with_seq(self@, chatroom_suffix()),
    {
        proof {
            use_type_invariant(self);
            lemma_group_suffix_at_the_end(self.0@);
        }
        contains(self.0.as_str(), "@chatroom")
    }

    /// Whether this is the sentinel for every member.
    pub fn is_all(&self) -> (r: bool)
        ensures
            r == (self@ == all_sentinel()),
    {
        same_text(self.0.as_str(), "all")
    }

    /// The identifier as text, in normal form.
    pub fn as_str(&self) -> (r: &str)
        ensures
            r@ == self@,
            valid_wxid(r@),
    {
        proof {
            use_type_invariant(self);
        }
        self.0.as_str()
    }
}

/// In an identifier in normal form the group suffix occurs only at the end:
/// the identifier holds the suffix exactly where it ends with it.
pub proof fn lemma_group_suffix_at_the_end(s: Seq<char>)
    requires
        valid_wxid(s),
    ensures
        contains_seq(s, chatroom_suffix()) <==> ends_with_seq(s, chatroom_suffix()),
{
    reveal_strlit("all");
    reveal_strlit("@chatroom");
}

/// Every identifier that `wxid_of` accepts is in normal form, and an
/// identifier in normal form is accepted unchanged unless it spells the
/// sentinel in another case.
pub proof fn lemma_wxid_of_is_valid(s: Seq<char>)
    ensures
        wxid_of(s) matches Ok(id) ==> valid_wxid(id),
        valid_wxid(s) && !names_everyone(s) ==> wxid_of(s) == Ok::<Seq<char>, WxIdValidationError>(s),
        names_everyone(s) && s.len() > 0 ==> wxid_of(s) == Ok::<Seq<char>, WxIdValidationError>(
            all_sentinel(),
        ),
{
    reveal_strlit("all");
}

/// The views of the identifiers of `v`.
pub open spec fn wxid_views(v: Seq<WxId>) -> Seq<Seq<char>> {
    Seq::new(v.len(), |i: int| v[i]@)
}

/// The mention list that the raw entries `raw` make: each entry trimmed, the
/// blank ones left out, each of the others validated as an identifier, and
/// one that came before left out. The first entry that is refused decides.
pub open spec fn at_list_of(raw: Seq<Seq<char>>) -> Result<Seq<Seq<char>>, WxIdValidationError>
    decreases raw.len(),
{
    if raw.len() == 0 {
        Ok(Seq::empty())
    } else {
        match at_list_of(raw.drop_last()) {
            Err(reason) => Err(reason),
            Ok(done) => if is_blank(raw.last()) {
                Ok(done)
            } else {
                match wxid_of(trimmed(raw.last())) {
                    Err(reason) => Err(reason),
                    Ok(id) => if done.contains(id) {
                        Ok(done)
                    } else {
                        Ok(done.push(id))
                    },
                }
            },
        }
    }
}

/// The mention list of a configuration: none where none was given or where
/// nothing is left of it.
pub open spec fn mention_list_of(raw: Option<Seq<Seq<char>>>) -> Result<
    Option<Seq<Seq<char>>>,
    WxIdValidationError,
> {
    match raw {
        None => Ok(None),
        Some(entries) => match at_list_of(entries) {
            Err(reason) => Err(reason),
            Ok(list) => if list.len() == 0 {
                Ok(None)
            } else {
                Ok(Some(list))
            },
        },
    }
}

/// The views of an optional list of strings.
pub open spec fn opt_views(o: Option<Vec<String>>) -> Option<Seq<Seq<char>>> {
    match o {
        Some(v) => Some(views(v@)),
        None => None,
    }
}

/// The views of an optional list of identifiers.
pub open spec fn opt_wxid_views(o: Option<Vec<WxId>>) -> Option<Seq<Seq<char>>> {
    match o {
        Some(v) => Some(wxid_views(v@)),
        None => None,
    }
}

/// A mention list holds valid identifiers and none of them twice.
pub proof fn lemma_at_list_is_a_set(raw: Seq<Seq<char>>)
    ensures
        at_list_of(raw) matches Ok(list) ==> list.no_duplicates() && forall|i: int|
            0 <= i < list.len() ==> valid_wxid(#[trigger] list[i]),
    decreases raw.len(),
{
    if raw.len() > 0 {
        lemma_at_list_is_a_set(raw.drop_last());
        lemma_wxid_of_is_valid(trimmed(raw.last()));
    }
}

fn holds(list: &Vec<WxId>, id: &WxId) -> (r: bool)
    ensures
        r == wxid_views(list@).contains(id@),
{
    let mut i: usize = 0;
    while i < list.len()
        invariant
            i <= list.len(),
            forall|k: int| 0 <= k < i ==> wxid_views(list@)[k] != id@,
        decreases list.len() - i,
    {
        if same_text(list[i].as_str(), id.as_str()) {
            assert(wxid_views(list@)[i as int] == id@);
            return true;
        }
        i += 1;
    }
    false
}

/// Validates the raw mention list of a configuration.
pub fn parse_at_list(raw: Option<Vec<String>>) -> (r: Result<Option<Vec<WxId>>, GeweNoticeError>)
    ensures
        match r {
            Ok(list) => mention_list_of(opt_views(raw)) == Ok::<
                Option<Seq<Seq<char>>>,
                WxIdValidationError,
            >(opt_wxid_views(list)),
            Err(e) => mention_list_of(opt_views(raw)) is Err && e@ == GeweNoticeErrorView::Config(
                ConfigValidationErrorView::InvalidWxId {
                    reason: mention_list_of(opt_views(raw))->Err_0,
                },
            ),
        },
{
    match raw {
        Some(list) => {
            let ghost texts = views(list@);
            let mut validated: Vec<WxId> = Vec::new();
            let mut i: usize = 0;
            assert(wxid_views(validated@) =~= Seq::<Seq<char>>::empty());
            while i < list.len()
                invariant
                    i <= list.len(),
                    texts == views(list@),
                    opt_views(raw) == Some(texts),
                    at_list_of(texts.take(i as int)) == Ok::<Seq<Seq<char>>, WxIdValidationError>(
                        wxid_views(validated@),
                    ),
                decreases list.len() - i,
            {
                let ghost before = wxid_views(validated@);
                let ghost next = texts.take(i + 1);
                assert(next.drop_last() =~= texts.take(i as int));
                let trimmed_entry = trim(list[i].as_str());
                if trimmed_entry.as_str().unicode_len() != 0 {
                    match WxId::new(trimmed_entry) {
                        Ok(id) => {
                            if !holds(&validated, &id) {
                                validated.push(id);
                                assert(wxid_views(validated@) =~= before.push(id@));
                            }
                        },
                        Err(e) => {
                            proof {
                                lemma_at_list_fails_on(texts, i as int);
                            }
                            return Err(e);
                        },
                    }
                }
                i += 1;
            }
            assert(texts.take(list.len() as int) =~= texts);
            if validated.len() == 0 {
                Ok(None)
            } else {
                Ok(Some(validated))
            }
        },
        None => Ok(None),
    }
}

/// Where the entries before `i` are accepted and entry `i` is refused, the
/// whole list is refused for the reason that entry `i` gives.
proof fn lemma_at_list_fails_on(raw: Seq<Seq<char>>, i: int)
    requires
        0 <= i < raw.len(),
        at_list_of(raw.take(i)) is Ok,
        !is_blank(raw[i]),
        wxid_of(trimmed(raw[i])) is Err,
    ensures
        at_list_of(raw) == Err::<Seq<Seq<char>>, WxIdValidationError>(
            wxid_of(trimmed(raw[i]))->Err_0,
        ),
    decreases raw.len(),
{
    if i < raw.len() - 1 {
        assert(raw.drop_last().take(i) =~= raw.take(i));
        lemma_at_list_fails_on(raw.drop_last(), i);
    }
}

/// Where the cache server takes uploads.
#[derive(Debug, Clone)]
pub struct ServerUploadConfig {
    /// The upload endpoint, as the URL parser writes it back.
    pub endpoint: String,
    pub api_key: Option<String>,
}

/// Where the object storage takes uploads.
#[derive(Debug, Clone)]
pub struct S3UploadConfig {
    pub bucket: String,
    pub region: String,
    pub prefix: Option<String>,
    pub endpoint: Option<String>,
}

/// How files reach a place that the backend can fetch them from.
#[derive(Debug, Clone)]
pub enum UploadConfig {
    /// No upload is configured: files cannot be sent.
    Disabled,
    Server(ServerUploadConfig),
    S3(S3UploadConfig),
}

/// What a `UploadConfig` is in contracts: its strings are sequences of characters.
#[allow(inconsistent_fields)]
pub enum UploadConfigView {
    Disabled,
    Server { endpoint: Seq<char>, api_key: Option<Seq<char>> },
    S3 { bucket: Seq<char>, region: Seq<char>, prefix: Option<Seq<char>>, endpoint: Option<Seq<char>> },
}

impl View for UploadConfig {
    type V = UploadConfigView;

    open spec fn view(&self) -> UploadConfigView {
        match self {
            UploadConfig::Disabled => UploadConfigView::Disabled,
            UploadConfig::Server(c) => UploadConfigView::Server {
                endpoint: c.endpoint@,
                api_key: opt_view(c.api_key),
            },
            UploadConfig::S3(c) => UploadConfigView::S3 {
                bucket: c.bucket@,
                region: c.region@,
                prefix: opt_view(c.prefix),
                endpoint: opt_view(c.endpoint),
            },
        }
    }
}

/// The setting that names the upload endpoint of the cache server.
pub const FIELD_SERVER_URL: &'static str = "GEWE_NOTICE_UPLOAD_SERVER_URL";

/// The setting that names the bucket.
pub const FIELD_S3_BUCKET: &'static str = "GEWE_NOTICE_S3_BUCKET";

/// The setting that names the region.
pub const FIELD_S3_REGION: &'static str = "GEWE_NOTICE_S3_REGION";

/// What is said of upload settings that come without a mode.
pub const CONFLICT_WITHOUT_MODE: &'static str = "未指定 GEWE_NOTICE_UPLOAD_MODE，但存在上传相关配置";

/// What is said of object-storage settings in cache-server mode.
pub const CONFLICT_SERVER_WITH_S3: &'static str = "server 模式下不应设置 S3 相关环境变量";

/// What is said of cache-server settings in object-storage mode.
pub const CONFLICT_S3_WITH_SERVER: &'static str = "s3 模式下不应设置上传服务器相关环境变量";

/// Whether a setting is given and not blank.
pub open spec fn has_text(o: Option<Seq<char>>) -> bool {
    o matches Some(s) && !is_blank(s)
}

/// The upload mode that a setting names: trimmed and in lower case; none
/// where it is missing or blank.
pub open spec fn upload_mode_of(mode: Option<Seq<char>>) -> Option<Seq<char>> {
    match trimmed_text(mode) {
        Some(m) => Some(lowered(m)),
        None => None,
    }
}

/// The object-key prefix that a setting names: trimmed, then without
/// slashes at its ends.
pub open spec fn prefix_of(prefix: Option<Seq<char>>) -> Option<Seq<char>> {
    match trimmed_text(prefix) {
        Some(p) => Some(strip(p, only('/'))),
        None => None,
    }
}

/// Whether a URL, written back by the parser, has the scheme `http` or
/// `https`: a URL is written back beginning with its scheme and a colon.
pub open spec fn is_web_url(url: Seq<char>) -> bool {
    starts_with_seq(url, "http:"@) || starts_with_seq(url, "https:"@)
}

/// The cache-server upload configuration that the settings make: the URL
/// of the endpoint must be one that the parser accepts, with the scheme
/// `http` or `https`.
pub open spec fn server_upload_of(
    server_url: Option<Seq<char>>,
    server_api_key: Option<Seq<char>>,
    has_s3_fields: bool,
) -> Result<UploadConfigView, ConfigValidationErrorView> {
    if has_s3_fields {
        Err(ConfigValidationErrorView::ConflictingUploadConfig { reason: CONFLICT_SERVER_WITH_S3@ })
    } else {
        match server_url {
            None => Err(ConfigValidationErrorView::MissingUploadField { field: FIELD_SERVER_URL@ }),
            Some(raw) => match parsed_url(trimmed(raw)) {
                Some(text) => if is_web_url(text) {
                    Ok(
                        UploadConfigView::Server {
                            endpoint: text,
                            api_key: trimmed_text(server_api_key),
                        },
                    )
                } else {
                    Err(ConfigValidationErrorView::InvalidUrl { value: raw })
                },
                None => Err(ConfigValidationErrorView::InvalidUrl { value: raw }),
            },
        }
    }
}

/// The object-storage upload configuration that the settings make.
pub open spec fn s3_upload_of(
    has_server_fields: bool,
    s3_bucket: Option<Seq<char>>,
    s3_region: Option<Seq<char>>,
    s3_prefix: Option<Seq<char>>,
    s3_endpoint: Option<Seq<char>>,
) -> Result<UploadConfigView, ConfigValidationErrorView> {
    if has_server_fields {
        Err(ConfigValidationErrorView::ConflictingUploadConfig { reason: CONFLICT_S3_WITH_SERVER@ })
    } else {
        match (trimmed_text(s3_bucket), trimmed_text(s3_region), trimmed_text(s3_endpoint)) {
            (None, _, _) => Err(
                ConfigValidationErrorView::MissingUploadField { field: FIELD_S3_BUCKET@ },
            ),
            (Some(_), None, _) => Err(
                ConfigValidationErrorView::MissingUploadField { field: FIELD_S3_REGION@ },
            ),
            (Some(bucket), Some(region), endpoint) => if endpoint matches Some(e) && parsed_url(e) is None {
                Err(ConfigValidationErrorView::InvalidUrl { value: endpoint->0 })
            } else {
                Ok(UploadConfigView::S3 { bucket, region, prefix: prefix_of(s3_prefix), endpoint })
            },
        }
    }
}

/// The upload configuration that the seven upload settings make, or the
/// reason why they make none. Without a mode no other upload setting may be
/// given; with one, none that belongs to the other mode.
pub open spec fn upload_config_of(
    mode: Option<Seq<char>>,
    server_url: Option<Seq<char>>,
    server_api_key: Option<Seq<char>>,
    s3_bucket: Option<Seq<char>>,
    s3_region: Option<Seq<char>>,
    s3_prefix: Option<Seq<char>>,
    s3_endpoint: Option<Seq<char>>,
) -> Result<UploadConfigView, ConfigValidationErrorView> {
    let has_server_fields = has_text(server_url) || has_text(server_api_key);
    let has_s3_fields = has_text(s3_bucket) || has_text(s3_region) || has_text(s3_prefix) || has_text(
        s3_endpoint,
    );
    match upload_mode_of(mode) {
        None => if has_server_fields || has_s3_fields {
            Err(ConfigValidationErrorView::ConflictingUploadConfig { reason: CONFLICT_WITHOUT_MODE@ })
        } else {
            Ok(UploadConfigView::Disabled)
        },
        Some(m) => if m == "server"@ {
            server_upload_of(server_url, server_api_key, has_s3_fields)
        } else if m == "s3"@ {
            s3_upload_of(has_server_fields, s3_bucket, s3_region, s3_prefix, s3_endpoint)
        } else {
            Err(ConfigValidationErrorView::InvalidUploadMode { value: m })
        },
    }
}

impl UploadConfig {
    /// Validates the seven upload settings.
    pub fn from_parts(
        mode: Option<String>,
        server_url: Option<String>,
        server_api_key: Option<String>,
        s3_bucket: Option<String>,
        s3_region: Option<String>,
        s3_prefix: Option<String>,
        s3_endpoint: Option<String>,
    ) -> (r: Result<Self, ConfigValidationError>)
        ensures
            match r {
                Ok(c) => upload_config_of(
                    opt_view(mode),
                    opt_view(server_url),
                    opt_view(server_api_key),
                    opt_view(s3_bucket),
                    opt_view(s3_region),
                    opt_view(s3_prefix),
                    opt_view(s3_endpoint),
                ) == Ok::<UploadConfigView, ConfigValidationErrorView>(c@),
                Err(e) => upload_config_of(
                    opt_view(mode),
                    opt_view(server_url),
                    opt_view(server_api_key),
                    opt_view(s3_bucket),
                    opt_view(s3_region),
                    opt_view(s3_prefix),
                    opt_view(s3_endpoint),
                ) == Err::<UploadConfigView, ConfigValidationErrorView>(e@),
            },
    {
        let api_key = trim_option(&server_api_key);
        let bucket = trim_option(&s3_bucket);
        let region = trim_option(&s3_region);
        let prefix = trim_option(&s3_prefix);
        let endpoint = trim_option(&s3_endpoint);
        let has_server_fields = trim_option(&server_url).is_some() || api_key.is_some();
        let has_s3_fields = bucket.is_some() || region.is_some() || prefix.is_some()
            || endpoint.is_some();
        let mode = match trim_option(&mode) {
            Some(m) => Some(to_ascii_lowercase(m.as_str())),
            None => None,
        };
        match mode {
            None => {
                if has_server_fields || has_s3_fields {
                    return Err(
                        ConfigValidationError::ConflictingUploadConfig {
                            reason: CONFLICT_WITHOUT_MODE.to_string(),
                        },
                    );
                }
                Ok(UploadConfig::Disabled)
            },
            Some(m) => {
                if same_text(m.as_str(), "server") {
                    if has_s3_fields {
                        return Err(
                            ConfigValidationError::ConflictingUploadConfig {
                                reason: CONFLICT_SERVER_WITH_S3.to_string(),
                            },
                        );
                    }
                    let endpoint_raw = match server_url {
                        Some(u) => u,
                        None => {
                            return Err(
                                ConfigValidationError::MissingUploadField { field: FIELD_SERVER_URL },
                            );
                        },
                    };
                    let endpoint_trimmed = trim(endpoint_raw.as_str());
                    match parse_url(endpoint_trimmed.as_str()) {
                        Some(endpoint) => {
                            if !starts_with(endpoint.as_str(), "http:") && !starts_with(
                                endpoint.as_str(),
                                "https:",
                            ) {
                                return Err(ConfigValidationError::InvalidUrl { value: endpoint_raw });
                            }
                            Ok(UploadConfig::Server(ServerUploadConfig { endpoint, api_key }))
                        },
                        None => Err(ConfigValidationError::InvalidUrl { value: endpoint_raw }),
                    }
                } else if same_text(m.as_str(), "s3") {
                    if has_server_fields {
                        return Err(
                            ConfigValidationError::ConflictingUploadConfig {
                                reason: CONFLICT_S3_WITH_SERVER.to_string(),
                            },
                        );
                    }
                    let bucket = match bucket {
                        Some(b) => b,
                        None => {
                            return Err(
                                ConfigValidationError::MissingUploadField { field: FIELD_S3_BUCKET },
                            );
                        },
                    };
                    let region = match region {
                        Some(r) => r,
                        None => {
                            return Err(
                                ConfigValidationError::MissingUploadField { field: FIELD_S3_REGION },
                            );
                        },
                    };
                    let prefix = match prefix {
                        Some(p) => Some(trim_matches(p.as_str(), '/')),
                        None => None,
                    };
                    match endpoint {
                        Some(e) => {
                            if parse_url(e.as_str()).is_none() {
                                return Err(ConfigValidationError::InvalidUrl { value: e });
                            }
                            Ok(
                                UploadConfig::S3(
                                    S3UploadConfig { bucket, region, prefix, endpoint: Some(e) },
                                ),
                            )
                        },
                        None => Ok(
                            UploadConfig::S3(S3UploadConfig { bucket, region, prefix, endpoint: None }),
                        ),
                    }
                } else {
                    Err(ConfigValidationError::InvalidUploadMode { value: m })
                }
            },
        }
    }
}

/// The settings as they come from the command line and the environment,
/// before any of them is validated.
#[derive(Debug, Clone)]
pub struct RawConfig {
    pub base_url: String,
    pub token: String,
    pub app_id: String,
    pub wxid: String,
    pub at_list: Option<Vec<String>>,
    pub upload_mode: Option<String>,
    pub upload_server_url: Option<String>,
    pub upload_server_api_key: Option<String>,
    pub s3_bucket: Option<String>,
    pub s3_region: Option<String>,
    pub s3_prefix: Option<String>,
    pub s3_endpoint: Option<String>,
}

/// A validated configuration.
#[derive(Debug, Clone)]
pub struct Config {
    pub base_url: String,
    pub token: ValidatedToken,
    pub app_id: AppId,
    pub wxid: WxId,
    pub at_list: Option<Vec<WxId>>,
    pub upload: UploadConfig,
}

/// What a `Config` is in contracts: its strings are sequences of characters.
pub struct ConfigView {
    pub base_url: Seq<char>,
    pub token: u128,
    pub app_id: Seq<char>,
    pub wxid: Seq<char>,
    pub at_list: Option<Seq<Seq<char>>>,
    pub upload: UploadConfigView,
}

impl View for Config {
    type V = ConfigView;

    open spec fn view(&self) -> ConfigView {
        ConfigView {
            base_url: self.base_url@,
            token: self.token@,
            app_id: self.app_id@,
            wxid: self.wxid@,
            at_list: opt_wxid_views(self.at_list),
            upload: self.upload@,
        }
    }
}

impl RawConfig {
    /// The upload configuration that these settings make.
    pub open spec fn upload(&self) -> Result<UploadConfigView, ConfigValidationErrorView> {
        upload_config_of(
            opt_view(self.upload_mode),
            opt_view(self.upload_server_url),
            opt_view(self.upload_server_api_key),
            opt_view(self.s3_bucket),
            opt_view(self.s3_region),
            opt_view(self.s3_prefix),
            opt_view(self.s3_endpoint),
        )
    }

    /// The configuration that these settings make, or the first reason why
    /// they make none: the upload settings are judged first, then the token,
    /// the application, the recipient and the mention list.
    pub open spec fn validated(&self) -> Result<ConfigView, GeweNoticeErrorView> {
        match self.upload() {
            Err(e) => Err(GeweNoticeErrorView::Config(e)),
            Ok(upload) => match parsed_uuid(self.token@) {
                Err(words) => Err(
                    GeweNoticeErrorView::Config(
                        ConfigValidationErrorView::InvalidToken {
                            reason: TokenValidationErrorView::ParseError(words),
                        },
                    ),
                ),
                Ok(token) => if !valid_app_id(self.app_id@) {
                    Err(
                        GeweNoticeErrorView::Config(
                            ConfigValidationErrorView::InvalidAppId { value: self.app_id@ },
                        ),
                    )
                } else {
                    match (wxid_of(self.wxid@), mention_list_of(opt_views(self.at_list))) {
                        (Err(reason), _) => Err(
                            GeweNoticeErrorView::Config(
                                ConfigValidationErrorView::InvalidWxId { reason },
                            ),
                        ),
                        (Ok(_), Err(reason)) => Err(
                            GeweNoticeErrorView::Config(
                                ConfigValidationErrorView::InvalidWxId { reason },
                            ),
                        ),
                        (Ok(wxid), Ok(at_list)) => Ok(
                            ConfigView {
                                base_url: self.base_url@,
                                token,
                                app_id: self.app_id@,
                                wxid,
                                at_list,
                                upload,
                            },
                        ),
                    }
                },
            },
        }
    }
}

/// `value` with all but its first `show_first` and last `show_last` bytes
/// replaced by four stars; four stars alone where nothing would be hidden.
pub open spec fn redacted(value: Seq<char>, show_first: int, show_last: int) -> Seq<char> {
    let bytes = encode_utf8(value);
    if bytes.len() <= show_first + show_last {
        "****"@
    } else {
        decode_utf8(bytes.take(show_first)) + "****"@ + decode_utf8(
            bytes.skip(bytes.len() - show_last),
        )
    }
}

impl Config {
    /// Validates raw settings.
    pub fn from_raw(raw: RawConfig) -> (r: Result<Self, GeweNoticeError>)
        ensures
            match r {
                Ok(c) => raw.validated() == Ok::<ConfigView, GeweNoticeErrorView>(c@),
                Err(e) => raw.validated() == Err::<ConfigView, GeweNoticeErrorView>(e@),
            },
    {
        let upload = match UploadConfig::from_parts(
            raw.upload_mode,
            raw.upload_server_url,
            raw.upload_server_api_key,
            raw.s3_bucket,
            raw.s3_region,
            raw.s3_prefix,
            raw.s3_endpoint,
        ) {
            Ok(upload) => upload,
            Err(e) => {
                return Err(GeweNoticeError::Config(e));
            },
        };
        let token = match ValidatedToken::new(raw.token.as_str()) {
            Ok(token) => token,
            Err(e) => {
                return Err(e);
            },
        };
        let app_id = match AppId::new(raw.app_id) {
            Ok(app_id) => app_id,
            Err(e) => {
                return Err(e);
            },
        };
        let wxid = match WxId::new(raw.wxid) {
            Ok(wxid) => wxid,
            Err(e) => {
                return Err(e);
            },
        };
        let at_list = match parse_at_list(raw.at_list) {
            Ok(at_list) => at_list,
            Err(e) => {
                return Err(e);
            },
        };
        Ok(Config { base_url: raw.base_url, token, app_id, wxid, at_list, upload })
    }

    /// Whether the recipient is a group.
    pub fn is_chatroom(&self) -> (r: bool)
        ensures
            r == contains_seq(self@.wxid, chatroom_suffix()),
    {
        self.wxid.is_chatroom()
    }

    /// Hides the middle of `value` for a log line. The two cuts must fall
    /// between characters.
    pub fn redact(&self, value: &str, show_first: usize, show_last: usize) -> (r: String)
        requires
            show_first + show_last <= usize::MAX,
            value.spec_bytes().len() > show_first + show_last ==> is_char_boundary(
                value.spec_bytes(),
                show_first as int,
            ) && is_char_boundary(value.spec_bytes(), value.spec_bytes().len() - show_last),
        ensures
            r@ == redacted(value@, show_first as int, show_last as int),
    {
        let n = value.as_bytes().len();
        if n <= show_first + show_last {
            "****".to_string()
        } else {
            let (head, _) = value.split_at(show_first);
            let (_, tail) = value.split_at(n - show_last);
            proof {
                encode_utf8_decode_utf8(head@);
                encode_utf8_decode_utf8(tail@);
            }
            let front = append(head, "****");
            append(front.as_str(), tail)
        }
    }

    /// The mention list as plain strings.
    pub fn normalized_at_list(&self) -> (r: Option<Vec<String>>)
        ensures
            opt_views(r) == self@.at_list,
    {
        match &self.at_list {
            Some(list) => {
                let mut out: Vec<String> = Vec::new();
                let mut i: usize = 0;
                while i < list.len()
                    invariant
                        i <= list.len(),
                        out.len() == i,
                        forall|k: int| 0 <= k < i ==> out@[k]@ == list@[k]@,
                    decreases list.len() - i,
                {
                    out.push(list[i].as_str().to_string());
                    i += 1;
                }
                Some(out)
            },
            None => None,
        }
    }

    /// The token in the form that the backend expects in its header.
    pub fn token_str(&self) -> (r: String)
        ensures
            r@ == uuid_text(self@.token),
    {
        self.token.as_str()
    }

    /// The application identifier as text.
    pub fn app_id_str(&self) -> (r: &str)
        ensures
            r@ == self@.app_id,
    {
        self.app_id.as_str()
    }

    /// The recipient as text.
    pub fn wxid_str(&self) -> (r: &str)
        ensures
            r@ == self@.wxid,
    {
        self.wxid.as_str()
    }
}

} // verus!
