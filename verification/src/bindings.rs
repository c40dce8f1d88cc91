//! The library's bindings to the crates it builds on, and to the few
//! functions of the standard library that it needs and cannot specify itself.
//!
//! Each function here makes its call and does nothing else. Its contract is
//! taken from the source or the documentation of what it calls and is not
//! proved: the doc comment says what is claimed.
use vstd::prelude::*;
use vstd::string::StringSliceAdditionalSpecFns;

verus! {

/// What `char::is_whitespace` answers for `c`: whether `c` has the Unicode
/// property `White_Space`.
pub uninterp spec fn is_whitespace(c: char) -> bool;

/// Calls `char::is_whitespace`. The answer is named, not spelled out: the set
/// of white-space characters is fixed by the Unicode tables that std ships.
#[verifier::external_body]
pub(crate) fn char_is_whitespace(c: char) -> (r: bool)
    ensures
        r == is_whitespace(c),
{
    c.is_whitespace()
}

/// Calls `String::from_iter` on the characters of `v`: the string made of
/// exactly these characters, in order.
#[verifier::external_body]
pub(crate) fn string_of(v: &Vec<char>) -> (s: String)
    ensures
        s@ == v@,
{
    String::from_iter(v.iter())
}

/// How std writes a duration of `ms` milliseconds through `Debug`: the
/// number with its unit, as in `1.5s` or `100ms`.
pub uninterp spec fn duration_text(ms: u64) -> Seq<char>;

/// Formats `std::time::Duration::from_millis(ms)` with its `Debug` impl.
#[verifier::external_body]
pub(crate) fn duration_debug(ms: u64) -> (r: String)
    ensures
        r@ == duration_text(ms),
{
    format!("{:?}", std::time::Duration::from_millis(ms))
}

/// How std writes the text `s` through `Debug`: between double quotes, with
/// the characters that need it escaped.
pub uninterp spec fn quoted_text(s: Seq<char>) -> Seq<char>;

/// Formats `s` with the `Debug` impl of `str`.
#[verifier::external_body]
pub(crate) fn str_debug(s: &str) -> (r: String)
    ensures
        r@ == quoted_text(s@),
{
    format!("{:?}", s)
}

/// What `uuid::Uuid::parse_str` makes of the text `s`: the 128-bit value of
/// the UUID that `s` writes, or, where `s` writes none, what the parser says
/// of it through the `Display` of its error.
pub uninterp spec fn parsed_uuid(s: Seq<char>) -> Result<u128, Seq<char>>;

/// Calls `uuid::Uuid::parse_str` and hands out the UUID as its 128-bit value
/// (`Uuid::as_u128`) and the error as its text. The parser is a function of
/// the text alone, so its result is named by `parsed_uuid`.
#[verifier::external_body]
pub(crate) fn parse_uuid(s: &str) -> (r: Result<u128, String>)
    ensures
        match r {
            Ok(v) => parsed_uuid(s@) == Ok::<u128, Seq<char>>(v),
            Err(words) => parsed_uuid(s@) == Err::<u128, Seq<char>>(words@),
        },
{
    match uuid::Uuid::parse_str(s) {
        Ok(uuid) => Ok(uuid.as_u128()),
        Err(error) => Err(error.to_string()),
    }
}

/// The hexadecimal digit, in lower case, for `n`, for `n` below sixteen.
pub open spec fn lower_hex(n: int) -> char {
    if n < 10 {
        ((48 + n) as u8) as char
    } else {
        ((87 + n) as u8) as char
    }
}

/// The hexadecimal digit of `v` at `place`, counted from the most
/// significant of its thirty-two.
pub open spec fn uuid_digit(v: u128, place: int) -> char {
    lower_hex((v as int / vstd::arithmetic::power::pow(16, (31 - place) as nat)) % 16)
}

/// How `uuid::Uuid` writes the UUID of value `v` through `Display`: its
/// thirty-two hexadecimal digits in lower case, most significant first, in
/// groups of eight, four, four, four and twelve with a hyphen between them.
pub open spec fn uuid_text(v: u128) -> Seq<char> {
    Seq::new(
        36,
        |i: int|
            if i == 8 || i == 13 || i == 18 || i == 23 {
                '-'
            } else if i < 8 {
                uuid_digit(v, i)
            } else if i < 13 {
                uuid_digit(v, i - 1)
            } else if i < 18 {
                uuid_digit(v, i - 2)
            } else if i < 23 {
                uuid_digit(v, i - 3)
            } else {
                uuid_digit(v, i - 4)
            },
    )
}

/// Calls `Uuid::from_u128` and formats the result with its `Display` impl,
/// which writes the hyphenated form in lower case.
#[verifier::external_body]
pub(crate) fn format_uuid(v: u128) -> (r: String)
    ensures
        r@ == uuid_text(v),
{
    uuid::Uuid::from_u128(v).to_string()
}

/// What `Url::parse` makes of the text `s`: the URL that `s` writes, as the
/// parser writes it back (`Url::as_str`), or `None` where `s` is no absolute
/// URL.
pub uninterp spec fn parsed_url(s: Seq<char>) -> Option<Seq<char>>;

/// Calls `reqwest::Url::parse` and hands out the URL as the text that it is
/// written back as. The parser is a function of the text alone, so its
/// result is named by `parsed_url`.
#[verifier::external_body]
pub(crate) fn parse_url(s: &str) -> (r: Option<String>)
    ensures
        match r {
            Some(text) => parsed_url(s@) == Some(text@),
            None => parsed_url(s@) is None,
        },
{
    match reqwest::Url::parse(s) {
        Ok(url) => Some(String::from(url)),
        Err(_) => None,
    }
}

/// Calls `rand::random::<u32>()`: a number drawn by the thread's generator.
/// Nothing is claimed of it.
#[verifier::external_body]
pub(crate) fn random_u32() -> u32 {
    rand::random::<u32>()
}

/// Whether `c` is a hexadecimal digit in lower case.
pub open spec fn is_lower_hex(c: char) -> bool {
    ('0' <= c && c <= '9') || ('a' <= c && c <= 'f')
}

/// Whether `s` has the shape of a UUID in simple form: thirty-two
/// hexadecimal digits in lower case and nothing else.
pub open spec fn is_simple_uuid(s: Seq<char>) -> bool {
    s.len() == 32 && forall|i: int| 0 <= i < s.len() ==> is_lower_hex(#[trigger] s[i])
}

/// A fresh identifier: calls `uuid::Uuid::new_v4` and formats the result
/// with `simple()`. The value is random; what is claimed is its shape alone,
/// which is that of every UUID in simple form.
#[verifier::external_body]
pub(crate) fn fresh_id() -> (r: String)
    ensures
        is_simple_uuid(r@),
{
    uuid::Uuid::new_v4().simple().to_string()
}

/// What `sanitize_filename::sanitize_with_options` makes of `name` with the
/// crate's own defaults for truncation and replacement, and with the rules
/// for Windows switched on or off by `windows`.
pub uninterp spec fn sanitized_name(name: Seq<char>, windows: bool) -> Seq<char>;

/// Calls `sanitize_filename::sanitize_with_options`. The options are those
/// of `Options::default()`, which `sanitize_filename::sanitize` uses, but
/// for `windows`: the default takes it from the platform it is compiled for,
/// here the caller says it. With it the result is a function of the
/// arguments alone, and is named by `sanitized_name`.
#[verifier::external_body]
pub(crate) fn sanitize_file_name(name: &str, windows: bool) -> (r: String)
    ensures
        r@ == sanitized_name(name@, windows),
{
    sanitize_filename::sanitize_with_options(
        name,
        sanitize_filename::Options { windows, truncate: true, replacement: "" },
    )
}

/// Whether the byte is an ASCII letter or digit.
pub open spec fn is_ascii_alphanumeric(b: u8) -> bool {
    (0x30 <= b <= 0x39) || (0x41 <= b <= 0x5a) || (0x61 <= b <= 0x7a)
}

/// The upper-case hexadecimal digit for `n`, for `n` below sixteen.
pub open spec fn upper_hex(n: int) -> char {
    if n < 10 {
        ((48 + n) as u8) as char
    } else {
        ((55 + n) as u8) as char
    }
}

/// One byte percent-encoded: an ASCII letter or digit stands for itself,
/// every other byte is written as a percent sign and two hexadecimal digits.
pub open spec fn percent_encoded_byte(b: u8) -> Seq<char> {
    if is_ascii_alphanumeric(b) {
        seq![b as char]
    } else {
        seq!['%', upper_hex(b as int / 16), upper_hex(b as int % 16)]
    }
}

/// The bytes percent-encoded one by one.
pub open spec fn percent_encoded(bytes: Seq<u8>) -> Seq<char>
    decreases bytes.len(),
{
    if bytes.len() == 0 {
        Seq::empty()
    } else {
        percent_encoded(bytes.drop_last()) + percent_encoded_byte(bytes.last())
    }
}

/// Calls `percent_encoding::utf8_percent_encode` with the set
/// `NON_ALPHANUMERIC` and collects what it writes: every byte of the UTF-8
/// form of `text` that is no ASCII letter or digit is percent-encoded.
#[verifier::external_body]
pub(crate) fn percent_encode(text: &str) -> (r: String)
    ensures
        r@ == percent_encoded(text.spec_bytes()),
{
    percent_encoding::utf8_percent_encode(text, percent_encoding::NON_ALPHANUMERIC).to_string()
}

/// The standard base64 form, with padding, of `bytes`.
pub uninterp spec fn base64_encoded(bytes: Seq<u8>) -> Seq<char>;

/// Calls `encode` of `base64::engine::general_purpose::STANDARD`.
#[verifier::external_body]
pub(crate) fn base64_encode(bytes: &[u8]) -> (r: String)
    ensures
        r@ == base64_encoded(bytes@),
{
    base64::Engine::encode(&base64::engine::general_purpose::STANDARD, bytes)
}

/// The error that `base64` returns for a text that it cannot decode.
#[verifier::external_type_specification]
#[verifier::external_body]
pub struct ExDecodeError(base64::DecodeError);

/// The bytes that `text` is the standard base64 form of; `None` where it is
/// the form of none.
pub uninterp spec fn base64_decoded(text: Seq<char>) -> Option<Seq<u8>>;

/// Calls `decode` of `base64::engine::general_purpose::STANDARD`.
#[verifier::external_body]
pub(crate) fn base64_decode(text: &str) -> (r: Result<Vec<u8>, base64::DecodeError>)
    ensures
        match r {
            Ok(bytes) => base64_decoded(text@) == Some(bytes@),
            Err(_) => base64_decoded(text@) is None,
        },
{
    base64::Engine::decode(&base64::engine::general_purpose::STANDARD, text)
}

} // verus!
