//! What comes from elsewhere: base64, URLs, lenient UTF-8 and fresh
//! identifiers.
use base64::engine::general_purpose::STANDARD;
use base64::Engine;
use crate::session_update::optional_text;
use vstd::prelude::*;
use vstd::utf8::*;

verus! {

/// The bytes that the standard base64 engine decodes a text to, or nothing
/// where it refuses the text.
pub uninterp spec fn base64_bytes(text: Seq<char>) -> Option<Seq<u8>>;

/// The text that the standard base64 engine encodes bytes to.
pub uninterp spec fn base64_text(bytes: Seq<u8>) -> Seq<char>;

/// The parts of the URL that `url::Url::parse` reads from a text, or nothing
/// where it refuses the text.
pub uninterp spec fn url_parts(text: Seq<char>) -> Option<UrlModel>;

/// The ASCII form that the `url` crate gives the origin of a URL.
pub uninterp spec fn origin_text(text: Seq<char>) -> Seq<char>;

/// The text that `String::from_utf8_lossy` makes of bytes.
pub uninterp spec fn lossy_text(bytes: Seq<u8>) -> Seq<char>;

/// Where `std::str::from_utf8` stops: how many bytes are good, and whether the
/// bytes end in the middle of a character. Nothing where all bytes are good.
pub uninterp spec fn utf8_stop(bytes: Seq<u8>) -> Option<(usize, bool)>;

/// Whether what is decoded from a text is the bytes that the text encodes, where
/// it encodes any.
pub open spec fn undoes_encoding(text: Seq<char>, decoded: Option<Seq<u8>>) -> bool {
    forall|bytes: Seq<u8>| #[trigger] base64_text(bytes) == text ==> decoded == Some(bytes)
}

/// Decodes with `base64::Engine::decode` of the standard engine. The outcome
/// depends on the text alone. A text that the engine encodes some bytes to is
/// decoded to those bytes; which other texts are accepted is not stated.
#[verifier::external_body]
pub(crate) fn decode_base64(text: &str) -> (bytes: Option<Vec<u8>>)
    ensures
        match bytes {
            Some(bytes) => base64_bytes(text@) == Some(bytes@),
            None => base64_bytes(text@) is None,
        },
        undoes_encoding(
            text@,
            match bytes {
                Some(bytes) => Some(bytes@),
                None => None,
            },
        ),
{
    STANDARD.decode(text).ok()
}

/// Encodes with `base64::Engine::encode` of the standard engine, which pads.
/// The same engine decodes the text to the bytes again. A slice is never so
/// long that the length of its encoding overflows.
#[verifier::external_body]
pub(crate) fn encode_base64(bytes: &[u8]) -> (text: String)
    ensures
        text@ == base64_text(bytes@),
        base64_bytes(text@) == Some(bytes@),
{
    STANDARD.encode(bytes)
}

/// The parts of a URL. The domain is there where the host is a name and no IP
/// address.
pub struct UrlParts {
    pub scheme: String,
    pub username: String,
    pub password: Option<String>,
    pub host: Option<String>,
    pub domain: Option<String>,
    pub path: String,
    pub query: Option<String>,
    pub fragment: Option<String>,
}

#[verifier::ext_equal]
pub struct UrlModel {
    pub scheme: Seq<char>,
    pub username: Seq<char>,
    pub password: Option<Seq<char>>,
    pub host: Option<Seq<char>>,
    pub domain: Option<Seq<char>>,
    pub path: Seq<char>,
    pub query: Option<Seq<char>>,
    pub fragment: Option<Seq<char>>,
}

impl View for UrlParts {
    type V = UrlModel;

    open spec fn view(&self) -> UrlModel {
        UrlModel {
            scheme: self.scheme@,
            username: self.username@,
            password: optional_text(self.password),
            host: optional_text(self.host),
            domain: optional_text(self.domain),
            path: self.path@,
            query: optional_text(self.query),
            fragment: optional_text(self.fragment),
        }
    }
}

/// Whether a text is a URL.
pub open spec fn is_url(text: Seq<char>) -> bool {
    url_parts(text) is Some
}

/// Reads a text with `url::Url::parse` and takes the URL apart with the
/// methods of `url::Url` that are named like the fields, `host_str` for the
/// host. The outcome depends on the text alone; which texts are accepted is not
/// stated.
#[verifier::external_body]
pub(crate) fn read_url(text: &str) -> (parts: Option<UrlParts>)
    ensures
        match parts {
            Some(parts) => url_parts(text@) == Some(parts@),
            None => url_parts(text@) is None,
        },
{
    let url = url::Url::parse(text).ok()?;
    Some(UrlParts {
        scheme: url.scheme().to_string(),
        username: url.username().to_string(),
        password: url.password().map(String::from),
        host: url.host_str().map(String::from),
        domain: url.domain().map(String::from),
        path: url.path().to_string(),
        query: url.query().map(String::from),
        fragment: url.fragment().map(String::from),
    })
}

/// Gives the origin of a web URL with `url::Url::origin` and
/// `url::Origin::ascii_serialization`. The outcome depends on the text alone;
/// its form is not stated.
#[verifier::external_body]
pub(crate) fn write_origin(text: &str) -> (origin: String)
    requires
        url_parts(text@) matches Some(url) && (url.scheme == "http"@ || url.scheme == "https"@),
    ensures
        origin@ == origin_text(text@),
{
    url::Url::parse(text).map(|url| url.origin().ascii_serialization()).unwrap_or_default()
}

/// Decodes with `String::from_utf8_lossy`: bytes that are UTF-8 become the text
/// that they encode. What stands for other bytes is not stated.
#[verifier::external_body]
pub(crate) fn decode_lossy(bytes: &[u8]) -> (text: String)
    ensures
        text@ == lossy_text(bytes@),
        valid_utf8(bytes@) ==> encode_utf8(text@) == bytes@,
{
    String::from_utf8_lossy(bytes).into_owned()
}

/// Checks with `std::str::from_utf8`: the bytes before the stop are UTF-8 and no
/// more of them are, there is no stop exactly where all of the bytes are, and at
/// most three bytes are left of a character that is not complete.
#[verifier::external_body]
pub(crate) fn check_utf8(bytes: &[u8]) -> (stop: Option<(usize, bool)>)
    ensures
        stop == utf8_stop(bytes@),
        stop is None == valid_utf8(bytes@),
        stop matches Some(at) ==> at.0 <= bytes@.len() && valid_utf8(bytes@.take(at.0 as int)) && (
        forall|n: int|
            at.0 < n <= bytes@.len() ==> !valid_utf8(#[trigger] bytes@.take(n))) && (at.1
            ==> at.0 < bytes@.len() <= at.0 + 3),
{
    std::str::from_utf8(bytes).err().map(|e| (e.valid_up_to(), e.error_len().is_none()))
}

/// Whether a text has the form of a random UUID: hexadecimal digits in groups
/// with hyphens between, and the version digit.
pub open spec fn is_uuid_text(text: Seq<char>) -> bool {
    &&& text.len() == 36
    &&& text[14] == '4'
    &&& forall|i: int|
        0 <= i < 36 ==> if i == 8 || i == 13 || i == 18 || i == 23 {
            (#[trigger] text[i]) == '-'
        } else {
            ('0' <= text[i] <= '9') || ('a' <= text[i] <= 'f')
        }
}

/// Makes an identifier with `uuid::Uuid::new_v4` and writes it with its
/// `Display`, which gives lower-case digits in the hyphenated form. Which
/// digits is left to chance, so only the form is stated.
#[verifier::external_body]
pub(crate) fn fresh_uuid() -> (text: String)
    ensures
        is_uuid_text(text@),
{
    uuid::Uuid::new_v4().to_string()
}

} // verus!
