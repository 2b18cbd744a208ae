//! Validation of what an Agent sends: content blocks, session controls,
//! session updates and permission requests.
use crate::codec::{base64_text, decode_base64, encode_base64, is_url, read_url};
use crate::json::{items_model, json_model, shown, shown_text, text_of_json, Json, JsonModel};
use crate::text::{
    characters, equal_ignoring_case, has_char, is_text, join2, join3, join4, parts_view,
    same_ignoring_case, same_text, split, split_chars, split_chars_once, split_once,
};
use vstd::prelude::*;
use vstd::string::*;
use vstd::utf8::*;

verus! {

/// The largest integer that JavaScript numbers hold exactly.
pub const MAX_SAFE_INTEGER: u64 = 9_007_199_254_740_991;

/// The largest line number of a tool location.
pub const MAX_TOOL_LOCATION_LINE: u64 = 4_294_967_295;

/// The outcome of a validation: an error is a message for the user.
pub type ValidationResult<T = ()> = Result<T, String>;

/// The message of a failed validation.
pub open spec fn problem_of(result: ValidationResult) -> Option<Seq<char>> {
    match result {
        Ok(_) => None,
        Err(message) => Some(message@),
    }
}

/// The first of two problems.
pub open spec fn first(a: Option<Seq<char>>, b: Option<Seq<char>>) -> Option<Seq<char>> {
    if a is Some {
        a
    } else {
        b
    }
}

/// The first problem among numbered checks.
pub open spec fn first_of(
    count: nat,
    check: spec_fn(int) -> Option<Seq<char>>,
) -> Option<Seq<char>>
    decreases count,
{
    if count == 0 {
        None
    } else {
        first(first_of((count - 1) as nat, check), check(count - 1))
    }
}

/// The first problem among some is the first among more.
pub proof fn lemma_first_of_stays(
    count: nat,
    more: nat,
    check: spec_fn(int) -> Option<Seq<char>>,
)
    requires
        count <= more,
        first_of(count, check) is Some,
    ensures
        first_of(more, check) == first_of(count, check),
    decreases more,
{
    if count < more {
        lemma_first_of_stays(count, (more - 1) as nat, check);
    }
}

/// The size of a value as JSON text, in bytes.
pub open spec fn json_size(value: JsonModel) -> nat {
    encode_utf8(text_of_json(value)).len()
}

/// The size of a value as JSON text, in bytes.
pub fn serialized_bytes(value: &Json) -> (size: ValidationResult<usize>)
    ensures
        size matches Ok(bytes) && bytes == json_size(value@),
{
    Ok(value.to_text().as_str().as_bytes().len())
}

/// What is wrong with a field that must hold a text.
pub open spec fn missing_text(value: JsonModel, field: Seq<char>, subject: Seq<char>) -> Option<
    Seq<char>,
> {
    if value.text_at(field) is Some {
        None
    } else {
        Some(subject + " "@ + field + " must be a string"@)
    }
}

/// The text that a field holds; the empty text where it holds none.
pub open spec fn the_text(value: JsonModel, field: Seq<char>) -> Seq<char> {
    match value.text_at(field) {
        Some(text) => text,
        None => Seq::empty(),
    }
}

/// What is wrong with a field that may be missing, null or a text.
pub open spec fn bad_optional_text(value: JsonModel, field: Seq<char>, subject: Seq<char>) -> Option<
    Seq<char>,
> {
    if value.some_at(field) matches Some(held) && !(held is String) {
        Some(subject + " "@ + field + " must be a string or null"@)
    } else {
        None
    }
}

pub(crate) fn required_string<'a>(value: &'a Json, field: &str, subject: &str) -> (text: ValidationResult<&'a str>)
    ensures
        match text {
            Ok(text) => value@.text_at(field@) == Some(text@) && missing_text(
                value@,
                field@,
                subject@,
            ) is None,
            Err(message) => missing_text(value@, field@, subject@) == Some(message@),
        },
{
    match value.text_at(field) {
        Some(text) => Ok(text),
        None => Err(join4(subject, " ", field, " must be a string")),
    }
}

pub(crate) fn optional_string<'a>(value: &'a Json, field: &str, subject: &str) -> (text: ValidationResult<
    Option<&'a str>,
>)
    ensures
        match text {
            Ok(text) => value@.text_at(field@) == shown_text(text) && bad_optional_text(
                value@,
                field@,
                subject@,
            ) is None,
            Err(message) => bad_optional_text(value@, field@, subject@) == Some(message@),
        },
{
    match value.some_at(field) {
        None => {
            let held = value.text_at(field);
            match value.get(field) {
                Some(held) => {
                    assert(held@ is Null);
                },
                None => {},
            }
            Ok(held)
        },
        Some(held) => match held.as_str() {
            Some(text) => Ok(Some(text)),
            None => Err(join4(subject, " ", field, " must be a string or null")),
        },
    }
}

/// What is wrong with an identifier.
pub open spec fn identifier_problem(value: Seq<char>, label: Seq<char>) -> Option<Seq<char>> {
    if value.len() == 0 {
        Some(label + " must not be empty"@)
    } else {
        None
    }
}

/// An identifier must not be empty.
pub fn validate_identifier(value: &str, label: &str) -> (result: ValidationResult)
    ensures
        problem_of(result) == identifier_problem(value@, label@),
{
    if value.is_empty() {
        return Err(join2(label, " must not be empty"));
    }
    Ok(())
}

/// A label must not be empty.
pub fn validate_non_empty_label(value: &str, label: &str) -> (result: ValidationResult)
    ensures
        problem_of(result) == identifier_problem(value@, label@),
{
    validate_identifier(value, label)
}

/// Whether a text is the base64 encoding of some bytes.
pub open spec fn is_canonical_base64(value: Seq<char>) -> bool {
    exists|bytes: Seq<u8>| #[trigger] base64_text(bytes) == value
}

/// What is wrong with a base64 text.
pub open spec fn base64_problem(value: Seq<char>, subject: Seq<char>) -> Option<Seq<char>> {
    if is_canonical_base64(value) {
        None
    } else {
        Some(subject + " must be canonical base64"@)
    }
}

fn validate_base64(value: &str, subject: &str) -> (result: ValidationResult)
    ensures
        problem_of(result) == base64_problem(value@, subject@),
{
    match decode_base64(value) {
        Some(decoded) => {
            let encoded = encode_base64(decoded.as_slice());
            assert(base64_text(decoded@) == encoded@);
            if !same_text(encoded.as_str(), value) {
                return Err(join2(subject, " must be canonical base64"));
            }
            Ok(())
        },
        None => Err(join2(subject, " must be canonical base64")),
    }
}

/// Whether a character may stand in a MIME token.
pub open spec fn is_token_char(c: char) -> bool {
    ('a' <= c && c <= 'z') || ('A' <= c && c <= 'Z') || ('0' <= c && c <= '9') || c == '!' || c
        == '#' || c == '$' || c == '%' || c == '&' || c == '\'' || c == '*' || c == '+' || c == '-'
        || c == '.' || c == '^' || c == '_' || c == '`' || c == '|' || c == '~'
}

/// Whether a text is a MIME token.
pub open spec fn is_mime_token(value: Seq<char>) -> bool {
    value.len() > 0 && forall|i: int| 0 <= i < value.len() ==> is_token_char(#[trigger] value[i])
}

/// Tells whether characters are a token of a MIME type.
pub fn mime_token(value: &Vec<char>) -> (token: bool)
    ensures
        token == is_mime_token(value@),
{
    let mut i: usize = 0;
    while i < value.len()
        invariant
            i <= value@.len(),
            forall|j: int| 0 <= j < i ==> is_token_char(#[trigger] value@[j]),
        decreases value.len() - i,
    {
        let c = value[i];
        if !(('a' <= c && c <= 'z') || ('A' <= c && c <= 'Z') || ('0' <= c && c <= '9') || matches!(
            c,
            '!' | '#' | '$' | '%' | '&' | '\'' | '*' | '+' | '-' | '.' | '^' | '_' | '`' | '|' | '~'
        )) {
            assert(!is_token_char(value@[i as int]));
            return false;
        }
        i += 1;
    }
    value.len() > 0
}

/// Whether a text is a MIME parameter: a token, an equals sign and a token.
pub open spec fn is_mime_parameter(value: Seq<char>) -> bool {
    split_once(value, '=') matches Some(parts) && is_mime_token(parts.0) && is_mime_token(parts.1)
}

/// Whether a text is a MIME type: a family and a subtype around a slash, and
/// parameters after semicolons.
pub open spec fn is_mime_type(value: Seq<char>) -> bool {
    let parts = split(value, ';');
    split_once(parts[0], '/') matches Some(essence) && is_mime_token(essence.0) && is_mime_token(
        essence.1,
    ) && forall|i: int| 1 <= i < parts.len() ==> is_mime_parameter(#[trigger] parts[i])
}

/// The family of a MIME type.
pub open spec fn mime_family(value: Seq<char>) -> Seq<char> {
    match split_once(split(value, ';')[0], '/') {
        Some(essence) => essence.0,
        None => Seq::empty(),
    }
}

/// What is wrong with a MIME type of which a family may be expected.
pub open spec fn mime_type_problem(
    value: Seq<char>,
    subject: Seq<char>,
    expected_family: Option<Seq<char>>,
) -> Option<Seq<char>> {
    if !is_mime_type(value) {
        Some(subject + " is invalid"@)
    } else if expected_family matches Some(expected) && !equal_ignoring_case(
        mime_family(value),
        expected,
    ) {
        Some(subject + " must use the "@ + expected_family->0 + "/* family"@)
    } else {
        None
    }
}

/// A MIME type has a family, a subtype and parameters, all of them tokens. The
/// family may be asked for.
pub fn validate_mime_type(value: &str, subject: &str, expected_family: Option<&str>) -> (result:
    ValidationResult)
    ensures
        problem_of(result) == mime_type_problem(value@, subject@, shown_text(expected_family)),
{
    let chars = characters(value);
    let parts = split_chars(&chars, ';');
    let ghost pieces = split(value@, ';');
    assert(parts_view(parts@) == pieces);
    assert(pieces[0] == parts@[0]@);
    let (family, subtype) = match split_chars_once(&parts[0], '/') {
        Some(essence) => essence,
        None => {
            return Err(join2(subject, " is invalid"));
        },
    };
    if !mime_token(&family) || !mime_token(&subtype) {
        return Err(join2(subject, " is invalid"));
    }
    let mut i: usize = 1;
    while i < parts.len()
        invariant
            1 <= i <= parts@.len(),
            parts_view(parts@) == pieces,
            pieces == split(value@, ';'),
            forall|j: int| 1 <= j < i ==> is_mime_parameter(#[trigger] pieces[j]),
        decreases parts.len() - i,
    {
        assert(pieces[i as int] == parts@[i as int]@);
        let good = match split_chars_once(&parts[i], '=') {
            Some((name, value)) => mime_token(&name) && mime_token(&value),
            None => false,
        };
        if !good {
            assert(!is_mime_parameter(pieces[i as int]));
            return Err(join2(subject, " is invalid"));
        }
        i += 1;
    }
    match expected_family {
        Some(expected) => {
            if !same_ignoring_case(&family, &characters(expected)) {
                return Err(join4(subject, " must use the ", expected, "/* family"));
            }
        },
        None => {},
    }
    Ok(())
}

/// What is wrong with a URI.
pub open spec fn uri_problem(value: Seq<char>, subject: Seq<char>) -> Option<Seq<char>> {
    if value.len() == 0 {
        Some(subject + " must not be empty"@)
    } else if !is_url(value) {
        Some(subject + " is invalid"@)
    } else {
        None
    }
}

fn validate_uri(value: &str, subject: &str) -> (result: ValidationResult)
    ensures
        problem_of(result) == uri_problem(value@, subject@),
{
    if value.is_empty() {
        return Err(join2(subject, " must not be empty"));
    }
    if read_url(value).is_none() {
        return Err(join2(subject, " is invalid"));
    }
    Ok(())
}

/// Whether a text is an absolute path on Unix or Windows.
pub open spec fn is_absolute(value: Seq<char>) -> bool {
    ||| value.len() >= 1 && value[0] == '/'
    ||| value.len() >= 2 && value[0] == '\\' && value[1] == '\\'
    ||| value.len() >= 3 && (('a' <= value[0] && value[0] <= 'z') || ('A' <= value[0] && value[0]
        <= 'Z')) && value[1] == ':' && (value[2] == '/' || value[2] == '\\')
}

/// Tells whether a path is absolute on some system.
pub fn is_portable_absolute_path(value: &str) -> (absolute: bool)
    ensures
        absolute == is_absolute(value@),
{
    let chars = characters(value);
    (chars.len() >= 1 && chars[0] == '/') || (chars.len() >= 2 && chars[0] == '\\' && chars[1]
        == '\\') || (chars.len() >= 3 && (('a' <= chars[0] && chars[0] <= 'z') || ('A' <= chars[0]
        && chars[0] <= 'Z')) && chars[1] == ':' && (chars[2] == '/' || chars[2] == '\\'))
}

/// What is wrong with a path.
pub open spec fn path_problem(path: Seq<char>, subject: Seq<char>) -> Option<Seq<char>> {
    if path.contains('\0') || !is_absolute(path) {
        Some(subject + " must be an absolute path without NUL bytes"@)
    } else {
        None
    }
}

/// A path must be absolute and must not hold NUL.
pub fn validate_absolute_path(path: &str, subject: &str) -> (result: ValidationResult)
    ensures
        problem_of(result) == path_problem(path@, subject@),
{
    if path.is_empty() || has_char(&characters(path), '\0') || !is_portable_absolute_path(path) {
        return Err(join2(subject, " must be an absolute path without NUL bytes"));
    }
    Ok(())
}

/// What is wrong with the annotations of a content block.
pub open spec fn annotations_problem(annotations: Option<JsonModel>, subject: Seq<char>) -> Option<
    Seq<char>,
> {
    match annotations {
        None => None,
        Some(JsonModel::Null) => None,
        Some(value) => if !(value is Object) {
            Some(subject + " must be an object"@)
        } else if value.some_at("priority"@) matches Some(priority) && !priority.is_number() {
            Some(subject + " priority must be finite"@)
        } else if value.some_at("lastModified"@) matches Some(timestamp) && !(timestamp is String) {
            Some(subject + " last-modified timestamp must be a string"@)
        } else {
            None
        },
    }
}

fn validate_annotations(annotations: Option<&Json>, subject: &str) -> (result: ValidationResult)
    ensures
        problem_of(result) == annotations_problem(shown(annotations), subject@),
{
    let annotations = match annotations {
        Some(annotations) => annotations,
        None => {
            return Ok(());
        },
    };
    if annotations.is_null() {
        return Ok(());
    }
    if annotations.as_object().is_none() {
        return Err(join2(subject, " must be an object"));
    }
    match annotations.some_at("priority") {
        Some(priority) => {
            if !priority.is_number() {
                return Err(join2(subject, " priority must be finite"));
            }
        },
        None => {},
    }
    match annotations.some_at("lastModified") {
        Some(timestamp) => {
            if !timestamp.is_string() {
                return Err(join2(subject, " last-modified timestamp must be a string"));
            }
        },
        None => {},
    }
    Ok(())
}

/// What is wrong with an image block.
pub open spec fn image_problem(block: JsonModel, subject: Seq<char>) -> Option<Seq<char>> {
    first(
        missing_text(block, "data"@, subject),
        first(
            base64_problem(the_text(block, "data"@), subject + " image data"@),
            first(
                missing_text(block, "mimeType"@, subject),
                first(
                    mime_type_problem(
                        the_text(block, "mimeType"@),
                        subject + " image MIME type"@,
                        Some("image"@),
                    ),
                    first(
                        bad_optional_text(block, "uri"@, subject),
                        match block.text_at("uri"@) {
                            Some(uri) => uri_problem(uri, subject + " image URI"@),
                            None => None,
                        },
                    ),
                ),
            ),
        ),
    )
}

fn validate_image(block: &Json, subject: &str) -> (result: ValidationResult)
    ensures
        problem_of(result) == image_problem(block@, subject@),
{
    let data = match required_string(block, "data", subject) {
        Ok(data) => data,
        Err(message) => {
            return Err(message);
        },
    };
    match validate_base64(data, join2(subject, " image data").as_str()) {
        Ok(_) => {},
        Err(message) => {
            return Err(message);
        },
    }
    let mime_type = match required_string(block, "mimeType", subject) {
        Ok(mime_type) => mime_type,
        Err(message) => {
            return Err(message);
        },
    };
    match validate_mime_type(mime_type, join2(subject, " image MIME type").as_str(), Some("image")) {
        Ok(_) => {},
        Err(message) => {
            return Err(message);
        },
    }
    match optional_string(block, "uri", subject) {
        Ok(Some(uri)) => validate_uri(uri, join2(subject, " image URI").as_str()),
        Ok(None) => Ok(()),
        Err(message) => Err(message),
    }
}

/// What is wrong with an audio block.
pub open spec fn audio_problem(block: JsonModel, subject: Seq<char>) -> Option<Seq<char>> {
    first(
        missing_text(block, "data"@, subject),
        first(
            base64_problem(the_text(block, "data"@), subject + " audio data"@),
            first(
                missing_text(block, "mimeType"@, subject),
                mime_type_problem(
                    the_text(block, "mimeType"@),
                    subject + " audio MIME type"@,
                    Some("audio"@),
                ),
            ),
        ),
    )
}

fn validate_audio(block: &Json, subject: &str) -> (result: ValidationResult)
    ensures
        problem_of(result) == audio_problem(block@, subject@),
{
    let data = match required_string(block, "data", subject) {
        Ok(data) => data,
        Err(message) => {
            return Err(message);
        },
    };
    match validate_base64(data, join2(subject, " audio data").as_str()) {
        Ok(_) => {},
        Err(message) => {
            return Err(message);
        },
    }
    let mime_type = match required_string(block, "mimeType", subject) {
        Ok(mime_type) => mime_type,
        Err(message) => {
            return Err(message);
        },
    };
    validate_mime_type(mime_type, join2(subject, " audio MIME type").as_str(), Some("audio"))
}

/// What is wrong with a link to a resource.
pub open spec fn resource_link_problem(block: JsonModel, subject: Seq<char>) -> Option<Seq<char>> {
    first(
        missing_text(block, "uri"@, subject),
        first(
            uri_problem(the_text(block, "uri"@), subject + " resource URI"@),
            first(
                missing_text(block, "name"@, subject),
                first(
                    bad_optional_text(block, "title"@, subject),
                    first(
                        bad_optional_text(block, "description"@, subject),
                        first(
                            bad_optional_text(block, "mimeType"@, subject),
                            first(
                                match block.text_at("mimeType"@) {
                                    Some(mime_type) => mime_type_problem(
                                        mime_type,
                                        subject + " resource MIME type"@,
                                        None,
                                    ),
                                    None => None,
                                },
                                if block.some_at("size"@) matches Some(size) && !is_safe_integer(
                                    size,
                                ) {
                                    Some(
                                        subject
                                            + " resource size must be a non-negative safe integer"@,
                                    )
                                } else {
                                    None
                                },
                            ),
                        ),
                    ),
                ),
            ),
        ),
    )
}

/// Whether a value is a non-negative integer that JavaScript holds exactly.
pub open spec fn is_safe_integer(value: JsonModel) -> bool {
    value.as_u64() matches Some(number) && number <= MAX_SAFE_INTEGER
}

fn validate_resource_link(block: &Json, subject: &str) -> (result: ValidationResult)
    ensures
        problem_of(result) == resource_link_problem(block@, subject@),
{
    let uri = match required_string(block, "uri", subject) {
        Ok(uri) => uri,
        Err(message) => {
            return Err(message);
        },
    };
    match validate_uri(uri, join2(subject, " resource URI").as_str()) {
        Ok(_) => {},
        Err(message) => {
            return Err(message);
        },
    }
    match required_string(block, "name", subject) {
        Ok(_) => {},
        Err(message) => {
            return Err(message);
        },
    }
    match optional_string(block, "title", subject) {
        Ok(_) => {},
        Err(message) => {
            return Err(message);
        },
    }
    match optional_string(block, "description", subject) {
        Ok(_) => {},
        Err(message) => {
            return Err(message);
        },
    }
    match optional_string(block, "mimeType", subject) {
        Ok(Some(mime_type)) => {
            match validate_mime_type(
                mime_type,
                join2(subject, " resource MIME type").as_str(),
                None,
            ) {
                Ok(_) => {},
                Err(message) => {
                    return Err(message);
                },
            }
        },
        Ok(None) => {},
        Err(message) => {
            return Err(message);
        },
    }
    match block.some_at("size") {
        Some(size) => {
            let safe = match size.as_u64() {
                Some(number) => number <= MAX_SAFE_INTEGER,
                None => false,
            };
            if !safe {
                return Err(
                    join2(subject, " resource size must be a non-negative safe integer"),
                );
            }
        },
        None => {},
    }
    Ok(())
}

/// What is wrong with an embedded resource.
pub open spec fn embedded_problem(block: JsonModel, subject: Seq<char>) -> Option<Seq<char>> {
    match block.get("resource"@) {
        Some(JsonModel::Object(fields)) => {
            let resource = JsonModel::Object(fields);
            if resource.text_at("uri"@) is None {
                Some(subject + " embedded resource URI is missing"@)
            } else {
                first(
                    uri_problem(the_text(resource, "uri"@), subject + " embedded resource URI"@),
                    first(
                        match resource.text_at("mimeType"@) {
                            Some(mime_type) => mime_type_problem(
                                mime_type,
                                subject + " embedded resource MIME type"@,
                                None,
                            ),
                            None => None,
                        },
                        match resource.text_at("blob"@) {
                            Some(blob) => base64_problem(blob, subject + " embedded resource blob"@),
                            None => None,
                        },
                    ),
                )
            }
        },
        _ => Some(subject + " embedded resource must be an object"@),
    }
}

fn validate_embedded(block: &Json, subject: &str) -> (result: ValidationResult)
    ensures
        problem_of(result) == embedded_problem(block@, subject@),
{
    let resource = match block.get("resource") {
        Some(resource) => resource,
        None => {
            return Err(join2(subject, " embedded resource must be an object"));
        },
    };
    if resource.as_object().is_none() {
        return Err(join2(subject, " embedded resource must be an object"));
    }
    let uri = match resource.text_at("uri") {
        Some(uri) => uri,
        None => {
            return Err(join2(subject, " embedded resource URI is missing"));
        },
    };
    match validate_uri(uri, join2(subject, " embedded resource URI").as_str()) {
        Ok(_) => {},
        Err(message) => {
            return Err(message);
        },
    }
    match resource.text_at("mimeType") {
        Some(mime_type) => {
            match validate_mime_type(
                mime_type,
                join2(subject, " embedded resource MIME type").as_str(),
                None,
            ) {
                Ok(_) => {},
                Err(message) => {
                    return Err(message);
                },
            }
        },
        None => {},
    }
    match resource.text_at("blob") {
        Some(blob) => validate_base64(blob, join2(subject, " embedded resource blob").as_str()),
        None => Ok(()),
    }
}

/// What is wrong with a content block.
pub open spec fn content_block_problem(block: JsonModel, subject: Seq<char>) -> Option<Seq<char>> {
    if !(block is Object) {
        Some(subject + " must be an object"@)
    } else {
        first(
            annotations_problem(block.get("annotations"@), subject + " annotations"@),
            match block.text_at("type"@) {
                Some(kind) => if kind == "text"@ {
                    None
                } else if kind == "image"@ {
                    image_problem(block, subject)
                } else if kind == "audio"@ {
                    audio_problem(block, subject)
                } else if kind == "resource_link"@ {
                    resource_link_problem(block, subject)
                } else if kind == "resource"@ {
                    embedded_problem(block, subject)
                } else {
                    Some("unsupported "@ + subject + " type: "@ + kind)
                },
                None => Some(subject + " type is missing"@),
            },
        )
    }
}

/// Validates a content block. The messages start with the subject.
pub fn validate_content_block(block: &Json, subject: &str) -> (result: ValidationResult)
    ensures
        problem_of(result) == content_block_problem(block@, subject@),
{
    if block.as_object().is_none() {
        return Err(join2(subject, " must be an object"));
    }
    match validate_annotations(block.get("annotations"), join2(subject, " annotations").as_str()) {
        Ok(_) => {},
        Err(message) => {
            return Err(message);
        },
    }
    match block.text_at("type") {
        Some(kind) => if same_text(kind, "text") {
            Ok(())
        } else if same_text(kind, "image") {
            validate_image(block, subject)
        } else if same_text(kind, "audio") {
            validate_audio(block, subject)
        } else if same_text(kind, "resource_link") {
            validate_resource_link(block, subject)
        } else if same_text(kind, "resource") {
            validate_embedded(block, subject)
        } else {
            Err(join4("unsupported ", subject, " type: ", kind))
        },
        None => Err(join2(subject, " type is missing")),
    }
}

/// A token count of a prompt response: missing or null counts as absent.
pub open spec fn token_count(usage: JsonModel, name: Seq<char>) -> Option<u64> {
    match usage.some_at(name) {
        Some(value) => value.as_u64(),
        None => None,
    }
}

/// What is wrong with a token count.
pub open spec fn token_problem(usage: JsonModel, name: Seq<char>) -> Option<Seq<char>> {
    if usage.some_at(name) matches Some(value) && !is_safe_integer(value) {
        Some("Agent prompt usage "@ + name + " must be a non-negative safe integer"@)
    } else {
        None
    }
}

fn safe_non_negative_integer(usage: &Json, name: &str) -> (count: ValidationResult<Option<u64>>)
    ensures
        match count {
            Ok(count) => token_problem(usage@, name@) is None && count == token_count(
                usage@,
                name@,
            ) && (count matches Some(number) ==> number <= MAX_SAFE_INTEGER),
            Err(message) => token_problem(usage@, name@) == Some(message@),
        },
{
    match usage.some_at(name) {
        Some(value) => match value.as_u64() {
            Some(number) => if number <= MAX_SAFE_INTEGER {
                Ok(Some(number))
            } else {
                Err(join3("Agent prompt usage ", name, " must be a non-negative safe integer"))
            },
            None => Err(
                join3("Agent prompt usage ", name, " must be a non-negative safe integer"),
            ),
        },
        None => Ok(None),
    }
}

/// What is wrong with one part of the usage against the total.
pub open spec fn part_problem(usage: JsonModel, name: Seq<char>, total: u64) -> Option<Seq<char>> {
    first(
        token_problem(usage, name),
        if token_count(usage, name) matches Some(value) && value > total {
            Some("Agent prompt usage "@ + name + " exceeds totalTokens"@)
        } else {
            None
        },
    )
}

fn validate_part(usage: &Json, name: &str, total: u64) -> (result: ValidationResult)
    ensures
        problem_of(result) == part_problem(usage@, name@, total),
{
    match safe_non_negative_integer(usage, name) {
        Ok(Some(value)) => if value > total {
            Err(join3("Agent prompt usage ", name, " exceeds totalTokens"))
        } else {
            Ok(())
        },
        Ok(None) => Ok(()),
        Err(message) => Err(message),
    }
}

/// The token count, or zero where it is absent.
pub open spec fn tokens_or_zero(usage: JsonModel, name: Seq<char>) -> int {
    match token_count(usage, name) {
        Some(count) => count as int,
        None => 0,
    }
}

/// What is wrong with the token usage of a prompt response.
pub open spec fn prompt_usage_problem(usage: JsonModel) -> Option<Seq<char>> {
    if token_problem(usage, "totalTokens"@) is Some {
        token_problem(usage, "totalTokens"@)
    } else {
        match token_count(usage, "totalTokens"@) {
            None => Some("Agent prompt usage totalTokens is required"@),
            Some(total) => first(
                token_problem(usage, "inputTokens"@),
                first(
                    token_problem(usage, "outputTokens"@),
                    first(
                        part_problem(usage, "inputTokens"@, total),
                        first(
                            part_problem(usage, "outputTokens"@, total),
                            first(
                                part_problem(usage, "thoughtTokens"@, total),
                                first(
                                    part_problem(usage, "cachedReadTokens"@, total),
                                    first(
                                        part_problem(usage, "cachedWriteTokens"@, total),
                                        if tokens_or_zero(usage, "inputTokens"@) + tokens_or_zero(
                                            usage,
                                            "outputTokens"@,
                                        ) > total {
                                            Some(
                                                "Agent prompt usage inputTokens plus outputTokens exceeds totalTokens"@,
                                            )
                                        } else {
                                            None
                                        },
                                    ),
                                ),
                            ),
                        ),
                    ),
                ),
            ),
        }
    }
}

fn validate_prompt_usage(usage: &Json) -> (result: ValidationResult)
    ensures
        problem_of(result) == prompt_usage_problem(usage@),
{
    let total = match safe_non_negative_integer(usage, "totalTokens") {
        Ok(Some(total)) => total,
        Ok(None) => {
            return Err("Agent prompt usage totalTokens is required".to_string());
        },
        Err(message) => {
            return Err(message);
        },
    };
    let input: u64 = match safe_non_negative_integer(usage, "inputTokens") {
        Ok(Some(count)) => count,
        Ok(None) => 0,
        Err(message) => {
            return Err(message);
        },
    };
    let output: u64 = match safe_non_negative_integer(usage, "outputTokens") {
        Ok(Some(count)) => count,
        Ok(None) => 0,
        Err(message) => {
            return Err(message);
        },
    };
    match validate_part(usage, "inputTokens", total) {
        Ok(_) => {},
        Err(message) => {
            return Err(message);
        },
    }
    match validate_part(usage, "outputTokens", total) {
        Ok(_) => {},
        Err(message) => {
            return Err(message);
        },
    }
    match validate_part(usage, "thoughtTokens", total) {
        Ok(_) => {},
        Err(message) => {
            return Err(message);
        },
    }
    match validate_part(usage, "cachedReadTokens", total) {
        Ok(_) => {},
        Err(message) => {
            return Err(message);
        },
    }
    match validate_part(usage, "cachedWriteTokens", total) {
        Ok(_) => {},
        Err(message) => {
            return Err(message);
        },
    }
    if input.saturating_add(output) > total {
        return Err(
            "Agent prompt usage inputTokens plus outputTokens exceeds totalTokens".to_string(),
        );
    }
    Ok(())
}

/// What is wrong with the response to a prompt: only its usage is looked at.
pub open spec fn prompt_response_problem(response: JsonModel) -> Option<Seq<char>> {
    match response.some_at("usage"@) {
        Some(usage) => prompt_usage_problem(usage),
        None => None,
    }
}

/// Validates the response to a prompt.
pub fn validate_prompt_response(response: &Json) -> (result: ValidationResult)
    ensures
        problem_of(result) == prompt_response_problem(response@),
{
    match response.some_at("usage") {
        Some(usage) => validate_prompt_usage(usage),
        None => Ok(()),
    }
}

/// What is wrong with optional session controls: null counts as absent.
pub open spec fn session_controls_problem(
    modes: Option<JsonModel>,
    config_options: Option<JsonModel>,
) -> Option<Seq<char>> {
    first(
        match modes {
            Some(modes) => if modes is Null {
                None
            } else {
                session_modes_problem(modes)
            },
            None => None,
        },
        match config_options {
            Some(options) => if options is Null {
                None
            } else {
                config_options_problem(options)
            },
            None => None,
        },
    )
}

/// Validates the modes and the config options of a session.
pub fn validate_session_controls(modes: Option<&Json>, config_options: Option<&Json>) -> (result:
    ValidationResult)
    ensures
        problem_of(result) == session_controls_problem(shown(modes), shown(config_options)),
{
    match modes {
        Some(modes) => {
            if !modes.is_null() {
                match validate_session_modes(modes) {
                    Ok(_) => {},
                    Err(message) => {
                        return Err(message);
                    },
                }
            }
        },
        None => {},
    }
    match config_options {
        Some(options) => {
            if !options.is_null() {
                match validate_session_config_options(options) {
                    Ok(_) => {},
                    Err(message) => {
                        return Err(message);
                    },
                }
            }
        },
        None => {},
    }
    Ok(())
}

/// Whether an item before a position has a text in a field.
pub open spec fn seen_before(
    items: Seq<JsonModel>,
    at: int,
    field: Seq<char>,
    text: Seq<char>,
) -> bool {
    exists|j: int| 0 <= j < at && (#[trigger] items[j]).text_at(field) == Some(text)
}

/// Whether some item has a text in a field.
pub open spec fn offers(items: Seq<JsonModel>, field: Seq<char>, text: Seq<char>) -> bool {
    seen_before(items, items.len() as int, field, text)
}

pub(crate) fn was_seen(items: &Vec<Json>, at: usize, field: &str, text: &str) -> (seen: bool)
    requires
        at <= items@.len(),
    ensures
        seen == seen_before(items_model(items@), at as int, field@, text@),
{
    let ghost models = items_model(items@);
    let mut j: usize = 0;
    while j < at
        invariant
            j <= at <= items@.len(),
            models == items_model(items@),
            forall|k: int| 0 <= k < j ==> (#[trigger] models[k]).text_at(field@) != Some(text@),
        decreases at - j,
    {
        assert(models[j as int] == json_model(items@[j as int]));
        if is_text(items[j].text_at(field), text) {
            return true;
        }
        j += 1;
    }
    false
}

/// What is wrong with the mode at a position.
pub open spec fn mode_problem(modes: Seq<JsonModel>, at: int) -> Option<Seq<char>> {
    first(
        missing_text(modes[at], "id"@, "session mode"@),
        first(
            missing_text(modes[at], "name"@, "session mode"@),
            first(
                identifier_problem(the_text(modes[at], "id"@), "session mode ID"@),
                first(
                    identifier_problem(the_text(modes[at], "name"@), "session mode name"@),
                    if seen_before(modes, at, "id"@, the_text(modes[at], "id"@)) {
                        Some("Agent returned duplicate session mode ID: "@ + the_text(modes[at], "id"@))
                    } else {
                        None
                    },
                ),
            ),
        ),
    )
}

/// What is wrong with the modes of a session.
pub open spec fn session_modes_problem(modes: JsonModel) -> Option<Seq<char>> {
    match modes.array_at("availableModes"@) {
        None => Some("Agent session modes are missing availableModes"@),
        Some(available) => if available.len() == 0 {
            Some("Agent session modes must contain at least one available mode"@)
        } else {
            first(
                first_of(available.len(), |i: int| mode_problem(available, i)),
                first(
                    missing_text(modes, "currentModeId"@, "session modes"@),
                    if offers(available, "id"@, the_text(modes, "currentModeId"@)) {
                        None
                    } else {
                        Some(
                            "Agent current mode was not included in available modes: "@ + the_text(
                                modes,
                                "currentModeId"@,
                            ),
                        )
                    },
                ),
            )
        },
    }
}

fn validate_mode(modes: &Vec<Json>, at: usize) -> (result: ValidationResult)
    requires
        at < modes@.len(),
    ensures
        problem_of(result) == mode_problem(items_model(modes@), at as int),
{
    assert(items_model(modes@)[at as int] == json_model(modes@[at as int]));
    let mode = &modes[at];
    let id = match required_string(mode, "id", "session mode") {
        Ok(id) => id,
        Err(message) => {
            return Err(message);
        },
    };
    let name = match required_string(mode, "name", "session mode") {
        Ok(name) => name,
        Err(message) => {
            return Err(message);
        },
    };
    match validate_identifier(id, "session mode ID") {
        Ok(_) => {},
        Err(message) => {
            return Err(message);
        },
    }
    match validate_non_empty_label(name, "session mode name") {
        Ok(_) => {},
        Err(message) => {
            return Err(message);
        },
    }
    if was_seen(modes, at, "id", id) {
        return Err(join2("Agent returned duplicate session mode ID: ", id));
    }
    Ok(())
}

/// Validates the modes of a session.
pub fn validate_session_modes(modes: &Json) -> (result: ValidationResult)
    ensures
        problem_of(result) == session_modes_problem(modes@),
{
    let available = match modes.array_at("availableModes") {
        Some(available) => available,
        None => {
            return Err("Agent session modes are missing availableModes".to_string());
        },
    };
    if available.len() == 0 {
        return Err("Agent session modes must contain at least one available mode".to_string());
    }
    let ghost models = items_model(available@);
    let ghost check = |i: int| mode_problem(models, i);
    let mut i: usize = 0;
    while i < available.len()
        invariant
            i <= available@.len(),
            models == items_model(available@),
            check == (|i: int| mode_problem(models, i)),
            modes@.array_at("availableModes"@) == Some(models),
            models.len() > 0,
            first_of(i as nat, check) is None,
        decreases available.len() - i,
    {
        match validate_mode(available, i) {
            Ok(_) => {},
            Err(message) => {
                proof {
                    assert(first_of((i + 1) as nat, check) == Some(message@));
                    lemma_first_of_stays((i + 1) as nat, models.len(), check);
                }
                return Err(message);
            },
        }
        i += 1;
    }
    let current = match required_string(modes, "currentModeId", "session modes") {
        Ok(current) => current,
        Err(message) => {
            return Err(message);
        },
    };
    if !was_seen(available, available.len(), "id", current) {
        return Err(
            join2("Agent current mode was not included in available modes: ", current),
        );
    }
    Ok(())
}

/// Whether modes offer a mode.
pub open spec fn mode_offered(modes: Option<JsonModel>, mode_id: Seq<char>) -> bool {
    modes matches Some(modes) && modes.array_at("availableModes"@) matches Some(available) && offers(
        available,
        "id"@,
        mode_id,
    )
}

/// Validates a reference to a mode.
pub fn validate_session_mode_reference(modes: Option<&Json>, mode_id: &str) -> (result:
    ValidationResult)
    ensures
        problem_of(result) == if mode_offered(shown(modes), mode_id@) {
            None
        } else {
            Some("Mode was not offered by the Agent: "@ + mode_id@)
        },
{
    match modes {
        Some(modes) => match modes.array_at("availableModes") {
            Some(available) => {
                if was_seen(available, available.len(), "id", mode_id) {
                    return Ok(());
                }
            },
            None => {},
        },
        None => {},
    }
    Err(join2("Mode was not offered by the Agent: ", mode_id))
}

/// What is wrong with one selectable value, given the values before it.
pub open spec fn select_value_problem(
    config_id: Seq<char>,
    values: Seq<Seq<char>>,
    option: JsonModel,
) -> Option<Seq<char>> {
    first(
        missing_text(option, "value"@, "config option value"@),
        first(
            missing_text(option, "name"@, "config option value"@),
            first(
                identifier_problem(
                    the_text(option, "value"@),
                    "config option "@ + config_id + " value"@,
                ),
                first(
                    identifier_problem(
                        the_text(option, "name"@),
                        "config option "@ + config_id + " value name"@,
                    ),
                    if values.contains(the_text(option, "value"@)) {
                        Some(
                            "Agent config option "@ + config_id + " has duplicate value: "@ + the_text(
                                option,
                                "value"@,
                            ),
                        )
                    } else {
                        None
                    },
                ),
            ),
        ),
    )
}

/// The texts of a list of strings.
pub open spec fn texts(strings: Seq<String>) -> Seq<Seq<char>> {
    Seq::new(strings.len(), |i: int| strings[i]@)
}

/// Whether a list of strings holds a text.
pub fn has_text(strings: &Vec<String>, text: &str) -> (found: bool)
    ensures
        found == texts(strings@).contains(text@),
{
    let ghost all = texts(strings@);
    let mut i: usize = 0;
    while i < strings.len()
        invariant
            i <= strings@.len(),
            all == texts(strings@),
            forall|j: int| 0 <= j < i ==> all[j] != text@,
        decreases strings.len() - i,
    {
        if same_text(strings[i].as_str(), text) {
            assert(all[i as int] == text@);
            return true;
        }
        i += 1;
    }
    false
}

fn add_select_value(config_id: &str, values: &mut Vec<String>, option: &Json) -> (result:
    ValidationResult)
    ensures
        problem_of(result) == select_value_problem(config_id@, texts(old(values)@), option@),
        result is Err ==> final(values)@ == old(values)@,
        result is Ok ==> texts(final(values)@) == texts(old(values)@).push(
            the_text(option@, "value"@),
        ),
{
    let value = match required_string(option, "value", "config option value") {
        Ok(value) => value,
        Err(message) => {
            return Err(message);
        },
    };
    let name = match required_string(option, "name", "config option value") {
        Ok(name) => name,
        Err(message) => {
            return Err(message);
        },
    };
    match validate_identifier(value, join3("config option ", config_id, " value").as_str()) {
        Ok(_) => {},
        Err(message) => {
            return Err(message);
        },
    }
    match validate_non_empty_label(
        name,
        join3("config option ", config_id, " value name").as_str(),
    ) {
        Ok(_) => {},
        Err(message) => {
            return Err(message);
        },
    }
    if has_text(values, value) {
        return Err(join4("Agent config option ", config_id, " has duplicate value: ", value));
    }
    values.push(value.to_string());
    assert(texts(values@) =~= texts(old(values)@).push(value@));
    Ok(())
}

/// The values and the group names that selectable options add, or what is
/// wrong with them.
pub enum Selectable {
    Known { values: Seq<Seq<char>>, groups: Seq<Seq<char>> },
    Wrong { problem: Seq<char> },
}

/// Adds the first options of a list to the known values.
pub open spec fn add_values(
    config_id: Seq<char>,
    before: Selectable,
    options: Seq<JsonModel>,
    count: nat,
) -> Selectable
    decreases count,
{
    if count == 0 {
        before
    } else {
        match add_values(config_id, before, options, (count - 1) as nat) {
            Selectable::Known { values, groups } => match select_value_problem(
                config_id,
                values,
                options[count - 1],
            ) {
                Some(problem) => Selectable::Wrong { problem },
                None => Selectable::Known {
                    values: values.push(the_text(options[count - 1], "value"@)),
                    groups,
                },
            },
            wrong => wrong,
        }
    }
}

/// What is wrong with an option group, apart from its values.
pub open spec fn group_problem(
    config_id: Seq<char>,
    groups: Seq<Seq<char>>,
    item: JsonModel,
    nested: Seq<JsonModel>,
) -> Option<Seq<char>> {
    first(
        missing_text(item, "group"@, "config option group"@),
        first(
            missing_text(item, "name"@, "config option group"@),
            first(
                identifier_problem(
                    the_text(item, "group"@),
                    "config option "@ + config_id + " group ID"@,
                ),
                first(
                    identifier_problem(
                        the_text(item, "name"@),
                        "config option "@ + config_id + " group name"@,
                    ),
                    if groups.contains(the_text(item, "group"@)) {
                        Some(
                            "Agent config option "@ + config_id + " has duplicate group ID: "@
                                + the_text(item, "group"@),
                        )
                    } else if nested.len() == 0 {
                        Some(
                            "Agent config option "@ + config_id
                                + " contains an empty option group"@,
                        )
                    } else {
                        None
                    },
                ),
            ),
        ),
    )
}

/// Adds one item, an option or a group of options.
pub open spec fn add_item(config_id: Seq<char>, before: Selectable, item: JsonModel) -> Selectable {
    match before {
        Selectable::Known { values, groups } => match item.array_at("options"@) {
            Some(nested) => match group_problem(config_id, groups, item, nested) {
                Some(problem) => Selectable::Wrong { problem },
                None => add_values(
                    config_id,
                    Selectable::Known { values, groups: groups.push(the_text(item, "group"@)) },
                    nested,
                    nested.len(),
                ),
            },
            None => add_values(config_id, before, seq![item], 1),
        },
        wrong => wrong,
    }
}

/// Adds the first items of a list.
pub open spec fn add_items(config_id: Seq<char>, items: Seq<JsonModel>, count: nat) -> Selectable
    decreases count,
{
    if count == 0 {
        Selectable::Known { values: Seq::empty(), groups: Seq::empty() }
    } else {
        add_item(config_id, add_items(config_id, items, (count - 1) as nat), items[count - 1])
    }
}

/// What is wrong with a config option to select from.
pub open spec fn select_option_problem(option: JsonModel, config_id: Seq<char>) -> Option<
    Seq<char>,
> {
    match option.array_at("options"@) {
        None => Some("Agent config option "@ + config_id + " is missing selectable values"@),
        Some(options) => if options.len() == 0 {
            Some("Agent config option "@ + config_id + " has no selectable values"@)
        } else {
            match add_items(config_id, options, options.len()) {
                Selectable::Wrong { problem } => Some(problem),
                Selectable::Known { values, .. } => first(
                    missing_text(option, "currentValue"@, "select config option"@),
                    if values.contains(the_text(option, "currentValue"@)) {
                        None
                    } else {
                        Some(
                            "Agent config option "@ + config_id
                                + " current value was not included in its selectable values"@,
                        )
                    },
                ),
            }
        },
    }
}

/// The known values and groups as a state of the walk.
pub open spec fn known(values: Seq<String>, groups: Seq<String>) -> Selectable {
    Selectable::Known { values: texts(values), groups: texts(groups) }
}

proof fn lemma_wrong_values_stay(
    config_id: Seq<char>,
    before: Selectable,
    options: Seq<JsonModel>,
    count: nat,
    more: nat,
)
    requires
        count <= more,
        add_values(config_id, before, options, count) is Wrong,
    ensures
        add_values(config_id, before, options, more) == add_values(
            config_id,
            before,
            options,
            count,
        ),
    decreases more,
{
    if count < more {
        lemma_wrong_values_stay(config_id, before, options, count, (more - 1) as nat);
    }
}

proof fn lemma_wrong_items_stay(
    config_id: Seq<char>,
    items: Seq<JsonModel>,
    count: nat,
    more: nat,
)
    requires
        count <= more,
        add_items(config_id, items, count) is Wrong,
    ensures
        add_items(config_id, items, more) == add_items(config_id, items, count),
    decreases more,
{
    if count < more {
        lemma_wrong_items_stay(config_id, items, count, (more - 1) as nat);
    }
}

fn add_select_item(
    config_id: &str,
    values: &mut Vec<String>,
    groups: &mut Vec<String>,
    item: &Json,
) -> (result: ValidationResult)
    ensures
        add_item(config_id@, known(old(values)@, old(groups)@), item@) == match result {
            Ok(_) => known(final(values)@, final(groups)@),
            Err(message) => Selectable::Wrong { problem: message@ },
        },
{
    let ghost before = known(values@, groups@);
    match item.array_at("options") {
        Some(nested) => {
            let ghost models = items_model(nested@);
            let group = match required_string(item, "group", "config option group") {
                Ok(group) => group,
                Err(message) => {
                    return Err(message);
                },
            };
            let name = match required_string(item, "name", "config option group") {
                Ok(name) => name,
                Err(message) => {
                    return Err(message);
                },
            };
            match validate_identifier(
                group,
                join3("config option ", config_id, " group ID").as_str(),
            ) {
                Ok(_) => {},
                Err(message) => {
                    return Err(message);
                },
            }
            match validate_non_empty_label(
                name,
                join3("config option ", config_id, " group name").as_str(),
            ) {
                Ok(_) => {},
                Err(message) => {
                    return Err(message);
                },
            }
            if has_text(groups, group) {
                return Err(
                    join4("Agent config option ", config_id, " has duplicate group ID: ", group),
                );
            }
            if nested.len() == 0 {
                return Err(
                    join3("Agent config option ", config_id, " contains an empty option group"),
                );
            }
            let ghost groups_before = texts(groups@);
            groups.push(group.to_string());
            assert(texts(groups@) =~= groups_before.push(group@));
            let ghost start = known(values@, groups@);
            let mut i: usize = 0;
            while i < nested.len()
                invariant
                    i <= nested@.len(),
                    models == items_model(nested@),
                    before == known(old(values)@, old(groups)@),
                    add_values(config_id@, start, models, i as nat) == known(values@, groups@),
                    add_item(config_id@, before, item@) == add_values(
                        config_id@,
                        start,
                        models,
                        models.len(),
                    ),
                decreases nested.len() - i,
            {
                assert(models[i as int] == json_model(nested@[i as int]));
                match add_select_value(config_id, values, &nested[i]) {
                    Ok(_) => {},
                    Err(message) => {
                        proof {
                            lemma_wrong_values_stay(
                                config_id@,
                                start,
                                models,
                                (i + 1) as nat,
                                models.len(),
                            );
                        }
                        return Err(message);
                    },
                }
                i += 1;
            }
            Ok(())
        },
        None => {
            proof {
                reveal_with_fuel(add_values, 2);
            }
            add_select_value(config_id, values, item)
        },
    }
}

fn validate_select_option(option: &Json, config_id: &str) -> (result: ValidationResult)
    ensures
        problem_of(result) == select_option_problem(option@, config_id@),
{
    let options = match option.array_at("options") {
        Some(options) => options,
        None => {
            return Err(
                join3("Agent config option ", config_id, " is missing selectable values"),
            );
        },
    };
    if options.len() == 0 {
        return Err(join3("Agent config option ", config_id, " has no selectable values"));
    }
    let ghost models = items_model(options@);
    let mut values: Vec<String> = Vec::new();
    let mut groups: Vec<String> = Vec::new();
    assert(texts(values@) =~= Seq::<Seq<char>>::empty());
    assert(texts(groups@) =~= Seq::<Seq<char>>::empty());
    let mut i: usize = 0;
    while i < options.len()
        invariant
            i <= options@.len(),
            models == items_model(options@),
            models.len() > 0,
            option@.array_at("options"@) == Some(models),
            add_items(config_id@, models, i as nat) == known(values@, groups@),
        decreases options.len() - i,
    {
        assert(models[i as int] == json_model(options@[i as int]));
        match add_select_item(config_id, &mut values, &mut groups, &options[i]) {
            Ok(_) => {},
            Err(message) => {
                proof {
                    lemma_wrong_items_stay(config_id@, models, (i + 1) as nat, models.len());
                }
                return Err(message);
            },
        }
        i += 1;
    }
    let current = match required_string(option, "currentValue", "select config option") {
        Ok(current) => current,
        Err(message) => {
            return Err(message);
        },
    };
    if !has_text(&values, current) {
        return Err(
            join3(
                "Agent config option ",
                config_id,
                " current value was not included in its selectable values",
            ),
        );
    }
    Ok(())
}

/// What is wrong with the config option at a position.
pub open spec fn config_option_problem(options: Seq<JsonModel>, at: int) -> Option<Seq<char>> {
    first(
        missing_text(options[at], "id"@, "config option"@),
        first(
            missing_text(options[at], "name"@, "config option"@),
            first(
                identifier_problem(the_text(options[at], "id"@), "config option ID"@),
                first(
                    identifier_problem(the_text(options[at], "name"@), "config option name"@),
                    if seen_before(options, at, "id"@, the_text(options[at], "id"@)) {
                        Some(
                            "Agent returned duplicate config option ID: "@ + the_text(
                                options[at],
                                "id"@,
                            ),
                        )
                    } else if options[at].text_at("type"@) == Some("select"@) {
                        select_option_problem(options[at], the_text(options[at], "id"@))
                    } else {
                        None
                    },
                ),
            ),
        ),
    )
}

/// What is wrong with the config options of a session.
pub open spec fn config_options_problem(options: JsonModel) -> Option<Seq<char>> {
    match options {
        JsonModel::Array(items) => first_of(items.len(), |i: int| config_option_problem(items, i)),
        _ => Some("Agent config options must be an array"@),
    }
}

fn validate_config_option(options: &Vec<Json>, at: usize) -> (result: ValidationResult)
    requires
        at < options@.len(),
    ensures
        problem_of(result) == config_option_problem(items_model(options@), at as int),
{
    assert(items_model(options@)[at as int] == json_model(options@[at as int]));
    let option = &options[at];
    let id = match required_string(option, "id", "config option") {
        Ok(id) => id,
        Err(message) => {
            return Err(message);
        },
    };
    let name = match required_string(option, "name", "config option") {
        Ok(name) => name,
        Err(message) => {
            return Err(message);
        },
    };
    match validate_identifier(id, "config option ID") {
        Ok(_) => {},
        Err(message) => {
            return Err(message);
        },
    }
    match validate_non_empty_label(name, "config option name") {
        Ok(_) => {},
        Err(message) => {
            return Err(message);
        },
    }
    if was_seen(options, at, "id", id) {
        return Err(join2("Agent returned duplicate config option ID: ", id));
    }
    if is_text(option.text_at("type"), "select") {
        validate_select_option(option, id)
    } else {
        Ok(())
    }
}

/// Validates the config options of a session.
pub fn validate_session_config_options(options: &Json) -> (result: ValidationResult)
    ensures
        problem_of(result) == config_options_problem(options@),
{
    let items = match options.as_array() {
        Some(items) => items,
        None => {
            return Err("Agent config options must be an array".to_string());
        },
    };
    let ghost models = items_model(items@);
    let ghost check = |i: int| config_option_problem(models, i);
    let mut i: usize = 0;
    while i < items.len()
        invariant
            i <= items@.len(),
            models == items_model(items@),
            options@ == JsonModel::Array(models),
            check == (|i: int| config_option_problem(models, i)),
            first_of(i as nat, check) is None,
        decreases items.len() - i,
    {
        match validate_config_option(items, i) {
            Ok(_) => {},
            Err(message) => {
                proof {
                    assert(first_of((i + 1) as nat, check) == Some(message@));
                    lemma_first_of_stays((i + 1) as nat, models.len(), check);
                }
                return Err(message);
            },
        }
        i += 1;
    }
    Ok(())
}

/// The first option with an identifier.
pub open spec fn option_with_id(options: Seq<JsonModel>, id: Seq<char>) -> Option<JsonModel>
    decreases options.len(),
{
    if options.len() == 0 {
        None
    } else if options[0].text_at("id"@) == Some(id) {
        Some(options[0])
    } else {
        option_with_id(options.drop_first(), id)
    }
}

/// Whether an option to select from offers a value, directly or in a group.
pub open spec fn value_offered(option: JsonModel, selected: Seq<char>) -> bool {
    option.array_at("options"@) matches Some(items) && exists|i: int|
        0 <= i < items.len() && ((#[trigger] items[i]).text_at("value"@) == Some(selected) || (
        items[i].array_at("options"@) matches Some(nested) && offers(nested, "value"@, selected)))
}

/// What is wrong with a value for a config option.
pub open spec fn config_reference_problem(
    options: JsonModel,
    config_id: Seq<char>,
    value: JsonModel,
) -> Option<Seq<char>> {
    let option = match options {
        JsonModel::Array(items) => option_with_id(items, config_id),
        _ => None,
    };
    let kind = match option {
        Some(option) => option.text_at("type"@),
        None => None,
    };
    if kind == Some("boolean"@) {
        if value is Bool {
            None
        } else {
            Some("Config option "@ + config_id + " requires a boolean value"@)
        }
    } else if kind == Some("select"@) {
        if value.as_str() matches Some(selected) && value_offered(option->0, selected) {
            None
        } else {
            Some("Config option "@ + config_id + " value was not offered by the Agent"@)
        }
    } else {
        Some("Config option was not offered by the Agent: "@ + config_id)
    }
}

fn find_option<'a>(options: &'a Vec<Json>, id: &str) -> (option: Option<&'a Json>)
    ensures
        shown(option) == option_with_id(items_model(options@), id@),
{
    let ghost models = items_model(options@);
    assert(models.skip(0) =~= models);
    let mut i: usize = 0;
    while i < options.len()
        invariant
            i <= options@.len(),
            models == items_model(options@),
            option_with_id(models, id@) == option_with_id(models.skip(i as int), id@),
        decreases options.len() - i,
    {
        assert(models.skip(i as int)[0] == json_model(options@[i as int]));
        if is_text(options[i].text_at("id"), id) {
            return Some(&options[i]);
        }
        assert(models.skip(i as int).drop_first() =~= models.skip(i + 1));
        i += 1;
    }
    None
}

fn is_value_offered(option: &Json, selected: &str) -> (offered: bool)
    ensures
        offered == value_offered(option@, selected@),
{
    let items = match option.array_at("options") {
        Some(items) => items,
        None => {
            return false;
        },
    };
    let ghost models = items_model(items@);
    let mut i: usize = 0;
    while i < items.len()
        invariant
            i <= items@.len(),
            models == items_model(items@),
            option@.array_at("options"@) == Some(models),
            forall|j: int|
                0 <= j < i ==> !((#[trigger] models[j]).text_at("value"@) == Some(selected@) || (
                models[j].array_at("options"@) matches Some(nested) && offers(
                    nested,
                    "value"@,
                    selected@,
                ))),
        decreases items.len() - i,
    {
        assert(models[i as int] == json_model(items@[i as int]));
        if is_text(items[i].text_at("value"), selected) {
            return true;
        }
        match items[i].array_at("options") {
            Some(nested) => {
                if was_seen(nested, nested.len(), "value", selected) {
                    return true;
                }
            },
            None => {},
        }
        i += 1;
    }
    false
}

/// Validates a value for a config option.
pub fn validate_session_config_reference(options: &Json, config_id: &str, value: &Json) -> (result:
    ValidationResult)
    ensures
        problem_of(result) == config_reference_problem(options@, config_id@, value@),
{
    let option = match options.as_array() {
        Some(items) => match find_option(items, config_id) {
            Some(option) => option,
            None => {
                return Err(join2("Config option was not offered by the Agent: ", config_id));
            },
        },
        None => {
            return Err(join2("Config option was not offered by the Agent: ", config_id));
        },
    };
    let kind = option.text_at("type");
    if is_text(kind, "boolean") {
        if value.as_bool().is_none() {
            return Err(join3("Config option ", config_id, " requires a boolean value"));
        }
        Ok(())
    } else if is_text(kind, "select") {
        proof {
            reveal_strlit("boolean");
            reveal_strlit("select");
        }
        match value.as_str() {
            Some(selected) => {
                if !is_value_offered(option, selected) {
                    return Err(
                        join3("Config option ", config_id, " value was not offered by the Agent"),
                    );
                }
                Ok(())
            },
            None => Err(
                join3("Config option ", config_id, " value was not offered by the Agent"),
            ),
        }
    } else {
        Err(join2("Config option was not offered by the Agent: ", config_id))
    }
}

} // verus!
