//! What the server answers outside the HTTP interface: the files of the
//! client, or the refusal to serve them.
use crate::api::{api_error, error_response, ApiResponse};
use crate::text::{characters, same_text};
use vstd::prelude::*;
use vstd::string::*;

verus! {

/// The name that `mime_guess` gives the content of a file by its path.
pub uninterp spec fn guessed_type(path: Seq<char>) -> Seq<char>;

/// Whether a path means the same on every system: it has neither the other
/// separator nor a drive.
pub open spec fn is_portable(path: Seq<char>) -> bool {
    !path.contains('\\') && !path.contains(':')
}

/// Guesses a type with `mime_guess::from_path` and `first_or_octet_stream`. The
/// guess goes by the extension of the path, which the system finds; it depends
/// on the path alone where the path means the same on every system. A path
/// without a dot has no extension and gets the general type. Which type an
/// extension gets is not stated.
#[verifier::external_body]
fn guess_type(path: &str) -> (name: String)
    ensures
        is_portable(path@) ==> name@ == guessed_type(path@),
        !path@.contains('.') ==> name@ == "application/octet-stream"@,
{
    mime_guess::from_path(path).first_or_octet_stream().to_string()
}

/// A path without the slashes that it begins with.
pub open spec fn without_slashes(path: Seq<char>) -> Seq<char>
    decreases path.len(),
{
    if path.len() > 0 && path[0] == '/' {
        without_slashes(path.drop_first())
    } else {
        path
    }
}

/// The file that a path asks for. The empty path asks for the index.
pub open spec fn asked_file(path: Seq<char>) -> Seq<char> {
    if without_slashes(path).len() == 0 {
        "index.html"@
    } else {
        without_slashes(path)
    }
}

/// The file that a path asks for.
pub fn requested_asset(path: &str) -> (file: &str)
    ensures
        file@ == asked_file(path@),
{
    let chars = characters(path);
    let mut i: usize = 0;
    assert(path@.skip(0) =~= path@);
    while i < chars.len() && chars[i] == '/'
        invariant
            i <= chars@.len(),
            chars@ == path@,
            without_slashes(path@) == without_slashes(path@.skip(i as int)),
        decreases chars.len() - i,
    {
        assert(path@.skip(i as int).drop_first() =~= path@.skip(i + 1));
        i += 1;
    }
    if i == chars.len() {
        return "index.html";
    }
    assert(path@.skip(i as int)[0] == path@[i as int]);
    assert(path@.subrange(i as int, path@.len() as int) =~= path@.skip(i as int));
    path.substring_char(i, chars.len())
}

/// The file that is served: the one that was asked for, else the index, else
/// none.
pub open spec fn served_file(path: Seq<char>, found: bool, has_index: bool) -> Option<Seq<char>> {
    if found {
        Some(asked_file(path))
    } else if has_index {
        Some("index.html"@)
    } else {
        None
    }
}

/// The file that is served for a path, when it is known whether the file that
/// the path asks for is there and whether the index is.
pub fn served_asset(path: &str, found: bool, has_index: bool) -> (file: Option<&str>)
    ensures
        match file {
            Some(file) => served_file(path@, found, has_index) == Some(file@),
            None => served_file(path@, found, has_index) is None,
        },
{
    if found {
        Some(requested_asset(path))
    } else if has_index {
        Some("index.html")
    } else {
        None
    }
}

/// The headers that go with a file: the type of its content, and that it may
/// not be shown in a frame.
pub fn asset_headers(file: &str) -> (headers: Vec<(&'static str, String)>)
    ensures
        headers@.len() == 3,
        headers@[0].0@ == "content-type"@,
        is_portable(file@) ==> headers@[0].1@ == guessed_type(file@),
        !file@.contains('.') ==> headers@[0].1@ == "application/octet-stream"@,
        headers@[1].0@ == "content-security-policy"@,
        headers@[1].1@ == "frame-ancestors 'none'"@,
        headers@[2].0@ == "x-frame-options"@,
        headers@[2].1@ == "DENY"@,
{
    let mut headers: Vec<(&'static str, String)> = Vec::new();
    headers.push(("content-type", guess_type(file)));
    headers.push(("content-security-policy", "frame-ancestors 'none'".to_string()));
    headers.push(("x-frame-options", "DENY".to_string()));
    headers
}

/// What happens to a request that no route takes.
pub enum FrontendAction {
    /// It is answered at once.
    Answer(ApiResponse),
    /// It goes to the development server.
    Forward,
    /// Its method is refused.
    RefuseMethod,
    /// A file is served.
    Serve,
}

/// Whether a path belongs to the HTTP interface.
pub open spec fn is_api_path(path: Seq<char>) -> bool {
    path == "/api"@ || (path.len() >= 5 && path.take(5) == "/api/"@)
}

fn belongs_to_api(path: &str) -> (found: bool)
    ensures
        found == is_api_path(path@),
{
    proof {
        reveal_strlit("/api/");
    }
    if same_text(path, "/api") {
        return true;
    }
    let chars = characters(path);
    let found = chars.len() >= 5 && chars[0] == '/' && chars[1] == 'a' && chars[2] == 'p'
        && chars[3] == 'i' && chars[4] == '/';
    proof {
        if path@.len() >= 5 {
            let start = path@.take(5);
            if found {
                assert(start =~= "/api/"@);
            }
            assert(start[0] == path@[0] && start[1] == path@[1] && start[2] == path@[2] && start[3]
                == path@[3] && start[4] == path@[4]);
        }
    }
    found
}

/// What happens to a request that no route takes: paths of the HTTP interface
/// are not found, all others go to the development server where there is one,
/// and without one only reading is served.
pub fn route_frontend(path: &str, has_proxy: bool, reads: bool) -> (action: FrontendAction)
    ensures
        if is_api_path(path@) {
            action matches FrontendAction::Answer(answer) && answer@ == error_response(
                404,
                "API route not found"@,
            )
        } else if has_proxy {
            action is Forward
        } else if !reads {
            action is RefuseMethod
        } else {
            action is Serve
        },
{
    if belongs_to_api(path) {
        FrontendAction::Answer(api_error(404, "API route not found"))
    } else if has_proxy {
        FrontendAction::Forward
    } else if !reads {
        FrontendAction::RefuseMethod
    } else {
        FrontendAction::Serve
    }
}

} // verus!
