//! The error answers of the platform API.

use vstd::prelude::*;
use vstd::utf8::is_ascii_chars;
use crate::text::{ascii_lower, copy_str, lower_char, push_char, replace_all, replace_str, to_chars};

verus! {

/// The reason phrase the `http` crate gives a status code.
pub uninterp spec fn canonical_reason_phrase(status: u16) -> Option<Seq<char>>;

/// The view of an optional string slice.
pub open spec fn opt_str_view(o: Option<&str>) -> Option<Seq<char>> {
    match o {
        Some(s) => Some(s@),
        None => None,
    }
}

/// The standard reason phrase of a status code, if it has one.
///
/// Trusted: `StatusCode::canonical_reason` of the `http` crate (through axum). Its source is
/// a fixed table from codes to phrases, all of them ASCII; the contract names the table
/// (`canonical_reason_phrase`), states that the phrases are ASCII, and states the phrases
/// of the three codes the library answers with (404 `Not Found`, 409 `Conflict`, 500
/// `Internal Server Error`). Codes outside 100..=999 are not valid status codes and are
/// left out.
#[verifier::external_body]
fn canonical_reason(status: u16) -> (r: Option<&'static str>)
    requires
        100 <= status <= 999,
    ensures
        opt_str_view(r) == canonical_reason_phrase(status),
        r matches Some(p) ==> is_ascii_chars(p@),
        status == 404 ==> opt_str_view(r) == Some("Not Found"@),
        status == 409 ==> opt_str_view(r) == Some("Conflict"@),
        status == 500 ==> opt_str_view(r) == Some("Internal Server Error"@),
{
    match axum::http::StatusCode::from_u16(status) {
        Ok(code) => code.canonical_reason(),
        Err(_) => None,
    }
}

/// Replacing each space by an underscore maps the characters one by one.
proof fn lemma_replace_spaces(s: Seq<char>)
    ensures
        replace_all(s, seq![' '], seq!['_']) == s.map_values(|c: char| if c == ' ' { '_' } else { c }),
    decreases s.len(),
{
    if s.len() > 0 {
        lemma_replace_spaces(s.skip(1));
        assert(s.skip(1).map_values(|c: char| if c == ' ' { '_' } else { c })
            =~= s.map_values(|c: char| if c == ' ' { '_' } else { c }).skip(1));
        if s[0] == ' ' {
            assert(s.take(1) =~= seq![' ']);
        } else {
            assert(s.take(1)[0] != seq![' '][0]);
        }
        assert(s.map_values(|c: char| if c == ' ' { '_' } else { c }) =~= seq![if s[0] == ' ' { '_' } else { s[0] }]
            + s.map_values(|c: char| if c == ' ' { '_' } else { c }).skip(1));
    }
}

/// The error code of a phrase: lower case, spaces turned into underscores.
proof fn lemma_code_of(phrase: Seq<char>, code: Seq<char>)
    requires
        phrase.len() == code.len(),
        forall|i: int| 0 <= i < phrase.len() ==> #[trigger] code[i] == (if phrase[i] == ' ' { '_' } else { ascii_lower(phrase[i]) }),
    ensures
        replace_all(phrase.map_values(|c: char| ascii_lower(c)), " "@, "_"@) == code,
{
    reveal_strlit(" ");
    reveal_strlit("_");
    assert(" "@ =~= seq![' ']);
    assert("_"@ =~= seq!['_']);
    let lower = phrase.map_values(|c: char| ascii_lower(c));
    lemma_replace_spaces(lower);
    assert(lower.map_values(|c: char| if c == ' ' { '_' } else { c }) =~= code);
}

/// The error codes of the statuses the library answers with, from their phrases.
proof fn lemma_error_code(status: u16)
    requires
        status == 404 ==> canonical_reason_phrase(status) == Some("Not Found"@),
        status == 409 ==> canonical_reason_phrase(status) == Some("Conflict"@),
        status == 500 ==> canonical_reason_phrase(status) == Some("Internal Server Error"@),
    ensures
        status == 404 ==> error_code_of(status) == "not_found"@,
        status == 409 ==> error_code_of(status) == "conflict"@,
        status == 500 ==> error_code_of(status) == "internal_server_error"@,
{
    reveal_strlit("Not Found");
    reveal_strlit("Conflict");
    reveal_strlit("Internal Server Error");
    reveal_strlit("not_found");
    reveal_strlit("conflict");
    reveal_strlit("internal_server_error");
    if status == 404 {
        lemma_code_of("Not Found"@, "not_found"@);
    } else if status == 409 {
        lemma_code_of("Conflict"@, "conflict"@);
    } else if status == 500 {
        lemma_code_of("Internal Server Error"@, "internal_server_error"@);
    }
}

/// An error answer: an HTTP status and a JSON body `{"error": error}`, with a `message`
/// member when there is one.
pub struct ApiError {
    pub status: u16,
    pub error: String,
    pub message: Option<String>,
}

/// The error code derived from a status: its reason phrase in lower case with spaces turned
/// into underscores, or `error` when the status has no phrase.
pub open spec fn error_code_of(status: u16) -> Seq<char> {
    match canonical_reason_phrase(status) {
        Some(p) => replace_all(p.map_values(|c: char| ascii_lower(c)), " "@, "_"@),
        None => "error"@,
    }
}

impl ApiError {
    /// An error with the given status; its code comes from the status (see
    /// `error_code_of`) and its message is `message`.
    pub fn new(status: u16, message: &str) -> (e: ApiError)
        requires
            100 <= status <= 999,
        ensures
            e.status == status,
            e.error@ == error_code_of(status),
            status == 404 ==> e.error@ == "not_found"@,
            status == 409 ==> e.error@ == "conflict"@,
            status == 500 ==> e.error@ == "internal_server_error"@,
            e.message matches Some(m) && m@ == message@,
    {
        let reason = canonical_reason(status);
        proof {
            lemma_error_code(status);
        }
        let error = match reason {
            Some(phrase) => {
                let v = to_chars(phrase);
                let mut lower = String::new();
                let mut i: usize = 0;
                while i < v.len()
                    invariant
                        i <= v@.len(),
                        v@ == phrase@,
                        lower@ == v@.take(i as int).map_values(|c: char| ascii_lower(c)),
                    decreases v@.len() - i,
                {
                    let l = lower_char(v[i]);
                    push_char(&mut lower, l);
                    proof {
                        assert(v@.take(i + 1).map_values(|c: char| ascii_lower(c))
                            =~= v@.take(i as int).map_values(|c: char| ascii_lower(c)).push(l));
                    }
                    i = i + 1;
                }
                assert(v@.take(i as int) =~= v@);
                proof {
                    reveal_strlit(" ");
                }
                replace_str(lower.as_str(), " ", "_")
            },
            None => copy_str("error"),
        };
        ApiError { status: status, error: error, message: Some(copy_str(message)) }
    }

    /// A 404 answer whose code is `message` and that has no message member.
    pub fn not_found(message: &str) -> (e: ApiError)
        ensures
            e.status == 404,
            e.error@ == message@,
            e.message is None,
    {
        ApiError { status: 404, error: copy_str(message), message: None }
    }

    /// The answer to a failure of the service's own work (the store, messaging): a 500
    /// carrying the failure's message.
    pub fn internal(message: &str) -> (e: ApiError)
        ensures
            e.status == 500,
            e.error@ == error_code_of(500),
            e.error@ == "internal_server_error"@,
            e.message matches Some(m) && m@ == message@,
    {
        ApiError::new(500, message)
    }
}

} // verus!
