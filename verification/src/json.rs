use vstd::prelude::*;
use crate::AppError;
use crate::capabilities::GetInput;
use crate::text::trim_str;

verus! {

// Names the outcome of serde_json's parser on a text: nothing where the text
// is not a single valid JSON document, and otherwise a stand-in that
// identifies the parsed value up to structural equality — two texts parse to
// structurally equal values exactly when their stand-ins are equal.
pub uninterp spec fn json_doc(s: Seq<char>) -> Option<int>;

// Names the text serde_json's pretty printer produces for the value parsed
// out of a valid JSON text.
pub uninterp spec fn json_pretty(s: Seq<char>) -> Seq<char>;

/// Relies on serde_json::from_str::<Value>, whose outcome depends on the text
/// alone, and serde_json::to_string_pretty, whose output depends on the parsed
/// value alone, never fails on a Value, and serializes it with no information
/// loss, so that re-parsing the pretty text yields a structurally equal value.
#[verifier::external_body]
fn pretty_text(raw: &str) -> (r: Option<String>)
    ensures
        r is Some <==> json_doc(raw@) is Some,
        r is Some ==> r->0@ == json_pretty(raw@),
        r is Some ==> json_doc(json_pretty(raw@)) == json_doc(raw@),
{
    match serde_json::from_str::<serde_json::Value>(raw) {
        Ok(value) => serde_json::to_string_pretty(&value).ok(),
        Err(_) => None,
    }
}

/// Re-serializes a JSON text with stable, human-readable indentation.
/// Succeeds exactly on valid JSON, produces no output otherwise, and loses
/// nothing: the pretty text parses back to a value structurally equal to the
/// one parsed out of the input.
pub fn pretty_json(stringified: String) -> (r: Result<String, AppError>)
    ensures
        r is Ok <==> json_doc(stringified@) is Some,
        r is Err ==> r->Err_0 == AppError::InvalidJson,
        r is Ok ==> r->Ok_0@ == json_pretty(stringified@),
        r is Ok ==> json_doc(r->Ok_0@) == json_doc(stringified@),
{
    match pretty_text(stringified.as_str()) {
        Some(pretty) => Ok(pretty),
        None => Err(AppError::InvalidJson),
    }
}

/// The pretty-print action: prompts once for a raw JSON text, trims it, and
/// pretty-prints it. Whatever the input source answered, a successful result
/// is the lossless pretty form of some valid JSON text.
pub fn pretty_print_json<I: GetInput>(user_query: &I) -> (r: Result<String, AppError>)
    ensures
        r is Ok ==> exists|raw: Seq<char>|
            #[trigger] json_doc(raw) is Some && r->Ok_0@ == json_pretty(raw) && json_doc(
                r->Ok_0@,
            ) == json_doc(raw),
        r is Err ==> (r->Err_0 == AppError::InputFailed || r->Err_0 == AppError::InvalidJson),
{
    match user_query.query_input("Show me that ugly json.") {
        Some(answer) => {
            let trimmed = trim_str(answer.as_str());
            let ghost raw = trimmed@;
            let r = pretty_json(trimmed);
            proof {
                if r is Ok {
                    assert(json_doc(raw) is Some);
                }
            }
            r
        },
        None => Err(AppError::InputFailed),
    }
}

} // verus!
