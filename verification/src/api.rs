use vstd::prelude::*;
use vstd::string::StrSliceExecFns;
use vstd::string::StringExecFns;
use crate::AppError;
use crate::capabilities::GetInput;
use crate::capabilities::QueryClient;
use crate::json::json_doc;
use crate::json::json_pretty;
use crate::json::pretty_json;
use crate::text::trim_spec;
use crate::text::trim_str;

verus! {

/// The bearer token a request goes out with: a non-empty pre-supplied token
/// is used as it stands; otherwise the secret answer, trimmed, stands in,
/// and a missing answer means no token at all.
pub open spec fn resolved_token_spec(pre: Seq<char>, secret: Option<Seq<char>>) -> Seq<char> {
    if pre.len() > 0 {
        pre
    } else {
        match secret {
            Some(answer) => trim_spec(answer),
            None => Seq::<char>::empty(),
        }
    }
}

/// Picks the token a request goes out with, from the pre-supplied token and
/// the answer to the secret prompt, if one was asked for.
pub fn resolve_token(pre_token: &str, secret_answer: Option<String>) -> (r: String)
    ensures
        r@ == resolved_token_spec(pre_token@, secret_answer.deep_view()),
{
    if pre_token.unicode_len() > 0 {
        String::from_str(pre_token)
    } else {
        match secret_answer {
            Some(answer) => trim_str(answer.as_str()),
            None => String::new(),
        }
    }
}

/// The generic API fetch action: prompts for a URL, settles the bearer token
/// (the secret prompt is consulted only when the pre-supplied token is
/// empty), fetches the URL with that token, and pretty-prints the response
/// body. Whatever the input source and the client answered, a successful
/// result is the lossless pretty form of some valid JSON body; a missing URL,
/// a failed fetch or a non-JSON body yields the matching error and no output.
pub fn fetch_json_api<I: GetInput, Q: QueryClient>(
    user_query: &I,
    http_query: &Q,
    pre_token: &str,
) -> (r: Result<String, AppError>)
    ensures
        r is Ok ==> exists|body: Seq<char>|
            #[trigger] json_doc(body) is Some && r->Ok_0@ == json_pretty(body) && json_doc(
                r->Ok_0@,
            ) == json_doc(body),
        r is Err ==> (r->Err_0 == AppError::InputFailed || r->Err_0 == AppError::FetchFailed
            || r->Err_0 == AppError::InvalidJson),
{
    let url = match user_query.query_input("Url: ") {
        Some(u) => u,
        None => {
            return Err(AppError::InputFailed);
        },
    };
    let secret_answer = if pre_token.unicode_len() == 0 {
        user_query.query_secret("Token (If empty ignored): ")
    } else {
        None
    };
    let token = resolve_token(pre_token, secret_answer);
    let body = match http_query.fetch_text(url.as_str(), token.as_str()) {
        Some(body) => body,
        None => {
            return Err(AppError::FetchFailed);
        },
    };
    let ghost raw = body@;
    let r = pretty_json(body);
    proof {
        if r is Ok {
            assert(json_doc(raw) is Some);
        }
    }
    r
}

} // verus!
