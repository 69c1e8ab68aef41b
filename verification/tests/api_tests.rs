use std::cell::RefCell;

use query_menu::api::fetch_json_api;
use query_menu::api::resolve_token;
use query_menu::capabilities::GetInput;
use query_menu::capabilities::QueryClient;
use query_menu::AppError;

struct ScriptedInput {
    line: Option<String>,
    secret: Option<String>,
    secret_allowed: bool,
    secret_asked: RefCell<bool>,
}

impl GetInput for ScriptedInput {
    fn query_input(&self, _question: &str) -> Option<String> {
        self.line.clone()
    }

    fn query_secret(&self, _question: &str) -> Option<String> {
        if !self.secret_allowed {
            panic!("the secret prompt must not be consulted");
        }
        *self.secret_asked.borrow_mut() = true;
        self.secret.clone()
    }
}

struct RecordingClient {
    body: Option<String>,
    seen: RefCell<Option<(String, String)>>,
}

impl QueryClient for RecordingClient {
    fn fetch_text(&self, url: &str, token: &str) -> Option<String> {
        *self.seen.borrow_mut() = Some((String::from(url), String::from(token)));
        self.body.clone()
    }
}

#[test]
fn empty_pre_token_uses_the_trimmed_secret() {
    let input = ScriptedInput {
        line: Some(String::from("http://example.com/a\n")),
        secret: Some(String::from(" abc \n")),
        secret_allowed: true,
        secret_asked: RefCell::new(false),
    };
    let client = RecordingClient {
        body: Some(String::from("{\"k\":2}")),
        seen: RefCell::new(None),
    };
    let r = fetch_json_api(&input, &client, "");
    assert!(r.is_ok());
    assert!(*input.secret_asked.borrow());
    let (url, token) = client.seen.borrow().clone().unwrap();
    assert_eq!(url, "http://example.com/a\n");
    assert_eq!(token, "abc");
}

#[test]
fn pre_supplied_token_skips_the_secret_prompt() {
    let input = ScriptedInput {
        line: Some(String::from("http://example.com/b\n")),
        secret: None,
        secret_allowed: false,
        secret_asked: RefCell::new(false),
    };
    let client = RecordingClient {
        body: Some(String::from("{\"k\":2}")),
        seen: RefCell::new(None),
    };
    let r = fetch_json_api(&input, &client, "XYZ");
    assert!(r.is_ok());
    let (_, token) = client.seen.borrow().clone().unwrap();
    assert_eq!(token, "XYZ");
}

#[test]
fn missing_secret_means_no_token() {
    let input = ScriptedInput {
        line: Some(String::from("http://example.com/c")),
        secret: None,
        secret_allowed: true,
        secret_asked: RefCell::new(false),
    };
    let client = RecordingClient {
        body: Some(String::from("[1]")),
        seen: RefCell::new(None),
    };
    let r = fetch_json_api(&input, &client, "");
    assert!(r.is_ok());
    let (_, token) = client.seen.borrow().clone().unwrap();
    assert_eq!(token, "");
}

#[test]
fn missing_url_fails_before_any_fetch() {
    let input = ScriptedInput {
        line: None,
        secret: None,
        secret_allowed: true,
        secret_asked: RefCell::new(false),
    };
    let client = RecordingClient {
        body: Some(String::from("{}")),
        seen: RefCell::new(None),
    };
    assert_eq!(fetch_json_api(&input, &client, ""), Err(AppError::InputFailed));
    assert!(client.seen.borrow().is_none());
}

#[test]
fn failed_fetch_yields_no_formatted_result() {
    let input = ScriptedInput {
        line: Some(String::from("http://example.com/d")),
        secret: None,
        secret_allowed: true,
        secret_asked: RefCell::new(false),
    };
    let client = RecordingClient {
        body: None,
        seen: RefCell::new(None),
    };
    assert_eq!(fetch_json_api(&input, &client, ""), Err(AppError::FetchFailed));
}

#[test]
fn non_json_body_fails() {
    let input = ScriptedInput {
        line: Some(String::from("http://example.com/e")),
        secret: None,
        secret_allowed: true,
        secret_asked: RefCell::new(false),
    };
    let client = RecordingClient {
        body: Some(String::from("<html></html>")),
        seen: RefCell::new(None),
    };
    assert_eq!(fetch_json_api(&input, &client, ""), Err(AppError::InvalidJson));
}

#[test]
fn json_body_is_pretty_printed() {
    let input = ScriptedInput {
        line: Some(String::from("http://example.com/f")),
        secret: None,
        secret_allowed: true,
        secret_asked: RefCell::new(false),
    };
    let client = RecordingClient {
        body: Some(String::from("{\"a\":1}")),
        seen: RefCell::new(None),
    };
    assert_eq!(
        fetch_json_api(&input, &client, ""),
        Ok(String::from("{\n  \"a\": 1\n}"))
    );
}

#[test]
fn resolve_token_prefers_the_pre_supplied_token() {
    assert_eq!(resolve_token("XYZ", Some(String::from("abc"))), "XYZ");
    assert_eq!(resolve_token("XYZ", None), "XYZ");
}

#[test]
fn resolve_token_trims_the_secret_answer() {
    assert_eq!(resolve_token("", Some(String::from(" abc \n"))), "abc");
}

#[test]
fn resolve_token_defaults_to_no_token() {
    assert_eq!(resolve_token("", None), "");
    assert_eq!(resolve_token("", Some(String::from("  "))), "");
}
