use topgg::client::{api_bot_url, api_bots_url, api_user_url, api_voted_url, voted_from_response};
use topgg::error::classify_status;
use topgg::http::{parse_status_code, response_body};
use topgg::{AsClient, AsClientSealed, Client, Error, Http};

#[test]
fn client_token_gets_the_bearer_scheme() {
    let c = Client::new("SECRET-REDACTED".to_string());
    assert_eq!(c.auth_header(), "Bearer SECRET-REDACTED");
}

#[test]
fn a_raw_token_acts_as_a_client() {
    fn take<C: AsClient + ?Sized>(c: &C) -> Client {
        c.as_client()
    }
    let c = take("tok");
    assert_eq!(c.auth_header(), "Bearer tok");
    let again = take(&c);
    assert_eq!(again.auth_header(), "Bearer tok");
}

#[test]
fn api_urls_are_exact() {
    assert_eq!(api_user_url(661200758510977084), "https://top.gg/api/users/661200758510977084");
    assert_eq!(api_bot_url(264811613708746752), "https://top.gg/api/bots/264811613708746752");
    assert_eq!(api_voted_url(5), "https://top.gg/api/bots/check?userId=5");
    assert_eq!(api_bots_url("?limit=3"), "https://top.gg/api/bots?limit=3");
}

#[test]
fn voted_reads_any_nonzero_as_true() {
    assert!(!voted_from_response(0));
    assert!(voted_from_response(1));
    assert!(voted_from_response(2));
}

#[test]
fn status_classification_matches_the_api() {
    assert!(classify_status(200, None).is_ok());
    assert!(classify_status(204, None).is_ok());
    assert!(matches!(classify_status(404, None), Err(Error::NotFound)));
    assert!(matches!(
        classify_status(429, Some(30)),
        Err(Error::Ratelimit { retry_after: 30 })
    ));
    assert!(matches!(classify_status(429, None), Err(Error::InternalServerError)));
    assert!(matches!(classify_status(500, None), Err(Error::InternalServerError)));
    assert!(matches!(classify_status(301, None), Err(Error::InternalServerError)));
}

#[test]
fn error_messages_are_rendered() {
    assert_eq!(Error::InternalServerError.message(), "internal server error");
    assert_eq!(Error::NotFound.message(), "not found");
    assert_eq!(
        Error::Ratelimit { retry_after: 120 }.message(),
        "this client is ratelimited, try again in 2 seconds"
    );
}

#[test]
fn request_payload_is_the_exact_wire_text() {
    let http = Http::new("tok".to_string());
    let text = http.request_payload("POST", "/bots/stats", Some("{\"server_count\":5}"));
    assert_eq!(
        text,
        "POST /api/bots/stats HTTP/1.1\r\n\
         Authorization: Bearer tok\r\n\
         Connection: close\r\n\
         Content-Length: 18\r\n\
         Content-Type: application/json\r\n\
         Host: top.gg\r\n\
         User-Agent: topgg (https://github.com/top-gg/rust-sdk) Rust/\r\n\r\n\
         {\"server_count\":5}"
    );
}

#[test]
fn request_payload_without_a_body() {
    let http = Http::new("tok".to_string());
    let text = http.request_payload("GET", "/weekend", None);
    assert!(text.starts_with("GET /api/weekend HTTP/1.1\r\n"));
    assert!(text.contains("Content-Length: 0\r\n"));
    assert!(text.ends_with("\r\n\r\n"));
}

#[test]
fn status_code_is_read_from_the_status_line() {
    assert_eq!(parse_status_code("HTTP/1.1 200 OK\r\n\r\n"), Some(200));
    assert_eq!(parse_status_code("HTTP/1.1 429 Too Many Requests\r\n"), Some(429));
    assert_eq!(parse_status_code("  HTTP/1.1   404 Not Found"), Some(404));
    assert_eq!(parse_status_code("HTTP/1.1"), None);
    assert_eq!(parse_status_code("HTTP/1.1 abc"), None);
    assert_eq!(parse_status_code(""), None);
}

#[test]
fn body_is_split_off_after_the_blank_line() {
    let resp = "HTTP/1.1 200 OK\r\nHost: top.gg\r\n\r\n{\"ok\":true}";
    assert_eq!(response_body(resp), Some("{\"ok\":true}".to_string()));
    assert_eq!(response_body("HTTP/1.1 200 OK\r\n"), None);
    assert_eq!(response_body("headers\r\n\r\n"), Some(String::new()));
}
