use reqwest::header::{HeaderMap, HeaderValue};
use vibing::error::AppError;
use vibing::requests::{
    check_status, contains_text, prepare_fetch, select_body_encoding, trim_text, BodyEncoding,
    FetchOptions, Method,
};

#[derive(Debug, PartialEq)]
struct Payload {
    name: String,
}

fn payload() -> Option<Payload> {
    Some(Payload { name: "club".to_string() })
}

fn headers_with(name: &'static str, value: &'static str) -> HeaderMap {
    let mut h = HeaderMap::new();
    h.append(name, HeaderValue::from_static(value));
    h
}

#[test]
fn no_headers_default_to_json_and_declare_it() {
    let mut headers: Option<HeaderMap> = None;
    assert_eq!(select_body_encoding(&mut headers), Ok(BodyEncoding::Json));
    let h = headers.expect("headers are set");
    assert_eq!(h.len(), 1);
    assert_eq!(h.get("content-type").unwrap(), "application/json");
}

#[test]
fn headers_without_content_type_give_json() {
    let mut headers = Some(headers_with("Accept", "text/plain"));
    assert_eq!(select_body_encoding(&mut headers), Ok(BodyEncoding::Json));
    assert_eq!(headers.unwrap().len(), 1);
}

#[test]
fn form_data_content_type_gives_form_encoding() {
    let mut headers = Some(headers_with("Content-type", "multipart/form-data"));
    assert_eq!(select_body_encoding(&mut headers), Ok(BodyEncoding::Form));
}

#[test]
fn json_content_type_gives_json() {
    let mut headers = Some(headers_with("Content-type", "application/vnd.api+json"));
    assert_eq!(select_body_encoding(&mut headers), Ok(BodyEncoding::Json));
}

#[test]
fn json_wins_over_form_data() {
    let mut headers = Some(headers_with("Content-type", "form-data; json"));
    assert_eq!(select_body_encoding(&mut headers), Ok(BodyEncoding::Json));
}

#[test]
fn urlencoded_content_type_is_passed_through_raw() {
    let mut headers = Some(headers_with("Content-type", "application/x-www-form-urlencoded"));
    assert_eq!(select_body_encoding(&mut headers), Ok(BodyEncoding::Raw));
}

#[test]
fn content_type_name_ignores_ascii_case() {
    let mut headers = Some(headers_with("CONTENT-TYPE", "multipart/form-data"));
    assert_eq!(select_body_encoding(&mut headers), Ok(BodyEncoding::Form));
}

#[test]
fn first_content_type_decides() {
    let mut h = headers_with("content-type", "text/plain");
    h.append("content-type", HeaderValue::from_static("application/json"));
    let mut headers = Some(h);
    assert_eq!(select_body_encoding(&mut headers), Ok(BodyEncoding::Raw));
}

#[test]
fn unreadable_content_type_is_an_error() {
    let mut h = HeaderMap::new();
    h.insert("content-type", HeaderValue::from_bytes("application/jsön".as_bytes()).unwrap());
    let mut headers = Some(h);
    assert_eq!(
        select_body_encoding(&mut headers),
        Err(AppError::Other("An error occured while processing your request...".to_string()))
    );
}

#[test]
fn substring_search() {
    assert!(contains_text("application/json", "json"));
    assert!(contains_text("json", "json"));
    assert!(contains_text("abc", ""));
    assert!(!contains_text("js", "json"));
    assert!(!contains_text("application/jsno", "json"));
    assert!(!contains_text("", "a"));
}

#[test]
fn trim_removes_unicode_white_space() {
    assert_eq!(trim_text(" \t\u{3000}a b\u{85}\n"), "a b");
    assert_eq!(trim_text("\u{2000}\u{202f}"), "");
    assert_eq!(trim_text(""), "");
    assert_eq!(trim_text("x\u{200b}"), "x\u{200b}");
}

#[test]
fn prepare_fetch_trims_and_joins_url() {
    let mut options: FetchOptions<Payload> = FetchOptions::new(
        "  https://api.example.org \n".to_string(),
        " /api/v1/club/3 ".to_string(),
        Method::Get,
        None,
        Some("tok".to_string()),
        None,
    );
    let plan = prepare_fetch(&mut options).expect("no body, no failure");
    assert_eq!(plan.url, "https://api.example.org/api/v1/club/3");
    assert_eq!(plan.method, Method::Get);
    assert_eq!(plan.bearer, Some("tok".to_string()));
    assert_eq!(plan.body_encoding, None);
    assert!(options.headers.is_none());
}

#[test]
fn prepare_fetch_with_body_defaults_headers() {
    let mut options = FetchOptions::new(
        "http://h".to_string(),
        "/p".to_string(),
        Method::Post,
        None,
        None,
        payload(),
    );
    let plan = prepare_fetch(&mut options).expect("json body");
    assert_eq!(plan.body_encoding, Some(BodyEncoding::Json));
    assert_eq!(plan.bearer, None);
    let h = options.headers.as_ref().expect("defaulted");
    assert_eq!(h.get("Content-Type").unwrap(), "application/json");
    assert_eq!(options.data, payload());
}

#[test]
fn prepare_fetch_with_form_data_body() {
    let mut options = FetchOptions::new(
        "http://h".to_string(),
        "/p".to_string(),
        Method::Put,
        Some(headers_with("Content-type", "form-data")),
        None,
        payload(),
    );
    let plan = prepare_fetch(&mut options).expect("form body");
    assert_eq!(plan.body_encoding, Some(BodyEncoding::Form));
}

#[test]
fn prepare_fetch_reports_unreadable_content_type() {
    let mut options = FetchOptions::new(
        "http://h".to_string(),
        "/p".to_string(),
        Method::Post,
        Some({
            let mut h = HeaderMap::new();
            h.insert("content-type", HeaderValue::from_bytes(&[0xff]).unwrap());
            h
        }),
        None,
        payload(),
    );
    assert!(matches!(prepare_fetch(&mut options), Err(AppError::Other(_))));
}

#[test]
fn unauthorized_status_is_an_authorization_error() {
    assert_eq!(check_status(401), Err(AppError::AuthorizationError(None)));
}

#[test]
fn server_error_status_is_a_network_error() {
    assert_eq!(check_status(500), Err(AppError::NetworkError(None)));
}

#[test]
fn other_statuses() {
    assert_eq!(check_status(200), Ok(()));
    assert_eq!(check_status(204), Ok(()));
    assert_eq!(check_status(299), Ok(()));
    assert_eq!(check_status(300), Err(AppError::NetworkError(None)));
    assert_eq!(check_status(403), Err(AppError::NetworkError(None)));
    assert_eq!(check_status(404), Err(AppError::NetworkError(None)));
}

#[test]
fn connection_failure_is_a_fetch_error() {
    assert_eq!(AppError::from_transport(None), AppError::FetchError(None));
}

#[test]
fn transport_errors_by_status() {
    assert_eq!(AppError::from_transport(Some(401)), AppError::AuthorizationError(Some(401)));
    assert_eq!(AppError::from_transport(Some(499)), AppError::AuthorizationError(Some(499)));
    assert_eq!(AppError::from_transport(Some(503)), AppError::NetworkError(Some(503)));
    assert_eq!(AppError::from_transport(Some(302)), AppError::FetchError(Some(302)));
    assert_eq!(AppError::from_transport(Some(600)), AppError::FetchError(Some(600)));
}

#[test]
fn join_url_keeps_both_parts() {
    assert_eq!(vibing::requests::join_url("http://h", "/p"), "http://h/p");
    assert_eq!(vibing::requests::join_url(" a ", " b"), " a  b");
}
