use tidal_tui::api::auth::{
    basic_credentials_header, build_auth_url, extract_query_param, generate_pkce, pkce_from_seed,
    redirect_uri,
};
use tidal_tui::api::client::{api_url, bearer_header};
use tidal_tui::cli::looks_like_tidal_web_url;

#[test]
fn pkce_verifier_and_challenge_differ() {
    let (v, c) = generate_pkce().unwrap();
    assert!(!v.is_empty());
    assert!(!c.is_empty());
    assert_ne!(v, c);
}

#[test]
fn pkce_challenge_is_base64url() {
    let (_, c) = generate_pkce().unwrap();
    // URL_SAFE_NO_PAD — must not contain +, /, or =
    assert!(!c.contains('+'));
    assert!(!c.contains('/'));
    assert!(!c.contains('='));
}

#[test]
fn pkce_from_known_seed() {
    // RFC 7636, appendix B.
    let seed: [u8; 32] = [
        116, 24, 223, 180, 151, 153, 224, 37, 79, 250, 96, 125, 216, 173, 187, 186, 22, 212, 37,
        77, 105, 214, 191, 240, 91, 88, 5, 88, 83, 132, 141, 121,
    ];
    let (v, c) = pkce_from_seed(&seed);
    assert_eq!(v, "dBjftJeZ4CVP-mB92K27uhbUJU1p1r_wW1gFWFOEjXk");
    assert_eq!(c, "E9Melhoa2OwvFrEMTJguCHaoeK1t8URWbuGJSstw-cM");
}

#[test]
fn build_auth_url_contains_required_params() {
    let url = build_auth_url(
        "cid",
        "http://localhost:8080/callback",
        "chall",
        "st",
        &["r_usr", "w_usr"],
    );
    assert!(url.contains("client_id=cid"), "missing client_id");
    assert!(url.contains("code_challenge=chall"), "missing code_challenge");
    assert!(url.contains("code_challenge_method=S256"), "missing S256");
    assert!(url.contains("response_type=code"), "missing response_type");
    assert!(url.contains("r_usr"), "missing r_usr scope");
}

#[test]
fn build_auth_url_exact_text() {
    let url = build_auth_url("cid", "http://localhost:8080/callback", "chall", "st", &["r_usr", "w_usr"]);
    assert_eq!(
        url,
        "https://login.tidal.com/authorize?response_type=code&client_id=cid\
         &redirect_uri=http://localhost:8080/callback&scope=r_usr%20w_usr\
         &code_challenge_method=S256&code_challenge=chall&state=st"
    );
    let none = build_auth_url("a", "b", "c", "d", &[]);
    assert!(none.contains("&scope=&code_challenge_method"));
    let one = build_auth_url("a", "b", "c", "d", &["x"]);
    assert!(one.contains("&scope=x&code_challenge_method"));
}

#[test]
fn extract_query_param_works() {
    let req = "GET /callback?code=MYCODE&state=tidal-tui HTTP/1.1\r\n";
    assert_eq!(extract_query_param(req, "code"), Some("MYCODE".into()));
    assert_eq!(extract_query_param(req, "state"), Some("tidal-tui".into()));
    assert_eq!(extract_query_param(req, "missing"), None);
}

#[test]
fn extract_query_param_edge_cases() {
    // Only the first line counts.
    let req = "GET /cb?x=1 HTTP/1.1\r\nHost: code=2\r\n";
    assert_eq!(extract_query_param(req, "code"), None);
    assert_eq!(extract_query_param(req, "x"), Some("1".into()));
    // A key without '=' has an empty value; the first match wins.
    assert_eq!(extract_query_param("GET /cb?flag&a=1&a=2 HTTP/1.1", "flag"), Some(String::new()));
    assert_eq!(extract_query_param("GET /cb?flag&a=1&a=2 HTTP/1.1", "a"), Some("1".into()));
    // The value keeps any further '='.
    assert_eq!(extract_query_param("GET /cb?a=b=c", "a"), Some("b=c".into()));
    // No query, no path, empty request.
    assert_eq!(extract_query_param("GET /cb HTTP/1.1", "a"), None);
    assert_eq!(extract_query_param("GET", "a"), None);
    assert_eq!(extract_query_param("", "a"), None);
    // Runs of white space separate words.
    assert_eq!(extract_query_param("GET  \t /cb?a=9 HTTP/1.1", "a"), Some("9".into()));
    // An empty key matches an empty first pair.
    assert_eq!(extract_query_param("GET /cb?&a=1", ""), Some(String::new()));
}

#[test]
fn basic_credentials_header_encodes_pair() {
    assert_eq!(basic_credentials_header("cid", "sec"), "Basic Y2lkOnNlYw==");
    assert_eq!(basic_credentials_header("", ""), "Basic Og==");
}

#[test]
fn api_url_and_bearer_header() {
    assert_eq!(api_url("/tracks/1"), "https://openapi.tidal.com/v2/tracks/1");
    assert_eq!(bearer_header("tok"), "Bearer tok");
}

#[test]
fn tidal_web_urls_are_recognised() {
    assert!(looks_like_tidal_web_url("https://tidal.com/track/123"));
    assert!(looks_like_tidal_web_url("https://listen.tidal.com/album/1"));
    assert!(!looks_like_tidal_web_url("https://cdn.example.com/a.flac"));
    assert!(!looks_like_tidal_web_url(""));
    assert!(!looks_like_tidal_web_url("tidal.com/trac"));
}

#[test]
fn pkce_texts_are_43_chars() {
    let (v, c) = generate_pkce().unwrap();
    assert_eq!(v.len(), 43);
    assert_eq!(c.len(), 43);
    assert!(v.chars().all(|ch| ch.is_ascii_alphanumeric() || ch == '-' || ch == '_'));
}

#[test]
fn pkce_verifier_length_follows_seed_length() {
    let (v1, c1) = pkce_from_seed(&[0xff]);
    assert_eq!(v1, "_w");
    assert_eq!(c1.len(), 43);
    let (v2, _) = pkce_from_seed(&[0xfb, 0xff]);
    assert_eq!(v2, "-_8");
    let (v3, _) = pkce_from_seed(&[0, 0, 0]);
    assert_eq!(v3, "AAAA");
}

#[test]
fn redirect_uri_names_the_port() {
    assert_eq!(redirect_uri(8080), "http://localhost:8080/callback");
    assert_eq!(redirect_uri(0), "http://localhost:0/callback");
    assert_eq!(redirect_uri(7), "http://localhost:7/callback");
    assert_eq!(redirect_uri(65535), "http://localhost:65535/callback");
}
