use tidal_tui::api::playback::{
    decode_manifest, extract_dash_base_url, first_bts_url,
    manifest_kind, ManifestKind,
};
use tidal_tui::errors::AppError;

fn api_message<T: std::fmt::Debug>(r: Result<T, AppError>) -> String {
    match r {
        Err(AppError::Api { status, message }) => {
            assert_eq!(status, 0);
            message
        }
        other => panic!("unexpected {other:?}"),
    }
}

#[test]
fn extract_dash_base_url_works() {
    let mpd = b"<?xml?><MPD><BaseURL>https://cdn.example.com/audio/</BaseURL></MPD>";
    let url = extract_dash_base_url(mpd).unwrap();
    assert_eq!(url, "https://cdn.example.com/audio/");
}

#[test]
fn extract_dash_base_url_missing_errors() {
    let mpd = b"<?xml?><MPD></MPD>";
    assert!(extract_dash_base_url(mpd).is_err());
}

#[test]
fn extract_dash_base_url_error_messages() {
    assert_eq!(
        api_message(extract_dash_base_url(b"<MPD><BaseURL>x</MPD>")),
        "No <BaseURL> element found in DASH manifest"
    );
    let bad = api_message(extract_dash_base_url(&[0x3c, 0xff, 0xfe]));
    assert!(bad.starts_with("DASH manifest is not valid UTF-8: "));
    // Non-ASCII text before the element is kept apart correctly.
    let mpd = "<MPD é><BaseURL>ü/</BaseURL><BaseURL>z</BaseURL>".as_bytes();
    assert_eq!(extract_dash_base_url(mpd).unwrap(), "ü/");
    assert_eq!(extract_dash_base_url(b"<BaseURL></BaseURL>").unwrap(), "");
}

#[test]
fn dash_takes_first_element_when_a_close_tag_comes_first() {
    assert_eq!(extract_dash_base_url(b"</BaseURL><BaseURL>x</BaseURL>").unwrap(), "x");
    assert_eq!(
        extract_dash_base_url(b"<BaseURL>a</BaseURL><BaseURL>b</BaseURL>").unwrap(),
        "a"
    );
}

#[test]
fn dash_open_tag_without_a_following_close_is_an_error() {
    assert_eq!(
        api_message(extract_dash_base_url(b"</BaseURL><BaseURL>x")),
        "No <BaseURL> element found in DASH manifest"
    );
}

#[test]
fn manifest_kinds() {
    assert_eq!(manifest_kind("application/vnd.tidal.bts").unwrap(), ManifestKind::Bts);
    assert_eq!(manifest_kind("application/dash+xml").unwrap(), ManifestKind::Dash);
    assert_eq!(api_message(manifest_kind("text/plain")), "Unknown manifest MIME type: text/plain");
}

#[test]
fn decode_manifest_base64() {
    assert_eq!(decode_manifest("aGVsbG8=").unwrap(), b"hello".to_vec());
    let m = api_message(decode_manifest("!!!"));
    assert!(m.starts_with("Failed to base64-decode manifest: "));
}

#[test]
fn first_bts_url_takes_the_first() {
    let urls = vec!["https://example.com/stream.flac".to_string(), "b".to_string()];
    assert_eq!(first_bts_url(urls).unwrap(), "https://example.com/stream.flac");
    assert_eq!(api_message(first_bts_url(vec![])), "BTS manifest contains no URLs");
}
