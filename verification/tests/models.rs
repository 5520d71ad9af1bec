use std::str::FromStr;
use tidal_tui::api::client::{plan_token, TokenPlan};
use tidal_tui::api::models::{parse_audio_quality, AudioQuality, TokenSet};
use tidal_tui::api::search::SearchResults;
use tidal_tui::api::models::{ArtistAttributes, Resource, SearchResultAttributes};
use tidal_tui::cache::Cache;
use tidal_tui::config::{default_country_code, default_redirect_port};
use tidal_tui::errors::AppError;

fn token(expires_at: u64, refresh: Option<&str>) -> TokenSet {
    TokenSet {
        access_token: "tok".into(),
        token_type: "Bearer".into(),
        expires_in: 3600,
        expires_at,
        refresh_token: refresh.map(|s| s.to_string()),
        scope: None,
    }
}

#[test]
fn token_set_expired() {
    let t = TokenSet {
        access_token: "tok".into(),
        token_type: "Bearer".into(),
        expires_in: 3600,
        expires_at: 0, // epoch — definitely expired
        refresh_token: None,
        scope: None,
    };
    assert!(t.is_expired());
}

#[test]
fn token_set_valid() {
    let t = TokenSet {
        access_token: "tok".into(),
        token_type: "Bearer".into(),
        expires_in: 3600,
        expires_at: u64::MAX, // far future
        refresh_token: None,
        scope: None,
    };
    assert!(!t.is_expired());
}

#[test]
fn token_expiry_has_sixty_second_buffer() {
    let t = token(1000, None);
    assert!(!t.is_expired_at(939));
    assert!(t.is_expired_at(940));
    assert!(t.is_expired_at(5000));
    assert!(token(u64::MAX, None).is_expired_at(u64::MAX));
    assert!(!token(u64::MAX, None).is_expired_at(u64::MAX - 61));
}

#[test]
fn stamp_expiry_adds_lifetime() {
    let mut t = token(0, None);
    t.stamp_expiry(1_000);
    assert_eq!(t.expires_at, 4_600);
    assert_eq!(t.expires_in, 3600);
}

#[test]
fn token_plan_priority() {
    assert_eq!(plan_token(&Some(token(10_000, Some("r"))), 100), TokenPlan::UseCached("tok".into()));
    assert_eq!(plan_token(&Some(token(10, Some("r"))), 100), TokenPlan::Refresh("r".into()));
    assert_eq!(plan_token(&Some(token(10, None)), 100), TokenPlan::ClientCredentials);
    assert_eq!(plan_token(&None, 100), TokenPlan::ClientCredentials);
}

#[test]
fn audio_quality_round_trip() {
    assert_eq!(AudioQuality::from_str("LOSSLESS").unwrap(), AudioQuality::Lossless);
    assert_eq!(AudioQuality::from_str("HI_RES").unwrap(), AudioQuality::HiRes);
    assert_eq!(AudioQuality::from_str("LOW").unwrap(), AudioQuality::Low);
    assert_eq!(AudioQuality::from_str("HIGH").unwrap(), AudioQuality::High);
    assert_eq!(AudioQuality::Lossless.as_api_str(), "LOSSLESS");
    assert_eq!(AudioQuality::HiRes.as_api_str(), "HI_RES");
}

#[test]
fn audio_quality_unknown_errors() {
    assert!(AudioQuality::from_str("ULTRA").is_err());
}

#[test]
fn audio_quality_is_case_insensitive_and_names_the_unknown() {
    assert_eq!(parse_audio_quality("hi_res").unwrap(), AudioQuality::HiRes);
    assert_eq!(parse_audio_quality("Low").unwrap(), AudioQuality::Low);
    for q in [AudioQuality::Low, AudioQuality::High, AudioQuality::Lossless, AudioQuality::HiRes] {
        assert_eq!(parse_audio_quality(q.as_api_str()).unwrap(), q);
    }
    match parse_audio_quality("ultra") {
        Err(AppError::Config(m)) => assert_eq!(m, "Unknown audio quality: ULTRA"),
        other => panic!("unexpected {other:?}"),
    }
}

#[test]
fn search_results_default_missing_lists_to_empty() {
    let attrs = SearchResultAttributes {
        tracks: None,
        albums: Some(vec![]),
        artists: Some(vec![Resource {
            id: "1".into(),
            kind: "artists".into(),
            attributes: ArtistAttributes { name: "A".into(), popularity: None, picture: None },
        }]),
        playlists: None,
    };
    let r = SearchResults::from_attributes(attrs);
    assert!(r.tracks.is_empty());
    assert!(r.albums.is_empty());
    assert_eq!(r.artists.len(), 1);
    assert_eq!(r.artists[0].attributes.name, "A");
    assert!(r.playlists.is_empty());
}

#[test]
fn config_defaults_and_cache() {
    assert_eq!(default_country_code(), "US");
    assert_eq!(default_redirect_port(), 8080);
    assert!(Cache::open().is_ok());
}
