use vstd::prelude::*;
use crate::api::auth::unix_now;
use crate::errors::AppError;
use crate::text::str_equals;

verus! {

// ---------------------------------------------------------------------------
// JSON:API envelope types
// ---------------------------------------------------------------------------

/// A JSON value of `serde_json`, carried through unchanged.
#[verifier::external_type_specification]
#[verifier::external_body]
pub struct ExJsonValue(serde_json::Value);

/// Single-resource response: `{ "data": { ... }, "included": [...] }`
#[derive(Debug)]
pub struct SingleResponse<T> {
    pub data: T,
    pub included: Vec<serde_json::Value>,
}

/// Collection response: `{ "data": [...], "links": { ... } }`
#[derive(Debug)]
pub struct CollectionResponse<T> {
    pub data: Vec<T>,
    pub links: Option<PageLinks>,
}

/// Pagination links returned in collection responses.
#[derive(Debug, Clone)]
pub struct PageLinks {
    pub self_: Option<String>,
    pub next: Option<String>,
    pub prev: Option<String>,
    pub first: Option<String>,
    pub last: Option<String>,
}

/// Generic JSON:API resource object: `{ "id": "...", "type": "...", "attributes": { ... } }`
#[derive(Debug, Clone)]
pub struct Resource<A> {
    pub id: String,
    pub kind: String,
    pub attributes: A,
}

// ---------------------------------------------------------------------------
// AudioQuality
// ---------------------------------------------------------------------------

#[derive(Debug, Clone, Copy, PartialEq, Eq, Structural)]
pub enum AudioQuality {
    Low,
    High,
    Lossless,
    HiRes,
}

/// The name the API uses for a quality.
pub open spec fn api_name(q: AudioQuality) -> Seq<char> {
    match q {
        AudioQuality::Low => "LOW"@,
        AudioQuality::High => "HIGH"@,
        AudioQuality::Lossless => "LOSSLESS"@,
        AudioQuality::HiRes => "HI_RES"@,
    }
}

/// The quality the API calls `name`, if any.
pub open spec fn quality_named(name: Seq<char>) -> Option<AudioQuality> {
    if name == "LOW"@ {
        Some(AudioQuality::Low)
    } else if name == "HIGH"@ {
        Some(AudioQuality::High)
    } else if name == "LOSSLESS"@ {
        Some(AudioQuality::Lossless)
    } else if name == "HI_RES"@ {
        Some(AudioQuality::HiRes)
    } else {
        None
    }
}

/// `c` with an ASCII lower-case letter mapped to its upper-case form.
pub open spec fn ascii_upper_char(c: char) -> char {
    if 'a' <= c && c <= 'z' {
        ((c as u32) - 32) as char
    } else {
        c
    }
}

/// `s` with every ASCII lower-case letter mapped to upper case.
pub open spec fn ascii_upper(s: Seq<char>) -> Seq<char> {
    s.map_values(|c: char| ascii_upper_char(c))
}

/// What `str::to_uppercase` gives for a text: its Unicode upper-case form.
pub uninterp spec fn unicode_uppercase(s: Seq<char>) -> Seq<char>;

/// `str::to_uppercase`. Its result is named `unicode_uppercase`; beyond
/// that the contract claims only that on ASCII text it maps each lower-case
/// letter to upper case and keeps every other character. What it does
/// outside ASCII (the Unicode case tables) is left unsaid.
#[verifier::external_body]
fn to_uppercase(s: &str) -> (r: String)
    ensures
        r@ == unicode_uppercase(s@),
        vstd::utf8::is_ascii_chars(s@) ==> r@ == ascii_upper(s@),
{
    s.to_uppercase()
}

/// Each quality's API name is plain upper-case ASCII that names it and no
/// other quality: `quality_named` and `api_name` are inverse.
pub proof fn lemma_api_names(q: AudioQuality, name: Seq<char>)
    ensures
        vstd::utf8::is_ascii_chars(api_name(q)),
        ascii_upper(api_name(q)) == api_name(q),
        quality_named(api_name(q)) == Some(q),
        quality_named(name) == Some(q) ==> name == api_name(q),
{
    reveal_strlit("LOW");
    reveal_strlit("HIGH");
    reveal_strlit("LOSSLESS");
    reveal_strlit("HI_RES");
    let n = api_name(q);
    assert(ascii_upper(n) =~= n);
    assert("LOW"@.len() == 3 && "HIGH"@.len() == 4 && "LOSSLESS"@.len() == 8 && "HI_RES"@.len() == 6);
}

impl AudioQuality {
    /// The name the API uses for this quality.
    pub fn as_api_str(self) -> (r: &'static str)
        ensures
            r@ == api_name(self),
    {
        match self {
            AudioQuality::Low => "LOW",
            AudioQuality::High => "HIGH",
            AudioQuality::Lossless => "LOSSLESS",
            AudioQuality::HiRes => "HI_RES",
        }
    }
}

/// Parse a quality name in any letter case. A name that the API does not
/// use is a configuration error naming the upper-cased text.
pub fn parse_audio_quality(s: &str) -> (r: Result<AudioQuality, AppError>)
    ensures
        match quality_named(unicode_uppercase(s@)) {
            Some(q) => r == Ok::<AudioQuality, AppError>(q),
            None => r matches Err(AppError::Config(m)) && m@ == "Unknown audio quality: "@
                + unicode_uppercase(s@),
        },
        forall|q: AudioQuality| s@ == api_name(q) ==> r == Ok::<AudioQuality, AppError>(q),
        vstd::utf8::is_ascii_chars(s@) ==> match quality_named(ascii_upper(s@)) {
            Some(q) => r == Ok::<AudioQuality, AppError>(q),
            None => r matches Err(AppError::Config(m)) && m@ == "Unknown audio quality: "@
                + ascii_upper(s@),
        },
        forall|q: AudioQuality|
            vstd::utf8::is_ascii_chars(s@) && ascii_upper(s@) == api_name(q) ==> r == Ok::<
                AudioQuality,
                AppError,
            >(q),
{
    let upper = to_uppercase(s);
    proof {
        assert forall|q: AudioQuality| s@ == api_name(q) implies unicode_uppercase(s@) == s@ by {
            lemma_api_names(q, s@);
        }
        assert forall|q: AudioQuality| s@ == api_name(q) implies quality_named(s@) == Some(q) by {
            lemma_api_names(q, s@);
        }
        assert forall|q: AudioQuality|
            vstd::utf8::is_ascii_chars(s@) && ascii_upper(s@) == api_name(q) implies quality_named(
            unicode_uppercase(s@),
        ) == Some(q) by {
            lemma_api_names(q, s@);
        }
    }
    if str_equals(upper.as_str(), "LOW") {
        Ok(AudioQuality::Low)
    } else if str_equals(upper.as_str(), "HIGH") {
        Ok(AudioQuality::High)
    } else if str_equals(upper.as_str(), "LOSSLESS") {
        Ok(AudioQuality::Lossless)
    } else if str_equals(upper.as_str(), "HI_RES") {
        Ok(AudioQuality::HiRes)
    } else {
        let mut message = String::from_str("Unknown audio quality: ");
        message.append(upper.as_str());
        Err(AppError::Config(message))
    }
}

impl std::str::FromStr for AudioQuality {
    type Err = AppError;

    fn from_str(s: &str) -> (r: Result<Self, AppError>)
        ensures
            match quality_named(unicode_uppercase(s@)) {
                Some(q) => r == Ok::<AudioQuality, AppError>(q),
                None => r matches Err(AppError::Config(m)) && m@ == "Unknown audio quality: "@
                    + unicode_uppercase(s@),
            },
            forall|q: AudioQuality| s@ == api_name(q) ==> r == Ok::<AudioQuality, AppError>(q),
            vstd::utf8::is_ascii_chars(s@) ==> match quality_named(ascii_upper(s@)) {
                Some(q) => r == Ok::<AudioQuality, AppError>(q),
                None => r matches Err(AppError::Config(m)) && m@ == "Unknown audio quality: "@
                    + ascii_upper(s@),
            },
            forall|q: AudioQuality|
                vstd::utf8::is_ascii_chars(s@) && ascii_upper(s@) == api_name(q) ==> r == Ok::<
                    AudioQuality,
                    AppError,
                >(q),
    {
        parse_audio_quality(s)
    }
}

// ---------------------------------------------------------------------------
// Domain model attribute structs
// ---------------------------------------------------------------------------

/// Attributes inside a track resource.
#[derive(Debug, Clone)]
pub struct TrackAttributes {
    pub title: String,
    /// Duration in seconds.
    pub duration: u32,
    pub track_number: Option<u32>,
    pub volume_number: Option<u32>,
    pub isrc: Option<String>,
    pub explicit: Option<bool>,
    pub popularity: Option<u32>,
    pub availability: Option<Vec<String>>,
    pub media_metadata: Option<MediaMetadata>,
}

#[derive(Debug, Clone)]
pub struct MediaMetadata {
    pub tags: Option<Vec<String>>,
}

pub type TrackResource = Resource<TrackAttributes>;

/// Attributes inside an album resource.
#[derive(Debug, Clone)]
pub struct AlbumAttributes {
    pub title: String,
    pub barcode_id: Option<String>,
    pub number_of_tracks: Option<u32>,
    pub number_of_volumes: Option<u32>,
    pub release_date: Option<String>,
    pub cover: Option<String>,
    pub popularity: Option<u32>,
    pub availability: Option<Vec<String>>,
    pub explicit: Option<bool>,
    pub duration: Option<u32>,
}

pub type AlbumResource = Resource<AlbumAttributes>;

/// Attributes inside an artist resource.
#[derive(Debug, Clone)]
pub struct ArtistAttributes {
    pub name: String,
    pub popularity: Option<u32>,
    pub picture: Option<String>,
}

pub type ArtistResource = Resource<ArtistAttributes>;

/// Attributes inside a playlist resource.
#[derive(Debug, Clone)]
pub struct PlaylistAttributes {
    pub name: String,
    pub description: Option<String>,
    pub number_of_tracks: Option<u32>,
    pub duration: Option<u32>,
    pub last_modified_at: Option<String>,
    pub privacy: Option<String>,
    pub image_cover: Option<Vec<ImageCover>>,
}

#[derive(Debug, Clone)]
pub struct ImageCover {
    pub url: String,
    pub width: u32,
    pub height: u32,
}

pub type PlaylistResource = Resource<PlaylistAttributes>;

// ---------------------------------------------------------------------------
// Search result envelope
// ---------------------------------------------------------------------------

#[derive(Debug)]
pub struct SearchResultAttributes {
    pub tracks: Option<Vec<TrackResource>>,
    pub albums: Option<Vec<AlbumResource>>,
    pub artists: Option<Vec<ArtistResource>>,
    pub playlists: Option<Vec<PlaylistResource>>,
}

pub type SearchResultResource = Resource<SearchResultAttributes>;

// ---------------------------------------------------------------------------
// Playback manifest
// ---------------------------------------------------------------------------

#[derive(Debug, Clone)]
pub struct PlaybackInfoAttributes {
    pub asset_presentation: String,
    pub audio_mode: String,
    pub audio_quality: String,
    pub manifest: String,
    pub manifest_mime_type: String,
}

pub type PlaybackInfoResource = Resource<PlaybackInfoAttributes>;

/// Resolved stream manifest — the URL ready to hand to the player.
#[derive(Debug, Clone)]
pub struct StreamManifest {
    pub url: String,
    pub codec: String,
    pub audio_quality: AudioQuality,
}

// ---------------------------------------------------------------------------
// Token types
// ---------------------------------------------------------------------------

#[derive(Debug, Clone)]
pub struct TokenSet {
    pub access_token: String,
    pub token_type: String,
    pub expires_in: u64,
    /// Unix timestamp computed locally after receipt: `now + expires_in`.
    pub expires_at: u64,
    pub refresh_token: Option<String>,
    pub scope: Option<String>,
}

/// A token counts as expired 60 seconds before its expiry time.
pub open spec fn expired_at(t: TokenSet, now: int) -> bool {
    now + 60 >= t.expires_at
}

impl TokenSet {
    /// True if the access token has expired at time `now` (with a 60-second
    /// safety buffer).
    pub fn is_expired_at(&self, now: u64) -> (r: bool)
        ensures
            r == expired_at(*self, now as int),
    {
        if now > u64::MAX - 60 {
            true
        } else {
            now + 60 >= self.expires_at
        }
    }

    /// True if the access token has expired by the system clock (with a
    /// 60-second safety buffer). What holds whatever the clock reads: a token
    /// that expires within the first minute of the epoch is always expired.
    pub fn is_expired(&self) -> (r: bool)
        ensures
            self.expires_at <= 60 ==> r,
    {
        let now = unix_now();
        self.is_expired_at(now)
    }

    /// Record the expiry time of a token received at time `now`.
    pub fn stamp_expiry(&mut self, now: u64)
        requires
            now + old(self).expires_in <= u64::MAX,
        ensures
            *final(self) == (TokenSet { expires_at: (now + old(self).expires_in) as u64, ..*old(self) }),
    {
        self.expires_at = now + self.expires_in;
    }
}

/// Once expired, a token stays expired.
pub proof fn lemma_expiry_is_final(t: TokenSet, earlier: int, later: int)
    requires
        earlier <= later,
        expired_at(t, earlier),
    ensures
        expired_at(t, later),
{
}

} // verus!
