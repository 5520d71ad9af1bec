use vstd::prelude::*;
use crate::api::codec::{base64_decoding, decode_base64_standard};
use crate::errors::AppError;
use crate::text::{chars_of, find_text, first_occurrence, lemma_first_occurrence, str_equals};

verus! {

/// The display text of the `Utf8Error` that `std::str::from_utf8` gives on
/// `bytes`.
pub uninterp spec fn utf8_error_text(bytes: Seq<u8>) -> Seq<char>;

/// `std::str::from_utf8`: the text whose UTF-8 encoding is `raw` when `raw`
/// is valid UTF-8, else the display text of the error (named
/// `utf8_error_text`).
#[verifier::external_body]
fn str_from_utf8<'a>(raw: &'a [u8]) -> (r: Result<&'a str, String>)
    ensures
        r is Ok <==> vstd::utf8::valid_utf8(raw@),
        r matches Ok(s) ==> vstd::utf8::encode_utf8(s@) == raw@,
        r matches Err(m) ==> m@ == utf8_error_text(raw@),
{
    match std::str::from_utf8(raw) {
        Ok(s) => Ok(s),
        Err(e) => Err(e.to_string()),
    }
}

/// The two manifest formats the playback endpoint returns.
#[derive(Debug, Clone, Copy, PartialEq, Eq, Structural)]
pub enum ManifestKind {
    /// `application/vnd.tidal.bts` — JSON `{ "urls": ["..."] }`.
    Bts,
    /// `application/dash+xml` — an MPEG-DASH MPD.
    Dash,
}

/// The manifest format named by a MIME type, if known.
pub open spec fn spec_manifest_kind(mime: Seq<char>) -> Option<ManifestKind> {
    if mime == "application/vnd.tidal.bts"@ {
        Some(ManifestKind::Bts)
    } else if mime == "application/dash+xml"@ {
        Some(ManifestKind::Dash)
    } else {
        None
    }
}

/// `r` is an API error with status 0 and this message.
pub open spec fn is_api_error<T>(r: Result<T, AppError>, message: Seq<char>) -> bool {
    r matches Err(AppError::Api { status, message: m }) && status == 0 && m@ == message
}

/// The format of a manifest from its MIME type; an unknown type is an error
/// naming it.
pub fn manifest_kind(mime: &str) -> (r: Result<ManifestKind, AppError>)
    ensures
        match spec_manifest_kind(mime@) {
            Some(k) => r == Ok::<ManifestKind, AppError>(k),
            None => is_api_error(r, "Unknown manifest MIME type: "@ + mime@),
        },
{
    if str_equals(mime, "application/vnd.tidal.bts") {
        Ok(ManifestKind::Bts)
    } else if str_equals(mime, "application/dash+xml") {
        Ok(ManifestKind::Dash)
    } else {
        let mut message = String::from_str("Unknown manifest MIME type: ");
        message.append(mime);
        Err(AppError::Api { status: 0, message })
    }
}

/// Decode the base64 manifest field; a decoding failure is an error
/// carrying the decoder's message.
pub fn decode_manifest(manifest: &str) -> (r: Result<Vec<u8>, AppError>)
    ensures
        match base64_decoding(manifest@) {
            Ok(bytes) => r matches Ok(v) && v@ == bytes,
            Err(e) => is_api_error(r, "Failed to base64-decode manifest: "@ + e),
        },
{
    match decode_base64_standard(manifest) {
        Ok(v) => Ok(v),
        Err(e) => {
            let mut message = String::from_str("Failed to base64-decode manifest: ");
            message.append(e.as_str());
            Err(AppError::Api { status: 0, message })
        },
    }
}

/// The stream URL of a BTS manifest: the first of its URLs; none is an error.
pub fn first_bts_url(urls: Vec<String>) -> (r: Result<String, AppError>)
    ensures
        urls@.len() > 0 ==> r == Ok::<String, AppError>(urls@[0]),
        urls@.len() == 0 ==> is_api_error(r, "BTS manifest contains no URLs"@),
{
    let mut urls = urls;
    if urls.len() == 0 {
        return Err(AppError::Api { status: 0, message: String::from_str("BTS manifest contains no URLs") });
    }
    Ok(urls.remove(0))
}

/// The content of the first `<BaseURL>` element of a DASH manifest: the text
/// after the first `<BaseURL>` up to the first `</BaseURL>` that follows it,
/// if the manifest holds both.
pub open spec fn dash_base_url(text: Seq<char>) -> Option<Seq<char>> {
    match first_occurrence(text, "<BaseURL>"@) {
        Some(start) => {
            let rest = text.subrange(start + "<BaseURL>"@.len(), text.len() as int);
            match first_occurrence(rest, "</BaseURL>"@) {
                Some(end) => Some(rest.subrange(0, end)),
                None => None,
            }
        },
        None => None,
    }
}

/// Extract the first `<BaseURL>` element from a DASH/MPD manifest.
pub fn extract_dash_base_url(raw: &[u8]) -> (r: Result<String, AppError>)
    ensures
        !vstd::utf8::valid_utf8(raw@) ==> is_api_error(
            r,
            "DASH manifest is not valid UTF-8: "@ + utf8_error_text(raw@),
        ),
        vstd::utf8::valid_utf8(raw@) ==> match dash_base_url(vstd::utf8::decode_utf8(raw@)) {
            Some(url) => r matches Ok(s) && s@ == url,
            None => is_api_error(r, "No <BaseURL> element found in DASH manifest"@),
        },
{
    let text = match str_from_utf8(raw) {
        Ok(text) => text,
        Err(e) => {
            let mut message = String::from_str("DASH manifest is not valid UTF-8: ");
            message.append(e.as_str());
            return Err(AppError::Api { status: 0, message });
        },
    };
    proof {
        vstd::utf8::encode_utf8_decode_utf8(text@);
        reveal_strlit("<BaseURL>");
    }
    let chars = chars_of(text);
    let open = chars_of("<BaseURL>");
    let close = chars_of("</BaseURL>");
    if let Some(start) = find_text(&chars, &open) {
        proof {
            lemma_first_occurrence(chars@, open@);
        }
        let n = text.unicode_len();
        let body_start = start + 9;
        let rest = chars_of(text.substring_char(body_start, n));
        if let Some(end) = find_text(&rest, &close) {
            proof {
                lemma_first_occurrence(rest@, close@);
            }
            let url = text.substring_char(body_start, body_start + end);
            proof {
                assert(url@ =~= rest@.subrange(0, end as int));
            }
            return Ok(String::from_str(url));
        }
    }
    Err(AppError::Api { status: 0, message: String::from_str("No <BaseURL> element found in DASH manifest") })
}

} // verus!
