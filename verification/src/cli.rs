use vstd::prelude::*;
use crate::text::{contains_text, occurs_at};

verus! {

/// `url` is a TIDAL web page rather than a raw media stream: it holds
/// `tidal.com/track/` or `listen.tidal.com/`.
pub open spec fn is_tidal_web_url(url: Seq<char>) -> bool {
    (exists|i: int| occurs_at(url, "tidal.com/track/"@, i))
        || (exists|i: int| occurs_at(url, "listen.tidal.com/"@, i))
}

/// Whether a URL given on the command line is a TIDAL web page, which the
/// player cannot open directly.
pub fn looks_like_tidal_web_url(url: &str) -> (r: bool)
    ensures
        r == is_tidal_web_url(url@),
{
    contains_text(url, "tidal.com/track/") || contains_text(url, "listen.tidal.com/")
}

} // verus!
