use vstd::prelude::*;
use crate::api::models::{
    AlbumResource, ArtistResource, PlaylistResource, SearchResultAttributes, TrackResource,
};

verus! {

/// Everything a search found, by resource type.
#[derive(Debug)]
pub struct SearchResults {
    pub tracks: Vec<TrackResource>,
    pub albums: Vec<AlbumResource>,
    pub artists: Vec<ArtistResource>,
    pub playlists: Vec<PlaylistResource>,
}

/// The items of an optional list, none when absent.
pub open spec fn items_or_none<T>(o: Option<Vec<T>>) -> Seq<T> {
    match o {
        Some(v) => v@,
        None => Seq::empty(),
    }
}

fn or_empty<T>(o: Option<Vec<T>>) -> (v: Vec<T>)
    ensures
        v@ == items_or_none(o),
{
    match o {
        Some(v) => v,
        None => Vec::new(),
    }
}

impl SearchResults {
    /// The results held in a search response's attributes; an absent list
    /// means nothing of that type was found.
    pub fn from_attributes(attrs: SearchResultAttributes) -> (r: Self)
        ensures
            r.tracks@ == items_or_none(attrs.tracks),
            r.albums@ == items_or_none(attrs.albums),
            r.artists@ == items_or_none(attrs.artists),
            r.playlists@ == items_or_none(attrs.playlists),
    {
        SearchResults {
            tracks: or_empty(attrs.tracks),
            albums: or_empty(attrs.albums),
            artists: or_empty(attrs.artists),
            playlists: or_empty(attrs.playlists),
        }
    }
}

} // verus!
