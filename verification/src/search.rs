//! Assembly of search results from the media platform's API items.
//!
//! The network call itself lives outside the library; the embedding reduces
//! each API item to the plain optional fields of [`ApiItem`] and hands them
//! here, where the canonical [`Track`] values and the search outcome are
//! built and checked.

use vstd::prelude::*;

use crate::timeparse::tok_at;
use crate::timeparse::tok_at_spec;
use crate::track::{Track, TrackMetadata};

verus! {

/// The base URL a single video's canonical track URL is built from.
pub open spec fn video_uri() -> Seq<char> {
    "https://www.youtube.com/watch?v="@
}

/// The playlist URL prefix that is stripped to obtain a playlist id.
pub open spec fn playlist_uri() -> Seq<char> {
    "https://www.youtube.com/playlist?list="@
}

/// What a search returned: one track, a page of candidates to choose from,
/// or a playlist's tracks.
#[derive(Debug)]
pub enum SearchResult {
    Track(Track),
    Tracks(Vec<Track>),
    Playlist(Vec<Track>),
}

/// Why a search failed.
#[derive(Debug)]
pub enum SearchError {
    /// A malformed item came back, described in plain text.
    InternalError(String),
    /// The platform API itself reported an error.
    ApiError(String),
    /// No video matched; holds the query or URL that found nothing.
    VideoNotFound(String),
    /// No playlist matched; holds the URL that found nothing.
    PlaylistNotFound(String),
}

impl SearchError {
    /// A short human-readable description of the error.
    pub fn message(&self) -> (r: &'static str)
        ensures
            *self matches SearchError::InternalError(_) ==> r@
                == "Whoops, an internal error occurred"@,
            *self matches SearchError::ApiError(_) ==> r@ == "API thrown error"@,
            *self matches SearchError::VideoNotFound(_) ==> r@ == "Video not found"@,
            *self matches SearchError::PlaylistNotFound(_) ==> r@ == "Playlist not found"@,
    {
        match self {
            SearchError::InternalError(_) => "Whoops, an internal error occurred",
            SearchError::ApiError(_) => "API thrown error",
            SearchError::VideoNotFound(_) => "Video not found",
            SearchError::PlaylistNotFound(_) => "Playlist not found",
        }
    }
}

/// An exact copy of an optional string.
fn clone_opt_string(o: &Option<String>) -> (r: Option<String>)
    ensures
        r == *o,
{
    match o {
        Some(s) => Some(s.clone()),
        None => None,
    }
}

/// The plain fields the embedding extracts from one search API item.
#[derive(Debug)]
pub struct ApiItem {
    pub video_id: Option<String>,
    pub title: Option<String>,
    pub channel: Option<String>,
    pub thumbnail_url: Option<String>,
}

/// What HTML-entity decoding returns for a given text; a function of the
/// text alone.
pub uninterp spec fn unescaped(s: Seq<char>) -> Seq<char>;

/// Relies on html_escape's `decode_html_entities`: it rewrites the HTML
/// entities of the text and depends on the text alone.
#[verifier::external_body]
fn decode_entities(s: &str) -> (r: String)
    ensures
        r@ == unescaped(s@),
{
    html_escape::decode_html_entities(s).into_owned()
}

/// An item that holds everything a track needs.
pub open spec fn item_complete(item: ApiItem) -> bool {
    item.video_id is Some && item.title is Some && item.channel is Some
}

/// The track built from one complete API item: entity-decoded title and
/// channel, the canonical watch URL, and the thumbnail passed through.
pub open spec fn track_matches(t: Track, item: ApiItem) -> bool {
    &&& item_complete(item)
    &&& t.id == item.video_id.unwrap()
    &&& t.metadata.id == item.video_id.unwrap()
    &&& t.metadata.title@ == unescaped(item.title.unwrap()@)
    &&& t.metadata.channel@ == unescaped(item.channel.unwrap()@)
    &&& t.metadata.track_url@ == video_uri() + item.video_id.unwrap()@
    &&& t.metadata.thumbnail_url == item.thumbnail_url
}

/// Build the canonical track of one complete API item, or nothing when a
/// required field is missing.
pub fn track_from_api(item: ApiItem) -> (r: Option<Track>)
    ensures
        r is Some <==> item_complete(item),
        r matches Some(t) ==> track_matches(t, item),
{
    let video_id = match item.video_id {
        Some(v) => v,
        None => {
            return None;
        },
    };
    let title = match item.title {
        Some(v) => v,
        None => {
            return None;
        },
    };
    let channel = match item.channel {
        Some(v) => v,
        None => {
            return None;
        },
    };
    let mut track_url = String::from_str("https://www.youtube.com/watch?v=");
    track_url.append(video_id.as_str());
    Some(
        Track {
            id: video_id.clone(),
            metadata: TrackMetadata {
                id: video_id,
                title: decode_entities(title.as_str()),
                channel: decode_entities(channel.as_str()),
                track_url,
                thumbnail_url: item.thumbnail_url,
            },
        },
    )
}

/// The first preview image the platform offered, best resolution first.
pub fn pick_thumbnail(
    maxres: Option<String>,
    high: Option<String>,
    medium: Option<String>,
    standard: Option<String>,
    fallback: Option<String>,
) -> (r: Option<String>)
    ensures
        r == (if maxres is Some {
            maxres
        } else if high is Some {
            high
        } else if medium is Some {
            medium
        } else if standard is Some {
            standard
        } else {
            fallback
        }),
{
    if maxres.is_some() {
        maxres
    } else if high.is_some() {
        high
    } else if medium.is_some() {
        medium
    } else if standard.is_some() {
        standard
    } else {
        fallback
    }
}

/// The outcome of a track search over the reduced API items: an error when
/// nothing came back or an item was malformed, one track when one was asked
/// for, a page of candidates otherwise.
pub fn build_track_results(items: Vec<ApiItem>, query: String, max_tracks: u32) -> (r: Result<
    SearchResult,
    SearchError,
>)
    ensures
        items@.len() == 0 ==> (r matches Err(e) && e matches SearchError::VideoNotFound(q) && q
            == query),
        items@.len() > 0 && (exists|k: int| 0 <= k < items@.len() && !item_complete(items@[k]))
            ==> (r matches Err(e) && e matches SearchError::InternalError(m) && m@
            == "Failed to parse video"@),
        items@.len() > 0 && (forall|k: int| 0 <= k < items@.len() ==> item_complete(items@[k]))
            && max_tracks == 1 ==> (r matches Ok(res) && res matches SearchResult::Track(t)
            && track_matches(t, items@[0])),
        items@.len() > 0 && (forall|k: int| 0 <= k < items@.len() ==> item_complete(items@[k]))
            && max_tracks != 1 ==> (r matches Ok(res) && res matches SearchResult::Tracks(ts)
            && ts@.len() == items@.len() && (forall|k: int|
            0 <= k < items@.len() ==> track_matches(ts@[k], items@[k]))),
{
    if items.len() == 0 {
        return Err(SearchError::VideoNotFound(query));
    }
    let mut tracks: Vec<Track> = Vec::new();
    let ghost all_items = items@;
    let mut i: usize = 0;
    while i < items.len()
        invariant
            i <= items@.len(),
            items@ == all_items,
            tracks@.len() == i,
            forall|k: int| 0 <= k < i ==> item_complete(all_items[k]),
            forall|k: int| 0 <= k < i ==> track_matches(tracks@[k], all_items[k]),
        decreases items@.len() - i,
    {
        let item = ApiItem {
            video_id: clone_opt_string(&items[i].video_id),
            title: clone_opt_string(&items[i].title),
            channel: clone_opt_string(&items[i].channel),
            thumbnail_url: clone_opt_string(&items[i].thumbnail_url),
        };
        match track_from_api(item) {
            Some(t) => tracks.push(t),
            None => {
                return Err(SearchError::InternalError(String::from_str("Failed to parse video")));
            },
        }
        i = i + 1;
    }
    if max_tracks == 1 {
        let first = tracks.remove(0);
        return Ok(SearchResult::Track(first));
    }
    Ok(SearchResult::Tracks(tracks))
}

/// The tracks of the complete items among `items`, in order: malformed
/// playlist entries are skipped, not fatal.
pub open spec fn playlist_tracks_match(ts: Seq<Track>, items: Seq<ApiItem>) -> bool
    decreases items.len(),
{
    if items.len() == 0 {
        ts.len() == 0
    } else if item_complete(items.last()) {
        ts.len() > 0 && track_matches(ts.last(), items.last()) && playlist_tracks_match(
            ts.drop_last(),
            items.drop_last(),
        )
    } else {
        playlist_tracks_match(ts, items.drop_last())
    }
}

/// The outcome of a playlist lookup over the reduced API items: an error
/// when nothing came back, otherwise the tracks of the well-formed entries
/// in playlist order.
pub fn build_playlist_results(items: Vec<ApiItem>, url: String) -> (r: Result<
    SearchResult,
    SearchError,
>)
    ensures
        items@.len() == 0 ==> (r matches Err(e) && e matches SearchError::VideoNotFound(q) && q
            == url),
        items@.len() > 0 ==> (r matches Ok(res) && res matches SearchResult::Playlist(ts)
            && playlist_tracks_match(ts@, items@)),
{
    if items.len() == 0 {
        return Err(SearchError::VideoNotFound(url));
    }
    let mut tracks: Vec<Track> = Vec::new();
    let ghost all_items = items@;
    let mut i: usize = 0;
    while i < items.len()
        invariant
            i <= items@.len(),
            items@ == all_items,
            playlist_tracks_match(tracks@, all_items.subrange(0, i as int)),
        decreases items@.len() - i,
    {
        proof {
            assert(all_items.subrange(0, i + 1).drop_last() =~= all_items.subrange(0, i as int));
        }
        let item = ApiItem {
            video_id: clone_opt_string(&items[i].video_id),
            title: clone_opt_string(&items[i].title),
            channel: clone_opt_string(&items[i].channel),
            thumbnail_url: clone_opt_string(&items[i].thumbnail_url),
        };
        let ghost pre = tracks@;
        match track_from_api(item) {
            Some(t) => {
                tracks.push(t);
                proof {
                    assert(tracks@.drop_last() =~= pre);
                }
            },
            None => {},
        }
        i = i + 1;
    }
    proof {
        assert(all_items.subrange(0, all_items.len() as int) =~= all_items);
    }
    Ok(SearchResult::Playlist(tracks))
}

/// Strip every leading occurrence of the playlist URL prefix, leaving the
/// playlist id; from position `i` on.
pub open spec fn trim_playlist_prefix_from(s: Seq<char>, i: int) -> Seq<char>
    decreases s.len() - i
        when 0 <= i <= s.len()
        via trim_playlist_prefix_dec
{
    if tok_at_spec(s, i, playlist_uri()) {
        trim_playlist_prefix_from(s, i + playlist_uri().len())
    } else {
        s.skip(i)
    }
}

#[via_fn]
proof fn trim_playlist_prefix_dec(s: Seq<char>, i: int) {
    reveal_strlit("https://www.youtube.com/playlist?list=");
}

/// The playlist id of a playlist URL: the URL with its leading prefix
/// occurrences stripped.
pub fn playlist_id_from_url(url: &str) -> (r: String)
    ensures
        r@ == trim_playlist_prefix_from(url@, 0),
{
    let prefix = "https://www.youtube.com/playlist?list=";
    proof {
        reveal_strlit("https://www.youtube.com/playlist?list=");
        assert(prefix@ == playlist_uri());
    }
    let n = url.unicode_len();
    let mut i: usize = 0;
    loop
        invariant
            i <= n,
            n == url@.len(),
            prefix@ == playlist_uri(),
            playlist_uri().len() >= 1,
            trim_playlist_prefix_from(url@, 0) == trim_playlist_prefix_from(url@, i as int),
        ensures
            i <= n,
            n == url@.len(),
            !tok_at_spec(url@, i as int, playlist_uri()),
            trim_playlist_prefix_from(url@, 0) == trim_playlist_prefix_from(url@, i as int),
        decreases n - i,
    {
        match tok_at(url, i, prefix) {
            Some(e) => {
                proof {
                    assert(trim_playlist_prefix_from(url@, i as int) == trim_playlist_prefix_from(
                        url@,
                        e as int,
                    ));
                }
                i = e;
            },
            None => {
                break ;
            },
        }
    }
    proof {
        assert(url@.subrange(i as int, n as int) =~= url@.skip(i as int));
    }
    String::from_str(url.substring_char(i, n))
}

} // verus!
