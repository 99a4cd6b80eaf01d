//! Canonical value types for tracks and playlists.
//!
//! A [`Track`] is immutable once constructed and cheaply copyable; a
//! [`Playlist`] is consumed once by being flattened into a player's queue.

use vstd::prelude::*;

verus! {

/// Descriptive data attached to a track: where it came from and how to show it.
#[derive(Debug)]
pub struct TrackMetadata {
    /// Platform-native item id.
    pub id: String,
    /// Human-readable title.
    pub title: String,
    /// Name of the channel that published the item.
    pub channel: String,
    /// Canonical URL handed to the audio transport.
    pub track_url: String,
    /// Preview image, when the platform offered one.
    pub thumbnail_url: Option<String>,
}

/// A single playable item.
#[derive(Debug)]
pub struct Track {
    /// Platform-native item id; equal to `metadata.id`.
    pub id: String,
    pub metadata: TrackMetadata,
}

/// An ordered collection of tracks fetched as one unit.
#[derive(Debug)]
pub struct Playlist {
    pub id: String,
    pub title: String,
    pub description: String,
    pub playlist_url: String,
    pub tracks: Vec<Track>,
}

impl Clone for TrackMetadata {
    fn clone(&self) -> (res: Self)
        ensures
            res == *self,
    {
        TrackMetadata {
            id: self.id.clone(),
            title: self.title.clone(),
            channel: self.channel.clone(),
            track_url: self.track_url.clone(),
            thumbnail_url: match &self.thumbnail_url {
                Some(u) => Some(u.clone()),
                None => None,
            },
        }
    }
}

impl Clone for Track {
    fn clone(&self) -> (res: Self)
        ensures
            res == *self,
    {
        Track { id: self.id.clone(), metadata: self.metadata.clone() }
    }
}

} // verus!
