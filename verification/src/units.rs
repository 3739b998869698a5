//! The three kinds of record that the servers list: a piece of music, a
//! playlist and an artist's channel.

use vstd::prelude::*;
use crate::duration::{duration_text, to_string};

verus! {

/// A record that can be copied out of a cache exactly.
pub trait Record: Sized {
    /// A copy equal to `self`.
    fn duplicate(&self) -> (copy: Self)
        ensures
            copy == *self,
    ;
}

/// One piece of music.
#[derive(Debug, PartialEq, Eq)]
pub struct MusicUnit {
    /// The identifier that the stream is found by.
    pub id: String,
    /// The title.
    pub name: String,
    /// The artist or author.
    pub artist: String,
    /// The running time as display text, minutes and seconds.
    pub duration: String,
}

/// One playlist.
#[derive(Debug, PartialEq, Eq)]
pub struct PlaylistUnit {
    /// The identifier that the playlist's content is found by.
    pub id: String,
    /// The title.
    pub name: String,
    /// The author who owns it.
    pub author: String,
    /// How many items it holds.
    pub video_count: u64,
}

/// One artist, which is a channel.
#[derive(Debug, PartialEq, Eq)]
pub struct ArtistUnit {
    /// The identifier that the channel's content is found by.
    pub id: String,
    /// The name shown.
    pub name: String,
    /// How many items the channel holds.
    pub video_count: u64,
}

impl MusicUnit {
    /// The record of a piece of music as a server describes it: its running
    /// time comes in seconds and is kept as display text.
    pub fn new(id: String, name: String, artist: String, length_seconds: u64) -> (unit: Self)
        ensures
            unit.id == id,
            unit.name == name,
            unit.artist == artist,
            unit.duration@ == duration_text(length_seconds as nat),
    {
        MusicUnit { id, name, artist, duration: to_string(length_seconds) }
    }
}

impl Record for MusicUnit {
    fn duplicate(&self) -> (copy: Self) {
        MusicUnit {
            id: self.id.clone(),
            name: self.name.clone(),
            artist: self.artist.clone(),
            duration: self.duration.clone(),
        }
    }
}

impl Record for PlaylistUnit {
    fn duplicate(&self) -> (copy: Self) {
        PlaylistUnit {
            id: self.id.clone(),
            name: self.name.clone(),
            author: self.author.clone(),
            video_count: self.video_count,
        }
    }
}

impl Record for ArtistUnit {
    fn duplicate(&self) -> (copy: Self) {
        ArtistUnit { id: self.id.clone(), name: self.name.clone(), video_count: self.video_count }
    }
}

impl Clone for MusicUnit {
    fn clone(&self) -> (copy: Self)
        ensures
            copy == *self,
    {
        self.duplicate()
    }
}

impl Clone for PlaylistUnit {
    fn clone(&self) -> (copy: Self)
        ensures
            copy == *self,
    {
        self.duplicate()
    }
}

impl Clone for ArtistUnit {
    fn clone(&self) -> (copy: Self)
        ensures
            copy == *self,
    {
        self.duplicate()
    }
}

} // verus!
