//! What the front end keeps of its own state in plain values: which window
//! has the focus, which shortcut of the side bar is chosen, and where the
//! content of each of the three lists came from.

use vstd::prelude::*;

verus! {

/// The shortcuts of the side bar, in the order they are listed.
#[derive(Debug, Clone, Copy, PartialEq, Eq, Structural)]
pub enum SidebarOption {
    Trending,
    YoutubeCommunity,
    RecentlyPlayed,
    Favourates,
    Search,
    /// No shortcut is chosen.
    NoOption,
}

/// The windows that can have the focus.
#[derive(Debug, Clone, Copy, PartialEq, Eq, Structural)]
pub enum Window {
    Searchbar,
    Helpbar,
    Sidebar,
    Musicbar,
    Playlistbar,
    Artistbar,
    /// No window: the front end is about to leave.
    NoWindow,
}

/// Where the list of music was filled from.
#[derive(Debug, Clone, PartialEq, Eq)]
pub enum MusicbarSource {
    /// The results of a search for this query.
    Search(String),
    Trending,
    YoutubeCommunity,
    RecentlyPlayed,
    Favourates,
    /// The content of the playlist with this identifier.
    Playlist(String),
    /// The videos of the channel with this identifier.
    Artist(String),
}

/// Where the list of playlists was filled from.
#[derive(Debug, Clone, PartialEq, Eq)]
pub enum PlaylistbarSource {
    /// The results of a search for this query.
    Search(String),
    RecentlyPlayed,
    Favourates,
    /// The playlists of the channel with this identifier.
    Artist(String),
}

/// Where the list of artists was filled from.
#[derive(Debug, Clone, PartialEq, Eq)]
pub enum ArtistbarSource {
    /// The results of a search for this query.
    Search(String),
    RecentlyPlayed,
    Favourates,
}

} // verus!
