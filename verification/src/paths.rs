//! The requests of the servers' interface: for each retrieval the path and
//! query that follows a server's base address.

use vstd::prelude::*;
use crate::decimal::{append_decimal, decimal_digits};

verus! {

/// How a request names its sender to the servers: as a desktop browser.
pub const USER_AGENT: &'static str =
    "Mozilla/5.0 (X11; Linux x86_64) AppleWebKit/537.36 (KHTML, like Gecko) Chrome/92.0.4515.131 Safari/537.36";

/// The three domains that a search runs in.
#[derive(Debug, Clone, Copy, PartialEq, Eq, Structural)]
pub enum Category {
    Music,
    Playlist,
    Artist,
}

/// The three listings that are fetched whole and kept under their key.
#[derive(Debug, Clone, Copy, PartialEq, Eq, Structural)]
pub enum Listing {
    /// The content of a playlist, keyed by the playlist.
    PlaylistContent,
    /// The playlists of a channel, keyed by the channel.
    ChannelPlaylists,
    /// The videos of a channel, keyed by the channel.
    ChannelVideos,
}

/// The value of a search's `type` filter for `category`.
pub open spec fn filter_type(category: Category) -> Seq<char> {
    match category {
        Category::Music => "music"@,
        Category::Playlist => "playlist"@,
        Category::Artist => "channel"@,
    }
}

/// The projection that asks for the fields of `category`'s records.
pub open spec fn fields_of(category: Category) -> Seq<char> {
    match category {
        Category::Music => "fields=videoId,title,author,lengthSeconds"@,
        Category::Playlist => "fields=title,playlistId,author,videoCount"@,
        Category::Artist => "fields=author,authorId,videoCount"@,
    }
}

/// The request for the trending music.
pub open spec fn trending_path() -> Seq<char> {
    "/trending?type=Music&region=NP&"@ + fields_of(Category::Music)
}

/// The request for the content of the playlist `playlist_id`.
pub open spec fn playlist_path(playlist_id: Seq<char>) -> Seq<char> {
    "/playlists/"@ + playlist_id + "?fields=videos"@
}

/// The request for the playlists of the channel `channel_id`.
pub open spec fn channel_playlists_path(channel_id: Seq<char>) -> Seq<char> {
    "/channels/"@ + channel_id + "/playlists?fields=playlists"@
}

/// The request for the videos of the channel `channel_id`.
pub open spec fn channel_videos_path(channel_id: Seq<char>) -> Seq<char> {
    "/channels/"@ + channel_id + "/videos"@
}

/// The request for the listing `listing` of `key`.
pub open spec fn listing_path(listing: Listing, key: Seq<char>) -> Seq<char> {
    match listing {
        Listing::PlaylistContent => playlist_path(key),
        Listing::ChannelPlaylists => channel_playlists_path(key),
        Listing::ChannelVideos => channel_videos_path(key),
    }
}

/// The request for page `page` of a search for `query` in `category`. The
/// query stands in the request as it was given.
pub open spec fn search_path(query: Seq<char>, category: Category, page: nat) -> Seq<char> {
    "/search?q="@ + query + "&type="@ + filter_type(category) + "&region=NP&page="@
        + decimal_digits(page) + "&"@ + fields_of(category)
}

/// Whether two texts are the same.
pub fn same_text(a: &str, b: &str) -> (same: bool)
    ensures
        same == (a@ == b@),
{
    String::from_str(a) == String::from_str(b)
}

fn filter_type_of(category: Category) -> (text: &'static str)
    ensures
        text@ == filter_type(category),
{
    match category {
        Category::Music => "music",
        Category::Playlist => "playlist",
        Category::Artist => "channel",
    }
}

fn fields_text_of(category: Category) -> (text: &'static str)
    ensures
        text@ == fields_of(category),
{
    match category {
        Category::Music => "fields=videoId,title,author,lengthSeconds",
        Category::Playlist => "fields=title,playlistId,author,videoCount",
        Category::Artist => "fields=author,authorId,videoCount",
    }
}

/// Builds the request for the trending music.
pub fn trending_request() -> (path: String)
    ensures
        path@ == trending_path(),
{
    let mut path = String::from_str("/trending?type=Music&region=NP&");
    path.append(fields_text_of(Category::Music));
    path
}

/// Builds the request for the content of a playlist.
pub fn playlist_request(playlist_id: &str) -> (path: String)
    ensures
        path@ == playlist_path(playlist_id@),
{
    let mut path = String::from_str("/playlists/");
    path.append(playlist_id);
    path.append("?fields=videos");
    path
}

/// Builds the request for the playlists of a channel.
pub fn channel_playlists_request(channel_id: &str) -> (path: String)
    ensures
        path@ == channel_playlists_path(channel_id@),
{
    let mut path = String::from_str("/channels/");
    path.append(channel_id);
    path.append("/playlists?fields=playlists");
    path
}

/// Builds the request for the videos of a channel.
pub fn channel_videos_request(channel_id: &str) -> (path: String)
    ensures
        path@ == channel_videos_path(channel_id@),
{
    let mut path = String::from_str("/channels/");
    path.append(channel_id);
    path.append("/videos");
    path
}

/// Builds the request for a whole listing.
pub fn listing_request(listing: Listing, key: &str) -> (path: String)
    ensures
        path@ == listing_path(listing, key@),
{
    match listing {
        Listing::PlaylistContent => playlist_request(key),
        Listing::ChannelPlaylists => channel_playlists_request(key),
        Listing::ChannelVideos => channel_videos_request(key),
    }
}

/// Builds the request for one page of a search.
pub fn search_request(query: &str, category: Category, page: usize) -> (path: String)
    ensures
        path@ == search_path(query@, category, page as nat),
{
    let mut path = String::from_str("/search?q=");
    path.append(query);
    path.append("&type=");
    path.append(filter_type_of(category));
    path.append("&region=NP&page=");
    append_decimal(&mut path, page as u64);
    path.append("&");
    path.append(fields_text_of(category));
    path
}

} // verus!
