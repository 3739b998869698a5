//! The fetcher: the pool of servers and the five caches behind the seven
//! retrieval operations.
//!
//! The fetcher sends nothing itself. Each operation is one step of a
//! conversation with its caller. Called without a reply, it answers from its
//! cache or names the address to fetch. Called again with what that request
//! brought, it settles the request, takes the body into its cache and cuts
//! the page. The same call with the same arguments is made both times, so a
//! caller that gives up between the two leaves the fetcher as it was.

use vstd::prelude::*;
use crate::cache::{keyed_step, step_matches, KeyedCache, KeyedView, Step, StepView};
use crate::outcome::ReturnAction;
use crate::paths::{listing_path, search_path, trending_path, trending_request, Category, Listing};
use crate::pool::{fails_over, texts, verdict, PoolView, Reply, ServerPool};
use crate::search::{lemma_search_new_query_refills, search_step, SearchRes, SearchView};
use crate::units::{ArtistUnit, MusicUnit, PlaylistUnit};
use crate::window::{page_of, page_window};

verus! {

/// The retry budget of the request for the trending music.
pub const TRENDING_RETRY: i32 = 2;

/// The retry budget of the request for a whole listing.
pub const LISTING_RETRY: i32 = 1;

/// The fetcher as a value: the pool and what each cache holds.
pub struct FetcherView {
    pub pool: PoolView,
    pub trending: Option<Seq<MusicUnit>>,
    pub playlist_content: KeyedView<MusicUnit>,
    pub channel_playlists: KeyedView<PlaylistUnit>,
    pub channel_videos: KeyedView<MusicUnit>,
    pub search: SearchView,
}

/// What one call for the trending music comes to. Once the listing is there
/// it answers for good, and a reply is not looked at. While it is absent and
/// no reply has come, the step is to fetch it. Where a reply has come, the
/// request is settled with the pool, and a body becomes the listing.
pub open spec fn trending_step(
    trending: Option<Seq<MusicUnit>>,
    pool: PoolView,
    page: nat,
    reply: Option<Reply<Vec<MusicUnit>>>,
) -> (Option<Seq<MusicUnit>>, PoolView, StepView<MusicUnit>) {
    match trending {
        Some(items) => (trending, pool, StepView::Done(page_of(items, page))),
        None => match reply {
            None => (trending, pool, StepView::Fetch(pool.url(trending_path()))),
            Some(reply) => {
                let settled = pool.after_request(fails_over(reply, TRENDING_RETRY));
                match verdict(reply, TRENDING_RETRY) {
                    Ok(items) => (Some(items@), settled, StepView::Done(page_of(items@, page))),
                    Err(reason) => (trending, settled, StepView::Done(Err(reason))),
                }
            },
        },
    }
}

impl FetcherView {
    /// The fetcher after one call for page `page` of the trending music, and
    /// the step that the call answers with.
    pub open spec fn get_trending_music(
        self,
        page: nat,
        reply: Option<Reply<Vec<MusicUnit>>>,
    ) -> (FetcherView, StepView<MusicUnit>) {
        let (trending, pool, step) = trending_step(self.trending, self.pool, page, reply);
        (FetcherView { trending, pool, ..self }, step)
    }

    /// The fetcher after one call for page `page` of the content of the
    /// playlist `playlist_id`, and the step that the call answers with.
    pub open spec fn get_playlist_content(
        self,
        playlist_id: Seq<char>,
        page: nat,
        reply: Option<Reply<Vec<MusicUnit>>>,
    ) -> (FetcherView, StepView<MusicUnit>) {
        let (playlist_content, pool, step) = keyed_step(
            self.playlist_content,
            self.pool,
            Listing::PlaylistContent,
            playlist_id,
            page,
            reply,
            LISTING_RETRY,
        );
        (FetcherView { playlist_content, pool, ..self }, step)
    }

    /// The fetcher after one call for page `page` of the playlists of the
    /// channel `channel_id`, and the step that the call answers with.
    pub open spec fn get_playlist_of_channel(
        self,
        channel_id: Seq<char>,
        page: nat,
        reply: Option<Reply<Vec<PlaylistUnit>>>,
    ) -> (FetcherView, StepView<PlaylistUnit>) {
        let (channel_playlists, pool, step) = keyed_step(
            self.channel_playlists,
            self.pool,
            Listing::ChannelPlaylists,
            channel_id,
            page,
            reply,
            LISTING_RETRY,
        );
        (FetcherView { channel_playlists, pool, ..self }, step)
    }

    /// The fetcher after one call for page `page` of the videos of the
    /// channel `channel_id`, and the step that the call answers with.
    pub open spec fn get_videos_of_channel(
        self,
        channel_id: Seq<char>,
        page: nat,
        reply: Option<Reply<Vec<MusicUnit>>>,
    ) -> (FetcherView, StepView<MusicUnit>) {
        let (channel_videos, pool, step) = keyed_step(
            self.channel_videos,
            self.pool,
            Listing::ChannelVideos,
            channel_id,
            page,
            reply,
            LISTING_RETRY,
        );
        (FetcherView { channel_videos, pool, ..self }, step)
    }

    /// The fetcher after one call for page `page` of the music found for
    /// `query`, and the step that the call answers with.
    pub open spec fn search_music(
        self,
        query: Seq<char>,
        page: nat,
        reply: Option<Reply<Vec<MusicUnit>>>,
    ) -> (FetcherView, StepView<MusicUnit>) {
        let (slot, pool, step) = search_step(
            self.search.music_slot(),
            self.pool,
            Category::Music,
            query,
            page,
            reply,
        );
        (FetcherView { search: self.search.with_music(slot), pool, ..self }, step)
    }

    /// The fetcher after one call for page `page` of the playlists found for
    /// `query`, and the step that the call answers with.
    pub open spec fn search_playlist(
        self,
        query: Seq<char>,
        page: nat,
        reply: Option<Reply<Vec<PlaylistUnit>>>,
    ) -> (FetcherView, StepView<PlaylistUnit>) {
        let (slot, pool, step) = search_step(
            self.search.playlist_slot(),
            self.pool,
            Category::Playlist,
            query,
            page,
            reply,
        );
        (FetcherView { search: self.search.with_playlist(slot), pool, ..self }, step)
    }

    /// The fetcher after one call for page `page` of the artists found for
    /// `query`, and the step that the call answers with.
    pub open spec fn search_artist(
        self,
        query: Seq<char>,
        page: nat,
        reply: Option<Reply<Vec<ArtistUnit>>>,
    ) -> (FetcherView, StepView<ArtistUnit>) {
        let (slot, pool, step) = search_step(
            self.search.artist_slot(),
            self.pool,
            Category::Artist,
            query,
            page,
            reply,
        );
        (FetcherView { search: self.search.with_artist(slot), pool, ..self }, step)
    }
}

/// The servers and the caches.
pub struct Fetcher {
    trending_now: Option<Vec<MusicUnit>>,
    playlist_content: KeyedCache<MusicUnit>,
    artist_playlist: KeyedCache<PlaylistUnit>,
    artist_music: KeyedCache<MusicUnit>,
    search_res: SearchRes,
    pool: ServerPool,
}

impl View for Fetcher {
    type V = FetcherView;

    closed spec fn view(&self) -> FetcherView {
        FetcherView {
            pool: self.pool@,
            trending: match self.trending_now {
                Some(items) => Some(items@),
                None => None,
            },
            playlist_content: self.playlist_content@,
            channel_playlists: self.artist_playlist@,
            channel_videos: self.artist_music@,
            search: self.search_res@,
        }
    }
}

impl Fetcher {
    /// A fetcher over `server_list`, the first server active, no request
    /// sent and every cache empty.
    pub fn new(server_list: Vec<String>) -> (fetcher: Self)
        requires
            server_list.len() > 0,
        ensures
            fetcher@ == (FetcherView {
                pool: PoolView { servers: texts(server_list@), active: 0, requests: 0 },
                trending: None,
                playlist_content: KeyedView { key: Seq::empty(), items: Seq::empty() },
                channel_playlists: KeyedView { key: Seq::empty(), items: Seq::empty() },
                channel_videos: KeyedView { key: Seq::empty(), items: Seq::empty() },
                search: SearchView {
                    query: Seq::empty(),
                    last_fetched: None,
                    music: Seq::empty(),
                    playlist: Seq::empty(),
                    artist: Seq::empty(),
                },
            }),
    {
        Fetcher {
            trending_now: None,
            playlist_content: KeyedCache::new(),
            artist_playlist: KeyedCache::new(),
            artist_music: KeyedCache::new(),
            search_res: SearchRes::new(),
            pool: ServerPool::new(server_list),
        }
    }

    /// Makes the next server the active one, the first after the last. No
    /// cache changes.
    pub fn change_server(&mut self)
        ensures
            final(self)@ == (FetcherView { pool: old(self)@.pool.rotate(), ..old(self)@ }),
            final(self)@.pool.wf(),
    {
        self.pool.change_server();
    }

    /// The position of the active server in the list the fetcher was made
    /// with.
    pub fn active_server_index(&self) -> (i: usize)
        ensures
            i == self@.pool.active,
            self@.pool.wf(),
    {
        self.pool.active_index()
    }

    /// How many requests have been settled.
    pub fn request_sent(&self) -> (n: u64)
        ensures
            n == self@.pool.requests,
    {
        self.pool.requests_sent()
    }

    /// How many search results are held for `category`.
    pub fn search_cached(&self, category: Category) -> (n: usize)
        ensures
            n == self@.search.stored(category),
    {
        self.search_res.stored(category)
    }

    /// One step of retrieving page `page` of the trending music. The listing
    /// is fetched while it is absent, and once there answers every call.
    /// Nothing but the trending cache and the pool changes.
    pub fn get_trending_music(
        &mut self,
        page: usize,
        reply: Option<Reply<Vec<MusicUnit>>>,
    ) -> (step: Step<MusicUnit>)
        ensures
            final(self)@ == old(self)@.get_trending_music(page as nat, reply).0,
            step_matches(step, old(self)@.get_trending_music(page as nat, reply).1),
    {
        if let Some(items) = &self.trending_now {
            return Step::Done(page_window(items, page));
        }
        match reply {
            None => {
                let path = trending_request();
                Step::Fetch(self.pool.url(path.as_str()))
            },
            Some(reply) => {
                match self.pool.settle(reply, TRENDING_RETRY) {
                    Ok(items) => {
                        let page = page_window(&items, page);
                        self.trending_now = Some(items);
                        Step::Done(page)
                    },
                    Err(reason) => Step::Done(Err(reason)),
                }
            },
        }
    }

    /// One step of retrieving page `page` of the content of the playlist
    /// `playlist_id`. The whole content is fetched where the cache holds
    /// another playlist or nothing. Nothing but the cache of playlist content
    /// and the pool changes.
    pub fn get_playlist_content(
        &mut self,
        playlist_id: &str,
        page: usize,
        reply: Option<Reply<Vec<MusicUnit>>>,
    ) -> (step: Step<MusicUnit>)
        ensures
            final(self)@ == old(self)@.get_playlist_content(playlist_id@, page as nat, reply).0,
            step_matches(step, old(self)@.get_playlist_content(playlist_id@, page as nat, reply).1),
    {
        self.playlist_content.step(
            &mut self.pool,
            Listing::PlaylistContent,
            playlist_id,
            page,
            reply,
            LISTING_RETRY,
        )
    }

    /// One step of retrieving page `page` of the playlists of the channel
    /// `channel_id`. The whole listing is fetched where the cache holds
    /// another channel or nothing. Nothing but the cache of channel playlists
    /// and the pool changes.
    pub fn get_playlist_of_channel(
        &mut self,
        channel_id: &str,
        page: usize,
        reply: Option<Reply<Vec<PlaylistUnit>>>,
    ) -> (step: Step<PlaylistUnit>)
        ensures
            final(self)@ == old(self)@.get_playlist_of_channel(channel_id@, page as nat, reply).0,
            step_matches(step, old(self)@.get_playlist_of_channel(channel_id@, page as nat, reply).1),
    {
        self.artist_playlist.step(
            &mut self.pool,
            Listing::ChannelPlaylists,
            channel_id,
            page,
            reply,
            LISTING_RETRY,
        )
    }

    /// One step of retrieving page `page` of the videos of the channel
    /// `channel_id`. The whole listing is fetched where the cache holds
    /// another channel or nothing. Nothing but the cache of channel videos
    /// and the pool changes.
    pub fn get_videos_of_channel(
        &mut self,
        channel_id: &str,
        page: usize,
        reply: Option<Reply<Vec<MusicUnit>>>,
    ) -> (step: Step<MusicUnit>)
        ensures
            final(self)@ == old(self)@.get_videos_of_channel(channel_id@, page as nat, reply).0,
            step_matches(step, old(self)@.get_videos_of_channel(channel_id@, page as nat, reply).1),
    {
        self.artist_music.step(
            &mut self.pool,
            Listing::ChannelVideos,
            channel_id,
            page,
            reply,
            LISTING_RETRY,
        )
    }

    /// One step of retrieving page `page` of the music found for `query`. A
    /// fetch is due for a new query, after another category was active, and
    /// for a page that the store does not fill. Of the search cache only the
    /// last query, the active category and the store of music change, and
    /// beside it the pool.
    pub fn search_music(
        &mut self,
        query: &str,
        page: usize,
        reply: Option<Reply<Vec<MusicUnit>>>,
    ) -> (step: Step<MusicUnit>)
        ensures
            final(self)@ == old(self)@.search_music(query@, page as nat, reply).0,
            step_matches(step, old(self)@.search_music(query@, page as nat, reply).1),
    {
        self.search_res.music_step(&mut self.pool, query, page, reply)
    }

    /// One step of retrieving page `page` of the playlists found for
    /// `query`. A fetch is due for a new query, after another category was
    /// active, and for a page that the store does not fill. Of the search
    /// cache only the last query, the active category and the store of
    /// playlists change, and beside it the pool.
    pub fn search_playlist(
        &mut self,
        query: &str,
        page: usize,
        reply: Option<Reply<Vec<PlaylistUnit>>>,
    ) -> (step: Step<PlaylistUnit>)
        ensures
            final(self)@ == old(self)@.search_playlist(query@, page as nat, reply).0,
            step_matches(step, old(self)@.search_playlist(query@, page as nat, reply).1),
    {
        self.search_res.playlist_step(&mut self.pool, query, page, reply)
    }

    /// One step of retrieving page `page` of the artists found for `query`.
    /// A fetch is due for a new query, after another category was active,
    /// and for a page that the store does not fill. Of the search cache only
    /// the last query, the active category and the store of artists change,
    /// and beside it the pool.
    pub fn search_artist(
        &mut self,
        query: &str,
        page: usize,
        reply: Option<Reply<Vec<ArtistUnit>>>,
    ) -> (step: Step<ArtistUnit>)
        ensures
            final(self)@ == old(self)@.search_artist(query@, page as nat, reply).0,
            step_matches(step, old(self)@.search_artist(query@, page as nat, reply).1),
    {
        self.search_res.artist_step(&mut self.pool, query, page, reply)
    }
}

/// A call without a reply changes nothing: the fetcher only answers from
/// a cache or names what to fetch.
pub proof fn lemma_asking_changes_nothing(fetcher: FetcherView, key: Seq<char>, page: nat)
    ensures
        fetcher.get_trending_music(page, None).0 == fetcher,
        fetcher.get_playlist_content(key, page, None).0 == fetcher,
        fetcher.get_playlist_of_channel(key, page, None).0 == fetcher,
        fetcher.get_videos_of_channel(key, page, None).0 == fetcher,
        fetcher.search_music(key, page, None).0 == fetcher,
        fetcher.search_playlist(key, page, None).0 == fetcher,
        fetcher.search_artist(key, page, None).0 == fetcher,
{
    assert(fetcher.search.with_music(fetcher.search.music_slot()) == fetcher.search);
    assert(fetcher.search.with_playlist(fetcher.search.playlist_slot()) == fetcher.search);
    assert(fetcher.search.with_artist(fetcher.search.artist_slot()) == fetcher.search);
}

/// A call with a reply ends the operation: it is answered with a page or
/// with the reason for none, never with another address to fetch.
pub proof fn lemma_reply_ends_the_call(
    fetcher: FetcherView,
    key: Seq<char>,
    page: nat,
    music: Reply<Vec<MusicUnit>>,
    playlist: Reply<Vec<PlaylistUnit>>,
    artist: Reply<Vec<ArtistUnit>>,
)
    ensures
        fetcher.get_trending_music(page, Some(music)).1 is Done,
        fetcher.get_playlist_content(key, page, Some(music)).1 is Done,
        fetcher.get_playlist_of_channel(key, page, Some(playlist)).1 is Done,
        fetcher.get_videos_of_channel(key, page, Some(music)).1 is Done,
        fetcher.search_music(key, page, Some(music)).1 is Done,
        fetcher.search_playlist(key, page, Some(playlist)).1 is Done,
        fetcher.search_artist(key, page, Some(artist)).1 is Done,
{
}

/// A search for a new query clears and refills the store of its category.
/// After music has been found for `first`, a body that comes for another
/// query `second` is all that the store of music then holds, so the first
/// page of `second` has no item of `first` but what that body holds itself;
/// and a search for `first` again is answered with a fetch, on whatever page.
pub proof fn lemma_search_invalidation(
    fetcher: FetcherView,
    first: Seq<char>,
    second: Seq<char>,
    found: Vec<MusicUnit>,
    page: nat,
)
    requires
        fetcher.search.query == first,
        first != second,
    ensures
        ({
            let (after, step) = fetcher.search_music(second, 0, Some(Reply::Body(found)));
            &&& after.search.music == found@
            &&& after.search.query == second
            &&& step == StepView::Done(page_of(found@, 0))
            &&& after.search_music(first, page, None).1 == StepView::<MusicUnit>::Fetch(
                after.pool.url(search_path(first, Category::Music, page)),
            )
        }),
{
    lemma_search_new_query_refills(
        fetcher.search.music_slot(),
        fetcher.pool,
        Category::Music,
        first,
        second,
        0,
        found,
    );
}

/// A switch of category keeps the other categories. After music has been
/// found, a search in another category, for the same query or any other and
/// whatever comes back, leaves the store of music as it was; and so for each
/// category and the two others.
pub proof fn lemma_category_switch_preserves(
    fetcher: FetcherView,
    query: Seq<char>,
    page: nat,
    music: Option<Reply<Vec<MusicUnit>>>,
    playlist: Option<Reply<Vec<PlaylistUnit>>>,
    artist: Option<Reply<Vec<ArtistUnit>>>,
)
    ensures
        fetcher.search_playlist(query, page, playlist).0.search.music == fetcher.search.music,
        fetcher.search_artist(query, page, artist).0.search.music == fetcher.search.music,
        fetcher.search_music(query, page, music).0.search.playlist == fetcher.search.playlist,
        fetcher.search_artist(query, page, artist).0.search.playlist == fetcher.search.playlist,
        fetcher.search_music(query, page, music).0.search.artist == fetcher.search.artist,
        fetcher.search_playlist(query, page, playlist).0.search.artist == fetcher.search.artist,
{
}

/// The cache of channel videos holds one channel at a time. After the
/// videos of `first` are cached, a body that comes for another channel
/// `second` takes their place whole; and a call for `first` again is
/// answered with a fetch, on whatever page: nothing of it was kept.
pub proof fn lemma_channel_cache_replaced(
    fetcher: FetcherView,
    first: Seq<char>,
    second: Seq<char>,
    videos: Vec<MusicUnit>,
    page: nat,
    again: nat,
)
    requires
        fetcher.channel_videos.key == first,
        first != second,
    ensures
        ({
            let (after, step) = fetcher.get_videos_of_channel(
                second,
                page,
                Some(Reply::Body(videos)),
            );
            &&& after.channel_videos == (KeyedView { key: second, items: videos@ })
            &&& step == StepView::Done(page_of(videos@, page))
            &&& after.get_videos_of_channel(first, again, None).1 == StepView::<
                MusicUnit,
            >::Fetch(after.pool.url(listing_path(Listing::ChannelVideos, first)))
        }),
{
}

/// A retrieval touches the pool and its own cache, and no other cache.
pub proof fn lemma_caches_are_kept_apart(
    fetcher: FetcherView,
    key: Seq<char>,
    page: nat,
    music: Option<Reply<Vec<MusicUnit>>>,
    playlist: Option<Reply<Vec<PlaylistUnit>>>,
    artist: Option<Reply<Vec<ArtistUnit>>>,
)
    ensures
        fetcher.get_trending_music(page, music).0 == (FetcherView {
            trending: fetcher.get_trending_music(page, music).0.trending,
            pool: fetcher.get_trending_music(page, music).0.pool,
            ..fetcher
        }),
        fetcher.get_playlist_content(key, page, music).0 == (FetcherView {
            playlist_content: fetcher.get_playlist_content(key, page, music).0.playlist_content,
            pool: fetcher.get_playlist_content(key, page, music).0.pool,
            ..fetcher
        }),
        fetcher.get_playlist_of_channel(key, page, playlist).0 == (FetcherView {
            channel_playlists: fetcher.get_playlist_of_channel(
                key,
                page,
                playlist,
            ).0.channel_playlists,
            pool: fetcher.get_playlist_of_channel(key, page, playlist).0.pool,
            ..fetcher
        }),
        fetcher.get_videos_of_channel(key, page, music).0 == (FetcherView {
            channel_videos: fetcher.get_videos_of_channel(key, page, music).0.channel_videos,
            pool: fetcher.get_videos_of_channel(key, page, music).0.pool,
            ..fetcher
        }),
        fetcher.search_music(key, page, music).0 == (FetcherView {
            search: fetcher.search_music(key, page, music).0.search,
            pool: fetcher.search_music(key, page, music).0.pool,
            ..fetcher
        }),
        fetcher.search_playlist(key, page, playlist).0 == (FetcherView {
            search: fetcher.search_playlist(key, page, playlist).0.search,
            pool: fetcher.search_playlist(key, page, playlist).0.pool,
            ..fetcher
        }),
        fetcher.search_artist(key, page, artist).0 == (FetcherView {
            search: fetcher.search_artist(key, page, artist).0.search,
            pool: fetcher.search_artist(key, page, artist).0.pool,
            ..fetcher
        }),
{
}

} // verus!
