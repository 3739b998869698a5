//! The search cache: the last query, the category that was last active, and
//! one store of results for each category.

use vstd::prelude::*;
use crate::cache::{step_matches, Step, StepView};
use crate::paths::{same_text, search_path, search_request, Category};
use crate::pool::{fails_over, verdict, PoolView, Reply, ServerPool};
use crate::units::{ArtistUnit, MusicUnit, PlaylistUnit, Record};
use crate::window::{page_fill, page_fill_of, page_of, page_window, ITEM_PER_PAGE};

verus! {

/// The retry budget of a search request.
pub const SEARCH_RETRY: i32 = 1;

/// What a search in one category sees of the cache: the last query, the
/// category that was last active, and that category's own store.
pub struct SlotView<T> {
    pub query: Seq<char>,
    pub last_fetched: Option<Category>,
    pub store: Seq<T>,
}

/// The search cache as a value.
pub struct SearchView {
    pub query: Seq<char>,
    pub last_fetched: Option<Category>,
    pub music: Seq<MusicUnit>,
    pub playlist: Seq<PlaylistUnit>,
    pub artist: Seq<ArtistUnit>,
}

impl SearchView {
    /// How many results the store of `category` holds.
    pub open spec fn stored(self, category: Category) -> nat {
        match category {
            Category::Music => self.music.len(),
            Category::Playlist => self.playlist.len(),
            Category::Artist => self.artist.len(),
        }
    }

    /// What a search for music sees.
    pub open spec fn music_slot(self) -> SlotView<MusicUnit> {
        SlotView { query: self.query, last_fetched: self.last_fetched, store: self.music }
    }

    /// What a search for playlists sees.
    pub open spec fn playlist_slot(self) -> SlotView<PlaylistUnit> {
        SlotView { query: self.query, last_fetched: self.last_fetched, store: self.playlist }
    }

    /// What a search for artists sees.
    pub open spec fn artist_slot(self) -> SlotView<ArtistUnit> {
        SlotView { query: self.query, last_fetched: self.last_fetched, store: self.artist }
    }

    /// The cache after a search for music left `slot`.
    pub open spec fn with_music(self, slot: SlotView<MusicUnit>) -> SearchView {
        SearchView {
            query: slot.query,
            last_fetched: slot.last_fetched,
            music: slot.store,
            ..self
        }
    }

    /// The cache after a search for playlists left `slot`.
    pub open spec fn with_playlist(self, slot: SlotView<PlaylistUnit>) -> SearchView {
        SearchView {
            query: slot.query,
            last_fetched: slot.last_fetched,
            playlist: slot.store,
            ..self
        }
    }

    /// The cache after a search for artists left `slot`.
    pub open spec fn with_artist(self, slot: SlotView<ArtistUnit>) -> SearchView {
        SearchView {
            query: slot.query,
            last_fetched: slot.last_fetched,
            artist: slot.store,
            ..self
        }
    }
}

/// Whether the store has to go before a fetch: the query is a new one, or
/// the category was not the active one.
pub open spec fn search_resets<T>(slot: SlotView<T>, category: Category, query: Seq<char>) -> bool {
    query != slot.query || slot.last_fetched != Some(category)
}

/// Whether a search has to fetch: the store has to go, or it does not fill
/// the page that is asked for.
pub open spec fn search_due<T>(
    slot: SlotView<T>,
    category: Category,
    query: Seq<char>,
    page: nat,
) -> bool {
    search_resets(slot, category, query) || page_fill(slot.store.len(), page) < ITEM_PER_PAGE
}

/// What one call of a search comes to. Where no fetch is due the store
/// answers, and a reply is then not looked at. Where one is due and no reply
/// has come, the step is to fetch the page. Where a reply has come, the
/// request is settled with the pool and the category becomes the active
/// one; the store is emptied if it has to go; a body is added at the store's
/// end and its query becomes the last query. The page is cut from the store
/// as it then stands, and a failure is handed on as it is.
pub open spec fn search_step<T>(
    slot: SlotView<T>,
    pool: PoolView,
    category: Category,
    query: Seq<char>,
    page: nat,
    reply: Option<Reply<Vec<T>>>,
) -> (SlotView<T>, PoolView, StepView<T>) {
    if !search_due(slot, category, query, page) {
        (slot, pool, StepView::Done(page_of(slot.store, page)))
    } else {
        match reply {
            None => (slot, pool, StepView::Fetch(pool.url(search_path(query, category, page)))),
            Some(reply) => {
                let settled = pool.after_request(fails_over(reply, SEARCH_RETRY));
                let kept = if search_resets(slot, category, query) {
                    Seq::empty()
                } else {
                    slot.store
                };
                match verdict(reply, SEARCH_RETRY) {
                    Ok(found) => (
                        SlotView { query, last_fetched: Some(category), store: kept + found@ },
                        settled,
                        StepView::Done(page_of(kept + found@, page)),
                    ),
                    Err(reason) => (
                        SlotView { query: slot.query, last_fetched: Some(category), store: kept },
                        settled,
                        StepView::Done(Err(reason)),
                    ),
                }
            },
        }
    }
}

/// A new query refills the store. After a body has come for a query other
/// than the last one, in whatever category, the store holds that body and
/// nothing of what it held before, so the page comes from the body alone;
/// and a search for the earlier query is then due for a fetch on every page.
pub proof fn lemma_search_new_query_refills<T>(
    slot: SlotView<T>,
    pool: PoolView,
    category: Category,
    first: Seq<char>,
    second: Seq<char>,
    page: nat,
    found: Vec<T>,
)
    requires
        slot.query == first,
        first != second,
    ensures
        ({
            let (after, settled, step) = search_step(
                slot,
                pool,
                category,
                second,
                page,
                Some(Reply::Body(found)),
            );
            &&& after.store == found@
            &&& after.query == second
            &&& step == StepView::Done(page_of(found@, page))
            &&& forall|again: nat| #[trigger] search_due(after, category, first, again)
            &&& forall|again: nat|
                #![trigger search_step(after, settled, category, first, again, None)]
                search_step(after, settled, category, first, again, None).2 == StepView::<
                    T,
                >::Fetch(settled.url(search_path(first, category, again)))
        }),
{
}

/// A search in one category leaves the stores of the other two as they
/// were, whatever the query, the page and the reply.
pub proof fn lemma_search_keeps_other_categories(
    cache: SearchView,
    music: SlotView<MusicUnit>,
    playlist: SlotView<PlaylistUnit>,
    artist: SlotView<ArtistUnit>,
)
    ensures
        cache.with_music(music).playlist == cache.playlist,
        cache.with_music(music).artist == cache.artist,
        cache.with_playlist(playlist).music == cache.music,
        cache.with_playlist(playlist).artist == cache.artist,
        cache.with_artist(artist).music == cache.music,
        cache.with_artist(artist).playlist == cache.playlist,
{
}

/// A search that fails leaves the last query as it was, and the store
/// either as it was or, where the store had to go, empty.
pub proof fn lemma_search_failure_keeps<T>(
    slot: SlotView<T>,
    pool: PoolView,
    category: Category,
    query: Seq<char>,
    page: nat,
    reply: Reply<Vec<T>>,
)
    requires
        !(reply is Body),
    ensures
        ({
            let after = search_step(slot, pool, category, query, page, Some(reply)).0;
            &&& after.query == slot.query
            &&& after.store == if search_due(slot, category, query, page) && search_resets(
                slot,
                category,
                query,
            ) {
                Seq::<T>::empty()
            } else {
                slot.store
            }
        }),
{
}

/// The search cache.
pub struct SearchRes {
    query: String,
    last_fetched: Option<Category>,
    music: Vec<MusicUnit>,
    playlist: Vec<PlaylistUnit>,
    artist: Vec<ArtistUnit>,
}

impl View for SearchRes {
    type V = SearchView;

    closed spec fn view(&self) -> SearchView {
        SearchView {
            query: self.query@,
            last_fetched: self.last_fetched,
            music: self.music@,
            playlist: self.playlist@,
            artist: self.artist@,
        }
    }
}

/// Whether `category` is the one that was last active.
fn is_active(last_fetched: &Option<Category>, category: Category) -> (active: bool)
    ensures
        active == (*last_fetched == Some(category)),
{
    match last_fetched {
        Some(last) => *last == category,
        None => false,
    }
}

/// One call of a search in `category`, on that category's store.
fn slot_step<T: Record>(
    stored_query: &mut String,
    last_fetched: &mut Option<Category>,
    store: &mut Vec<T>,
    pool: &mut ServerPool,
    category: Category,
    query: &str,
    page: usize,
    reply: Option<Reply<Vec<T>>>,
) -> (step: Step<T>)
    ensures
        ({
            let before = SlotView {
                query: old(stored_query)@,
                last_fetched: *old(last_fetched),
                store: old(store)@,
            };
            let (slot, settled, want) = search_step(
                before,
                old(pool)@,
                category,
                query@,
                page as nat,
                reply,
            );
            &&& final(stored_query)@ == slot.query
            &&& *final(last_fetched) == slot.last_fetched
            &&& final(store)@ == slot.store
            &&& final(pool)@ == settled
            &&& step_matches(step, want)
        }),
{
    let is_new_query = !same_text(query, stored_query.as_str());
    let is_new_type = !is_active(last_fetched, category);
    let insufficient_data = page_fill_of(store.len(), page) < ITEM_PER_PAGE;
    if !(is_new_query || is_new_type || insufficient_data) {
        return Step::Done(page_window(store, page));
    }
    match reply {
        None => {
            let path = search_request(query, category, page);
            Step::Fetch(pool.url(path.as_str()))
        },
        Some(reply) => {
            *last_fetched = Some(category);
            let outcome = pool.settle(reply, SEARCH_RETRY);
            if is_new_query || is_new_type {
                store.clear();
            }
            match outcome {
                Ok(mut found) => {
                    *stored_query = String::from_str(query);
                    store.append(&mut found);
                    Step::Done(page_window(store, page))
                },
                Err(reason) => Step::Done(Err(reason)),
            }
        },
    }
}

impl SearchRes {
    /// A search cache with nothing in it: no query, no active category.
    pub fn new() -> (cache: Self)
        ensures
            cache@ == (SearchView {
                query: Seq::empty(),
                last_fetched: None,
                music: Seq::empty(),
                playlist: Seq::empty(),
                artist: Seq::empty(),
            }),
    {
        SearchRes {
            query: String::new(),
            last_fetched: None,
            music: Vec::new(),
            playlist: Vec::new(),
            artist: Vec::new(),
        }
    }

    /// How many results the store of `category` holds.
    pub fn stored(&self, category: Category) -> (n: usize)
        ensures
            n == self@.stored(category),
    {
        match category {
            Category::Music => self.music.len(),
            Category::Playlist => self.playlist.len(),
            Category::Artist => self.artist.len(),
        }
    }

    /// One call of a search for music: see `search_step`.
    pub fn music_step(
        &mut self,
        pool: &mut ServerPool,
        query: &str,
        page: usize,
        reply: Option<Reply<Vec<MusicUnit>>>,
    ) -> (step: Step<MusicUnit>)
        ensures
            ({
                let (slot, settled, want) = search_step(
                    old(self)@.music_slot(),
                    old(pool)@,
                    Category::Music,
                    query@,
                    page as nat,
                    reply,
                );
                &&& final(self)@ == old(self)@.with_music(slot)
                &&& final(pool)@ == settled
                &&& step_matches(step, want)
            }),
    {
        slot_step(
            &mut self.query,
            &mut self.last_fetched,
            &mut self.music,
            pool,
            Category::Music,
            query,
            page,
            reply,
        )
    }

    /// One call of a search for playlists: see `search_step`.
    pub fn playlist_step(
        &mut self,
        pool: &mut ServerPool,
        query: &str,
        page: usize,
        reply: Option<Reply<Vec<PlaylistUnit>>>,
    ) -> (step: Step<PlaylistUnit>)
        ensures
            ({
                let (slot, settled, want) = search_step(
                    old(self)@.playlist_slot(),
                    old(pool)@,
                    Category::Playlist,
                    query@,
                    page as nat,
                    reply,
                );
                &&& final(self)@ == old(self)@.with_playlist(slot)
                &&& final(pool)@ == settled
                &&& step_matches(step, want)
            }),
    {
        slot_step(
            &mut self.query,
            &mut self.last_fetched,
            &mut self.playlist,
            pool,
            Category::Playlist,
            query,
            page,
            reply,
        )
    }

    /// One call of a search for artists: see `search_step`.
    pub fn artist_step(
        &mut self,
        pool: &mut ServerPool,
        query: &str,
        page: usize,
        reply: Option<Reply<Vec<ArtistUnit>>>,
    ) -> (step: Step<ArtistUnit>)
        ensures
            ({
                let (slot, settled, want) = search_step(
                    old(self)@.artist_slot(),
                    old(pool)@,
                    Category::Artist,
                    query@,
                    page as nat,
                    reply,
                );
                &&& final(self)@ == old(self)@.with_artist(slot)
                &&& final(pool)@ == settled
                &&& step_matches(step, want)
            }),
    {
        slot_step(
            &mut self.query,
            &mut self.last_fetched,
            &mut self.artist,
            pool,
            Category::Artist,
            query,
            page,
            reply,
        )
    }
}

} // verus!
