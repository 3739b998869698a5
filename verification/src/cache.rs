//! The caches that hold one whole listing under the key it was asked for:
//! the content of a playlist, and the videos and the playlists of a channel.

use vstd::prelude::*;
use crate::outcome::ReturnAction;
use crate::paths::{listing_path, listing_request, same_text, Listing};
use crate::pool::{fails_over, verdict, PoolView, Reply, ServerPool};
use crate::units::Record;
use crate::window::{page_matches, page_of, page_window};

verus! {

/// What an operation asks of its caller next.
pub enum Step<T> {
    /// Send a request to this address and come back with what it brought.
    Fetch(String),
    /// The operation is over, with this page or this reason for none.
    Done(Result<Vec<T>, ReturnAction>),
}

/// A step as a value.
pub enum StepView<T> {
    Fetch(Seq<char>),
    Done(Result<Seq<T>, ReturnAction>),
}

/// The step `got` stands for the step `want`.
pub open spec fn step_matches<T>(got: Step<T>, want: StepView<T>) -> bool {
    match (got, want) {
        (Step::Fetch(address), StepView::Fetch(text)) => address@ == text,
        (Step::Done(page), StepView::Done(result)) => page_matches(page, result),
        _ => false,
    }
}

/// A keyed cache as a value: the key it was filled for, and the listing.
pub struct KeyedView<T> {
    pub key: Seq<char>,
    pub items: Seq<T>,
}

impl<T> KeyedView<T> {
    /// Whether the cache cannot answer for `key`: it was filled for another
    /// key, or it holds nothing, which is never taken for a whole listing.
    pub open spec fn is_stale(self, key: Seq<char>) -> bool {
        key != self.key || self.items.len() == 0
    }
}

/// What one call of a keyed retrieval comes to. The cache answers where it
/// is not stale, and a reply is then not looked at. Where it is stale and
/// no reply has come, the step is to fetch the whole listing. Where a reply
/// has come, the request is settled with the pool; a body replaces key and
/// listing together, anything else leaves the cache as it was.
pub open spec fn keyed_step<T>(
    cache: KeyedView<T>,
    pool: PoolView,
    listing: Listing,
    key: Seq<char>,
    page: nat,
    reply: Option<Reply<Vec<T>>>,
    retry_for: i32,
) -> (KeyedView<T>, PoolView, StepView<T>) {
    if !cache.is_stale(key) {
        (cache, pool, StepView::Done(page_of(cache.items, page)))
    } else {
        match reply {
            None => (cache, pool, StepView::Fetch(pool.url(listing_path(listing, key)))),
            Some(reply) => {
                let settled = pool.after_request(fails_over(reply, retry_for));
                match verdict(reply, retry_for) {
                    Ok(items) => (
                        KeyedView { key, items: items@ },
                        settled,
                        StepView::Done(page_of(items@, page)),
                    ),
                    Err(reason) => (cache, settled, StepView::Done(Err(reason))),
                }
            },
        }
    }
}

/// One listing and the key it belongs to.
pub struct KeyedCache<T> {
    id: String,
    items: Vec<T>,
}

impl<T> View for KeyedCache<T> {
    type V = KeyedView<T>;

    closed spec fn view(&self) -> KeyedView<T> {
        KeyedView { key: self.id@, items: self.items@ }
    }
}

impl<T: Record> KeyedCache<T> {
    /// A cache that holds nothing, under the empty key.
    pub fn new() -> (cache: Self)
        ensures
            cache@ == (KeyedView::<T> { key: Seq::empty(), items: Seq::empty() }),
    {
        KeyedCache { id: String::new(), items: Vec::new() }
    }

    /// Whether a listing for `key` has to be fetched.
    pub fn is_stale(&self, key: &str) -> (stale: bool)
        ensures
            stale == self@.is_stale(key@),
    {
        !same_text(key, self.id.as_str()) || self.items.len() == 0
    }

    /// Puts `items` in the place of what the cache held, under `key`.
    pub fn replace(&mut self, key: &str, items: Vec<T>)
        ensures
            final(self)@ == (KeyedView { key: key@, items: items@ }),
    {
        self.id = String::from_str(key);
        self.items = items;
    }

    /// Page `page` of the listing.
    pub fn page(&self, page: usize) -> (r: Result<Vec<T>, ReturnAction>)
        ensures
            page_matches(r, page_of(self@.items, page as nat)),
    {
        page_window(&self.items, page)
    }

    /// One call of a retrieval from this cache, which holds the listing
    /// `listing`: see `keyed_step`.
    pub fn step(
        &mut self,
        pool: &mut ServerPool,
        listing: Listing,
        key: &str,
        page: usize,
        reply: Option<Reply<Vec<T>>>,
        retry_for: i32,
    ) -> (step: Step<T>)
        ensures
            ({
                let (cache, settled, want) = keyed_step(
                    old(self)@,
                    old(pool)@,
                    listing,
                    key@,
                    page as nat,
                    reply,
                    retry_for,
                );
                &&& final(self)@ == cache
                &&& final(pool)@ == settled
                &&& step_matches(step, want)
            }),
    {
        if !self.is_stale(key) {
            return Step::Done(self.page(page));
        }
        match reply {
            None => {
                let path = listing_request(listing, key);
                Step::Fetch(pool.url(path.as_str()))
            },
            Some(reply) => {
                match pool.settle(reply, retry_for) {
                    Ok(items) => {
                        self.replace(key, items);
                        Step::Done(self.page(page))
                    },
                    Err(reason) => Step::Done(Err(reason)),
                }
            },
        }
    }
}

/// A listing is replaced whole. After a body has come for a key other than
/// the one the cache was filled for, the cache holds that body under the new
/// key and nothing of what it held before; the page comes from the body; and
/// a call for the earlier key finds the cache stale and asks for a fetch.
pub proof fn lemma_keyed_replaced<T>(
    cache: KeyedView<T>,
    pool: PoolView,
    listing: Listing,
    first: Seq<char>,
    second: Seq<char>,
    page: nat,
    items: Vec<T>,
    retry_for: i32,
)
    requires
        cache.key == first,
        first != second,
    ensures
        ({
            let (after, settled, step) = keyed_step(
                cache,
                pool,
                listing,
                second,
                page,
                Some(Reply::Body(items)),
                retry_for,
            );
            &&& after == (KeyedView { key: second, items: items@ })
            &&& step == StepView::Done(page_of(items@, page))
            &&& after.is_stale(first)
            &&& forall|again: nat|
                #![trigger keyed_step(after, settled, listing, first, again, None, retry_for)]
                keyed_step(after, settled, listing, first, again, None, retry_for).2
                    == StepView::<T>::Fetch(settled.url(listing_path(listing, first)))
        }),
{
}

/// A request that brings no body leaves the cache as it was.
pub proof fn lemma_keyed_failure_keeps<T>(
    cache: KeyedView<T>,
    pool: PoolView,
    listing: Listing,
    key: Seq<char>,
    page: nat,
    reply: Reply<Vec<T>>,
    retry_for: i32,
)
    requires
        !(reply is Body),
    ensures
        keyed_step(cache, pool, listing, key, page, Some(reply), retry_for).0 == cache,
{
}

} // verus!
