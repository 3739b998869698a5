//! Pages: fixed-size, zero-based windows over an ordered list of records.

use vstd::prelude::*;
use crate::outcome::ReturnAction;
use crate::units::Record;

verus! {

/// How many items a full page holds.
pub const ITEM_PER_PAGE: usize = 10;

/// Where page `page` begins in a list.
pub open spec fn page_lower(page: nat) -> nat {
    page * ITEM_PER_PAGE as nat
}

/// Where page `page` ends in a list of `len` items: one page further on, or
/// at the end of the list where that comes first.
pub open spec fn page_upper(len: nat, page: nat) -> nat {
    if page_lower(page) + ITEM_PER_PAGE as nat <= len {
        page_lower(page) + ITEM_PER_PAGE as nat
    } else {
        len
    }
}

/// How many items of a list of `len` items lie on page `page`.
pub open spec fn page_fill(len: nat, page: nat) -> nat {
    if page_upper(len, page) > page_lower(page) {
        (page_upper(len, page) - page_lower(page)) as nat
    } else {
        0
    }
}

/// Page `page` of `items`: the items it holds, or the end of results where
/// the list has nothing at or after the page's beginning.
pub open spec fn page_of<T>(items: Seq<T>, page: nat) -> Result<Seq<T>, ReturnAction> {
    if page_lower(page) < items.len() {
        Ok(items.subrange(page_lower(page) as int, page_upper(items.len(), page) as int))
    } else {
        Err(ReturnAction::EOR)
    }
}

/// What an operation hands back once a window has been cut: the page as a
/// list of records stands for the page as a sequence.
pub open spec fn page_matches<T>(got: Result<Vec<T>, ReturnAction>, want: Result<Seq<T>, ReturnAction>) -> bool {
    match (got, want) {
        (Ok(v), Ok(s)) => v@ == s,
        (Err(e), Err(f)) => e == f,
        _ => false,
    }
}

/// A page that exists holds `min(P, N - k * P)` items, `P` being the page
/// size, `N` the length of the list and `k` the page; there is a page exactly
/// where `k * P < N`.
pub proof fn lemma_page_len<T>(items: Seq<T>, page: nat)
    ensures
        page * ITEM_PER_PAGE < items.len() ==> (page_of(items, page) matches Ok(s) && s.len()
            == if items.len() - page * ITEM_PER_PAGE < ITEM_PER_PAGE {
            items.len() - page * ITEM_PER_PAGE
        } else {
            ITEM_PER_PAGE as int
        }),
        page * ITEM_PER_PAGE >= items.len() ==> page_of(items, page) == Err::<
            Seq<T>,
            ReturnAction,
        >(ReturnAction::EOR),
{
}

/// Pages neither overlap nor leave a gap: item `i` of page `k` is item
/// `k * P + i` of the list, and every item of the list is on one page.
pub proof fn lemma_pages_tile<T>(items: Seq<T>, page: nat, i: int)
    requires
        page_of(items, page) is Ok,
        0 <= i < page_of(items, page)->Ok_0.len(),
    ensures
        page * ITEM_PER_PAGE + i < items.len(),
        page_of(items, page)->Ok_0[i] == items[page * ITEM_PER_PAGE + i],
{
}

/// Every item of a list is on a page: item `j` is item `j % P` of page
/// `j / P`.
pub proof fn lemma_every_item_on_a_page<T>(items: Seq<T>, j: int)
    requires
        0 <= j < items.len(),
    ensures
        page_of(items, (j / ITEM_PER_PAGE as int) as nat) matches Ok(s) && j % (
        ITEM_PER_PAGE as int) < s.len() && s[j % (ITEM_PER_PAGE as int)] == items[j],
{
}

/// Whether `items` has anything on page `page`, and if so from where to where.
fn page_bounds(len: usize, page: usize) -> (r: Option<(usize, usize)>)
    ensures
        match r {
            Some((lower, upper)) => {
                &&& page_lower(page as nat) < len
                &&& lower == page_lower(page as nat)
                &&& upper == page_upper(len as nat, page as nat)
            },
            None => page_lower(page as nat) >= len,
        },
{
    match page.checked_mul(ITEM_PER_PAGE) {
        Some(lower) => {
            if lower >= len {
                None
            } else if len - lower >= ITEM_PER_PAGE {
                Some((lower, lower + ITEM_PER_PAGE))
            } else {
                Some((lower, len))
            }
        },
        None => None,
    }
}

/// How many items of a list of `len` items lie on page `page`.
pub fn page_fill_of(len: usize, page: usize) -> (n: usize)
    ensures
        n == page_fill(len as nat, page as nat),
        n <= ITEM_PER_PAGE,
{
    match page_bounds(len, page) {
        Some((lower, upper)) => upper - lower,
        None => 0,
    }
}

/// Cuts page `page` out of `items`: a copy of the items from `page * P` up
/// to `page * P + P`, or up to the end of the list for a short last page.
/// Where the list has nothing there, the answer is the end of results.
pub fn page_window<T: Record>(items: &Vec<T>, page: usize) -> (r: Result<Vec<T>, ReturnAction>)
    ensures
        page_matches(r, page_of(items@, page as nat)),
        r matches Ok(v) ==> v.len() == page_fill(items.len() as nat, page as nat) && v.len() > 0,
        r is Ok <==> page * ITEM_PER_PAGE < items.len(),
{
    match page_bounds(items.len(), page) {
        Some((lower, upper)) => {
            let mut out: Vec<T> = Vec::new();
            let mut i: usize = lower;
            while i < upper
                invariant
                    lower <= i <= upper <= items.len(),
                    out@ == items@.subrange(lower as int, i as int),
                decreases upper - i,
            {
                out.push(items[i].duplicate());
                assert(out@ =~= items@.subrange(lower as int, i + 1));
                i = i + 1;
            }
            Ok(out)
        },
        None => Err(ReturnAction::EOR),
    }
}

} // verus!
