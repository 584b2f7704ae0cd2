//! The catalog pager: cuts an ordered catalog into pages of fixed size and
//! moves between them.
//!
//! A page is identified by the offset of its first entry. The first page is
//! written `None`; every other page is `Some(offset)` with `offset` a multiple
//! of [`PAGE_SIZE`] below the catalog's length.

use vstd::prelude::*;
use vstd::slice::*;

verus! {

/// Number of catalog entries shown on one page.
pub const PAGE_SIZE: usize = 25;

/// A request to move to a neighbouring page.
#[derive(Clone, Copy, Debug, PartialEq, Eq, Structural)]
pub enum PageMove {
    Prev,
    Next,
}

/// The offset at which the page `offset` starts: `None` is the first page.
pub open spec fn page_start(offset: Option<usize>) -> nat {
    match offset {
        Some(o) => o as nat,
        None => 0,
    }
}

/// Whether `offset` names a page of a catalog of `len` entries: it is `None`,
/// or a multiple of the page size inside the catalog.
pub open spec fn valid_offset(offset: Option<usize>, len: nat) -> bool {
    match offset {
        Some(o) => o as nat % 25 == 0 && (o as nat) < len,
        None => true,
    }
}

/// The entries of `catalog` that the page `offset` shows.
pub open spec fn page_slice<T>(catalog: Seq<T>, offset: Option<usize>) -> Seq<T> {
    let start = if page_start(offset) <= catalog.len() {
        page_start(offset) as int
    } else {
        catalog.len() as int
    };
    let end = if start + 25 <= catalog.len() {
        start + 25
    } else {
        catalog.len() as int
    };
    catalog.subrange(start, end)
}

/// Whether a page precedes the page `offset`.
pub open spec fn has_prev_page(offset: Option<usize>) -> bool {
    page_start(offset) > 0
}

/// Whether a page follows the page `offset` in a catalog of `len` entries.
pub open spec fn has_next_page(offset: Option<usize>, len: nat) -> bool {
    page_start(offset) + 25 < len
}

/// Number of pages of a catalog of `len` entries: `len / 25`, rounded up.
pub open spec fn page_count_of(len: nat) -> nat {
    (len + 24) / 25
}

/// The number, counted from 1, of the page `offset`.
pub open spec fn page_number_of(offset: Option<usize>) -> nat {
    page_start(offset) / 25 + 1
}

/// The page before `offset`; the first page stays where it is.
pub open spec fn prev_offset(offset: Option<usize>) -> Option<usize> {
    match offset {
        None => None,
        Some(o) => if o <= 25 {
            None
        } else {
            Some((o - 25) as usize)
        },
    }
}

/// The page after `offset` in a catalog of `len` entries; the last page stays
/// where it is.
pub open spec fn next_offset(offset: Option<usize>, len: nat) -> Option<usize> {
    match offset {
        None => if len > 25 {
            Some(25usize)
        } else {
            None
        },
        Some(o) => if o + 25 >= len {
            Some(o)
        } else {
            Some((o + 25) as usize)
        },
    }
}

/// The page reached from `offset` by one move.
pub open spec fn moved_offset(offset: Option<usize>, len: nat, step: PageMove) -> Option<usize> {
    match step {
        PageMove::Prev => prev_offset(offset),
        PageMove::Next => next_offset(offset, len),
    }
}

/// The page reached from `offset` by the moves of `steps`, in order.
pub open spec fn moved_offset_all(offset: Option<usize>, len: nat, steps: Seq<PageMove>) -> Option<
    usize,
>
    decreases steps.len(),
{
    if steps.len() == 0 {
        offset
    } else {
        moved_offset(moved_offset_all(offset, len, steps.drop_last()), len, steps.last())
    }
}

/// One page of a catalog, with what lies around it.
pub struct Page<'a, T> {
    /// The entries shown.
    pub items: &'a [T],
    /// Whether a page precedes this one.
    pub has_prev: bool,
    /// Whether a page follows this one.
    pub has_next: bool,
}

/// The page `offset` of `catalog`.
///
/// Any offset is accepted: one beyond the catalog shows no entries.
pub fn page<'a, T>(catalog: &'a [T], offset: Option<usize>) -> (r: Page<'a, T>)
    ensures
        r.items@ == page_slice(catalog@, offset),
        r.has_prev == has_prev_page(offset),
        r.has_next == has_next_page(offset, catalog@.len()),
{
    let len = catalog.len();
    let first = match offset {
        Some(o) => o,
        None => 0,
    };
    let start = if first <= len {
        first
    } else {
        len
    };
    let end = if len - start >= PAGE_SIZE {
        start + PAGE_SIZE
    } else {
        len
    };
    Page {
        items: slice_subrange(catalog, start, end),
        has_prev: first > 0,
        has_next: first < len && len - first > PAGE_SIZE,
    }
}

/// The offset after a move to the previous page.
pub fn page_prev(offset: Option<usize>) -> (r: Option<usize>)
    ensures
        r == prev_offset(offset),
{
    match offset {
        None => None,
        Some(o) => if o <= PAGE_SIZE {
            None
        } else {
            Some(o - PAGE_SIZE)
        },
    }
}

/// The offset after a move to the next page of a catalog of `len` entries.
pub fn page_next(offset: Option<usize>, len: usize) -> (r: Option<usize>)
    ensures
        r == next_offset(offset, len as nat),
{
    match offset {
        None => if len > PAGE_SIZE {
            Some(PAGE_SIZE)
        } else {
            None
        },
        Some(o) => if o >= len || len - o <= PAGE_SIZE {
            Some(o)
        } else {
            Some(o + PAGE_SIZE)
        },
    }
}

/// The offset after one move.
pub fn page_move(offset: Option<usize>, len: usize, step: PageMove) -> (r: Option<usize>)
    ensures
        r == moved_offset(offset, len as nat, step),
{
    match step {
        PageMove::Prev => page_prev(offset),
        PageMove::Next => page_next(offset, len),
    }
}

/// Number of pages of a catalog of `len` entries.
pub fn page_count(len: usize) -> (r: usize)
    ensures
        r == page_count_of(len as nat),
{
    if len % PAGE_SIZE == 0 {
        len / PAGE_SIZE
    } else {
        len / PAGE_SIZE + 1
    }
}

/// The number, counted from 1, of the page `offset`.
pub fn current_page_number(offset: Option<usize>) -> (r: usize)
    ensures
        r == page_number_of(offset),
{
    match offset {
        Some(o) => o / PAGE_SIZE + 1,
        None => 1,
    }
}

/// A page of a valid offset `o` in a catalog of `N` entries holds exactly
/// `min(25, N - o)` entries, in catalog order; a page precedes it exactly when
/// `o > 0`, and one follows it exactly when `o + 25 < N`.
pub proof fn lemma_page_of_valid_offset<T>(catalog: Seq<T>, offset: Option<usize>)
    requires
        valid_offset(offset, catalog.len()),
    ensures
        page_slice(catalog, offset).len() == if catalog.len() - page_start(offset) < 25 {
            catalog.len() - page_start(offset)
        } else {
            25
        },
        forall|i: int|
            0 <= i < page_slice(catalog, offset).len() ==> page_slice(catalog, offset)[i]
                == catalog[page_start(offset) + i],
        has_prev_page(offset) == (page_start(offset) > 0),
        has_next_page(offset, catalog.len()) == (page_start(offset) + 25 < catalog.len()),
{
}

/// The number of the page of a valid offset lies between 1 and the number of
/// pages, in a catalog that is not empty.
pub proof fn lemma_page_number_within_count(offset: Option<usize>, len: nat)
    requires
        valid_offset(offset, len),
        len > 0,
    ensures
        1 <= page_number_of(offset) <= page_count_of(len),
{
}

/// A move from a valid offset ends on a valid offset: a multiple of 25 inside
/// the catalog, or the first page.
pub proof fn lemma_move_keeps_offset_valid(offset: Option<usize>, len: nat, step: PageMove)
    requires
        len <= usize::MAX,
        valid_offset(offset, len),
    ensures
        valid_offset(moved_offset(offset, len, step), len),
{
}

/// Any sequence of moves from a valid offset ends on a valid offset.
pub proof fn lemma_moves_keep_offset_valid(offset: Option<usize>, len: nat, steps: Seq<PageMove>)
    requires
        len <= usize::MAX,
        valid_offset(offset, len),
    ensures
        valid_offset(moved_offset_all(offset, len, steps), len),
    decreases steps.len(),
{
    if steps.len() > 0 {
        lemma_moves_keep_offset_valid(offset, len, steps.drop_last());
        lemma_move_keeps_offset_valid(
            moved_offset_all(offset, len, steps.drop_last()),
            len,
            steps.last(),
        );
    }
}

/// At the first page a move back changes nothing, and at the last page a move
/// forward changes nothing.
pub proof fn lemma_moves_clamp_at_the_ends(offset: Option<usize>, len: nat)
    ensures
        !has_prev_page(offset) ==> page_start(prev_offset(offset)) == page_start(offset),
        !has_next_page(offset, len) ==> next_offset(offset, len) == offset,
{
}

/// A move forward followed by a move back returns to the page it left, for a
/// valid offset that has a next page.
pub proof fn lemma_next_then_prev(offset: Option<usize>, len: nat)
    requires
        len <= usize::MAX,
        valid_offset(offset, len),
        has_next_page(offset, len),
    ensures
        page_start(prev_offset(next_offset(offset, len))) == page_start(offset),
{
}

} // verus!
