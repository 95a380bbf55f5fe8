//! What holds of pagination for every dataset and every request.
//!
//! The statements here are about `window` and `loaded`, the functions that
//! the contract of `load` is written in, so each of them is a statement
//! about the pages that `load` returns.

use crate::decimal::decimal_digits;
use crate::decimal::lemma_digits_round_trip;
use crate::paginated::key_after;
use crate::paginated::loaded;
use crate::paginated::offset_window;
use crate::paginated::rows_after;
use crate::paginated::seek_window;
use crate::paginated::Keyed;
use crate::pagination::page_of;
use crate::pagination::per_page_of;
use crate::pagination::PaginationError;
use crate::pagination::PaginationOptions;
use crate::pagination::Strategy;
use crate::pagination::MAX_PER_PAGE;
use vstd::prelude::*;

verus! {

/// The order of a query is total when the keys grow strictly from row to row.
pub open spec fn strictly_increasing<T>(dataset: Seq<Keyed<T>>) -> bool {
    forall|i: int, j: int| 0 <= i < j < dataset.len() ==> dataset[i].0 < dataset[j].0
}

/// A page never holds more rows than the page size that was asked for,
/// however many rows the dataset has.
pub proof fn lemma_page_within_page_size<T>(dataset: Seq<Keyed<T>>, options: PaginationOptions)
    ensures
        loaded(dataset, options).rows.len() <= options.spec_per_page(),
        loaded(dataset, options).rows.len() <= loaded(dataset, options).total,
{
    match options.spec_strategy() {
        Strategy::Number(_) => {},
        Strategy::After(key) => {
            dataset.lemma_filter_len(key_after(key));
        },
    }
}

/// The total is the count of all rows of the dataset. It is the same for any
/// two requests, whichever page or cursor and whichever page size they name.
pub proof fn lemma_total_ignores_the_page<T>(
    dataset: Seq<Keyed<T>>,
    first: PaginationOptions,
    second: PaginationOptions,
)
    ensures
        loaded(dataset, first).total == dataset.len(),
        loaded(dataset, first).total == loaded(dataset, second).total,
{
}

/// A page that starts at or past the end of the dataset is empty, and the
/// total is still the count of all rows.
pub proof fn lemma_page_past_the_end_is_empty<T>(
    dataset: Seq<Keyed<T>>,
    options: PaginationOptions,
)
    requires
        options.spec_strategy() is Number,
        options.spec_offset() >= dataset.len(),
    ensures
        loaded(dataset, options).rows =~= Seq::<Keyed<T>>::empty(),
        loaded(dataset, options).total == dataset.len(),
{
}

/// The page after page `k` starts `per_page` rows further on.
pub proof fn lemma_next_page_offset(page: PaginationOptions, next: PaginationOptions)
    requires
        page.well_formed(),
        page.spec_strategy() matches Strategy::Number(k) && next.spec_strategy()
            == Strategy::Number((k + 1) as u32) && k < u32::MAX,
        next.spec_per_page() == page.spec_per_page(),
    ensures
        next.spec_offset() == page.spec_offset() + page.spec_per_page(),
{
    let k = page.spec_strategy()->Number_0 as int;
    let size = page.spec_per_page() as int;
    assert(k * size == (k - 1) * size + size) by (nonlinear_arith);
}

/// Offset strategy: two pages that follow each other, with the same page
/// size, lie side by side in the dataset. Put one after the other they are
/// the one page of twice the size that starts where the first starts, so the
/// rows keep the order of the dataset and none is left out between them.
pub proof fn lemma_offset_pages_are_adjacent<R>(dataset: Seq<R>, offset: nat, per_page: nat)
    ensures
        offset_window(dataset, offset, per_page) + offset_window(
            dataset,
            offset + per_page,
            per_page,
        ) =~= offset_window(dataset, offset, 2 * per_page),
{
}

/// Offset strategy, said of the pages themselves: the pages `k` and `k + 1`
/// of one page size, one after the other, are the rows of the dataset from
/// the start of page `k` on, twice the page size at most, in their order.
pub proof fn lemma_following_pages<T>(
    dataset: Seq<Keyed<T>>,
    page: PaginationOptions,
    next: PaginationOptions,
)
    requires
        page.well_formed(),
        page.spec_strategy() matches Strategy::Number(k) && next.spec_strategy()
            == Strategy::Number((k + 1) as u32) && k < u32::MAX,
        next.spec_per_page() == page.spec_per_page(),
    ensures
        loaded(dataset, page).rows + loaded(dataset, next).rows =~= offset_window(
            dataset,
            page.spec_offset(),
            2 * page.spec_per_page() as nat,
        ),
{
    lemma_next_page_offset(page, next);
    lemma_offset_pages_are_adjacent(dataset, page.spec_offset(), page.spec_per_page() as nat);
}

/// Offset strategy: in a dataset that holds no row twice, two pages that
/// follow each other share no row.
pub proof fn lemma_offset_pages_are_disjoint<R>(
    dataset: Seq<R>,
    offset: nat,
    per_page: nat,
    i: int,
    j: int,
)
    requires
        dataset.no_duplicates(),
        0 <= i < offset_window(dataset, offset, per_page).len(),
        0 <= j < offset_window(dataset, offset + per_page, per_page).len(),
    ensures
        offset_window(dataset, offset, per_page)[i] != offset_window(
            dataset,
            offset + per_page,
            per_page,
        )[j],
{
    assert(offset_window(dataset, offset, per_page)[i] == dataset[offset + i]);
    assert(offset_window(dataset, offset + per_page, per_page)[j] == dataset[offset + per_page
        + j]);
}

/// The position in a strictly increasing dataset where the keys pass `after`.
pub open spec fn boundary<T>(dataset: Seq<Keyed<T>>, after: u64) -> int
    decreases dataset.len(),
{
    if dataset.len() == 0 {
        0
    } else if dataset.last().0 > after {
        boundary(dataset.drop_last(), after)
    } else {
        dataset.len() as int
    }
}

/// In a strictly increasing dataset the rows after a key are the rows from
/// the boundary on: every row before it has a key up to `after`, every row
/// from it on a greater one.
pub proof fn lemma_rows_after_is_a_suffix<T>(dataset: Seq<Keyed<T>>, after: u64)
    requires
        strictly_increasing(dataset),
    ensures
        0 <= boundary(dataset, after) <= dataset.len(),
        rows_after(dataset, after) == dataset.skip(boundary(dataset, after)),
        forall|i: int| 0 <= i < boundary(dataset, after) ==> (#[trigger] dataset[i]).0 <= after,
        forall|i: int|
            boundary(dataset, after) <= i < dataset.len() ==> (#[trigger] dataset[i]).0 > after,
    decreases dataset.len(),
{
    if dataset.len() == 0 {
        reveal(Seq::filter);
        assert(rows_after(dataset, after) =~= dataset.skip(0));
    } else {
        let front = dataset.drop_last();
        let last = dataset.last();
        assert(strictly_increasing(front)) by {
            assert forall|i: int, j: int| 0 <= i < j < front.len() implies front[i].0
                < front[j].0 by {
                assert(front[i] == dataset[i] && front[j] == dataset[j]);
            }
        }
        lemma_rows_after_is_a_suffix(front, after);
        assert(front.push(last) =~= dataset);
        front.lemma_filter_push(last, key_after(after));
        let m = boundary(front, after);
        assert forall|i: int| 0 <= i < front.len() implies (#[trigger] dataset[i]).0
            == front[i].0 by {}
        if last.0 > after {
            assert(front.skip(m).push(last) =~= dataset.skip(m));
        } else {
            if m < front.len() {
                assert(front[m].0 > after);
                assert(dataset[m].0 < dataset[dataset.len() - 1].0);
            }
            assert(front.skip(m) =~= dataset.skip(dataset.len() as int));
        }
    }
}

/// Seek strategy: every row of a page lies strictly after the cursor. A row
/// that an earlier page showed, whose key the cursor has reached, is never
/// shown again, whatever has happened to the dataset in between.
pub proof fn lemma_seek_rows_lie_after_the_cursor<T>(
    dataset: Seq<Keyed<T>>,
    after: u64,
    per_page: nat,
    i: int,
)
    requires
        0 <= i < seek_window(dataset, after, per_page).len(),
    ensures
        seek_window(dataset, after, per_page)[i].0 > after,
{
    let rest = rows_after(dataset, after);
    dataset.lemma_filter_pred(key_after(after), i);
    assert(seek_window(dataset, after, per_page)[i] == rest[i]);
}

/// Seek strategy: the page that is asked for with the key of the last row of
/// a page is the block that follows that page. The two together are the one
/// page of their joint size after the first cursor: no row shows twice and
/// none is skipped.
pub proof fn lemma_seek_pages_are_contiguous<T>(
    dataset: Seq<Keyed<T>>,
    after: u64,
    per_page: nat,
    next_per_page: nat,
)
    requires
        strictly_increasing(dataset),
        seek_window(dataset, after, per_page).len() > 0,
    ensures
        seek_window(dataset, after, per_page) + seek_window(
            dataset,
            seek_window(dataset, after, per_page).last().0,
            next_per_page,
        ) =~= seek_window(dataset, after, per_page + next_per_page),
{
    let first = seek_window(dataset, after, per_page);
    let m = boundary(dataset, after);
    lemma_rows_after_is_a_suffix(dataset, after);
    let rest = dataset.skip(m);
    let last_index = m + first.len() - 1;
    assert(first.last() == rest[first.len() - 1]);
    assert(first.last() == dataset[last_index]);
    let cursor = first.last().0;
    lemma_rows_after_is_a_suffix(dataset, cursor);
    let m2 = boundary(dataset, cursor);
    if m2 <= last_index {
        assert(dataset[last_index].0 > cursor);
    }
    if m2 > last_index + 1 {
        assert(dataset[last_index + 1].0 <= cursor);
        assert(dataset[last_index].0 < dataset[last_index + 1].0);
    }
    assert(m2 == last_index + 1);
    assert(dataset.skip(m2) =~= rest.skip(first.len() as int));
}

/// Seek strategy, said of the pages themselves: the page that is asked for
/// with the cursor of a page, and the same page size, continues that page
/// without a gap and without a row in common.
pub proof fn lemma_following_seek_pages<T>(
    dataset: Seq<Keyed<T>>,
    page: PaginationOptions,
    next: PaginationOptions,
)
    requires
        strictly_increasing(dataset),
        page.spec_strategy() is After,
        loaded(dataset, page).rows.len() > 0,
        next.spec_strategy() == Strategy::After(loaded(dataset, page).rows.last().0),
        next.spec_per_page() == page.spec_per_page(),
    ensures
        loaded(dataset, page).rows + loaded(dataset, next).rows =~= seek_window(
            dataset,
            page.spec_strategy()->After_0,
            2 * page.spec_per_page() as nat,
        ),
        forall|i: int, j: int|
            0 <= i < loaded(dataset, page).rows.len() && 0 <= j < loaded(dataset, next).rows.len()
                ==> (#[trigger] loaded(dataset, page).rows[i]).0 < (#[trigger] loaded(
                dataset,
                next,
            ).rows[j]).0,
{
    let after = page.spec_strategy()->After_0;
    let size = page.spec_per_page() as nat;
    let first = seek_window(dataset, after, size);
    let second = seek_window(dataset, first.last().0, size);
    lemma_seek_pages_are_contiguous(dataset, after, size, size);
    let both = seek_window(dataset, after, 2 * size);
    assert(first + second =~= both);
    lemma_rows_after_is_a_suffix(dataset, after);
    let m = boundary(dataset, after);
    assert forall|i: int, j: int| 0 <= i < first.len() && 0 <= j < second.len() implies (
    #[trigger] first[i]).0 < (#[trigger] second[j]).0 by {
        assert(first[i] == both[i]);
        assert(second[j] == both[first.len() + j]);
        assert(both[i] == dataset[m + i]);
        assert(both[first.len() + j] == dataset[m + first.len() + j]);
    }
}

/// No row with a key up to `after` lies after `after`.
proof fn lemma_none_after<T>(rows: Seq<Keyed<T>>, after: u64)
    requires
        forall|i: int| 0 <= i < rows.len() ==> (#[trigger] rows[i]).0 <= after,
    ensures
        rows_after(rows, after) =~= Seq::<Keyed<T>>::empty(),
    decreases rows.len(),
{
    if rows.len() == 0 {
        reveal(Seq::filter);
    } else {
        let front = rows.drop_last();
        assert forall|i: int| 0 <= i < front.len() implies (#[trigger] front[i]).0 <= after by {
            assert(front[i] == rows[i]);
        }
        lemma_none_after(front, after);
        assert(front.push(rows.last()) =~= rows);
        front.lemma_filter_push(rows.last(), key_after(after));
    }
}

/// Seek strategy: a page depends only on the rows after its cursor. Rows up
/// to the cursor may come and go between two requests: the traversal that
/// goes on from the cursor sees the same page.
pub proof fn lemma_seek_ignores_rows_up_to_the_cursor<T>(
    before: Seq<Keyed<T>>,
    changed: Seq<Keyed<T>>,
    rest: Seq<Keyed<T>>,
    after: u64,
    per_page: nat,
)
    requires
        forall|i: int| 0 <= i < before.len() ==> (#[trigger] before[i]).0 <= after,
        forall|i: int| 0 <= i < changed.len() ==> (#[trigger] changed[i]).0 <= after,
    ensures
        seek_window(before + rest, after, per_page) == seek_window(
            changed + rest,
            after,
            per_page,
        ),
{
    lemma_none_after(before, after);
    lemma_none_after(changed, after);
    Seq::filter_distributes_over_add(before, rest, key_after(after));
    Seq::filter_distributes_over_add(changed, rest, key_after(after));
    assert(rows_after(before + rest, after) =~= rows_after(rest, after));
    assert(rows_after(changed + rest, after) =~= rows_after(rest, after));
}

/// A page size that is written as a number is accepted exactly from one to
/// the maximum: zero is invalid, and a number above the maximum is turned
/// down as too large, not cut down to the maximum.
pub proof fn lemma_per_page_limits(n: nat)
    ensures
        per_page_of(Some(decimal_digits(n))) == if n == 0 {
            Err::<u32, PaginationError>(PaginationError::InvalidPerPage)
        } else if n > MAX_PER_PAGE {
            Err(PaginationError::PerPageTooLarge)
        } else {
            Ok(n as u32)
        },
{
    lemma_digits_round_trip(n);
}

/// A page number that is written as a number is accepted exactly from one
/// on: page zero is turned down, and so is a number too large to count pages.
pub proof fn lemma_page_limits(n: nat)
    ensures
        page_of(Some(decimal_digits(n))) == if 1 <= n <= u32::MAX {
            Ok::<u32, PaginationError>(n as u32)
        } else {
            Err(PaginationError::InvalidPage)
        },
{
    lemma_digits_round_trip(n);
}

/// A page number or a page size with a sign is turned down: the text of a
/// negative number is no decimal number.
pub proof fn lemma_signed_numbers_are_rejected(text: Seq<char>)
    requires
        text.len() > 0,
        text[0] == '-' || text[0] == '+',
    ensures
        page_of(Some(text)) == Err::<u32, PaginationError>(PaginationError::InvalidPage),
        per_page_of(Some(text)) == Err::<u32, PaginationError>(PaginationError::InvalidPerPage),
{
}

} // verus!
