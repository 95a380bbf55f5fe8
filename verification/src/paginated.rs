//! One page of an ordered query: the rows of the page and the number of all
//! rows that the query matches.
//!
//! The query is an ordered sequence of rows. Each row carries the key by
//! which the order is total: a `u64` that no two rows share. The offset
//! strategy cuts the page out by position, the seek strategy takes the first
//! rows whose key lies after the cursor. The total never looks at the page:
//! it counts the whole sequence. A page past the end is empty and no error.

use crate::pagination::encode_cursor;
use crate::pagination::cursor_token;
use crate::pagination::PaginationOptions;
use crate::pagination::Strategy;
use vstd::prelude::*;

verus! {

/// A row and the key that places it in the order.
pub type Keyed<T> = (u64, T);

/// The rows of a page and the count of all matching rows.
#[derive(Debug)]
pub struct Paginated<T> {
    rows: Vec<T>,
    total: u64,
    options: PaginationOptions,
}

/// The rows from position `offset` on, at most `per_page` of them.
pub open spec fn offset_window<R>(dataset: Seq<R>, offset: nat, per_page: nat) -> Seq<R> {
    let start = if offset < dataset.len() {
        offset
    } else {
        dataset.len()
    };
    let end = if start + per_page < dataset.len() {
        start + per_page
    } else {
        dataset.len()
    };
    dataset.subrange(start as int, end as int)
}

/// Holds of the rows whose key is strictly greater than `after`.
pub open spec fn key_after<T>(after: u64) -> spec_fn(Keyed<T>) -> bool {
    |row: Keyed<T>| row.0 > after
}

/// The rows whose key is strictly greater than `after`, in their order.
pub open spec fn rows_after<T>(dataset: Seq<Keyed<T>>, after: u64) -> Seq<Keyed<T>> {
    dataset.filter(key_after(after))
}

/// The first `per_page` of the rows whose key is strictly greater than
/// `after`, or all of them if they are fewer.
pub open spec fn seek_window<T>(dataset: Seq<Keyed<T>>, after: u64, per_page: nat) -> Seq<
    Keyed<T>,
> {
    let rest = rows_after(dataset, after);
    if rest.len() <= per_page {
        rest
    } else {
        rest.take(per_page as int)
    }
}

/// The rows that `options` asks for out of `dataset`.
pub open spec fn window<T>(dataset: Seq<Keyed<T>>, options: PaginationOptions) -> Seq<Keyed<T>> {
    match options.spec_strategy() {
        Strategy::Number(_) => offset_window(
            dataset,
            options.spec_offset(),
            options.spec_per_page() as nat,
        ),
        Strategy::After(key) => seek_window(dataset, key, options.spec_per_page() as nat),
    }
}

/// What a page shows: its rows, the count of all matching rows, and the
/// options it was asked with.
pub struct PageView<R> {
    /// The rows of the page, in the order of the query.
    pub rows: Seq<R>,
    /// The number of all rows that the query matches.
    pub total: nat,
    /// The options that the page was asked with.
    pub options: PaginationOptions,
}

/// The page that `options` asks for out of `dataset`: the rows of the window
/// and, whatever the window, the length of the whole dataset.
pub open spec fn loaded<T>(dataset: Seq<Keyed<T>>, options: PaginationOptions) -> PageView<
    Keyed<T>,
> {
    PageView { rows: window(dataset, options), total: dataset.len(), options }
}

/// A window never holds more rows than the page size, nor more than the
/// dataset has.
pub proof fn lemma_seek_window_len<T>(dataset: Seq<Keyed<T>>, after: u64, per_page: nat)
    ensures
        seek_window(dataset, after, per_page).len() <= per_page,
        seek_window(dataset, after, per_page).len() <= dataset.len(),
{
    dataset.lemma_filter_len(key_after(after));
}

impl<T> View for Paginated<T> {
    type V = PageView<T>;

    open spec fn view(&self) -> PageView<T> {
        PageView {
            rows: self.spec_rows(),
            total: self.spec_total() as nat,
            options: self.spec_options(),
        }
    }
}

impl<T> Paginated<T> {
    #[verifier::type_invariant]
    closed spec fn within_bounds(self) -> bool {
        &&& self.rows@.len() <= self.options.spec_per_page()
        &&& self.rows@.len() <= self.total
        &&& self.options.well_formed()
    }

    /// The rows of the page, in the order of the query.
    pub closed spec fn spec_rows(&self) -> Seq<T> {
        self.rows@
    }

    /// The number of all rows that the query matches.
    pub closed spec fn spec_total(&self) -> u64 {
        self.total
    }

    /// The options that the page was asked with.
    pub closed spec fn spec_options(&self) -> PaginationOptions {
        self.options
    }

    /// A page as the constructors make it: no more rows than the page size,
    /// and no more rows than the total.
    pub open spec fn well_formed(&self) -> bool {
        &&& self.spec_rows().len() <= self.spec_options().spec_per_page()
        &&& self.spec_rows().len() <= self.spec_total()
        &&& self.spec_options().well_formed()
    }

    /// Packs the rows that a windowed query returned with the count that the
    /// counting query returned. The two must fit together: with more rows
    /// than the page size, or more rows than the total, there is no page.
    pub fn new(rows: Vec<T>, total: u64, options: PaginationOptions) -> (page: Option<Self>)
        ensures
            page is Some <==> rows@.len() <= options.spec_per_page() && rows@.len() <= total,
            page matches Some(p) ==> p.spec_rows() == rows@ && p.spec_total() == total
                && p.spec_options() == options && p.well_formed(),
    {
        let per_page: u32 = options.per_page();
        if rows.len() as u64 <= per_page as u64 && rows.len() as u64 <= total {
            Some(Paginated { rows, total, options })
        } else {
            None
        }
    }

    /// The rows of the page.
    pub fn rows(&self) -> (rows: &Vec<T>)
        ensures
            rows@ == self.spec_rows(),
            self.well_formed(),
    {
        proof {
            use_type_invariant(self);
        }
        &self.rows
    }

    /// The rows of the page, without the page.
    pub fn into_rows(self) -> (rows: Vec<T>)
        ensures
            rows@ == self.spec_rows(),
            self.well_formed(),
    {
        proof {
            use_type_invariant(&self);
        }
        self.rows
    }

    /// The number of all rows that the query matches, whatever the page.
    pub fn total(&self) -> (total: u64)
        ensures
            total == self.spec_total(),
            total >= self.spec_rows().len(),
    {
        proof {
            use_type_invariant(self);
        }
        self.total
    }

    /// The number of rows on this page: at most the page size.
    pub fn len(&self) -> (len: usize)
        ensures
            len == self.spec_rows().len(),
            len <= self.spec_options().spec_per_page(),
            len <= self.spec_total(),
    {
        proof {
            use_type_invariant(self);
        }
        self.rows.len()
    }

    /// Whether the page has no rows, as a page past the end has.
    pub fn is_empty(&self) -> (empty: bool)
        ensures
            empty == (self.spec_rows().len() == 0),
    {
        self.rows.len() == 0
    }

    /// The options that the page was asked with.
    pub fn options(&self) -> (options: PaginationOptions)
        ensures
            options == self.spec_options(),
            options.well_formed(),
    {
        proof {
            use_type_invariant(self);
        }
        self.options
    }
}

impl<T> Paginated<Keyed<T>> {
    /// The cursor that continues after this page: the token of the last
    /// row's key. An empty page continues nowhere and has none.
    pub fn next_cursor(&self) -> (cursor: Option<String>)
        ensures
            cursor is Some <==> self.spec_rows().len() > 0,
            cursor matches Some(token) ==> token@ == cursor_token(self.spec_rows().last().0),
    {
        let n: usize = self.rows.len();
        if n == 0 {
            None
        } else {
            Some(encode_cursor(self.rows[n - 1].0))
        }
    }
}

/// Runs a paginated query over an ordered dataset held in memory. The
/// dataset is used up: the rows of the page are moved out of it, whatever
/// they hold, and the rest is dropped.
///
/// The page holds the rows that `window` cuts out: for the offset strategy
/// at most `per_page` rows from position `(page - 1) * per_page` on, for the
/// seek strategy the first `per_page` rows whose key is greater than the
/// cursor. The total is the length of the dataset, whatever was asked.
pub fn load<T>(dataset: Vec<Keyed<T>>, options: PaginationOptions) -> (page: Paginated<Keyed<T>>)
    ensures
        page@ == loaded(dataset@, options),
        page.well_formed(),
{
    let per_page: usize = options.per_page() as usize;
    let n: usize = dataset.len();
    let ghost all = dataset@;
    match options.strategy() {
        Strategy::Number(_) => {
            let offset: u64 = options.offset_rows();
            let start: usize = if offset < n as u64 {
                offset as usize
            } else {
                n
            };
            let mut skipped: Vec<Keyed<T>> = dataset;
            let mut rows: Vec<Keyed<T>> = skipped.split_off(start);
            rows.truncate(per_page);
            assert(rows@ =~= offset_window(all, offset as nat, per_page as nat));
            Paginated { rows, total: n as u64, options }
        },
        Strategy::After(after) => {
            let mut rows: Vec<Keyed<T>> = Vec::new();
            for row in it: dataset.into_iter()
                invariant
                    it.seq() == all,
                    rows@ == seek_window(all.take(it.index() as int), after, per_page as nat),
            {
                proof {
                    let seen = all.take(it.index() as int);
                    assert(all.take(it.index() as int + 1) =~= seen.push(row));
                    seen.lemma_filter_push(row, key_after(after));
                }
                if row.0 > after && rows.len() < per_page {
                    rows.push(row);
                }
            }
            assert(all.take(n as int) =~= all);
            proof {
                lemma_seek_window_len(all, after, per_page as nat);
            }
            Paginated { rows, total: n as u64, options }
        },
    }
}

} // verus!
