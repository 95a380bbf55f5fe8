//! The keyword listing: how the keywords are ordered, which page of them is
//! meant, and what the answer holds.

use crate::paginated::Paginated;
use crate::pagination::PageParams;
use crate::pagination::PaginationError;
use crate::pagination::PaginationOptions;
use vstd::prelude::*;
use vstd::string::*;

verus! {

/// The value of `sort` that orders keywords by the number of their crates.
pub const SORT_BY_CRATES: &'static str = "crates";

/// The query parameters of the keyword listing besides those of pagination.
#[derive(Debug)]
pub struct IndexQuery {
    /// The `sort` parameter, if the request has one.
    pub sort: Option<String>,
}

/// The order in which keywords are listed.
#[derive(Debug, Clone, Copy, PartialEq, Eq)]
pub enum KeywordSort {
    /// By the number of crates that carry the keyword, most first.
    CratesCountDescending,
    /// By the keyword itself, in ascending order.
    KeywordAscending,
}

/// What the keyword listing asks of the database.
#[derive(Debug)]
pub struct KeywordQuery {
    /// The order of the keywords.
    pub order: KeywordSort,
    /// The page that is meant.
    pub options: PaginationOptions,
}

/// The `meta` part of a listing.
#[derive(Debug)]
pub struct Meta {
    /// The number of all keywords, whatever the page.
    pub total: u64,
}

/// The answer to a listing: the keywords of the page and the total.
#[derive(Debug)]
pub struct KeywordList<K> {
    /// The keywords of the page, in the order that was asked for.
    pub keywords: Vec<K>,
    /// The total.
    pub meta: Meta,
}

/// The order that a `sort` parameter asks for: by crates for the value
/// `crates`, by keyword for any other value and for none.
pub open spec fn order_of(sort: Option<String>) -> KeywordSort {
    match sort {
        Some(value) => if value@ == SORT_BY_CRATES@ {
            KeywordSort::CratesCountDescending
        } else {
            KeywordSort::KeywordAscending
        },
        None => KeywordSort::KeywordAscending,
    }
}

impl IndexQuery {
    /// The order that this query asks for.
    pub fn order(&self) -> (order: KeywordSort)
        ensures
            order == order_of(self.sort),
    {
        match &self.sort {
            Some(value) => {
                let by_crates: String = String::from_str(SORT_BY_CRATES);
                if *value == by_crates {
                    KeywordSort::CratesCountDescending
                } else {
                    KeywordSort::KeywordAscending
                }
            },
            None => KeywordSort::KeywordAscending,
        }
    }
}

/// Reads the request of the keyword listing: the order from `sort`, the page
/// from the pagination parameters. The listing is ordered by name or by
/// count and not by key, so it serves page numbers only. A request whose
/// pagination parameters are wrong is turned down with their error, whatever
/// `sort` holds.
pub fn index(query: &IndexQuery, params: &PageParams) -> (read: Result<
    KeywordQuery,
    PaginationError,
>)
    ensures
        match params.asked(false) {
            Ok((strategy, per_page)) => read matches Ok(listing) && listing.order == order_of(
                query.sort,
            ) && listing.options.spec_strategy() == strategy && listing.options.spec_per_page()
                == per_page && listing.options.well_formed(),
            Err(e) => read == Err::<KeywordQuery, PaginationError>(e),
        },
{
    match PaginationOptions::builder().gather(params) {
        Ok(options) => Ok(KeywordQuery { order: query.order(), options }),
        Err(e) => Err(e),
    }
}

/// Puts the answer together from the page that the database returned: the
/// rows of the page as they are, and the page's total under `meta`.
pub fn listing<K>(page: Paginated<K>) -> (list: KeywordList<K>)
    ensures
        list.keywords@ == page.spec_rows(),
        list.meta.total == page.spec_total(),
{
    let total: u64 = page.total();
    KeywordList { keywords: page.into_rows(), meta: Meta { total } }
}

} // verus!
