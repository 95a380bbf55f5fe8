//! Pagination options: what a client may ask for, and how the raw request
//! parameters become a validated request for one page.
//!
//! A page is asked for in one of two ways. The offset strategy names a page
//! by its number, counted from one. The seek strategy names the position
//! after which the page starts: the key of the last row that the client has
//! seen, handed around as a cursor token. Nothing invalid is ever replaced by
//! a default: a parameter that is present and wrong is an error.

use crate::decimal::decimal_digits;
use crate::decimal::decimal_reading;
use crate::decimal::decimal_string;
use crate::decimal::decimal_within;
use crate::decimal::lemma_digits_round_trip;
use crate::decimal::read_decimal;
use crate::decimal::DecimalReading;
use vstd::prelude::*;
use vstd::string::*;

verus! {

/// Rows per page when the request names no page size.
pub const DEFAULT_PER_PAGE: u32 = 10;

/// The largest page size that a request may name.
pub const MAX_PER_PAGE: u32 = 100;

/// The pagination parameters of a request as they arrived, not yet read.
#[derive(Debug)]
pub struct PageParams {
    /// The `page` parameter: a page number, counted from one.
    pub page: Option<String>,
    /// The `per_page` parameter: the number of rows on a page.
    pub per_page: Option<String>,
    /// The `seek` parameter: a cursor token from an earlier page.
    pub seek: Option<String>,
}

/// Why a request for a page was turned down. Each of these is the client's
/// mistake.
#[derive(Debug, Clone, Copy, PartialEq, Eq)]
pub enum PaginationError {
    /// The page number is no number, is zero or is out of range.
    InvalidPage,
    /// The page size is no number or is zero.
    InvalidPerPage,
    /// The page size is a number above the maximum.
    PerPageTooLarge,
    /// The cursor token cannot be read.
    InvalidCursor,
    /// The request names both a page number and a cursor.
    ConflictingParameters,
    /// The request names a cursor where only page numbers are served.
    SeekNotSupported,
}

/// Where a page starts.
#[derive(Debug, Clone, Copy, PartialEq, Eq)]
pub enum Strategy {
    /// Offset strategy: the page with this number, counted from one.
    Number(u32),
    /// Seek strategy: the rows strictly after the row with this key.
    After(u64),
}

/// A validated request for one page.
#[derive(Debug, Clone, Copy)]
pub struct PaginationOptions {
    strategy: Strategy,
    per_page: u32,
}

/// Reads requests for pages on behalf of one listing. Every listing serves
/// page numbers; the seek strategy is served only where it was switched on,
/// which is for listings that are ordered by the key.
#[derive(Debug, Clone, Copy)]
pub struct PaginationOptionsBuilder {
    seek_enabled: bool,
}

/// The text of a parameter, if the parameter is there.
pub open spec fn text_of(raw: Option<String>) -> Option<Seq<char>> {
    match raw {
        Some(s) => Some(s@),
        None => None,
    }
}

/// A page size together with a strategy is acceptable when the size is
/// between one and the maximum and a page number is at least one.
pub open spec fn acceptable(strategy: Strategy, per_page: u32) -> bool {
    &&& 1 <= per_page <= MAX_PER_PAGE
    &&& strategy matches Strategy::Number(n) ==> n >= 1
}

/// The page size that a raw `per_page` parameter asks for.
pub open spec fn per_page_of(raw: Option<Seq<char>>) -> Result<u32, PaginationError> {
    match raw {
        None => Ok(DEFAULT_PER_PAGE),
        Some(s) => match decimal_reading(s, MAX_PER_PAGE as nat) {
            DecimalReading::Malformed => Err(PaginationError::InvalidPerPage),
            DecimalReading::TooLarge => Err(PaginationError::PerPageTooLarge),
            DecimalReading::Value(n) => if n == 0 {
                Err(PaginationError::InvalidPerPage)
            } else {
                Ok(n as u32)
            },
        },
    }
}

/// The page number that a raw `page` parameter asks for.
pub open spec fn page_of(raw: Option<Seq<char>>) -> Result<u32, PaginationError> {
    match raw {
        None => Ok(1u32),
        Some(s) => match decimal_within(s, u32::MAX as nat) {
            Some(n) => if n == 0 {
                Err(PaginationError::InvalidPage)
            } else {
                Ok(n as u32)
            },
            None => Err(PaginationError::InvalidPage),
        },
    }
}

/// The position that a cursor token names.
pub open spec fn cursor_of(token: Seq<char>) -> Result<u64, PaginationError> {
    match decimal_within(token, u64::MAX as nat) {
        Some(key) => Ok(key),
        None => Err(PaginationError::InvalidCursor),
    }
}

/// The token that names the position `key`.
pub open spec fn cursor_token(key: u64) -> Seq<char> {
    decimal_digits(key as nat)
}

/// What the three raw parameters ask for together. A request with both a
/// page number and a cursor is turned down before anything else is read, a
/// cursor where the seek strategy is not served next; then the page size is
/// read, then the page number or the cursor.
pub open spec fn gathered(
    page: Option<Seq<char>>,
    per_page: Option<Seq<char>>,
    seek: Option<Seq<char>>,
    seek_enabled: bool,
) -> Result<(Strategy, u32), PaginationError> {
    if page is Some && seek is Some {
        Err(PaginationError::ConflictingParameters)
    } else if seek is Some && !seek_enabled {
        Err(PaginationError::SeekNotSupported)
    } else {
        match per_page_of(per_page) {
            Err(e) => Err(e),
            Ok(size) => match seek {
                Some(token) => match cursor_of(token) {
                    Ok(key) => Ok((Strategy::After(key), size)),
                    Err(e) => Err(e),
                },
                None => match page_of(page) {
                    Ok(number) => Ok((Strategy::Number(number), size)),
                    Err(e) => Err(e),
                },
            },
        }
    }
}

impl PaginationError {
    /// What the client is told.
    pub open spec fn message_text(self) -> Seq<char> {
        match self {
            PaginationError::InvalidPage => "the page number must be a whole number of at least 1"@,
            PaginationError::InvalidPerPage => "the page size must be a whole number of at least 1"@,
            PaginationError::PerPageTooLarge => "cannot request more than 100 items per page"@,
            PaginationError::InvalidCursor => "the seek cursor cannot be read"@,
            PaginationError::ConflictingParameters => "page and seek cannot be given together"@,
            PaginationError::SeekNotSupported => "seek is not supported for this listing"@,
        }
    }

    /// What the client is told: one sentence that names the parameter at
    /// fault and nothing of the inside of the service.
    pub fn message(&self) -> (text: String)
        ensures
            text@ == self.message_text(),
    {
        let text: &'static str = match self {
            PaginationError::InvalidPage => "the page number must be a whole number of at least 1",
            PaginationError::InvalidPerPage => "the page size must be a whole number of at least 1",
            PaginationError::PerPageTooLarge => "cannot request more than 100 items per page",
            PaginationError::InvalidCursor => "the seek cursor cannot be read",
            PaginationError::ConflictingParameters => "page and seek cannot be given together",
            PaginationError::SeekNotSupported => "seek is not supported for this listing",
        };
        String::from_str(text)
    }
}

impl PageParams {
    /// Parameters of a request that names none of the three.
    pub fn none() -> (params: Self)
        ensures
            params.page is None,
            params.per_page is None,
            params.seek is None,
    {
        PageParams { page: None, per_page: None, seek: None }
    }

    /// What these parameters ask for, where the seek strategy is served or
    /// where it is not.
    pub open spec fn asked(self, seek_enabled: bool) -> Result<(Strategy, u32), PaginationError> {
        gathered(text_of(self.page), text_of(self.per_page), text_of(self.seek), seek_enabled)
    }
}

impl PaginationOptions {
    #[verifier::type_invariant]
    closed spec fn holds_acceptable(self) -> bool {
        acceptable(self.strategy, self.per_page)
    }

    /// Where the page starts.
    pub closed spec fn spec_strategy(&self) -> Strategy {
        self.strategy
    }

    /// The largest number of rows on the page.
    pub closed spec fn spec_per_page(&self) -> u32 {
        self.per_page
    }

    /// Options as `gather` and the constructors make them: the page size is
    /// between one and the maximum, and a page number is at least one.
    pub open spec fn well_formed(&self) -> bool {
        acceptable(self.spec_strategy(), self.spec_per_page())
    }

    /// Where the page starts.
    #[verifier::when_used_as_spec(spec_strategy)]
    pub fn strategy(&self) -> (strategy: Strategy)
        ensures
            strategy == self.spec_strategy(),
            self.well_formed(),
    {
        proof {
            use_type_invariant(self);
        }
        self.strategy
    }

    /// The largest number of rows on the page, between one and the maximum.
    #[verifier::when_used_as_spec(spec_per_page)]
    pub fn per_page(&self) -> (per_page: u32)
        ensures
            per_page == self.spec_per_page(),
            1 <= per_page <= MAX_PER_PAGE,
            self.well_formed(),
    {
        proof {
            use_type_invariant(self);
        }
        self.per_page
    }

    /// What is wrong with a strategy and a page size, if anything: the page
    /// size is looked at first, then the page number.
    pub open spec fn fault(strategy: Strategy, per_page: u32) -> Option<PaginationError> {
        if per_page == 0 {
            Some(PaginationError::InvalidPerPage)
        } else if per_page > MAX_PER_PAGE {
            Some(PaginationError::PerPageTooLarge)
        } else if strategy == Strategy::Number(0) {
            Some(PaginationError::InvalidPage)
        } else {
            None
        }
    }

    /// Whether `made` is what making options of a strategy and a page size
    /// gives: the fault if there is one, and else options that hold both.
    pub open spec fn made_of(
        made: Result<Self, PaginationError>,
        strategy: Strategy,
        per_page: u32,
    ) -> bool {
        match Self::fault(strategy, per_page) {
            Some(e) => made == Err::<Self, PaginationError>(e),
            None => made matches Ok(options) && options.spec_strategy() == strategy
                && options.spec_per_page() == per_page && options.well_formed(),
        }
    }

    /// Options for page `page` with `per_page` rows a page. Page zero and a
    /// page size outside one to the maximum are turned down.
    pub fn offset(page: u32, per_page: u32) -> (made: Result<Self, PaginationError>)
        ensures
            Self::made_of(made, Strategy::Number(page), per_page),
    {
        Self::with_strategy(Strategy::Number(page), per_page)
    }

    /// Options for the `per_page` rows after the row with key `after`. A page
    /// size outside one to the maximum is turned down.
    pub fn seek(after: u64, per_page: u32) -> (made: Result<Self, PaginationError>)
        ensures
            Self::made_of(made, Strategy::After(after), per_page),
    {
        Self::with_strategy(Strategy::After(after), per_page)
    }

    fn with_strategy(strategy: Strategy, per_page: u32) -> (made: Result<Self, PaginationError>)
        ensures
            Self::made_of(made, strategy, per_page),
    {
        if per_page == 0 {
            return Err(PaginationError::InvalidPerPage);
        }
        if per_page > MAX_PER_PAGE {
            return Err(PaginationError::PerPageTooLarge);
        }
        match strategy {
            Strategy::Number(n) => {
                if n == 0 {
                    return Err(PaginationError::InvalidPage);
                }
            },
            Strategy::After(_) => {},
        }
        Ok(PaginationOptions { strategy, per_page })
    }

    /// A reader of requests that serves page numbers only.
    pub fn builder() -> (builder: PaginationOptionsBuilder)
        ensures
            !builder.spec_seek_enabled(),
    {
        PaginationOptionsBuilder { seek_enabled: false }
    }

    /// The first row of the page, counted from zero, for the offset strategy:
    /// the page number less one, times the page size. Zero for the seek
    /// strategy, which skips by key and not by count.
    pub open spec fn spec_offset(&self) -> nat {
        match self.spec_strategy() {
            Strategy::Number(n) => ((n - 1) * self.spec_per_page()) as nat,
            Strategy::After(_) => 0,
        }
    }

    /// The number of rows to skip before the page starts; see `spec_offset`.
    pub fn offset_rows(&self) -> (offset: u64)
        ensures
            offset == self.spec_offset(),
    {
        proof {
            use_type_invariant(self);
        }
        match self.strategy {
            Strategy::Number(n) => {
                let before: u64 = (n - 1) as u64;
                let size: u64 = self.per_page as u64;
                assert(before * size <= 0xffff_ffff * 100) by (nonlinear_arith)
                    requires
                        before <= 0xffff_ffff,
                        size <= 100,
                ;
                before * size
            },
            Strategy::After(_) => 0,
        }
    }
}

impl PaginationOptionsBuilder {
    /// Whether this reader serves the seek strategy.
    pub closed spec fn spec_seek_enabled(&self) -> bool {
        self.seek_enabled
    }

    /// Whether this reader serves the seek strategy.
    #[verifier::when_used_as_spec(spec_seek_enabled)]
    pub fn seek_enabled(&self) -> (enabled: bool)
        ensures
            enabled == self.spec_seek_enabled(),
    {
        self.seek_enabled
    }

    /// The same reader with the seek strategy switched on or off.
    pub fn enable_seek(self, enabled: bool) -> (builder: Self)
        ensures
            builder.spec_seek_enabled() == enabled,
    {
        PaginationOptionsBuilder { seek_enabled: enabled }
    }

    /// Reads the raw parameters of a request.
    ///
    /// Without `per_page` the page size is the default; without `page` and
    /// `seek` the first page is meant. A parameter that is there must be a
    /// decimal number: `per_page` between one and the maximum, `page` at
    /// least one, `seek` a key. `page` and `seek` together are turned down,
    /// and so is `seek` where the seek strategy is not served.
    pub fn gather(&self, params: &PageParams) -> (read: Result<
        PaginationOptions,
        PaginationError,
    >)
        ensures
            match params.asked(self.spec_seek_enabled()) {
                Ok((strategy, per_page)) => read matches Ok(options) && options.spec_strategy()
                    == strategy && options.spec_per_page() == per_page && options.well_formed(),
                Err(e) => read == Err::<PaginationOptions, PaginationError>(e),
            },
    {
        if params.page.is_some() && params.seek.is_some() {
            return Err(PaginationError::ConflictingParameters);
        }
        if params.seek.is_some() && !self.seek_enabled {
            return Err(PaginationError::SeekNotSupported);
        }
        let per_page: u32 = match &params.per_page {
            None => DEFAULT_PER_PAGE,
            Some(raw) => match read_decimal(raw.as_str(), MAX_PER_PAGE as u64) {
                DecimalReading::Malformed => {
                    return Err(PaginationError::InvalidPerPage);
                },
                DecimalReading::TooLarge => {
                    return Err(PaginationError::PerPageTooLarge);
                },
                DecimalReading::Value(n) => {
                    if n == 0 {
                        return Err(PaginationError::InvalidPerPage);
                    }
                    n as u32
                },
            },
        };
        let strategy: Strategy = match &params.seek {
            Some(token) => match read_decimal(token.as_str(), u64::MAX) {
                DecimalReading::Value(key) => Strategy::After(key),
                _ => {
                    return Err(PaginationError::InvalidCursor);
                },
            },
            None => match &params.page {
                None => Strategy::Number(1),
                Some(raw) => match read_decimal(raw.as_str(), u32::MAX as u64) {
                    DecimalReading::Value(n) => {
                        if n == 0 {
                            return Err(PaginationError::InvalidPage);
                        }
                        Strategy::Number(n as u32)
                    },
                    _ => {
                        return Err(PaginationError::InvalidPage);
                    },
                },
            },
        };
        PaginationOptions::with_strategy(strategy, per_page)
    }
}

/// The cursor token for the position `key`: what a client hands back as
/// `seek` to get the rows after that key.
pub fn encode_cursor(key: u64) -> (token: String)
    ensures
        token@ == cursor_token(key),
{
    decimal_string(key)
}

/// A cursor token that was made for a key reads back as that key.
pub proof fn lemma_cursor_round_trip(key: u64)
    ensures
        cursor_of(cursor_token(key)) == Ok::<u64, PaginationError>(key),
{
    lemma_digits_round_trip(key as nat);
}

} // verus!
