//! Pagination glue for the data-access endpoints: defaulted and clamped
//! page parameters, the derived SQL offset, and the paginated response
//! envelope.

use vstd::prelude::*;

verus! {

/// Pagination parameters as the UI sends them: both fields optional.
#[derive(Debug, Clone, PartialEq)]
pub struct PaginationParams {
    /// Current page; absent or zero means the first page.
    pub page: Option<u32>,
    /// Records per page; absent means twenty, clamped to one through one
    /// hundred.
    pub per_page: Option<u32>,
}

impl PaginationParams {
    /// The page actually used: the given one, at least one.
    pub open spec fn spec_page(page: Option<u32>) -> u32 {
        match page {
            Option::None => 1,
            Option::Some(p) => if p >= 1 {
                p
            } else {
                1
            },
        }
    }

    /// The page size actually used: the given one, clamped to 1..=100,
    /// defaulting to twenty.
    pub open spec fn spec_per_page(per_page: Option<u32>) -> u32 {
        match per_page {
            Option::None => 20,
            Option::Some(p) => if p > 100 {
                100
            } else if p < 1 {
                1
            } else {
                p
            },
        }
    }

    /// Current page, defaulting to one and never below one.
    pub fn page(&self) -> (r: u32)
        ensures
            r == Self::spec_page(self.page),
    {
        match self.page {
            None => 1,
            Some(p) => if p >= 1 {
                p
            } else {
                1
            },
        }
    }

    /// Records per page, defaulting to twenty, clamped to 1..=100.
    pub fn per_page(&self) -> (r: u32)
        ensures
            r == Self::spec_per_page(self.per_page),
    {
        match self.per_page {
            None => 20,
            Some(p) => if p > 100 {
                100
            } else if p < 1 {
                1
            } else {
                p
            },
        }
    }

    /// The SQL `OFFSET` of the current page.  The product must fit the
    /// offset's type; in practice pages are small.
    pub fn offset(&self) -> (r: u32)
        requires
            (Self::spec_page(self.page) - 1) * Self::spec_per_page(self.per_page) <= u32::MAX,
        ensures
            r == (Self::spec_page(self.page) - 1) * Self::spec_per_page(self.per_page),
    {
        (self.page() - 1) * self.per_page()
    }
}

/// The number of pages needed for `total` records at `per_page` each: the
/// quotient, rounded up.
pub open spec fn spec_total_pages(total: u32, per_page: u32) -> int
    recommends
        per_page >= 1,
{
    if total % per_page == 0 {
        total as int / per_page as int
    } else {
        total as int / per_page as int + 1
    }
}

/// One page of records together with the bookkeeping the UI shows.
#[derive(Debug)]
pub struct PaginatedResponse<T> {
    /// Records of the current page.
    pub items: Vec<T>,
    /// Total number of records over all pages.
    pub total: u32,
    /// Current page number.
    pub page: u32,
    /// Records per page.
    pub per_page: u32,
    /// Total number of pages: `total / per_page`, rounded up.
    pub total_pages: u32,
}

impl<T> PaginatedResponse<T> {
    /// Builds the response envelope around one page of records.
    pub fn new(items: Vec<T>, total: u32, params: &PaginationParams) -> (r: Self)
        ensures
            r.items == items,
            r.total == total,
            r.page == PaginationParams::spec_page(params.page),
            r.per_page == PaginationParams::spec_per_page(params.per_page),
            r.total_pages == spec_total_pages(total, PaginationParams::spec_per_page(params.per_page)),
    {
        let page = params.page();
        let per_page = params.per_page();
        proof {
            if per_page >= 2 {
                vstd::arithmetic::div_mod::lemma_div_is_ordered_by_denominator(
                    total as int,
                    2,
                    per_page as int,
                );
            }
        }
        let total_pages = if total % per_page == 0 {
            total / per_page
        } else {
            total / per_page + 1
        };
        Self { items, total, page, per_page, total_pages }
    }
}

} // verus!
