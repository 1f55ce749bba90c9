//! Page-number and cursor pagination: the arithmetic of pages, and the
//! envelopes that carry one page of items with its metadata.

use vstd::prelude::*;

verus! {

/// Page-number pagination. Pages are counted from 1.
#[derive(Debug, Clone, Copy)]
pub struct Pagination {
    /// Page number, from 1.
    pub page: u32,
    /// Number of items on a page.
    pub per_page: u32,
    /// Number of items in all, once known.
    pub total: Option<u64>,
    /// Number of pages in all, once known.
    pub total_pages: Option<u32>,
}

/// Pages needed for `total` items at `per_page` a page, capped at
/// `u32::MAX`. With no room on a page, no items need no page and any item
/// needs more pages than can be counted.
pub open spec fn pages_needed(total: nat, per_page: nat) -> nat {
    if per_page == 0 {
        if total == 0 {
            0
        } else {
            u32::MAX as nat
        }
    } else {
        let pages = (total + per_page - 1) / (per_page as int);
        if pages > u32::MAX {
            u32::MAX as nat
        } else {
            pages as nat
        }
    }
}

impl Pagination {
    /// A pagination at `page`, with the totals unknown.
    pub fn new(page: u32, per_page: u32) -> (p: Self)
        ensures
            p == (Pagination { page, per_page, total: None, total_pages: None }),
    {
        Pagination { page, per_page, total: None, total_pages: None }
    }

    /// Whether `offset` can be computed: the page number is at least 1 and
    /// the number of items before the page fits 32 bits.
    pub open spec fn in_range(self) -> bool {
        self.page >= 1 && (self.page - 1) * self.per_page <= u32::MAX
    }

    /// Items to skip before this page.
    pub fn offset(&self) -> (n: u32)
        requires
            self.in_range(),
        ensures
            n == (self.page - 1) * self.per_page,
    {
        (self.page - 1) * self.per_page
    }

    /// Most items to fetch for this page.
    pub fn limit(&self) -> (n: u32)
        ensures
            n == self.per_page,
    {
        self.per_page
    }

    /// Records the number of items and derives the number of pages.
    pub fn set_total(&mut self, total: u64)
        ensures
            final(self).page == old(self).page,
            final(self).per_page == old(self).per_page,
            final(self).total == Some(total),
            final(self).total_pages == Some(
                pages_needed(total as nat, old(self).per_page as nat) as u32,
            ),
    {
        self.total = Some(total);
        let pages: u32 = if self.per_page == 0 {
            if total == 0 {
                0
            } else {
                u32::MAX
            }
        } else {
            let per: u64 = self.per_page as u64;
            let full: u64 = total / per;
            let pages: u64 = if total % per == 0 {
                full
            } else {
                assert(full < u64::MAX) by {
                    assert(per >= 2);
                    assert(total / per <= total / 2) by (nonlinear_arith)
                        requires
                            per >= 2,
                    ;
                }
                full + 1
            };
            assert(pages == (total + per - 1) / (per as int)) by (nonlinear_arith)
                requires
                    per > 0,
                    full == total / per,
                    pages == if total % per == 0 {
                        full
                    } else {
                        (full + 1) as u64
                    },
            ;
            if pages > u32::MAX as u64 {
                u32::MAX
            } else {
                pages as u32
            }
        };
        self.total_pages = Some(pages);
    }

    /// Whether a page follows this one. Unknown totals count as no.
    pub fn has_next(&self) -> (b: bool)
        ensures
            b == (self.total_pages matches Some(pages) && self.page < pages),
    {
        match self.total_pages {
            Some(pages) => self.page < pages,
            None => false,
        }
    }

    /// Whether a page comes before this one.
    pub fn has_prev(&self) -> (b: bool)
        ensures
            b == (self.page > 1),
    {
        self.page > 1
    }

    /// The number of the first item on this page, counted from 1.
    pub fn start_item(&self) -> (n: u32)
        requires
            self.page >= 1,
            (self.page - 1) * self.per_page + 1 <= u32::MAX,
        ensures
            n == (self.page - 1) * self.per_page + 1,
    {
        self.offset() + 1
    }

    /// The number of the last item a full page would hold.
    pub fn end_item(&self) -> (n: u32)
        requires
            self.page * self.per_page <= u32::MAX,
        ensures
            n == self.page * self.per_page,
    {
        self.page * self.per_page
    }

    /// The next page's number, where there is a next page.
    pub fn next_page(&self) -> (n: Option<u32>)
        ensures
            n == if self.total_pages matches Some(pages) && self.page < pages {
                Some((self.page + 1) as u32)
            } else {
                None
            },
    {
        if self.has_next() {
            Some(self.page + 1)
        } else {
            None
        }
    }

    /// The previous page's number, where there is a previous page.
    pub fn prev_page(&self) -> (n: Option<u32>)
        ensures
            n == if self.page > 1 {
                Some((self.page - 1) as u32)
            } else {
                None
            },
    {
        if self.has_prev() {
            Some(self.page - 1)
        } else {
            None
        }
    }
}

impl Default for Pagination {
    fn default() -> (p: Self)
        ensures
            p == (Pagination { page: 1, per_page: 20, total: None, total_pages: None }),
    {
        Pagination::new(1, 20)
    }
}

/// One page of items with its pagination.
#[derive(Debug, Clone)]
pub struct PaginatedResult<T> {
    /// The items of the page.
    pub data: Vec<T>,
    /// Where the page stands.
    pub pagination: Pagination,
}

impl<T> PaginatedResult<T> {
    /// Puts items and pagination together.
    pub fn new(data: Vec<T>, pagination: Pagination) -> (r: Self)
        ensures
            r.data == data,
            r.pagination == pagination,
    {
        PaginatedResult { data, pagination }
    }

    /// Puts items and pagination together and records the total item count in
    /// the pagination.
    pub fn with_total(data: Vec<T>, pagination: Pagination, total: u64) -> (r: Self)
        ensures
            r.data == data,
            r.pagination == (Pagination {
                page: pagination.page,
                per_page: pagination.per_page,
                total: Some(total),
                total_pages: Some(pages_needed(total as nat, pagination.per_page as nat) as u32),
            }),
    {
        let mut pagination = pagination;
        pagination.set_total(total);
        PaginatedResult { data, pagination }
    }

    /// The items.
    pub fn data(&self) -> (items: &[T])
        ensures
            items@ == self.data@,
    {
        self.data.as_slice()
    }

    /// The pagination.
    pub fn pagination(&self) -> (p: &Pagination)
        ensures
            *p == self.pagination,
    {
        &self.pagination
    }

    /// Number of items on this page.
    pub fn len(&self) -> (n: usize)
        ensures
            n == self.data@.len(),
    {
        self.data.len()
    }

    /// Whether this page has no items.
    pub fn is_empty(&self) -> (b: bool)
        ensures
            b == (self.data@.len() == 0),
    {
        self.data.len() == 0
    }

    /// Applies `f` to every item, in order, and keeps the pagination.
    pub fn map<U, F: Fn(T) -> U>(self, f: F) -> (r: PaginatedResult<U>)
        requires
            forall|i: int| 0 <= i < self.data@.len() ==> call_requires(f, (#[trigger] self.data@[i],)),
        ensures
            r.pagination == self.pagination,
            r.data@.len() == self.data@.len(),
            forall|i: int|
                0 <= i < self.data@.len() ==> call_ensures(f, (self.data@[i],), #[trigger] r.data@[i]),
    {
        let PaginatedResult { data, pagination } = self;
        let ghost items = data@;
        let mut out: Vec<U> = Vec::new();
        for item in it: data
            invariant
                it.seq() == items,
                out@.len() == it.index(),
                forall|i: int| 0 <= i < items.len() ==> call_requires(f, (#[trigger] items[i],)),
                forall|i: int|
                    0 <= i < it.index() ==> call_ensures(f, (items[i],), #[trigger] out@[i]),
        {
            let mapped = f(item);
            out.push(mapped);
        }
        PaginatedResult { data: out, pagination }
    }
}

/// Cursor pagination: a position in the result set instead of a page number.
#[derive(Debug, Clone)]
pub struct CursorPagination {
    /// Where this page starts.
    pub cursor: Option<String>,
    /// Number of items on a page.
    pub limit: u32,
    /// Whether the item at the cursor belongs to the page.
    pub include_cursor: bool,
    /// Whether more items follow.
    pub has_next: bool,
    /// Whether items come before.
    pub has_prev: bool,
    /// Where the next page starts.
    pub next_cursor: Option<String>,
    /// Where the previous page starts.
    pub prev_cursor: Option<String>,
    /// Number of items in all, once known.
    pub total: Option<u64>,
}

impl CursorPagination {
    /// A pagination at the start of the result set.
    pub fn new(limit: u32) -> (p: Self)
        ensures
            p == (CursorPagination {
                cursor: None,
                limit,
                include_cursor: false,
                has_next: false,
                has_prev: false,
                next_cursor: None,
                prev_cursor: None,
                total: None,
            }),
    {
        CursorPagination {
            cursor: None,
            limit,
            include_cursor: false,
            has_next: false,
            has_prev: false,
            next_cursor: None,
            prev_cursor: None,
            total: None,
        }
    }

    /// A pagination at `cursor`. Having a cursor means that items come
    /// before.
    pub fn with_cursor(limit: u32, cursor: Option<String>) -> (p: Self)
        ensures
            p == (CursorPagination {
                cursor,
                limit,
                include_cursor: false,
                has_next: false,
                has_prev: cursor is Some,
                next_cursor: None,
                prev_cursor: None,
                total: None,
            }),
    {
        let has_prev = cursor.is_some();
        CursorPagination {
            cursor,
            limit,
            include_cursor: false,
            has_next: false,
            has_prev,
            next_cursor: None,
            prev_cursor: None,
            total: None,
        }
    }

    /// A pagination at `cursor`, with the arguments in the older order.
    pub fn with_cursor_old(cursor: String, limit: u32) -> (p: Self)
        ensures
            p == (CursorPagination {
                cursor: Some(cursor),
                limit,
                include_cursor: false,
                has_next: false,
                has_prev: true,
                next_cursor: None,
                prev_cursor: None,
                total: None,
            }),
    {
        CursorPagination {
            cursor: Some(cursor),
            limit,
            include_cursor: false,
            has_next: false,
            has_prev: true,
            next_cursor: None,
            prev_cursor: None,
            total: None,
        }
    }

    /// Moves to `cursor` and changes nothing else.
    pub fn set_cursor(&mut self, cursor: Option<String>)
        ensures
            *final(self) == (CursorPagination { cursor, ..*old(self) }),
    {
        self.cursor = cursor;
    }

    /// Most items to fetch for a page.
    pub fn limit(&self) -> (n: u32)
        ensures
            n == self.limit,
    {
        self.limit
    }
}

impl Default for CursorPagination {
    fn default() -> (p: Self)
        ensures
            p.cursor is None,
            p.limit == 20,
            !p.include_cursor && !p.has_next && !p.has_prev,
            p.next_cursor is None && p.prev_cursor is None && p.total is None,
    {
        CursorPagination::new(20)
    }
}

/// One page of items with its cursor pagination.
#[derive(Debug, Clone)]
pub struct CursorPaginatedResult<T> {
    /// The items of the page.
    pub data: Vec<T>,
    /// Where the page stands.
    pub pagination: CursorPagination,
}

impl<T> CursorPaginatedResult<T> {
    /// Puts items and pagination together.
    pub fn new(data: Vec<T>, pagination: CursorPagination) -> (r: Self)
        ensures
            r.data == data,
            r.pagination == pagination,
    {
        CursorPaginatedResult { data, pagination }
    }

    /// The items.
    pub fn data(&self) -> (items: &[T])
        ensures
            items@ == self.data@,
    {
        self.data.as_slice()
    }

    /// The pagination.
    pub fn pagination(&self) -> (p: &CursorPagination)
        ensures
            *p == self.pagination,
    {
        &self.pagination
    }
}

} // verus!
