//! Sorting and searching, as values that a query is built from.

use crate::text::{slice_views, to_strings, views};
use crate::types::SortOrder;
use vstd::prelude::*;
use vstd::string::*;

verus! {

/// A column to sort by and the direction.
#[derive(Debug, Clone)]
pub struct Sort {
    /// Column name.
    pub column: String,
    /// Direction.
    pub order: SortOrder,
}

impl Sort {
    /// Sort by `column` in the given direction.
    pub fn new(column: &str, order: SortOrder) -> (s: Self)
        ensures
            s.column@ == column@,
            s.order == order,
    {
        Sort { column: column.to_owned(), order }
    }

    /// Sort by `column`, ascending where `ascending` holds, else descending.
    pub fn new_bool(column: &str, ascending: bool) -> (s: Self)
        ensures
            s.column@ == column@,
            s.order == if ascending {
                SortOrder::Asc
            } else {
                SortOrder::Desc
            },
    {
        Sort {
            column: column.to_owned(),
            order: if ascending {
                SortOrder::Asc
            } else {
                SortOrder::Desc
            },
        }
    }

    /// Sort by `column`, ascending.
    pub fn asc(column: &str) -> (s: Self)
        ensures
            s.column@ == column@,
            s.order == SortOrder::Asc,
    {
        Sort::new(column, SortOrder::Asc)
    }

    /// Sort by `column`, descending.
    pub fn desc(column: &str) -> (s: Self)
        ensures
            s.column@ == column@,
            s.order == SortOrder::Desc,
    {
        Sort::new(column, SortOrder::Desc)
    }
}

/// A text search over some columns.
#[derive(Debug, Clone)]
pub struct SearchFilter {
    /// What to look for.
    pub query: String,
    /// Columns to look in.
    pub columns: Vec<String>,
    /// Whether letter case matters.
    pub case_sensitive: bool,
    /// Whether a column must equal the query, rather than contain it.
    pub exact_match: bool,
}

impl SearchFilter {
    /// A search for `query` in `columns`: case-insensitive, by containment.
    pub fn new(query: &str, columns: Vec<&str>) -> (f: Self)
        ensures
            f.query@ == query@,
            views(f.columns@) == slice_views(columns@),
            !f.case_sensitive,
            !f.exact_match,
    {
        SearchFilter {
            query: query.to_owned(),
            columns: to_strings(&columns),
            case_sensitive: false,
            exact_match: false,
        }
    }

    /// The same search with case sensitivity set.
    pub fn case_sensitive(self, case_sensitive: bool) -> (f: Self)
        ensures
            f == (SearchFilter { case_sensitive, ..self }),
    {
        let mut f = self;
        f.case_sensitive = case_sensitive;
        f
    }

    /// The same search with exact matching set.
    pub fn exact_match(self, exact_match: bool) -> (f: Self)
        ensures
            f == (SearchFilter { exact_match, ..self }),
    {
        let mut f = self;
        f.exact_match = exact_match;
        f
    }

    /// A search for `query` in the one column `field`.
    pub fn new_single_field(field: &str, query: &str) -> (f: Self)
        ensures
            f.query@ == query@,
            views(f.columns@) == seq![field@],
            !f.case_sensitive,
            !f.exact_match,
    {
        let mut columns: Vec<String> = Vec::new();
        columns.push(field.to_owned());
        assert(views(columns@) =~= seq![field@]);
        SearchFilter { query: query.to_owned(), columns, case_sensitive: false, exact_match: false }
    }

    /// A search for `query` in `fields`.
    pub fn new_multiple_fields(fields: Vec<&str>, query: &str) -> (f: Self)
        ensures
            f.query@ == query@,
            views(f.columns@) == slice_views(fields@),
            !f.case_sensitive,
            !f.exact_match,
    {
        SearchFilter {
            query: query.to_owned(),
            columns: to_strings(&fields),
            case_sensitive: false,
            exact_match: false,
        }
    }
}

} // verus!
