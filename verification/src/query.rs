//! Queries: a builder that collects the parts of a `SELECT`, and the SQL
//! text with placeholders that the parts stand for.

use crate::error::Error;
use crate::filter_ops::{
    list_params, list_sql, Filter, FilterOperations, FilterOperator,
};
use crate::filters::Sort;
use crate::text::{
    decimal, joined, lemma_views_push, push_decimal, push_joined, slice_views, to_strings, views,
};
use crate::types::{Aggregate, JoinType};
use crate::value::{value_views, Value, ValueSpec};
use vstd::prelude::*;
use vstd::string::*;

verus! {

/// The rows of a query and, where it was counted, the number of rows that
/// match in all.
pub struct QueryResult<T> {
    pub data: Vec<T>,
    pub total: Option<u64>,
}

impl<T> QueryResult<T> {
    /// Rows with no total.
    pub fn new(data: Vec<T>) -> (r: Self)
        ensures
            r.data == data,
            r.total is None,
    {
        QueryResult { data, total: None }
    }

    /// Rows with their total.
    pub fn with_total(data: Vec<T>, total: u64) -> (r: Self)
        ensures
            r.data == data,
            r.total == Some(total),
    {
        QueryResult { data, total: Some(total) }
    }
}

/// A join of a query.
#[derive(Debug, Clone)]
pub struct JoinClause {
    pub join_type: JoinType,
    pub table: String,
    pub alias: Option<String>,
    pub condition: String,
}

/// The aggregate that a query selects.
#[derive(Debug, Clone)]
pub struct AggregateClause {
    pub function: Aggregate,
    pub column: String,
    pub alias: Option<String>,
}

/// The parts of a query.
#[derive(Debug, Clone)]
pub struct QueryBuilder {
    pub table: String,
    pub select_columns: Vec<String>,
    pub joins: Vec<JoinClause>,
    pub where_clauses: Vec<FilterOperator>,
    pub group_by: Vec<String>,
    pub having: Vec<FilterOperator>,
    pub order_by: Vec<Sort>,
    pub limit: Option<u32>,
    pub offset: Option<u32>,
    pub distinct: bool,
    pub aggregate: Option<AggregateClause>,
}

/// ` AS <alias>`, where there is an alias.
pub open spec fn alias_sql(alias: Option<String>) -> Seq<char> {
    match alias {
        Some(a) => " AS "@ + a@,
        None => Seq::empty(),
    }
}

/// The text of a join: ` <join> <table>[ AS <alias>] ON <condition>`.
pub open spec fn join_sql(join: JoinClause) -> Seq<char> {
    " "@ + join.join_type.sql() + " "@ + join.table@ + alias_sql(join.alias) + " ON "@
        + join.condition@
}

/// The texts of the first `k` joins, one after the other.
pub open spec fn joins_sql(joins: Seq<JoinClause>, k: nat) -> Seq<char>
    decreases k,
{
    if k == 0 {
        Seq::empty()
    } else {
        joins_sql(joins, (k - 1) as nat) + join_sql(joins[k - 1])
    }
}

/// The text of a sort: `<column> <direction>`.
pub open spec fn sort_sql(sort: Sort) -> Seq<char> {
    sort.column@ + " "@ + sort.order.sql()
}

/// The texts of all sorts.
pub open spec fn sorts_sql(sorts: Seq<Sort>) -> Seq<Seq<char>> {
    Seq::new(sorts.len(), |i: int| sort_sql(sorts[i]))
}

/// ` <keyword> <conditions joined by AND>`, where there are conditions.
pub open spec fn conditions_sql(keyword: Seq<char>, filters: Seq<FilterOperator>) -> Seq<char> {
    if filters.len() == 0 {
        Seq::empty()
    } else {
        keyword + list_sql(filters, " AND "@, filters.len())
    }
}

/// ` <keyword> <items joined by commas>`, where there are items.
pub open spec fn listing_sql(keyword: Seq<char>, items: Seq<Seq<char>>) -> Seq<char> {
    if items.len() == 0 {
        Seq::empty()
    } else {
        keyword + joined(items, ", "@)
    }
}

/// ` <keyword> <n>`, where there is a number.
pub open spec fn number_sql(keyword: Seq<char>, n: Option<u32>) -> Seq<char> {
    match n {
        Some(n) => keyword + decimal(n as nat),
        None => Seq::empty(),
    }
}

/// What a query selects: the aggregate where there is one, else the
/// columns.
pub open spec fn selection_sql(q: QueryBuilder) -> Seq<char> {
    match q.aggregate {
        Some(agg) => agg.function.sql() + "("@ + agg.column@ + ")"@ + alias_sql(agg.alias),
        None => joined(views(q.select_columns@), ", "@),
    }
}

/// What follows the selection in both kinds of query: table, joins,
/// conditions, grouping and conditions on groups.
pub open spec fn source_sql(q: QueryBuilder) -> Seq<char> {
    " FROM "@ + q.table@ + joins_sql(q.joins@, q.joins@.len()) + conditions_sql(
        " WHERE "@,
        q.where_clauses@,
    ) + listing_sql(" GROUP BY "@, views(q.group_by@)) + conditions_sql(" HAVING "@, q.having@)
}

/// The text of a query.
pub open spec fn query_sql(q: QueryBuilder) -> Seq<char> {
    "SELECT "@ + (if q.distinct {
        "DISTINCT "@
    } else {
        Seq::empty()
    }) + selection_sql(q) + source_sql(q) + tail_sql(q)
}

/// What follows the source in a query: sorting, limit and offset.
pub open spec fn tail_sql(q: QueryBuilder) -> Seq<char> {
    listing_sql(" ORDER BY "@, sorts_sql(q.order_by@)) + number_sql(" LIMIT "@, q.limit)
        + number_sql(" OFFSET "@, q.offset)
}

/// The text of the statement that deletes the rows of a query: the query
/// with `DELETE` in place of what it selects.
pub open spec fn delete_query_sql(q: QueryBuilder) -> Seq<char> {
    "DELETE"@ + source_sql(q) + tail_sql(q)
}

/// The text of the query that counts the rows of a query.
pub open spec fn count_query_sql(q: QueryBuilder) -> Seq<char> {
    "SELECT COUNT(*)"@ + source_sql(q)
}

/// The parameters of a query, in the order of their placeholders: those of
/// the conditions, then those of the conditions on groups.
pub open spec fn query_params(q: QueryBuilder) -> Seq<ValueSpec> {
    list_params(q.where_clauses@, q.where_clauses@.len()) + list_params(
        q.having@,
        q.having@.len(),
    )
}

/// `*`, the selection of all columns.
pub open spec fn all_columns() -> Seq<Seq<char>> {
    seq!["*"@]
}

/// A list of one string.
fn one(s: &str) -> (list: Vec<String>)
    ensures
        views(list@) == seq![s@],
{
    let mut list: Vec<String> = Vec::new();
    list.push(s.to_owned());
    assert(views(list@) =~= seq![s@]);
    list
}

impl QueryBuilder {
    /// A query for all columns of all rows of `table`.
    pub fn new(table: &str) -> (q: Self)
        ensures
            q.table@ == table@,
            views(q.select_columns@) == all_columns(),
            q.joins@.len() == 0,
            q.where_clauses@.len() == 0,
            q.group_by@.len() == 0,
            q.having@.len() == 0,
            q.order_by@.len() == 0,
            q.limit is None,
            q.offset is None,
            !q.distinct,
            q.aggregate is None,
    {
        QueryBuilder {
            table: table.to_owned(),
            select_columns: one("*"),
            joins: Vec::new(),
            where_clauses: Vec::new(),
            group_by: Vec::new(),
            having: Vec::new(),
            order_by: Vec::new(),
            limit: None,
            offset: None,
            distinct: false,
            aggregate: None,
        }
    }

    /// The same query selecting `columns`.
    pub fn select(self, columns: Vec<&str>) -> (q: Self)
        ensures
            views(q.select_columns@) == slice_views(columns@),
            q == (QueryBuilder { select_columns: q.select_columns, ..self }),
    {
        QueryBuilder { select_columns: to_strings(&columns), ..self }
    }

    /// The same query with one more join.
    pub fn join(self, join_type: JoinType, table: &str, condition: &str) -> (q: Self)
        ensures
            q.joins@.len() == self.joins@.len() + 1,
            q.joins@.drop_last() == self.joins@,
            q.joins@.last().join_type == join_type,
            q.joins@.last().table@ == table@,
            q.joins@.last().alias is None,
            q.joins@.last().condition@ == condition@,
            q == (QueryBuilder { joins: q.joins, ..self }),
    {
        let mut q = self;
        q.joins.push(
            JoinClause {
                join_type,
                table: table.to_owned(),
                alias: None,
                condition: condition.to_owned(),
            },
        );
        assert(q.joins@.drop_last() =~= self.joins@);
        q
    }

    /// The same query with one more join, under an alias.
    pub fn join_as(self, join_type: JoinType, table: &str, alias: &str, condition: &str) -> (q:
        Self)
        ensures
            q.joins@.len() == self.joins@.len() + 1,
            q.joins@.drop_last() == self.joins@,
            q.joins@.last().join_type == join_type,
            q.joins@.last().table@ == table@,
            q.joins@.last().alias matches Some(a) && a@ == alias@,
            q.joins@.last().condition@ == condition@,
            q == (QueryBuilder { joins: q.joins, ..self }),
    {
        let mut q = self;
        q.joins.push(
            JoinClause {
                join_type,
                table: table.to_owned(),
                alias: Some(alias.to_owned()),
                condition: condition.to_owned(),
            },
        );
        assert(q.joins@.drop_last() =~= self.joins@);
        q
    }

    /// The same query with one more condition.
    pub fn _where(self, filter: FilterOperator) -> (q: Self)
        ensures
            q.where_clauses@ == self.where_clauses@.push(filter),
            q == (QueryBuilder { where_clauses: q.where_clauses, ..self }),
    {
        let mut q = self;
        q.where_clauses.push(filter);
        q
    }

    /// The same query grouped by `columns`.
    pub fn group_by(self, columns: Vec<&str>) -> (q: Self)
        ensures
            views(q.group_by@) == slice_views(columns@),
            q == (QueryBuilder { group_by: q.group_by, ..self }),
    {
        QueryBuilder { group_by: to_strings(&columns), ..self }
    }

    /// The same query with one more condition on groups.
    pub fn having(self, filter: FilterOperator) -> (q: Self)
        ensures
            q.having@ == self.having@.push(filter),
            q == (QueryBuilder { having: q.having, ..self }),
    {
        let mut q = self;
        q.having.push(filter);
        q
    }

    /// The same query with one more sort.
    pub fn order_by(self, sort: Sort) -> (q: Self)
        ensures
            q.order_by@ == self.order_by@.push(sort),
            q == (QueryBuilder { order_by: q.order_by, ..self }),
    {
        let mut q = self;
        q.order_by.push(sort);
        q
    }

    /// The same query with more sorts, in their order.
    pub fn order_by_multiple(self, sorts: Vec<Sort>) -> (q: Self)
        ensures
            q.order_by@ == self.order_by@ + sorts@,
            q == (QueryBuilder { order_by: q.order_by, ..self }),
    {
        let mut q = self;
        let mut sorts = sorts;
        q.order_by.append(&mut sorts);
        q
    }

    /// The same query returning at most `limit` rows.
    pub fn limit(self, limit: u32) -> (q: Self)
        ensures
            q == (QueryBuilder { limit: Some(limit), ..self }),
    {
        QueryBuilder { limit: Some(limit), ..self }
    }

    /// The same query skipping `offset` rows.
    pub fn offset(self, offset: u32) -> (q: Self)
        ensures
            q == (QueryBuilder { offset: Some(offset), ..self }),
    {
        QueryBuilder { offset: Some(offset), ..self }
    }

    /// The same query with or without duplicates removed.
    pub fn distinct(self, distinct: bool) -> (q: Self)
        ensures
            q == (QueryBuilder { distinct, ..self }),
    {
        QueryBuilder { distinct, ..self }
    }

    /// The same query selecting an aggregate.
    pub fn aggregate(self, function: Aggregate, column: &str, alias: Option<&str>) -> (q: Self)
        ensures
            q.aggregate matches Some(agg) && agg.function == function && agg.column@ == column@
                && match alias {
                Some(a) => agg.alias matches Some(b) && b@ == a@,
                None => agg.alias is None,
            },
            q == (QueryBuilder { aggregate: q.aggregate, ..self }),
    {
        let alias = match alias {
            Some(a) => Some(a.to_owned()),
            None => None,
        };
        QueryBuilder {
            aggregate: Some(AggregateClause { function, column: column.to_owned(), alias }),
            ..self
        }
    }

    /// The same query selecting all columns.
    pub fn select_all(self) -> (q: Self)
        ensures
            views(q.select_columns@) == all_columns(),
            q == (QueryBuilder { select_columns: q.select_columns, ..self }),
    {
        QueryBuilder { select_columns: one("*"), ..self }
    }

    /// The same query selecting `columns`.
    pub fn select_columns(self, columns: &Vec<&str>) -> (q: Self)
        ensures
            views(q.select_columns@) == slice_views(columns@),
            q == (QueryBuilder { select_columns: q.select_columns, ..self }),
    {
        QueryBuilder { select_columns: to_strings(columns), ..self }
    }

    /// The same query selecting the one column `column`.
    pub fn select_column(self, column: &str) -> (q: Self)
        ensures
            views(q.select_columns@) == seq![column@],
            q == (QueryBuilder { select_columns: q.select_columns, ..self }),
    {
        QueryBuilder { select_columns: one(column), ..self }
    }

    /// The same query selecting the number of rows.
    pub fn select_count(self) -> (q: Self)
        ensures
            views(q.select_columns@) == seq!["COUNT(*)"@],
            q == (QueryBuilder { select_columns: q.select_columns, ..self }),
    {
        QueryBuilder { select_columns: one("COUNT(*)"), ..self }
    }

    /// The same query selecting the aggregate expression `aggregate`.
    pub fn select_aggregate(self, aggregate: &str) -> (q: Self)
        ensures
            views(q.select_columns@) == seq![aggregate@],
            q == (QueryBuilder { select_columns: q.select_columns, ..self }),
    {
        QueryBuilder { select_columns: one(aggregate), ..self }
    }

    /// The same query selecting the distinct values of `column`.
    pub fn select_distinct(self, column: &str) -> (q: Self)
        ensures
            views(q.select_columns@) == seq![column@],
            q == (QueryBuilder { select_columns: q.select_columns, distinct: true, ..self }),
    {
        QueryBuilder { select_columns: one(column), distinct: true, ..self }
    }

    /// The same query with one more condition, written in SQL. The
    /// parameters are not used.
    pub fn where_condition(self, condition: &str, params: Vec<Value>) -> (q: Self)
        ensures
            q.where_clauses@.len() == self.where_clauses@.len() + 1,
            q.where_clauses@.drop_last() == self.where_clauses@,
            q.where_clauses@.last() matches FilterOperator::Custom(c) && c@ == condition@,
            q == (QueryBuilder { where_clauses: q.where_clauses, ..self }),
    {
        let mut q = self;
        q.where_clauses.push(FilterOperator::Custom(condition.to_owned()));
        assert(q.where_clauses@.drop_last() =~= self.where_clauses@);
        q
    }

    /// The same query with the condition that `field` contains `query`,
    /// written into the SQL as it is.
    pub fn search(self, field: &str, query: &str) -> (q: Self)
        ensures
            q.where_clauses@.len() == self.where_clauses@.len() + 1,
            q.where_clauses@.drop_last() == self.where_clauses@,
            q.where_clauses@.last() matches FilterOperator::Custom(c) && c@ == field@
                + " LIKE '%"@ + query@ + "%'"@,
            q == (QueryBuilder { where_clauses: q.where_clauses, ..self }),
    {
        let mut condition = field.to_owned();
        condition.append(" LIKE '%");
        condition.append(query);
        condition.append("%'");
        let mut q = self;
        q.where_clauses.push(FilterOperator::Custom(condition));
        assert(q.where_clauses@.drop_last() =~= self.where_clauses@);
        q
    }

    /// The same query with one more condition.
    pub fn with_filter(self, filter: Filter) -> (q: Self)
        ensures
            q.where_clauses@ == self.where_clauses@.push(FilterOperator::Single(filter)),
            q == (QueryBuilder { where_clauses: q.where_clauses, ..self }),
    {
        let mut q = self;
        q.where_clauses.push(FilterOperator::Single(filter));
        q
    }

    /// The same query with more conditions, in their order.
    pub fn with_filters(self, filters: Vec<Filter>) -> (q: Self)
        ensures
            q.where_clauses@.len() == self.where_clauses@.len() + filters@.len(),
            q.where_clauses@.take(self.where_clauses@.len() as int) == self.where_clauses@,
            forall|i: int|
                0 <= i < filters@.len() ==> #[trigger] q.where_clauses@[self.where_clauses@.len()
                    + i] == FilterOperator::Single(filters@[i]),
            q == (QueryBuilder { where_clauses: q.where_clauses, ..self }),
    {
        let ghost start = self.where_clauses@;
        let ghost all = filters@;
        let mut q = self;
        let ghost mut done: int = 0;
        for filter in it: filters
            invariant
                it.seq() == all,
                done == it.index(),
                q.where_clauses@.len() == start.len() + done,
                q.where_clauses@.take(start.len() as int) == start,
                forall|i: int|
                    0 <= i < done ==> #[trigger] q.where_clauses@[start.len() + i]
                        == FilterOperator::Single(all[i]),
                q == (QueryBuilder { where_clauses: q.where_clauses, ..self }),
        {
            let ghost before = q.where_clauses@;
            q.where_clauses.push(FilterOperator::Single(filter));
            proof {
                assert(q.where_clauses@.take(start.len() as int) =~= before.take(
                    start.len() as int,
                ));
                assert forall|i: int| 0 <= i < done + 1 implies #[trigger] q.where_clauses@[start.len()
                    + i] == FilterOperator::Single(all[i]) by {
                    if i < done {
                        assert(q.where_clauses@[start.len() + i] == before[start.len() + i]);
                    }
                }
                done = done + 1;
            }
        }
        q
    }

    /// The same query with more sorts, in their order.
    pub fn with_sorts(self, sorts: Vec<Sort>) -> (q: Self)
        ensures
            q.order_by@ == self.order_by@ + sorts@,
            q == (QueryBuilder { order_by: q.order_by, ..self }),
    {
        self.order_by_multiple(sorts)
    }

    /// The same query with one more condition on groups, written in SQL.
    /// The parameters are not used.
    pub fn having_condition(self, condition: &str, params: Vec<Value>) -> (q: Self)
        ensures
            q.having@.len() == self.having@.len() + 1,
            q.having@.drop_last() == self.having@,
            q.having@.last() matches FilterOperator::Custom(c) && c@ == condition@,
            q == (QueryBuilder { having: q.having, ..self }),
    {
        let mut q = self;
        q.having.push(FilterOperator::Custom(condition.to_owned()));
        assert(q.having@.drop_last() =~= self.having@);
        q
    }

    /// The same query with the condition that `field` is among the rows of
    /// `subquery`, whose text is written into the SQL; its parameters are
    /// dropped.
    pub fn where_in(self, field: &str, subquery: QueryBuilder) -> (q: Self)
        ensures
            q.where_clauses@.len() == self.where_clauses@.len() + 1,
            q.where_clauses@.drop_last() == self.where_clauses@,
            q.where_clauses@.last() matches FilterOperator::Custom(c) && c@ == field@ + " IN ("@
                + query_sql(subquery) + ")"@,
            q == (QueryBuilder { where_clauses: q.where_clauses, ..self }),
    {
        let inner = match subquery.build() {
            Ok(built) => built.0,
            Err(_) => String::new(),
        };
        let mut condition = field.to_owned();
        condition.append(" IN (");
        condition.append(inner.as_str());
        condition.append(")");
        let mut q = self;
        q.where_clauses.push(FilterOperator::Custom(condition));
        assert(q.where_clauses@.drop_last() =~= self.where_clauses@);
        q
    }

    /// Appends ` AS <alias>`, where there is an alias.
    fn push_alias(sql: &mut String, alias: &Option<String>)
        ensures
            final(sql)@ == old(sql)@ + alias_sql(*alias),
    {
        match alias {
            Some(a) => {
                sql.append(" AS ");
                sql.append(a.as_str());
                assert(sql@ =~= old(sql)@ + alias_sql(*alias));
            },
            None => {
                assert(sql@ =~= old(sql)@ + alias_sql(*alias));
            },
        }
    }

    /// Appends ` <keyword> <items joined by commas>`, where there are items.
    fn push_listing(sql: &mut String, keyword: &str, items: &Vec<String>)
        ensures
            final(sql)@ == old(sql)@ + listing_sql(keyword@, views(items@)),
    {
        if items.len() > 0 {
            sql.append(keyword);
            push_joined(sql, items, ", ");
            assert(sql@ =~= old(sql)@ + listing_sql(keyword@, views(items@)));
        } else {
            assert(sql@ =~= old(sql)@ + listing_sql(keyword@, views(items@)));
        }
    }

    /// Appends ` <keyword> <n>`, where there is a number.
    fn push_number(sql: &mut String, keyword: &str, n: Option<u32>)
        ensures
            final(sql)@ == old(sql)@ + number_sql(keyword@, n),
    {
        match n {
            Some(n) => {
                sql.append(keyword);
                push_decimal(sql, n as u64);
                assert(sql@ =~= old(sql)@ + number_sql(keyword@, Some(n)));
            },
            None => {
                assert(sql@ =~= old(sql)@ + number_sql(keyword@, n));
            },
        }
    }

    /// The conditions of a list joined by `AND`, and their parameters.
    fn build_where_clause(filters: &Vec<FilterOperator>) -> (r: Result<(String, Vec<Value>), Error>)
        ensures
            r matches Ok(built) && built.0@ == list_sql(filters@, " AND "@, filters@.len())
                && value_views(built.1@) == list_params(filters@, filters@.len()),
    {
        let mut sql = String::new();
        let mut params: Vec<Value> = Vec::new();
        assert(value_views(params@) =~= Seq::<ValueSpec>::empty());
        let mut k: usize = 0;
        while k < filters.len()
            invariant
                k <= filters@.len(),
                sql@ == list_sql(filters@, " AND "@, k as nat),
                value_views(params@) == list_params(filters@, k as nat),
            decreases filters@.len() - k,
        {
            if k > 0 {
                sql.append(" AND ");
            }
            let (part, more) = match FilterOperations::build_filter_operator(&filters[k]) {
                Ok(built) => built,
                Err(e) => {
                    return Err(e);
                },
            };
            sql.append(part.as_str());
            let ghost before = value_views(params@);
            let mut more = more;
            let ghost added = value_views(more@);
            params.append(&mut more);
            assert(value_views(params@) =~= before + added);
            assert(sql@ =~= list_sql(filters@, " AND "@, (k + 1) as nat));
            k = k + 1;
        }
        Ok((sql, params))
    }

    /// Appends ` <keyword> <conditions>` and the conditions' parameters,
    /// where there are conditions.
    fn push_conditions(
        sql: &mut String,
        params: &mut Vec<Value>,
        keyword: &str,
        filters: &Vec<FilterOperator>,
    ) -> (r: Result<(), Error>)
        ensures
            r is Ok,
            final(sql)@ == old(sql)@ + conditions_sql(keyword@, filters@),
            value_views(final(params)@) == value_views(old(params)@) + list_params(
                filters@,
                filters@.len(),
            ),
    {
        if filters.len() > 0 {
            let (text, more) = match QueryBuilder::build_where_clause(filters) {
                Ok(built) => built,
                Err(e) => {
                    return Err(e);
                },
            };
            sql.append(keyword);
            sql.append(text.as_str());
            let mut more = more;
            let ghost added = value_views(more@);
            params.append(&mut more);
            assert(value_views(params@) =~= value_views(old(params)@) + added);
            assert(sql@ =~= old(sql)@ + conditions_sql(keyword@, filters@));
        } else {
            assert(sql@ =~= old(sql)@ + conditions_sql(keyword@, filters@));
            assert(value_views(params@) =~= value_views(old(params)@) + list_params(filters@, 0));
        }
        Ok(())
    }

    /// Appends what follows the selection: table, joins, conditions,
    /// grouping and conditions on groups, with the parameters.
    fn push_source(&self, sql: &mut String, params: &mut Vec<Value>) -> (r: Result<(), Error>)
        requires
            old(params)@.len() == 0,
        ensures
            r is Ok,
            final(sql)@ == old(sql)@ + source_sql(*self),
            value_views(final(params)@) == query_params(*self),
    {
        sql.append(" FROM ");
        sql.append(self.table.as_str());
        let ghost head = sql@;
        let mut k: usize = 0;
        while k < self.joins.len()
            invariant
                k <= self.joins@.len(),
                sql@ == head + joins_sql(self.joins@, k as nat),
                params@.len() == 0,
            decreases self.joins@.len() - k,
        {
            let join = &self.joins[k];
            let ghost before = sql@;
            sql.append(" ");
            sql.append(join.join_type.as_str());
            sql.append(" ");
            sql.append(join.table.as_str());
            QueryBuilder::push_alias(sql, &join.alias);
            sql.append(" ON ");
            sql.append(join.condition.as_str());
            assert(sql@ =~= before + join_sql(*join));
            assert(sql@ =~= head + joins_sql(self.joins@, (k + 1) as nat));
            k = k + 1;
        }
        assert(value_views(params@) =~= Seq::<ValueSpec>::empty());
        match QueryBuilder::push_conditions(sql, params, " WHERE ", &self.where_clauses) {
            Ok(()) => {},
            Err(e) => {
                return Err(e);
            },
        }
        QueryBuilder::push_listing(sql, " GROUP BY ", &self.group_by);
        match QueryBuilder::push_conditions(sql, params, " HAVING ", &self.having) {
            Ok(()) => {},
            Err(e) => {
                return Err(e);
            },
        }
        assert(sql@ =~= old(sql)@ + source_sql(*self));
        assert(value_views(params@) =~= query_params(*self));
        Ok(())
    }

    /// The text of the query and its parameters. Every query can be built.
    pub fn build(&self) -> (r: Result<(String, Vec<Value>), Error>)
        ensures
            r matches Ok(built) && built.0@ == query_sql(*self) && value_views(built.1@)
                == query_params(*self),
    {
        let mut sql = "SELECT ".to_owned();
        let mut params: Vec<Value> = Vec::new();
        if self.distinct {
            sql.append("DISTINCT ");
        }
        let ghost head = sql@;
        match &self.aggregate {
            Some(agg) => {
                sql.append(agg.function.as_str());
                sql.append("(");
                sql.append(agg.column.as_str());
                sql.append(")");
                QueryBuilder::push_alias(&mut sql, &agg.alias);
            },
            None => {
                push_joined(&mut sql, &self.select_columns, ", ");
            },
        }
        assert(sql@ =~= head + selection_sql(*self));
        match self.push_source(&mut sql, &mut params) {
            Ok(()) => {},
            Err(e) => {
                return Err(e);
            },
        }
        self.push_tail(&mut sql);
        assert(sql@ =~= query_sql(*self));
        Ok((sql, params))
    }

    /// Appends sorting, limit and offset.
    fn push_tail(&self, sql: &mut String)
        ensures
            final(sql)@ == old(sql)@ + tail_sql(*self),
    {
        let mut sorts: Vec<String> = Vec::new();
        let mut k: usize = 0;
        while k < self.order_by.len()
            invariant
                k <= self.order_by@.len(),
                views(sorts@) == sorts_sql(self.order_by@).take(k as int),
            decreases self.order_by@.len() - k,
        {
            let sort = &self.order_by[k];
            let mut text = sort.column.clone();
            text.append(" ");
            text.append(sort.order.as_str());
            proof {
                lemma_views_push(sorts@, text);
            }
            sorts.push(text);
            assert(views(sorts@) =~= sorts_sql(self.order_by@).take(k + 1));
            k = k + 1;
        }
        assert(sorts_sql(self.order_by@).take(self.order_by@.len() as int) =~= sorts_sql(
            self.order_by@,
        ));
        QueryBuilder::push_listing(sql, " ORDER BY ", &sorts);
        QueryBuilder::push_number(sql, " LIMIT ", self.limit);
        QueryBuilder::push_number(sql, " OFFSET ", self.offset);
        assert(sql@ =~= old(sql)@ + tail_sql(*self));
    }

    /// The text and the parameters of the statement that deletes the rows of
    /// this query. Every such statement can be built.
    pub fn build_delete(&self) -> (r: Result<(String, Vec<Value>), Error>)
        ensures
            r matches Ok(built) && built.0@ == delete_query_sql(*self) && value_views(built.1@)
                == query_params(*self),
    {
        let mut sql = "DELETE".to_owned();
        let mut params: Vec<Value> = Vec::new();
        match self.push_source(&mut sql, &mut params) {
            Ok(()) => {},
            Err(e) => {
                return Err(e);
            },
        }
        self.push_tail(&mut sql);
        Ok((sql, params))
    }

    /// The text and the parameters of the query that counts the rows of this
    /// query: selection, sorting, limit and offset are left out. Every count
    /// can be built.
    pub fn build_count(&self) -> (r: Result<(String, Vec<Value>), Error>)
        ensures
            r matches Ok(built) && built.0@ == count_query_sql(*self) && value_views(built.1@)
                == query_params(*self),
    {
        let mut sql = "SELECT COUNT(*)".to_owned();
        let mut params: Vec<Value> = Vec::new();
        match self.push_source(&mut sql, &mut params) {
            Ok(()) => {},
            Err(e) => {
                return Err(e);
            },
        }
        Ok((sql, params))
    }
}

} // verus!
