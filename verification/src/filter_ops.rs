//! Filters: conditions on columns, their combinations, and the SQL text
//! with placeholders that they stand for.

use crate::error::Error;
use crate::filters::SearchFilter;
use crate::types::Operator;
use crate::value::{lemma_value_views_push, value_views, Value, ValueSpec};
use vstd::prelude::*;
use vstd::string::*;

verus! {

/// What a filter compares a column with.
#[derive(Debug)]
pub enum FilterValue {
    /// One value.
    Single(Value),
    /// Several values, for `IN` and `NOT IN`.
    Multiple(Vec<Value>),
    /// The two ends of a range, for `BETWEEN` and `NOT BETWEEN`.
    Range(Value, Value),
}

/// One condition on one column.
#[derive(Debug)]
pub struct Filter {
    /// Column name.
    pub column: String,
    pub operator: Operator,
    /// What the column is compared with.
    pub value: FilterValue,
}

/// A combination of conditions.
#[derive(Debug)]
pub enum FilterOperator {
    /// One condition.
    Single(Filter),
    /// All of these.
    And(Vec<FilterOperator>),
    /// Any of these.
    Or(Vec<FilterOperator>),
    /// Not this.
    Not(Box<FilterOperator>),
    /// A condition written in SQL.
    Custom(String),
}

impl Filter {
    /// A condition from its parts.
    pub fn new(column: &str, operator: Operator, value: FilterValue) -> (f: Self)
        ensures
            f.column@ == column@,
            f.operator == operator,
            f.value == value,
    {
        Filter { column: column.to_owned(), operator, value }
    }

    /// A condition that compares the column with one value.
    pub fn new_simple(column: &str, operator: Operator, value: Value) -> (f: Self)
        ensures
            f.column@ == column@,
            f.operator == operator,
            f.value == FilterValue::Single(value),
    {
        Filter { column: column.to_owned(), operator, value: FilterValue::Single(value) }
    }

    /// `column = value`.
    pub fn eq(column: &str, value: Value) -> (f: Self)
        ensures
            f.column@ == column@,
            f.operator == Operator::Eq,
            f.value == FilterValue::Single(value),
    {
        Filter::new(column, Operator::Eq, FilterValue::Single(value))
    }

    /// `column != value`.
    pub fn ne(column: &str, value: Value) -> (f: Self)
        ensures
            f.column@ == column@,
            f.operator == Operator::Ne,
            f.value == FilterValue::Single(value),
    {
        Filter::new(column, Operator::Ne, FilterValue::Single(value))
    }

    /// `column < value`.
    pub fn lt(column: &str, value: Value) -> (f: Self)
        ensures
            f.column@ == column@,
            f.operator == Operator::Lt,
            f.value == FilterValue::Single(value),
    {
        Filter::new(column, Operator::Lt, FilterValue::Single(value))
    }

    /// `column <= value`.
    pub fn le(column: &str, value: Value) -> (f: Self)
        ensures
            f.column@ == column@,
            f.operator == Operator::Le,
            f.value == FilterValue::Single(value),
    {
        Filter::new(column, Operator::Le, FilterValue::Single(value))
    }

    /// `column > value`.
    pub fn gt(column: &str, value: Value) -> (f: Self)
        ensures
            f.column@ == column@,
            f.operator == Operator::Gt,
            f.value == FilterValue::Single(value),
    {
        Filter::new(column, Operator::Gt, FilterValue::Single(value))
    }

    /// `column >= value`.
    pub fn ge(column: &str, value: Value) -> (f: Self)
        ensures
            f.column@ == column@,
            f.operator == Operator::Ge,
            f.value == FilterValue::Single(value),
    {
        Filter::new(column, Operator::Ge, FilterValue::Single(value))
    }

    /// `column LIKE pattern`.
    pub fn like(column: &str, pattern: &str) -> (f: Self)
        ensures
            f.column@ == column@,
            f.operator == Operator::Like,
            f.value matches FilterValue::Single(v) && v@ == ValueSpec::Text(pattern@),
    {
        Filter::new(column, Operator::Like, FilterValue::Single(Value::text(pattern)))
    }

    /// `column NOT LIKE pattern`.
    pub fn not_like(column: &str, pattern: &str) -> (f: Self)
        ensures
            f.column@ == column@,
            f.operator == Operator::NotLike,
            f.value matches FilterValue::Single(v) && v@ == ValueSpec::Text(pattern@),
    {
        Filter::new(column, Operator::NotLike, FilterValue::Single(Value::text(pattern)))
    }

    /// `column IN (values)`.
    pub fn in_values(column: &str, values: Vec<Value>) -> (f: Self)
        ensures
            f.column@ == column@,
            f.operator == Operator::In,
            f.value == FilterValue::Multiple(values),
    {
        Filter::new(column, Operator::In, FilterValue::Multiple(values))
    }

    /// `column NOT IN (values)`.
    pub fn not_in_values(column: &str, values: Vec<Value>) -> (f: Self)
        ensures
            f.column@ == column@,
            f.operator == Operator::NotIn,
            f.value == FilterValue::Multiple(values),
    {
        Filter::new(column, Operator::NotIn, FilterValue::Multiple(values))
    }

    /// `column IS NULL`.
    pub fn is_null(column: &str) -> (f: Self)
        ensures
            f.column@ == column@,
            f.operator == Operator::IsNull,
            f.value == FilterValue::Single(Value::Null),
    {
        Filter::new(column, Operator::IsNull, FilterValue::Single(Value::Null))
    }

    /// `column IS NOT NULL`.
    pub fn is_not_null(column: &str) -> (f: Self)
        ensures
            f.column@ == column@,
            f.operator == Operator::IsNotNull,
            f.value == FilterValue::Single(Value::Null),
    {
        Filter::new(column, Operator::IsNotNull, FilterValue::Single(Value::Null))
    }

    /// `column BETWEEN min AND max`.
    pub fn between(column: &str, min: Value, max: Value) -> (f: Self)
        ensures
            f.column@ == column@,
            f.operator == Operator::Between,
            f.value == FilterValue::Range(min, max),
    {
        Filter::new(column, Operator::Between, FilterValue::Range(min, max))
    }

    /// `column NOT BETWEEN min AND max`.
    pub fn not_between(column: &str, min: Value, max: Value) -> (f: Self)
        ensures
            f.column@ == column@,
            f.operator == Operator::NotBetween,
            f.value == FilterValue::Range(min, max),
    {
        Filter::new(column, Operator::NotBetween, FilterValue::Range(min, max))
    }
}

impl Clone for FilterValue {
    fn clone(&self) -> (copy: Self)
        ensures
            value_sql(copy) == value_sql(*self),
            value_params(copy) == value_params(*self),
    {
        match self {
            FilterValue::Single(v) => FilterValue::Single(v.clone()),
            FilterValue::Multiple(values) => {
                let mut copies: Vec<Value> = Vec::new();
                let mut i: usize = 0;
                while i < values.len()
                    invariant
                        i <= values@.len(),
                        value_views(copies@) == value_views(values@).take(i as int),
                    decreases values@.len() - i,
                {
                    let v = values[i].clone();
                    proof {
                        lemma_value_views_push(copies@, v);
                    }
                    copies.push(v);
                    assert(value_views(copies@) =~= value_views(values@).take(i + 1));
                    i = i + 1;
                }
                assert(value_views(values@).take(values@.len() as int) =~= value_views(values@));
                assert(copies@.len() == value_views(copies@).len());
                assert(values@.len() == value_views(values@).len());
                FilterValue::Multiple(copies)
            },
            FilterValue::Range(min, max) => FilterValue::Range(min.clone(), max.clone()),
        }
    }
}

impl Clone for Filter {
    fn clone(&self) -> (copy: Self)
        ensures
            filter_sql(copy) == filter_sql(*self),
            filter_params(copy) == filter_params(*self),
    {
        Filter { column: self.column.clone(), operator: self.operator, value: self.value.clone() }
    }
}

/// Lists whose members have the same texts and parameters have the same
/// text and parameters.
proof fn lemma_same_lists(a: Seq<FilterOperator>, b: Seq<FilterOperator>, sep: Seq<char>, k: nat)
    requires
        k <= a.len(),
        a.len() == b.len(),
        forall|j: int|
            0 <= j < k ==> operator_sql(#[trigger] a[j]) == operator_sql(b[j]) && operator_params(
                a[j],
            ) == operator_params(b[j]),
    ensures
        list_sql(a, sep, k) == list_sql(b, sep, k),
        list_params(a, k) == list_params(b, k),
    decreases k,
{
    if k > 0 {
        lemma_same_lists(a, b, sep, (k - 1) as nat);
        assert(operator_sql(a[k - 1]) == operator_sql(b[k - 1]));
    }
}

/// Copies of the members of a list, in order.
#[verifier::loop_isolation(false)]
fn copy_operators(list: &Vec<FilterOperator>) -> (copies: Vec<FilterOperator>)
    ensures
        copies@.len() == list@.len(),
        list_sql(copies@, " AND "@, copies@.len()) == list_sql(list@, " AND "@, list@.len()),
        list_sql(copies@, " OR "@, copies@.len()) == list_sql(list@, " OR "@, list@.len()),
        list_params(copies@, copies@.len()) == list_params(list@, list@.len()),
    decreases list, 0nat,
{
    let mut copies: Vec<FilterOperator> = Vec::new();
    let mut k: usize = 0;
    while k < list.len()
        invariant
            k <= list@.len(),
            copies@.len() == k,
            forall|j: int|
                0 <= j < k ==> operator_sql(#[trigger] copies@[j]) == operator_sql(list@[j])
                    && operator_params(copies@[j]) == operator_params(list@[j]),
        decreases list@.len() - k,
    {
        proof {
            vstd::std_specs::vec::axiom_vec_index_decreases(*list, k as int);
        }
        copies.push(copy_operator(&list[k]));
        k = k + 1;
    }
    proof {
        lemma_same_lists(copies@, list@, " AND "@, list@.len());
        lemma_same_lists(copies@, list@, " OR "@, list@.len());
    }
    copies
}

/// A copy of a combination, member by member.
fn copy_operator(filter: &FilterOperator) -> (copy: FilterOperator)
    ensures
        operator_sql(copy) == operator_sql(*filter),
        operator_params(copy) == operator_params(*filter),
    decreases filter, 1nat,
{
    match filter {
        FilterOperator::Single(f) => FilterOperator::Single(f.clone()),
        FilterOperator::And(list) => FilterOperator::And(copy_operators(list)),
        FilterOperator::Or(list) => FilterOperator::Or(copy_operators(list)),
        FilterOperator::Not(inner) => FilterOperator::Not(Box::new(copy_operator(inner))),
        FilterOperator::Custom(condition) => FilterOperator::Custom(condition.clone()),
    }
}

impl Clone for FilterOperator {
    /// A copy that stands for the same SQL text with the same parameters.
    fn clone(&self) -> (copy: Self)
        ensures
            operator_sql(copy) == operator_sql(*self),
            operator_params(copy) == operator_params(*self),
    {
        copy_operator(self)
    }
}

impl FilterOperator {
    /// All of `filters`.
    pub fn and(filters: Vec<FilterOperator>) -> (f: Self)
        ensures
            f == FilterOperator::And(filters),
    {
        FilterOperator::And(filters)
    }

    /// Any of `filters`.
    pub fn or(filters: Vec<FilterOperator>) -> (f: Self)
        ensures
            f == FilterOperator::Or(filters),
    {
        FilterOperator::Or(filters)
    }

    /// Not `filter`.
    pub fn negate(filter: FilterOperator) -> (f: Self)
        ensures
            f == FilterOperator::Not(Box::new(filter)),
    {
        FilterOperator::Not(Box::new(filter))
    }

    /// This and `other`: one more member for a conjunction, a conjunction of
    /// the two for anything else.
    pub fn and_with(self, other: FilterOperator) -> (f: Self)
        ensures
            f matches FilterOperator::And(list) && list@ == match self {
                FilterOperator::And(filters) => filters@.push(other),
                _ => seq![self, other],
            },
    {
        match self {
            FilterOperator::And(filters) => {
                let mut filters = filters;
                filters.push(other);
                FilterOperator::And(filters)
            },
            first => {
                let mut filters: Vec<FilterOperator> = Vec::new();
                filters.push(first);
                filters.push(other);
                assert(filters@ =~= seq![first, other]);
                FilterOperator::And(filters)
            },
        }
    }

    /// This or `other`: one more member for a disjunction, a disjunction of
    /// the two for anything else.
    pub fn or_with(self, other: FilterOperator) -> (f: Self)
        ensures
            f matches FilterOperator::Or(list) && list@ == match self {
                FilterOperator::Or(filters) => filters@.push(other),
                _ => seq![self, other],
            },
    {
        match self {
            FilterOperator::Or(filters) => {
                let mut filters = filters;
                filters.push(other);
                FilterOperator::Or(filters)
            },
            first => {
                let mut filters: Vec<FilterOperator> = Vec::new();
                filters.push(first);
                filters.push(other);
                assert(filters@ =~= seq![first, other]);
                FilterOperator::Or(filters)
            },
        }
    }
}

/// One placeholder for each of `n` values, with commas between.
pub open spec fn placeholders(n: nat) -> Seq<char>
    decreases n,
{
    if n == 0 {
        Seq::empty()
    } else if n == 1 {
        "?"@
    } else {
        placeholders((n - 1) as nat) + ", "@ + "?"@
    }
}

/// The SQL text of what a column is compared with.
pub open spec fn value_sql(value: FilterValue) -> Seq<char> {
    match value {
        FilterValue::Single(_) => "?"@,
        FilterValue::Multiple(values) => "("@ + placeholders(values@.len()) + ")"@,
        FilterValue::Range(_, _) => "? AND ?"@,
    }
}

/// The parameters of what a column is compared with, in the order of their
/// placeholders.
pub open spec fn value_params(value: FilterValue) -> Seq<ValueSpec> {
    match value {
        FilterValue::Single(v) => seq![v@],
        FilterValue::Multiple(values) => value_views(values@),
        FilterValue::Range(min, max) => seq![min@, max@],
    }
}

/// The SQL text of a condition. A null test has no placeholder.
pub open spec fn filter_sql(filter: Filter) -> Seq<char> {
    match filter.operator {
        Operator::IsNull => filter.column@ + " IS NULL"@,
        Operator::IsNotNull => filter.column@ + " IS NOT NULL"@,
        _ => filter.column@ + " "@ + filter.operator.sql() + " "@ + value_sql(filter.value),
    }
}

/// The parameters of a condition. A null test has none.
pub open spec fn filter_params(filter: Filter) -> Seq<ValueSpec> {
    match filter.operator {
        Operator::IsNull => Seq::empty(),
        Operator::IsNotNull => Seq::empty(),
        _ => value_params(filter.value),
    }
}

/// The SQL text of a combination: a conjunction or disjunction in
/// parentheses, a negation as `NOT (..)`, a custom condition as it is.
pub open spec fn operator_sql(filter: FilterOperator) -> Seq<char>
    decreases filter, 0nat,
{
    match filter {
        FilterOperator::Single(f) => filter_sql(f),
        FilterOperator::And(list) => "("@ + list_sql(list@, " AND "@, list@.len()) + ")"@,
        FilterOperator::Or(list) => "("@ + list_sql(list@, " OR "@, list@.len()) + ")"@,
        FilterOperator::Not(inner) => "NOT ("@ + operator_sql(*inner) + ")"@,
        FilterOperator::Custom(condition) => condition@,
    }
}

/// The SQL texts of the first `k` members of a list, with `sep` between.
pub open spec fn list_sql(list: Seq<FilterOperator>, sep: Seq<char>, k: nat) -> Seq<char>
    decreases list, k,
{
    if k == 0 || k > list.len() {
        Seq::empty()
    } else {
        list_sql(list, sep, (k - 1) as nat) + (if k > 1 {
            sep
        } else {
            Seq::empty()
        }) + operator_sql(list[k - 1])
    }
}

/// The parameters of a combination, in the order of their placeholders.
pub open spec fn operator_params(filter: FilterOperator) -> Seq<ValueSpec>
    decreases filter, 0nat,
{
    match filter {
        FilterOperator::Single(f) => filter_params(f),
        FilterOperator::And(list) => list_params(list@, list@.len()),
        FilterOperator::Or(list) => list_params(list@, list@.len()),
        FilterOperator::Not(inner) => operator_params(*inner),
        FilterOperator::Custom(_) => Seq::empty(),
    }
}

/// The parameters of the first `k` members of a list.
pub open spec fn list_params(list: Seq<FilterOperator>, k: nat) -> Seq<ValueSpec>
    decreases list, k,
{
    if k == 0 || k > list.len() {
        Seq::empty()
    } else {
        list_params(list, (k - 1) as nat) + operator_params(list[k - 1])
    }
}

/// Builds SQL from filters.
#[derive(Debug, Clone, Copy)]
pub struct FilterOperations;

/// Appends clones of `values` to `params`.
fn push_values(params: &mut Vec<Value>, values: &Vec<Value>)
    ensures
        value_views(final(params)@) == value_views(old(params)@) + value_views(values@),
{
    let mut i: usize = 0;
    while i < values.len()
        invariant
            i <= values@.len(),
            value_views(params@) == value_views(old(params)@) + value_views(values@).take(i as int),
        decreases values@.len() - i,
    {
        let ghost before = params@;
        let v = values[i].clone();
        proof {
            lemma_value_views_push(before, v);
        }
        params.push(v);
        assert(value_views(params@) =~= value_views(old(params)@) + value_views(values@).take(
            i + 1,
        ));
        i = i + 1;
    }
    assert(value_views(values@).take(values@.len() as int) =~= value_views(values@));
}

/// Appends all of `more` to `params`.
fn append_values(params: &mut Vec<Value>, more: Vec<Value>)
    ensures
        value_views(final(params)@) == value_views(old(params)@) + value_views(more@),
{
    let mut more = more;
    let ghost added = more@;
    params.append(&mut more);
    assert(value_views(params@) =~= value_views(old(params)@) + value_views(added));
}

impl FilterOperations {
    /// The SQL text and the parameters of one condition. Every condition
    /// can be built.
    pub fn build_filter(filter: &Filter) -> (r: Result<(String, Vec<Value>), Error>)
        ensures
            r matches Ok(built) && built.0@ == filter_sql(*filter) && value_views(built.1@)
                == filter_params(*filter),
    {
        let mut sql = filter.column.clone();
        let mut params: Vec<Value> = Vec::new();
        assert(value_views(params@) =~= Seq::<ValueSpec>::empty());
        match filter.operator {
            Operator::IsNull => {
                sql.append(" IS NULL");
            },
            Operator::IsNotNull => {
                sql.append(" IS NOT NULL");
            },
            _ => {
                sql.append(" ");
                sql.append(filter.operator.as_str());
                sql.append(" ");
                match &filter.value {
                    FilterValue::Single(value) => {
                        sql.append("?");
                        params.push(value.clone());
                        assert(value_views(params@) =~= seq![value@]);
                    },
                    FilterValue::Multiple(values) => {
                        sql.append("(");
                        let ghost head = sql@;
                        let mut i: usize = 0;
                        while i < values.len()
                            invariant
                                i <= values@.len(),
                                sql@ == head + placeholders(i as nat),
                            decreases values@.len() - i,
                        {
                            if i > 0 {
                                sql.append(", ");
                            }
                            sql.append("?");
                            assert(sql@ =~= head + placeholders((i + 1) as nat));
                            i = i + 1;
                        }
                        sql.append(")");
                        push_values(&mut params, values);
                        assert(value_views(params@) =~= value_views(values@));
                    },
                    FilterValue::Range(min, max) => {
                        sql.append("? AND ?");
                        params.push(min.clone());
                        params.push(max.clone());
                        assert(value_views(params@) =~= seq![min@, max@]);
                    },
                }
                assert(sql@ =~= filter_sql(*filter));
            },
        }
        Ok((sql, params))
    }

    /// The SQL text and the parameters of a combination of conditions.
    /// Every combination can be built.
    #[verifier::loop_isolation(false)]
    pub fn build_filter_operator(filter: &FilterOperator) -> (r: Result<
        (String, Vec<Value>),
        Error,
    >)
        ensures
            r matches Ok(built) && built.0@ == operator_sql(*filter) && value_views(built.1@)
                == operator_params(*filter),
        decreases filter,
    {
        match filter {
            FilterOperator::Single(f) => FilterOperations::build_filter(f),
            FilterOperator::And(list) => {
                let mut sql = "(".to_owned();
                let mut params: Vec<Value> = Vec::new();
                assert(value_views(params@) =~= Seq::<ValueSpec>::empty());
                let mut k: usize = 0;
                while k < list.len()
                    invariant
                        k <= list@.len(),
                        sql@ == "("@ + list_sql(list@, " AND "@, k as nat),
                        value_views(params@) == list_params(list@, k as nat),
                    decreases list@.len() - k,
                {
                    if k > 0 {
                        sql.append(" AND ");
                    }
                    proof {
                        vstd::std_specs::vec::axiom_vec_index_decreases(*list, k as int);
                    }
                    let (part, more) = match FilterOperations::build_filter_operator(&list[k]) {
                        Ok(built) => built,
                        Err(e) => {
                            return Err(e);
                        },
                    };
                    sql.append(part.as_str());
                    append_values(&mut params, more);
                    assert(sql@ =~= "("@ + list_sql(list@, " AND "@, (k + 1) as nat));
                    k = k + 1;
                }
                sql.append(")");
                Ok((sql, params))
            },
            FilterOperator::Or(list) => {
                let mut sql = "(".to_owned();
                let mut params: Vec<Value> = Vec::new();
                assert(value_views(params@) =~= Seq::<ValueSpec>::empty());
                let mut k: usize = 0;
                while k < list.len()
                    invariant
                        k <= list@.len(),
                        sql@ == "("@ + list_sql(list@, " OR "@, k as nat),
                        value_views(params@) == list_params(list@, k as nat),
                    decreases list@.len() - k,
                {
                    if k > 0 {
                        sql.append(" OR ");
                    }
                    proof {
                        vstd::std_specs::vec::axiom_vec_index_decreases(*list, k as int);
                    }
                    let (part, more) = match FilterOperations::build_filter_operator(&list[k]) {
                        Ok(built) => built,
                        Err(e) => {
                            return Err(e);
                        },
                    };
                    sql.append(part.as_str());
                    append_values(&mut params, more);
                    assert(sql@ =~= "("@ + list_sql(list@, " OR "@, (k + 1) as nat));
                    k = k + 1;
                }
                sql.append(")");
                Ok((sql, params))
            },
            FilterOperator::Not(inner) => {
                let (part, params) = match FilterOperations::build_filter_operator(inner) {
                    Ok(built) => built,
                    Err(e) => {
                        return Err(e);
                    },
                };
                let mut sql = "NOT (".to_owned();
                sql.append(part.as_str());
                sql.append(")");
                Ok((sql, params))
            },
            FilterOperator::Custom(condition) => {
                let params: Vec<Value> = Vec::new();
                assert(value_views(params@) =~= Seq::<ValueSpec>::empty());
                Ok((condition.clone(), params))
            },
        }
    }
}

/// `%query%`: the pattern that matches what contains `query`.
pub open spec fn containing(query: Seq<char>) -> Seq<char> {
    "%"@ + query + "%"@
}

/// Whether `f` is the one condition that `column` is like `pattern`.
pub open spec fn is_like(f: FilterOperator, column: Seq<char>, pattern: Seq<char>) -> bool {
    f matches FilterOperator::Single(filter) && filter.column@ == column && filter.operator
        == Operator::Like && (filter.value matches FilterValue::Single(v) && v@ == ValueSpec::Text(
        pattern,
    ))
}

/// Whether `f` is the one condition that `column` equals the text `query`.
pub open spec fn is_equal(f: FilterOperator, column: Seq<char>, query: Seq<char>) -> bool {
    f matches FilterOperator::Single(filter) && filter.column@ == column && filter.operator
        == Operator::Eq && (filter.value matches FilterValue::Single(v) && v@ == ValueSpec::Text(
        query,
    ))
}

impl SearchFilter {
    /// The condition that this search stands for in column `column`: that
    /// the column equals the query for an exact match, else that it contains
    /// it.
    pub open spec fn matches_column(self, f: FilterOperator, column: Seq<char>) -> bool {
        if self.exact_match {
            is_equal(f, column, self.query@)
        } else {
            is_like(f, column, containing(self.query@))
        }
    }

    /// The condition that this search stands for in column `column` by the
    /// later rule: that the column is like the query for an exact match, else
    /// that it contains it.
    pub open spec fn matches_column_improved(self, f: FilterOperator, column: Seq<char>) -> bool {
        is_like(
            f,
            column,
            if self.exact_match {
                self.query@
            } else {
                containing(self.query@)
            },
        )
    }

    /// The search as a filter: one condition for each column, and where
    /// there is not exactly one column, their disjunction.
    pub fn to_filter_operator(&self) -> (f: FilterOperator)
        ensures
            self.columns@.len() == 1 ==> self.matches_column(f, self.columns@[0]@),
            self.columns@.len() != 1 ==> (f matches FilterOperator::Or(list) && list@.len()
                == self.columns@.len() && forall|i: int|
                0 <= i < list@.len() ==> self.matches_column(
                    #[trigger] list@[i],
                    self.columns@[i]@,
                )),
    {
        let mut filters: Vec<FilterOperator> = Vec::new();
        let mut i: usize = 0;
        while i < self.columns.len()
            invariant
                i <= self.columns@.len(),
                filters@.len() == i,
                forall|j: int|
                    0 <= j < i ==> self.matches_column(#[trigger] filters@[j], self.columns@[j]@),
            decreases self.columns@.len() - i,
        {
            let column = self.columns[i].as_str();
            let filter = if self.exact_match {
                Filter::eq(column, Value::text(self.query.as_str()))
            } else {
                let mut pattern = "%".to_owned();
                pattern.append(self.query.as_str());
                pattern.append("%");
                Filter::like(column, pattern.as_str())
            };
            filters.push(FilterOperator::Single(filter));
            i = i + 1;
        }
        if filters.len() == 1 {
            match filters.pop() {
                Some(only) => only,
                None => FilterOperator::Or(filters),
            }
        } else {
            FilterOperator::Or(filters)
        }
    }

    /// The search as a filter by the later rule, under which an exact match
    /// is a `LIKE` without wildcards. Case sensitivity is left to the query.
    pub fn to_filter_operator_improved(&self) -> (f: FilterOperator)
        ensures
            self.columns@.len() == 1 ==> self.matches_column_improved(f, self.columns@[0]@),
            self.columns@.len() != 1 ==> (f matches FilterOperator::Or(list) && list@.len()
                == self.columns@.len() && forall|i: int|
                0 <= i < list@.len() ==> self.matches_column_improved(
                    #[trigger] list@[i],
                    self.columns@[i]@,
                )),
    {
        let mut filters: Vec<FilterOperator> = Vec::new();
        let mut i: usize = 0;
        while i < self.columns.len()
            invariant
                i <= self.columns@.len(),
                filters@.len() == i,
                forall|j: int|
                    0 <= j < i ==> self.matches_column_improved(
                        #[trigger] filters@[j],
                        self.columns@[j]@,
                    ),
            decreases self.columns@.len() - i,
        {
            let column = self.columns[i].as_str();
            let pattern = if self.exact_match {
                self.query.clone()
            } else {
                let mut pattern = "%".to_owned();
                pattern.append(self.query.as_str());
                pattern.append("%");
                pattern
            };
            filters.push(FilterOperator::Single(Filter::like(column, pattern.as_str())));
            i = i + 1;
        }
        if filters.len() == 1 {
            match filters.pop() {
                Some(only) => only,
                None => FilterOperator::Or(filters),
            }
        } else {
            FilterOperator::Or(filters)
        }
    }
}

} // verus!
