//! The small closed vocabularies of the query layer, each with the SQL text
//! it stands for.

use vstd::prelude::*;
use vstd::string::*;

verus! {

/// Direction of a sort.
#[derive(Debug, Clone, Copy, PartialEq, Eq, Structural)]
pub enum SortOrder {
    Asc,
    Desc,
}

impl Default for SortOrder {
    fn default() -> (o: Self)
        ensures
            o == SortOrder::Asc,
    {
        SortOrder::Asc
    }
}

impl SortOrder {
    /// The keyword of the direction.
    pub open spec fn sql(self) -> Seq<char> {
        match self {
            SortOrder::Asc => "ASC"@,
            SortOrder::Desc => "DESC"@,
        }
    }

    /// The keyword of the direction.
    pub fn as_str(&self) -> (s: &'static str)
        ensures
            s@ == self.sql(),
    {
        match self {
            SortOrder::Asc => "ASC",
            SortOrder::Desc => "DESC",
        }
    }

    /// The keyword of the direction, as an owned string.
    pub fn to_string(&self) -> (s: String)
        ensures
            s@ == self.sql(),
    {
        self.as_str().to_owned()
    }
}

/// An aggregate function.
#[derive(Debug, Clone, Copy, PartialEq, Eq, Structural)]
pub enum Aggregate {
    Count,
    Sum,
    Avg,
    Min,
    Max,
}

impl Aggregate {
    /// The name of the function.
    pub open spec fn sql(self) -> Seq<char> {
        match self {
            Aggregate::Count => "COUNT"@,
            Aggregate::Sum => "SUM"@,
            Aggregate::Avg => "AVG"@,
            Aggregate::Min => "MIN"@,
            Aggregate::Max => "MAX"@,
        }
    }

    /// The name of the function.
    pub fn as_str(&self) -> (s: &'static str)
        ensures
            s@ == self.sql(),
    {
        match self {
            Aggregate::Count => "COUNT",
            Aggregate::Sum => "SUM",
            Aggregate::Avg => "AVG",
            Aggregate::Min => "MIN",
            Aggregate::Max => "MAX",
        }
    }

    /// The name of the function, as an owned string.
    pub fn to_string(&self) -> (s: String)
        ensures
            s@ == self.sql(),
    {
        self.as_str().to_owned()
    }
}

/// A kind of join.
#[derive(Debug, Clone, Copy, PartialEq, Eq, Structural)]
pub enum JoinType {
    Inner,
    Left,
    Right,
    Full,
}

impl JoinType {
    /// The keywords of the join.
    pub open spec fn sql(self) -> Seq<char> {
        match self {
            JoinType::Inner => "INNER JOIN"@,
            JoinType::Left => "LEFT JOIN"@,
            JoinType::Right => "RIGHT JOIN"@,
            JoinType::Full => "FULL JOIN"@,
        }
    }

    /// The keywords of the join.
    pub fn as_str(&self) -> (s: &'static str)
        ensures
            s@ == self.sql(),
    {
        match self {
            JoinType::Inner => "INNER JOIN",
            JoinType::Left => "LEFT JOIN",
            JoinType::Right => "RIGHT JOIN",
            JoinType::Full => "FULL JOIN",
        }
    }

    /// The keywords of the join, as an owned string.
    pub fn to_string(&self) -> (s: String)
        ensures
            s@ == self.sql(),
    {
        self.as_str().to_owned()
    }
}

/// A comparison operator of a filter.
#[derive(Debug, Clone, Copy, PartialEq, Eq, Structural)]
pub enum Operator {
    Eq,
    Ne,
    Lt,
    Le,
    Gt,
    Ge,
    Like,
    NotLike,
    In,
    NotIn,
    IsNull,
    IsNotNull,
    Between,
    NotBetween,
}

impl Operator {
    /// The operator as written in SQL.
    pub open spec fn sql(self) -> Seq<char> {
        match self {
            Operator::Eq => "="@,
            Operator::Ne => "!="@,
            Operator::Lt => "<"@,
            Operator::Le => "<="@,
            Operator::Gt => ">"@,
            Operator::Ge => ">="@,
            Operator::Like => "LIKE"@,
            Operator::NotLike => "NOT LIKE"@,
            Operator::In => "IN"@,
            Operator::NotIn => "NOT IN"@,
            Operator::IsNull => "IS NULL"@,
            Operator::IsNotNull => "IS NOT NULL"@,
            Operator::Between => "BETWEEN"@,
            Operator::NotBetween => "NOT BETWEEN"@,
        }
    }

    /// The operator as written in SQL.
    pub fn as_str(&self) -> (s: &'static str)
        ensures
            s@ == self.sql(),
    {
        match self {
            Operator::Eq => "=",
            Operator::Ne => "!=",
            Operator::Lt => "<",
            Operator::Le => "<=",
            Operator::Gt => ">",
            Operator::Ge => ">=",
            Operator::Like => "LIKE",
            Operator::NotLike => "NOT LIKE",
            Operator::In => "IN",
            Operator::NotIn => "NOT IN",
            Operator::IsNull => "IS NULL",
            Operator::IsNotNull => "IS NOT NULL",
            Operator::Between => "BETWEEN",
            Operator::NotBetween => "NOT BETWEEN",
        }
    }

    /// The operator as written in SQL, as an owned string.
    pub fn to_string(&self) -> (s: String)
        ensures
            s@ == self.sql(),
    {
        self.as_str().to_owned()
    }
}

} // verus!
