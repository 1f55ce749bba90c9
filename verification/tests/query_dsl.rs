use orso::error::Error;
use orso::filter_ops::{Filter, FilterOperations, FilterOperator, FilterValue};
use orso::filters::{SearchFilter, Sort};
use orso::query::{QueryBuilder, QueryResult};
use orso::types::{Aggregate, JoinType, Operator, SortOrder};
use orso::value::{
    bool_from_integer, bool_from_lower, bool_from_text, fits_int4, postgres_kind, PostgresKind, Value,
};

fn texts(params: &[Value]) -> Vec<String> {
    params.iter().map(|v| format!("{:?}", v)).collect()
}

#[test]
fn vocabulary_as_sql() {
    assert_eq!(SortOrder::Asc.to_string(), "ASC");
    assert_eq!(SortOrder::Desc.to_string(), "DESC");
    assert_eq!(SortOrder::default(), SortOrder::Asc);
    assert_eq!(Aggregate::Count.to_string(), "COUNT");
    assert_eq!(Aggregate::Sum.to_string(), "SUM");
    assert_eq!(Aggregate::Avg.to_string(), "AVG");
    assert_eq!(Aggregate::Min.to_string(), "MIN");
    assert_eq!(Aggregate::Max.to_string(), "MAX");
    assert_eq!(JoinType::Inner.to_string(), "INNER JOIN");
    assert_eq!(JoinType::Left.to_string(), "LEFT JOIN");
    assert_eq!(JoinType::Right.to_string(), "RIGHT JOIN");
    assert_eq!(JoinType::Full.to_string(), "FULL JOIN");
    let ops = [
        (Operator::Eq, "="),
        (Operator::Ne, "!="),
        (Operator::Lt, "<"),
        (Operator::Le, "<="),
        (Operator::Gt, ">"),
        (Operator::Ge, ">="),
        (Operator::Like, "LIKE"),
        (Operator::NotLike, "NOT LIKE"),
        (Operator::In, "IN"),
        (Operator::NotIn, "NOT IN"),
        (Operator::IsNull, "IS NULL"),
        (Operator::IsNotNull, "IS NOT NULL"),
        (Operator::Between, "BETWEEN"),
        (Operator::NotBetween, "NOT BETWEEN"),
    ];
    for (op, text) in ops {
        assert_eq!(op.to_string(), text);
        assert_eq!(op.as_str(), text);
    }
}

#[test]
fn values_from_plain_values() {
    assert!(matches!(Value::from(5i64), Value::Integer(5)));
    assert!(matches!(Value::from(true), Value::Boolean(true)));
    assert!(matches!(Value::from("x".to_string()), Value::Text(s) if s == "x"));
    assert!(matches!(Value::from(vec![1u8, 2]), Value::Blob(b) if b == vec![1, 2]));
    assert!(matches!(Value::from(Some(5i64)), Value::Integer(5)));
    assert!(matches!(Value::from(None::<i64>), Value::Null));
    assert!(matches!(Value::from(Some(false)), Value::Boolean(false)));
    assert!(matches!(Value::from(None::<bool>), Value::Null));
    assert!(matches!(Value::from(Some("y".to_string())), Value::Text(s) if s == "y"));
    assert!(matches!(Value::from(None::<String>), Value::Null));
    assert!(matches!(Value::from(Some(vec![9u8])), Value::Blob(b) if b == vec![9]));
    assert!(matches!(Value::from(None::<Vec<u8>>), Value::Null));
    assert!(Value::Null.is_null());
    assert!(!Value::Integer(0).is_null());
    assert!(matches!(Value::text("z").clone(), Value::Text(s) if s == "z"));
    assert!(matches!(Value::Real(1.5f64.to_bits()).clone(), Value::Real(b) if f64::from_bits(b) == 1.5));
}

#[test]
fn sorts() {
    let s = Sort::new("name", SortOrder::Desc);
    assert_eq!(s.column, "name");
    assert_eq!(s.order, SortOrder::Desc);
    assert_eq!(Sort::new_bool("a", true).order, SortOrder::Asc);
    assert_eq!(Sort::new_bool("a", false).order, SortOrder::Desc);
    assert_eq!(Sort::asc("a").order, SortOrder::Asc);
    assert_eq!(Sort::desc("a").order, SortOrder::Desc);
    assert_eq!(Sort::desc("a").column, "a");
}

#[test]
fn search_filters() {
    let f = SearchFilter::new("john", vec!["name", "email"]);
    assert_eq!(f.query, "john");
    assert_eq!(f.columns, vec!["name".to_string(), "email".to_string()]);
    assert!(!f.case_sensitive);
    assert!(!f.exact_match);
    let f = f.case_sensitive(true).exact_match(true);
    assert!(f.case_sensitive);
    assert!(f.exact_match);
    assert_eq!(f.columns.len(), 2);
    let f = SearchFilter::new_single_field("name", "jo");
    assert_eq!(f.columns, vec!["name".to_string()]);
    assert_eq!(f.query, "jo");
    let f = SearchFilter::new_multiple_fields(vec!["a", "b", "c"], "q");
    assert_eq!(f.columns.len(), 3);
    assert_eq!(f.query, "q");
}

#[test]
fn search_as_filter() {
    let f = SearchFilter::new_single_field("name", "jo").to_filter_operator();
    let (sql, params) = FilterOperations::build_filter_operator(&f).unwrap();
    assert_eq!(sql, "name LIKE ?");
    assert_eq!(texts(&params), vec!["Text(\"%jo%\")"]);
    let f = SearchFilter::new("jo", vec!["name", "email"]).exact_match(true).to_filter_operator();
    let (sql, params) = FilterOperations::build_filter_operator(&f).unwrap();
    assert_eq!(sql, "(name = ? OR email = ?)");
    assert_eq!(texts(&params), vec!["Text(\"jo\")", "Text(\"jo\")"]);
    let f = SearchFilter::new("jo", Vec::new()).to_filter_operator();
    let (sql, params) = FilterOperations::build_filter_operator(&f).unwrap();
    assert_eq!(sql, "()");
    assert!(params.is_empty());
    let f = SearchFilter::new("jo", vec!["a", "b"]).exact_match(true).to_filter_operator_improved();
    let (sql, params) = FilterOperations::build_filter_operator(&f).unwrap();
    assert_eq!(sql, "(a LIKE ? OR b LIKE ?)");
    assert_eq!(texts(&params), vec!["Text(\"jo\")", "Text(\"jo\")"]);
    let f = SearchFilter::new_single_field("a", "jo").to_filter_operator_improved();
    let (sql, params) = FilterOperations::build_filter_operator(&f).unwrap();
    assert_eq!(sql, "a LIKE ?");
    assert_eq!(texts(&params), vec!["Text(\"%jo%\")"]);
}

#[test]
fn single_filters() {
    let (sql, params) = FilterOperations::build_filter(&Filter::eq("age", Value::Integer(3))).unwrap();
    assert_eq!(sql, "age = ?");
    assert_eq!(texts(&params), vec!["Integer(3)"]);
    let (sql, params) = FilterOperations::build_filter(&Filter::is_null("age")).unwrap();
    assert_eq!(sql, "age IS NULL");
    assert!(params.is_empty());
    let (sql, params) = FilterOperations::build_filter(&Filter::is_not_null("age")).unwrap();
    assert_eq!(sql, "age IS NOT NULL");
    assert!(params.is_empty());
    let f = Filter::in_values("id", vec![Value::Integer(1), Value::Integer(2), Value::Integer(3)]);
    let (sql, params) = FilterOperations::build_filter(&f).unwrap();
    assert_eq!(sql, "id IN (?, ?, ?)");
    assert_eq!(texts(&params), vec!["Integer(1)", "Integer(2)", "Integer(3)"]);
    let (sql, params) = FilterOperations::build_filter(&Filter::not_in_values("id", Vec::new())).unwrap();
    assert_eq!(sql, "id NOT IN ()");
    assert!(params.is_empty());
    let f = Filter::between("age", Value::Integer(1), Value::Integer(9));
    let (sql, params) = FilterOperations::build_filter(&f).unwrap();
    assert_eq!(sql, "age BETWEEN ? AND ?");
    assert_eq!(texts(&params), vec!["Integer(1)", "Integer(9)"]);
    let f = Filter::not_between("age", Value::Integer(1), Value::Integer(9));
    assert_eq!(FilterOperations::build_filter(&f).unwrap().0, "age NOT BETWEEN ? AND ?");
    assert_eq!(FilterOperations::build_filter(&Filter::ne("a", Value::Null)).unwrap().0, "a != ?");
    assert_eq!(FilterOperations::build_filter(&Filter::lt("a", Value::Null)).unwrap().0, "a < ?");
    assert_eq!(FilterOperations::build_filter(&Filter::le("a", Value::Null)).unwrap().0, "a <= ?");
    assert_eq!(FilterOperations::build_filter(&Filter::gt("a", Value::Null)).unwrap().0, "a > ?");
    assert_eq!(FilterOperations::build_filter(&Filter::ge("a", Value::Null)).unwrap().0, "a >= ?");
    assert_eq!(FilterOperations::build_filter(&Filter::like("a", "x%")).unwrap().0, "a LIKE ?");
    assert_eq!(FilterOperations::build_filter(&Filter::not_like("a", "x%")).unwrap().0, "a NOT LIKE ?");
    let f = Filter::new("a", Operator::Eq, FilterValue::Single(Value::Boolean(true)));
    assert_eq!(texts(&FilterOperations::build_filter(&f).unwrap().1), vec!["Boolean(true)"]);
    let f = Filter::new_simple("a", Operator::Gt, Value::Integer(7));
    assert_eq!(FilterOperations::build_filter(&f).unwrap().0, "a > ?");
}

#[test]
fn combined_filters() {
    let a = FilterOperator::Single(Filter::eq("a", Value::Integer(1)));
    let b = FilterOperator::Single(Filter::eq("b", Value::Integer(2)));
    let c = FilterOperator::Single(Filter::eq("c", Value::Integer(3)));
    let d = FilterOperator::Custom("d IS TRUE".to_string());
    let f = FilterOperator::negate(a.and_with(b).and_with(FilterOperator::or(vec![c, d])));
    let (sql, params) = FilterOperations::build_filter_operator(&f).unwrap();
    assert_eq!(sql, "NOT ((a = ? AND b = ? AND (c = ? OR d IS TRUE)))");
    assert_eq!(texts(&params), vec!["Integer(1)", "Integer(2)", "Integer(3)"]);
    let f = FilterOperator::Custom("x".to_string()).or_with(FilterOperator::Custom("y".to_string()));
    let f = f.or_with(FilterOperator::and(Vec::new()));
    assert_eq!(FilterOperations::build_filter_operator(&f).unwrap().0, "(x OR y OR ())");
}

#[test]
fn query_results() {
    let r = QueryResult::new(vec![1, 2, 3]);
    assert_eq!(r.data, vec![1, 2, 3]);
    assert!(r.total.is_none());
    let r = QueryResult::with_total(vec!["a"], 10);
    assert_eq!(r.total, Some(10));
    assert_eq!(r.data.len(), 1);
}

#[test]
fn plain_query() {
    let (sql, params) = QueryBuilder::new("users").build().unwrap();
    assert_eq!(sql, "SELECT * FROM users");
    assert!(params.is_empty());
    let (sql, params) = QueryBuilder::new("users").build_count().unwrap();
    assert_eq!(sql, "SELECT COUNT(*) FROM users");
    assert!(params.is_empty());
}

#[test]
fn full_query() {
    let q = QueryBuilder::new("users")
        .select(vec!["users.id", "orders.total"])
        .distinct(true)
        .join(JoinType::Inner, "orders", "orders.user_id = users.id")
        .join_as(JoinType::Left, "addresses", "a", "a.user_id = users.id")
        ._where(FilterOperator::Single(Filter::gt("age", Value::Integer(18))))
        .with_filter(Filter::in_values("city", vec![Value::text("Rome"), Value::text("Oslo")]))
        .where_condition("active = 1", Vec::new())
        .group_by(vec!["users.id", "orders.total"])
        .having(FilterOperator::Single(Filter::ge("orders.total", Value::Integer(100))))
        .having_condition("COUNT(*) > 1", Vec::new())
        .order_by(Sort::desc("orders.total"))
        .with_sorts(vec![Sort::asc("users.id")])
        .limit(10)
        .offset(20);
    let (sql, params) = q.build().unwrap();
    assert_eq!(
        sql,
        "SELECT DISTINCT users.id, orders.total FROM users INNER JOIN orders ON orders.user_id = users.id LEFT JOIN addresses AS a ON a.user_id = users.id WHERE age > ? AND city IN (?, ?) AND active = 1 GROUP BY users.id, orders.total HAVING orders.total >= ? AND COUNT(*) > 1 ORDER BY orders.total DESC, users.id ASC LIMIT 10 OFFSET 20"
    );
    assert_eq!(texts(&params), vec!["Integer(18)", "Text(\"Rome\")", "Text(\"Oslo\")", "Integer(100)"]);
    let (sql, params) = q.build_count().unwrap();
    assert_eq!(
        sql,
        "SELECT COUNT(*) FROM users INNER JOIN orders ON orders.user_id = users.id LEFT JOIN addresses AS a ON a.user_id = users.id WHERE age > ? AND city IN (?, ?) AND active = 1 GROUP BY users.id, orders.total HAVING orders.total >= ? AND COUNT(*) > 1"
    );
    assert_eq!(params.len(), 4);
}

#[test]
fn aggregate_and_selections() {
    let q = QueryBuilder::new("t").aggregate(Aggregate::Sum, "amount", Some("total"));
    assert_eq!(q.build().unwrap().0, "SELECT SUM(amount) AS total FROM t");
    let q = QueryBuilder::new("t").aggregate(Aggregate::Max, "amount", None);
    assert_eq!(q.build().unwrap().0, "SELECT MAX(amount) FROM t");
    assert_eq!(QueryBuilder::new("t").select_count().build().unwrap().0, "SELECT COUNT(*) FROM t");
    assert_eq!(QueryBuilder::new("t").select_column("a").build().unwrap().0, "SELECT a FROM t");
    assert_eq!(QueryBuilder::new("t").select_columns(&vec!["a", "b"]).build().unwrap().0, "SELECT a, b FROM t");
    assert_eq!(QueryBuilder::new("t").select_column("a").select_all().build().unwrap().0, "SELECT * FROM t");
    assert_eq!(QueryBuilder::new("t").select_aggregate("AVG(x)").build().unwrap().0, "SELECT AVG(x) FROM t");
    assert_eq!(QueryBuilder::new("t").select_distinct("a").build().unwrap().0, "SELECT DISTINCT a FROM t");
    assert_eq!(QueryBuilder::new("t").select(Vec::new()).build().unwrap().0, "SELECT  FROM t");
    assert_eq!(QueryBuilder::new("t").search("name", "jo").build().unwrap().0, "SELECT * FROM t WHERE name LIKE '%jo%'");
    let inner = QueryBuilder::new("orders").select_column("user_id").with_filters(vec![Filter::eq("paid", Value::Boolean(true))]);
    let (sql, params) = QueryBuilder::new("users").where_in("id", inner).build().unwrap();
    assert_eq!(sql, "SELECT * FROM users WHERE id IN (SELECT user_id FROM orders WHERE paid = ?)");
    assert!(params.is_empty());
    let q = QueryBuilder::new("t").order_by_multiple(vec![Sort::asc("a"), Sort::desc("b")]).limit(0).offset(u32::MAX);
    assert_eq!(q.build().unwrap().0, "SELECT * FROM t ORDER BY a ASC, b DESC LIMIT 0 OFFSET 4294967295");
}

#[test]
fn errors_as_text() {
    assert_eq!(Error::Connection("x".to_string()).to_string(), "Connection error: x");
    assert_eq!(Error::Sql("x".to_string()).to_string(), "SQL error: x");
    assert_eq!(Error::Serialization("x".to_string()).to_string(), "Serialization error: x");
    assert_eq!(Error::Validation("x".to_string()).to_string(), "Validation error: x");
    assert_eq!(Error::NotFound("x".to_string()).to_string(), "Not found: x");
    assert_eq!(Error::Pagination("x".to_string()).to_string(), "Pagination error: x");
    assert_eq!(Error::Query("x".to_string()).to_string(), "Query error: x");
    assert_eq!(Error::AnyhowError("x".to_string()).to_string(), "Anyhow error: x");
    assert_eq!(Error::DatabaseError("x".to_string()).to_string(), "Database error: x");
    assert_eq!(Error::Generic("x".to_string()).to_string(), "Error: x");
    assert_eq!(Error::Config("x".to_string()).to_string(), "Configuration error: x");
    assert_eq!(Error::Operations("x".to_string()).to_string(), "Operations error: x");
}

#[test]
fn words_for_truth() {
    for w in ["true", "TRUE", "1", "yes", "Yes", "on", "ON"] {
        assert_eq!(bool_from_text(w), Some(true));
    }
    for w in ["false", "False", "0", "no", "NO", "off"] {
        assert_eq!(bool_from_text(w), Some(false));
    }
    for w in ["", "maybe", "2", " true"] {
        assert_eq!(bool_from_text(w), None);
    }
    assert!(bool_from_integer(5));
    assert!(bool_from_integer(-1));
    assert!(!bool_from_integer(0));
}

#[test]
fn kinds_of_postgres_types() {
    let cases = [
        ("int8", PostgresKind::BigInt),
        ("bigint", PostgresKind::BigInt),
        ("int4", PostgresKind::Integer),
        ("integer", PostgresKind::Integer),
        ("float8", PostgresKind::Double),
        ("double precision", PostgresKind::Double),
        ("text", PostgresKind::Text),
        ("varchar", PostgresKind::Text),
        ("bytea", PostgresKind::Bytes),
        ("bool", PostgresKind::Boolean),
        ("boolean", PostgresKind::Boolean),
        ("timestamp", PostgresKind::Timestamp),
        ("timestamptz", PostgresKind::Timestamp),
        ("_int8", PostgresKind::BigIntArray),
        ("int8[]", PostgresKind::BigIntArray),
        ("_int4", PostgresKind::IntegerArray),
        ("int4[]", PostgresKind::IntegerArray),
        ("_float8", PostgresKind::DoubleArray),
        ("float8[]", PostgresKind::DoubleArray),
        ("vector", PostgresKind::Vector),
        ("uuid", PostgresKind::Other),
        ("TEXT", PostgresKind::Other),
    ];
    for (name, kind) in cases {
        assert_eq!(postgres_kind(name), kind);
    }
}

#[test]
fn words_in_lower_case_for_truth() {
    assert_eq!(bool_from_lower("yes"), Some(true));
    assert_eq!(bool_from_lower("off"), Some(false));
    assert_eq!(bool_from_lower("YES"), None);
    assert!(fits_int4(0));
    assert!(fits_int4(i32::MAX as i64));
    assert!(fits_int4(i32::MIN as i64));
    assert!(!fits_int4(i32::MAX as i64 + 1));
    assert!(!fits_int4(i32::MIN as i64 - 1));
}
