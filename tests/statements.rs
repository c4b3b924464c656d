use welds::alias::TableAlias;
use welds::clause::{Clause, ClauseColVal, Operator};
use welds::delete::delete_one;
use welds::errors::WeldsError;
use welds::insert::{ColArg, DbInsertWriter, InsertWriter};
use welds::nextparam::NextParam;
use welds::schema::{Column, Record, Schema};
use welds::select::QueryBuilder;
use welds::subquery::ExistIn;
use welds::syntax::{escape, Syntax};
use welds::text::{Text, TextOpt};
use welds::update::{update_one, UpdateBuilder};
use welds::value::Value;

fn col(name: &str) -> Column {
    Column::new(name.to_string(), "text".to_string(), false)
}

fn things() -> Schema {
    Schema::new(
        vec!["things".to_string()],
        vec![col("id"), col("name")],
        vec![col("id")],
    )
}

fn keyless() -> Schema {
    Schema::new(vec!["logs".to_string()], vec![col("msg")], vec![])
}

fn row(id: i64, name: &str) -> Record {
    Record::new(vec![
        ("id".to_string(), Value::Int(id)),
        ("name".to_string(), Value::Text(name.to_string())),
    ])
}

#[test]
fn absent_value_renders_null_tests() {
    let mut p = NextParam::new(Syntax::Postgres);
    let mut args = Vec::new();
    let ops: Vec<Clause> = vec![
        TextOpt::new("name".to_string(), "name".to_string()).equal(None),
        TextOpt::new("name".to_string(), "name".to_string()).like(None),
        TextOpt::new("name".to_string(), "name".to_string()).not_ilike(None),
        TextOpt::new("name".to_string(), "name".to_string()).not_equal(None),
    ];
    let texts: Vec<String> = ops.iter().map(|c| c.render(Syntax::Postgres, "t1", &mut p)).collect();
    for c in &ops {
        c.bind(&mut args);
    }
    assert_eq!(texts[0], "t1.\"name\" IS NULL");
    assert_eq!(texts[1], "t1.\"name\" IS NULL");
    assert_eq!(texts[2], "t1.\"name\" IS NOT NULL");
    assert_eq!(texts[3], "t1.\"name\" IS NOT NULL");
    assert!(args.is_empty());
    assert_eq!(p.issued(), 0);
}

#[test]
fn operators_render_with_placeholders() {
    let mut p = NextParam::new(Syntax::Postgres);
    let c = Text::new("name".to_string(), "name".to_string()).not_like("a%".to_string());
    assert_eq!(c.render(Syntax::Postgres, "t1", &mut p), "t1.\"name\" not like $1");
    let c = Text::new("name".to_string(), "name".to_string()).ilike("b%".to_string());
    assert_eq!(c.render(Syntax::Postgres, "t1", &mut p), "t1.\"name\" ilike $2");
    let c = TextOpt::new("name".to_string(), "name".to_string()).not_equal(Some("c".to_string()));
    assert_eq!(c.render(Syntax::Postgres, "t1", &mut p), "t1.\"name\" != $3");
    let mut args = Vec::new();
    c.bind(&mut args);
    assert_eq!(args, vec![Value::Text("c".to_string())]);
}

#[test]
fn text_field_names() {
    let t = Text::new("product_name".to_string(), "name".to_string());
    assert_eq!(t.colname(), "product_name");
    assert_eq!(t.fieldname(), "name");
    match t.equal("x".to_string()) {
        Clause::ColVal(ClauseColVal { col, operator, not_clause, val }) => {
            assert_eq!(col, "product_name");
            assert_eq!(operator, Operator::Equal);
            assert!(!not_clause);
            assert_eq!(val, Some(Value::Text("x".to_string())));
        }
        _ => panic!("expected a comparison"),
    }
}

#[test]
fn mysql_quotes_with_backticks() {
    assert_eq!(escape(Syntax::Mysql, "id"), "`id`");
    assert_eq!(escape(Syntax::Sqlite, "id"), "\"id\"");
}

#[test]
fn select_with_filters_and_tail() {
    let q = QueryBuilder::new(things())
        .where_col(Text::new("name".to_string(), "name".to_string()).equal("bob".to_string()))
        .where_col(TextOpt::new("name".to_string(), "name".to_string()).not_equal(None))
        .limit(10)
        .offset(20);
    assert_eq!(
        q.to_sql(Syntax::Postgres),
        "SELECT t1.\"id\", t1.\"name\" FROM things t1 WHERE ( t1.\"name\" = $1 AND t1.\"name\" IS NOT NULL ) LIMIT 10 OFFSET 20"
    );
    assert_eq!(
        q.count_sql(Syntax::Mssql),
        "SELECT COUNT(*) FROM things t1 WHERE ( t1.\"name\" = @p1 AND t1.\"name\" IS NOT NULL ) ORDER BY (SELECT NULL) OFFSET 20 ROWS FETCH NEXT 10 ROWS ONLY"
    );
    let st = q.select_statement(Syntax::Sqlite).unwrap();
    assert_eq!(st.args, vec![Value::Text("bob".to_string())]);
}

#[test]
fn select_without_filters() {
    let q = QueryBuilder::new(things());
    assert_eq!(q.to_sql(Syntax::Mysql), "SELECT t1.`id`, t1.`name` FROM things t1");
    let st = q.count_statement(Syntax::Mysql).unwrap();
    assert_eq!(st.sql, "SELECT COUNT(*) FROM things t1");
    assert!(st.args.is_empty());
}

#[test]
fn schema_qualified_table_name() {
    let s = Schema::new(
        vec!["public".to_string(), "things".to_string()],
        vec![col("id")],
        vec![col("id")],
    );
    assert_eq!(s.table_name(), "public.things");
    assert!(s.is_primary_key(&"id".to_string()));
    assert!(!s.is_primary_key(&"name".to_string()));
}

#[test]
fn compiling_twice_is_identical() {
    let q = QueryBuilder::new(things())
        .where_col(Text::new("name".to_string(), "name".to_string()).like("a%".to_string()));
    let a = q.select_statement(Syntax::Postgres).unwrap();
    let b = q.select_statement(Syntax::Postgres).unwrap();
    assert_eq!(a.sql, b.sql);
    assert_eq!(a.args, b.args);
}

#[test]
fn delete_one_by_primary_key() {
    let rec = Record::new(vec![("id".to_string(), Value::Int(7))]);
    let st = delete_one(&things(), &rec, Syntax::Postgres).unwrap();
    assert_eq!(st.sql, "DELETE FROM things where \"id\"=$1");
    assert_eq!(st.args, vec![Value::Int(7)]);
}

#[test]
fn delete_one_without_primary_key_fails() {
    let rec = Record::new(vec![("msg".to_string(), Value::Null)]);
    assert!(matches!(delete_one(&keyless(), &rec, Syntax::Postgres), Err(WeldsError::NoPrimaryKey)));
}

#[test]
fn delete_one_with_missing_key_value_fails() {
    let rec = Record::new(vec![("name".to_string(), Value::Null)]);
    match delete_one(&things(), &rec, Syntax::Sqlite) {
        Err(WeldsError::MissingColumn(name)) => assert_eq!(name, "id"),
        _ => panic!("expected a missing column"),
    }
}

#[test]
fn update_one_sets_non_keys_then_filters_by_key() {
    let st = update_one(&things(), &row(7, "bob"), Syntax::Mssql).unwrap().unwrap();
    assert_eq!(st.sql, "UPDATE things SET \"name\"=@p1 where \"id\"=@p2");
    assert_eq!(st.args, vec![Value::Text("bob".to_string()), Value::Int(7)]);
}

#[test]
fn update_one_with_only_keys_issues_nothing() {
    let s = Schema::new(vec!["tags".to_string()], vec![col("id")], vec![col("id")]);
    let rec = Record::new(vec![("id".to_string(), Value::Int(1))]);
    assert!(matches!(update_one(&s, &rec, Syntax::Postgres), Ok(None)));
}

#[test]
fn update_one_errors() {
    let rec = Record::new(vec![("msg".to_string(), Value::Null)]);
    assert!(matches!(update_one(&keyless(), &rec, Syntax::Postgres), Err(WeldsError::NoPrimaryKey)));
    let rec = Record::new(vec![("id".to_string(), Value::Int(1))]);
    match update_one(&things(), &rec, Syntax::Postgres) {
        Err(WeldsError::MissingColumn(name)) => assert_eq!(name, "name"),
        _ => panic!("expected a missing column"),
    }
}

#[test]
fn update_one_over_param_limit() {
    let mut cols = vec![col("id")];
    let mut fields = vec![("id".to_string(), Value::Int(1))];
    for i in 0..60 {
        let n = format!("c{}", i);
        cols.push(col(&n));
        fields.push((n, Value::Int(i)));
    }
    let s = Schema::new(vec!["wide".to_string()], cols, vec![col("id")]);
    let rec = Record::new(fields);
    assert!(matches!(update_one(&s, &rec, Syntax::Mssql), Err(WeldsError::ParamLimitExceeded)));
    assert!(matches!(update_one(&s, &rec, Syntax::Postgres), Ok(Some(_))));
}

#[test]
fn bulk_update_without_limit() {
    let q = QueryBuilder::new(things())
        .where_col(Text::new("name".to_string(), "name".to_string()).equal("bob".to_string()));
    let u = UpdateBuilder::new(q)
        .set("name".to_string(), Value::Text("al".to_string()))
        .set_null("id".to_string());
    let st = u.statement(Syntax::Postgres).unwrap();
    assert_eq!(
        st.sql,
        "UPDATE things SET \"name\"=$1, \"id\"=NULL WHERE ( things.\"name\" = $2 )"
    );
    assert_eq!(
        st.args,
        vec![Value::Text("al".to_string()), Value::Text("bob".to_string())]
    );
}

#[test]
fn bulk_update_with_limit_uses_where_in() {
    let q = QueryBuilder::new(things())
        .where_col(Text::new("name".to_string(), "name".to_string()).equal("bob".to_string()))
        .limit(5);
    let u = UpdateBuilder::new(q).set_col(
        Text::new("name".to_string(), "name".to_string()).equal("al".to_string()),
    );
    assert_eq!(
        u.to_sql(Syntax::Postgres).unwrap(),
        "UPDATE things SET things.\"name\" = $1 WHERE ( things.\"id\" IN (SELECT t1.\"id\" FROM things t1 WHERE ( t1.\"name\" = $2 ) LIMIT 5) )"
    );
    let st = u.statement(Syntax::Postgres).unwrap();
    assert_eq!(
        st.args,
        vec![Value::Text("al".to_string()), Value::Text("bob".to_string())]
    );
}

#[test]
fn bulk_update_with_limit_needs_a_key() {
    let q = QueryBuilder::new(keyless()).limit(1);
    let u = UpdateBuilder::new(q).set("msg".to_string(), Value::Bool(true));
    assert!(matches!(u.to_sql(Syntax::Sqlite), Err(WeldsError::NoPrimaryKey)));
    let q = QueryBuilder::new(keyless());
    let u = UpdateBuilder::new(q).set("msg".to_string(), Value::Bool(true));
    assert_eq!(u.to_sql(Syntax::Sqlite).unwrap(), "UPDATE logs SET \"msg\"=?");
}

#[test]
fn insert_per_dialect() {
    let colargs = vec![
        ColArg("id".to_string(), "$1".to_string()),
        ColArg("name".to_string(), "$2".to_string()),
    ];
    let cols = vec![col("id"), col("name")];
    let w = InsertWriter::new(Syntax::Postgres);
    assert_eq!(
        w.write("things", &colargs, &cols).unwrap(),
        "INSERT INTO things (id, name) VALUES ($1, $2) RETURNING *"
    );
    assert_eq!(
        Syntax::Mssql.write("things", &colargs, &cols).unwrap(),
        "INSERT INTO things (id, name) OUTPUT Inserted.\"id\", Inserted.\"name\" VALUES ($1, $2)"
    );
    assert!(matches!(
        InsertWriter::new(Syntax::Sqlite).write("things", &colargs, &cols),
        Err(WeldsError::UnsupportedOperation)
    ));
    assert!(matches!(
        InsertWriter::new(Syntax::Mysql).write("things", &colargs, &cols),
        Err(WeldsError::UnsupportedOperation)
    ));
}

#[test]
fn table_aliases_are_sequential() {
    let mut a = TableAlias::new();
    assert_eq!(a.peek(), "t1");
    assert_eq!(a.next(), "t1");
    assert_eq!(a.next(), "t2");
    assert_eq!(a.peek(), "t3");
}

#[test]
fn placeholders_match_arguments_in_order() {
    let q = QueryBuilder::new(things())
        .where_col(Text::new("name".to_string(), "name".to_string()).equal("a".to_string()))
        .where_col(TextOpt::new("name".to_string(), "name".to_string()).like(None))
        .where_col(Text::new("id".to_string(), "id".to_string()).not_equal("b".to_string()));
    let u = UpdateBuilder::new(q)
        .set_null("name".to_string())
        .set("id".to_string(), Value::Int(3));
    let st = u.statement(Syntax::Mssql).unwrap();
    assert_eq!(st.sql.matches("@p").count(), st.args.len());
    let first = st.sql.find("@p1").unwrap();
    let second = st.sql.find("@p2").unwrap();
    let third = st.sql.find("@p3").unwrap();
    assert!(first < second && second < third);
    assert_eq!(
        st.args,
        vec![
            Value::Int(3),
            Value::Text("a".to_string()),
            Value::Text("b".to_string())
        ]
    );
}

fn orders() -> Schema {
    Schema::new(
        vec!["orders".to_string()],
        vec![col("id"), col("thing_id"), col("status")],
        vec![col("id")],
    )
}

#[test]
fn select_with_exists_takes_fresh_aliases() {
    let open = ExistIn::new(orders(), "id".to_string(), "thing_id".to_string(), false)
        .where_col(Text::new("status".to_string(), "status".to_string()).equal("open".to_string()));
    let none = ExistIn::new(orders(), "id".to_string(), "thing_id".to_string(), true);
    let q = QueryBuilder::new(things())
        .where_col(Text::new("name".to_string(), "name".to_string()).equal("bob".to_string()))
        .where_exists(open)
        .where_exists(none);
    let st = q.select_statement(Syntax::Postgres).unwrap();
    assert_eq!(
        st.sql,
        "SELECT t1.\"id\", t1.\"name\" FROM things t1 WHERE ( t1.\"name\" = $1 AND EXISTS ( SELECT 1 FROM orders t2 WHERE t2.\"thing_id\" = t1.\"id\" AND t2.\"status\" = $2 ) AND NOT EXISTS ( SELECT 1 FROM orders t3 WHERE t3.\"thing_id\" = t1.\"id\" ) )"
    );
    assert_eq!(
        st.args,
        vec![Value::Text("bob".to_string()), Value::Text("open".to_string())]
    );
}

#[test]
fn limited_bulk_update_with_exists() {
    let e = ExistIn::new(orders(), "id".to_string(), "thing_id".to_string(), false)
        .where_col(Text::new("status".to_string(), "status".to_string()).equal("open".to_string()));
    let q = QueryBuilder::new(things()).where_exists(e).limit(5);
    let u = UpdateBuilder::new(q).set("name".to_string(), Value::Null);
    let st = u.statement(Syntax::Postgres).unwrap();
    assert_eq!(
        st.sql,
        "UPDATE things SET \"name\"=$1 WHERE ( things.\"id\" IN (SELECT t1.\"id\" FROM things t1 WHERE ( EXISTS ( SELECT 1 FROM orders t2 WHERE t2.\"thing_id\" = t1.\"id\" AND t2.\"status\" = $2 ) ) LIMIT 5) )"
    );
    assert_eq!(st.args, vec![Value::Null, Value::Text("open".to_string())]);
}

#[test]
fn unlimited_bulk_update_with_exists() {
    let e = ExistIn::new(orders(), "id".to_string(), "thing_id".to_string(), true);
    let q = QueryBuilder::new(things()).where_exists(e);
    let u = UpdateBuilder::new(q).set_null("name".to_string());
    assert_eq!(
        u.to_sql(Syntax::Mysql).unwrap(),
        "UPDATE things SET `name`=NULL WHERE ( NOT EXISTS ( SELECT 1 FROM orders t1 WHERE t1.`thing_id` = things.`id` ) )"
    );
}

#[test]
fn select_sorted_and_paged() {
    let q = QueryBuilder::new(things())
        .order_by_desc("name".to_string())
        .order_by_asc("id".to_string())
        .limit(3);
    assert_eq!(
        q.to_sql(Syntax::Postgres),
        "SELECT t1.\"id\", t1.\"name\" FROM things t1 ORDER BY t1.\"name\" DESC, t1.\"id\" ASC LIMIT 3"
    );
    assert_eq!(
        q.to_sql(Syntax::Mssql),
        "SELECT t1.\"id\", t1.\"name\" FROM things t1 ORDER BY t1.\"name\" DESC, t1.\"id\" ASC OFFSET 0 ROWS FETCH NEXT 3 ROWS ONLY"
    );
    let unsorted = QueryBuilder::new(things()).order_by_asc("id".to_string());
    assert_eq!(
        unsorted.to_sql(Syntax::Sqlite),
        "SELECT t1.\"id\", t1.\"name\" FROM things t1 ORDER BY t1.\"id\" ASC"
    );
}
