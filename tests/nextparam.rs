use welds::nextparam::NextParam;
use welds::syntax::Syntax;

#[test]
fn pg_should_use_dollar_signs_with_numbers() {
    let mut p = NextParam::new(Syntax::Postgres);
    assert_eq!(p.next(), "$1");
    assert_eq!(p.next(), "$2");
    assert_eq!(p.next(), "$3");
    assert_eq!(p.next(), "$4");
}

#[test]
fn mssql_should_use_at_signs_with_numbers() {
    let mut p = NextParam::new(Syntax::Mssql);
    assert_eq!(p.next(), "@p1");
    assert_eq!(p.next(), "@p2");
    assert_eq!(p.next(), "@p3");
    assert_eq!(p.next(), "@p4");
}

#[test]
fn mysql_should_use_question_marks() {
    let mut p = NextParam::new(Syntax::Mysql);
    assert_eq!(p.next(), "?");
    assert_eq!(p.next(), "?");
    assert_eq!(p.next(), "?");
    assert_eq!(p.next(), "?");
}

#[test]
fn sqlite_should_use_question_marks() {
    let mut p = NextParam::new(Syntax::Sqlite);
    assert_eq!(p.next(), "?");
    assert_eq!(p.next(), "?");
    assert_eq!(p.next(), "?");
    assert_eq!(p.next(), "?");
}

#[test]
fn postgres_placeholders_pass_ten() {
    let mut p = NextParam::new(Syntax::Postgres);
    for _ in 0..9 {
        p.next();
    }
    assert_eq!(p.next(), "$10");
    assert_eq!(p.next(), "$11");
    assert_eq!(p.issued(), 11);
}

#[test]
fn max_params_per_dialect() {
    assert_eq!(NextParam::new(Syntax::Postgres).max_params(), 65535);
    assert_eq!(NextParam::new(Syntax::Sqlite).max_params(), 999);
    assert_eq!(NextParam::new(Syntax::Mysql).max_params(), 64000);
    assert_eq!(NextParam::new(Syntax::Mssql).max_params(), 60);
}

#[test]
fn fresh_sequencer_has_issued_nothing() {
    let p = NextParam::new(Syntax::Mssql);
    assert_eq!(p.issued(), 0);
}
