use crate::decimal::{decimal_string, decimal_text};
use vstd::prelude::*;
use vstd::string::StringExecFns;

verus! {

/// The SQL dialect that a statement is written for.
#[derive(Clone, Copy, Debug, PartialEq, Eq, Structural)]
pub enum Syntax {
    Mysql,
    Postgres,
    Mssql,
    Sqlite,
}

/// The placeholder token for the `i`-th bound parameter (counting from one).
pub open spec fn placeholder(syntax: Syntax, i: nat) -> Seq<char> {
    match syntax {
        Syntax::Postgres => "$"@ + decimal_text(i),
        Syntax::Mssql => "@p"@ + decimal_text(i),
        Syntax::Mysql => "?"@,
        Syntax::Sqlite => "?"@,
    }
}

/// The largest number of bound parameters the dialect accepts in one statement.
pub open spec fn max_params_of(syntax: Syntax) -> u32 {
    match syntax {
        Syntax::Postgres => 65535,
        Syntax::Mssql => 60,
        Syntax::Mysql => 64000,
        Syntax::Sqlite => 999,
    }
}

/// An identifier quoted for the dialect.
pub open spec fn escaped(syntax: Syntax, name: Seq<char>) -> Seq<char> {
    match syntax {
        Syntax::Mysql => "`"@ + name + "`"@,
        _ => "\""@ + name + "\""@,
    }
}

/// Quotes an identifier for the dialect.
pub fn escape(syntax: Syntax, name: &str) -> (r: String)
    ensures
        r@ == escaped(syntax, name@),
{
    let q = match syntax {
        Syntax::Mysql => "`",
        _ => "\"",
    };
    let mut out = String::from_str(q);
    out.append(name);
    out.append(q);
    out
}

pub(crate) fn postgres_next(i: usize) -> (r: String)
    ensures
        r@ == placeholder(Syntax::Postgres, i as nat),
{
    let mut out = String::from_str("$");
    let digits = decimal_string(i);
    out.append(digits.as_str());
    out
}

pub(crate) fn mssql_next(i: usize) -> (r: String)
    ensures
        r@ == placeholder(Syntax::Mssql, i as nat),
{
    let mut out = String::from_str("@p");
    let digits = decimal_string(i);
    out.append(digits.as_str());
    out
}

pub(crate) fn question_mark() -> (r: String)
    ensures
        r@ == placeholder(Syntax::Mysql, 0),
        r@ == placeholder(Syntax::Sqlite, 0),
{
    String::from_str("?")
}

} // verus!
