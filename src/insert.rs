use crate::errors::WeldsError;
use crate::join::{join, join_strings, views};
use crate::schema::Column;
use crate::select::{column_refs, write_column_refs};
use crate::syntax::Syntax;
use vstd::prelude::*;
use vstd::string::StringExecFns;

verus! {

/// A column of an INSERT and the placeholder text for its value.
pub struct ColArg(pub String, pub String);

/// The column texts of the pairs.
pub open spec fn colarg_cols(cs: Seq<ColArg>) -> Seq<Seq<char>> {
    cs.map_values(|c: ColArg| c.0@)
}

/// The placeholder texts of the pairs.
pub open spec fn colarg_args(cs: Seq<ColArg>) -> Seq<Seq<char>> {
    cs.map_values(|c: ColArg| c.1@)
}

/// The INSERT of one row that returns the row written, where the dialect's
/// writer provides one.
pub open spec fn insert_text(
    syntax: Syntax,
    identifier: Seq<char>,
    colargs: Seq<ColArg>,
    columns: Seq<Column>,
) -> Option<Seq<char>> {
    let head = "INSERT INTO "@ + identifier + " ("@ + join(colarg_cols(colargs), ", "@) + ")"@;
    let values = "VALUES ("@ + join(colarg_args(colargs), ", "@) + ")"@;
    match syntax {
        Syntax::Postgres => Some(head + " "@ + values + " RETURNING *"@),
        Syntax::Mssql => Some(
            head + " OUTPUT "@ + join(column_refs(syntax, "Inserted"@, columns), ", "@) + " "@
                + values,
        ),
        _ => None,
    }
}

/// A dialect that writes INSERT statements.
pub trait DbInsertWriter {
    /// The text written, or none where the dialect provides no INSERT writer.
    spec fn insert_spec(
        &self,
        identifier: Seq<char>,
        colargs: Seq<ColArg>,
        columns: Seq<Column>,
    ) -> Option<Seq<char>>;

    /// Writes the INSERT of one row into the table `identifier`, returning
    /// the `columns` of the row written.
    fn write(&self, identifier: &str, colargs: &[ColArg], columns: &[Column]) -> (r: Result<
        String,
        WeldsError,
    >)
        ensures
            self.insert_spec(identifier@, colargs@, columns@) is None ==> r == Err::<
                String,
                WeldsError,
            >(WeldsError::UnsupportedOperation),
            self.insert_spec(identifier@, colargs@, columns@) matches Some(t) ==> (r matches Ok(
                s,
            ) && s@ == t),
    ;
}

fn colarg_parts(colargs: &[ColArg], first: bool) -> (r: Vec<String>)
    ensures
        first ==> views(r@) == colarg_cols(colargs@),
        !first ==> views(r@) == colarg_args(colargs@),
{
    let mut out: Vec<String> = Vec::new();
    let mut i: usize = 0;
    while i < colargs.len()
        invariant
            i <= colargs.len(),
            first ==> views(out@) =~= colarg_cols(colargs@.take(i as int)),
            !first ==> views(out@) =~= colarg_args(colargs@.take(i as int)),
        decreases colargs.len() - i,
    {
        let s = if first {
            colargs[i].0.clone()
        } else {
            colargs[i].1.clone()
        };
        let ghost before = out@;
        out.push(s);
        proof {
            assert(views(out@) =~= views(before).push(s@));
            assert(colarg_cols(colargs@.take(i + 1)) =~= colarg_cols(colargs@.take(i as int)).push(
                colargs@[i as int].0@,
            ));
            assert(colarg_args(colargs@.take(i + 1)) =~= colarg_args(colargs@.take(i as int)).push(
                colargs@[i as int].1@,
            ));
        }
        i = i + 1;
    }
    proof {
        assert(colargs@.take(i as int) =~= colargs@);
    }
    out
}

impl DbInsertWriter for Syntax {
    open spec fn insert_spec(
        &self,
        identifier: Seq<char>,
        colargs: Seq<ColArg>,
        columns: Seq<Column>,
    ) -> Option<Seq<char>> {
        insert_text(*self, identifier, colargs, columns)
    }

    fn write(&self, identifier: &str, colargs: &[ColArg], columns: &[Column]) -> (r: Result<
        String,
        WeldsError,
    >) {
        let syntax = *self;
        match syntax {
            Syntax::Postgres => {},
            Syntax::Mssql => {},
            _ => {
                return Err(WeldsError::UnsupportedOperation);
            },
        }
        let cols = colarg_parts(colargs, true);
        let args = colarg_parts(colargs, false);
        let mut out = String::from_str("INSERT INTO ");
        out.append(identifier);
        out.append(" (");
        let col_group = join_strings(&cols, ", ");
        out.append(col_group.as_str());
        out.append(")");
        let ghost head = out@;
        let mut values = String::from_str("VALUES (");
        let arg_group = join_strings(&args, ", ");
        values.append(arg_group.as_str());
        values.append(")");
        if syntax == Syntax::Mssql {
            out.append(" OUTPUT ");
            let returned = write_column_refs(syntax, "Inserted", columns);
            let outputs = join_strings(&returned, ", ");
            out.append(outputs.as_str());
            out.append(" ");
            out.append(values.as_str());
            proof {
                assert(out@ =~= head + " OUTPUT "@ + join(column_refs(syntax, "Inserted"@, columns@), ", "@) + " "@ + values@);
            }
        } else {
            out.append(" ");
            out.append(values.as_str());
            out.append(" RETURNING *");
            proof {
                assert(out@ =~= head + " "@ + values@ + " RETURNING *"@);
            }
        }
        Ok(out)
    }
}

/// Writes INSERT statements for the dialect it was made for.
pub struct InsertWriter {
    pub syntax: Syntax,
}

impl InsertWriter {
    pub fn new(syntax: Syntax) -> (r: Self)
        ensures
            r.syntax == syntax,
    {
        InsertWriter { syntax }
    }

    /// Writes the INSERT of one row into the table `identifier`, returning
    /// the `columns` of the row written; fails where the dialect provides no
    /// INSERT writer.
    pub fn write(&self, identifier: &str, colargs: &[ColArg], columns: &[Column]) -> (r: Result<
        String,
        WeldsError,
    >)
        ensures
            insert_text(self.syntax, identifier@, colargs@, columns@) is None ==> r == Err::<
                String,
                WeldsError,
            >(WeldsError::UnsupportedOperation),
            insert_text(self.syntax, identifier@, colargs@, columns@) matches Some(t) ==> (r matches Ok(
                s,
            ) && s@ == t),
    {
        self.syntax.write(identifier, colargs, columns)
    }
}

} // verus!
