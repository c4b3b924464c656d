use crate::assign::{assign_columns, assign_texts, missing_in, values_of};
use crate::errors::WeldsError;
use crate::join::{join, join_strings};
use crate::nextparam::NextParam;
use crate::schema::{Record, Schema};
use crate::select::Statement;
use crate::syntax::{max_params_of, Syntax};
use crate::value::Value;
use vstd::prelude::*;
use vstd::string::StringExecFns;

verus! {

/// The DELETE of the one row that the primary-key values pick.
pub open spec fn delete_text(schema: Schema, syntax: Syntax) -> Seq<char> {
    "DELETE FROM "@ + schema.table_text() + " where "@ + join(
        assign_texts(syntax, schema.primary_keys@, 1),
        " AND "@,
    )
}

/// The statement that deletes the row `obj` from the table, picked by its
/// primary-key values.
pub fn delete_one(schema: &Schema, obj: &Record, syntax: Syntax) -> (r: Result<
    Statement,
    WeldsError,
>)
    requires
        schema.primary_keys.len() + 1 < usize::MAX,
    ensures
        schema.primary_keys@.len() == 0 ==> r == Err::<Statement, WeldsError>(
            WeldsError::NoPrimaryKey,
        ),
        schema.primary_keys@.len() > 0 ==> (missing_in(obj.fields@, schema.primary_keys@) matches Some(n)
            ==> (r matches Err(WeldsError::MissingColumn(m)) && m@ == n)),
        schema.primary_keys@.len() > 0 && missing_in(obj.fields@, schema.primary_keys@) is None
            && schema.primary_keys@.len() > max_params_of(syntax) ==> r == Err::<
            Statement,
            WeldsError,
        >(WeldsError::ParamLimitExceeded),
        schema.primary_keys@.len() > 0 && missing_in(obj.fields@, schema.primary_keys@) is None
            && schema.primary_keys@.len() <= max_params_of(syntax) ==> (r matches Ok(st) && st.sql@
            == delete_text(*schema, syntax) && st.args@ == values_of(
            obj.fields@,
            schema.primary_keys@,
        )),
{
    if schema.primary_keys.len() == 0 {
        return Err(WeldsError::NoPrimaryKey);
    }
    let mut params = NextParam::new(syntax);
    let mut args: Vec<Value> = Vec::new();
    let wheres = match assign_columns(&schema.primary_keys, obj, syntax, &mut params, &mut args) {
        Ok(parts) => parts,
        Err(e) => {
            return Err(e);
        },
    };
    if args.len() > params.max_params() as usize {
        return Err(WeldsError::ParamLimitExceeded);
    }
    let mut sql = String::from_str("DELETE FROM ");
    let table = schema.table_name();
    sql.append(table.as_str());
    sql.append(" where ");
    let cond = join_strings(&wheres, " AND ");
    sql.append(cond.as_str());
    proof {
        assert(args@ =~= values_of(obj.fields@, schema.primary_keys@));
    }
    Ok(Statement { sql, args })
}

} // verus!
