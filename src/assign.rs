use crate::errors::WeldsError;
use crate::join::views;
use crate::nextparam::{NextParam, ParamState};
use crate::schema::{lookup, Column, Record, Schema};
use crate::syntax::{escape, escaped, placeholder, Syntax};
use crate::value::Value;
use vstd::prelude::*;
use vstd::string::StringExecFns;

verus! {

/// Each column set equal to its placeholder, numbered on from `start`.
pub open spec fn assign_texts(syntax: Syntax, cols: Seq<Column>, start: nat) -> Seq<Seq<char>> {
    cols.map(|k: int, c: Column| escaped(syntax, c.name@) + "="@ + placeholder(syntax, start + k as nat))
}

/// The value held, or NULL.
pub open spec fn value_or_null(o: Option<Value>) -> Value {
    match o {
        Some(v) => v,
        None => Value::Null,
    }
}

/// The values that the row object holds for the columns, in order.
pub open spec fn values_of(fields: Seq<(String, Value)>, cols: Seq<Column>) -> Seq<Value> {
    cols.map_values(|c: Column| value_or_null(lookup(fields, c.name@)))
}

/// The name of the first column that the row object holds no value for.
pub open spec fn missing_in(fields: Seq<(String, Value)>, cols: Seq<Column>) -> Option<Seq<char>>
    decreases cols.len(),
{
    if cols.len() == 0 {
        None
    } else {
        match missing_in(fields, cols.drop_last()) {
            Some(n) => Some(n),
            None => if lookup(fields, cols.last().name@) is None {
                Some(cols.last().name@)
            } else {
                None
            },
        }
    }
}

/// The columns in order, without the primary keys.
pub open spec fn non_key_columns(schema: Schema, cols: Seq<Column>) -> Seq<Column>
    decreases cols.len(),
{
    if cols.len() == 0 {
        Seq::empty()
    } else if schema.is_key(cols.last().name@) {
        non_key_columns(schema, cols.drop_last())
    } else {
        non_key_columns(schema, cols.drop_last()).push(cols.last())
    }
}

/// The table's columns that are not primary keys, in order.
pub fn collect_non_keys(schema: &Schema) -> (r: Vec<Column>)
    ensures
        r@ == non_key_columns(*schema, schema.columns@),
{
    let mut out: Vec<Column> = Vec::new();
    let mut i: usize = 0;
    while i < schema.columns.len()
        invariant
            i <= schema.columns.len(),
            out@ == non_key_columns(*schema, schema.columns@.take(i as int)),
        decreases schema.columns.len() - i,
    {
        proof {
            assert(schema.columns@.take(i + 1).drop_last() =~= schema.columns@.take(i as int));
        }
        if !schema.is_primary_key(&schema.columns[i].name) {
            out.push(schema.columns[i].duplicate());
        }
        i = i + 1;
    }
    proof {
        assert(schema.columns@.take(i as int) =~= schema.columns@);
    }
    out
}

/// Writes each column set equal to the next placeholder and binds the value
/// that the row object holds for it; fails on the first column it holds none for.
pub fn assign_columns(
    cols: &Vec<Column>,
    obj: &Record,
    syntax: Syntax,
    params: &mut NextParam,
    args: &mut Vec<Value>,
) -> (r: Result<Vec<String>, WeldsError>)
    requires
        old(params)@.syntax == syntax,
        old(params)@.counter + cols.len() < usize::MAX,
    ensures
        missing_in(obj.fields@, cols@) matches Some(n) ==> (r matches Err(
            WeldsError::MissingColumn(m),
        ) && m@ == n),
        missing_in(obj.fields@, cols@) is None ==> (r matches Ok(parts) && views(parts@)
            == assign_texts(syntax, cols@, old(params)@.counter) && final(args)@ == old(args)@
            + values_of(obj.fields@, cols@) && final(params)@ == (ParamState {
            syntax,
            counter: old(params)@.counter + cols.len() as nat,
        })),
{
    let ghost start = params@.counter;
    let mut parts: Vec<String> = Vec::new();
    let mut i: usize = 0;
    while i < cols.len()
        invariant
            i <= cols.len(),
            start == old(params)@.counter,
            start + cols.len() < usize::MAX,
            missing_in(obj.fields@, cols@.take(i as int)) is None,
            views(parts@) =~= assign_texts(syntax, cols@.take(i as int), start),
            args@ =~= old(args)@ + values_of(obj.fields@, cols@.take(i as int)),
            params@ == (ParamState { syntax, counter: start + i as nat }),
        decreases cols.len() - i,
    {
        proof {
            assert(cols@.take(i + 1).drop_last() =~= cols@.take(i as int));
        }
        let v = obj.get(&cols[i].name);
        match v {
            None => {
                proof {
                    lemma_missing_prefix(obj.fields@, cols@, i + 1);
                }
                return Err(WeldsError::MissingColumn(cols[i].name.clone()));
            },
            Some(v) => {
                args.push(v);
            },
        }
        let mut s = escape(syntax, cols[i].name.as_str());
        s.append("=");
        let p = params.next();
        s.append(p.as_str());
        let ghost before = parts@;
        parts.push(s);
        proof {
            assert(views(parts@) =~= views(before).push(s@));
            assert(assign_texts(syntax, cols@.take(i + 1), start) =~= assign_texts(
                syntax,
                cols@.take(i as int),
                start,
            ).push(s@));
            assert(values_of(obj.fields@, cols@.take(i + 1)) =~= values_of(
                obj.fields@,
                cols@.take(i as int),
            ).push(value_or_null(lookup(obj.fields@, cols@[i as int].name@))));
        }
        i = i + 1;
    }
    proof {
        assert(cols@.take(i as int) =~= cols@);
    }
    Ok(parts)
}

/// Once a prefix lacks a column, so does every longer prefix, naming the same one.
proof fn lemma_missing_prefix(fields: Seq<(String, Value)>, cols: Seq<Column>, k: int)
    requires
        0 <= k <= cols.len(),
        missing_in(fields, cols.take(k)) is Some,
    ensures
        missing_in(fields, cols) == missing_in(fields, cols.take(k)),
    decreases cols.len() - k,
{
    if k < cols.len() {
        assert(cols.take(k + 1).drop_last() =~= cols.take(k));
        lemma_missing_prefix(fields, cols, k + 1);
    } else {
        assert(cols.take(k) =~= cols);
    }
}

} // verus!
