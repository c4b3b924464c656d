use crate::alias::{alias_name, TableAlias};
use crate::assign::{
    assign_columns,
    assign_texts,
    collect_non_keys,
    missing_in,
    non_key_columns,
    values_of,
};
use crate::clause::{
    all_args,
    all_texts,
    column_ref,
    lemma_args_len,
    render_clauses,
    where_of,
    Clause,
    SetColNull,
    SetColVal,
};
use crate::subquery::exists_size;
use crate::errors::WeldsError;
use crate::join::{join, join_strings};
use crate::nextparam::{NextParam, ParamState};
use crate::schema::{Column, Record, Schema};
use crate::select::{append_part, then_part, QueryBuilder, Statement};
use crate::syntax::{escape, max_params_of, Syntax};
use crate::value::Value;
use vstd::prelude::*;
use vstd::string::StringExecFns;

verus! {

/// Dropping the keys keeps no more columns than there were.
pub proof fn lemma_non_keys_len(schema: Schema, cols: Seq<Column>)
    ensures
        non_key_columns(schema, cols).len() <= cols.len(),
    decreases cols.len(),
{
    if cols.len() > 0 {
        lemma_non_keys_len(schema, cols.drop_last());
    }
}

/// The UPDATE of one row: every column that is not a key set to its value,
/// the row picked by its primary-key values.
pub open spec fn update_one_text(schema: Schema, syntax: Syntax) -> Seq<char> {
    let nk = non_key_columns(schema, schema.columns@);
    "UPDATE "@ + schema.table_text() + " SET "@ + join(assign_texts(syntax, nk, 1), ", "@)
        + " where "@ + join(assign_texts(syntax, schema.primary_keys@, 1 + nk.len()), " AND "@)
}

/// The values that the UPDATE of one row binds: those of the columns that are
/// not keys, then those of the keys.
pub open spec fn update_one_args(schema: Schema, fields: Seq<(String, Value)>) -> Seq<Value> {
    values_of(fields, non_key_columns(schema, schema.columns@)) + values_of(
        fields,
        schema.primary_keys@,
    )
}

/// The statement that writes the row `obj` back to the table, or none when the
/// table has no column besides its keys.
pub fn update_one(schema: &Schema, obj: &Record, syntax: Syntax) -> (r: Result<
    Option<Statement>,
    WeldsError,
>)
    requires
        schema.columns.len() + schema.primary_keys.len() + 1 < usize::MAX,
    ensures
        ({
            let nk = non_key_columns(*schema, schema.columns@);
            let pks = schema.primary_keys@;
            let f = obj.fields@;
            &&& pks.len() == 0 ==> r == Err::<Option<Statement>, WeldsError>(
                WeldsError::NoPrimaryKey,
            )
            &&& pks.len() > 0 ==> (missing_in(f, nk) matches Some(n) ==> (r matches Err(
                WeldsError::MissingColumn(m),
            ) && m@ == n))
            &&& pks.len() > 0 && missing_in(f, nk) is None && nk.len() == 0 ==> r == Ok::<
                Option<Statement>,
                WeldsError,
            >(None)
            &&& pks.len() > 0 && missing_in(f, nk) is None && nk.len() > 0 ==> (missing_in(
                f,
                pks,
            ) matches Some(n) ==> (r matches Err(WeldsError::MissingColumn(m)) && m@ == n))
            &&& pks.len() > 0 && nk.len() > 0 && missing_in(f, nk) is None && missing_in(f, pks) is None
                && nk.len() + pks.len() > max_params_of(syntax) ==> r == Err::<
                Option<Statement>,
                WeldsError,
            >(WeldsError::ParamLimitExceeded)
            &&& pks.len() > 0 && nk.len() > 0 && missing_in(f, nk) is None && missing_in(f, pks) is None
                && nk.len() + pks.len() <= max_params_of(syntax) ==> (r matches Ok(Some(st))
                && st.sql@ == update_one_text(*schema, syntax) && st.args@ == update_one_args(
                *schema,
                f,
            ))
        }),
{
    if schema.primary_keys.len() == 0 {
        return Err(WeldsError::NoPrimaryKey);
    }
    let non_keys = collect_non_keys(schema);
    proof {
        lemma_non_keys_len(*schema, schema.columns@);
    }
    let mut params = NextParam::new(syntax);
    let mut args: Vec<Value> = Vec::new();
    let sets = match assign_columns(&non_keys, obj, syntax, &mut params, &mut args) {
        Ok(parts) => parts,
        Err(e) => {
            return Err(e);
        },
    };
    if non_keys.len() == 0 {
        return Ok(None);
    }
    let wheres = match assign_columns(&schema.primary_keys, obj, syntax, &mut params, &mut args) {
        Ok(parts) => parts,
        Err(e) => {
            return Err(e);
        },
    };
    if args.len() > params.max_params() as usize {
        return Err(WeldsError::ParamLimitExceeded);
    }
    let mut sql = String::from_str("UPDATE ");
    let table = schema.table_name();
    sql.append(table.as_str());
    sql.append(" SET ");
    let set_list = join_strings(&sets, ", ");
    sql.append(set_list.as_str());
    sql.append(" where ");
    let cond = join_strings(&wheres, " AND ");
    sql.append(cond.as_str());
    proof {
        assert(args@ =~= update_one_args(*schema, obj.fields@));
    }
    Ok(Some(Statement { sql, args }))
}

/// An un-executed UPDATE of every row that a query picks: its assignments,
/// and the query whose filters, limit and offset pick the rows.
pub struct UpdateBuilder {
    pub query_builder: QueryBuilder,
    pub sets: Vec<Clause>,
}

/// The subquery that takes the limited row set, the table under `alias`: its
/// primary key, then the query's conditions and tail, the tests taking the
/// aliases from the second on.
pub open spec fn key_subquery_text(
    q: QueryBuilder,
    syntax: Syntax,
    key: Seq<char>,
    alias: Seq<char>,
    start: nat,
) -> Seq<char> {
    then_part(
        "SELECT "@ + column_ref(syntax, alias, key) + " FROM "@ + q.schema.table_text() + " "@
            + alias,
        q.body_text(syntax, alias, 2, start),
    )
}

/// The WHERE section that keeps the rows whose primary key the subquery takes.
pub open spec fn where_in_text(q: QueryBuilder, syntax: Syntax, key: Seq<char>, start: nat) -> Seq<
    char,
> {
    "WHERE ( "@ + column_ref(syntax, q.schema.table_text(), key) + " IN ("@ + key_subquery_text(
        q,
        syntax,
        key,
        alias_name(1),
        start,
    ) + ") )"@
}

impl UpdateBuilder {
    /// The head: the table and its assignments, under the table's own name.
    pub open spec fn head_text(&self, syntax: Syntax) -> Seq<char> {
        let table = self.query_builder.schema.table_text();
        "UPDATE "@ + table + " SET "@ + join(all_texts(self.sets@, syntax, table, 1), ", "@)
    }

    /// The filter: the query's own WHERE section, or, where the query has a
    /// limit, a test of the first primary key against the limited row set.
    pub open spec fn filter_text(&self, syntax: Syntax) -> Seq<char> {
        let q = self.query_builder;
        let start = 1 + all_args(self.sets@).len();
        if q.limit is None {
            where_of(q.filter_parts(syntax, q.schema.table_text(), 1, start))
        } else {
            where_in_text(q, syntax, q.schema.primary_keys@[0].name@, start)
        }
    }

    /// The text of the UPDATE.
    pub open spec fn update_text(&self, syntax: Syntax) -> Seq<char> {
        then_part(self.head_text(syntax), self.filter_text(syntax))
    }

    /// The values the UPDATE binds: those of the assignments, then those of the filters.
    pub open spec fn args_spec(&self) -> Seq<Value> {
        all_args(self.sets@) + self.query_builder.args_spec()
    }

    /// Whether the statement's counts fit the machine word.
    pub open spec fn fits(&self) -> bool {
        self.sets@.len() + self.query_builder.wheres@.len() + exists_size(
            self.query_builder.exist_ins@,
        ) + self.query_builder.exist_ins@.len() + 3 < usize::MAX
    }

    /// Whether the UPDATE needs a primary key that the table lacks.
    pub open spec fn lacks_key(&self) -> bool {
        self.query_builder.limit is Some && self.query_builder.schema.primary_keys@.len() == 0
    }

    /// An UPDATE, with no assignments yet, of the rows that the query picks.
    pub fn new(query_builder: QueryBuilder) -> (r: Self)
        ensures
            r.query_builder == query_builder,
            r.sets@ == Seq::<Clause>::empty(),
    {
        UpdateBuilder { query_builder, sets: Vec::new() }
    }

    /// Sets the column to the value.
    pub fn set(self, col: String, val: Value) -> (r: Self)
        ensures
            r.query_builder == self.query_builder,
            r.sets@ == self.sets@.push(Clause::SetVal(SetColVal { col_raw: col, val })),
    {
        let mut u = self;
        u.sets.push(Clause::SetVal(SetColVal { col_raw: col, val }));
        u
    }

    /// Adds an assignment written as a clause of its own.
    pub fn set_col(self, c: Clause) -> (r: Self)
        ensures
            r.query_builder == self.query_builder,
            r.sets@ == self.sets@.push(c),
    {
        let mut u = self;
        u.sets.push(c);
        u
    }

    /// Sets the column to NULL.
    pub fn set_null(self, col: String) -> (r: Self)
        ensures
            r.query_builder == self.query_builder,
            r.sets@ == self.sets@.push(Clause::SetNull(SetColNull { col_raw: col })),
    {
        let mut u = self;
        u.sets.push(Clause::SetNull(SetColNull { col_raw: col }));
        u
    }

    /// The SQL of the UPDATE; fails where the query has a limit and the table
    /// no primary key.
    pub fn to_sql(&self, syntax: Syntax) -> (r: Result<String, WeldsError>)
        requires
            self.fits(),
        ensures
            self.lacks_key() ==> r == Err::<String, WeldsError>(WeldsError::NoPrimaryKey),
            !self.lacks_key() ==> (r matches Ok(sql) && sql@ == self.update_text(syntax)),
    {
        let mut params = NextParam::new(syntax);
        let mut args: Vec<Value> = Vec::new();
        self.sql_internal(syntax, &mut params, &mut args)
    }

    /// The UPDATE with its arguments; fails where the query has a limit and the
    /// table no primary key, or where it binds more values than the dialect accepts.
    pub fn statement(&self, syntax: Syntax) -> (r: Result<Statement, WeldsError>)
        requires
            self.fits(),
        ensures
            self.lacks_key() ==> r == Err::<Statement, WeldsError>(WeldsError::NoPrimaryKey),
            !self.lacks_key() && self.args_spec().len() > max_params_of(syntax) ==> r == Err::<
                Statement,
                WeldsError,
            >(WeldsError::ParamLimitExceeded),
            !self.lacks_key() && self.args_spec().len() <= max_params_of(syntax) ==> (r matches Ok(
                st,
            ) && st.sql@ == self.update_text(syntax) && st.args@ == self.args_spec()),
    {
        let mut params = NextParam::new(syntax);
        let mut args: Vec<Value> = Vec::new();
        let sql = match self.sql_internal(syntax, &mut params, &mut args) {
            Ok(sql) => sql,
            Err(e) => {
                return Err(e);
            },
        };
        if args.len() > params.max_params() as usize {
            return Err(WeldsError::ParamLimitExceeded);
        }
        Ok(Statement { sql, args })
    }

    fn sql_internal(&self, syntax: Syntax, params: &mut NextParam, args: &mut Vec<Value>) -> (r:
        Result<String, WeldsError>)
        requires
            old(params)@ == (ParamState { syntax, counter: 1 }),
            old(args)@.len() == 0,
            self.fits(),
        ensures
            self.lacks_key() ==> r == Err::<String, WeldsError>(WeldsError::NoPrimaryKey),
            !self.lacks_key() ==> (r matches Ok(sql) && sql@ == self.update_text(syntax)
                && final(args)@ == self.args_spec() && final(params)@.syntax == syntax),
    {
        let q = &self.query_builder;
        if q.limit.is_some() && q.schema.primary_keys.len() == 0 {
            return Err(WeldsError::NoPrimaryKey);
        }
        let table = q.schema.table_name();
        let mut out = String::from_str("UPDATE ");
        out.append(table.as_str());
        out.append(" SET ");
        proof {
            lemma_args_len(self.sets@);
        }
        let set_parts = render_clauses(&self.sets, syntax, table.as_str(), params, args);
        let set_list = join_strings(&set_parts, ", ");
        out.append(set_list.as_str());
        let filter = build_where_update(q, syntax, table.as_str(), params, args);
        append_part(&mut out, filter.as_str());
        proof {
            assert(args@ =~= self.args_spec());
        }
        Ok(out)
    }
}

/// Writes the filter of a bulk UPDATE: the query's WHERE section under the
/// table's name, or, where the query has a limit, a test of the first primary
/// key against the subquery that takes the limited row set.
pub fn build_where_update(
    q: &QueryBuilder,
    syntax: Syntax,
    table: &str,
    params: &mut NextParam,
    args: &mut Vec<Value>,
) -> (r: String)
    requires
        table@ == q.schema.table_text(),
        old(params)@.syntax == syntax,
        old(params)@.counter + q.wheres.len() + exists_size(q.exist_ins@) < usize::MAX,
        q.exist_ins.len() + 3 < usize::MAX,
        q.limit is Some ==> q.schema.primary_keys@.len() > 0,
    ensures
        q.limit is None ==> r@ == where_of(q.filter_parts(syntax, table@, 1, old(params)@.counter)),
        q.limit is Some ==> r@ == where_in_text(
            *q,
            syntax,
            q.schema.primary_keys@[0].name@,
            old(params)@.counter,
        ),
        final(args)@ == old(args)@ + q.args_spec(),
        final(params)@ == (ParamState {
            syntax,
            counter: old(params)@.counter + q.args_spec().len(),
        }),
{
    if q.limit.is_none() {
        let mut aliases = TableAlias::new();
        return q.build_where_section(syntax, table, &mut aliases, params, args);
    }
    let key = &q.schema.primary_keys[0].name;
    let sub = build_key_subquery(q, syntax, key, table, params, args);
    let mut out = String::from_str("WHERE ( ");
    out.append(table);
    out.append(".");
    let key_outer = escape(syntax, key.as_str());
    out.append(key_outer.as_str());
    out.append(" IN (");
    out.append(sub.as_str());
    out.append(") )");
    proof {
        assert(out@ =~= where_in_text(*q, syntax, key@, old(params)@.counter));
    }
    out
}

fn build_key_subquery(
    q: &QueryBuilder,
    syntax: Syntax,
    key: &String,
    table: &str,
    params: &mut NextParam,
    args: &mut Vec<Value>,
) -> (r: String)
    requires
        table@ == q.schema.table_text(),
        old(params)@.syntax == syntax,
        old(params)@.counter + q.wheres.len() + exists_size(q.exist_ins@) < usize::MAX,
        q.exist_ins.len() + 3 < usize::MAX,
    ensures
        r@ == key_subquery_text(*q, syntax, key@, alias_name(1), old(params)@.counter),
        final(args)@ == old(args)@ + q.args_spec(),
        final(params)@ == (ParamState {
            syntax,
            counter: old(params)@.counter + q.args_spec().len(),
        }),
{
    let mut aliases = TableAlias::new();
    let alias = aliases.next();
    let mut sub = String::from_str("SELECT ");
    sub.append(alias.as_str());
    sub.append(".");
    let key_inner = escape(syntax, key.as_str());
    sub.append(key_inner.as_str());
    sub.append(" FROM ");
    sub.append(table);
    sub.append(" ");
    sub.append(alias.as_str());
    proof {
        assert(sub@ =~= "SELECT "@ + column_ref(syntax, alias@, key@) + " FROM "@
            + q.schema.table_text() + " "@ + alias@);
    }
    let body = q.build_body(syntax, alias.as_str(), &mut aliases, params, args);
    append_part(&mut sub, body.as_str());
    sub
}

/// Compiling a bulk UPDATE is deterministic: two builders with the same
/// assignments and the same query compile to the same text and arguments.
pub proof fn lemma_update_deterministic(u1: UpdateBuilder, u2: UpdateBuilder, syntax: Syntax)
    requires
        u1.sets@ == u2.sets@,
        u1.query_builder.schema == u2.query_builder.schema,
        u1.query_builder.wheres@ == u2.query_builder.wheres@,
        u1.query_builder.exist_ins@ == u2.query_builder.exist_ins@,
        u1.query_builder.orderby@ == u2.query_builder.orderby@,
        u1.query_builder.limit == u2.query_builder.limit,
        u1.query_builder.offset == u2.query_builder.offset,
    ensures
        u1.update_text(syntax) == u2.update_text(syntax),
        u1.args_spec() == u2.args_spec(),
        u1.lacks_key() == u2.lacks_key(),
{
}

/// A bulk UPDATE with a limit filters by its first primary key against a
/// subquery that takes the limited row set, and binds the assignments' values
/// before those of the subquery's filters, whose placeholders are numbered on
/// from the assignments'.
pub proof fn lemma_limited_update_uses_where_in(u: UpdateBuilder, syntax: Syntax)
    requires
        u.query_builder.limit is Some,
        u.query_builder.schema.primary_keys@.len() > 0,
    ensures
        ({
            let q = u.query_builder;
            let key = q.schema.primary_keys@[0].name@;
            let start = 1 + all_args(u.sets@).len();
            &&& u.update_text(syntax) == then_part(
                u.head_text(syntax),
                "WHERE ( "@ + column_ref(syntax, q.schema.table_text(), key) + " IN ("@
                    + key_subquery_text(q, syntax, key, alias_name(1), start) + ") )"@,
            )
            &&& key_subquery_text(q, syntax, key, alias_name(1), start) == then_part(
                "SELECT "@ + column_ref(syntax, alias_name(1), key) + " FROM "@
                    + q.schema.table_text() + " "@ + alias_name(1),
                then_part(
                    where_of(q.filter_parts(syntax, alias_name(1), 2, start)),
                    crate::select::tail_text(syntax, alias_name(1), q.orderby@, q.limit, q.offset),
                ),
            )
            &&& u.args_spec() == all_args(u.sets@) + q.args_spec()
        }),
{
}

/// Writing back a row whose table has no column besides its keys issues no
/// statement.
pub proof fn lemma_update_one_keys_only_is_noop(schema: Schema)
    requires
        schema.primary_keys@.len() > 0,
        forall|i: int|
            0 <= i < schema.columns@.len() ==> #[trigger] schema.is_key(schema.columns@[i].name@),
    ensures
        non_key_columns(schema, schema.columns@).len() == 0,
{
    lemma_keys_only(schema, schema.columns@);
}

proof fn lemma_keys_only(schema: Schema, cols: Seq<Column>)
    requires
        forall|i: int| 0 <= i < cols.len() ==> #[trigger] schema.is_key(cols[i].name@),
    ensures
        non_key_columns(schema, cols).len() == 0,
    decreases cols.len(),
{
    if cols.len() > 0 {
        assert(schema.is_key(cols[cols.len() - 1].name@));
        lemma_keys_only(schema, cols.drop_last());
    }
}

} // verus!
