use crate::alias::{alias_name, TableAlias};
use crate::clause::{all_args, all_texts, column_ref, lemma_args_len, render_clauses, where_of, write_where, Clause};
use crate::subquery::{exists_args, exists_size, exists_texts, render_exists, ExistIn};
use crate::decimal::{decimal_text, write_decimal};
use crate::errors::WeldsError;
use crate::join::{join, join_strings, views};
use crate::nextparam::{NextParam, ParamState};
use crate::schema::{Column, Schema};
use crate::syntax::{escape, max_params_of, Syntax};
use crate::value::Value;
use vstd::prelude::*;
use vstd::string::StringExecFns;

verus! {

/// SQL text and the values bound to its placeholders, in order.
pub struct Statement {
    pub sql: String,
    pub args: Vec<Value>,
}

/// `s` followed by a space and `part`; where one of them is empty, the other.
pub open spec fn then_part(s: Seq<char>, part: Seq<char>) -> Seq<char> {
    if part.len() == 0 {
        s
    } else if s.len() == 0 {
        part
    } else {
        s + " "@ + part
    }
}

/// Appends a space and `part` to `out`, unless `part` is empty.
pub fn append_part(out: &mut String, part: &str)
    ensures
        final(out)@ == then_part(old(out)@, part@),
{
    if !part.is_empty() {
        if !out.as_str().is_empty() {
            out.append(" ");
        }
        out.append(part);
    }
}

/// A column to sort by, descending or ascending.
pub struct OrderBy {
    pub col: String,
    pub desc: bool,
}

/// Each sort column as written under the alias, with its direction.
pub open spec fn order_texts(syntax: Syntax, alias: Seq<char>, os: Seq<OrderBy>) -> Seq<Seq<char>> {
    os.map_values(
        |o: OrderBy|
            column_ref(syntax, alias, o.col@) + if o.desc {
                " DESC"@
            } else {
                " ASC"@
            },
    )
}

/// The ORDER BY section, empty when there is nothing to sort by.
pub open spec fn order_text(syntax: Syntax, alias: Seq<char>, os: Seq<OrderBy>) -> Seq<char> {
    if os.len() == 0 {
        Seq::empty()
    } else {
        "ORDER BY "@ + join(order_texts(syntax, alias, os), ", "@)
    }
}

/// The part that limits and skips rows.
pub open spec fn paging_text(syntax: Syntax, limit: Option<usize>, offset: Option<usize>) -> Seq<
    char,
> {
    match syntax {
        Syntax::Mssql => if limit is None && offset is None {
            Seq::empty()
        } else {
            "OFFSET "@ + decimal_text(
                match offset {
                    Some(m) => m as nat,
                    None => 0,
                },
            ) + " ROWS"@ + match limit {
                Some(n) => " FETCH NEXT "@ + decimal_text(n as nat) + " ROWS ONLY"@,
                None => Seq::empty(),
            }
        },
        _ => then_part(
            match limit {
                Some(n) => "LIMIT "@ + decimal_text(n as nat),
                None => Seq::empty(),
            },
            match offset {
                Some(m) => "OFFSET "@ + decimal_text(m as nat),
                None => Seq::empty(),
            },
        ),
    }
}

/// The tail: the ORDER BY section, then the paging. SQL Server pages only
/// sorted rows, so there paging without a sort column sorts by nothing.
pub open spec fn tail_text(
    syntax: Syntax,
    alias: Seq<char>,
    os: Seq<OrderBy>,
    limit: Option<usize>,
    offset: Option<usize>,
) -> Seq<char> {
    let paging = paging_text(syntax, limit, offset);
    if syntax == Syntax::Mssql && paging.len() > 0 && os.len() == 0 {
        "ORDER BY (SELECT NULL) "@ + paging
    } else {
        then_part(order_text(syntax, alias, os), paging)
    }
}

/// Writes the part that limits and skips rows.
pub fn build_paging(syntax: Syntax, limit: Option<usize>, offset: Option<usize>) -> (r: String)
    ensures
        r@ == paging_text(syntax, limit, offset),
{
    match syntax {
        Syntax::Mssql => {
            if limit.is_none() && offset.is_none() {
                return String::new();
            }
            let mut out = String::from_str("OFFSET ");
            let skip: usize = match offset {
                Some(m) => m,
                None => 0,
            };
            write_decimal(&mut out, skip);
            out.append(" ROWS");
            match limit {
                Some(n) => {
                    out.append(" FETCH NEXT ");
                    write_decimal(&mut out, n);
                    out.append(" ROWS ONLY");
                },
                None => {},
            }
            proof {
                assert(out@ =~= paging_text(syntax, limit, offset));
            }
            out
        },
        _ => {
            let mut out = String::new();
            match limit {
                Some(n) => {
                    out.append("LIMIT ");
                    write_decimal(&mut out, n);
                },
                None => {},
            }
            let mut skip = String::new();
            match offset {
                Some(m) => {
                    skip.append("OFFSET ");
                    write_decimal(&mut skip, m);
                },
                None => {},
            }
            append_part(&mut out, skip.as_str());
            proof {
                assert(out@ =~= paging_text(syntax, limit, offset));
            }
            out
        },
    }
}

/// Writes the ORDER BY section.
pub fn build_order(syntax: Syntax, alias: &str, os: &Vec<OrderBy>) -> (r: String)
    ensures
        r@ == order_text(syntax, alias@, os@),
{
    if os.len() == 0 {
        return String::new();
    }
    let mut parts: Vec<String> = Vec::new();
    let mut i: usize = 0;
    while i < os.len()
        invariant
            i <= os.len(),
            views(parts@) =~= order_texts(syntax, alias@, os@.take(i as int)),
        decreases os.len() - i,
    {
        let mut s = String::from_str(alias);
        s.append(".");
        let name = escape(syntax, os[i].col.as_str());
        s.append(name.as_str());
        if os[i].desc {
            s.append(" DESC");
        } else {
            s.append(" ASC");
        }
        let ghost before = parts@;
        parts.push(s);
        proof {
            assert(views(parts@) =~= views(before).push(s@));
            assert(order_texts(syntax, alias@, os@.take(i + 1)) =~= order_texts(
                syntax,
                alias@,
                os@.take(i as int),
            ).push(s@));
        }
        i = i + 1;
    }
    proof {
        assert(os@.take(i as int) =~= os@);
    }
    let mut out = String::from_str("ORDER BY ");
    let joined = join_strings(&parts, ", ");
    out.append(joined.as_str());
    out
}

/// Writes the tail: the ORDER BY section, then the paging.
pub fn build_tail(
    syntax: Syntax,
    alias: &str,
    os: &Vec<OrderBy>,
    limit: Option<usize>,
    offset: Option<usize>,
) -> (r: String)
    ensures
        r@ == tail_text(syntax, alias@, os@, limit, offset),
{
    let paging = build_paging(syntax, limit, offset);
    if syntax == Syntax::Mssql && !paging.as_str().is_empty() && os.len() == 0 {
        let mut out = String::from_str("ORDER BY (SELECT NULL) ");
        out.append(paging.as_str());
        return out;
    }
    let mut out = build_order(syntax, alias, os);
    append_part(&mut out, paging.as_str());
    out
}

/// Each column as written under the alias.
pub open spec fn column_refs(syntax: Syntax, alias: Seq<char>, cols: Seq<Column>) -> Seq<
    Seq<char>,
> {
    cols.map_values(|c: Column| column_ref(syntax, alias, c.name@))
}

/// Writes each column under the alias.
pub fn write_column_refs(syntax: Syntax, alias: &str, cols: &[Column]) -> (r: Vec<String>)
    ensures
        views(r@) == column_refs(syntax, alias@, cols@),
{
    let mut out: Vec<String> = Vec::new();
    let mut i: usize = 0;
    while i < cols.len()
        invariant
            i <= cols.len(),
            views(out@) =~= column_refs(syntax, alias@, cols@.take(i as int)),
        decreases cols.len() - i,
    {
        let mut s = String::from_str(alias);
        s.append(".");
        let name = escape(syntax, cols[i].name.as_str());
        s.append(name.as_str());
        let ghost before = out@;
        out.push(s);
        proof {
            assert(s@ == column_ref(syntax, alias@, cols@[i as int].name@));
            assert(views(out@) =~= views(before).push(s@));
            assert(column_refs(syntax, alias@, cols@.take(i + 1)) =~= column_refs(
                syntax,
                alias@,
                cols@.take(i as int),
            ).push(s@));
            assert(views(out@) =~= column_refs(syntax, alias@, cols@.take(i + 1)));
        }
        i = i + 1;
    }
    proof {
        assert(cols@.take(i as int) =~= cols@);
    }
    out
}

/// An un-executed SELECT over one table: its filters, its tests against rows
/// of other tables, its sort order, and the rows it may skip and return.
pub struct QueryBuilder {
    pub schema: Schema,
    pub wheres: Vec<Clause>,
    pub exist_ins: Vec<ExistIn>,
    pub orderby: Vec<OrderBy>,
    pub limit: Option<usize>,
    pub offset: Option<usize>,
}

/// The head of a SELECT of every column, under the alias.
pub open spec fn select_head(schema: Schema, syntax: Syntax, alias: Seq<char>) -> Seq<char> {
    "SELECT "@ + join(column_refs(syntax, alias, schema.columns@), ", "@) + " FROM "@
        + schema.table_text() + " "@ + alias
}

/// The head of a SELECT that counts the rows, under the alias.
pub open spec fn count_head(schema: Schema, syntax: Syntax, alias: Seq<char>) -> Seq<char> {
    "SELECT COUNT(*) FROM "@ + schema.table_text() + " "@ + alias
}

impl QueryBuilder {
    /// Whether the statement's counts fit the machine word.
    pub open spec fn fits(&self) -> bool {
        self.wheres@.len() + exists_size(self.exist_ins@) + self.exist_ins@.len() + 3 < usize::MAX
    }

    /// The conditions of the WHERE section: the filters under `alias`, then the
    /// tests, the `k`-th under the alias numbered `first + k`; the placeholders
    /// are numbered on from `start` in the order they bind.
    pub open spec fn filter_parts(
        &self,
        syntax: Syntax,
        alias: Seq<char>,
        first: nat,
        start: nat,
    ) -> Seq<Seq<char>> {
        all_texts(self.wheres@, syntax, alias, start) + exists_texts(
            self.exist_ins@,
            syntax,
            alias,
            first,
            start + all_args(self.wheres@).len(),
        )
    }

    /// What follows the head: the WHERE section and the tail.
    pub open spec fn body_text(&self, syntax: Syntax, alias: Seq<char>, first: nat, start: nat) -> Seq<
        char,
    > {
        then_part(
            where_of(self.filter_parts(syntax, alias, first, start)),
            tail_text(syntax, alias, self.orderby@, self.limit, self.offset),
        )
    }

    /// The text of the SELECT of every column.
    pub open spec fn select_text(&self, syntax: Syntax) -> Seq<char> {
        then_part(
            select_head(self.schema, syntax, alias_name(1)),
            self.body_text(syntax, alias_name(1), 2, 1),
        )
    }

    /// The text of the SELECT that counts the rows.
    pub open spec fn count_text(&self, syntax: Syntax) -> Seq<char> {
        then_part(
            count_head(self.schema, syntax, alias_name(1)),
            self.body_text(syntax, alias_name(1), 2, 1),
        )
    }

    /// The values that the statement binds.
    pub open spec fn args_spec(&self) -> Seq<Value> {
        all_args(self.wheres@) + exists_args(self.exist_ins@)
    }

    /// A query of every row of the table.
    pub fn new(schema: Schema) -> (r: Self)
        ensures
            r.schema == schema,
            r.wheres@ == Seq::<Clause>::empty(),
            r.exist_ins@ == Seq::<ExistIn>::empty(),
            r.orderby@ == Seq::<OrderBy>::empty(),
            r.limit is None,
            r.offset is None,
    {
        QueryBuilder {
            schema,
            wheres: Vec::new(),
            exist_ins: Vec::new(),
            orderby: Vec::new(),
            limit: None,
            offset: None,
        }
    }

    /// Keeps only the rows that the clause holds of.
    pub fn where_col(self, c: Clause) -> (r: Self)
        ensures
            r.schema == self.schema,
            r.wheres@ == self.wheres@.push(c),
            r.exist_ins == self.exist_ins,
            r.orderby == self.orderby,
            r.limit == self.limit,
            r.offset == self.offset,
    {
        let mut q = self;
        q.wheres.push(c);
        q
    }

    /// Keeps only the rows that the test holds of.
    pub fn where_exists(self, e: ExistIn) -> (r: Self)
        ensures
            r.schema == self.schema,
            r.wheres == self.wheres,
            r.exist_ins@ == self.exist_ins@.push(e),
            r.orderby == self.orderby,
            r.limit == self.limit,
            r.offset == self.offset,
    {
        let mut q = self;
        q.exist_ins.push(e);
        q
    }

    /// Sorts by the column, ascending, after the sort columns given before.
    pub fn order_by_asc(self, col: String) -> (r: Self)
        ensures
            r.schema == self.schema,
            r.wheres == self.wheres,
            r.exist_ins == self.exist_ins,
            r.orderby@ == self.orderby@.push(OrderBy { col, desc: false }),
            r.limit == self.limit,
            r.offset == self.offset,
    {
        let mut q = self;
        q.orderby.push(OrderBy { col, desc: false });
        q
    }

    /// Sorts by the column, descending, after the sort columns given before.
    pub fn order_by_desc(self, col: String) -> (r: Self)
        ensures
            r.schema == self.schema,
            r.wheres == self.wheres,
            r.exist_ins == self.exist_ins,
            r.orderby@ == self.orderby@.push(OrderBy { col, desc: true }),
            r.limit == self.limit,
            r.offset == self.offset,
    {
        let mut q = self;
        q.orderby.push(OrderBy { col, desc: true });
        q
    }

    /// Returns at most `n` rows.
    pub fn limit(self, n: usize) -> (r: Self)
        ensures
            r.schema == self.schema,
            r.wheres == self.wheres,
            r.exist_ins == self.exist_ins,
            r.orderby == self.orderby,
            r.limit == Some(n),
            r.offset == self.offset,
    {
        let mut q = self;
        q.limit = Some(n);
        q
    }

    /// Skips the first `n` rows.
    pub fn offset(self, n: usize) -> (r: Self)
        ensures
            r.schema == self.schema,
            r.wheres == self.wheres,
            r.exist_ins == self.exist_ins,
            r.orderby == self.orderby,
            r.limit == self.limit,
            r.offset == Some(n),
    {
        let mut q = self;
        q.offset = Some(n);
        q
    }

    /// Writes what follows the head, binding the values of the filters, then
    /// those of the tests, in order; the tests take the next aliases.
    pub fn build_body(
        &self,
        syntax: Syntax,
        alias: &str,
        aliases: &mut TableAlias,
        params: &mut NextParam,
        args: &mut Vec<Value>,
    ) -> (r: String)
        requires
            old(params)@.syntax == syntax,
            old(params)@.counter + self.wheres.len() + exists_size(self.exist_ins@) < usize::MAX,
            old(aliases)@ + self.exist_ins.len() < usize::MAX,
        ensures
            r@ == self.body_text(syntax, alias@, old(aliases)@, old(params)@.counter),
            final(args)@ == old(args)@ + self.args_spec(),
            final(params)@ == (ParamState {
                syntax,
                counter: old(params)@.counter + self.args_spec().len(),
            }),
    {
        let mut out = self.build_where_section(syntax, alias, aliases, params, args);
        let tail = build_tail(syntax, alias, &self.orderby, self.limit, self.offset);
        append_part(&mut out, tail.as_str());
        out
    }

    /// Writes the WHERE section, binding the values of the filters, then those
    /// of the tests, in order; the tests take the next aliases.
    pub fn build_where_section(
        &self,
        syntax: Syntax,
        alias: &str,
        aliases: &mut TableAlias,
        params: &mut NextParam,
        args: &mut Vec<Value>,
    ) -> (r: String)
        requires
            old(params)@.syntax == syntax,
            old(params)@.counter + self.wheres.len() + exists_size(self.exist_ins@) < usize::MAX,
            old(aliases)@ + self.exist_ins.len() < usize::MAX,
        ensures
            r@ == where_of(self.filter_parts(syntax, alias@, old(aliases)@, old(params)@.counter)),
            final(args)@ == old(args)@ + self.args_spec(),
            final(params)@ == (ParamState {
                syntax,
                counter: old(params)@.counter + self.args_spec().len(),
            }),
            final(aliases)@ == old(aliases)@ + self.exist_ins.len(),
    {
        proof {
            lemma_args_len(self.wheres@);
        }
        let mut parts = render_clauses(&self.wheres, syntax, alias, params, args);
        let mut tests = render_exists(&self.exist_ins, syntax, alias, aliases, params, args);
        let ghost head = parts@;
        let ghost rest = tests@;
        parts.append(&mut tests);
        proof {
            assert(parts@ == head + rest);
            assert(views(parts@) =~= views(head) + views(rest));
            assert(args@ =~= old(args)@ + self.args_spec());
        }
        write_where(&parts)
    }

    /// The SQL of the SELECT of every column.
    pub fn to_sql(&self, syntax: Syntax) -> (r: String)
        requires
            self.fits(),
        ensures
            r@ == self.select_text(syntax),
    {
        let mut params = NextParam::new(syntax);
        let mut args: Vec<Value> = Vec::new();
        self.build_select(syntax, &mut params, &mut args)
    }

    /// The SQL of the SELECT that counts the rows.
    pub fn count_sql(&self, syntax: Syntax) -> (r: String)
        requires
            self.fits(),
        ensures
            r@ == self.count_text(syntax),
    {
        let mut params = NextParam::new(syntax);
        let mut args: Vec<Value> = Vec::new();
        self.build_count(syntax, &mut params, &mut args)
    }

    /// The SELECT of every column with its arguments; fails when it binds more
    /// values than the dialect accepts.
    pub fn select_statement(&self, syntax: Syntax) -> (r: Result<Statement, WeldsError>)
        requires
            self.fits(),
        ensures
            self.args_spec().len() > max_params_of(syntax) ==> r == Err::<Statement, WeldsError>(
                WeldsError::ParamLimitExceeded,
            ),
            self.args_spec().len() <= max_params_of(syntax) ==> (r matches Ok(st) && st.sql@
                == self.select_text(syntax) && st.args@ == self.args_spec()),
    {
        let mut params = NextParam::new(syntax);
        let mut args: Vec<Value> = Vec::new();
        let sql = self.build_select(syntax, &mut params, &mut args);
        if args.len() > params.max_params() as usize {
            return Err(WeldsError::ParamLimitExceeded);
        }
        Ok(Statement { sql, args })
    }

    /// The SELECT that counts the rows, with its arguments; fails when it binds
    /// more values than the dialect accepts.
    pub fn count_statement(&self, syntax: Syntax) -> (r: Result<Statement, WeldsError>)
        requires
            self.fits(),
        ensures
            self.args_spec().len() > max_params_of(syntax) ==> r == Err::<Statement, WeldsError>(
                WeldsError::ParamLimitExceeded,
            ),
            self.args_spec().len() <= max_params_of(syntax) ==> (r matches Ok(st) && st.sql@
                == self.count_text(syntax) && st.args@ == self.args_spec()),
    {
        let mut params = NextParam::new(syntax);
        let mut args: Vec<Value> = Vec::new();
        let sql = self.build_count(syntax, &mut params, &mut args);
        if args.len() > params.max_params() as usize {
            return Err(WeldsError::ParamLimitExceeded);
        }
        Ok(Statement { sql, args })
    }

    fn build_select(&self, syntax: Syntax, params: &mut NextParam, args: &mut Vec<Value>) -> (r:
        String)
        requires
            old(params)@ == (ParamState { syntax, counter: 1 }),
            old(args)@.len() == 0,
            self.fits(),
        ensures
            r@ == self.select_text(syntax),
            final(args)@ == self.args_spec(),
            final(params)@.syntax == syntax,
    {
        let mut aliases = TableAlias::new();
        let alias = aliases.next();
        let cols = write_column_refs(syntax, alias.as_str(), self.schema.columns.as_slice());
        let mut out = String::from_str("SELECT ");
        let col_list = join_strings(&cols, ", ");
        out.append(col_list.as_str());
        out.append(" FROM ");
        let table = self.schema.table_name();
        out.append(table.as_str());
        out.append(" ");
        out.append(alias.as_str());
        let body = self.build_body(syntax, alias.as_str(), &mut aliases, params, args);
        append_part(&mut out, body.as_str());
        proof {
            assert(old(args)@ + self.args_spec() =~= self.args_spec());
        }
        out
    }

    fn build_count(&self, syntax: Syntax, params: &mut NextParam, args: &mut Vec<Value>) -> (r:
        String)
        requires
            old(params)@ == (ParamState { syntax, counter: 1 }),
            old(args)@.len() == 0,
            self.fits(),
        ensures
            r@ == self.count_text(syntax),
            final(args)@ == self.args_spec(),
            final(params)@.syntax == syntax,
    {
        let mut aliases = TableAlias::new();
        let alias = aliases.next();
        let mut out = String::from_str("SELECT COUNT(*) FROM ");
        let table = self.schema.table_name();
        out.append(table.as_str());
        out.append(" ");
        out.append(alias.as_str());
        let body = self.build_body(syntax, alias.as_str(), &mut aliases, params, args);
        append_part(&mut out, body.as_str());
        proof {
            assert(old(args)@ + self.args_spec() =~= self.args_spec());
        }
        out
    }
}

/// Compiling a query is deterministic: two queries with the same schema,
/// filters, limit and offset compile to the same text and the same arguments,
/// in both the fetching and the counting form.
pub proof fn lemma_select_deterministic(q1: QueryBuilder, q2: QueryBuilder, syntax: Syntax)
    requires
        q1.schema == q2.schema,
        q1.wheres@ == q2.wheres@,
        q1.exist_ins@ == q2.exist_ins@,
        q1.orderby@ == q2.orderby@,
        q1.limit == q2.limit,
        q1.offset == q2.offset,
    ensures
        q1.select_text(syntax) == q2.select_text(syntax),
        q1.count_text(syntax) == q2.count_text(syntax),
        q1.args_spec() == q2.args_spec(),
{
}

/// The fetching and the counting form of a query filter alike: they differ
/// only in their heads and bind the same arguments.
pub proof fn lemma_count_filters_as_select(q: QueryBuilder, syntax: Syntax)
    ensures
        q.select_text(syntax) == then_part(
            select_head(q.schema, syntax, alias_name(1)),
            q.body_text(syntax, alias_name(1), 2, 1),
        ),
        q.count_text(syntax) == then_part(
            count_head(q.schema, syntax, alias_name(1)),
            q.body_text(syntax, alias_name(1), 2, 1),
        ),
{
}

} // verus!
