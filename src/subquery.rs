use crate::alias::{alias_name, TableAlias};
use crate::clause::{all_args, all_texts, column_ref, lemma_args_len, render_clauses, Clause};
use crate::join::{join, join_strings, views};
use crate::nextparam::{NextParam, ParamState};
use crate::schema::Schema;
use crate::syntax::{escape, Syntax};
use crate::value::Value;
use vstd::prelude::*;
use vstd::string::StringExecFns;

verus! {

/// A test that some row of another table relates to the outer row: its
/// `inner_col` equals the outer row's `outer_col`, and its own filters hold.
/// Negated, a test that no such row exists.
pub struct ExistIn {
    pub schema: Schema,
    pub outer_col: String,
    pub inner_col: String,
    pub wheres: Vec<Clause>,
    pub negated: bool,
}

/// The condition that ties the inner row, under `ia`, to the outer one, under `oa`.
pub open spec fn link_text(e: ExistIn, syntax: Syntax, oa: Seq<char>, ia: Seq<char>) -> Seq<char> {
    column_ref(syntax, ia, e.inner_col@) + " = "@ + column_ref(syntax, oa, e.outer_col@)
}

/// The text of the test, the inner table under `ia`, its placeholders numbered
/// on from `start`.
pub open spec fn exist_text(
    e: ExistIn,
    syntax: Syntax,
    oa: Seq<char>,
    ia: Seq<char>,
    start: nat,
) -> Seq<char> {
    (if e.negated {
        "NOT EXISTS ( "@
    } else {
        "EXISTS ( "@
    }) + "SELECT 1 FROM "@ + e.schema.table_text() + " "@ + ia + " WHERE "@ + join(
        seq![link_text(e, syntax, oa, ia)] + all_texts(e.wheres@, syntax, ia, start),
        " AND "@,
    ) + " )"@
}

/// The values that the tests bind, in order.
pub open spec fn exists_args(es: Seq<ExistIn>) -> Seq<Value>
    decreases es.len(),
{
    if es.len() == 0 {
        Seq::empty()
    } else {
        exists_args(es.drop_last()) + all_args(es.last().wheres@)
    }
}

/// The number of filters that the tests hold together.
pub open spec fn exists_size(es: Seq<ExistIn>) -> nat
    decreases es.len(),
{
    if es.len() == 0 {
        0
    } else {
        exists_size(es.drop_last()) + es.last().wheres@.len()
    }
}

/// The texts of the tests: the `k`-th takes the alias numbered `first + k`,
/// and their placeholders are numbered on from `start` in the order they bind.
pub open spec fn exists_texts(
    es: Seq<ExistIn>,
    syntax: Syntax,
    oa: Seq<char>,
    first: nat,
    start: nat,
) -> Seq<Seq<char>>
    decreases es.len(),
{
    if es.len() == 0 {
        Seq::empty()
    } else {
        exists_texts(es.drop_last(), syntax, oa, first, start).push(
            exist_text(
                es.last(),
                syntax,
                oa,
                alias_name(first + (es.len() - 1) as nat),
                start + exists_args(es.drop_last()).len(),
            ),
        )
    }
}

/// Each test binds at most as many values as it has filters.
pub proof fn lemma_exists_args_len(es: Seq<ExistIn>)
    ensures
        exists_args(es).len() <= exists_size(es),
    decreases es.len(),
{
    if es.len() > 0 {
        lemma_exists_args_len(es.drop_last());
        lemma_args_len(es.last().wheres@);
    }
}

proof fn lemma_exists_size_prefix(es: Seq<ExistIn>, i: int)
    requires
        0 <= i <= es.len(),
    ensures
        exists_size(es.take(i)) <= exists_size(es),
    decreases es.len() - i,
{
    if i < es.len() {
        assert(es.take(i + 1).drop_last() =~= es.take(i));
        lemma_exists_size_prefix(es, i + 1);
    } else {
        assert(es.take(i) =~= es);
    }
}

impl ExistIn {
    /// A test for a row of the table `schema` whose `inner_col` equals the
    /// outer row's `outer_col`; negated, for no such row.
    pub fn new(schema: Schema, outer_col: String, inner_col: String, negated: bool) -> (r: Self)
        ensures
            r.schema == schema,
            r.outer_col == outer_col,
            r.inner_col == inner_col,
            r.wheres@ == Seq::<Clause>::empty(),
            r.negated == negated,
    {
        ExistIn { schema, outer_col, inner_col, wheres: Vec::new(), negated }
    }

    /// Requires the inner row to satisfy the clause as well.
    pub fn where_col(self, c: Clause) -> (r: Self)
        ensures
            r.schema == self.schema,
            r.outer_col == self.outer_col,
            r.inner_col == self.inner_col,
            r.wheres@ == self.wheres@.push(c),
            r.negated == self.negated,
    {
        let mut e = self;
        e.wheres.push(c);
        e
    }

    /// Writes the test, the inner table under `ia`, binding its filters'
    /// values in order.
    pub fn render(
        &self,
        syntax: Syntax,
        oa: &str,
        ia: &str,
        params: &mut NextParam,
        args: &mut Vec<Value>,
    ) -> (r: String)
        requires
            old(params)@.syntax == syntax,
            old(params)@.counter + self.wheres.len() < usize::MAX,
        ensures
            r@ == exist_text(*self, syntax, oa@, ia@, old(params)@.counter),
            final(args)@ == old(args)@ + all_args(self.wheres@),
            final(params)@ == (ParamState {
                syntax,
                counter: old(params)@.counter + all_args(self.wheres@).len(),
            }),
    {
        let mut link = String::from_str(ia);
        link.append(".");
        let inner = escape(syntax, self.inner_col.as_str());
        link.append(inner.as_str());
        link.append(" = ");
        link.append(oa);
        link.append(".");
        let outer = escape(syntax, self.outer_col.as_str());
        link.append(outer.as_str());
        proof {
            assert(link@ == link_text(*self, syntax, oa@, ia@));
        }
        let mut conds: Vec<String> = Vec::new();
        conds.push(link);
        let mut filters = render_clauses(&self.wheres, syntax, ia, params, args);
        let ghost head = conds@;
        let ghost rest = filters@;
        conds.append(&mut filters);
        proof {
            assert(conds@ == head + rest);
            assert(views(conds@) =~= views(head) + views(rest));
        }
        let mut out = if self.negated {
            String::from_str("NOT EXISTS ( ")
        } else {
            String::from_str("EXISTS ( ")
        };
        out.append("SELECT 1 FROM ");
        let table = self.schema.table_name();
        out.append(table.as_str());
        out.append(" ");
        out.append(ia);
        out.append(" WHERE ");
        let joined = join_strings(&conds, " AND ");
        out.append(joined.as_str());
        out.append(" )");
        proof {
            assert(views(conds@) =~= seq![link_text(*self, syntax, oa@, ia@)] + all_texts(
                self.wheres@,
                syntax,
                ia@,
                old(params)@.counter,
            ));
        }
        out
    }
}

/// Writes the tests, each taking the next alias, binding their values in order.
pub fn render_exists(
    es: &Vec<ExistIn>,
    syntax: Syntax,
    oa: &str,
    aliases: &mut TableAlias,
    params: &mut NextParam,
    args: &mut Vec<Value>,
) -> (r: Vec<String>)
    requires
        old(params)@.syntax == syntax,
        old(params)@.counter + exists_size(es@) < usize::MAX,
        old(aliases)@ + es.len() < usize::MAX,
    ensures
        views(r@) == exists_texts(es@, syntax, oa@, old(aliases)@, old(params)@.counter),
        final(args)@ == old(args)@ + exists_args(es@),
        final(params)@ == (ParamState {
            syntax,
            counter: old(params)@.counter + exists_args(es@).len(),
        }),
        final(aliases)@ == old(aliases)@ + es.len(),
{
    let ghost start = params@.counter;
    let ghost first = aliases@;
    let mut parts: Vec<String> = Vec::new();
    let mut i: usize = 0;
    while i < es.len()
        invariant
            i <= es.len(),
            start == old(params)@.counter,
            first == old(aliases)@,
            start + exists_size(es@) < usize::MAX,
            first + es.len() < usize::MAX,
            aliases@ == first + i,
            views(parts@) == exists_texts(es@.take(i as int), syntax, oa@, first, start),
            args@ == old(args)@ + exists_args(es@.take(i as int)),
            params@ == (ParamState {
                syntax,
                counter: start + exists_args(es@.take(i as int)).len(),
            }),
        decreases es.len() - i,
    {
        proof {
            assert(es@.take(i + 1).drop_last() =~= es@.take(i as int));
            assert(es@.take(i + 1).last() == es@[i as int]);
            lemma_exists_args_len(es@.take(i as int));
            lemma_exists_size_prefix(es@, i + 1);
        }
        let ia = aliases.next();
        let text = es[i].render(syntax, oa, ia.as_str(), params, args);
        let ghost before = parts@;
        parts.push(text);
        proof {
            assert(views(parts@) =~= views(before).push(text@));
            assert(views(parts@) =~= exists_texts(es@.take(i + 1), syntax, oa@, first, start));
            assert(args@ =~= old(args)@ + exists_args(es@.take(i + 1)));
        }
        i = i + 1;
    }
    proof {
        assert(es@.take(i as int) =~= es@);
    }
    parts
}

} // verus!
