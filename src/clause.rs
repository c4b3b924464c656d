use crate::join::{join, join_strings, views};
use crate::nextparam::{NextParam, ParamState};
use crate::syntax::{escape, escaped, placeholder, Syntax};
use crate::value::Value;
use vstd::prelude::*;
use vstd::string::StringExecFns;

verus! {

/// The operator family of a comparison; negation is a separate flag.
#[derive(Clone, Copy, Debug, PartialEq, Eq, Structural)]
pub enum Operator {
    Equal,
    Like,
    ILike,
}

/// The operator as written in SQL.
pub open spec fn operator_text(op: Operator, not_clause: bool) -> Seq<char> {
    match op {
        Operator::Equal => if not_clause {
            "!="@
        } else {
            "="@
        },
        Operator::Like => if not_clause {
            "not like"@
        } else {
            "like"@
        },
        Operator::ILike => if not_clause {
            "not ilike"@
        } else {
            "ilike"@
        },
    }
}

fn operator_str(op: Operator, not_clause: bool) -> (r: &'static str)
    ensures
        r@ == operator_text(op, not_clause),
{
    match op {
        Operator::Equal => if not_clause {
            "!="
        } else {
            "="
        },
        Operator::Like => if not_clause {
            "not like"
        } else {
            "like"
        },
        Operator::ILike => if not_clause {
            "not ilike"
        } else {
            "ilike"
        },
    }
}

/// A column compared with a value. With no value the comparison becomes a
/// null test: `IS NULL`, or `IS NOT NULL` when negated.
pub struct ClauseColVal {
    pub col: String,
    pub operator: Operator,
    pub not_clause: bool,
    pub val: Option<Value>,
}

/// An assignment of a bound value to a column, for UPDATE.
pub struct SetColVal {
    pub col_raw: String,
    pub val: Value,
}

/// An assignment of NULL to a column, for UPDATE.
pub struct SetColNull {
    pub col_raw: String,
}

/// One fragment of a statement together with what it binds.
pub enum Clause {
    ColVal(ClauseColVal),
    SetVal(SetColVal),
    SetNull(SetColNull),
}

/// A column as written in a statement: the table alias, a dot, and the
/// quoted name.
pub open spec fn column_ref(syntax: Syntax, alias: Seq<char>, col: Seq<char>) -> Seq<char> {
    alias + "."@ + escaped(syntax, col)
}

/// The SQL text of a clause whose placeholder, if it has one, is the `idx`-th.
pub open spec fn clause_text(c: Clause, syntax: Syntax, alias: Seq<char>, idx: nat) -> Seq<
    char,
> {
    match c {
        Clause::ColVal(cv) => match cv.val {
            None => column_ref(syntax, alias, cv.col@) + if cv.not_clause {
                " IS NOT NULL"@
            } else {
                " IS NULL"@
            },
            Some(_) => column_ref(syntax, alias, cv.col@) + " "@ + operator_text(
                cv.operator,
                cv.not_clause,
            ) + " "@ + placeholder(syntax, idx),
        },
        Clause::SetVal(sv) => escaped(syntax, sv.col_raw@) + "="@ + placeholder(syntax, idx),
        Clause::SetNull(sn) => escaped(syntax, sn.col_raw@) + "=NULL"@,
    }
}

/// The values a clause binds, in order.
pub open spec fn clause_args(c: Clause) -> Seq<Value> {
    match c {
        Clause::ColVal(cv) => match cv.val {
            None => Seq::empty(),
            Some(v) => seq![v],
        },
        Clause::SetVal(sv) => seq![sv.val],
        Clause::SetNull(_) => Seq::empty(),
    }
}

/// The values that a list of clauses binds, in order.
pub open spec fn all_args(cs: Seq<Clause>) -> Seq<Value>
    decreases cs.len(),
{
    if cs.len() == 0 {
        Seq::empty()
    } else {
        all_args(cs.drop_last()) + clause_args(cs.last())
    }
}

/// The texts of a list of clauses, their placeholders numbered on from `start`
/// in the order in which the clauses bind.
pub open spec fn all_texts(cs: Seq<Clause>, syntax: Syntax, alias: Seq<char>, start: nat) -> Seq<
    Seq<char>,
>
    decreases cs.len(),
{
    if cs.len() == 0 {
        Seq::empty()
    } else {
        all_texts(cs.drop_last(), syntax, alias, start).push(
            clause_text(cs.last(), syntax, alias, start + all_args(cs.drop_last()).len()),
        )
    }
}

/// A clause binds at most one value.
pub proof fn lemma_args_len(cs: Seq<Clause>)
    ensures
        all_args(cs).len() <= cs.len(),
    decreases cs.len(),
{
    if cs.len() > 0 {
        lemma_args_len(cs.drop_last());
    }
}

impl Clause {
    /// The SQL text of the clause; a placeholder is taken from `params` only
    /// when the clause binds a value.
    pub fn render(&self, syntax: Syntax, alias: &str, params: &mut NextParam) -> (r: String)
        requires
            old(params)@.syntax == syntax,
            old(params)@.counter < usize::MAX,
        ensures
            r@ == clause_text(*self, syntax, alias@, old(params)@.counter),
            final(params)@.syntax == syntax,
            final(params)@.counter == old(params)@.counter + clause_args(*self).len(),
    {
        match self {
            Clause::ColVal(cv) => {
                let mut out = String::from_str(alias);
                out.append(".");
                let name = escape(syntax, cv.col.as_str());
                out.append(name.as_str());
                match &cv.val {
                    None => {
                        if cv.not_clause {
                            out.append(" IS NOT NULL");
                        } else {
                            out.append(" IS NULL");
                        }
                    },
                    Some(_) => {
                        out.append(" ");
                        out.append(operator_str(cv.operator, cv.not_clause));
                        out.append(" ");
                        let p = params.next();
                        out.append(p.as_str());
                    },
                }
                out
            },
            Clause::SetVal(sv) => {
                let mut out = escape(syntax, sv.col_raw.as_str());
                out.append("=");
                let p = params.next();
                out.append(p.as_str());
                out
            },
            Clause::SetNull(sn) => {
                let mut out = escape(syntax, sn.col_raw.as_str());
                out.append("=NULL");
                out
            },
        }
    }

    /// Appends the values the clause binds to `args`.
    pub fn bind(&self, args: &mut Vec<Value>)
        ensures
            final(args)@ == old(args)@ + clause_args(*self),
    {
        match self {
            Clause::ColVal(cv) => match &cv.val {
                None => {},
                Some(v) => {
                    args.push(v.duplicate());
                },
            },
            Clause::SetVal(sv) => {
                args.push(sv.val.duplicate());
            },
            Clause::SetNull(_) => {},
        }
        assert(final(args)@ =~= old(args)@ + clause_args(*self));
    }
}

/// The WHERE section over the conditions, empty when there are none.
pub open spec fn where_of(parts: Seq<Seq<char>>) -> Seq<char> {
    if parts.len() == 0 {
        Seq::empty()
    } else {
        "WHERE ( "@ + join(parts, " AND "@) + " )"@
    }
}

/// Renders the clauses in order, each binding its values as its text is
/// written, so that the placeholders and the arguments keep one order.
pub fn render_clauses(
    cs: &Vec<Clause>,
    syntax: Syntax,
    alias: &str,
    params: &mut NextParam,
    args: &mut Vec<Value>,
) -> (r: Vec<String>)
    requires
        old(params)@.syntax == syntax,
        old(params)@.counter + cs.len() < usize::MAX,
    ensures
        views(r@) == all_texts(cs@, syntax, alias@, old(params)@.counter),
        final(args)@ == old(args)@ + all_args(cs@),
        final(params)@ == (ParamState {
            syntax,
            counter: old(params)@.counter + all_args(cs@).len(),
        }),
{
    let ghost start = params@.counter;
    let mut parts: Vec<String> = Vec::new();
    let mut i: usize = 0;
    while i < cs.len()
        invariant
            i <= cs.len(),
            start == old(params)@.counter,
            start + cs.len() < usize::MAX,
            views(parts@) == all_texts(cs@.take(i as int), syntax, alias@, start),
            args@ == old(args)@ + all_args(cs@.take(i as int)),
            params@ == (ParamState {
                syntax,
                counter: start + all_args(cs@.take(i as int)).len(),
            }),
        decreases cs.len() - i,
    {
        proof {
            lemma_args_len(cs@.take(i as int));
            assert(cs@.take(i + 1).drop_last() =~= cs@.take(i as int));
            assert(cs@.take(i + 1).last() == cs@[i as int]);
        }
        cs[i].bind(args);
        let text = cs[i].render(syntax, alias, params);
        parts.push(text);
        proof {
            assert(views(parts@) =~= all_texts(cs@.take(i + 1), syntax, alias@, start));
            assert(args@ =~= old(args)@ + all_args(cs@.take(i + 1)));
        }
        i = i + 1;
    }
    proof {
        assert(cs@.take(i as int) =~= cs@);
    }
    parts
}

/// Writes the WHERE section over the conditions.
pub fn write_where(parts: &Vec<String>) -> (r: String)
    ensures
        r@ == where_of(views(parts@)),
{
    if parts.len() == 0 {
        return String::new();
    }
    let mut out = String::from_str("WHERE ( ");
    let joined = join_strings(parts, " AND ");
    out.append(joined.as_str());
    out.append(" )");
    out
}

/// A comparison given no value renders as a null test and binds nothing,
/// whatever its operator family: `IS NULL`, or `IS NOT NULL` when negated.
pub proof fn lemma_absent_value_is_null_test(
    cv: ClauseColVal,
    syntax: Syntax,
    alias: Seq<char>,
    idx: nat,
)
    requires
        cv.val is None,
    ensures
        clause_args(Clause::ColVal(cv)).len() == 0,
        clause_text(Clause::ColVal(cv), syntax, alias, idx) == column_ref(syntax, alias, cv.col@)
            + if cv.not_clause {
            " IS NOT NULL"@
        } else {
            " IS NULL"@
        },
{
}

/// The values that two lists bind one after the other are those of the first,
/// then those of the second.
pub proof fn lemma_all_args_append(a: Seq<Clause>, b: Seq<Clause>)
    ensures
        all_args(a + b) == all_args(a) + all_args(b),
    decreases b.len(),
{
    if b.len() == 0 {
        assert(a + b =~= a);
        assert(all_args(a) + all_args(b) =~= all_args(a));
    } else {
        assert((a + b).drop_last() =~= a + b.drop_last());
        assert((a + b).last() == b.last());
        lemma_all_args_append(a, b.drop_last());
        assert(all_args(a + b) =~= all_args(a) + all_args(b));
    }
}

/// The text of the clause at position `i` is its own text with the placeholder
/// numbered on from `start` by the count of values bound before it.
pub proof fn lemma_all_texts_index(
    cs: Seq<Clause>,
    syntax: Syntax,
    alias: Seq<char>,
    start: nat,
    i: int,
)
    requires
        0 <= i < cs.len(),
    ensures
        all_texts(cs, syntax, alias, start).len() == cs.len(),
        all_texts(cs, syntax, alias, start)[i] == clause_text(
            cs[i],
            syntax,
            alias,
            start + all_args(cs.take(i)).len(),
        ),
    decreases cs.len(),
{
    lemma_all_texts_len(cs, syntax, alias, start);
    if i == cs.len() - 1 {
        assert(cs.drop_last() =~= cs.take(i));
    } else {
        assert(cs.drop_last().take(i) =~= cs.take(i));
        lemma_all_texts_index(cs.drop_last(), syntax, alias, start, i);
    }
}

proof fn lemma_all_texts_len(cs: Seq<Clause>, syntax: Syntax, alias: Seq<char>, start: nat)
    ensures
        all_texts(cs, syntax, alias, start).len() == cs.len(),
    decreases cs.len(),
{
    if cs.len() > 0 {
        lemma_all_texts_len(cs.drop_last(), syntax, alias, start);
    }
}

/// Placeholders and arguments keep one order: where the clause at position
/// `i` binds a value and `k` values are bound before it, its text holds the
/// placeholder numbered `start + k`, and the argument at position `k` is its
/// value. A list rendered from one binds exactly as many values as the
/// placeholders it writes.
pub proof fn lemma_placeholder_matches_argument(
    cs: Seq<Clause>,
    syntax: Syntax,
    alias: Seq<char>,
    start: nat,
    i: int,
)
    requires
        0 <= i < cs.len(),
        clause_args(cs[i]).len() == 1,
    ensures
        ({
            let k = all_args(cs.take(i)).len();
            &&& all_texts(cs, syntax, alias, start)[i] == clause_text(
                cs[i],
                syntax,
                alias,
                start + k,
            )
            &&& k < all_args(cs).len()
            &&& all_args(cs)[k as int] == clause_args(cs[i])[0]
        }),
{
    lemma_all_texts_index(cs, syntax, alias, start, i);
    let k = all_args(cs.take(i)).len();
    assert(cs =~= cs.take(i) + (seq![cs[i]] + cs.skip(i + 1)));
    lemma_all_args_append(cs.take(i), seq![cs[i]] + cs.skip(i + 1));
    lemma_all_args_append(seq![cs[i]], cs.skip(i + 1));
    let single = seq![cs[i]];
    assert(single.drop_last() =~= Seq::<Clause>::empty());
    assert(single.last() == cs[i]);
    assert(all_args(single.drop_last()) =~= Seq::<Value>::empty());
    assert(all_args(single) =~= clause_args(cs[i]));
}

/// The text of a binding clause before its placeholder.
pub open spec fn clause_head(c: Clause, syntax: Syntax, alias: Seq<char>) -> Seq<char> {
    match c {
        Clause::ColVal(cv) => column_ref(syntax, alias, cv.col@) + " "@ + operator_text(
            cv.operator,
            cv.not_clause,
        ) + " "@,
        Clause::SetVal(sv) => escaped(syntax, sv.col_raw@) + "="@,
        Clause::SetNull(sn) => escaped(syntax, sn.col_raw@) + "=NULL"@,
    }
}

/// A clause that binds a value writes one placeholder, at its end; one that
/// binds none writes the same text whatever placeholder would come next.
pub proof fn lemma_clause_placeholder(c: Clause, syntax: Syntax, alias: Seq<char>, i: nat, j: nat)
    ensures
        clause_args(c).len() <= 1,
        clause_args(c).len() == 1 ==> clause_text(c, syntax, alias, i) == clause_head(
            c,
            syntax,
            alias,
        ) + placeholder(syntax, i),
        clause_args(c).len() == 0 ==> clause_text(c, syntax, alias, i) == clause_text(
            c,
            syntax,
            alias,
            j,
        ),
{
}

/// The placeholders that the texts of a list of clauses write, in order.
pub open spec fn all_placeholders(cs: Seq<Clause>, syntax: Syntax, start: nat) -> Seq<Seq<char>>
    decreases cs.len(),
{
    if cs.len() == 0 {
        Seq::empty()
    } else {
        let before = all_args(cs.drop_last()).len();
        all_placeholders(cs.drop_last(), syntax, start) + if clause_args(cs.last()).len() == 0 {
            Seq::empty()
        } else {
            seq![placeholder(syntax, start + before)]
        }
    }
}

/// A list of clauses rendered from `start` writes exactly as many placeholders
/// as it binds values, numbered on from `start` without a gap.
pub proof fn lemma_placeholders_count_args(cs: Seq<Clause>, syntax: Syntax, start: nat)
    ensures
        all_placeholders(cs, syntax, start) == Seq::new(
            all_args(cs).len(),
            |k: int| placeholder(syntax, start + k as nat),
        ),
    decreases cs.len(),
{
    if cs.len() > 0 {
        lemma_placeholders_count_args(cs.drop_last(), syntax, start);
        lemma_clause_placeholder(cs.last(), syntax, Seq::empty(), 0, 0);
        assert(all_placeholders(cs, syntax, start) =~= Seq::new(
            all_args(cs).len(),
            |k: int| placeholder(syntax, start + k as nat),
        ));
    } else {
        assert(all_placeholders(cs, syntax, start) =~= Seq::new(
            all_args(cs).len(),
            |k: int| placeholder(syntax, start + k as nat),
        ));
    }
}

} // verus!
