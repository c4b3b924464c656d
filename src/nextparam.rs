use crate::syntax::{max_params_of, mssql_next, placeholder, postgres_next, question_mark, Syntax};
use vstd::prelude::*;

verus! {

/// What a parameter sequencer holds: its dialect and the index of the next
/// placeholder it hands out.
pub ghost struct ParamState {
    pub syntax: Syntax,
    pub counter: nat,
}

/// Hands out the placeholder tokens of one statement, in order, starting at one.
pub struct NextParam {
    syntax: Syntax,
    i: usize,
}

impl View for NextParam {
    type V = ParamState;

    closed spec fn view(&self) -> ParamState {
        ParamState { syntax: self.syntax, counter: self.i as nat }
    }
}

impl NextParam {
    #[verifier::type_invariant]
    spec fn counter_positive(&self) -> bool {
        self.i >= 1
    }

    /// A fresh sequencer for the dialect: the first placeholder it hands out is
    /// the first one of the statement.
    pub fn new(syntax: Syntax) -> (r: Self)
        ensures
            r@ == (ParamState { syntax, counter: 1 }),
    {
        NextParam { syntax, i: 1 }
    }

    /// The placeholder for the current index; the index then moves on by one.
    pub fn next(&mut self) -> (r: String)
        requires
            old(self)@.counter < usize::MAX,
        ensures
            r@ == placeholder(old(self)@.syntax, old(self)@.counter),
            final(self)@ == (ParamState {
                syntax: old(self)@.syntax,
                counter: old(self)@.counter + 1,
            }),
    {
        let p = match self.syntax {
            Syntax::Postgres => postgres_next(self.i),
            Syntax::Mssql => mssql_next(self.i),
            Syntax::Mysql => question_mark(),
            Syntax::Sqlite => question_mark(),
        };
        self.i = self.i + 1;
        p
    }

    /// The number of placeholders handed out so far.
    pub fn issued(&self) -> (r: usize)
        ensures
            r as int == self@.counter - 1,
    {
        proof {
            use_type_invariant(self);
        }
        self.i - 1
    }

    /// The dialect's ceiling on bound parameters in one statement.
    pub fn max_params(&self) -> (r: u32)
        ensures
            r == max_params_of(self@.syntax),
    {
        match self.syntax {
            Syntax::Postgres => 65535,
            Syntax::Mssql => 60,
            Syntax::Mysql => 64000,
            Syntax::Sqlite => 999,
        }
    }
}

} // verus!
