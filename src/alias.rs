use crate::decimal::{decimal_text, lemma_decimal_injective, write_decimal};
use vstd::prelude::*;
use vstd::string::StringExecFns;

verus! {

/// The `n`-th table alias of a statement.
pub open spec fn alias_name(n: nat) -> Seq<char> {
    "t"@ + decimal_text(n)
}

/// Hands out the table aliases of one statement in order, starting at one;
/// the outer table takes the first.
pub struct TableAlias {
    i: usize,
}

impl View for TableAlias {
    type V = nat;

    closed spec fn view(&self) -> nat {
        self.i as nat
    }
}

impl TableAlias {
    pub fn new() -> (r: Self)
        ensures
            r@ == 1,
    {
        TableAlias { i: 1 }
    }

    /// The alias that `next` hands out next, without taking it.
    pub fn peek(&self) -> (r: String)
        ensures
            r@ == alias_name(self@),
    {
        let mut out = String::from_str("t");
        write_decimal(&mut out, self.i);
        out
    }

    /// Takes the next alias.
    pub fn next(&mut self) -> (r: String)
        requires
            old(self)@ < usize::MAX,
        ensures
            r@ == alias_name(old(self)@),
            final(self)@ == old(self)@ + 1,
    {
        let r = self.peek();
        self.i = self.i + 1;
        r
    }
}

/// Aliases handed out at different points of one statement never collide.
pub proof fn lemma_aliases_unique(a: nat, b: nat)
    requires
        a != b,
    ensures
        alias_name(a) != alias_name(b),
{
    if alias_name(a) == alias_name(b) {
        let t = "t"@;
        assert(alias_name(a).skip(t.len() as int) =~= decimal_text(a));
        assert(alias_name(b).skip(t.len() as int) =~= decimal_text(b));
        lemma_decimal_injective(a, b);
    }
}

} // verus!
