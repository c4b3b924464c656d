use crate::clause::{Clause, ClauseColVal, Operator};
use crate::value::Value;
use vstd::prelude::*;

verus! {

/// A text column that cannot hold NULL: its predicates always bind a value.
pub struct Text {
    pub col: String,
    pub field: String,
}

impl Text {
    pub fn new(col: String, field: String) -> (r: Self)
        ensures
            r == (Text { col, field }),
    {
        Text { col, field }
    }

    /// The column's name in the database.
    pub fn colname(&self) -> (r: &str)
        ensures
            r@ == self.col@,
    {
        self.col.as_str()
    }

    /// The name of the model's field that the column holds.
    pub fn fieldname(&self) -> (r: &str)
        ensures
            r@ == self.field@,
    {
        self.field.as_str()
    }

    /// The column tested for equality with the value.
    pub fn equal(self, v: String) -> (r: Clause)
        ensures
            r == Clause::ColVal(
                ClauseColVal {
                    col: self.col,
                    operator: Operator::Equal,
                    not_clause: false,
                    val: Some(Value::Text(v)),
                },
            ),
    {
        let val = Some(Value::Text(v));
        Clause::ColVal(
            ClauseColVal { col: self.col, operator: Operator::Equal, not_clause: false, val },
        )
    }

    /// The column tested for inequality with the value.
    pub fn not_equal(self, v: String) -> (r: Clause)
        ensures
            r == Clause::ColVal(
                ClauseColVal {
                    col: self.col,
                    operator: Operator::Equal,
                    not_clause: true,
                    val: Some(Value::Text(v)),
                },
            ),
    {
        let val = Some(Value::Text(v));
        Clause::ColVal(
            ClauseColVal { col: self.col, operator: Operator::Equal, not_clause: true, val },
        )
    }

    /// The column tested for a `like` pattern match with the value.
    pub fn like(self, v: String) -> (r: Clause)
        ensures
            r == Clause::ColVal(
                ClauseColVal {
                    col: self.col,
                    operator: Operator::Like,
                    not_clause: false,
                    val: Some(Value::Text(v)),
                },
            ),
    {
        let val = Some(Value::Text(v));
        Clause::ColVal(
            ClauseColVal { col: self.col, operator: Operator::Like, not_clause: false, val },
        )
    }

    /// The column tested for a negated `like` pattern match with the value.
    pub fn not_like(self, v: String) -> (r: Clause)
        ensures
            r == Clause::ColVal(
                ClauseColVal {
                    col: self.col,
                    operator: Operator::Like,
                    not_clause: true,
                    val: Some(Value::Text(v)),
                },
            ),
    {
        let val = Some(Value::Text(v));
        Clause::ColVal(
            ClauseColVal { col: self.col, operator: Operator::Like, not_clause: true, val },
        )
    }

    /// The column tested for an `ilike` pattern match with the value.
    pub fn ilike(self, v: String) -> (r: Clause)
        ensures
            r == Clause::ColVal(
                ClauseColVal {
                    col: self.col,
                    operator: Operator::ILike,
                    not_clause: false,
                    val: Some(Value::Text(v)),
                },
            ),
    {
        let val = Some(Value::Text(v));
        Clause::ColVal(
            ClauseColVal { col: self.col, operator: Operator::ILike, not_clause: false, val },
        )
    }

    /// The column tested for a negated `ilike` pattern match with the value.
    pub fn not_ilike(self, v: String) -> (r: Clause)
        ensures
            r == Clause::ColVal(
                ClauseColVal {
                    col: self.col,
                    operator: Operator::ILike,
                    not_clause: true,
                    val: Some(Value::Text(v)),
                },
            ),
    {
        let val = Some(Value::Text(v));
        Clause::ColVal(
            ClauseColVal { col: self.col, operator: Operator::ILike, not_clause: true, val },
        )
    }
}

/// A text column that may hold NULL: a predicate given no value tests for NULL.
pub struct TextOpt {
    pub col: String,
    pub field: String,
}

impl TextOpt {
    pub fn new(col: String, field: String) -> (r: Self)
        ensures
            r == (TextOpt { col, field }),
    {
        TextOpt { col, field }
    }

    /// The column's name in the database.
    pub fn colname(&self) -> (r: &str)
        ensures
            r@ == self.col@,
    {
        self.col.as_str()
    }

    /// The name of the model's field that the column holds.
    pub fn fieldname(&self) -> (r: &str)
        ensures
            r@ == self.field@,
    {
        self.field.as_str()
    }

    /// The column tested for equality; with no value, a null test.
    pub fn equal(self, v: Option<String>) -> (r: Clause)
        ensures
            r == Clause::ColVal(
                ClauseColVal {
                    col: self.col,
                    operator: Operator::Equal,
                    not_clause: false,
                    val: match v {
                Some(s) => Some(Value::Text(s)),
                None => None,
            },
                },
            ),
    {
        let val = match v {
            Some(s) => Some(Value::Text(s)),
            None => None,
        };
        Clause::ColVal(
            ClauseColVal { col: self.col, operator: Operator::Equal, not_clause: false, val },
        )
    }

    /// The column tested for inequality; with no value, a null test.
    pub fn not_equal(self, v: Option<String>) -> (r: Clause)
        ensures
            r == Clause::ColVal(
                ClauseColVal {
                    col: self.col,
                    operator: Operator::Equal,
                    not_clause: true,
                    val: match v {
                Some(s) => Some(Value::Text(s)),
                None => None,
            },
                },
            ),
    {
        let val = match v {
            Some(s) => Some(Value::Text(s)),
            None => None,
        };
        Clause::ColVal(
            ClauseColVal { col: self.col, operator: Operator::Equal, not_clause: true, val },
        )
    }

    /// The column tested for a `like` pattern match; with no value, a null test.
    pub fn like(self, v: Option<String>) -> (r: Clause)
        ensures
            r == Clause::ColVal(
                ClauseColVal {
                    col: self.col,
                    operator: Operator::Like,
                    not_clause: false,
                    val: match v {
                Some(s) => Some(Value::Text(s)),
                None => None,
            },
                },
            ),
    {
        let val = match v {
            Some(s) => Some(Value::Text(s)),
            None => None,
        };
        Clause::ColVal(
            ClauseColVal { col: self.col, operator: Operator::Like, not_clause: false, val },
        )
    }

    /// The column tested for a negated `like` pattern match; with no value, a null test.
    pub fn not_like(self, v: Option<String>) -> (r: Clause)
        ensures
            r == Clause::ColVal(
                ClauseColVal {
                    col: self.col,
                    operator: Operator::Like,
                    not_clause: true,
                    val: match v {
                Some(s) => Some(Value::Text(s)),
                None => None,
            },
                },
            ),
    {
        let val = match v {
            Some(s) => Some(Value::Text(s)),
            None => None,
        };
        Clause::ColVal(
            ClauseColVal { col: self.col, operator: Operator::Like, not_clause: true, val },
        )
    }

    /// The column tested for an `ilike` pattern match; with no value, a null test.
    pub fn ilike(self, v: Option<String>) -> (r: Clause)
        ensures
            r == Clause::ColVal(
                ClauseColVal {
                    col: self.col,
                    operator: Operator::ILike,
                    not_clause: false,
                    val: match v {
                Some(s) => Some(Value::Text(s)),
                None => None,
            },
                },
            ),
    {
        let val = match v {
            Some(s) => Some(Value::Text(s)),
            None => None,
        };
        Clause::ColVal(
            ClauseColVal { col: self.col, operator: Operator::ILike, not_clause: false, val },
        )
    }

    /// The column tested for a negated `ilike` pattern match; with no value, a null test.
    pub fn not_ilike(self, v: Option<String>) -> (r: Clause)
        ensures
            r == Clause::ColVal(
                ClauseColVal {
                    col: self.col,
                    operator: Operator::ILike,
                    not_clause: true,
                    val: match v {
                Some(s) => Some(Value::Text(s)),
                None => None,
            },
                },
            ),
    {
        let val = match v {
            Some(s) => Some(Value::Text(s)),
            None => None,
        };
        Clause::ColVal(
            ClauseColVal { col: self.col, operator: Operator::ILike, not_clause: true, val },
        )
    }
}

} // verus!
