use vstd::prelude::*;

verus! {

/// Why a statement could not be compiled.
#[derive(Clone, Debug, PartialEq, Eq)]
pub enum WeldsError {
    /// A row-targeted operation on a table without a primary key.
    NoPrimaryKey,
    /// A column that the row object holds no value for (the column's name).
    MissingColumn(String),
    /// A feature that the dialect's writer does not provide.
    UnsupportedOperation,
    /// More bound arguments than the dialect accepts in one statement.
    ParamLimitExceeded,
}

} // verus!
