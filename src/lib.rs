//! Compiles composable query descriptions into dialect-correct, parameterized
//! SQL text plus the ordered list of values bound to its placeholders.
//!
//! `syntax` holds the per-dialect rules, `nextparam` the placeholder sequence
//! of one statement, `clause` the predicates and assignments, and `select`,
//! `update`, `delete` and `insert` the statements built from them.
pub mod alias;
pub mod assign;
pub mod clause;
pub mod decimal;
pub mod delete;
pub mod errors;
pub mod insert;
pub mod join;
pub mod nextparam;
pub mod schema;
pub mod select;
pub mod subquery;
pub mod syntax;
pub mod text;
pub mod update;
pub mod value;
