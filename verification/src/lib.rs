//! Binding Rust values to the parameters of a prepared SQLite statement, and reading them back
//! from its result columns.

pub mod columns;
pub mod index;
pub mod laws;
pub mod statement;
pub mod value;

pub use columns::{Bindable, BindableWithIndex, ReadableWithIndex};
pub use index::{ColumnIndex, ParameterIndex};
pub use statement::{State, Statement, StatementView};
pub use value::{Column, ColumnView, Double, Error, Type, Value, ValueView};
