//! Parameterised statements, as the store takes them.

pub mod insertions;

use vstd::prelude::*;

verus! {

/// A value bound to a placeholder of a statement.
#[derive(Clone, Debug, PartialEq, Eq)]
pub enum SqlValue {
    /// An instant, in seconds since the Unix epoch.
    Timestamp(i64),
    /// A 64-bit integer.
    BigInt(i64),
    /// A 32-bit integer.
    Integer(i32),
    /// A decimal number, by its text.
    Numeric(String),
    /// A text.
    Text(String),
}

/// What a bound value is.
pub enum SqlValueView {
    Timestamp(i64),
    BigInt(i64),
    Integer(i32),
    Numeric(Seq<char>),
    Text(Seq<char>),
}

impl View for SqlValue {
    type V = SqlValueView;

    open spec fn view(&self) -> SqlValueView {
        match self {
            SqlValue::Timestamp(t) => SqlValueView::Timestamp(*t),
            SqlValue::BigInt(n) => SqlValueView::BigInt(*n),
            SqlValue::Integer(n) => SqlValueView::Integer(*n),
            SqlValue::Numeric(d) => SqlValueView::Numeric(d@),
            SqlValue::Text(t) => SqlValueView::Text(t@),
        }
    }
}

/// The values of `binds`, in their order.
pub open spec fn bound_values(binds: Seq<SqlValue>) -> Seq<SqlValueView> {
    Seq::new(binds.len(), |i: int| binds[i]@)
}

/// A statement with the values bound to its placeholders: the `n`-th value
/// belongs to the placeholder `$n`.
#[derive(Clone, Debug, PartialEq, Eq)]
pub struct Statement {
    pub text: String,
    pub binds: Vec<SqlValue>,
}

/// What a statement is: its text and its bound values.
pub struct StatementView {
    pub text: Seq<char>,
    pub binds: Seq<SqlValueView>,
}

impl View for Statement {
    type V = StatementView;

    open spec fn view(&self) -> StatementView {
        StatementView { text: self.text@, binds: bound_values(self.binds@) }
    }
}

} // verus!
