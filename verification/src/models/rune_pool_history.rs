//! The rune pool series.

use vstd::prelude::*;

verus! {

/// One window of the rune pool series.
///
/// Instants are whole seconds since the Unix epoch; decimal numbers are
/// held by their text.
#[derive(Clone, Debug, PartialEq, Eq)]
pub struct RunePoolHistory {
    pub start_time: i64,
    pub end_time: i64,
    pub count: i64,
    pub units: i64,
}

} // verus!
