//! Counts with precision, and date helpers.
use vstd::prelude::*;

verus! {

/// How exact a count is.
#[derive(Debug, Clone, PartialEq, Eq, Structural)]
pub enum CountPrecision {
    /// `AT_LEAST`
    ATLEAST,
    /// `EXACT`
    EXACT,
}

#[derive(Debug, Clone)]
pub struct Count {
    pub count: Option<u32>,
    pub precision: Option<CountPrecision>,
}

} // verus!
