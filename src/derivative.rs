//! The instrument an algorithm trades.
use vstd::prelude::*;

verus! {

/// How an instrument is identified.
#[derive(Clone, Debug, PartialEq, Eq)]
pub enum Identifier {
    ISIN(String),
    SYMBOL(String),
}

/// A tradable instrument.
#[derive(Clone, Debug, PartialEq, Eq)]
pub struct Derivative {
    pub identifier: Identifier,
}

impl Derivative {
    pub fn new(identifier: Identifier) -> (r: Self)
        ensures
            r.identifier == identifier,
    {
        Self { identifier }
    }
}

} // verus!
