//! Open positions.
use vstd::prelude::*;

use crate::order::Order;
use crate::time::Timestamp;

verus! {

/// A position opened when an order filled.
#[derive(Debug)]
pub struct Position {
    /// Assigned by the broker, unique among open positions.
    pub id: String,
    pub bought: Timestamp,
    pub order: Order,
}

#[derive(Clone, Copy, Debug, PartialEq, Eq, Structural)]
pub enum PositionType {
    LongCall,
    LongPut,
    ShortCall,
    ShortPut,
}

} // verus!
