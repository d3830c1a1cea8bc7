//! The decisions an algorithm hands back for one step.
use vstd::prelude::*;

use crate::order::OrderType;
use crate::position::{Position, PositionType};

verus! {

/// One decision of an algorithm. A `Buy` is for a positive number of
/// pieces. A `Sell` refers to a position the algorithm was given, so it
/// lives no longer than the call that made it.
#[derive(Clone, Copy, Debug)]
pub enum Instruction<'p> {
    Buy { pieces: u64, order_type: OrderType, position_type: PositionType },
    Sell { position: &'p Position },
    /// Nothing to do in this step.
    Hold,
}

/// A `Buy` asks for at least one piece.
pub open spec fn well_formed(ins: Instruction) -> bool {
    match ins {
        Instruction::Buy { pieces, .. } => pieces > 0,
        _ => true,
    }
}

} // verus!
