//! Orders: what kind of order, when it is placed, how long it stays valid.
use vstd::prelude::*;

use crate::derivative::Derivative;
use crate::position::PositionType;
use crate::time::{in_range, now, Timestamp, DAY_MILLIS, TIMESTAMP_LIMIT};

verus! {

/// A price, kept as the bit pattern of an IEEE-754 double. The library
/// carries prices to the execution layer and never computes with them.
#[derive(Clone, Copy, Debug, PartialEq, Eq, Structural)]
pub struct Price {
    pub bits: u64,
}

/// A percentage, kept as the bit pattern of an IEEE-754 double.
#[derive(Clone, Copy, Debug, PartialEq, Eq, Structural)]
pub struct Percent {
    pub bits: u64,
}

/// A distance in points, kept as the bit pattern of an IEEE-754 double.
#[derive(Clone, Copy, Debug, PartialEq, Eq, Structural)]
pub struct Points {
    pub bits: u64,
}

/// The exchange an order is placed at.
#[derive(Clone, Debug, PartialEq, Eq)]
pub struct StockExchange {
    pub name: String,
}

/// The distance by which a trailing stop follows the market price.
#[derive(Clone, Copy, Debug, PartialEq, Eq, Structural)]
pub enum TrailingStop {
    Percent(Percent),
    Price(Price),
    Points(Points),
}

#[derive(Clone, Copy, Debug, PartialEq, Eq, Structural)]
pub enum OrderType {
    MarketOrder,
    LimitOrder(Price),
    StopOrder(Price),
    TrailingStopOrder(Price, TrailingStop),
}

/// When an order is to be placed.
#[derive(Clone, Copy, Debug, PartialEq, Eq, Structural)]
pub enum OrderMoment {
    Instant,
    Planned(Timestamp),
}

/// Milliseconds from `now` until `moment`: zero for an instant order.
pub open spec fn time_until(moment: OrderMoment, now: Timestamp) -> int {
    match moment {
        OrderMoment::Instant => 0,
        OrderMoment::Planned(t) => t.spec_millis() - now.spec_millis(),
    }
}

impl OrderMoment {
    /// Milliseconds from `now` until this moment.
    pub fn as_duration_at(&self, now: Timestamp) -> (r: i128)
        ensures
            r == time_until(*self, now),
    {
        match self {
            OrderMoment::Instant => 0,
            OrderMoment::Planned(t) => t.millis() as i128 - now.millis() as i128,
        }
    }

    /// Milliseconds from the current time until this moment; none where
    /// the clock cannot be read. An instant needs no clock.
    pub fn as_duration(&self) -> (r: Option<i128>)
        ensures
            r matches Some(d) ==> exists|now: Timestamp| d == time_until(*self, now),
            *self is Instant ==> r == Some(0i128),
    {
        match self {
            OrderMoment::Instant => {
                assert(time_until(*self, arbitrary()) == 0);
                Some(0)
            },
            OrderMoment::Planned(_) => match now() {
                Some(t) => Some(self.as_duration_at(t)),
                None => None,
            },
        }
    }

    /// Whether this moment has come at time `now`.
    pub fn is_now_or_passed_at(&self, now: Timestamp) -> (r: bool)
        ensures
            r == (time_until(*self, now) <= 0),
            *self is Instant ==> r,
            forall|t: Timestamp| *self == OrderMoment::Planned(t) ==> (r <==> t.spec_millis() <= now.spec_millis()),
    {
        self.as_duration_at(now) <= 0
    }

    /// Whether this moment has come at the current time; none where the
    /// clock cannot be read. An instant has always come.
    pub fn is_now_or_passed(&self) -> (r: Option<bool>)
        ensures
            r matches Some(b) ==> exists|now: Timestamp| b == (time_until(*self, now) <= 0),
            *self is Instant ==> r == Some(true),
    {
        match self {
            OrderMoment::Instant => {
                assert(time_until(*self, arbitrary()) <= 0);
                Some(true)
            },
            OrderMoment::Planned(_) => match now() {
                Some(t) => Some(self.is_now_or_passed_at(t)),
                None => None,
            },
        }
    }
}

/// How long an order stays valid after it was made.
#[derive(Clone, Copy, Debug, PartialEq, Eq, Structural)]
pub enum OrderValidity {
    OneDay,
    OneWeek,
    OneMonth,
    OneYear,
    Forever,
}

/// The duration of a validity in milliseconds; `Forever` is the largest
/// duration there is.
pub open spec fn validity_millis(v: OrderValidity) -> int {
    match v {
        OrderValidity::OneDay => DAY_MILLIS as int,
        OrderValidity::OneWeek => 7 * DAY_MILLIS,
        OrderValidity::OneMonth => 30 * DAY_MILLIS,
        OrderValidity::OneYear => 365 * DAY_MILLIS,
        OrderValidity::Forever => i64::MAX as int,
    }
}

/// An order made at `start` with validity `v` is still valid at `now`.
pub open spec fn valid_at(v: OrderValidity, start: Timestamp, now: Timestamp) -> bool {
    valid_between(v, start.spec_millis(), now.spec_millis())
}

/// An order made `start` milliseconds after the epoch with validity `v` is
/// still valid `now` milliseconds after it.
pub open spec fn valid_between(v: OrderValidity, start: int, now: int) -> bool {
    start + validity_millis(v) >= now
}

impl OrderValidity {
    /// The duration of this validity, in milliseconds.
    pub fn as_duration(&self) -> (r: i64)
        ensures
            r == validity_millis(*self),
    {
        match self {
            OrderValidity::OneDay => DAY_MILLIS,
            OrderValidity::OneWeek => 7 * DAY_MILLIS,
            OrderValidity::OneMonth => 30 * DAY_MILLIS,
            OrderValidity::OneYear => 365 * DAY_MILLIS,
            OrderValidity::Forever => i64::MAX,
        }
    }

    /// Whether an order made at `start` is still valid at `now`.
    pub fn is_valid_at(&self, start: &Timestamp, now: Timestamp) -> (r: bool)
        ensures
            r == valid_at(*self, *start, now),
            *self is Forever ==> r,
    {
        let end: i128 = start.millis() as i128 + self.as_duration() as i128;
        end >= now.millis() as i128
    }

    /// Whether an order made at `start` is still valid at the current time;
    /// none where the clock cannot be read. `Forever` needs no clock.
    pub fn is_valid(&self, start: &Timestamp) -> (r: Option<bool>)
        ensures
            r matches Some(b) ==> exists|now: Timestamp| b == valid_at(*self, *start, now),
            *self is Forever ==> r == Some(true),
    {
        match self {
            OrderValidity::Forever => {
                assert(valid_at(*self, *start, *start));
                Some(true)
            },
            _ => match now() {
                Some(t) => Some(self.is_valid_at(start, t)),
                None => None,
            },
        }
    }
}

/// A longer validity outlives a shorter one: when `a` is shorter than `b`,
/// every moment after `a` ran out and up to the end of `b` finds an order
/// with validity `a` invalid and one with validity `b` still valid, and
/// such a moment can be a timestamp wherever the end of `a` is not the
/// last one.
pub proof fn lemma_longer_validity_outlives(a: OrderValidity, b: OrderValidity, start: Timestamp)
    requires
        in_range(start.spec_millis()),
        validity_millis(a) < validity_millis(b),
        start.spec_millis() + validity_millis(a) < TIMESTAMP_LIMIT,
    ensures
        forall|now: int|
            start.spec_millis() + validity_millis(a) < now <= start.spec_millis() + validity_millis(b)
                ==> !valid_between(a, start.spec_millis(), now) && valid_between(b, start.spec_millis(), now),
        in_range(start.spec_millis() + validity_millis(a) + 1),
        !valid_between(a, start.spec_millis(), start.spec_millis() + validity_millis(a) + 1),
        valid_between(b, start.spec_millis(), start.spec_millis() + validity_millis(a) + 1),
{
}

/// Whether a sibling order could be withdrawn together with the one that
/// carries the link.
#[derive(Clone, Copy, Debug, PartialEq, Eq, Structural)]
pub enum CancelResult {
    Canceled,
    NotCanceled,
}

/// An order of the execution layer. It carries at most one sibling: when
/// either of the two fills or is cancelled, the other one is cancelled too.
#[derive(Debug)]
pub struct Order {
    stock_exchange: StockExchange,
    order_time: Timestamp,
    derivative: Derivative,
    pieces: u64,
    order_type: OrderType,
    position_type: PositionType,
    order_moment: OrderMoment,
    order_validity: OrderValidity,
    one_cancels_the_other: Option<Box<Order>>,
}

impl Order {
    pub closed spec fn spec_order_time(&self) -> Timestamp {
        self.order_time
    }

    pub closed spec fn spec_pieces(&self) -> u64 {
        self.pieces
    }

    pub closed spec fn spec_order_type(&self) -> OrderType {
        self.order_type
    }

    pub closed spec fn spec_position_type(&self) -> PositionType {
        self.position_type
    }

    pub closed spec fn spec_moment(&self) -> OrderMoment {
        self.order_moment
    }

    pub closed spec fn spec_validity(&self) -> OrderValidity {
        self.order_validity
    }

    pub closed spec fn spec_derivative(&self) -> Derivative {
        self.derivative
    }

    pub closed spec fn spec_stock_exchange(&self) -> StockExchange {
        self.stock_exchange
    }

    /// Whether this order carries a sibling link.
    pub closed spec fn spec_has_sibling(&self) -> bool {
        self.one_cancels_the_other is Some
    }

    /// The sibling this order carries, if any.
    pub closed spec fn spec_sibling(&self) -> Option<Order> {
        match self.one_cancels_the_other {
            Some(b) => Some(*b),
            None => None,
        }
    }

    /// Everything but the sibling link is the same in `a` and `b`.
    pub open spec fn same_terms(a: Order, b: Order) -> bool {
        &&& a.spec_stock_exchange() == b.spec_stock_exchange()
        &&& a.spec_order_time() == b.spec_order_time()
        &&& a.spec_derivative() == b.spec_derivative()
        &&& a.spec_pieces() == b.spec_pieces()
        &&& a.spec_order_type() == b.spec_order_type()
        &&& a.spec_position_type() == b.spec_position_type()
        &&& a.spec_moment() == b.spec_moment()
        &&& a.spec_validity() == b.spec_validity()
    }

    /// An order without a sibling, for a positive number of pieces.
    pub fn new(
        stock_exchange: StockExchange,
        order_time: Timestamp,
        derivative: Derivative,
        pieces: u64,
        order_type: OrderType,
        position_type: PositionType,
        order_moment: OrderMoment,
        order_validity: OrderValidity,
    ) -> (r: Self)
        requires
            pieces > 0,
        ensures
            r.spec_stock_exchange() == stock_exchange,
            r.spec_order_time() == order_time,
            r.spec_derivative() == derivative,
            r.spec_pieces() == pieces,
            r.spec_order_type() == order_type,
            r.spec_position_type() == position_type,
            r.spec_moment() == order_moment,
            r.spec_validity() == order_validity,
            !r.spec_has_sibling(),
    {
        Order {
            stock_exchange,
            order_time,
            derivative,
            pieces,
            order_type,
            position_type,
            order_moment,
            order_validity,
            one_cancels_the_other: None,
        }
    }

    /// Ties `sibling` to this order: when this order fills or is cancelled,
    /// the sibling is cancelled with it. An order has at most one sibling.
    pub fn with_sibling(self, sibling: Order) -> (r: Self)
        requires
            !self.spec_has_sibling(),
        ensures
            Self::same_terms(r, self),
            r.spec_sibling() == Some(sibling),
            r.spec_has_sibling(),
    {
        let mut r = self;
        r.one_cancels_the_other = Some(Box::new(sibling));
        r
    }

    /// The sibling, if there is one.
    pub fn sibling(&self) -> (r: Option<&Order>)
        ensures
            match r {
                Some(o) => self.spec_sibling() == Some(*o),
                None => self.spec_sibling() is None,
            },
    {
        match &self.one_cancels_the_other {
            Some(b) => Some(&**b),
            None => None,
        }
    }

    /// Cancels the sibling of this order, as part of this order filling or
    /// being cancelled; the sibling goes in the same step and nothing else
    /// of the order changes. Reports whether there was one to cancel.
    pub fn cancel_others(&mut self) -> (r: CancelResult)
        ensures
            Self::same_terms(*final(self), *old(self)),
            !final(self).spec_has_sibling(),
            r == (if old(self).spec_has_sibling() {
                CancelResult::Canceled
            } else {
                CancelResult::NotCanceled
            }),
    {
        match self.one_cancels_the_other.take() {
            Some(_) => CancelResult::Canceled,
            None => CancelResult::NotCanceled,
        }
    }

    pub fn order_time(&self) -> (r: Timestamp)
        ensures
            r == self.spec_order_time(),
    {
        self.order_time
    }

    pub fn pieces(&self) -> (r: u64)
        ensures
            r == self.spec_pieces(),
    {
        self.pieces
    }

    pub fn order_validity(&self) -> (r: OrderValidity)
        ensures
            r == self.spec_validity(),
    {
        self.order_validity
    }

    pub fn order_moment(&self) -> (r: OrderMoment)
        ensures
            r == self.spec_moment(),
    {
        self.order_moment
    }

    pub fn has_sibling(&self) -> (r: bool)
        ensures
            r == self.spec_has_sibling(),
    {
        self.one_cancels_the_other.is_some()
    }

    /// Whether this order is due at time `now`.
    pub fn is_now_or_passed_at(&self, now: Timestamp) -> (r: bool)
        ensures
            r == (time_until(self.spec_moment(), now) <= 0),
    {
        self.order_moment.is_now_or_passed_at(now)
    }

    /// Whether this order is due at the current time; none where the clock
    /// cannot be read.
    pub fn is_now_or_passed(&self) -> (r: Option<bool>)
        ensures
            r matches Some(b) ==> exists|now: Timestamp| b == (time_until(self.spec_moment(), now) <= 0),
            self.spec_moment() is Instant ==> r == Some(true),
    {
        self.order_moment.is_now_or_passed()
    }

    /// Whether this order is still valid at time `now`.
    pub fn is_valid_at(&self, now: Timestamp) -> (r: bool)
        ensures
            r == valid_at(self.spec_validity(), self.spec_order_time(), now),
            self.spec_validity() is Forever ==> r,
    {
        self.order_validity.is_valid_at(&self.order_time, now)
    }

    /// Whether this order is still valid at the current time; none where
    /// the clock cannot be read.
    pub fn is_valid(&self) -> (r: Option<bool>)
        ensures
            r matches Some(b) ==> exists|now: Timestamp| b == valid_at(
                self.spec_validity(),
                self.spec_order_time(),
                now,
            ),
            self.spec_validity() is Forever ==> r == Some(true),
    {
        match self.order_validity {
            OrderValidity::Forever => {
                assert(valid_at(self.spec_validity(), self.spec_order_time(), self.spec_order_time()));
                Some(true)
            },
            _ => match now() {
                Some(t) => Some(self.is_valid_at(t)),
                None => None,
            },
        }
    }
}

} // verus!
