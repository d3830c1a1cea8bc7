//! The lifecycle of one loaded algorithm: which call comes next, what a
//! call's outcome does to the session, and which instructions may be
//! executed. The host makes the calls, keeps the time budget and hands the
//! outcomes back here.
use vstd::prelude::*;

use crate::error::ErrorKind;
use crate::instruction::{well_formed, Instruction};

verus! {

/// Where a session stands. The counters say how many warm-up and trading
/// steps were made.
#[derive(Clone, Copy, Debug, PartialEq, Eq, Structural)]
pub enum LifecycleState {
    Uninitialized,
    Initialized,
    WarmingUp(u64),
    Trading(u64),
    ShuttingDown,
    Terminated,
}

/// The call the host is to make next.
#[derive(Clone, Copy, Debug, PartialEq, Eq, Structural)]
pub enum LifecycleCall {
    Init,
    CollectPrices,
    Algorithm,
    Shutdown,
    /// The session is over; nothing is called any more.
    Done,
}

/// How a call ended.
#[derive(Clone, Copy, Debug, PartialEq, Eq, Structural)]
pub enum CallOutcome {
    Succeeded,
    Failed(ErrorKind),
    /// The call did not return within one time step.
    TimedOut,
}

/// What the host tells the session between steps.
#[derive(Clone, Copy, Debug, PartialEq, Eq, Structural)]
pub enum HostEvent {
    /// The host made the call the session asked for, with `prices_seen`
    /// prices collected so far, and it ended with `outcome`.
    Step { prices_seen: u64, outcome: CallOutcome },
    /// The host decided to stop trading.
    Stop,
}

/// How far along the lifecycle a state is.
pub open spec fn phase(s: LifecycleState) -> nat {
    match s {
        LifecycleState::Uninitialized => 0,
        LifecycleState::Initialized => 1,
        LifecycleState::WarmingUp(_) => 2,
        LifecycleState::Trading(_) => 3,
        LifecycleState::ShuttingDown => 4,
        LifecycleState::Terminated => 5,
    }
}

/// The call due in state `s` when `prices_seen` prices were collected and
/// the algorithm needs `min_prices` before it trades.
pub open spec fn next_call_of(s: LifecycleState, min_prices: u64, prices_seen: u64) -> LifecycleCall {
    match s {
        LifecycleState::Uninitialized => LifecycleCall::Init,
        LifecycleState::Initialized | LifecycleState::WarmingUp(_) => if prices_seen < min_prices {
            LifecycleCall::CollectPrices
        } else {
            LifecycleCall::Algorithm
        },
        LifecycleState::Trading(_) => LifecycleCall::Algorithm,
        LifecycleState::ShuttingDown => LifecycleCall::Shutdown,
        LifecycleState::Terminated => LifecycleCall::Done,
    }
}

/// Whether an outcome forces the session to shut down: a panic-kind error,
/// or a call that ran out of time.
pub open spec fn forces_shutdown(o: CallOutcome) -> bool {
    match o {
        CallOutcome::Failed(k) => k == ErrorKind::Panic,
        CallOutcome::TimedOut => true,
        CallOutcome::Succeeded => false,
    }
}

/// One more step, short of the largest count.
pub open spec fn bumped(n: u64) -> u64 {
    if n < u64::MAX {
        (n + 1) as u64
    } else {
        n
    }
}

/// The state after `call` was made in state `s` and ended with `o`. Calls
/// are never retried: a call that failed without forcing a shutdown still
/// counts as made, and the host decides what to do about its error.
pub open spec fn state_after(s: LifecycleState, call: LifecycleCall, o: CallOutcome) -> LifecycleState {
    if !call_allowed(s, call) {
        s
    } else if call == LifecycleCall::Shutdown {
        LifecycleState::Terminated
    } else if forces_shutdown(o) {
        LifecycleState::ShuttingDown
    } else {
        match call {
            LifecycleCall::Init => LifecycleState::Initialized,
            LifecycleCall::CollectPrices => match s {
                LifecycleState::WarmingUp(n) => LifecycleState::WarmingUp(bumped(n)),
                _ => LifecycleState::WarmingUp(1),
            },
            _ => match s {
                LifecycleState::Trading(n) => LifecycleState::Trading(bumped(n)),
                _ => LifecycleState::Trading(1),
            },
        }
    }
}

/// Whether state `s` may be asked for `call`: a state before
/// initialization takes only `Init`; an initialized or warming-up state
/// takes `CollectPrices` or `Algorithm`; a trading state only `Algorithm`;
/// a shutting-down state only `Shutdown`.
pub open spec fn call_allowed(s: LifecycleState, call: LifecycleCall) -> bool {
    match s {
        LifecycleState::Uninitialized => call == LifecycleCall::Init,
        LifecycleState::Initialized | LifecycleState::WarmingUp(_) => call == LifecycleCall::CollectPrices
            || call == LifecycleCall::Algorithm,
        LifecycleState::Trading(_) => call == LifecycleCall::Algorithm,
        LifecycleState::ShuttingDown => call == LifecycleCall::Shutdown,
        LifecycleState::Terminated => false,
    }
}

/// The state after the host asked to stop: a session that is not over
/// shuts down.
pub open spec fn state_after_stop(s: LifecycleState) -> LifecycleState {
    if s == LifecycleState::Terminated {
        s
    } else {
        LifecycleState::ShuttingDown
    }
}

/// The calls a host makes when it follows the session through `events`,
/// starting in state `s`. A `Done` stands for a step where nothing was
/// called.
pub open spec fn calls_of(s: LifecycleState, min_prices: u64, events: Seq<HostEvent>) -> Seq<LifecycleCall>
    decreases events.len(),
{
    if events.len() == 0 {
        Seq::empty()
    } else {
        match events[0] {
            HostEvent::Step { prices_seen, outcome } => {
                let c = next_call_of(s, min_prices, prices_seen);
                seq![c] + calls_of(state_after(s, c, outcome), min_prices, events.drop_first())
            },
            HostEvent::Stop => calls_of(state_after_stop(s), min_prices, events.drop_first()),
        }
    }
}

proof fn lemma_trading_stays(s: LifecycleState, min_prices: u64, events: Seq<HostEvent>)
    requires
        phase(s) >= 3,
    ensures
        forall|j: int|
            0 <= j < calls_of(s, min_prices, events).len() ==> !(#[trigger] calls_of(
                s,
                min_prices,
                events,
            )[j] is CollectPrices),
    decreases events.len(),
{
    if events.len() > 0 {
        let rest = events.drop_first();
        match events[0] {
            HostEvent::Step { prices_seen, outcome } => {
                let c = next_call_of(s, min_prices, prices_seen);
                lemma_trading_stays(state_after(s, c, outcome), min_prices, rest);
                let cs = calls_of(s, min_prices, events);
                assert forall|j: int| 0 <= j < cs.len() implies !(#[trigger] cs[j] is CollectPrices) by {
                    if j > 0 {
                        assert(cs[j] == calls_of(state_after(s, c, outcome), min_prices, rest)[j - 1]);
                    }
                }
            },
            HostEvent::Stop => {
                lemma_trading_stays(state_after_stop(s), min_prices, rest);
            },
        }
    }
}

proof fn lemma_initialized_stays(s: LifecycleState, min_prices: u64, events: Seq<HostEvent>)
    requires
        phase(s) >= 1,
    ensures
        forall|j: int|
            0 <= j < calls_of(s, min_prices, events).len() ==> !(#[trigger] calls_of(
                s,
                min_prices,
                events,
            )[j] is Init),
    decreases events.len(),
{
    if events.len() > 0 {
        let rest = events.drop_first();
        match events[0] {
            HostEvent::Step { prices_seen, outcome } => {
                let c = next_call_of(s, min_prices, prices_seen);
                lemma_initialized_stays(state_after(s, c, outcome), min_prices, rest);
                let cs = calls_of(s, min_prices, events);
                assert forall|j: int| 0 <= j < cs.len() implies !(#[trigger] cs[j] is Init) by {
                    if j > 0 {
                        assert(cs[j] == calls_of(state_after(s, c, outcome), min_prices, rest)[j - 1]);
                    }
                }
            },
            HostEvent::Stop => {
                lemma_initialized_stays(state_after_stop(s), min_prices, rest);
            },
        }
    }
}

proof fn lemma_terminated_stays(min_prices: u64, events: Seq<HostEvent>)
    ensures
        forall|j: int|
            0 <= j < calls_of(LifecycleState::Terminated, min_prices, events).len() ==> #[trigger] calls_of(
                LifecycleState::Terminated,
                min_prices,
                events,
            )[j] is Done,
    decreases events.len(),
{
    if events.len() > 0 {
        let s = LifecycleState::Terminated;
        let rest = events.drop_first();
        lemma_terminated_stays(min_prices, rest);
        match events[0] {
            HostEvent::Step { prices_seen, outcome } => {
                let cs = calls_of(s, min_prices, events);
                assert forall|j: int| 0 <= j < cs.len() implies #[trigger] cs[j] is Done by {
                    if j > 0 {
                        assert(cs[j] == calls_of(s, min_prices, rest)[j - 1]);
                    }
                }
            },
            HostEvent::Stop => {},
        }
    }
}

/// The lifecycle order holds for every run of a session that follows
/// `next_call`: `init` is called at most once and before every other
/// call; once `algorithm` was called, `collect_prices` is never called
/// again; and once `shutdown` was called, nothing is called any more, so
/// `shutdown` is called at most once and last.
pub proof fn lemma_lifecycle_order(s: LifecycleState, min_prices: u64, events: Seq<HostEvent>)
    ensures
        forall|j: int|
            0 < j < calls_of(s, min_prices, events).len() ==> !(#[trigger] calls_of(s, min_prices, events)[j] is Init),
        forall|i: int, j: int|
            0 <= i < j < calls_of(s, min_prices, events).len() && #[trigger] calls_of(s, min_prices, events)[i]
                is Algorithm ==> !(#[trigger] calls_of(s, min_prices, events)[j] is CollectPrices),
        forall|i: int, j: int|
            0 <= i < j < calls_of(s, min_prices, events).len() && #[trigger] calls_of(s, min_prices, events)[i]
                is Shutdown ==> #[trigger] calls_of(s, min_prices, events)[j] is Done,
    decreases events.len(),
{
    if events.len() > 0 {
        let rest = events.drop_first();
        let cs = calls_of(s, min_prices, events);
        match events[0] {
            HostEvent::Step { prices_seen, outcome } => {
                let c = next_call_of(s, min_prices, prices_seen);
                let s2 = state_after(s, c, outcome);
                let tail = calls_of(s2, min_prices, rest);
                lemma_lifecycle_order(s2, min_prices, rest);
                lemma_initialized_stays(s2, min_prices, rest);
                assert forall|j: int| 0 < j < cs.len() implies !(#[trigger] cs[j] is Init) by {
                    assert(cs[j] == tail[j - 1]);
                }
                if c is Algorithm {
                    lemma_trading_stays(s2, min_prices, rest);
                }
                if c is Shutdown {
                    lemma_terminated_stays(min_prices, rest);
                }
                assert forall|i: int, j: int|
                    0 <= i < j < cs.len() && #[trigger] cs[i] is Algorithm implies !(#[trigger] cs[j] is CollectPrices) by {
                    assert(cs[j] == tail[j - 1]);
                    if i > 0 {
                        assert(cs[i] == tail[i - 1]);
                    }
                }
                assert forall|i: int, j: int|
                    0 <= i < j < cs.len() && #[trigger] cs[i] is Shutdown implies #[trigger] cs[j] is Done by {
                    assert(cs[j] == tail[j - 1]);
                    if i > 0 {
                        assert(cs[i] == tail[i - 1]);
                    }
                }
            },
            HostEvent::Stop => {
                lemma_lifecycle_order(state_after_stop(s), min_prices, rest);
            },
        }
    }
}

/// Whether `ins`, handed back by `call` that ended with `o`, may be
/// executed: every well-formed instruction an `algorithm` call returned in
/// time, and what a `shutdown` returned except buying. Nothing else is
/// ever executed.
pub open spec fn admits(call: LifecycleCall, o: CallOutcome, ins: Instruction) -> bool {
    &&& o == CallOutcome::Succeeded
    &&& well_formed(ins)
    &&& (call == LifecycleCall::Algorithm || (call == LifecycleCall::Shutdown && !(ins is Buy)))
}

/// The instructions of `s` that may be executed, in order.
pub open spec fn admitted_of<'p>(call: LifecycleCall, o: CallOutcome, s: Seq<Instruction<'p>>) -> Seq<
    Instruction<'p>,
>
    decreases s.len(),
{
    if s.len() == 0 {
        Seq::empty()
    } else if admits(call, o, s.last()) {
        admitted_of(call, o, s.drop_last()).push(s.last())
    } else {
        admitted_of(call, o, s.drop_last())
    }
}

/// Whether `ins` may be executed after `call` ended with `o`.
pub fn may_execute(call: LifecycleCall, o: CallOutcome, ins: &Instruction) -> (r: bool)
    ensures
        r == admits(call, o, *ins),
{
    let (buy, empty) = match ins {
        Instruction::Buy { pieces, .. } => (true, *pieces == 0),
        _ => (false, false),
    };
    if empty {
        return false;
    }
    match o {
        CallOutcome::Succeeded => match call {
            LifecycleCall::Algorithm => true,
            LifecycleCall::Shutdown => !buy,
            _ => false,
        },
        _ => false,
    }
}

/// Copies out of what `call` handed back the instructions that may be
/// executed, before the next call into the algorithm invalidates them.
pub fn admitted<'p>(call: LifecycleCall, o: CallOutcome, instructions: &[Instruction<'p>]) -> (r: Vec<
    Instruction<'p>,
>)
    ensures
        r@ == admitted_of(call, o, instructions@),
{
    let mut r: Vec<Instruction<'p>> = Vec::new();
    let mut i: usize = 0;
    while i < instructions.len()
        invariant
            i <= instructions@.len(),
            r@ == admitted_of(call, o, instructions@.take(i as int)),
        decreases instructions@.len() - i,
    {
        let ins = instructions[i];
        proof {
            assert(instructions@.take(i + 1).drop_last() =~= instructions@.take(i as int));
        }
        if may_execute(call, o, &ins) {
            r.push(ins);
        }
        i = i + 1;
    }
    proof {
        assert(instructions@.take(i as int) =~= instructions@);
    }
    r
}

/// The session of one loaded algorithm.
pub struct Session {
    state: LifecycleState,
    min_prices: u64,
}

impl Session {
    pub closed spec fn spec_state(&self) -> LifecycleState {
        self.state
    }

    pub closed spec fn spec_min_prices(&self) -> u64 {
        self.min_prices
    }

    /// A session for an algorithm that needs `min_prices` prices before it
    /// trades.
    pub fn new(min_prices: u64) -> (r: Self)
        ensures
            r.spec_state() == LifecycleState::Uninitialized,
            r.spec_min_prices() == min_prices,
    {
        Session { state: LifecycleState::Uninitialized, min_prices }
    }

    pub fn state(&self) -> (r: LifecycleState)
        ensures
            r == self.spec_state(),
    {
        self.state
    }

    pub fn min_prices(&self) -> (r: u64)
        ensures
            r == self.spec_min_prices(),
    {
        self.min_prices
    }

    /// The call to make now, with `prices_seen` prices collected.
    pub fn next_call(&self, prices_seen: u64) -> (r: LifecycleCall)
        ensures
            r == next_call_of(self.spec_state(), self.spec_min_prices(), prices_seen),
    {
        match self.state {
            LifecycleState::Uninitialized => LifecycleCall::Init,
            LifecycleState::Initialized | LifecycleState::WarmingUp(_) => if prices_seen < self.min_prices {
                LifecycleCall::CollectPrices
            } else {
                LifecycleCall::Algorithm
            },
            LifecycleState::Trading(_) => LifecycleCall::Algorithm,
            LifecycleState::ShuttingDown => LifecycleCall::Shutdown,
            LifecycleState::Terminated => LifecycleCall::Done,
        }
    }

    /// Records that `call` was made and ended with `outcome`.
    pub fn record(&mut self, call: LifecycleCall, outcome: CallOutcome)
        ensures
            final(self).spec_state() == state_after(old(self).spec_state(), call, outcome),
            final(self).spec_min_prices() == old(self).spec_min_prices(),
    {
        let allowed = match self.state {
            LifecycleState::Uninitialized => call == LifecycleCall::Init,
            LifecycleState::Initialized | LifecycleState::WarmingUp(_) => call
                == LifecycleCall::CollectPrices || call == LifecycleCall::Algorithm,
            LifecycleState::Trading(_) => call == LifecycleCall::Algorithm,
            LifecycleState::ShuttingDown => call == LifecycleCall::Shutdown,
            LifecycleState::Terminated => false,
        };
        if !allowed {
            return;
        }
        let forced = match outcome {
            CallOutcome::Failed(k) => k == ErrorKind::Panic,
            CallOutcome::TimedOut => true,
            CallOutcome::Succeeded => false,
        };
        self.state = if call == LifecycleCall::Shutdown {
            LifecycleState::Terminated
        } else if forced {
            LifecycleState::ShuttingDown
        } else {
            match call {
                LifecycleCall::Init => LifecycleState::Initialized,
                LifecycleCall::CollectPrices => match self.state {
                    LifecycleState::WarmingUp(n) => LifecycleState::WarmingUp(bump(n)),
                    _ => LifecycleState::WarmingUp(1),
                },
                _ => match self.state {
                    LifecycleState::Trading(n) => LifecycleState::Trading(bump(n)),
                    _ => LifecycleState::Trading(1),
                },
            }
        };
    }

    /// The host decided to stop: a session that is not over shuts down.
    pub fn stop(&mut self)
        ensures
            final(self).spec_state() == state_after_stop(old(self).spec_state()),
            final(self).spec_min_prices() == old(self).spec_min_prices(),
    {
        if self.state != LifecycleState::Terminated {
            self.state = LifecycleState::ShuttingDown;
        }
    }
}

/// Where the prices handed to the algorithm start among `len` collected:
/// it gets the last `max_prices` of them, or all where `max_prices` is 0.
pub fn window_start(len: usize, max_prices: u64) -> (r: usize)
    ensures
        r == (if max_prices > 0 && len > max_prices {
            len - max_prices
        } else {
            0
        }),
{
    if max_prices > 0 && (len as u64) > max_prices {
        len - max_prices as usize
    } else {
        0
    }
}

fn bump(n: u64) -> (r: u64)
    ensures
        r == bumped(n),
{
    if n < u64::MAX {
        n + 1
    } else {
        n
    }
}

} // verus!
