use trading_desk::error::ErrorKind;
use trading_desk::instruction::Instruction;
use trading_desk::order::{OrderType, Price};
use trading_desk::position::PositionType;
use trading_desk::session::{
    admitted, may_execute, window_start, CallOutcome, LifecycleCall, LifecycleState, Session,
};

fn buy() -> Instruction<'static> {
    Instruction::Buy {
        pieces: 3,
        order_type: OrderType::LimitOrder(Price { bits: 9.5f64.to_bits() }),
        position_type: PositionType::LongCall,
    }
}

#[test]
fn full_session_in_order() {
    let mut s = Session::new(2);
    assert_eq!(s.state(), LifecycleState::Uninitialized);
    assert_eq!(s.next_call(0), LifecycleCall::Init);
    s.record(LifecycleCall::Init, CallOutcome::Succeeded);
    assert_eq!(s.state(), LifecycleState::Initialized);
    assert_eq!(s.next_call(0), LifecycleCall::CollectPrices);
    s.record(LifecycleCall::CollectPrices, CallOutcome::Succeeded);
    assert_eq!(s.next_call(1), LifecycleCall::CollectPrices);
    s.record(LifecycleCall::CollectPrices, CallOutcome::Succeeded);
    assert_eq!(s.state(), LifecycleState::WarmingUp(2));
    assert_eq!(s.next_call(2), LifecycleCall::Algorithm);
    s.record(LifecycleCall::Algorithm, CallOutcome::Succeeded);
    assert_eq!(s.state(), LifecycleState::Trading(1));
    assert_eq!(s.next_call(0), LifecycleCall::Algorithm);
    s.record(LifecycleCall::CollectPrices, CallOutcome::Succeeded);
    assert_eq!(s.state(), LifecycleState::Trading(1));
    s.stop();
    assert_eq!(s.next_call(5), LifecycleCall::Shutdown);
    s.record(LifecycleCall::Shutdown, CallOutcome::Succeeded);
    assert_eq!(s.state(), LifecycleState::Terminated);
    assert_eq!(s.next_call(5), LifecycleCall::Done);
    s.stop();
    s.record(LifecycleCall::Shutdown, CallOutcome::Succeeded);
    assert_eq!(s.state(), LifecycleState::Terminated);
}

#[test]
fn no_warm_up_without_minimum() {
    let mut s = Session::new(0);
    s.record(LifecycleCall::Init, CallOutcome::Succeeded);
    assert_eq!(s.next_call(0), LifecycleCall::Algorithm);
    assert_eq!(s.min_prices(), 0);
}

#[test]
fn panic_forces_shutdown_from_any_state() {
    let mut s = Session::new(5);
    s.record(LifecycleCall::Init, CallOutcome::Failed(ErrorKind::Panic));
    assert_eq!(s.state(), LifecycleState::ShuttingDown);

    let mut s = Session::new(5);
    s.record(LifecycleCall::Init, CallOutcome::Succeeded);
    s.record(LifecycleCall::CollectPrices, CallOutcome::Failed(ErrorKind::Panic));
    assert_eq!(s.state(), LifecycleState::ShuttingDown);
}

#[test]
fn other_errors_are_left_to_the_host() {
    let mut s = Session::new(0);
    s.record(LifecycleCall::Init, CallOutcome::Succeeded);
    s.record(LifecycleCall::Algorithm, CallOutcome::Failed(ErrorKind::CouldNotBuy));
    assert_eq!(s.state(), LifecycleState::Trading(1));
    s.record(LifecycleCall::Algorithm, CallOutcome::TimedOut);
    assert_eq!(s.state(), LifecycleState::ShuttingDown);
}

#[test]
fn calls_out_of_order_are_ignored() {
    let mut s = Session::new(0);
    s.record(LifecycleCall::Algorithm, CallOutcome::Succeeded);
    assert_eq!(s.state(), LifecycleState::Uninitialized);
    s.record(LifecycleCall::Shutdown, CallOutcome::Succeeded);
    assert_eq!(s.state(), LifecycleState::Uninitialized);
}

#[test]
fn instructions_that_may_be_executed() {
    let all = [buy(), Instruction::Hold, buy()];
    assert_eq!(admitted(LifecycleCall::Algorithm, CallOutcome::Succeeded, &all).len(), 3);
    assert_eq!(admitted(LifecycleCall::Algorithm, CallOutcome::TimedOut, &all).len(), 0);
    let at_shutdown = admitted(LifecycleCall::Shutdown, CallOutcome::Succeeded, &all);
    assert_eq!(at_shutdown.len(), 1);
    assert!(matches!(at_shutdown[0], Instruction::Hold));
    assert!(!may_execute(LifecycleCall::Shutdown, CallOutcome::Succeeded, &buy()));
    assert!(!may_execute(LifecycleCall::CollectPrices, CallOutcome::Succeeded, &Instruction::Hold));
}

#[test]
fn a_buy_of_no_pieces_is_never_executed() {
    let empty = Instruction::Buy {
        pieces: 0,
        order_type: OrderType::MarketOrder,
        position_type: PositionType::ShortPut,
    };
    assert!(!may_execute(LifecycleCall::Algorithm, CallOutcome::Succeeded, &empty));
    assert!(may_execute(LifecycleCall::Algorithm, CallOutcome::Succeeded, &buy()));
    assert_eq!(admitted(LifecycleCall::Algorithm, CallOutcome::Succeeded, &[empty, Instruction::Hold]).len(), 1);
}

#[test]
fn price_window() {
    assert_eq!(window_start(30, 20), 10);
    assert_eq!(window_start(20, 20), 0);
    assert_eq!(window_start(5, 20), 0);
    assert_eq!(window_start(5000, 0), 0);
}
