use spot_supervisor::engine::{
    AccountEvent, AssetBalance, EngineAction, EngineEvent, ExchangeStub, InitError, MarketEvent,
    OrderStatus, OrderTrack, TradeEngine,
};
use spot_supervisor::errors::{RestError, UnitError};

fn track(client_id: u64, status: OrderStatus) -> OrderTrack {
    OrderTrack { client_id, status, retries_used: 0 }
}

#[test]
fn snapshot_accepted_when_coherent() {
    let orders = vec![track(1, OrderStatus::Open), track(2, OrderStatus::Open)];
    let balances = vec![AssetBalance { asset: 5, free: 100 }];
    let e = TradeEngine::with_snapshot(false, orders, balances).unwrap();
    assert_eq!(e.order_status(1), Some(OrderStatus::Open));
    assert_eq!(e.order_status(2), Some(OrderStatus::Open));
    assert_eq!(e.balance_of(5), 100);
    assert_eq!(e.order_count(), 2);
}

#[test]
fn snapshot_rejected_on_duplicate_order_id() {
    let orders = vec![track(1, OrderStatus::Open), track(1, OrderStatus::Submitted)];
    let r = TradeEngine::with_snapshot(false, orders, Vec::new());
    assert_eq!(r.unwrap_err(), InitError::InvalidSnapshot);
}

#[test]
fn snapshot_rejected_on_duplicate_asset() {
    let balances = vec![
        AssetBalance { asset: 5, free: 100 },
        AssetBalance { asset: 5, free: 7 },
    ];
    let r = TradeEngine::with_snapshot(false, Vec::new(), balances);
    assert_eq!(r.unwrap_err(), InitError::InvalidSnapshot);
}

#[test]
fn snapshot_rejected_on_retry_counter_over_budget() {
    let orders = vec![OrderTrack { client_id: 1, status: OrderStatus::Submitted, retries_used: 4 }];
    let r = TradeEngine::with_snapshot(false, orders, Vec::new());
    assert_eq!(r.unwrap_err(), InitError::InvalidSnapshot);
}

#[test]
fn market_events_update_price_view() {
    let mut e = TradeEngine::new(false);
    e.on_market_event(MarketEvent::Trade { price: 101 });
    assert_eq!(e.last_trade, Some(101));
    e.on_market_event(MarketEvent::Book { bid: 100, ask: 102 });
    assert_eq!(e.best_bid, Some(100));
    assert_eq!(e.best_ask, Some(102));
    e.on_market_event(MarketEvent::Trade { price: 99 });
    assert_eq!(e.last_trade, Some(99));
}

#[test]
fn order_lifecycle_submit_open_fill() {
    let mut e = TradeEngine::new(false);
    let a = e.place_order(7);
    assert_eq!(a, EngineAction::Submit { client_id: 7, backoff: false });
    assert_eq!(e.order_status(7), Some(OrderStatus::Submitted));
    let r = e.on_order_result(7, Ok(()));
    assert_eq!(r, (EngineAction::Idle, None));
    assert_eq!(e.order_status(7), Some(OrderStatus::Open));
    e.on_account_event(AccountEvent::OrderFilled { client_id: 7 });
    assert_eq!(e.order_status(7), Some(OrderStatus::Filled));
}

#[test]
fn order_cancellation_is_recorded() {
    let mut e = TradeEngine::new(false);
    e.place_order(3);
    e.on_order_result(3, Ok(()));
    e.on_account_event(AccountEvent::OrderCanceled { client_id: 3 });
    assert_eq!(e.order_status(3), Some(OrderStatus::Canceled));
}

#[test]
fn duplicate_client_id_is_refused() {
    let mut e = TradeEngine::new(false);
    let a = e.place_order(5);
    assert_eq!(a, EngineAction::Submit { client_id: 5, backoff: false });
    let b = e.place_order(5);
    assert_eq!(b, EngineAction::Idle);
    assert_eq!(e.order_count(), 1);
}

#[test]
fn unknown_order_reports_are_tolerated() {
    let mut e = TradeEngine::new(false);
    let r = e.on_order_result(42, Err(RestError::Timeout));
    assert_eq!(r, (EngineAction::Idle, None));
    e.on_account_event(AccountEvent::OrderFilled { client_id: 42 });
    assert_eq!(e.order_status(42), None);
}

#[test]
fn balance_reports_upsert() {
    let mut e = TradeEngine::new(false);
    assert_eq!(e.balance_of(1), 0);
    e.on_account_event(AccountEvent::Balance { asset: 1, free: 100 });
    e.on_account_event(AccountEvent::Balance { asset: 2, free: 7 });
    assert_eq!(e.balance_of(1), 100);
    assert_eq!(e.balance_of(2), 7);
    e.on_account_event(AccountEvent::Balance { asset: 1, free: 50 });
    assert_eq!(e.balance_of(1), 50);
    assert_eq!(e.balance_of(2), 7);
}

// Replaying one recorded event sequence from one snapshot twice gives the
// same engine state both times: transitions depend on the events alone,
// never on a clock.
#[test]
fn replay_is_deterministic() {
    let events = [
        EngineEvent::Place { client_id: 9 },
        EngineEvent::OrderResult { client_id: 9, result: Ok(()) },
        EngineEvent::Market(MarketEvent::Trade { price: 5 }),
        EngineEvent::Account(AccountEvent::Balance { asset: 1, free: 10 }),
        EngineEvent::Account(AccountEvent::OrderFilled { client_id: 9 }),
        EngineEvent::Account(AccountEvent::Balance { asset: 1, free: 20 }),
    ];
    let mut first = TradeEngine::new(true);
    let mut second = TradeEngine::new(true);
    for e in [&mut first, &mut second] {
        for ev in events.iter() {
            e.on_event(*ev);
        }
    }
    assert_eq!(first.order_status(9), second.order_status(9));
    assert_eq!(first.order_status(9), Some(OrderStatus::Filled));
    assert_eq!(first.balance_of(1), second.balance_of(1));
    assert_eq!(first.balance_of(1), 20);
    assert_eq!(first.last_trade, second.last_trade);
    assert_eq!(first.order_count(), second.order_count());
}

// Idempotent retry: the retry after a timeout reuses the same client id,
// and an exchange that rejects duplicate client ids ends up with exactly
// one order.
#[test]
fn timeout_retry_places_exactly_one_order() {
    let mut e = TradeEngine::new(false);
    let mut exchange = ExchangeStub::new();

    let a = e.place_order(11);
    assert_eq!(a, EngineAction::Submit { client_id: 11, backoff: false });
    assert!(exchange.submit(11));

    // The response times out; the engine retries under the same id.
    let r = e.on_order_result(11, Err(RestError::Timeout));
    assert_eq!(r, (EngineAction::Submit { client_id: 11, backoff: false }, None));
    assert!(!exchange.submit(11));

    assert_eq!(exchange.orders_under(11), 1);
    assert_eq!(e.order_status(11), Some(OrderStatus::Submitted));
}

// Scenario: rate limiting backs the retry off and the action is not marked
// failed until the bounded retry count of three is exhausted.
#[test]
fn rate_limit_backs_off_before_failing() {
    let mut e = TradeEngine::new(false);
    e.place_order(13);
    for _ in 0..3 {
        let r = e.on_order_result(13, Err(RestError::RateLimited));
        assert_eq!(r, (EngineAction::Submit { client_id: 13, backoff: true }, None));
        assert_eq!(e.order_status(13), Some(OrderStatus::Submitted));
    }
    // The budget of three retries is spent: the next failure surfaces.
    let r = e.on_order_result(13, Err(RestError::RateLimited));
    assert_eq!(r, (EngineAction::Idle, Some(UnitError::OrderActionFailed)));
    assert_eq!(e.order_status(13), Some(OrderStatus::Failed));
}

#[test]
fn auth_rejection_fails_without_retry() {
    let mut e = TradeEngine::new(false);
    e.place_order(17);
    let r = e.on_order_result(17, Err(RestError::AuthRejected));
    assert_eq!(r, (EngineAction::Idle, Some(UnitError::Auth)));
    assert_eq!(e.order_status(17), Some(OrderStatus::Failed));
}

#[test]
fn failed_order_takes_no_more_results() {
    let mut e = TradeEngine::new(false);
    e.place_order(19);
    e.on_order_result(19, Err(RestError::AuthRejected));
    let r = e.on_order_result(19, Ok(()));
    assert_eq!(r, (EngineAction::Idle, None));
    assert_eq!(e.order_status(19), Some(OrderStatus::Failed));
}

#[test]
fn error_kinds_classify_for_retry() {
    assert!(RestError::Timeout.retryable());
    assert!(RestError::ServerError.retryable());
    assert!(RestError::RateLimited.retryable());
    assert!(!RestError::AuthRejected.retryable());
    assert!(RestError::RateLimited.needs_backoff());
    assert!(!RestError::Timeout.needs_backoff());
    assert_eq!(RestError::AuthRejected.as_unit_error(), UnitError::Auth);
    assert_eq!(RestError::Timeout.as_unit_error(), UnitError::Transport);
    assert_eq!(RestError::RateLimited.kind_name(), "rate_limited");
    assert_eq!(UnitError::ConnectionLost.kind_name(), "connection_lost");
}
