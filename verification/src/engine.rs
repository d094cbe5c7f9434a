//! Trade engine: order and balance state driven purely by events.
//!
//! The engine consumes market events from the public feed and account
//! events from the private stream, and asks the surrounding process to
//! submit orders through the signed REST client. Every handler is a pure
//! transition on the engine state; the orders to place or retry come back
//! as explicit actions, never as hidden calls, so a recorded event sequence
//! replays to exactly the same state. No handler takes a clock: transitions
//! depend on the events alone.
//!
//! A failed order action is retried under the same client-assigned order
//! id, so a retry after a timeout can never place a second exchange-side
//! order; a rate-limited attempt is retried only after backing off. Only
//! when the bounded retry budget is spent does the engine surface
//! `OrderActionFailed`.

use vstd::prelude::*;
use crate::errors::{RestError, UnitError};

verus! {

/// How many retries one order action is allowed after its first attempt
/// before the engine gives it up.
pub const MAX_ORDER_RETRIES: u8 = 3;

/// Exchange-side status of one tracked order.
#[derive(Debug, Clone, Copy, PartialEq, Eq, Structural)]
pub enum OrderStatus {
    /// Submitted through the REST client; result pending.
    Submitted,
    /// Acknowledged by the exchange and open.
    Open,
    /// Filled, as reported on the account stream.
    Filled,
    /// Cancelled, as reported on the account stream.
    Canceled,
    /// Given up: rejected outright or retries exhausted.
    Failed,
}

/// One order tracked by the engine, keyed by its client-assigned id.
#[derive(Debug, Clone, Copy, PartialEq, Eq, Structural)]
pub struct OrderTrack {
    /// Client-assigned order id; unique within the engine.
    pub client_id: u64,
    /// Current status.
    pub status: OrderStatus,
    /// Retries already spent on the submission.
    pub retries_used: u8,
}

/// One asset balance, keyed by a numeric asset id.
#[derive(Debug, Clone, Copy, PartialEq, Eq, Structural)]
pub struct AssetBalance {
    /// Numeric asset id.
    pub asset: u64,
    /// Free amount, in the asset's smallest unit.
    pub free: u64,
}

/// Events from the public market-data stream, prices in integer ticks.
#[derive(Debug, Clone, Copy, PartialEq, Eq, Structural)]
pub enum MarketEvent {
    /// A trade happened at this price.
    Trade { price: u64 },
    /// The top of the book moved.
    Book { bid: u64, ask: u64 },
}

/// Events from the private account stream.
#[derive(Debug, Clone, Copy, PartialEq, Eq, Structural)]
pub enum AccountEvent {
    /// The order with this client id was filled.
    OrderFilled { client_id: u64 },
    /// The order with this client id was cancelled.
    OrderCanceled { client_id: u64 },
    /// A balance changed.
    Balance { asset: u64, free: u64 },
}

/// Actions the engine asks the surrounding process to perform.
#[derive(Debug, Clone, Copy, PartialEq, Eq, Structural)]
pub enum EngineAction {
    /// Nothing to do.
    Idle,
    /// Submit the order with this client id through the REST client,
    /// after backing off first when `backoff` is set.
    Submit { client_id: u64, backoff: bool },
}

/// Every kind of input the engine reacts to, for reasoning about whole
/// event sequences.
#[derive(Debug, Clone, Copy)]
pub enum EngineEvent {
    /// A market-stream event.
    Market(MarketEvent),
    /// An account-stream event.
    Account(AccountEvent),
    /// The strategy asks for an order under this client id.
    Place { client_id: u64 },
    /// The REST client returned this result for the submission of the
    /// order with this client id.
    OrderResult { client_id: u64, result: Result<(), RestError> },
}

/// Why the engine could not be built over an initial account snapshot.
#[derive(Debug, Clone, Copy, PartialEq, Eq, Structural)]
pub enum InitError {
    /// The snapshot could not be fetched from the exchange.
    Fetch { error: RestError },
    /// The snapshot repeats a client order id or an asset id, or carries a
    /// retry counter over the budget.
    InvalidSnapshot,
}

/// The engine state: the single-writer view of orders, balances and the
/// last seen market prices.
#[derive(Debug, Clone)]
pub struct TradeEngine {
    /// Whether the account trades on margin.
    pub margin: bool,
    /// Tracked orders, client ids unique.
    pub orders: Vec<OrderTrack>,
    /// Balances, asset ids unique.
    pub balances: Vec<AssetBalance>,
    /// Price of the last trade seen on the market stream.
    pub last_trade: Option<u64>,
    /// Best bid seen on the market stream.
    pub best_bid: Option<u64>,
    /// Best ask seen on the market stream.
    pub best_ask: Option<u64>,
}

/// The mathematical model of the engine state.
pub struct EngineModel {
    /// Whether the account trades on margin.
    pub margin: bool,
    /// Tracked orders, client ids unique.
    pub orders: Seq<OrderTrack>,
    /// Balances, asset ids unique.
    pub balances: Seq<AssetBalance>,
    /// Price of the last trade seen on the market stream.
    pub last_trade: Option<u64>,
    /// Best bid seen on the market stream.
    pub best_bid: Option<u64>,
    /// Best ask seen on the market stream.
    pub best_ask: Option<u64>,
}

impl View for TradeEngine {
    type V = EngineModel;

    open spec fn view(&self) -> EngineModel {
        EngineModel {
            margin: self.margin,
            orders: self.orders@,
            balances: self.balances@,
            last_trade: self.last_trade,
            best_bid: self.best_bid,
            best_ask: self.best_ask,
        }
    }
}

/// Whether some order in `s` carries the client id.
pub open spec fn has_order(s: Seq<OrderTrack>, client_id: u64) -> bool {
    exists|i: int| 0 <= i < s.len() && (#[trigger] s[i]).client_id == client_id
}

/// The index of the order with the client id; meaningful only under
/// uniqueness and presence.
pub open spec fn order_idx(s: Seq<OrderTrack>, client_id: u64) -> int {
    choose|i: int| 0 <= i < s.len() && (#[trigger] s[i]).client_id == client_id
}

/// Whether some balance in `s` carries the asset id.
pub open spec fn has_balance(s: Seq<AssetBalance>, asset: u64) -> bool {
    exists|i: int| 0 <= i < s.len() && (#[trigger] s[i]).asset == asset
}

/// The index of the balance with the asset id; meaningful only under
/// uniqueness and presence.
pub open spec fn balance_idx(s: Seq<AssetBalance>, asset: u64) -> int {
    choose|i: int| 0 <= i < s.len() && (#[trigger] s[i]).asset == asset
}

/// Client ids pairwise distinct.
pub open spec fn order_ids_unique(s: Seq<OrderTrack>) -> bool {
    forall|i: int, j: int| 0 <= i < j < s.len()
        ==> (#[trigger] s[i]).client_id != (#[trigger] s[j]).client_id
}

/// Asset ids pairwise distinct.
pub open spec fn asset_ids_unique(s: Seq<AssetBalance>) -> bool {
    forall|i: int, j: int| 0 <= i < j < s.len()
        ==> (#[trigger] s[i]).asset != (#[trigger] s[j]).asset
}

impl EngineModel {
    /// Well-formedness: order and balance keys are unique, and no retry
    /// counter exceeds its budget.
    pub open spec fn wf(self) -> bool {
        &&& order_ids_unique(self.orders)
        &&& asset_ids_unique(self.balances)
        &&& forall|i: int| 0 <= i < self.orders.len()
            ==> (#[trigger] self.orders[i]).retries_used <= MAX_ORDER_RETRIES
    }

    /// The status of the tracked order with this client id.
    pub open spec fn order_status(self, client_id: u64) -> Option<OrderStatus> {
        if has_order(self.orders, client_id) {
            Some(self.orders[order_idx(self.orders, client_id)].status)
        } else {
            None
        }
    }

    /// Retries already spent on the tracked order with this client id.
    pub open spec fn order_retries(self, client_id: u64) -> int {
        self.orders[order_idx(self.orders, client_id)].retries_used as int
    }

    /// The free amount of the asset, zero when never reported.
    pub open spec fn balance_of(self, asset: u64) -> u64 {
        if has_balance(self.balances, asset) {
            self.balances[balance_idx(self.balances, asset)].free
        } else {
            0
        }
    }
}

/// The order sequence with the order under `client_id` (if tracked) moved
/// to status `st`, its id and retry count kept.
pub open spec fn set_order_status(s: Seq<OrderTrack>, client_id: u64, st: OrderStatus) -> Seq<OrderTrack> {
    if has_order(s, client_id) {
        s.update(order_idx(s, client_id), OrderTrack {
            client_id,
            status: st,
            retries_used: s[order_idx(s, client_id)].retries_used,
        })
    } else {
        s
    }
}

/// The order sequence with the retry counter of the order under
/// `client_id` (if tracked) replaced.
pub open spec fn set_order_retries(s: Seq<OrderTrack>, client_id: u64, retries: u8) -> Seq<OrderTrack> {
    if has_order(s, client_id) {
        s.update(order_idx(s, client_id), OrderTrack {
            client_id,
            status: s[order_idx(s, client_id)].status,
            retries_used: retries,
        })
    } else {
        s
    }
}

/// The balance sequence with the asset's entry replaced, or appended when
/// the asset was never reported.
pub open spec fn upsert_balance(s: Seq<AssetBalance>, asset: u64, free: u64) -> Seq<AssetBalance> {
    if has_balance(s, asset) {
        s.update(balance_idx(s, asset), AssetBalance { asset, free })
    } else {
        s.push(AssetBalance { asset, free })
    }
}

/// The engine after one market event: the matching price view is updated
/// and nothing else changes.
pub open spec fn market_next(m: EngineModel, e: MarketEvent) -> EngineModel {
    match e {
        MarketEvent::Trade { price } => EngineModel { last_trade: Some(price), ..m },
        MarketEvent::Book { bid, ask } => EngineModel { best_bid: Some(bid), best_ask: Some(ask), ..m },
    }
}

/// The engine after one account event: a fill or cancellation moves the
/// matching order to its final status, a balance report upserts the
/// balance. Reports about unknown orders are tolerated and change nothing.
pub open spec fn account_next(m: EngineModel, e: AccountEvent) -> EngineModel {
    match e {
        AccountEvent::OrderFilled { client_id } => EngineModel {
            orders: set_order_status(m.orders, client_id, OrderStatus::Filled),
            ..m
        },
        AccountEvent::OrderCanceled { client_id } => EngineModel {
            orders: set_order_status(m.orders, client_id, OrderStatus::Canceled),
            ..m
        },
        AccountEvent::Balance { asset, free } => EngineModel {
            balances: upsert_balance(m.balances, asset, free),
            ..m
        },
    }
}

/// The engine after an order request: a fresh client id starts being
/// tracked as submitted; a client id already tracked changes nothing, so
/// asking twice under one id can never produce two submissions.
pub open spec fn place_next(m: EngineModel, client_id: u64) -> EngineModel {
    if has_order(m.orders, client_id) {
        m
    } else {
        EngineModel {
            orders: m.orders.push(OrderTrack {
                client_id,
                status: OrderStatus::Submitted,
                retries_used: 0,
            }),
            ..m
        }
    }
}

/// The action of an order request: submit on a fresh client id, nothing on
/// a known one.
pub open spec fn place_emit(m: EngineModel, client_id: u64) -> EngineAction {
    if has_order(m.orders, client_id) {
        EngineAction::Idle
    } else {
        EngineAction::Submit { client_id, backoff: false }
    }
}

/// The engine after the REST client's result for a pending submission:
/// success opens the order; a retryable failure inside the retry budget
/// spends one retry; a non-retryable failure or an exhausted budget marks
/// the order failed. Results for orders not pending change nothing.
pub open spec fn order_result_next(m: EngineModel, client_id: u64, result: Result<(), RestError>) -> EngineModel {
    if m.order_status(client_id) == Some(OrderStatus::Submitted) {
        match result {
            Ok(_) => EngineModel {
                orders: set_order_status(m.orders, client_id, OrderStatus::Open),
                ..m
            },
            Err(err) => {
                if !err.spec_retryable() {
                    EngineModel {
                        orders: set_order_status(m.orders, client_id, OrderStatus::Failed),
                        ..m
                    }
                } else if m.order_retries(client_id) < MAX_ORDER_RETRIES {
                    EngineModel {
                        orders: set_order_retries(m.orders, client_id,
                            (m.order_retries(client_id) + 1) as u8),
                        ..m
                    }
                } else {
                    EngineModel {
                        orders: set_order_status(m.orders, client_id, OrderStatus::Failed),
                        ..m
                    }
                }
            }
        }
    } else {
        m
    }
}

/// The outputs on the REST client's result for a pending submission: a
/// retryable failure inside the budget asks for a resubmission under the
/// same client id, backing off first exactly when the failure was rate
/// limiting; an exhausted budget surfaces `OrderActionFailed`; a credential
/// rejection surfaces immediately and is never retried.
pub open spec fn order_result_emit(m: EngineModel, client_id: u64, result: Result<(), RestError>) -> (EngineAction, Option<UnitError>) {
    if m.order_status(client_id) == Some(OrderStatus::Submitted) {
        match result {
            Ok(_) => (EngineAction::Idle, None),
            Err(err) => {
                if !err.spec_retryable() {
                    (EngineAction::Idle, Some(err.spec_as_unit_error()))
                } else if m.order_retries(client_id) < MAX_ORDER_RETRIES {
                    (EngineAction::Submit { client_id, backoff: err.spec_needs_backoff() }, None)
                } else {
                    (EngineAction::Idle, Some(UnitError::OrderActionFailed))
                }
            }
        }
    } else {
        (EngineAction::Idle, None)
    }
}

/// The outputs of the engine on one event: stream events ask for nothing,
/// an order request may ask for a submission, and a REST result may ask
/// for a retry or surface a terminal error.
pub open spec fn engine_emit(m: EngineModel, e: EngineEvent) -> (EngineAction, Option<UnitError>) {
    match e {
        EngineEvent::Market(_) => (EngineAction::Idle, None),
        EngineEvent::Account(_) => (EngineAction::Idle, None),
        EngineEvent::Place { client_id } => (place_emit(m, client_id), None),
        EngineEvent::OrderResult { client_id, result } => order_result_emit(m, client_id, result),
    }
}

/// The complete transition of the engine on one event.
pub open spec fn engine_next(m: EngineModel, e: EngineEvent) -> EngineModel {
    match e {
        EngineEvent::Market(me) => market_next(m, me),
        EngineEvent::Account(ae) => account_next(m, ae),
        EngineEvent::Place { client_id } => place_next(m, client_id),
        EngineEvent::OrderResult { client_id, result } => order_result_next(m, client_id, result),
    }
}

/// The engine after a whole event sequence, applied in order.
pub open spec fn run_events(m: EngineModel, evts: Seq<EngineEvent>) -> EngineModel
    decreases evts.len(),
{
    if evts.len() == 0 {
        m
    } else {
        run_events(engine_next(m, evts[0]), evts.drop_first())
    }
}

/// Replay determinism: the engine state after an event sequence is a
/// function of the initial state and the events alone. No handler takes a
/// clock, so two replays of one recorded sequence from one snapshot agree
/// exactly.
pub proof fn lemma_replay_deterministic(m1: EngineModel, m2: EngineModel, evts: Seq<EngineEvent>)
    requires
        m1 == m2,
    ensures
        run_events(m1, evts) == run_events(m2, evts),
{
}

/// A coherent initial snapshot: keys unique and retry counters in budget.
pub open spec fn snapshot_ok(orders: Seq<OrderTrack>, balances: Seq<AssetBalance>) -> bool {
    &&& order_ids_unique(orders)
    &&& asset_ids_unique(balances)
    &&& forall|i: int| 0 <= i < orders.len()
        ==> (#[trigger] orders[i]).retries_used <= MAX_ORDER_RETRIES
}

/// Whether the snapshot's client order ids are pairwise distinct.
fn check_order_ids(orders: &Vec<OrderTrack>) -> (r: bool)
    ensures
        r == order_ids_unique(orders@),
{
    let mut i: usize = 0;
    while i < orders.len()
        invariant
            i <= orders@.len(),
            forall|p: int, q: int| 0 <= p < q < orders@.len() && p < i
                ==> (#[trigger] orders@[p]).client_id != (#[trigger] orders@[q]).client_id,
        decreases orders@.len() - i,
    {
        let mut j: usize = i + 1;
        while j < orders.len()
            invariant
                i < j <= orders@.len(),
                i < orders@.len(),
                forall|q: int| i < q < j
                    ==> (#[trigger] orders@[q]).client_id != orders@[i as int].client_id,
            decreases orders@.len() - j,
        {
            if orders[j].client_id == orders[i].client_id {
                return false;
            }
            j = j + 1;
        }
        i = i + 1;
    }
    true
}

/// Whether the snapshot's asset ids are pairwise distinct.
fn check_asset_ids(balances: &Vec<AssetBalance>) -> (r: bool)
    ensures
        r == asset_ids_unique(balances@),
{
    let mut i: usize = 0;
    while i < balances.len()
        invariant
            i <= balances@.len(),
            forall|p: int, q: int| 0 <= p < q < balances@.len() && p < i
                ==> (#[trigger] balances@[p]).asset != (#[trigger] balances@[q]).asset,
        decreases balances@.len() - i,
    {
        let mut j: usize = i + 1;
        while j < balances.len()
            invariant
                i < j <= balances@.len(),
                i < balances@.len(),
                forall|q: int| i < q < j
                    ==> (#[trigger] balances@[q]).asset != balances@[i as int].asset,
            decreases balances@.len() - j,
        {
            if balances[j].asset == balances[i].asset {
                return false;
            }
            j = j + 1;
        }
        i = i + 1;
    }
    true
}

/// Whether every retry counter in the snapshot is within budget.
fn check_retry_bounds(orders: &Vec<OrderTrack>) -> (r: bool)
    ensures
        r == (forall|i: int| 0 <= i < orders@.len()
            ==> (#[trigger] orders@[i]).retries_used <= MAX_ORDER_RETRIES),
{
    let mut i: usize = 0;
    while i < orders.len()
        invariant
            i <= orders@.len(),
            forall|j: int| 0 <= j < i
                ==> (#[trigger] orders@[j]).retries_used <= MAX_ORDER_RETRIES,
        decreases orders@.len() - i,
    {
        if orders[i].retries_used > MAX_ORDER_RETRIES {
            return false;
        }
        i = i + 1;
    }
    true
}

/// Under unique client ids, an index holding the id is the order's index.
pub proof fn lemma_order_idx_of(s: Seq<OrderTrack>, client_id: u64, i: int)
    requires
        order_ids_unique(s),
        0 <= i < s.len(),
        s[i].client_id == client_id,
    ensures
        has_order(s, client_id),
        order_idx(s, client_id) == i,
{
    assert(has_order(s, client_id));
    let j = order_idx(s, client_id);
    assert(0 <= j < s.len() && s[j].client_id == client_id);
    if i < j {
        assert(s[i].client_id != s[j].client_id);
    } else if j < i {
        assert(s[j].client_id != s[i].client_id);
    }
}

/// Under unique asset ids, an index holding the id is the balance's index.
pub proof fn lemma_balance_idx_of(s: Seq<AssetBalance>, asset: u64, i: int)
    requires
        asset_ids_unique(s),
        0 <= i < s.len(),
        s[i].asset == asset,
    ensures
        has_balance(s, asset),
        balance_idx(s, asset) == i,
{
    assert(has_balance(s, asset));
    let j = balance_idx(s, asset);
    assert(0 <= j < s.len() && s[j].asset == asset);
    if i < j {
        assert(s[i].asset != s[j].asset);
    } else if j < i {
        assert(s[j].asset != s[i].asset);
    }
}

impl TradeEngine {
    /// A fresh engine over an empty snapshot.
    pub fn new(margin: bool) -> (r: TradeEngine)
        ensures
            r@ == (EngineModel {
                margin,
                orders: Seq::<OrderTrack>::empty(),
                balances: Seq::<AssetBalance>::empty(),
                last_trade: None,
                best_bid: None,
                best_ask: None,
            }),
            r@.wf(),
    {
        TradeEngine {
            margin,
            orders: Vec::new(),
            balances: Vec::new(),
            last_trade: None,
            best_bid: None,
            best_ask: None,
        }
    }

    /// The engine over an initial account snapshot, as fetched at startup:
    /// accepted exactly when the snapshot is coherent — order and asset
    /// keys unique, no retry counter over budget — and rejected as invalid
    /// otherwise.
    pub fn with_snapshot(margin: bool, orders: Vec<OrderTrack>, balances: Vec<AssetBalance>) -> (r: Result<TradeEngine, InitError>)
        ensures
            match r {
                Ok(e) => snapshot_ok(orders@, balances@) && e@ == (EngineModel {
                    margin,
                    orders: orders@,
                    balances: balances@,
                    last_trade: None,
                    best_bid: None,
                    best_ask: None,
                }) && e@.wf(),
                Err(err) => !snapshot_ok(orders@, balances@) && err == InitError::InvalidSnapshot,
            },
    {
        if !check_order_ids(&orders) || !check_retry_bounds(&orders) || !check_asset_ids(&balances) {
            return Err(InitError::InvalidSnapshot);
        }
        Ok(TradeEngine {
            margin,
            orders,
            balances,
            last_trade: None,
            best_bid: None,
            best_ask: None,
        })
    }

    /// The index of the tracked order with this client id, if any.
    fn find_order(&self, client_id: u64) -> (r: Option<usize>)
        ensures
            match r {
                Some(i) => i < self.orders@.len() && self.orders@[i as int].client_id == client_id,
                None => !has_order(self@.orders, client_id),
            },
    {
        let mut i: usize = 0;
        while i < self.orders.len()
            invariant
                i <= self.orders@.len(),
                forall|j: int| 0 <= j < i ==> (#[trigger] self.orders@[j]).client_id != client_id,
            decreases self.orders@.len() - i,
        {
            if self.orders[i].client_id == client_id {
                return Some(i);
            }
            i = i + 1;
        }
        None
    }

    /// The index of the balance with this asset id, if any.
    fn find_balance(&self, asset: u64) -> (r: Option<usize>)
        ensures
            match r {
                Some(i) => i < self.balances@.len() && self.balances@[i as int].asset == asset,
                None => !has_balance(self@.balances, asset),
            },
    {
        let mut i: usize = 0;
        while i < self.balances.len()
            invariant
                i <= self.balances@.len(),
                forall|j: int| 0 <= j < i ==> (#[trigger] self.balances@[j]).asset != asset,
            decreases self.balances@.len() - i,
        {
            if self.balances[i].asset == asset {
                return Some(i);
            }
            i = i + 1;
        }
        None
    }

    /// Consumes one market event, updating the price view.
    pub fn on_market_event(&mut self, e: MarketEvent)
        requires
            old(self)@.wf(),
        ensures
            final(self)@ == market_next(old(self)@, e),
            final(self)@.wf(),
    {
        match e {
            MarketEvent::Trade { price } => {
                self.last_trade = Some(price);
            }
            MarketEvent::Book { bid, ask } => {
                self.best_bid = Some(bid);
                self.best_ask = Some(ask);
            }
        }
    }

    /// Consumes one account event, updating order statuses and balances.
    pub fn on_account_event(&mut self, e: AccountEvent)
        requires
            old(self)@.wf(),
        ensures
            final(self)@ == account_next(old(self)@, e),
            final(self)@.wf(),
    {
        match e {
            AccountEvent::OrderFilled { client_id } => {
                self.set_status(client_id, OrderStatus::Filled);
            }
            AccountEvent::OrderCanceled { client_id } => {
                self.set_status(client_id, OrderStatus::Canceled);
            }
            AccountEvent::Balance { asset, free } => {
                match self.find_balance(asset) {
                    Some(i) => {
                        proof {
                            lemma_balance_idx_of(self.balances@, asset, i as int);
                        }
                        self.balances[i] = AssetBalance { asset, free };
                    }
                    None => {
                        self.balances.push(AssetBalance { asset, free });
                    }
                }
            }
        }
    }

    /// Moves the tracked order with this client id (if any) to status `st`.
    fn set_status(&mut self, client_id: u64, st: OrderStatus)
        requires
            old(self)@.wf(),
        ensures
            final(self)@ == (EngineModel {
                orders: set_order_status(old(self)@.orders, client_id, st),
                ..old(self)@
            }),
            final(self)@.wf(),
    {
        match self.find_order(client_id) {
            Some(i) => {
                proof {
                    lemma_order_idx_of(self.orders@, client_id, i as int);
                }
                let retries = self.orders[i].retries_used;
                self.orders[i] = OrderTrack { client_id, status: st, retries_used: retries };
            }
            None => {}
        }
    }

    /// Starts tracking an order under a client-assigned id and asks for its
    /// submission. A client id already in use is refused: the request
    /// changes nothing and nothing is submitted, so one id can never stand
    /// for two exchange-side orders.
    pub fn place_order(&mut self, client_id: u64) -> (a: EngineAction)
        requires
            old(self)@.wf(),
        ensures
            final(self)@ == place_next(old(self)@, client_id),
            a == place_emit(old(self)@, client_id),
            final(self)@.wf(),
            !has_order(old(self)@.orders, client_id) ==> {
                &&& final(self)@.order_status(client_id) == Some(OrderStatus::Submitted)
                &&& final(self)@.order_retries(client_id) == 0
            },
    {
        match self.find_order(client_id) {
            Some(i) => {
                proof {
                    lemma_order_idx_of(self.orders@, client_id, i as int);
                }
                EngineAction::Idle
            }
            None => {
                let ghost n = self.orders@.len() as int;
                self.orders.push(OrderTrack {
                    client_id,
                    status: OrderStatus::Submitted,
                    retries_used: 0,
                });
                proof {
                    assert(order_ids_unique(self.orders@));
                    lemma_order_idx_of(self.orders@, client_id, n);
                }
                EngineAction::Submit { client_id, backoff: false }
            }
        }
    }

    /// Consumes the REST client's result for the pending submission under
    /// this client id, deciding between opening the order, retrying it
    /// under the same id — after a backoff when rate limited — and giving
    /// it up once the bounded retry budget is spent.
    pub fn on_order_result(&mut self, client_id: u64, result: Result<(), RestError>) -> (r: (EngineAction, Option<UnitError>))
        requires
            old(self)@.wf(),
        ensures
            final(self)@ == order_result_next(old(self)@, client_id, result),
            r == order_result_emit(old(self)@, client_id, result),
            final(self)@.wf(),
    {
        match self.find_order(client_id) {
            Some(i) => {
                proof {
                    lemma_order_idx_of(self.orders@, client_id, i as int);
                }
                let track = self.orders[i];
                if !matches!(track.status, OrderStatus::Submitted) {
                    return (EngineAction::Idle, None);
                }
                match result {
                    Ok(_) => {
                        self.orders[i] = OrderTrack {
                            client_id,
                            status: OrderStatus::Open,
                            retries_used: track.retries_used,
                        };
                        (EngineAction::Idle, None)
                    }
                    Err(err) => {
                        if !err.retryable() {
                            self.orders[i] = OrderTrack {
                                client_id,
                                status: OrderStatus::Failed,
                                retries_used: track.retries_used,
                            };
                            (EngineAction::Idle, Some(err.as_unit_error()))
                        } else if track.retries_used < MAX_ORDER_RETRIES {
                            self.orders[i] = OrderTrack {
                                client_id,
                                status: OrderStatus::Submitted,
                                retries_used: track.retries_used + 1,
                            };
                            (EngineAction::Submit { client_id, backoff: err.needs_backoff() }, None)
                        } else {
                            self.orders[i] = OrderTrack {
                                client_id,
                                status: OrderStatus::Failed,
                                retries_used: track.retries_used,
                            };
                            (EngineAction::Idle, Some(UnitError::OrderActionFailed))
                        }
                    }
                }
            }
            None => (EngineAction::Idle, None),
        }
    }

    /// Feeds one event of any kind into the engine: one entry point over
    /// the four handlers, transitioning by exactly `engine_next` and
    /// answering with exactly `engine_emit`.
    pub fn on_event(&mut self, e: EngineEvent) -> (r: (EngineAction, Option<UnitError>))
        requires
            old(self)@.wf(),
        ensures
            final(self)@ == engine_next(old(self)@, e),
            r == engine_emit(old(self)@, e),
            final(self)@.wf(),
    {
        match e {
            EngineEvent::Market(me) => {
                self.on_market_event(me);
                (EngineAction::Idle, None)
            }
            EngineEvent::Account(ae) => {
                self.on_account_event(ae);
                (EngineAction::Idle, None)
            }
            EngineEvent::Place { client_id } => (self.place_order(client_id), None),
            EngineEvent::OrderResult { client_id, result } => self.on_order_result(client_id, result),
        }
    }

    /// The status of the tracked order with this client id.
    pub fn order_status(&self, client_id: u64) -> (r: Option<OrderStatus>)
        requires
            self@.wf(),
        ensures
            r == self@.order_status(client_id),
    {
        match self.find_order(client_id) {
            Some(i) => {
                proof {
                    lemma_order_idx_of(self.orders@, client_id, i as int);
                }
                Some(self.orders[i].status)
            }
            None => None,
        }
    }

    /// The free amount of the asset, zero when never reported.
    pub fn balance_of(&self, asset: u64) -> (r: u64)
        requires
            self@.wf(),
        ensures
            r == self@.balance_of(asset),
    {
        match self.find_balance(asset) {
            Some(i) => {
                proof {
                    lemma_balance_idx_of(self.balances@, asset, i as int);
                }
                self.balances[i].free
            }
            None => 0,
        }
    }

    /// How many orders the engine tracks.
    pub fn order_count(&self) -> (r: usize)
        ensures
            r == self@.orders.len(),
    {
        self.orders.len()
    }
}

/// Occurrences of `id` in `s`.
pub open spec fn count_of(s: Seq<u64>, id: u64) -> nat
    decreases s.len(),
{
    if s.len() == 0 {
        0
    } else {
        (if s[0] == id { 1nat } else { 0nat }) + count_of(s.drop_first(), id)
    }
}

/// An id occurs in a sequence exactly when its count is positive.
pub proof fn lemma_count_contains(s: Seq<u64>, id: u64)
    ensures
        s.contains(id) <==> count_of(s, id) > 0,
    decreases s.len(),
{
    if s.len() > 0 {
        lemma_count_contains(s.drop_first(), id);
        if s[0] == id {
            assert(s.contains(id));
        } else {
            if s.contains(id) {
                let k = choose|k: int| 0 <= k < s.len() && s[k] == id;
                assert(s.drop_first()[k - 1] == s[k]);
                assert(s.drop_first().contains(id));
            }
            if s.drop_first().contains(id) {
                let k = choose|k: int| 0 <= k < s.drop_first().len() && s.drop_first()[k] == id;
                assert(s[k + 1] == id);
                assert(s.contains(id));
            }
        }
    }
}

/// Appending an id raises its count by one and leaves other counts alone.
pub proof fn lemma_count_push(s: Seq<u64>, id: u64, x: u64)
    ensures
        count_of(s.push(x), id) == count_of(s, id) + (if x == id { 1nat } else { 0nat }),
    decreases s.len(),
{
    if s.len() == 0 {
        assert(s.push(x)[0] == x);
        assert(s.push(x).drop_first() =~= Seq::<u64>::empty());
        assert(count_of(s.push(x).drop_first(), id) == 0);
        assert(count_of(s, id) == 0);
    } else {
        assert(s.push(x)[0] == s[0]);
        assert(s.push(x).drop_first() =~= s.drop_first().push(x));
        lemma_count_push(s.drop_first(), id, x);
        assert(count_of(s.push(x), id) == (if s[0] == id { 1nat } else { 0nat })
            + count_of(s.drop_first().push(x), id));
        assert(count_of(s, id) == (if s[0] == id { 1nat } else { 0nat })
            + count_of(s.drop_first(), id));
    }
}

/// The contents of the stub exchange after a submission under `id`: the
/// exchange rejects duplicate client-assigned ids, so a submission under a
/// present id changes nothing.
pub open spec fn stub_submit(s: Seq<u64>, id: u64) -> Seq<u64> {
    if s.contains(id) {
        s
    } else {
        s.push(id)
    }
}

/// A stub exchange for replay testing: it records which client-assigned
/// order ids it has accepted and rejects every duplicate, as the real
/// exchange does.
#[derive(Debug, Clone)]
pub struct ExchangeStub {
    /// Client ids accepted so far, in order of acceptance.
    pub accepted: Vec<u64>,
}

impl ExchangeStub {
    /// A stub exchange holding no orders.
    pub fn new() -> (r: ExchangeStub)
        ensures
            r.accepted@ == Seq::<u64>::empty(),
    {
        ExchangeStub { accepted: Vec::new() }
    }

    /// Submits an order under a client id: accepted when the id is new,
    /// rejected as a duplicate when it was accepted before.
    pub fn submit(&mut self, client_id: u64) -> (r: bool)
        ensures
            final(self).accepted@ == stub_submit(old(self).accepted@, client_id),
            r == !old(self).accepted@.contains(client_id),
    {
        let mut i: usize = 0;
        while i < self.accepted.len()
            invariant
                i <= self.accepted@.len(),
                forall|j: int| 0 <= j < i ==> self.accepted@[j] != client_id,
            decreases self.accepted@.len() - i,
        {
            if self.accepted[i] == client_id {
                return false;
            }
            i = i + 1;
        }
        self.accepted.push(client_id);
        true
    }

    /// How many exchange-side orders exist under this client id.
    pub fn orders_under(&self, client_id: u64) -> (r: usize)
        ensures
            r == count_of(self.accepted@, client_id),
    {
        let mut i: usize = 0;
        let mut n: usize = 0;
        while i < self.accepted.len()
            invariant
                i <= self.accepted@.len(),
                n == count_of(self.accepted@.take(i as int), client_id),
                n <= i,
            decreases self.accepted@.len() - i,
        {
            proof {
                lemma_count_push(self.accepted@.take(i as int), client_id, self.accepted@[i as int]);
                assert(self.accepted@.take(i as int).push(self.accepted@[i as int])
                    =~= self.accepted@.take(i as int + 1));
            }
            if self.accepted[i] == client_id {
                n = n + 1;
            }
            i = i + 1;
        }
        proof {
            assert(self.accepted@.take(i as int) =~= self.accepted@);
        }
        n
    }
}

/// Submitting twice under one fresh client id leaves the exchange with
/// exactly one order under it: the first submission is accepted, the
/// second rejected as a duplicate.
pub proof fn lemma_stub_rejects_duplicate(ex: Seq<u64>, client_id: u64)
    requires
        count_of(ex, client_id) == 0,
    ensures
        count_of(stub_submit(ex, client_id), client_id) == 1,
        count_of(stub_submit(stub_submit(ex, client_id), client_id), client_id) == 1,
{
    lemma_count_contains(ex, client_id);
    lemma_count_push(ex, client_id, client_id);
    lemma_count_contains(stub_submit(ex, client_id), client_id);
}

/// Idempotent order retry: with a submission pending under a client id
/// whose original request the exchange has accepted, a timeout makes the
/// engine ask for a retry under the very same client id; the exchange,
/// which rejects duplicate client-assigned ids, then still holds exactly
/// one order under that id.
pub proof fn lemma_idempotent_retry(m: EngineModel, ex: Seq<u64>, client_id: u64)
    requires
        m.wf(),
        m.order_status(client_id) == Some(OrderStatus::Submitted),
        m.order_retries(client_id) < MAX_ORDER_RETRIES,
        count_of(ex, client_id) == 1,
    ensures
        order_result_emit(m, client_id, Err(RestError::Timeout))
            == (EngineAction::Submit { client_id, backoff: false }, None::<UnitError>),
        count_of(stub_submit(ex, client_id), client_id) == 1,
{
    lemma_count_contains(ex, client_id);
}

} // verus!
