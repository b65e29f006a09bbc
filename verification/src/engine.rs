//! The price decision engine: a pure mapping from the current time, the
//! spot-price series and the observed inverter state to exactly one control
//! action.
//!
//! The engine finds the first price interval that covers the current time.
//! A negative price makes the stop code the target, any other price the
//! start code; the standby code is never a target. When the observed state
//! already equals the target the engine does nothing, which makes a second
//! run on unchanged inputs a no-op. Without an applicable interval, or
//! without price data at all, the engine does nothing either.
//!
//! Timestamps are Unix seconds. The price is a fixed-point integer (the
//! provider's unit scaled by a constant power of ten); the engine only ever
//! inspects its sign, so any scale that keeps the sign is faithful.

use vstd::prelude::*;

use crate::modbus_client::{INVERTER_STATE_START, INVERTER_STATE_STOP};

verus! {

/// One spot-price interval: half-open time range `[from, till)` in Unix
/// seconds, and the fully composed price as a sign-preserving fixed-point
/// integer.
#[derive(Clone, Copy, Debug, PartialEq, Eq, Structural)]
pub struct SpotPrice {
    /// Start of the interval, inclusive, Unix seconds.
    pub from: i64,
    /// End of the interval, exclusive, Unix seconds.
    pub till: i64,
    /// Fixed-point total price; only its sign steers the decision.
    pub total_price: i64,
}

/// The price data a successful provider read hands over: the upcoming
/// spot-price intervals in time order.
#[derive(Debug)]
pub struct SpotPricesState {
    /// Spot prices sorted by interval start, non-overlapping.
    pub future_spot_prices: Vec<SpotPrice>,
}

/// The one action a run takes on the inverter.
#[derive(Clone, Copy, Debug, PartialEq, Eq, Structural)]
pub enum ControlAction {
    /// Write the start code.
    Start,
    /// Write the stop code.
    Stop,
    /// Write nothing.
    NoOp,
}

/// A spot price applies at `now` when its half-open interval covers it.
pub open spec fn applies_at(price: SpotPrice, now: i64) -> bool {
    price.from <= now < price.till
}

/// The first spot price in series order whose interval covers `now`, if any.
pub open spec fn first_applicable(series: Seq<SpotPrice>, now: i64) -> Option<SpotPrice>
    decreases series.len(),
{
    if series.len() == 0 {
        None
    } else if applies_at(series[0], now) {
        Some(series[0])
    } else {
        first_applicable(series.drop_first(), now)
    }
}

/// `first_applicable` indeed finds the first covering interval: nothing is
/// found exactly when no entry covers `now`, and a found price sits at an
/// index all of whose earlier entries fail to cover `now`.
pub proof fn lemma_first_applicable_is_first(series: Seq<SpotPrice>, now: i64)
    ensures
        first_applicable(series, now) is None <==> (forall|i: int|
            0 <= i < series.len() ==> !applies_at(#[trigger] series[i], now)),
        first_applicable(series, now) matches Some(price) ==> exists|i: int|
            0 <= i < series.len() && price == series[i] && applies_at(series[i], now)
            && (forall|j: int| 0 <= j < i ==> !applies_at(#[trigger] series[j], now)),
    decreases series.len(),
{
    if series.len() == 0 {
    } else if applies_at(series[0], now) {
        assert(first_applicable(series, now) == Some(series[0]));
    } else {
        let rest = series.drop_first();
        lemma_first_applicable_is_first(rest, now);
        assert(forall|i: int| 0 <= i < rest.len() ==> #[trigger] rest[i] == series[i + 1]);
        if first_applicable(series, now) is None {
            assert forall|i: int| 0 <= i < series.len() implies !applies_at(
                #[trigger] series[i],
                now,
            ) by {
                if i > 0 {
                    assert(series[i] == rest[i - 1]);
                }
            }
        } else {
            let price = first_applicable(rest, now)->0;
            let i = choose|i: int|
                0 <= i < rest.len() && price == rest[i] && applies_at(rest[i], now)
                && (forall|j: int| 0 <= j < i ==> !applies_at(#[trigger] rest[j], now));
            assert(price == series[i + 1] && applies_at(series[i + 1], now));
            assert forall|j: int| 0 <= j < i + 1 implies !applies_at(
                #[trigger] series[j],
                now,
            ) by {
                if j > 0 {
                    assert(series[j] == rest[j - 1]);
                    assert(!applies_at(rest[j - 1], now));
                }
            }
            assert(0 <= i + 1 < series.len() && price == series[i + 1] && applies_at(
                series[i + 1],
                now,
            ) && (forall|j: int| 0 <= j < i + 1 ==> !applies_at(#[trigger] series[j], now)));
        }
    }
}

/// The state code a price makes the target: stop on a negative price, start
/// on any other. Standby is never a target.
pub open spec fn target_state(total_price: i64) -> u32 {
    if total_price < 0 {
        INVERTER_STATE_STOP
    } else {
        INVERTER_STATE_START
    }
}

/// What the engine decides: the action toward the target of the first
/// applicable price, or nothing when the observed state already is the
/// target or no price applies.
pub open spec fn decide_spec(series: Seq<SpotPrice>, now: i64, observed_state: u32) -> ControlAction {
    match first_applicable(series, now) {
        Some(price) => if observed_state == target_state(price.total_price) {
            ControlAction::NoOp
        } else if price.total_price < 0 {
            ControlAction::Stop
        } else {
            ControlAction::Start
        },
        None => ControlAction::NoOp,
    }
}

/// Decides the control action for the observed inverter state under the
/// given spot-price series at time `now`.
pub fn decide(now: i64, series: &Vec<SpotPrice>, observed_state: u32) -> (action: ControlAction)
    ensures
        action == decide_spec(series@, now, observed_state),
{
    let mut i: usize = 0;
    proof {
        assert(series@.skip(0) =~= series@);
    }
    while i < series.len()
        invariant
            i <= series@.len(),
            first_applicable(series@, now) == first_applicable(series@.skip(i as int), now),
        decreases series@.len() - i,
    {
        let price = series[i];
        if price.from <= now && now < price.till {
            proof {
                assert(series@.skip(i as int)[0] == price);
                assert(first_applicable(series@, now) == Some(price));
            }
            if observed_state == target_state_code(price.total_price) {
                return ControlAction::NoOp;
            } else if price.total_price < 0 {
                return ControlAction::Stop;
            } else {
                return ControlAction::Start;
            }
        }
        proof {
            assert(series@.skip(i as int).drop_first() =~= series@.skip(i as int + 1));
        }
        i = i + 1;
    }
    proof {
        assert(series@.skip(i as int) =~= Seq::<SpotPrice>::empty());
    }
    ControlAction::NoOp
}

/// The state code a price makes the target, as executable code.
pub fn target_state_code(total_price: i64) -> (code: u32)
    ensures
        code == target_state(total_price),
{
    if total_price < 0 {
        INVERTER_STATE_STOP
    } else {
        INVERTER_STATE_START
    }
}

/// What a whole provider answer decides: nothing without data, otherwise
/// whatever the series decides.
pub open spec fn decide_state_spec(
    state: Option<SpotPricesState>,
    now: i64,
    observed_state: u32,
) -> ControlAction {
    match state {
        Some(s) => decide_spec(s.future_spot_prices@, now, observed_state),
        None => ControlAction::NoOp,
    }
}

/// Decides the control action from a provider answer: an absent answer
/// decides nothing, a present one decides by its series.
pub fn decide_from_state(
    now: i64,
    state: &Option<SpotPricesState>,
    observed_state: u32,
) -> (action: ControlAction)
    ensures
        action == decide_state_spec(*state, now, observed_state),
        state is None ==> action == ControlAction::NoOp,
{
    match state {
        Some(s) => decide(now, &s.future_spot_prices, observed_state),
        None => ControlAction::NoOp,
    }
}

/// The state code an action writes: the start or stop code, or nothing for a
/// no-op.
pub open spec fn action_write_value_spec(action: ControlAction) -> Option<u32> {
    match action {
        ControlAction::Start => Some(INVERTER_STATE_START),
        ControlAction::Stop => Some(INVERTER_STATE_STOP),
        ControlAction::NoOp => None,
    }
}

/// The state code to write for an action, if any: exactly one write for
/// start or stop, none for a no-op.
pub fn action_write_value(action: ControlAction) -> (value: Option<u32>)
    ensures
        value == action_write_value_spec(action),
{
    match action {
        ControlAction::Start => Some(INVERTER_STATE_START),
        ControlAction::Stop => Some(INVERTER_STATE_STOP),
        ControlAction::NoOp => None,
    }
}

/// A negative applicable price with the inverter not already stopped always
/// stops it, whatever else the series holds and whatever the observed state
/// is — standby or an unrecognized code included.
pub proof fn lemma_negative_price_stops(series: Seq<SpotPrice>, now: i64, observed_state: u32)
    requires
        first_applicable(series, now) matches Some(price) && price.total_price < 0,
        observed_state != INVERTER_STATE_STOP,
    ensures
        decide_spec(series, now, observed_state) == ControlAction::Stop,
{
}

/// A non-negative applicable price — zero included — with the inverter not
/// already started always starts it, whatever the observed state is.
pub proof fn lemma_nonnegative_price_starts(series: Seq<SpotPrice>, now: i64, observed_state: u32)
    requires
        first_applicable(series, now) matches Some(price) && price.total_price >= 0,
        observed_state != INVERTER_STATE_START,
    ensures
        decide_spec(series, now, observed_state) == ControlAction::Start,
{
}

/// Idempotence: when the observed state already equals the target of the
/// applicable price, the engine does nothing.
pub proof fn lemma_already_in_target_noop(series: Seq<SpotPrice>, now: i64, observed_state: u32)
    requires
        first_applicable(series, now) matches Some(price) && observed_state == target_state(
            price.total_price,
        ),
    ensures
        decide_spec(series, now, observed_state) == ControlAction::NoOp,
{
}

/// Idempotence across runs: whatever state code one run writes, a second run
/// at the same time on the same series decides to do nothing.
pub proof fn lemma_second_run_noop(series: Seq<SpotPrice>, now: i64, observed_state: u32, written: u32)
    requires
        action_write_value_spec(decide_spec(series, now, observed_state)) == Some(written),
    ensures
        decide_spec(series, now, written) == ControlAction::NoOp,
{
}

/// Without an applicable interval the engine does nothing, whatever the
/// observed state; an empty series never has one.
pub proof fn lemma_no_applicable_noop(series: Seq<SpotPrice>, now: i64, observed_state: u32)
    requires
        first_applicable(series, now) is None || series.len() == 0,
    ensures
        decide_spec(series, now, observed_state) == ControlAction::NoOp,
{
}

/// Without price data at all the engine does nothing, whatever the observed
/// state.
pub proof fn lemma_absent_data_noop(now: i64, observed_state: u32)
    ensures
        decide_state_spec(None, now, observed_state) == ControlAction::NoOp,
{
}

} // verus!
