use inverter_control::engine::{
    action_write_value, decide, decide_from_state, target_state_code, ControlAction, SpotPrice,
    SpotPricesState,
};
use inverter_control::modbus_client::{
    INVERTER_STATE_STANDBY, INVERTER_STATE_START, INVERTER_STATE_STOP,
};

// One quarter-hour interval from 10:00 to 10:15 UTC, as Unix seconds.
const TEN_00: i64 = 1704103200;
const TEN_05: i64 = 1704103500;
const TEN_15: i64 = 1704104100;

// Prices scaled by 100 000: -0.02 EUR/kWh becomes -2000.
fn one_interval(total_price: i64) -> Vec<SpotPrice> {
    vec![SpotPrice { from: TEN_00, till: TEN_15, total_price }]
}

#[test]
fn negative_price_while_running_stops() {
    let series = one_interval(-2000);
    assert_eq!(decide(TEN_05, &series, INVERTER_STATE_START), ControlAction::Stop);
}

#[test]
fn positive_price_while_stopped_starts() {
    let series = one_interval(5000);
    assert_eq!(decide(TEN_05, &series, INVERTER_STATE_STOP), ControlAction::Start);
}

#[test]
fn positive_price_while_running_is_a_noop() {
    let series = one_interval(5000);
    assert_eq!(decide(TEN_05, &series, INVERTER_STATE_START), ControlAction::NoOp);
}

#[test]
fn negative_price_while_stopped_is_a_noop() {
    let series = one_interval(-2000);
    assert_eq!(decide(TEN_05, &series, INVERTER_STATE_STOP), ControlAction::NoOp);
}

#[test]
fn empty_series_is_a_noop_for_any_state() {
    let series: Vec<SpotPrice> = vec![];
    for observed in [INVERTER_STATE_START, INVERTER_STATE_STOP, INVERTER_STATE_STANDBY, 0] {
        assert_eq!(decide(TEN_05, &series, observed), ControlAction::NoOp);
    }
}

#[test]
fn absent_price_data_is_a_noop() {
    assert_eq!(
        decide_from_state(TEN_05, &None, INVERTER_STATE_START),
        ControlAction::NoOp
    );
}

#[test]
fn present_price_data_decides_by_its_series() {
    let state = Some(SpotPricesState { future_spot_prices: one_interval(-2000) });
    assert_eq!(
        decide_from_state(TEN_05, &state, INVERTER_STATE_START),
        ControlAction::Stop
    );
}

#[test]
fn standby_is_not_a_target_negative_price_still_stops() {
    let series = one_interval(-1000);
    assert_eq!(decide(TEN_05, &series, INVERTER_STATE_STANDBY), ControlAction::Stop);
}

#[test]
fn standby_is_not_a_target_nonnegative_price_still_starts() {
    let series = one_interval(100);
    assert_eq!(decide(TEN_05, &series, INVERTER_STATE_STANDBY), ControlAction::Start);
}

#[test]
fn unrecognized_state_is_commanded_by_the_price_sign() {
    let series = one_interval(-1000);
    assert_eq!(decide(TEN_05, &series, 9999), ControlAction::Stop);
    let series = one_interval(1000);
    assert_eq!(decide(TEN_05, &series, 9999), ControlAction::Start);
}

#[test]
fn a_price_of_exactly_zero_targets_start() {
    assert_eq!(target_state_code(0), INVERTER_STATE_START);
    let series = one_interval(0);
    assert_eq!(decide(TEN_05, &series, INVERTER_STATE_STOP), ControlAction::Start);
    assert_eq!(decide(TEN_05, &series, INVERTER_STATE_START), ControlAction::NoOp);
}

#[test]
fn the_interval_is_half_open() {
    let series = one_interval(-2000);
    // `from` is inclusive, `till` exclusive.
    assert_eq!(decide(TEN_00, &series, INVERTER_STATE_START), ControlAction::Stop);
    assert_eq!(decide(TEN_15, &series, INVERTER_STATE_START), ControlAction::NoOp);
    assert_eq!(decide(TEN_00 - 1, &series, INVERTER_STATE_START), ControlAction::NoOp);
}

#[test]
fn the_first_covering_interval_wins() {
    let series = vec![
        SpotPrice { from: TEN_00 - 900, till: TEN_00, total_price: 4000 },
        SpotPrice { from: TEN_00, till: TEN_15, total_price: -2000 },
        // Overlaps the second interval; in series order it comes too late.
        SpotPrice { from: TEN_00, till: TEN_15, total_price: 7000 },
    ];
    assert_eq!(decide(TEN_05, &series, INVERTER_STATE_START), ControlAction::Stop);
}

#[test]
fn no_covering_interval_is_a_noop() {
    let series = vec![
        SpotPrice { from: TEN_00 - 1800, till: TEN_00 - 900, total_price: -2000 },
        SpotPrice { from: TEN_15, till: TEN_15 + 900, total_price: -2000 },
    ];
    assert_eq!(decide(TEN_05, &series, INVERTER_STATE_START), ControlAction::NoOp);
}

#[test]
fn actions_map_to_their_write_values() {
    assert_eq!(action_write_value(ControlAction::Start), Some(INVERTER_STATE_START));
    assert_eq!(action_write_value(ControlAction::Stop), Some(INVERTER_STATE_STOP));
    assert_eq!(action_write_value(ControlAction::NoOp), None);
}

#[test]
fn a_second_run_on_the_written_state_is_a_noop() {
    for (price, observed) in [(-2000i64, INVERTER_STATE_START), (5000, INVERTER_STATE_STOP)] {
        let series = one_interval(price);
        let first = decide(TEN_05, &series, observed);
        let written = action_write_value(first).expect("the first run writes");
        assert_eq!(decide(TEN_05, &series, written), ControlAction::NoOp);
    }
}
