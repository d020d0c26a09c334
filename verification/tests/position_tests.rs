use clearing_house::amm::Amm;
use clearing_house::error::Error;
use clearing_house::position::PositionDirection;
use clearing_house::position::close;
use clearing_house::position::increase;
use clearing_house::position::increase_with_base_asset_amount;
use clearing_house::position::reduce;
use clearing_house::position::reduce_with_base_asset_amount;
use clearing_house::state::Market;
use clearing_house::state::MarketPosition;
use clearing_house::state::User;

fn amm_with(base_asset_reserve: u128, quote_asset_reserve: u128) -> Amm {
    Amm {
        base_asset_reserve,
        quote_asset_reserve,
        cumulative_funding_rate_long: 0,
        cumulative_funding_rate_short: 0,
    }
}

fn market_with(amm: Amm) -> Market {
    Market {
        amm,
        base_asset_amount: 0,
        base_asset_amount_long: 0,
        base_asset_amount_short: 0,
        open_interest: 0,
    }
}

fn flat_position(market_index: u64) -> MarketPosition {
    MarketPosition {
        market_index,
        base_asset_amount: 0,
        quote_asset_amount: 0,
        last_cumulative_funding_rate: 0,
        last_funding_rate_ts: 0,
        open_orders: 0,
    }
}

#[test]
fn default_direction_is_long() {
    assert_eq!(PositionDirection::default(), PositionDirection::Long);
}

#[test]
fn increase_zero_quote_is_noop() {
    let mut market = market_with(amm_with(100, 1000));
    market.open_interest = 3;
    let mut position = flat_position(0);
    position.base_asset_amount = 17;
    position.quote_asset_amount = 40;
    let market_before = market;
    let position_before = position;

    let r = increase(PositionDirection::Long, 0, &mut market, &mut position, 11);

    assert_eq!(r, Ok(0));
    assert_eq!(market, market_before);
    assert_eq!(position, position_before);
}

#[test]
fn increase_with_base_zero_base_is_noop() {
    let mut market = market_with(amm_with(100, 1000));
    let mut position = flat_position(0);
    let market_before = market;
    let position_before = position;

    let r = increase_with_base_asset_amount(
        PositionDirection::Short,
        0,
        &mut market,
        &mut position,
        11,
    );

    assert_eq!(r, Ok(()));
    assert_eq!(market, market_before);
    assert_eq!(position, position_before);
}

#[test]
fn increase_opens_long_and_snapshots_funding() {
    let mut amm = amm_with(100, 1000);
    amm.cumulative_funding_rate_long = 7;
    amm.cumulative_funding_rate_short = -9;
    let mut market = market_with(amm);
    let mut position = flat_position(2);

    let r = increase(PositionDirection::Long, 1000, &mut market, &mut position, 11);

    assert_eq!(r, Ok(50));
    assert_eq!(position.base_asset_amount, 50);
    assert_eq!(position.quote_asset_amount, 1000);
    assert_eq!(position.last_cumulative_funding_rate, 7);
    assert_eq!(market.open_interest, 1);
    assert_eq!(market.base_asset_amount, 50);
    assert_eq!(market.base_asset_amount_long, 50);
    assert_eq!(market.base_asset_amount_short, 0);
    assert_eq!(market.amm.base_asset_reserve, 50);
    assert_eq!(market.amm.quote_asset_reserve, 2000);
}

#[test]
fn increase_opens_short_into_short_bucket() {
    let mut amm = amm_with(100, 1000);
    amm.cumulative_funding_rate_short = -9;
    let mut market = market_with(amm);
    let mut position = flat_position(2);

    let r = increase(PositionDirection::Short, 500, &mut market, &mut position, 11);

    assert_eq!(r, Ok(-100));
    assert_eq!(position.base_asset_amount, -100);
    assert_eq!(position.quote_asset_amount, 500);
    assert_eq!(position.last_cumulative_funding_rate, -9);
    assert_eq!(market.open_interest, 1);
    assert_eq!(market.base_asset_amount, -100);
    assert_eq!(market.base_asset_amount_long, 0);
    assert_eq!(market.base_asset_amount_short, -100);
    assert_eq!(market.amm.base_asset_reserve, 200);
    assert_eq!(market.amm.quote_asset_reserve, 500);
}

#[test]
fn increase_with_base_charges_reported_quote_cost() {
    let mut market = market_with(amm_with(100, 1000));
    let mut position = flat_position(0);

    let r = increase_with_base_asset_amount(
        PositionDirection::Long,
        50,
        &mut market,
        &mut position,
        11,
    );

    assert_eq!(r, Ok(()));
    assert_eq!(position.base_asset_amount, 50);
    assert_eq!(position.quote_asset_amount, 1000);
    assert_eq!(market.open_interest, 1);
    assert_eq!(market.base_asset_amount_long, 50);
    assert_eq!(market.amm.base_asset_reserve, 50);
    assert_eq!(market.amm.quote_asset_reserve, 2000);
}

#[test]
fn reduce_closes_cost_basis_proportionally() {
    let mut market = market_with(amm_with(1000, 13520));
    market.open_interest = 1;
    market.base_asset_amount = 100;
    market.base_asset_amount_long = 100;
    let mut position = flat_position(0);
    position.base_asset_amount = 100;
    position.quote_asset_amount = 1000;
    let mut user = User { collateral: 0 };

    let r = reduce(
        PositionDirection::Short,
        520,
        &mut user,
        &mut market,
        &mut position,
        11,
        None,
    );

    assert_eq!(r, Ok(-40));
    assert_eq!(position.base_asset_amount, 60);
    assert_eq!(position.quote_asset_amount, 600);
    assert_eq!(market.open_interest, 1);
    assert_eq!(market.base_asset_amount, 60);
    assert_eq!(market.base_asset_amount_long, 60);
    // proceeds 520 against the 400 of cost basis closed
    assert_eq!(user.collateral, 120);
}

#[test]
fn reduce_to_flat_decrements_open_interest() {
    let mut market = market_with(amm_with(1000, 13520));
    market.open_interest = 1;
    market.base_asset_amount = 40;
    market.base_asset_amount_long = 40;
    let mut position = flat_position(0);
    position.base_asset_amount = 40;
    position.quote_asset_amount = 400;
    let mut user = User { collateral: 1000 };

    let r = reduce(
        PositionDirection::Short,
        520,
        &mut user,
        &mut market,
        &mut position,
        11,
        None,
    );

    assert_eq!(r, Ok(-40));
    assert_eq!(position.base_asset_amount, 0);
    assert_eq!(position.quote_asset_amount, 0);
    assert_eq!(market.open_interest, 0);
    assert_eq!(market.base_asset_amount, 0);
    // the resulting position is not long, so the sign test mirrors: 400 - 520
    assert_eq!(user.collateral, 880);
}

#[test]
fn reduce_with_base_uses_trade_direction_for_pnl_sign() {
    let mut market = market_with(amm_with(1000, 13000));
    market.open_interest = 1;
    market.base_asset_amount = 100;
    market.base_asset_amount_long = 100;
    let mut position = flat_position(0);
    position.base_asset_amount = 100;
    position.quote_asset_amount = 1000;
    let mut user = User { collateral: 0 };

    // selling 40 base: reserves go to 1040 base, 12500 quote, 500 quote swapped
    let r = reduce_with_base_asset_amount(
        PositionDirection::Short,
        40,
        &mut user,
        &mut market,
        &mut position,
        11,
    );

    assert_eq!(r, Ok(()));
    assert_eq!(position.base_asset_amount, 60);
    assert_eq!(position.quote_asset_amount, 600);
    assert_eq!(market.base_asset_amount, 60);
    assert_eq!(market.base_asset_amount_long, 60);
    assert_eq!(market.open_interest, 1);
    // short trade direction: proceeds 500 minus the 400 closed
    assert_eq!(user.collateral, 100);
}

#[test]
fn close_flat_position_is_noop() {
    let mut market = market_with(amm_with(100, 1000));
    market.open_interest = 4;
    let mut position = flat_position(0);
    let mut user = User { collateral: 5000 };
    let market_before = market;
    let position_before = position;

    let r = close(&mut user, &mut market, &mut position, 11);

    assert_eq!(r, Ok((0, 0)));
    assert_eq!(market, market_before);
    assert_eq!(position, position_before);
    assert_eq!(user.collateral, 5000);
}

#[test]
fn scenario_open_price_move_close() {
    // a trader with 5000 of collateral opens a long for a 1000 budget
    let mut market = market_with(amm_with(100, 1000));
    let mut position = flat_position(0);
    let mut user = User { collateral: 5000 };

    let opened = increase(PositionDirection::Long, 1000, &mut market, &mut position, 11);
    assert_eq!(opened, Ok(50));
    assert_eq!(user.collateral, 5000);

    // other trades move the curve so that the 50 base units now fetch 1200
    market.amm.base_asset_reserve = 200;
    market.amm.quote_asset_reserve = 6000;

    let r = close(&mut user, &mut market, &mut position, 12);

    assert_eq!(r, Ok((1200, 50)));
    assert_eq!(user.collateral, 5200);
    assert_eq!(market.open_interest, 0);
    assert_eq!(market.base_asset_amount, 0);
    assert_eq!(market.base_asset_amount_long, 0);
    assert_eq!(position.base_asset_amount, 0);
    assert_eq!(position.quote_asset_amount, 0);
    assert_eq!(position.last_cumulative_funding_rate, 0);
}

#[test]
fn open_then_close_round_trip_restores_collateral() {
    let mut market = market_with(amm_with(100, 1000));
    let mut position = flat_position(0);
    let mut user = User { collateral: 7777 };

    let opened = increase(PositionDirection::Long, 1000, &mut market, &mut position, 11);
    assert_eq!(opened, Ok(50));

    let r = close(&mut user, &mut market, &mut position, 11);

    // the curve returns exactly the budget, so the collateral is restored
    assert_eq!(r, Ok((1000, 50)));
    assert_eq!(user.collateral, 7777);
    assert_eq!(market.open_interest, 0);
}

#[test]
fn short_round_trip_restores_collateral() {
    let mut market = market_with(amm_with(100, 1000));
    let mut position = flat_position(0);
    let mut user = User { collateral: 4000 };

    let opened = increase(PositionDirection::Short, 500, &mut market, &mut position, 11);
    assert_eq!(opened, Ok(-100));
    assert_eq!(position.base_asset_amount, -100);

    let r = close(&mut user, &mut market, &mut position, 11);

    assert_eq!(r, Ok((500, -100)));
    assert_eq!(user.collateral, 4000);
    assert_eq!(market.open_interest, 0);
    assert_eq!(market.base_asset_amount_short, 0);
}

#[test]
fn short_round_trip_truncation_favours_the_trader() {
    let mut market = market_with(amm_with(100, 1000));
    let mut position = flat_position(0);
    let mut user = User { collateral: 1000 };

    let opened = increase(PositionDirection::Short, 300, &mut market, &mut position, 11);
    assert_eq!(opened, Ok(-42));

    let r = close(&mut user, &mut market, &mut position, 11);

    // buying the exposure back costs 294: the truncation drift is a gain
    assert_eq!(r, Ok((294, -42)));
    assert_eq!(user.collateral, 1006);
}

#[test]
fn increase_overflow_on_position_base_changes_nothing() {
    let mut market = market_with(amm_with(100, 1000));
    market.open_interest = 1;
    market.base_asset_amount = 3;
    market.base_asset_amount_long = 3;
    let mut position = flat_position(0);
    position.base_asset_amount = i128::MAX;
    position.quote_asset_amount = 10;
    let market_before = market;
    let position_before = position;

    let r = increase_with_base_asset_amount(
        PositionDirection::Long,
        1,
        &mut market,
        &mut position,
        11,
    );

    assert_eq!(r, Err(Error::ArithmeticOverflow));
    assert_eq!(market, market_before);
    assert_eq!(position, position_before);
}

#[test]
fn increase_overflow_on_cost_basis_changes_nothing() {
    let mut market = market_with(amm_with(100, 1000));
    let mut position = flat_position(0);
    position.base_asset_amount = 5;
    position.quote_asset_amount = u128::MAX;
    let market_before = market;
    let position_before = position;

    let r = increase(PositionDirection::Long, 1, &mut market, &mut position, 11);

    assert_eq!(r, Err(Error::ArithmeticOverflow));
    assert_eq!(market, market_before);
    assert_eq!(position, position_before);
}

#[test]
fn increase_overflow_on_open_interest_changes_nothing() {
    let mut market = market_with(amm_with(100, 1000));
    market.open_interest = u128::MAX;
    let mut position = flat_position(0);
    let market_before = market;
    let position_before = position;

    let r = increase(PositionDirection::Long, 5, &mut market, &mut position, 11);

    assert_eq!(r, Err(Error::ArithmeticOverflow));
    assert_eq!(market, market_before);
    assert_eq!(position, position_before);
}

#[test]
fn increase_with_base_cast_failure_changes_nothing() {
    let mut market = market_with(amm_with(100, 1000));
    let mut position = flat_position(0);
    let market_before = market;
    let position_before = position;

    // above the signed range: the swap itself succeeds, the cast is refused
    let r = increase_with_base_asset_amount(
        PositionDirection::Short,
        170141183460469231731687303715884105728u128,
        &mut market,
        &mut position,
        11,
    );

    assert_eq!(r, Err(Error::CastFailure));
    assert_eq!(market, market_before);
    assert_eq!(position, position_before);
}

#[test]
fn reduce_on_flat_position_is_guarded() {
    let mut market = market_with(amm_with(100, 1000));
    market.open_interest = 5;
    let mut position = flat_position(0);
    let mut user = User { collateral: 50 };
    let market_before = market;
    let position_before = position;

    // a zero swap on a flat slot runs into the divide-by-zero guard
    let r = reduce(
        PositionDirection::Long,
        0,
        &mut user,
        &mut market,
        &mut position,
        11,
        None,
    );

    assert_eq!(r, Err(Error::ArithmeticOverflow));
    assert_eq!(market, market_before);
    assert_eq!(position, position_before);
    assert_eq!(user.collateral, 50);
}

#[test]
fn aggregates_stay_consistent_over_a_trade_sequence() {
    let mut market = market_with(amm_with(1000, 100000));
    let mut position = flat_position(0);
    let mut user = User { collateral: 10000 };

    let opened = increase(PositionDirection::Long, 25000, &mut market, &mut position, 1);
    assert!(opened.is_ok());
    assert_eq!(
        market.base_asset_amount,
        market.base_asset_amount_long + market.base_asset_amount_short
    );
    assert_eq!(market.open_interest, 1);

    let grown = increase_with_base_asset_amount(
        PositionDirection::Long,
        10,
        &mut market,
        &mut position,
        2,
    );
    assert!(grown.is_ok());
    assert_eq!(
        market.base_asset_amount,
        market.base_asset_amount_long + market.base_asset_amount_short
    );
    assert_eq!(market.open_interest, 1);

    let shrunk = reduce(
        PositionDirection::Short,
        5000,
        &mut user,
        &mut market,
        &mut position,
        3,
        None,
    );
    assert!(shrunk.is_ok());
    assert!(position.base_asset_amount > 0);
    assert_eq!(
        market.base_asset_amount,
        market.base_asset_amount_long + market.base_asset_amount_short
    );
    assert_eq!(market.open_interest, 1);

    let closed = close(&mut user, &mut market, &mut position, 4);
    assert!(closed.is_ok());
    assert_eq!(
        market.base_asset_amount,
        market.base_asset_amount_long + market.base_asset_amount_short
    );
    assert_eq!(market.open_interest, 0);
    assert_eq!(position.base_asset_amount, 0);
    assert_eq!(position.quote_asset_amount, 0);
}
