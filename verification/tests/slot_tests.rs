use clearing_house::error::Error;
use clearing_house::position::add_new_position;
use clearing_house::position::get_position_index;
use clearing_house::state::MarketPosition;
use clearing_house::state::UserPositions;

fn slot(market_index: u64, base_asset_amount: i128) -> MarketPosition {
    MarketPosition {
        market_index,
        base_asset_amount,
        quote_asset_amount: if base_asset_amount == 0 { 0 } else { 9 },
        last_cumulative_funding_rate: 0,
        last_funding_rate_ts: 0,
        open_orders: 0,
    }
}

#[test]
fn add_new_position_takes_first_available_slot() {
    let mut positions = UserPositions {
        positions: vec![slot(3, -5), slot(8, 0), slot(9, 0)],
    };

    let r = add_new_position(&mut positions, 42);

    assert_eq!(r, Ok(1));
    assert_eq!(positions.positions[1].market_index, 42);
    assert_eq!(positions.positions[1].base_asset_amount, 0);
    assert_eq!(positions.positions[1].quote_asset_amount, 0);
    assert_eq!(positions.positions[1].last_cumulative_funding_rate, 0);
    assert_eq!(positions.positions[1].last_funding_rate_ts, 0);
    assert_eq!(positions.positions[1].open_orders, 0);
    // the occupied slot and the later free slot are untouched
    assert_eq!(positions.positions[0], slot(3, -5));
    assert_eq!(positions.positions[2], slot(9, 0));
}

#[test]
fn add_new_position_fails_when_every_slot_is_taken() {
    let mut positions = UserPositions {
        positions: vec![slot(1, 4), slot(2, -2)],
    };
    let before = positions.clone();

    let r = add_new_position(&mut positions, 42);

    assert_eq!(r, Err(Error::MaxPositionsReached));
    assert_eq!(positions, before);
}

#[test]
fn get_position_index_finds_the_tracking_slot() {
    let positions = UserPositions {
        positions: vec![slot(1, 4), slot(7, -2), slot(9, 10)],
    };

    assert_eq!(get_position_index(&positions, 7), Ok(1));
    assert_eq!(get_position_index(&positions, 9), Ok(2));
}

#[test]
fn get_position_index_misses_without_exposure() {
    let positions = UserPositions {
        positions: vec![slot(1, 4), slot(7, 0)],
    };

    // slot 7 exists but is flat: the user has no exposure there
    assert_eq!(get_position_index(&positions, 7), Err(Error::NoPositionInMarket));
    assert_eq!(get_position_index(&positions, 99), Err(Error::NoPositionInMarket));
}
