use clearing_house::auction::{calculate_auction_price, get_limit_price};
use clearing_house::bank::{Bank, BankMap, OracleSource};
use clearing_house::constants::{
    BANK_CUMULATIVE_INTEREST_PRECISION, BANK_INTEREST_PRECISION, BANK_WEIGHT_PRECISION,
    BASE_PRECISION, BASE_PRECISION_I128, MARK_PRICE_PRECISION,
};
use clearing_house::errors::ErrorCode;
use clearing_house::fulfillment::{determine_perp_fulfillment_methods, PerpFulfillmentMethod};
use clearing_house::fees::{calculate_fee_for_order, get_fee_structure, FeeStructure};
use clearing_house::margin::meets_initial_margin_requirement;
use clearing_house::market::{Market, MarketMap, AMM};
use clearing_house::matching::calculate_fill_for_matched_orders;
use clearing_house::oracle::get_oracle_map;
use clearing_house::orders::{fulfill_order, fulfill_order_with_match};
use clearing_house::position::{MarketPosition, PositionDirection};
use clearing_house::records::OrderRecord;
use clearing_house::user::{Order, OrderStatus, OrderType, User};
use solana_program::pubkey::Pubkey;

fn long_auction_order() -> Order {
    Order {
        market_index: 0,
        order_type: OrderType::Market,
        direction: PositionDirection::Long,
        base_asset_amount: BASE_PRECISION,
        slot: 10,
        auction_start_price: 100 * MARK_PRICE_PRECISION,
        auction_end_price: 200 * MARK_PRICE_PRECISION,
        auction_duration: 5,
        ..Order::default()
    }
}

#[test]
fn auction_price_starts_at_start_price() {
    let order = long_auction_order();
    assert_eq!(
        calculate_auction_price(&order, 10).unwrap(),
        100 * MARK_PRICE_PRECISION
    );
}

#[test]
fn auction_price_interpolates_and_never_decreases_for_long() {
    let order = long_auction_order();
    let mut last = calculate_auction_price(&order, 10).unwrap();
    for slot in 11..=20 {
        let price = calculate_auction_price(&order, slot).unwrap();
        assert!(price >= last);
        last = price;
    }
    assert_eq!(
        calculate_auction_price(&order, 12).unwrap(),
        140 * MARK_PRICE_PRECISION
    );
}

#[test]
fn auction_price_clamps_to_end_price() {
    let order = long_auction_order();
    assert_eq!(
        calculate_auction_price(&order, 15).unwrap(),
        200 * MARK_PRICE_PRECISION
    );
    assert_eq!(
        calculate_auction_price(&order, 500).unwrap(),
        200 * MARK_PRICE_PRECISION
    );
}

#[test]
fn auction_price_never_increases_for_short() {
    let order = Order {
        direction: PositionDirection::Short,
        auction_start_price: 200 * MARK_PRICE_PRECISION,
        auction_end_price: 100 * MARK_PRICE_PRECISION,
        ..long_auction_order()
    };
    let mut last = calculate_auction_price(&order, 10).unwrap();
    assert_eq!(last, 200 * MARK_PRICE_PRECISION);
    for slot in 11..=20 {
        let price = calculate_auction_price(&order, slot).unwrap();
        assert!(price <= last);
        last = price;
    }
    assert_eq!(last, 100 * MARK_PRICE_PRECISION);
}

#[test]
fn auction_price_before_placement_clamps_to_start_price() {
    let order = long_auction_order();
    assert_eq!(
        calculate_auction_price(&order, 9).unwrap(),
        100 * MARK_PRICE_PRECISION
    );
    assert_eq!(
        calculate_auction_price(&order, 0).unwrap(),
        100 * MARK_PRICE_PRECISION
    );
}

#[test]
fn limit_price_is_the_fixed_price() {
    let order = Order {
        order_type: OrderType::Limit,
        price: 42 * MARK_PRICE_PRECISION,
        ..Order::default()
    };
    assert_eq!(
        get_limit_price(&order, 1000).unwrap(),
        42 * MARK_PRICE_PRECISION
    );
}

#[test]
fn fee_split_is_exact_and_conserves_the_total() {
    let fee_structure = get_fee_structure();
    let (taker_fee, maker_rebate, fee_to_market) =
        calculate_fee_for_order(100_000_000, &fee_structure).unwrap();
    assert_eq!(taker_fee, 50000);
    assert_eq!(maker_rebate, 30000);
    assert_eq!(fee_to_market, 20000);
    assert_eq!(taker_fee - maker_rebate, fee_to_market);
}

#[test]
fn fee_with_zero_denominator_is_an_error() {
    let fee_structure = FeeStructure {
        fee_numerator: 5,
        fee_denominator: 0,
        ..FeeStructure::default()
    };
    assert_eq!(
        calculate_fee_for_order(100_000_000, &fee_structure),
        Err(ErrorCode::MathError)
    );
}

#[test]
fn matched_fill_takes_the_smaller_size_at_the_maker_price() {
    let (base, quote) = calculate_fill_for_matched_orders(
        BASE_PRECISION / 2,
        100 * MARK_PRICE_PRECISION,
        BASE_PRECISION,
    )
    .unwrap();
    assert_eq!(base, BASE_PRECISION / 2);
    assert_eq!(quote, 50_000_000);
}

#[test]
fn order_not_open_is_rejected() {
    let mut taker = User {
        orders: vec![Order {
            market_index: 0,
            order_type: OrderType::Market,
            base_asset_amount: BASE_PRECISION,
            ..Order::default()
        }],
        positions: vec![MarketPosition {
            market_index: 0,
            ..MarketPosition::default()
        }],
        ..User::default()
    };
    let mut market_map = MarketMap::load_one(Market {
        initialized: true,
        ..Market::default()
    });
    let bank_map = BankMap::load_one(Bank::default());
    let mut oracle_map = get_oracle_map();
    let key = Pubkey::default();
    let mut maker_opt: Option<User> = None;
    let mut filler_opt: Option<User> = None;
    let result = fulfill_order(
        &mut taker,
        0,
        &key,
        &mut maker_opt,
        None,
        None,
        &mut filler_opt,
        &key,
        &bank_map,
        &mut market_map,
        &mut oracle_map,
        &FeeStructure::default(),
        0,
        None,
        0,
        0,
    );
    assert_eq!(result, Err(ErrorCode::OrderNotOpen));
}

#[test]
fn order_for_another_market_is_rejected() {
    let mut taker = User {
        orders: vec![Order {
            market_index: 7,
            status: OrderStatus::Open,
            base_asset_amount: BASE_PRECISION,
            ..Order::default()
        }],
        ..User::default()
    };
    let mut market_map = MarketMap::load_one(Market {
        initialized: true,
        ..Market::default()
    });
    let bank_map = BankMap::load_one(Bank::default());
    let mut oracle_map = get_oracle_map();
    let key = Pubkey::default();
    let mut maker_opt: Option<User> = None;
    let mut filler_opt: Option<User> = None;
    let result = fulfill_order(
        &mut taker,
        0,
        &key,
        &mut maker_opt,
        None,
        None,
        &mut filler_opt,
        &key,
        &bank_map,
        &mut market_map,
        &mut oracle_map,
        &FeeStructure::default(),
        0,
        None,
        0,
        0,
    );
    assert_eq!(result, Err(ErrorCode::InvalidOrderMarket));
}

#[test]
fn missing_market_is_rejected() {
    let mut taker = User {
        orders: vec![Order {
            market_index: 0,
            status: OrderStatus::Open,
            base_asset_amount: BASE_PRECISION,
            ..Order::default()
        }],
        ..User::default()
    };
    let mut market_map = MarketMap::load_one(Market {
        market_index: 3,
        initialized: true,
        ..Market::default()
    });
    let bank_map = BankMap::load_one(Bank::default());
    let mut oracle_map = get_oracle_map();
    let key = Pubkey::default();
    let mut maker_opt: Option<User> = None;
    let mut filler_opt: Option<User> = None;
    let result = fulfill_order(
        &mut taker,
        0,
        &key,
        &mut maker_opt,
        None,
        None,
        &mut filler_opt,
        &key,
        &bank_map,
        &mut market_map,
        &mut oracle_map,
        &FeeStructure::default(),
        0,
        None,
        0,
        0,
    );
    assert_eq!(result, Err(ErrorCode::MarketNotFound));
}

#[test]
fn uninitialized_market_is_rejected() {
    let mut taker = User {
        orders: vec![Order {
            market_index: 0,
            status: OrderStatus::Open,
            base_asset_amount: BASE_PRECISION,
            ..Order::default()
        }],
        ..User::default()
    };
    let mut market_map = MarketMap::load_one(Market::default());
    let bank_map = BankMap::load_one(Bank::default());
    let mut oracle_map = get_oracle_map();
    let key = Pubkey::default();
    let mut maker_opt: Option<User> = None;
    let mut filler_opt: Option<User> = None;
    let result = fulfill_order(
        &mut taker,
        0,
        &key,
        &mut maker_opt,
        None,
        None,
        &mut filler_opt,
        &key,
        &bank_map,
        &mut market_map,
        &mut oracle_map,
        &FeeStructure::default(),
        0,
        None,
        0,
        0,
    );
    assert_eq!(result, Err(ErrorCode::MarketNotInitialized));
}

#[test]
fn non_post_only_maker_is_rejected() {
    let mut taker = User {
        orders: vec![Order {
            market_index: 0,
            status: OrderStatus::Open,
            order_type: OrderType::Market,
            direction: PositionDirection::Long,
            base_asset_amount: BASE_PRECISION,
            auction_end_price: 100 * MARK_PRICE_PRECISION,
            ..Order::default()
        }],
        positions: vec![MarketPosition {
            market_index: 0,
            open_orders: 1,
            open_bids: BASE_PRECISION_I128,
            ..MarketPosition::default()
        }],
        ..User::default()
    };
    let maker = User {
        orders: vec![Order {
            market_index: 0,
            post_only: false,
            order_type: OrderType::Limit,
            direction: PositionDirection::Short,
            base_asset_amount: BASE_PRECISION,
            price: 100 * MARK_PRICE_PRECISION,
            ..Order::default()
        }],
        ..User::default()
    };
    let mut market_map = MarketMap::load_one(Market {
        initialized: true,
        ..Market::default()
    });
    let bank_map = BankMap::load_one(Bank::default());
    let mut oracle_map = get_oracle_map();
    let key = Pubkey::default();
    let maker_key = Pubkey::default();
    let mut maker_opt = Some(maker);
    let mut filler_opt: Option<User> = None;
    let result = fulfill_order(
        &mut taker,
        0,
        &key,
        &mut maker_opt,
        Some(0),
        Some(&maker_key),
        &mut filler_opt,
        &key,
        &bank_map,
        &mut market_map,
        &mut oracle_map,
        &FeeStructure::default(),
        0,
        None,
        0,
        0,
    );
    assert_eq!(result, Err(ErrorCode::MakerOrderNotPostOnly));
}

#[test]
fn missing_position_record_is_rejected() {
    let mut taker = User {
        orders: vec![Order {
            market_index: 0,
            order_type: OrderType::Limit,
            direction: PositionDirection::Long,
            base_asset_amount: BASE_PRECISION,
            price: 100 * MARK_PRICE_PRECISION,
            ..Order::default()
        }],
        positions: vec![],
        ..User::default()
    };
    let mut maker = User {
        orders: vec![Order {
            market_index: 0,
            post_only: true,
            order_type: OrderType::Limit,
            direction: PositionDirection::Short,
            base_asset_amount: BASE_PRECISION,
            price: 100 * MARK_PRICE_PRECISION,
            ..Order::default()
        }],
        positions: vec![MarketPosition {
            market_index: 0,
            open_orders: 1,
            open_asks: -BASE_PRECISION_I128,
            ..MarketPosition::default()
        }],
        ..User::default()
    };
    let mut market = Market::default();
    let key = Pubkey::default();
    let mut filler_opt: Option<User> = None;
    let mut order_records: Vec<OrderRecord> = vec![];
    let result = fulfill_order_with_match(
        &mut market,
        &mut taker,
        0,
        &key,
        &mut maker,
        0,
        &key,
        &mut filler_opt,
        &key,
        0,
        0,
        &get_fee_structure(),
        &mut get_oracle_map(),
        &mut order_records,
    );
    assert_eq!(result, Err(ErrorCode::NoPositionInMarket));
}

#[test]
fn fill_record_carries_the_counterparty_keys() {
    let taker_key = Pubkey::new_from_array([1u8; 32]);
    let maker_key = Pubkey::new_from_array([2u8; 32]);
    let filler_key = Pubkey::new_from_array([3u8; 32]);

    let mut taker = User {
        orders: vec![Order {
            market_index: 0,
            order_type: OrderType::Limit,
            direction: PositionDirection::Long,
            base_asset_amount: BASE_PRECISION,
            price: 100 * MARK_PRICE_PRECISION,
            ..Order::default()
        }],
        positions: vec![MarketPosition {
            market_index: 0,
            open_orders: 1,
            open_bids: BASE_PRECISION_I128,
            ..MarketPosition::default()
        }],
        ..User::default()
    };
    let mut maker = User {
        orders: vec![Order {
            market_index: 0,
            post_only: true,
            order_type: OrderType::Limit,
            direction: PositionDirection::Short,
            base_asset_amount: BASE_PRECISION,
            price: 100 * MARK_PRICE_PRECISION,
            ..Order::default()
        }],
        positions: vec![MarketPosition {
            market_index: 0,
            open_orders: 1,
            open_asks: -BASE_PRECISION_I128,
            ..MarketPosition::default()
        }],
        ..User::default()
    };
    let mut market = Market::default();
    let mut filler_opt: Option<User> = None;
    let mut order_records: Vec<OrderRecord> = vec![];

    let (base, quote) = fulfill_order_with_match(
        &mut market,
        &mut taker,
        0,
        &taker_key,
        &mut maker,
        0,
        &maker_key,
        &mut filler_opt,
        &filler_key,
        7,
        9,
        &get_fee_structure(),
        &mut get_oracle_map(),
        &mut order_records,
    )
    .unwrap();

    assert_eq!(base, BASE_PRECISION);
    assert_eq!(quote, 100_000_000);
    assert_eq!(order_records.len(), 1);
    let record = &order_records[0];
    assert_eq!(record.ts, 7);
    assert_eq!(record.slot, 9);
    assert_eq!(record.base_asset_amount, BASE_PRECISION);
    assert_eq!(record.quote_asset_amount, 100_000_000);
    assert_eq!(record.taker_fee, 50000);
    assert_eq!(record.maker_rebate, 30000);
    assert_eq!(record.fee_to_market, 20000);
    assert!(record.taker == taker_key);
    assert!(record.maker == Some(maker_key));
    assert!(record.filler == filler_key);
}

#[test]
fn margin_check_passes_with_ample_collateral() {
    let user = User {
        bank_balances: vec![clearing_house::user::UserBankBalance {
            bank_index: 0,
            balance_type: clearing_house::user::BankBalanceType::Deposit,
            balance: 100 * BANK_INTEREST_PRECISION,
        }],
        positions: vec![MarketPosition {
            market_index: 0,
            ..MarketPosition::default()
        }],
        ..User::default()
    };
    let market_map = MarketMap::load_one(Market {
        initialized: true,
        ..Market::default()
    });
    let bank_map = BankMap::load_one(Bank {
        bank_index: 0,
        oracle_source: OracleSource::QuoteAsset,
        cumulative_deposit_interest: BANK_CUMULATIVE_INTEREST_PRECISION,
        decimals: 6,
        initial_asset_weight: BANK_WEIGHT_PRECISION,
        ..Bank::default()
    });
    let oracle_map = get_oracle_map();
    assert_eq!(
        meets_initial_margin_requirement(&user, &market_map, &bank_map, &oracle_map),
        Ok(true)
    );
}

#[test]
fn amm_reserves_move_along_the_invariant() {
    let mut amm = AMM {
        base_asset_reserve: 100 * BASE_PRECISION,
        quote_asset_reserve: 100 * BASE_PRECISION,
        bid_base_asset_reserve: 101 * BASE_PRECISION,
        bid_quote_asset_reserve: 99 * BASE_PRECISION,
        ask_base_asset_reserve: 99 * BASE_PRECISION,
        ask_quote_asset_reserve: 101 * BASE_PRECISION,
        sqrt_k: 100 * BASE_PRECISION,
        peg_multiplier: 100_000,
        ..AMM::default()
    };
    let (quote, surplus) =
        clearing_house::amm::swap_base_asset(&mut amm, BASE_PRECISION, clearing_house::amm::SwapDirection::Remove)
            .unwrap();
    assert_eq!(quote, 104081633);
    assert_eq!(surplus, 104081633 - 101010102);
    assert_eq!(amm.base_asset_reserve, 99 * BASE_PRECISION);
    assert_eq!(amm.quote_asset_reserve, 1010101010101010);
}

#[test]
fn fulfillment_methods_prefer_the_maker_then_the_amm() {
    let maker_key = Pubkey::new_from_array([9u8; 32]);
    let order = Order {
        slot: 4,
        auction_duration: 6,
        ..Order::default()
    };
    let methods = determine_perp_fulfillment_methods(&order, Some(&maker_key), Some(3));
    assert_eq!(methods.len(), 2);
    assert!(methods[0] == PerpFulfillmentMethod::Match(maker_key, 3));
    assert!(methods[1] == PerpFulfillmentMethod::AMM(Some(10)));

    let no_maker = determine_perp_fulfillment_methods(&order, None, None);
    assert_eq!(no_maker.len(), 1);
    assert!(no_maker[0] == PerpFulfillmentMethod::AMM(Some(10)));

    let immediate = Order {
        auction_duration: 0,
        ..order
    };
    let immediate_methods = determine_perp_fulfillment_methods(&immediate, None, None);
    assert!(immediate_methods[0] == PerpFulfillmentMethod::AMM(None));
}
