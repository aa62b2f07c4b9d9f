use rwa_hub::address::Address;
use rwa_hub::asset::{
    buy_asset, create_asset, update_asset_fee, update_asset_price, Asset, ASSET_LEN,
};
use rwa_hub::error::RwaHubError;
use rwa_hub::fee::{purchase_quote, split_fee, FeeSplit, DEFAULT_PLATFORM_FEE_BPS};

fn addr(b: u8) -> Address {
    Address::new([b; 32])
}

fn empty_asset() -> Asset {
    Asset::unpack(&vec![0u8; ASSET_LEN]).unwrap()
}

fn created(total_supply: u64, price: u64, fee_bps: u16) -> Asset {
    let mut a = empty_asset();
    create_asset(
        &mut a,
        &addr(1),
        true,
        "Harbor Tower".to_string(),
        "HBT".to_string(),
        total_supply,
        6,
        price,
        &addr(2),
        254,
        fee_bps,
        1_700_000_000,
    )
    .unwrap();
    a
}

#[test]
fn quote_example_price_100_amount_10() {
    let q = purchase_quote(10, 100, 35).unwrap();
    assert_eq!(q, FeeSplit { total: 1000, fee: 35, net: 965 });
}

#[test]
fn fee_rounds_down() {
    let s = split_fee(999, 35).unwrap();
    assert_eq!(s.fee, 34);
    assert_eq!(s.net, 965);
    assert_eq!(split_fee(1000, 0).unwrap().fee, 0);
    assert_eq!(split_fee(1000, 1000).unwrap(), FeeSplit { total: 1000, fee: 1000, net: 0 });
}

#[test]
fn fee_rate_above_whole_is_refused() {
    assert_eq!(split_fee(1000, 1001), Err(RwaHubError::InvalidFeeAmount));
}

#[test]
fn fee_product_overflow_is_refused() {
    assert_eq!(split_fee(u64::MAX, 2), Err(RwaHubError::ArithmeticOverflow));
    assert_eq!(split_fee(u64::MAX / 1000, 1000).unwrap().fee, u64::MAX / 1000);
}

#[test]
fn create_sets_whole_supply_unsold() {
    let a = created(500, 100, DEFAULT_PLATFORM_FEE_BPS);
    assert!(a.is_initialized);
    assert_eq!(a.remaining_supply, 500);
    assert_eq!(a.total_supply, 500);
    assert_eq!(a.owner, addr(1));
    assert_eq!(a.mint, addr(2));
    assert_eq!(a.name, "Harbor Tower");
    assert_eq!(a.symbol, "HBT");
    assert_eq!(a.vault_bump, 254);
    assert_eq!(a.created_at, 1_700_000_000);
}

#[test]
fn recreate_fails_and_keeps_record() {
    let mut a = created(500, 100, 35);
    let before = a.pack();
    let r = create_asset(
        &mut a,
        &addr(9),
        true,
        "Other".to_string(),
        "OTH".to_string(),
        1,
        0,
        7,
        &addr(8),
        1,
        10,
        5,
    );
    assert_eq!(r, Err(RwaHubError::AssetAlreadyExists));
    assert_eq!(a.pack(), before);
}

#[test]
fn create_errors() {
    let mk = |signed: bool, price: u64, fee: u16, name: &str| {
        let mut a = empty_asset();
        let r = create_asset(
            &mut a, &addr(1), signed, name.to_string(), "S".to_string(), 10, 0, price, &addr(2),
            1, fee, 0,
        );
        (r, a.is_initialized)
    };
    assert_eq!(mk(false, 1, 35, "N"), (Err(RwaHubError::Unauthorized), false));
    assert_eq!(mk(true, 0, 35, "N"), (Err(RwaHubError::InvalidAmount), false));
    assert_eq!(mk(true, 1, 1001, "N"), (Err(RwaHubError::InvalidFeeAmount), false));
    let long = "x".repeat(57);
    assert_eq!(mk(true, 1, 35, &long), (Err(RwaHubError::InvalidInstruction), false));
    let fits = "x".repeat(56);
    assert_eq!(mk(true, 1, 35, &fits), (Ok(()), true));
}

#[test]
fn buy_splits_payment_and_lowers_supply() {
    let mut a = created(500, 100, 35);
    let q = buy_asset(&mut a, true, 10).unwrap();
    assert_eq!(q, FeeSplit { total: 1000, fee: 35, net: 965 });
    assert_eq!(a.remaining_supply, 490);
    assert_eq!(q.fee + q.net, 10 * 100);
}

#[test]
fn buy_whole_supply_then_one_more() {
    let mut a = created(50, 3, 35);
    let mut b = a.clone();
    assert!(buy_asset(&mut a, true, 50).is_ok());
    assert_eq!(a.remaining_supply, 0);
    let before = b.pack();
    assert_eq!(buy_asset(&mut b, true, 51), Err(RwaHubError::InsufficientSupply));
    assert_eq!(b.pack(), before);
    assert_eq!(buy_asset(&mut a, true, 1), Err(RwaHubError::InsufficientSupply));
}

#[test]
fn buy_overflow_changes_nothing() {
    let mut a = created(u64::MAX, 2, 35);
    let before = a.pack();
    assert_eq!(buy_asset(&mut a, true, u64::MAX), Err(RwaHubError::ArithmeticOverflow));
    assert_eq!(a.pack(), before);
    assert_eq!(a.remaining_supply, u64::MAX);
}

#[test]
fn buy_errors() {
    let mut a = created(10, 5, 35);
    assert_eq!(buy_asset(&mut a, false, 1), Err(RwaHubError::Unauthorized));
    assert_eq!(buy_asset(&mut a, true, 0), Err(RwaHubError::InvalidAmount));
    let mut e = empty_asset();
    assert_eq!(buy_asset(&mut e, true, 1), Err(RwaHubError::AssetNotFound));
    assert_eq!(a.remaining_supply, 10);
}

#[test]
fn price_update_owner_only() {
    let mut a = created(10, 5, 35);
    assert_eq!(update_asset_price(&mut a, &addr(7), true, 9), Err(RwaHubError::Unauthorized));
    assert_eq!(update_asset_price(&mut a, &addr(1), false, 9), Err(RwaHubError::Unauthorized));
    assert_eq!(update_asset_price(&mut a, &addr(1), true, 0), Err(RwaHubError::InvalidAmount));
    assert_eq!(a.price, 5);
    assert_eq!(update_asset_price(&mut a, &addr(1), true, 9), Ok(()));
    assert_eq!(a.price, 9);
    assert_eq!(a.remaining_supply, 10);
}

#[test]
fn fee_update_owner_only() {
    let mut a = created(10, 5, 35);
    assert_eq!(update_asset_fee(&mut a, &addr(7), true, 50), Err(RwaHubError::Unauthorized));
    assert_eq!(update_asset_fee(&mut a, &addr(1), true, 1001), Err(RwaHubError::InvalidFeeAmount));
    assert_eq!(update_asset_fee(&mut a, &addr(1), true, 50), Ok(()));
    assert_eq!(a.platform_fee_bps, 50);
    let q = buy_asset(&mut a, true, 4).unwrap();
    assert_eq!(q, FeeSplit { total: 20, fee: 1, net: 19 });
}

#[test]
fn error_codes() {
    assert_eq!(RwaHubError::InvalidInstruction.code(), 0);
    assert_eq!(RwaHubError::AssetAlreadyExists.code(), 4);
    assert_eq!(RwaHubError::InvalidDividendAmount.code(), 6);
    assert_eq!(RwaHubError::AlreadyClaimed.code(), 15);
    assert_eq!(RwaHubError::InvalidAccountData.code(), 16);
}
