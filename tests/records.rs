use rwa_hub::address::Address;
use rwa_hub::asset::{create_asset, Asset, ASSET_LEN};
use rwa_hub::dividend::{
    claim_dividend, create_dividend, DividendPool, DividendRecord, DIVIDEND_RECORD_LEN,
    MAX_DETAILS_LEN, POOL_LEN,
};
use rwa_hub::error::RwaHubError;
use rwa_hub::instruction::RwaHubInstruction;

fn addr(b: u8) -> Address {
    Address::new([b; 32])
}

fn asset() -> Asset {
    let mut a = Asset::unpack(&vec![0u8; ASSET_LEN]).unwrap();
    create_asset(
        &mut a, &addr(1), true, "Harbor Tower".to_string(), "HBT".to_string(), 500, 6, 100,
        &addr(2), 254, 35, -42,
    )
    .unwrap();
    a
}

#[test]
fn asset_round_trip() {
    let a = asset();
    let bytes = a.pack();
    assert_eq!(bytes.len(), ASSET_LEN);
    let b = Asset::unpack(&bytes).unwrap();
    assert!(b.is_initialized);
    assert_eq!(b.owner, a.owner);
    assert_eq!(b.name, a.name);
    assert_eq!(b.symbol, a.symbol);
    assert_eq!(b.total_supply, a.total_supply);
    assert_eq!(b.decimals, a.decimals);
    assert_eq!(b.mint, a.mint);
    assert_eq!(b.price, a.price);
    assert_eq!(b.remaining_supply, a.remaining_supply);
    assert_eq!(b.vault_bump, a.vault_bump);
    assert_eq!(b.platform_fee_bps, a.platform_fee_bps);
    assert_eq!(b.created_at, -42);
}

#[test]
fn asset_layout_matches_borsh() {
    let a = asset();
    let mut expected = borsh::to_vec(&(
        true,
        [1u8; 32],
        "Harbor Tower".to_string(),
        "HBT".to_string(),
        500u64,
        6u8,
        [2u8; 32],
        100u64,
        500u64,
        254u8,
        35u16,
        -42i64,
    ))
    .unwrap();
    expected.resize(ASSET_LEN, 0);
    assert_eq!(a.pack(), expected);
}

#[test]
fn asset_unpack_rejects_bad_records() {
    assert_eq!(Asset::unpack(&vec![0u8; ASSET_LEN - 1]).err(), Some(RwaHubError::InvalidAccountData));
    let mut bad_flag = asset().pack();
    bad_flag[0] = 2;
    assert_eq!(Asset::unpack(&bad_flag).err(), Some(RwaHubError::InvalidAccountData));
    let mut bad_text = asset().pack();
    bad_text[37] = 0xff;
    assert_eq!(Asset::unpack(&bad_text).err(), Some(RwaHubError::InvalidAccountData));
    let mut too_long = asset().pack();
    too_long[33] = 200;
    assert_eq!(Asset::unpack(&too_long).err(), Some(RwaHubError::InvalidAccountData));
}

#[test]
fn asset_unpack_decodes_text() {
    let mut a = Asset::unpack(&vec![0u8; ASSET_LEN]).unwrap();
    create_asset(
        &mut a, &addr(1), true, "Café Ölberg".to_string(), "ÖL".to_string(), 1, 0, 1, &addr(2),
        1, 0, 0,
    )
    .unwrap();
    let b = Asset::unpack(&a.pack()).unwrap();
    assert_eq!(b.name, "Café Ölberg");
    assert_eq!(b.symbol, "ÖL");
    assert_ne!(b.name.len(), b.name.chars().count());
}

#[test]
fn pool_round_trip() {
    let mut p = DividendPool::unpack(&vec![0u8; POOL_LEN]).unwrap();
    create_dividend(&mut p, &asset(), &addr(1), true, 5000, 99, 20, 7).unwrap();
    p.details = vec![9u8; MAX_DETAILS_LEN];
    let bytes = p.pack();
    assert_eq!(bytes.len(), POOL_LEN);
    let q = DividendPool::unpack(&bytes).unwrap();
    assert!(q.is_initialized && q.is_active);
    assert_eq!(q.creator, p.creator);
    assert_eq!(q.asset_mint, p.asset_mint);
    assert_eq!(q.total_deposited, 4900);
    assert_eq!(q.distributable_amount, 4900);
    assert_eq!(q.remaining_amount, 4900);
    assert_eq!(q.holder_count, 0);
    assert_eq!(q.claimed_count, 0);
    assert_eq!(q.platform_fee_bps, 20);
    assert_eq!(q.created_at, 7);
    assert_eq!(q.deadline, 99);
    assert_eq!(q.details, p.details);
}

#[test]
fn pool_details_cap_enforced() {
    let p = DividendPool::unpack(&vec![0u8; POOL_LEN]).unwrap();
    let mut bytes = p.pack();
    // payload length field of 1001 bytes
    bytes[116..120].copy_from_slice(&1001u32.to_le_bytes());
    assert_eq!(DividendPool::unpack(&bytes).err(), Some(RwaHubError::InvalidAccountData));
    bytes[116..120].copy_from_slice(&1000u32.to_le_bytes());
    assert_eq!(DividendPool::unpack(&bytes).unwrap().details.len(), 1000);
}

#[test]
fn record_round_trip() {
    let mut p = DividendPool::unpack(&vec![0u8; POOL_LEN]).unwrap();
    create_dividend(&mut p, &asset(), &addr(1), true, 5000, 99, 20, 7).unwrap();
    let mut rec = DividendRecord::unpack(&vec![0u8; DIVIDEND_RECORD_LEN]).unwrap();
    claim_dividend(&mut p, &mut rec, &addr(5), true, 123, 50, &addr(6)).unwrap();
    let bytes = rec.pack();
    assert_eq!(bytes.len(), DIVIDEND_RECORD_LEN);
    let back = DividendRecord::unpack(&bytes).unwrap();
    assert_eq!(back.holder, addr(5));
    assert_eq!(back.amount_claimed, 123);
    assert!(back.claimed);
    assert_eq!(back.last_claim_time, 50);
    assert_eq!(back.reference, addr(6));
    let expected = borsh::to_vec(&([5u8; 32], 123u64, true, 50i64, [6u8; 32])).unwrap();
    assert_eq!(bytes, expected);
}

#[test]
fn instruction_unpack_variants() {
    let mut init = vec![0u8, 0];
    init.extend(borsh::to_vec(&("Gold".to_string(), "GLD".to_string(), 1000u64, 6u8, 25u64)).unwrap());
    match RwaHubInstruction::unpack(&init).unwrap() {
        RwaHubInstruction::InitializeAsset { name, symbol, total_supply, decimals, price } => {
            assert_eq!((name.as_str(), symbol.as_str(), total_supply, decimals, price), ("Gold", "GLD", 1000, 6, 25));
        }
        other => panic!("unexpected {:?}", other),
    }
    let mut buy = vec![0u8, 1];
    buy.extend(7u64.to_le_bytes());
    assert!(matches!(RwaHubInstruction::unpack(&buy), Ok(RwaHubInstruction::Buy { amount: 7 })));
    let mut div = vec![0u8, 2];
    div.extend(borsh::to_vec(&(500u64, -3i64, 35u16)).unwrap());
    assert!(matches!(
        RwaHubInstruction::unpack(&div),
        Ok(RwaHubInstruction::Dividend { amount: 500, deadline: -3, platform_fee_bps: 35 })
    ));
    let mut claim = vec![0u8, 3];
    claim.extend(9u64.to_le_bytes());
    assert!(matches!(RwaHubInstruction::unpack(&claim), Ok(RwaHubInstruction::ClaimDividend { amount: 9 })));
    let mut info = vec![0u8, 4];
    info.extend(borsh::to_vec(&(12u32, 65u64)).unwrap());
    assert!(matches!(
        RwaHubInstruction::unpack(&info),
        Ok(RwaHubInstruction::SetHoldersInfo { holder_count: 12, excluded_amount: 65 })
    ));
    assert!(matches!(RwaHubInstruction::unpack(&[0u8, 5]), Ok(RwaHubInstruction::CloseDividend)));
    let mut price = vec![0u8, 6];
    price.extend(11u64.to_le_bytes());
    assert!(matches!(RwaHubInstruction::unpack(&price), Ok(RwaHubInstruction::UpdatePrice { new_price: 11 })));
    assert!(matches!(
        RwaHubInstruction::unpack(&[0u8, 7, 50, 0]),
        Ok(RwaHubInstruction::UpdateFee { new_fee_bps: 50 })
    ));
}

#[test]
fn instruction_unpack_rejects() {
    assert_eq!(RwaHubInstruction::unpack(&[]).err(), Some(RwaHubError::InvalidInstruction));
    assert_eq!(RwaHubInstruction::unpack(&[0u8, 8]).err(), Some(RwaHubError::InvalidInstruction));
    assert_eq!(RwaHubInstruction::unpack(&[0u8, 1, 1, 2]).err(), Some(RwaHubError::InvalidInstruction));
    assert_eq!(RwaHubInstruction::unpack(&[0u8, 5, 0]).err(), Some(RwaHubError::InvalidInstruction));
    assert_eq!(RwaHubInstruction::unpack(&[0u8]).err(), Some(RwaHubError::InvalidInstruction));
    let mut unframed = vec![1u8];
    unframed.extend(7u64.to_le_bytes());
    assert_eq!(RwaHubInstruction::unpack(&unframed).err(), Some(RwaHubError::InvalidInstruction));
    let mut buy = vec![0u8, 1];
    buy.extend(7u64.to_le_bytes());
    buy.push(0);
    assert_eq!(RwaHubInstruction::unpack(&buy).err(), Some(RwaHubError::InvalidInstruction));
}
