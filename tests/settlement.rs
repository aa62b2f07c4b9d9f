use rwa_hub::address::{associated_token_address, find_vault_address, vault_authority, Address};
use rwa_hub::asset::{Asset, ASSET_LEN};
use rwa_hub::dividend::{DividendPool, DividendRecord, DIVIDEND_RECORD_LEN, POOL_LEN};
use rwa_hub::error::RwaHubError;
use rwa_hub::processor::{
    process_instruction, Environment, Invocation, LedgerSigner, Outcome, Records,
};
use solana_program::pubkey::Pubkey;

fn addr(b: u8) -> Address {
    Address::new([b; 32])
}

fn key(a: &Address) -> Pubkey {
    Pubkey::new_from_array(a.bytes)
}

fn program() -> Address {
    addr(77)
}

fn env() -> Environment {
    Environment {
        program_id: program(),
        token_program: Address::new(spl_token::id().to_bytes()),
        associated_token_program: Address::new(spl_associated_token_account::id().to_bytes()),
        platform_wallet: addr(3),
        quote_mint: addr(4),
    }
}

fn pool_address(mint: &Address) -> Address {
    let (k, _) = Pubkey::find_program_address(&[b"dividend_pool", &mint.bytes], &key(&program()));
    Address::new(k.to_bytes())
}

fn record_address(pool: &Address, holder: &Address) -> Address {
    let (k, _) = Pubkey::find_program_address(
        &[b"dividend_record", &pool.bytes, &holder.bytes],
        &key(&program()),
    );
    Address::new(k.to_bytes())
}

fn invocation(signer: u8) -> Invocation {
    Invocation {
        claim_address: record_address(&pool_address(&addr(2)), &addr(signer)),
        signer: addr(signer),
        signer_signed: true,
        quote_account: addr(signer + 100),
        asset_account: addr(signer + 150),
        mint: addr(2),
        pool_address: pool_address(&addr(2)),
        reference: addr(9),
        now: 1000,
    }
}

fn fresh_records() -> Records {
    Records { asset: vec![0u8; ASSET_LEN], pool: vec![0u8; POOL_LEN], claim: vec![0u8; DIVIDEND_RECORD_LEN] }
}

fn init_data() -> Vec<u8> {
    let mut d = vec![0u8, 0];
    d.extend(borsh::to_vec(&("Harbor".to_string(), "HBR".to_string(), 1000u64, 6u8, 100u64)).unwrap());
    d
}

fn ata_of(wallet: &Address, mint: &Address) -> Address {
    Address::new(
        spl_associated_token_account::get_associated_token_address(&key(wallet), &key(mint)).to_bytes(),
    )
}

#[test]
fn vault_address_matches_ledger_derivation() {
    let mint = addr(2);
    let (vault, bump) = find_vault_address(&mint, &program()).unwrap();
    let (k, b) = Pubkey::find_program_address(&[b"asset_vault", &mint.bytes], &key(&program()));
    assert_eq!(vault.bytes, k.to_bytes());
    assert_eq!(bump, b);
    assert_ne!(vault, mint);
    let again = vault_authority(&mint, bump, &program()).unwrap();
    assert_eq!(again, vault);
}

#[test]
fn associated_account_matches_token_convention() {
    let e = env();
    let a = associated_token_address(&addr(5), &addr(4), &e.token_program, &e.associated_token_program).unwrap();
    assert_eq!(a, ata_of(&addr(5), &addr(4)));
    assert_ne!(a, addr(5));
}

#[test]
fn create_then_buy_settles_three_ways() {
    let e = env();
    let mut recs = fresh_records();
    let out = process_instruction(&e, &invocation(1), &mut recs, &init_data()).unwrap();
    let setup = match out {
        Outcome::AssetCreated(s) => s,
        other => panic!("unexpected {:?}", other),
    };
    let (vault, bump) = find_vault_address(&addr(2), &program()).unwrap();
    assert_eq!(setup.vault, vault);
    assert_eq!(setup.vault_token_account, ata_of(&vault, &addr(2)));
    assert_eq!(setup.supply, 1000);
    let stored = Asset::unpack(&recs.asset).unwrap();
    assert_eq!(stored.vault_bump, bump);
    assert_eq!(stored.platform_fee_bps, 35);

    let mut buy = vec![0u8, 1];
    buy.extend(10u64.to_le_bytes());
    let out = process_instruction(&e, &invocation(5), &mut recs, &buy).unwrap();
    let s = match out {
        Outcome::Purchased(s) => s,
        other => panic!("unexpected {:?}", other),
    };
    assert_eq!(s.fee.amount, 35);
    assert_eq!(s.fee.from, addr(105));
    assert_eq!(s.fee.to, ata_of(&addr(3), &addr(4)));
    assert_eq!(s.proceeds.amount, 965);
    assert_eq!(s.proceeds.to, ata_of(&addr(1), &addr(4)));
    assert_eq!(s.units.amount, 10);
    assert_eq!(s.units.from, ata_of(&vault, &addr(2)));
    assert_eq!(s.units.to, addr(155));
    assert_eq!(s.units.authority, vault);
    match s.units.ledger_signer {
        Some(LedgerSigner::Vault { mint, bump: b }) => {
            assert_eq!(mint, addr(2));
            assert_eq!(b, bump);
        }
        other => panic!("unexpected {:?}", other),
    }
    assert_eq!(Asset::unpack(&recs.asset).unwrap().remaining_supply, 990);
}

#[test]
fn second_initialize_is_refused_and_record_kept() {
    let e = env();
    let mut recs = fresh_records();
    process_instruction(&e, &invocation(1), &mut recs, &init_data()).unwrap();
    let before = recs.asset.clone();
    let r = process_instruction(&e, &invocation(8), &mut recs, &init_data());
    assert_eq!(r.err(), Some(RwaHubError::AssetAlreadyExists));
    assert_eq!(recs.asset, before);
}

#[test]
fn unsigned_and_malformed_operations_change_nothing() {
    let e = env();
    let mut recs = fresh_records();
    let mut inv = invocation(1);
    inv.signer_signed = false;
    assert_eq!(process_instruction(&e, &inv, &mut recs, &init_data()).err(), Some(RwaHubError::Unauthorized));
    assert_eq!(process_instruction(&e, &invocation(1), &mut recs, &[9u8]).err(), Some(RwaHubError::InvalidInstruction));
    assert_eq!(recs.asset, vec![0u8; ASSET_LEN]);
    let mut buy = vec![0u8, 1];
    buy.extend(1u64.to_le_bytes());
    assert_eq!(process_instruction(&e, &invocation(5), &mut recs, &buy).err(), Some(RwaHubError::AssetNotFound));
}

#[test]
fn deposit_claim_and_close_flow() {
    let e = env();
    let mut recs = fresh_records();
    process_instruction(&e, &invocation(1), &mut recs, &init_data()).unwrap();

    let mut dep = vec![0u8, 2];
    dep.extend(borsh::to_vec(&(10_000u64, 5000i64, 35u16)).unwrap());
    let out = process_instruction(&e, &invocation(1), &mut recs, &dep).unwrap();
    let d = match out {
        Outcome::Deposited(d) => d,
        other => panic!("unexpected {:?}", other),
    };
    let pool_addr = pool_address(&addr(2));
    assert_eq!(d.fee.amount, 350);
    assert_eq!(d.fee.to, ata_of(&addr(3), &addr(4)));
    assert_eq!(d.deposit.amount, 9650);
    assert_eq!(d.deposit.to, ata_of(&pool_addr, &addr(4)));
    assert_eq!(DividendPool::unpack(&recs.pool).unwrap().remaining_amount, 9650);

    let mut claim = vec![0u8, 3];
    claim.extend(1000u64.to_le_bytes());
    let out = process_instruction(&e, &invocation(5), &mut recs, &claim).unwrap();
    let t = match out {
        Outcome::Claimed(t) => t,
        other => panic!("unexpected {:?}", other),
    };
    assert_eq!(t.amount, 1000);
    assert_eq!(t.from, ata_of(&pool_addr, &addr(4)));
    assert_eq!(t.to, addr(105));
    assert_eq!(t.authority, pool_addr);
    assert!(matches!(t.ledger_signer, Some(LedgerSigner::Pool { .. })));
    assert_eq!(DividendPool::unpack(&recs.pool).unwrap().remaining_amount, 8650);
    let rec = DividendRecord::unpack(&recs.claim).unwrap();
    assert!(rec.claimed);
    assert_eq!(rec.amount_claimed, 1000);

    let pool_before = recs.pool.clone();
    let r = process_instruction(&e, &invocation(5), &mut recs, &claim);
    assert_eq!(r.err(), Some(RwaHubError::AlreadyClaimed));
    assert_eq!(recs.pool, pool_before);

    let mut info = vec![0u8, 4];
    info.extend(borsh::to_vec(&(3u32, 650u64)).unwrap());
    assert!(matches!(process_instruction(&e, &invocation(1), &mut recs, &info), Ok(Outcome::Updated)));
    let pool = DividendPool::unpack(&recs.pool).unwrap();
    assert_eq!(pool.distributable_amount, 9000);
    assert_eq!(pool.remaining_amount, 8000);

    assert_eq!(process_instruction(&e, &invocation(5), &mut recs, &[0u8, 5]).err(), Some(RwaHubError::Unauthorized));
    assert!(matches!(process_instruction(&e, &invocation(1), &mut recs, &[0u8, 5]), Ok(Outcome::Updated)));
    assert!(!DividendPool::unpack(&recs.pool).unwrap().is_active);

    recs.claim = vec![0u8; DIVIDEND_RECORD_LEN];
    let r = process_instruction(&e, &invocation(6), &mut recs, &claim);
    assert_eq!(r.err(), Some(RwaHubError::DividendNotActive));
}

#[test]
fn deposit_into_foreign_pool_address_refused() {
    let e = env();
    let mut recs = fresh_records();
    process_instruction(&e, &invocation(1), &mut recs, &init_data()).unwrap();
    let mut inv = invocation(1);
    inv.pool_address = addr(60);
    let mut dep = vec![0u8, 2];
    dep.extend(borsh::to_vec(&(100u64, 5000i64, 35u16)).unwrap());
    assert_eq!(process_instruction(&e, &inv, &mut recs, &dep).err(), Some(RwaHubError::InvalidAccountData));
    assert_eq!(recs.pool, vec![0u8; POOL_LEN]);
}

#[test]
fn claim_with_foreign_record_refused() {
    let e = env();
    let mut recs = fresh_records();
    process_instruction(&e, &invocation(1), &mut recs, &init_data()).unwrap();
    let mut dep = vec![0u8, 2];
    dep.extend(borsh::to_vec(&(1000u64, 5000i64, 35u16)).unwrap());
    process_instruction(&e, &invocation(1), &mut recs, &dep).unwrap();
    let mut inv = invocation(5);
    inv.claim_address = record_address(&pool_address(&addr(2)), &addr(6));
    let mut claim = vec![0u8, 3];
    claim.extend(10u64.to_le_bytes());
    let pool_before = recs.pool.clone();
    assert_eq!(process_instruction(&e, &inv, &mut recs, &claim).err(), Some(RwaHubError::InvalidAccountData));
    assert_eq!(recs.pool, pool_before);
    assert_eq!(recs.claim, vec![0u8; DIVIDEND_RECORD_LEN]);
}

#[test]
fn owner_updates_price_and_fee() {
    let e = env();
    let mut recs = fresh_records();
    process_instruction(&e, &invocation(1), &mut recs, &init_data()).unwrap();
    let mut price = vec![0u8, 6];
    price.extend(250u64.to_le_bytes());
    assert_eq!(process_instruction(&e, &invocation(5), &mut recs, &price).err(), Some(RwaHubError::Unauthorized));
    assert!(matches!(process_instruction(&e, &invocation(1), &mut recs, &price), Ok(Outcome::Updated)));
    assert!(matches!(process_instruction(&e, &invocation(1), &mut recs, &[0u8, 7, 0, 0]), Ok(Outcome::Updated)));
    let a = Asset::unpack(&recs.asset).unwrap();
    assert_eq!(a.price, 250);
    assert_eq!(a.platform_fee_bps, 0);
    assert_eq!(a.remaining_supply, 1000);
}
