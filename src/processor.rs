//! The operations as the host runs them: each reads the records it owns
//! from their stored bytes, applies the operation, writes the records back,
//! and hands the host the token movements to perform, all or nothing.
use vstd::prelude::*;

use crate::address::{
    associated_token_address, associated_token_seeds, created_program_address, find_pool_address,
    find_record_address, find_vault_address, found_program_address, pool_seeds, record_seeds,
    vault_authority, vault_seeds, Address,
};
use crate::asset::{
    buy_asset, create_asset, spec_buy_asset, spec_create_asset, spec_update_asset_fee,
    spec_update_asset_price, update_asset_fee, update_asset_price, Asset, AssetView, ASSET_LEN,
};
use crate::dividend::{
    claim_dividend, close_dividend, create_dividend, set_holders_info, spec_claim_dividend,
    spec_close_dividend, spec_create_dividend, spec_set_holders_info, DividendPool,
    DividendPoolView, DividendRecord, DIVIDEND_RECORD_LEN, MAX_DETAILS_LEN, POOL_LEN,
};
use crate::error::RwaHubError;
use crate::fee::{FeeSplit, DEFAULT_PLATFORM_FEE_BPS};
use crate::instruction::{decode_instruction, InstructionView, RwaHubInstruction};
use crate::state::{decode_asset, decode_pool, decode_record, encode_record, packed_asset, packed_pool};

verus! {

/// The fixed addresses an operation runs against.
#[derive(Clone, Copy, Debug)]
pub struct Environment {
    /// This ledger program.
    pub program_id: Address,
    /// The token program that moves balances.
    pub token_program: Address,
    /// The program under which associated token accounts are derived.
    pub associated_token_program: Address,
    /// The platform's wallet, which receives fees.
    pub platform_wallet: Address,
    /// The mint of the quote currency.
    pub quote_mint: Address,
}

/// The program-derived account the ledger signs for, by its seeds.
#[derive(Clone, Copy, Debug)]
pub enum LedgerSigner {
    /// The custody vault of the asset whose token is `mint`.
    Vault { mint: Address, bump: u8 },
    /// The dividend pool of the asset whose token is `mint`.
    Pool { mint: Address, bump: u8 },
}

/// A movement of tokens for the host's transfer service.
#[derive(Clone, Copy, Debug)]
pub struct TokenTransfer {
    pub from: Address,
    pub to: Address,
    pub authority: Address,
    pub amount: u64,
    /// Present where the ledger itself signs, for an account it controls.
    pub ledger_signer: Option<LedgerSigner>,
}

/// What the host sets up when an asset is created: the vault's token
/// account, into which the whole supply is minted.
#[derive(Clone, Copy, Debug)]
pub struct VaultSetup {
    pub vault: Address,
    pub vault_token_account: Address,
    pub mint: Address,
    pub supply: u64,
}

/// The three movements of a purchase.
#[derive(Clone, Copy, Debug)]
pub struct PurchaseSettlement {
    pub fee: TokenTransfer,
    pub proceeds: TokenTransfer,
    pub units: TokenTransfer,
}

/// The two movements of a dividend deposit.
#[derive(Clone, Copy, Debug)]
pub struct DepositSettlement {
    pub fee: TokenTransfer,
    pub deposit: TokenTransfer,
}

/// The associated token account of `wallet` for `mint`.
pub open spec fn spec_ata(env: Environment, wallet: Seq<u8>, mint: Seq<u8>) -> Option<Seq<u8>> {
    match found_program_address(
        associated_token_seeds(wallet, env.token_program@, mint),
        env.associated_token_program@,
    ) {
        Some(found) => Some(found.0),
        None => None,
    }
}

fn ata(env: &Environment, wallet: &Address, mint: &Address) -> (r: Result<Address, RwaHubError>)
    ensures
        match spec_ata(*env, wallet@, mint@) {
            Some(a) => r is Ok && r->Ok_0@ == a,
            None => r == Err::<Address, RwaHubError>(RwaHubError::InvalidAccountData),
        },
{
    match associated_token_address(wallet, mint, &env.token_program, &env.associated_token_program) {
        Some(a) => Ok(a),
        None => Err(RwaHubError::InvalidAccountData),
    }
}

/// A stored asset record, read.
pub open spec fn stored_asset(data: Seq<u8>) -> Option<AssetView> {
    if data.len() == ASSET_LEN {
        decode_asset(data)
    } else {
        None
    }
}

/// A stored pool record, read.
pub open spec fn stored_pool(data: Seq<u8>) -> Option<DividendPoolView> {
    if data.len() == POOL_LEN {
        decode_pool(data)
    } else {
        None
    }
}

/// The custody vault of `mint` under the program, and its bump seed.
pub open spec fn spec_vault(env: Environment, mint: Seq<u8>) -> Option<(Seq<u8>, u8)> {
    found_program_address(vault_seeds(mint), env.program_id@)
}

/// What creating an asset does to its stored record.
pub open spec fn spec_initialize_asset(
    env: Environment,
    data: Seq<u8>,
    creator: Seq<u8>,
    creator_signed: bool,
    mint: Seq<u8>,
    name: Seq<char>,
    symbol: Seq<char>,
    total_supply: u64,
    decimals: u8,
    price: u64,
    now: i64,
) -> Result<AssetView, RwaHubError> {
    match stored_asset(data) {
        None => Err(RwaHubError::InvalidAccountData),
        Some(record) => match spec_vault(env, mint) {
            None => Err(RwaHubError::InvalidAccountData),
            Some((vault, bump)) => match spec_create_asset(
                record,
                creator,
                creator_signed,
                name,
                symbol,
                total_supply,
                decimals,
                price,
                mint,
                bump,
                DEFAULT_PLATFORM_FEE_BPS,
                now,
            ) {
                Err(e) => Err(e),
                Ok(v) => if spec_ata(env, vault, mint) is Some {
                    Ok(v)
                } else {
                    Err(RwaHubError::InvalidAccountData)
                },
            },
        },
    }
}

/// The vault set up for a new asset: its custody vault (whose address the
/// stored bump seed recreates), the vault's token account for the asset's
/// mint, and the whole supply to mint into it.
pub open spec fn vault_setup_matches(
    env: Environment,
    mint: Address,
    total_supply: u64,
    v: AssetView,
    s: VaultSetup,
) -> bool {
    &&& s.vault@ == spec_vault(env, mint@)->Some_0.0
    &&& created_program_address(vault_seeds(mint@).push(seq![v.vault_bump]), env.program_id@)
        == Some(s.vault@)
    &&& s.vault_token_account@ == spec_ata(env, s.vault@, mint@)->Some_0
    &&& s.mint == mint
    &&& s.supply == total_supply
}

/// The three movements of a purchase of `amount` units of the asset `v`:
/// the fee from the buyer to the platform, the proceeds from the buyer to
/// the owner, and the units from the custody vault, signed for by the
/// ledger, to the buyer.
pub open spec fn purchase_matches(
    env: Environment,
    v: AssetView,
    quote: FeeSplit,
    buyer: Address,
    buyer_quote_account: Address,
    buyer_asset_account: Address,
    amount: u64,
    s: PurchaseSettlement,
) -> bool {
    let vault = created_program_address(
        vault_seeds(v.mint).push(seq![v.vault_bump]),
        env.program_id@,
    )->Some_0;
    &&& s.fee.from == buyer_quote_account && s.fee.authority == buyer
    &&& s.fee.to@ == spec_ata(env, env.platform_wallet@, env.quote_mint@)->Some_0
    &&& s.fee.amount == quote.fee && s.fee.ledger_signer is None
    &&& s.proceeds.from == buyer_quote_account && s.proceeds.authority == buyer
    &&& s.proceeds.to@ == spec_ata(env, v.owner, env.quote_mint@)->Some_0
    &&& s.proceeds.amount == quote.net && s.proceeds.ledger_signer is None
    &&& s.units.from@ == spec_ata(env, vault, v.mint)->Some_0
    &&& s.units.to == buyer_asset_account && s.units.authority@ == vault
    &&& s.units.amount == amount
    &&& s.units.ledger_signer is Some && s.units.ledger_signer->Some_0 is Vault
    &&& s.units.ledger_signer->Some_0->Vault_mint@ == v.mint
    &&& s.units.ledger_signer->Some_0->Vault_bump == v.vault_bump
}

/// The two movements of a deposit: the fee from the owner to the platform,
/// the rest from the owner into the pool's custody account.
pub open spec fn deposit_matches(
    env: Environment,
    pool_address: Seq<u8>,
    owner: Address,
    owner_quote_account: Address,
    split: FeeSplit,
    s: DepositSettlement,
) -> bool {
    &&& s.fee.from == owner_quote_account && s.fee.authority == owner
    &&& s.fee.to@ == spec_ata(env, env.platform_wallet@, env.quote_mint@)->Some_0
    &&& s.fee.amount == split.fee && s.fee.ledger_signer is None
    &&& s.deposit.from == owner_quote_account && s.deposit.authority == owner
    &&& s.deposit.to@ == spec_ata(env, pool_address, env.quote_mint@)->Some_0
    &&& s.deposit.amount == split.net && s.deposit.ledger_signer is None
}

/// The movement of a claim: `amount` from the pool's custody account,
/// signed for by the ledger as the pool, to the holder.
pub open spec fn claim_transfer_matches(
    env: Environment,
    v: DividendPoolView,
    pool_address: Address,
    holder_quote_account: Address,
    amount: u64,
    t: TokenTransfer,
) -> bool {
    &&& t.from@ == spec_ata(env, pool_address@, env.quote_mint@)->Some_0
    &&& t.to == holder_quote_account && t.authority == pool_address
    &&& t.amount == amount
    &&& t.ledger_signer is Some && t.ledger_signer->Some_0 is Pool
    &&& t.ledger_signer->Some_0->Pool_mint@ == v.asset_mint
    &&& t.ledger_signer->Some_0->Pool_bump == spec_pool_address(env, v.asset_mint)->Some_0.1
}

/// Creates an asset in its stored record, with the platform's default fee
/// rate, and returns its custody vault: the host creates the vault's token
/// account and mints the whole supply into it. On failure the record is
/// untouched and nothing is to be done.
pub fn process_initialize_asset(
    env: &Environment,
    asset_data: &mut Vec<u8>,
    creator: &Address,
    creator_signed: bool,
    mint: &Address,
    name: String,
    symbol: String,
    total_supply: u64,
    decimals: u8,
    price: u64,
    now: i64,
) -> (r: Result<VaultSetup, RwaHubError>)
    ensures
        match spec_initialize_asset(
            *env,
            old(asset_data)@,
            creator@,
            creator_signed,
            mint@,
            name@,
            symbol@,
            total_supply,
            decimals,
            price,
            now,
        ) {
            Ok(v) => {
                &&& r is Ok
                &&& final(asset_data)@ == packed_asset(v)
                &&& vault_setup_matches(*env, *mint, total_supply, v, r->Ok_0)
            },
            Err(e) => r == Err::<VaultSetup, RwaHubError>(e) && *final(asset_data) == *old(asset_data),
        },
{
    let mut asset = Asset::unpack(asset_data.as_slice())?;
    let (vault, bump) = match find_vault_address(mint, &env.program_id) {
        Some(found) => found,
        None => {
            return Err(RwaHubError::InvalidAccountData);
        },
    };
    create_asset(
        &mut asset,
        creator,
        creator_signed,
        name,
        symbol,
        total_supply,
        decimals,
        price,
        mint,
        bump,
        DEFAULT_PLATFORM_FEE_BPS,
        now,
    )?;
    let vault_token_account = ata(env, &vault, mint)?;
    *asset_data = asset.pack();
    Ok(VaultSetup { vault, vault_token_account, mint: *mint, supply: total_supply })
}

/// The accounts a purchase settles between, where they can all be derived.
pub open spec fn purchase_accounts_exist(env: Environment, v: AssetView) -> bool {
    &&& spec_ata(env, env.platform_wallet@, env.quote_mint@) is Some
    &&& spec_ata(env, v.owner, env.quote_mint@) is Some
    &&& created_program_address(vault_seeds(v.mint).push(seq![v.vault_bump]), env.program_id@) is Some
    &&& spec_ata(
        env,
        created_program_address(
            vault_seeds(v.mint).push(seq![v.vault_bump]),
            env.program_id@,
        )->Some_0,
        v.mint,
    ) is Some
}

/// What a purchase does to the stored asset, and the price split.
pub open spec fn spec_process_buy(
    env: Environment,
    data: Seq<u8>,
    buyer_signed: bool,
    amount: u64,
) -> Result<(AssetView, FeeSplit), RwaHubError> {
    match stored_asset(data) {
        None => Err(RwaHubError::InvalidAccountData),
        Some(a) => match spec_buy_asset(a, buyer_signed, amount) {
            Err(e) => Err(e),
            Ok((v, quote)) => if v.fits() && purchase_accounts_exist(env, v) {
                Ok((v, quote))
            } else {
                Err(RwaHubError::InvalidAccountData)
            },
        },
    }
}

/// Settles a purchase of `amount` units: the fee goes from the buyer to the
/// platform, the proceeds from the buyer to the asset's owner, and the units
/// from the custody vault, signed for by the ledger, to the buyer. The
/// stored asset's unsold supply falls by `amount`. On failure the record is
/// untouched and nothing moves.
pub fn process_buy(
    env: &Environment,
    asset_data: &mut Vec<u8>,
    buyer: &Address,
    buyer_signed: bool,
    buyer_quote_account: &Address,
    buyer_asset_account: &Address,
    amount: u64,
) -> (r: Result<PurchaseSettlement, RwaHubError>)
    ensures
        match spec_process_buy(*env, old(asset_data)@, buyer_signed, amount) {
            Ok((v, quote)) => {
                &&& r is Ok
                &&& final(asset_data)@ == packed_asset(v)
                &&& purchase_matches(
                    *env,
                    v,
                    quote,
                    *buyer,
                    *buyer_quote_account,
                    *buyer_asset_account,
                    amount,
                    r->Ok_0,
                )
            },
            Err(e) => r == Err::<PurchaseSettlement, RwaHubError>(e) && *final(asset_data) == *old(
                asset_data,
            ),
        },
{
    let mut asset = Asset::unpack(asset_data.as_slice())?;
    let quote = buy_asset(&mut asset, buyer_signed, amount)?;
    if !asset.fits() {
        return Err(RwaHubError::InvalidAccountData);
    }
    let platform_account = ata(env, &env.platform_wallet, &env.quote_mint)?;
    let owner_account = ata(env, &asset.owner, &env.quote_mint)?;
    let vault = match vault_authority(&asset.mint, asset.vault_bump, &env.program_id) {
        Some(a) => a,
        None => {
            return Err(RwaHubError::InvalidAccountData);
        },
    };
    let vault_account = ata(env, &vault, &asset.mint)?;
    *asset_data = asset.pack();
    Ok(
        PurchaseSettlement {
            fee: TokenTransfer {
                from: *buyer_quote_account,
                to: platform_account,
                authority: *buyer,
                amount: quote.fee,
                ledger_signer: None,
            },
            proceeds: TokenTransfer {
                from: *buyer_quote_account,
                to: owner_account,
                authority: *buyer,
                amount: quote.net,
                ledger_signer: None,
            },
            units: TokenTransfer {
                from: vault_account,
                to: *buyer_asset_account,
                authority: vault,
                amount,
                ledger_signer: Some(LedgerSigner::Vault { mint: asset.mint, bump: asset.vault_bump }),
            },
        },
    )
}

/// The dividend pool of `mint` under the program, and its bump seed.
pub open spec fn spec_pool_address(env: Environment, mint: Seq<u8>) -> Option<(Seq<u8>, u8)> {
    found_program_address(pool_seeds(mint), env.program_id@)
}

/// The pool record can be written back and its custody account derived.
pub open spec fn pool_settles(env: Environment, v: DividendPoolView, pool_address: Seq<u8>) -> bool {
    &&& v.details.len() <= MAX_DETAILS_LEN
    &&& spec_pool_address(env, v.asset_mint) is Some
    &&& spec_pool_address(env, v.asset_mint)->Some_0.0 == pool_address
    &&& spec_ata(env, pool_address, env.quote_mint@) is Some
}

/// What a deposit does to the stored pool, and the amount's split.
pub open spec fn spec_process_dividend(
    env: Environment,
    asset_data: Seq<u8>,
    pool_data: Seq<u8>,
    pool_address: Seq<u8>,
    owner: Seq<u8>,
    owner_signed: bool,
    amount: u64,
    deadline: i64,
    platform_fee_bps: u16,
    now: i64,
) -> Result<(DividendPoolView, FeeSplit), RwaHubError> {
    match stored_asset(asset_data) {
        None => Err(RwaHubError::InvalidAccountData),
        Some(asset) => match stored_pool(pool_data) {
            None => Err(RwaHubError::InvalidAccountData),
            Some(pool) => match spec_create_dividend(
                pool,
                asset,
                owner,
                owner_signed,
                amount,
                deadline,
                platform_fee_bps,
                now,
            ) {
                Err(e) => Err(e),
                Ok((v, split)) => if pool_settles(env, v, pool_address) && spec_ata(
                    env,
                    env.platform_wallet@,
                    env.quote_mint@,
                ) is Some {
                    Ok((v, split))
                } else {
                    Err(RwaHubError::InvalidAccountData)
                },
            },
        },
    }
}

fn pool_custody(env: &Environment, pool: &DividendPool, pool_address: &Address) -> (r: Result<
    (Address, u8),
    RwaHubError,
>)
    ensures
        pool_settles(*env, pool@, pool_address@) ==> r is Ok && r->Ok_0.0@ == spec_ata(
            *env,
            pool_address@,
            env.quote_mint@,
        )->Some_0 && r->Ok_0.1 == spec_pool_address(*env, pool@.asset_mint)->Some_0.1,
        !pool_settles(*env, pool@, pool_address@) ==> r == Err::<(Address, u8), RwaHubError>(
            RwaHubError::InvalidAccountData,
        ),
{
    if pool.details.len() > MAX_DETAILS_LEN {
        return Err(RwaHubError::InvalidAccountData);
    }
    let (derived, bump) = match find_pool_address(&pool.asset_mint, &env.program_id) {
        Some(found) => found,
        None => {
            return Err(RwaHubError::InvalidAccountData);
        },
    };
    if !derived.same_as(pool_address) {
        return Err(RwaHubError::InvalidAccountData);
    }
    let custody = ata(env, pool_address, &env.quote_mint)?;
    Ok((custody, bump))
}

/// Settles a dividend deposit by the asset's owner: the fee goes to the
/// platform and the rest into the custody account of the asset's pool,
/// whose stored record is created on the first deposit and grows on later
/// ones. On failure the record is untouched and nothing moves.
pub fn process_dividend(
    env: &Environment,
    asset_data: &Vec<u8>,
    pool_data: &mut Vec<u8>,
    pool_address: &Address,
    owner: &Address,
    owner_signed: bool,
    owner_quote_account: &Address,
    amount: u64,
    deadline: i64,
    platform_fee_bps: u16,
    now: i64,
) -> (r: Result<DepositSettlement, RwaHubError>)
    ensures
        match spec_process_dividend(
            *env,
            asset_data@,
            old(pool_data)@,
            pool_address@,
            owner@,
            owner_signed,
            amount,
            deadline,
            platform_fee_bps,
            now,
        ) {
            Ok((v, split)) => {
                &&& r is Ok
                &&& final(pool_data)@ == packed_pool(v)
                &&& deposit_matches(*env, pool_address@, *owner, *owner_quote_account, split, r->Ok_0)
            },
            Err(e) => r == Err::<DepositSettlement, RwaHubError>(e) && *final(pool_data) == *old(
                pool_data,
            ),
        },
{
    let asset = Asset::unpack(asset_data.as_slice())?;
    let mut pool = DividendPool::unpack(pool_data.as_slice())?;
    let split = create_dividend(
        &mut pool,
        &asset,
        owner,
        owner_signed,
        amount,
        deadline,
        platform_fee_bps,
        now,
    )?;
    let (custody, _) = pool_custody(env, &pool, pool_address)?;
    let platform_account = ata(env, &env.platform_wallet, &env.quote_mint)?;
    *pool_data = pool.pack();
    Ok(
        DepositSettlement {
            fee: TokenTransfer {
                from: *owner_quote_account,
                to: platform_account,
                authority: *owner,
                amount: split.fee,
                ledger_signer: None,
            },
            deposit: TokenTransfer {
                from: *owner_quote_account,
                to: custody,
                authority: *owner,
                amount: split.net,
                ledger_signer: None,
            },
        },
    )
}

/// A stored claim record, read: whether it is already claimed.
pub open spec fn stored_claimed(data: Seq<u8>) -> Option<bool> {
    if data.len() == DIVIDEND_RECORD_LEN {
        match decode_record(data) {
            Some(fields) => Some(fields.2),
            None => None,
        }
    } else {
        None
    }
}

/// `record_address` is the one claim record of `holder` on the pool at
/// `pool_address`.
pub open spec fn record_at(
    env: Environment,
    pool_address: Seq<u8>,
    holder: Seq<u8>,
    record_address: Seq<u8>,
) -> bool {
    &&& found_program_address(record_seeds(pool_address, holder), env.program_id@) is Some
    &&& found_program_address(record_seeds(pool_address, holder), env.program_id@)->Some_0.0
        == record_address
}

/// What a claim does to the stored pool and the holder's stored record.
pub open spec fn spec_process_claim(
    env: Environment,
    pool_data: Seq<u8>,
    record_data: Seq<u8>,
    pool_address: Seq<u8>,
    record_address: Seq<u8>,
    holder: Address,
    holder_signed: bool,
    amount: u64,
    now: i64,
    reference: Address,
) -> Result<(DividendPoolView, DividendRecord), RwaHubError> {
    if !record_at(env, pool_address, holder@, record_address) {
        Err(RwaHubError::InvalidAccountData)
    } else {
    match stored_pool(pool_data) {
        None => Err(RwaHubError::InvalidAccountData),
        Some(pool) => match stored_claimed(record_data) {
            None => Err(RwaHubError::InvalidAccountData),
            Some(claimed) => match spec_claim_dividend(
                pool,
                claimed,
                holder,
                holder_signed,
                amount,
                now,
                reference,
            ) {
                Err(e) => Err(e),
                Ok((v, rec)) => if pool_settles(env, v, pool_address) {
                    Ok((v, rec))
                } else {
                    Err(RwaHubError::InvalidAccountData)
                },
            },
        },
    }
    }
}

/// Settles a holder's claim: `amount` moves from the pool's custody, signed
/// for by the ledger, to the holder, and the holder's stored record, which
/// must sit at the one address derived from the pool and the holder, is
/// marked claimed so that no second claim succeeds. On failure neither
/// record changes and nothing moves.
pub fn process_claim(
    env: &Environment,
    pool_data: &mut Vec<u8>,
    record_data: &mut Vec<u8>,
    pool_address: &Address,
    record_address: &Address,
    holder: &Address,
    holder_signed: bool,
    holder_quote_account: &Address,
    amount: u64,
    now: i64,
    reference: &Address,
) -> (r: Result<TokenTransfer, RwaHubError>)
    ensures
        match spec_process_claim(
            *env,
            old(pool_data)@,
            old(record_data)@,
            pool_address@,
            record_address@,
            *holder,
            holder_signed,
            amount,
            now,
            *reference,
        ) {
            Ok((v, rec)) => {
                &&& r is Ok
                &&& final(pool_data)@ == packed_pool(v)
                &&& final(record_data)@ == encode_record(rec)
                &&& claim_transfer_matches(*env, v, *pool_address, *holder_quote_account, amount, r->Ok_0)
            },
            Err(e) => r == Err::<TokenTransfer, RwaHubError>(e) && *final(pool_data) == *old(
                pool_data,
            ) && *final(record_data) == *old(record_data),
        },
{
    match find_record_address(pool_address, holder, &env.program_id) {
        Some(found) => {
            if !found.0.same_as(record_address) {
                return Err(RwaHubError::InvalidAccountData);
            }
        },
        None => {
            return Err(RwaHubError::InvalidAccountData);
        },
    }
    let mut pool = DividendPool::unpack(pool_data.as_slice())?;
    let mut record = DividendRecord::unpack(record_data.as_slice())?;
    claim_dividend(&mut pool, &mut record, holder, holder_signed, amount, now, reference)?;
    let (custody, bump) = pool_custody(env, &pool, pool_address)?;
    *pool_data = pool.pack();
    *record_data = record.pack();
    Ok(
        TokenTransfer {
            from: custody,
            to: *holder_quote_account,
            authority: *pool_address,
            amount,
            ledger_signer: Some(LedgerSigner::Pool { mint: pool.asset_mint, bump }),
        },
    )
}

/// What an owner's price or fee update does to the stored asset.
pub open spec fn spec_process_asset_update(
    data: Seq<u8>,
    update: spec_fn(AssetView) -> Result<AssetView, RwaHubError>,
) -> Result<AssetView, RwaHubError> {
    match stored_asset(data) {
        None => Err(RwaHubError::InvalidAccountData),
        Some(a) => match update(a) {
            Err(e) => Err(e),
            Ok(v) => if v.fits() {
                Ok(v)
            } else {
                Err(RwaHubError::InvalidAccountData)
            },
        },
    }
}

/// Sets the stored asset's unit price; only its owner may.
pub fn process_update_price(
    asset_data: &mut Vec<u8>,
    caller: &Address,
    caller_signed: bool,
    new_price: u64,
) -> (r: Result<(), RwaHubError>)
    ensures
        match spec_process_asset_update(
            old(asset_data)@,
            |a: AssetView| spec_update_asset_price(a, caller@, caller_signed, new_price),
        ) {
            Ok(v) => r is Ok && final(asset_data)@ == packed_asset(v),
            Err(e) => r == Err::<(), RwaHubError>(e) && *final(asset_data) == *old(asset_data),
        },
{
    let mut asset = Asset::unpack(asset_data.as_slice())?;
    update_asset_price(&mut asset, caller, caller_signed, new_price)?;
    if !asset.fits() {
        return Err(RwaHubError::InvalidAccountData);
    }
    *asset_data = asset.pack();
    Ok(())
}

/// Sets the platform's fee rate on the stored asset's sales; only its owner
/// may.
pub fn process_update_fee(
    asset_data: &mut Vec<u8>,
    caller: &Address,
    caller_signed: bool,
    new_fee_bps: u16,
) -> (r: Result<(), RwaHubError>)
    ensures
        match spec_process_asset_update(
            old(asset_data)@,
            |a: AssetView| spec_update_asset_fee(a, caller@, caller_signed, new_fee_bps),
        ) {
            Ok(v) => r is Ok && final(asset_data)@ == packed_asset(v),
            Err(e) => r == Err::<(), RwaHubError>(e) && *final(asset_data) == *old(asset_data),
        },
{
    let mut asset = Asset::unpack(asset_data.as_slice())?;
    update_asset_fee(&mut asset, caller, caller_signed, new_fee_bps)?;
    if !asset.fits() {
        return Err(RwaHubError::InvalidAccountData);
    }
    *asset_data = asset.pack();
    Ok(())
}

/// What a creator's update does to the stored pool.
pub open spec fn spec_process_pool_update(
    data: Seq<u8>,
    update: spec_fn(DividendPoolView) -> Result<DividendPoolView, RwaHubError>,
) -> Result<DividendPoolView, RwaHubError> {
    match stored_pool(data) {
        None => Err(RwaHubError::InvalidAccountData),
        Some(p) => match update(p) {
            Err(e) => Err(e),
            Ok(v) => if v.details.len() <= MAX_DETAILS_LEN {
                Ok(v)
            } else {
                Err(RwaHubError::InvalidAccountData)
            },
        },
    }
}

/// Records the holder count and the excluded share in the stored pool; only
/// its creator may.
pub fn process_set_holders_info(
    pool_data: &mut Vec<u8>,
    caller: &Address,
    caller_signed: bool,
    holder_count: u32,
    excluded_amount: u64,
) -> (r: Result<(), RwaHubError>)
    ensures
        match spec_process_pool_update(
            old(pool_data)@,
            |p: DividendPoolView|
                spec_set_holders_info(p, caller@, caller_signed, holder_count, excluded_amount),
        ) {
            Ok(v) => r is Ok && final(pool_data)@ == packed_pool(v),
            Err(e) => r == Err::<(), RwaHubError>(e) && *final(pool_data) == *old(pool_data),
        },
{
    let mut pool = DividendPool::unpack(pool_data.as_slice())?;
    set_holders_info(&mut pool, caller, caller_signed, holder_count, excluded_amount)?;
    if pool.details.len() > MAX_DETAILS_LEN {
        return Err(RwaHubError::InvalidAccountData);
    }
    *pool_data = pool.pack();
    Ok(())
}

/// Closes the stored pool; only its creator may.
pub fn process_close_dividend(pool_data: &mut Vec<u8>, caller: &Address, caller_signed: bool) -> (r:
    Result<(), RwaHubError>)
    ensures
        match spec_process_pool_update(
            old(pool_data)@,
            |p: DividendPoolView| spec_close_dividend(p, caller@, caller_signed),
        ) {
            Ok(v) => r is Ok && final(pool_data)@ == packed_pool(v),
            Err(e) => r == Err::<(), RwaHubError>(e) && *final(pool_data) == *old(pool_data),
        },
{
    let mut pool = DividendPool::unpack(pool_data.as_slice())?;
    close_dividend(&mut pool, caller, caller_signed)?;
    if pool.details.len() > MAX_DETAILS_LEN {
        return Err(RwaHubError::InvalidAccountData);
    }
    *pool_data = pool.pack();
    Ok(())
}

/// Who calls an operation, and the accounts it names besides the stored
/// records.
#[derive(Clone, Copy, Debug)]
pub struct Invocation {
    pub signer: Address,
    /// Whether the signer's signature was verified by the host.
    pub signer_signed: bool,
    /// The signer's token account in the quote currency.
    pub quote_account: Address,
    /// The signer's token account for the asset's units.
    pub asset_account: Address,
    /// The asset's token mint.
    pub mint: Address,
    /// The address of the asset's dividend pool.
    pub pool_address: Address,
    /// The address of the signer's claim record on that pool.
    pub claim_address: Address,
    /// Reference of the submitting transaction.
    pub reference: Address,
    pub now: i64,
}

/// The stored records an operation reads and writes.
#[derive(Clone, Debug)]
pub struct Records {
    pub asset: Vec<u8>,
    pub pool: Vec<u8>,
    pub claim: Vec<u8>,
}

/// What the host is to carry out after an operation succeeds.
#[derive(Clone, Copy, Debug)]
pub enum Outcome {
    AssetCreated(VaultSetup),
    Purchased(PurchaseSettlement),
    Deposited(DepositSettlement),
    Claimed(TokenTransfer),
    Updated,
}

/// Only the asset record changed, to `v`.
pub open spec fn asset_written(old_records: Records, new_records: Records, v: AssetView) -> bool {
    &&& new_records.asset@ == packed_asset(v)
    &&& new_records.pool == old_records.pool
    &&& new_records.claim == old_records.claim
}

/// Only the pool record changed, to `v`.
pub open spec fn pool_written(old_records: Records, new_records: Records, v: DividendPoolView) -> bool {
    &&& new_records.pool@ == packed_pool(v)
    &&& new_records.asset == old_records.asset
    &&& new_records.claim == old_records.claim
}

/// Decodes an operation and runs it against the stored records. A failed
/// operation, for whatever reason, leaves every record as it was.
pub fn process_instruction(
    env: &Environment,
    inv: &Invocation,
    records: &mut Records,
    data: &[u8],
) -> (r: Result<Outcome, RwaHubError>)
    ensures
        r is Err ==> *final(records) == *old(records),
        match decode_instruction(data@) {
            None => r == Err::<Outcome, RwaHubError>(RwaHubError::InvalidInstruction),
            Some(InstructionView::InitializeAsset { name, symbol, total_supply, decimals, price }) =>
                match spec_initialize_asset(
                *env,
                old(records).asset@,
                inv.signer@,
                inv.signer_signed,
                inv.mint@,
                name,
                symbol,
                total_supply,
                decimals,
                price,
                inv.now,
            ) {
                Ok(v) => r is Ok && r->Ok_0 is AssetCreated && vault_setup_matches(
                    *env,
                    inv.mint,
                    total_supply,
                    v,
                    r->Ok_0->AssetCreated_0,
                ) && asset_written(*old(records), *final(records), v),
                Err(e) => r == Err::<Outcome, RwaHubError>(e),
            },
            Some(InstructionView::Buy { amount }) => match spec_process_buy(
                *env,
                old(records).asset@,
                inv.signer_signed,
                amount,
            ) {
                Ok((v, quote)) => r is Ok && r->Ok_0 is Purchased && purchase_matches(
                    *env,
                    v,
                    quote,
                    inv.signer,
                    inv.quote_account,
                    inv.asset_account,
                    amount,
                    r->Ok_0->Purchased_0,
                ) && asset_written(*old(records), *final(records), v),
                Err(e) => r == Err::<Outcome, RwaHubError>(e),
            },
            Some(InstructionView::Dividend { amount, deadline, platform_fee_bps }) =>
                match spec_process_dividend(
                *env,
                old(records).asset@,
                old(records).pool@,
                inv.pool_address@,
                inv.signer@,
                inv.signer_signed,
                amount,
                deadline,
                platform_fee_bps,
                inv.now,
            ) {
                Ok((v, split)) => r is Ok && r->Ok_0 is Deposited && deposit_matches(
                    *env,
                    inv.pool_address@,
                    inv.signer,
                    inv.quote_account,
                    split,
                    r->Ok_0->Deposited_0,
                ) && pool_written(*old(records), *final(records), v),
                Err(e) => r == Err::<Outcome, RwaHubError>(e),
            },
            Some(InstructionView::ClaimDividend { amount }) => match spec_process_claim(
                *env,
                old(records).pool@,
                old(records).claim@,
                inv.pool_address@,
                inv.claim_address@,
                inv.signer,
                inv.signer_signed,
                amount,
                inv.now,
                inv.reference,
            ) {
                Ok((v, rec)) => {
                    &&& r is Ok && r->Ok_0 is Claimed
                    &&& claim_transfer_matches(
                        *env,
                        v,
                        inv.pool_address,
                        inv.quote_account,
                        amount,
                        r->Ok_0->Claimed_0,
                    )
                    &&& final(records).pool@ == packed_pool(v)
                    &&& final(records).claim@ == encode_record(rec)
                    &&& final(records).asset == old(records).asset
                },
                Err(e) => r == Err::<Outcome, RwaHubError>(e),
            },
            Some(InstructionView::SetHoldersInfo { holder_count, excluded_amount }) =>
                match spec_process_pool_update(
                old(records).pool@,
                |p: DividendPoolView|
                    spec_set_holders_info(
                        p,
                        inv.signer@,
                        inv.signer_signed,
                        holder_count,
                        excluded_amount,
                    ),
            ) {
                Ok(v) => r == Ok::<Outcome, RwaHubError>(Outcome::Updated) && pool_written(
                    *old(records),
                    *final(records),
                    v,
                ),
                Err(e) => r == Err::<Outcome, RwaHubError>(e),
            },
            Some(InstructionView::CloseDividend) => match spec_process_pool_update(
                old(records).pool@,
                |p: DividendPoolView| spec_close_dividend(p, inv.signer@, inv.signer_signed),
            ) {
                Ok(v) => r == Ok::<Outcome, RwaHubError>(Outcome::Updated) && pool_written(
                    *old(records),
                    *final(records),
                    v,
                ),
                Err(e) => r == Err::<Outcome, RwaHubError>(e),
            },
            Some(InstructionView::UpdatePrice { new_price }) => match spec_process_asset_update(
                old(records).asset@,
                |a: AssetView| spec_update_asset_price(a, inv.signer@, inv.signer_signed, new_price),
            ) {
                Ok(v) => r == Ok::<Outcome, RwaHubError>(Outcome::Updated) && asset_written(
                    *old(records),
                    *final(records),
                    v,
                ),
                Err(e) => r == Err::<Outcome, RwaHubError>(e),
            },
            Some(InstructionView::UpdateFee { new_fee_bps }) => match spec_process_asset_update(
                old(records).asset@,
                |a: AssetView| spec_update_asset_fee(a, inv.signer@, inv.signer_signed, new_fee_bps),
            ) {
                Ok(v) => r == Ok::<Outcome, RwaHubError>(Outcome::Updated) && asset_written(
                    *old(records),
                    *final(records),
                    v,
                ),
                Err(e) => r == Err::<Outcome, RwaHubError>(e),
            },
        },
{
    let instruction = RwaHubInstruction::unpack(data)?;
    match instruction {
        RwaHubInstruction::InitializeAsset { name, symbol, total_supply, decimals, price } => {
            let setup = process_initialize_asset(
                env,
                &mut records.asset,
                &inv.signer,
                inv.signer_signed,
                &inv.mint,
                name,
                symbol,
                total_supply,
                decimals,
                price,
                inv.now,
            )?;
            Ok(Outcome::AssetCreated(setup))
        },
        RwaHubInstruction::Buy { amount } => {
            let settlement = process_buy(
                env,
                &mut records.asset,
                &inv.signer,
                inv.signer_signed,
                &inv.quote_account,
                &inv.asset_account,
                amount,
            )?;
            Ok(Outcome::Purchased(settlement))
        },
        RwaHubInstruction::Dividend { amount, deadline, platform_fee_bps } => {
            let settlement = process_dividend(
                env,
                &records.asset,
                &mut records.pool,
                &inv.pool_address,
                &inv.signer,
                inv.signer_signed,
                &inv.quote_account,
                amount,
                deadline,
                platform_fee_bps,
                inv.now,
            )?;
            Ok(Outcome::Deposited(settlement))
        },
        RwaHubInstruction::ClaimDividend { amount } => {
            let transfer = process_claim(
                env,
                &mut records.pool,
                &mut records.claim,
                &inv.pool_address,
                &inv.claim_address,
                &inv.signer,
                inv.signer_signed,
                &inv.quote_account,
                amount,
                inv.now,
                &inv.reference,
            )?;
            Ok(Outcome::Claimed(transfer))
        },
        RwaHubInstruction::SetHoldersInfo { holder_count, excluded_amount } => {
            process_set_holders_info(
                &mut records.pool,
                &inv.signer,
                inv.signer_signed,
                holder_count,
                excluded_amount,
            )?;
            Ok(Outcome::Updated)
        },
        RwaHubInstruction::CloseDividend => {
            process_close_dividend(&mut records.pool, &inv.signer, inv.signer_signed)?;
            Ok(Outcome::Updated)
        },
        RwaHubInstruction::UpdatePrice { new_price } => {
            process_update_price(&mut records.asset, &inv.signer, inv.signer_signed, new_price)?;
            Ok(Outcome::Updated)
        },
        RwaHubInstruction::UpdateFee { new_fee_bps } => {
            process_update_fee(&mut records.asset, &inv.signer, inv.signer_signed, new_fee_bps)?;
            Ok(Outcome::Updated)
        },
    }
}

} // verus!
