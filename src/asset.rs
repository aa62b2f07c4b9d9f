use vstd::prelude::*;

use crate::address::Address;
use crate::error::RwaHubError;
use crate::fee::{fee_of, purchase_quote, spec_purchase_quote, FeeSplit, MAX_FEE_BPS};

verus! {

/// Bytes of an asset record besides the name and symbol text.
pub const ASSET_FIXED_LEN: usize = 109;

/// Size of the stored asset record.
pub const ASSET_LEN: usize = 166;

/// A tokenized asset: identity, pricing and supply accounting. An
/// uninitialized record (all zero) stands for an identity not yet taken.
#[derive(Clone, Debug)]
pub struct Asset {
    pub is_initialized: bool,
    pub owner: Address,
    pub name: String,
    pub symbol: String,
    pub total_supply: u64,
    pub decimals: u8,
    pub mint: Address,
    /// Price of one unit, in the smallest unit of the quote currency.
    pub price: u64,
    pub remaining_supply: u64,
    /// Bump seed of the custody vault address.
    pub vault_bump: u8,
    pub platform_fee_bps: u16,
    pub created_at: i64,
}

pub struct AssetView {
    pub is_initialized: bool,
    pub owner: Seq<u8>,
    pub name: Seq<char>,
    pub symbol: Seq<char>,
    pub total_supply: u64,
    pub decimals: u8,
    pub mint: Seq<u8>,
    pub price: u64,
    pub remaining_supply: u64,
    pub vault_bump: u8,
    pub platform_fee_bps: u16,
    pub created_at: i64,
}

impl View for Asset {
    type V = AssetView;

    open spec fn view(&self) -> AssetView {
        AssetView {
            is_initialized: self.is_initialized,
            owner: self.owner@,
            name: self.name@,
            symbol: self.symbol@,
            total_supply: self.total_supply,
            decimals: self.decimals,
            mint: self.mint@,
            price: self.price,
            remaining_supply: self.remaining_supply,
            vault_bump: self.vault_bump,
            platform_fee_bps: self.platform_fee_bps,
            created_at: self.created_at,
        }
    }
}

/// Number of bytes of the UTF-8 encoding of `s`.
pub open spec fn utf8_len(s: Seq<char>) -> int {
    vstd::utf8::encode_utf8(s).len() as int
}

impl AssetView {
    /// The record's invariant once created.
    pub open spec fn wf(self) -> bool {
        self.is_initialized ==> {
            &&& self.remaining_supply <= self.total_supply
            &&& self.price > 0
            &&& self.platform_fee_bps <= MAX_FEE_BPS
            &&& self.fits()
        }
    }

    /// The record's encoding fits its storage.
    pub open spec fn fits(self) -> bool {
        ASSET_FIXED_LEN + utf8_len(self.name) + utf8_len(self.symbol) <= ASSET_LEN
    }
}

/// What creating an asset does to the record at its identity.
pub open spec fn spec_create_asset(
    record: AssetView,
    owner: Seq<u8>,
    owner_signed: bool,
    name: Seq<char>,
    symbol: Seq<char>,
    total_supply: u64,
    decimals: u8,
    price: u64,
    mint: Seq<u8>,
    vault_bump: u8,
    platform_fee_bps: u16,
    now: i64,
) -> Result<AssetView, RwaHubError> {
    if record.is_initialized {
        Err(RwaHubError::AssetAlreadyExists)
    } else if !owner_signed {
        Err(RwaHubError::Unauthorized)
    } else if price == 0 {
        Err(RwaHubError::InvalidAmount)
    } else if platform_fee_bps > MAX_FEE_BPS {
        Err(RwaHubError::InvalidFeeAmount)
    } else if ASSET_FIXED_LEN + utf8_len(name) + utf8_len(symbol) > ASSET_LEN {
        Err(RwaHubError::InvalidInstruction)
    } else {
        Ok(
            AssetView {
                is_initialized: true,
                owner,
                name,
                symbol,
                total_supply,
                decimals,
                mint,
                price,
                remaining_supply: total_supply,
                vault_bump,
                platform_fee_bps,
                created_at: now,
            },
        )
    }
}

/// Creates an asset in the record at its identity. The whole supply starts
/// unsold, held by the custody vault. Fails, leaving the record as it was,
/// where an asset already exists there, the owner did not sign, the price is
/// zero, the fee rate exceeds the whole amount, or the name and symbol do not
/// fit the record.
pub fn create_asset(
    record: &mut Asset,
    owner: &Address,
    owner_signed: bool,
    name: String,
    symbol: String,
    total_supply: u64,
    decimals: u8,
    price: u64,
    mint: &Address,
    vault_bump: u8,
    platform_fee_bps: u16,
    now: i64,
) -> (r: Result<(), RwaHubError>)
    ensures
        match spec_create_asset(
            old(record)@,
            owner@,
            owner_signed,
            name@,
            symbol@,
            total_supply,
            decimals,
            price,
            mint@,
            vault_bump,
            platform_fee_bps,
            now,
        ) {
            Ok(v) => r is Ok && final(record)@ == v && final(record)@.wf(),
            Err(e) => r == Err::<(), RwaHubError>(e) && *final(record) == *old(record),
        },
{
    if record.is_initialized {
        return Err(RwaHubError::AssetAlreadyExists);
    }
    if !owner_signed {
        return Err(RwaHubError::Unauthorized);
    }
    if price == 0 {
        return Err(RwaHubError::InvalidAmount);
    }
    if platform_fee_bps > MAX_FEE_BPS {
        return Err(RwaHubError::InvalidFeeAmount);
    }
    let name_len = name.as_str().as_bytes().len();
    let symbol_len = symbol.as_str().as_bytes().len();
    if name_len > ASSET_LEN - ASSET_FIXED_LEN || symbol_len > ASSET_LEN - ASSET_FIXED_LEN - name_len {
        return Err(RwaHubError::InvalidInstruction);
    }
    *record = Asset {
        is_initialized: true,
        owner: *owner,
        name,
        symbol,
        total_supply,
        decimals,
        mint: *mint,
        price,
        remaining_supply: total_supply,
        vault_bump,
        platform_fee_bps,
        created_at: now,
    };
    Ok(())
}

impl Asset {
    /// Whether the name and symbol fit the record.
    pub fn fits(&self) -> (r: bool)
        ensures
            r == self@.fits(),
    {
        let name_len = self.name.as_str().as_bytes().len();
        let symbol_len = self.symbol.as_str().as_bytes().len();
        name_len <= ASSET_LEN - ASSET_FIXED_LEN && symbol_len <= ASSET_LEN - ASSET_FIXED_LEN - name_len
    }
}

/// What a purchase of `amount` units does to the asset, and what the buyer
/// pays.
pub open spec fn spec_buy_asset(asset: AssetView, buyer_signed: bool, amount: u64) -> Result<
    (AssetView, FeeSplit),
    RwaHubError,
> {
    if !buyer_signed {
        Err(RwaHubError::Unauthorized)
    } else if !asset.is_initialized {
        Err(RwaHubError::AssetNotFound)
    } else if amount == 0 {
        Err(RwaHubError::InvalidAmount)
    } else if amount > asset.remaining_supply {
        Err(RwaHubError::InsufficientSupply)
    } else {
        match spec_purchase_quote(amount, asset.price, asset.platform_fee_bps) {
            Ok(quote) => Ok(
                (AssetView { remaining_supply: (asset.remaining_supply - amount) as u64, ..asset }, quote),
            ),
            Err(e) => Err(e),
        }
    }
}

/// Sells `amount` units of the asset's unsold supply. Returns the price split
/// into the platform's fee and the owner's proceeds; the caller moves the fee
/// and the proceeds from the buyer and the units out of the custody vault.
/// On failure nothing changes.
pub fn buy_asset(asset: &mut Asset, buyer_signed: bool, amount: u64) -> (r: Result<
    FeeSplit,
    RwaHubError,
>)
    ensures
        match spec_buy_asset(old(asset)@, buyer_signed, amount) {
            Ok((v, quote)) => r == Ok::<FeeSplit, RwaHubError>(quote) && final(asset)@ == v,
            Err(e) => r == Err::<FeeSplit, RwaHubError>(e) && *final(asset) == *old(asset),
        },
        r is Ok ==> {
            &&& final(asset).remaining_supply == old(asset).remaining_supply - amount
            &&& r->Ok_0.total == amount * old(asset).price
            &&& r->Ok_0.fee == fee_of(amount * old(asset).price, old(asset).platform_fee_bps as int)
            &&& r->Ok_0.fee + r->Ok_0.net == amount * old(asset).price
        },
        old(asset)@.wf() ==> final(asset)@.wf(),
{
    if !buyer_signed {
        return Err(RwaHubError::Unauthorized);
    }
    if !asset.is_initialized {
        return Err(RwaHubError::AssetNotFound);
    }
    if amount == 0 {
        return Err(RwaHubError::InvalidAmount);
    }
    if amount > asset.remaining_supply {
        return Err(RwaHubError::InsufficientSupply);
    }
    let quote = purchase_quote(amount, asset.price, asset.platform_fee_bps)?;
    asset.remaining_supply = asset.remaining_supply - amount;
    Ok(quote)
}

/// What a price update does to the asset.
pub open spec fn spec_update_asset_price(
    asset: AssetView,
    caller: Seq<u8>,
    caller_signed: bool,
    new_price: u64,
) -> Result<AssetView, RwaHubError> {
    if !asset.is_initialized {
        Err(RwaHubError::AssetNotFound)
    } else if !caller_signed || caller != asset.owner {
        Err(RwaHubError::Unauthorized)
    } else if new_price == 0 {
        Err(RwaHubError::InvalidAmount)
    } else {
        Ok(AssetView { price: new_price, ..asset })
    }
}

/// Sets a new unit price; only the asset's owner may. Supply is untouched.
pub fn update_asset_price(
    asset: &mut Asset,
    caller: &Address,
    caller_signed: bool,
    new_price: u64,
) -> (r: Result<(), RwaHubError>)
    ensures
        match spec_update_asset_price(old(asset)@, caller@, caller_signed, new_price) {
            Ok(v) => r is Ok && final(asset)@ == v,
            Err(e) => r == Err::<(), RwaHubError>(e) && *final(asset) == *old(asset),
        },
        old(asset)@.wf() ==> final(asset)@.wf(),
{
    if !asset.is_initialized {
        return Err(RwaHubError::AssetNotFound);
    }
    if !caller_signed || !caller.same_as(&asset.owner) {
        return Err(RwaHubError::Unauthorized);
    }
    if new_price == 0 {
        return Err(RwaHubError::InvalidAmount);
    }
    asset.price = new_price;
    Ok(())
}

/// What a fee-rate update does to the asset.
pub open spec fn spec_update_asset_fee(
    asset: AssetView,
    caller: Seq<u8>,
    caller_signed: bool,
    new_fee_bps: u16,
) -> Result<AssetView, RwaHubError> {
    if !asset.is_initialized {
        Err(RwaHubError::AssetNotFound)
    } else if !caller_signed || caller != asset.owner {
        Err(RwaHubError::Unauthorized)
    } else if new_fee_bps > MAX_FEE_BPS {
        Err(RwaHubError::InvalidFeeAmount)
    } else {
        Ok(AssetView { platform_fee_bps: new_fee_bps, ..asset })
    }
}

/// Sets the platform's fee rate on this asset's sales; only the owner may.
pub fn update_asset_fee(
    asset: &mut Asset,
    caller: &Address,
    caller_signed: bool,
    new_fee_bps: u16,
) -> (r: Result<(), RwaHubError>)
    ensures
        match spec_update_asset_fee(old(asset)@, caller@, caller_signed, new_fee_bps) {
            Ok(v) => r is Ok && final(asset)@ == v,
            Err(e) => r == Err::<(), RwaHubError>(e) && *final(asset) == *old(asset),
        },
        old(asset)@.wf() ==> final(asset)@.wf(),
{
    if !asset.is_initialized {
        return Err(RwaHubError::AssetNotFound);
    }
    if !caller_signed || !caller.same_as(&asset.owner) {
        return Err(RwaHubError::Unauthorized);
    }
    if new_fee_bps > MAX_FEE_BPS {
        return Err(RwaHubError::InvalidFeeAmount);
    }
    asset.platform_fee_bps = new_fee_bps;
    Ok(())
}

/// At the supply boundary: buying exactly the unsold supply succeeds and
/// leaves none; buying one unit more is refused for want of supply (and a
/// refused purchase changes nothing).
pub proof fn lemma_supply_boundary(asset: AssetView)
    requires
        asset.is_initialized,
        asset.remaining_supply > 0,
        asset.platform_fee_bps <= MAX_FEE_BPS,
        asset.remaining_supply * asset.price <= u64::MAX,
        asset.remaining_supply * asset.price * asset.platform_fee_bps <= u64::MAX,
    ensures
        spec_buy_asset(asset, true, asset.remaining_supply) is Ok,
        spec_buy_asset(asset, true, asset.remaining_supply)->Ok_0.0.remaining_supply == 0,
        asset.remaining_supply < u64::MAX ==> spec_buy_asset(
            asset,
            true,
            (asset.remaining_supply + 1) as u64,
        ) == Err::<(AssetView, FeeSplit), RwaHubError>(RwaHubError::InsufficientSupply),
{
}

/// Creating an asset where one already exists is refused as such, whoever
/// asks and with whatever parameters (and a refused creation leaves the
/// record as it was).
pub proof fn lemma_recreate_refused(
    record: AssetView,
    owner: Seq<u8>,
    owner_signed: bool,
    name: Seq<char>,
    symbol: Seq<char>,
    total_supply: u64,
    decimals: u8,
    price: u64,
    mint: Seq<u8>,
    vault_bump: u8,
    platform_fee_bps: u16,
    now: i64,
)
    requires
        record.is_initialized,
    ensures
        spec_create_asset(
            record,
            owner,
            owner_signed,
            name,
            symbol,
            total_supply,
            decimals,
            price,
            mint,
            vault_bump,
            platform_fee_bps,
            now,
        ) == Err::<AssetView, RwaHubError>(RwaHubError::AssetAlreadyExists),
{
}

} // verus!
