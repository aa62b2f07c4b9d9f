//! Byte layouts of the stored records. Each record is its fields in order,
//! zero-padded to the record's fixed size; reading ignores the padding.
use vstd::prelude::*;

use crate::asset::{utf8_len, Asset, AssetView, ASSET_FIXED_LEN, ASSET_LEN};
use crate::codec::{
    dec_address, dec_bool, dec_i64, dec_string, dec_u16, dec_u32, dec_u64, dec_u8, dec_vec,
    enc_bool, enc_i64, enc_string, enc_u16, enc_u32, enc_u64, enc_u8, enc_vec,
    lemma_address_round_trip, lemma_bool_round_trip, lemma_i64_round_trip, lemma_string_round_trip,
    lemma_u16_round_trip, lemma_u32_round_trip, lemma_u64_round_trip, lemma_u8_round_trip,
    lemma_vec_round_trip, pad_zeros, read_address, read_bool, read_i64, read_string, read_u16,
    read_u32, read_u64, read_u8, read_vec, tail, write_address, write_bool, write_i64,
    write_string, write_u16, write_u32, write_u64, write_u8, write_vec,
};
use vstd::utf8::encode_utf8;
use crate::dividend::{
    DividendPool, DividendPoolView, DividendRecord, DIVIDEND_RECORD_LEN, MAX_DETAILS_LEN,
    POOL_FIXED_LEN, POOL_LEN,
};
use crate::error::RwaHubError;

verus! {

/// `n` zero bytes.
pub open spec fn zeros(n: int) -> Seq<u8> {
    Seq::new(n as nat, |i: int| 0u8)
}

proof fn lemma_assoc(a: Seq<u8>, b: Seq<u8>, c: Seq<u8>)
    ensures
        (a + b) + c == a + (b + c),
{
    assert((a + b) + c =~= a + (b + c));
}

proof fn lemma_fixed_lens(b: bool, x8: u8, x16: u16, x32: u32, x64: u64, i: i64)
    ensures
        enc_bool(b).len() == 1,
        enc_u8(x8).len() == 1,
        enc_u16(x16).len() == 2,
        enc_u32(x32).len() == 4,
        enc_u64(x64).len() == 8,
        enc_i64(i).len() == 8,
{
    vstd::bytes::lemma_auto_spec_u16_to_from_le_bytes();
    vstd::bytes::lemma_auto_spec_u32_to_from_le_bytes();
    vstd::bytes::lemma_auto_spec_u64_to_from_le_bytes();
}

pub open spec fn encode_asset(a: AssetView) -> Seq<u8> {
    enc_bool(a.is_initialized) + (a.owner + (enc_string(a.name) + (enc_string(a.symbol) + (enc_u64(
        a.total_supply,
    ) + (enc_u8(a.decimals) + (a.mint + (enc_u64(a.price) + (enc_u64(a.remaining_supply) + (
    enc_u8(a.vault_bump) + (enc_u16(a.platform_fee_bps) + enc_i64(a.created_at)))))))))))
}

pub open spec fn decode_asset(s: Seq<u8>) -> Option<AssetView> {
    match dec_bool(s) {
        None => None,
        Some((is_initialized, s)) => match dec_address(s) {
            None => None,
            Some((owner, s)) => match dec_string(s) {
                None => None,
                Some((name, s)) => match dec_string(s) {
                    None => None,
                    Some((symbol, s)) => match dec_u64(s) {
                        None => None,
                        Some((total_supply, s)) => match dec_u8(s) {
                            None => None,
                            Some((decimals, s)) => match dec_address(s) {
                                None => None,
                                Some((mint, s)) => match dec_u64(s) {
                                    None => None,
                                    Some((price, s)) => match dec_u64(s) {
                                        None => None,
                                        Some((remaining_supply, s)) => match dec_u8(s) {
                                            None => None,
                                            Some((vault_bump, s)) => match dec_u16(s) {
                                                None => None,
                                                Some((platform_fee_bps, s)) => match dec_i64(s) {
                                                    None => None,
                                                    Some((created_at, _)) => Some(
                                                        AssetView {
                                                            is_initialized,
                                                            owner,
                                                            name,
                                                            symbol,
                                                            total_supply,
                                                            decimals,
                                                            mint,
                                                            price,
                                                            remaining_supply,
                                                            vault_bump,
                                                            platform_fee_bps,
                                                            created_at,
                                                        },
                                                    ),
                                                },
                                            },
                                        },
                                    },
                                },
                            },
                        },
                    },
                },
            },
        },
    }
}

/// The stored form of an asset: its fields, zero-padded to the record size.
pub open spec fn packed_asset(a: AssetView) -> Seq<u8> {
    encode_asset(a) + zeros(ASSET_LEN - encode_asset(a).len())
}

/// Asset values that the record can hold.
pub open spec fn asset_storable(a: AssetView) -> bool {
    a.owner.len() == 32 && a.mint.len() == 32 && a.fits()
}

pub proof fn lemma_asset_len(a: AssetView)
    requires
        a.owner.len() == 32,
        a.mint.len() == 32,
    ensures
        encode_asset(a).len() == ASSET_FIXED_LEN + utf8_len(a.name) + utf8_len(a.symbol),
{
    lemma_fixed_lens(a.is_initialized, a.decimals, a.platform_fee_bps, 0, a.total_supply, a.created_at);
    lemma_fixed_lens(true, a.vault_bump, 0, encode_utf8(a.name).len() as u32, a.price, 0);
    lemma_fixed_lens(true, 0, 0, encode_utf8(a.symbol).len() as u32, a.remaining_supply, 0);
}

/// Reading back a stored asset gives the same asset, field for field.
pub proof fn lemma_asset_round_trip(a: AssetView)
    requires
        asset_storable(a),
    ensures
        packed_asset(a).len() == ASSET_LEN,
        decode_asset(packed_asset(a)) == Some(a),
{
    lemma_asset_len(a);
    let pad = zeros(ASSET_LEN - encode_asset(a).len());
    let t11 = enc_i64(a.created_at);
    let t10 = enc_u16(a.platform_fee_bps) + t11;
    let t9 = enc_u8(a.vault_bump) + t10;
    let t8 = enc_u64(a.remaining_supply) + t9;
    let t7 = enc_u64(a.price) + t8;
    let t6 = a.mint + t7;
    let t5 = enc_u8(a.decimals) + t6;
    let t4 = enc_u64(a.total_supply) + t5;
    let t3 = enc_string(a.symbol) + t4;
    let t2 = enc_string(a.name) + t3;
    let t1 = a.owner + t2;
    lemma_assoc(enc_bool(a.is_initialized), t1, pad);
    lemma_bool_round_trip(a.is_initialized, t1 + pad);
    lemma_assoc(a.owner, t2, pad);
    lemma_address_round_trip(a.owner, t2 + pad);
    lemma_assoc(enc_string(a.name), t3, pad);
    lemma_string_round_trip(a.name, t3 + pad);
    lemma_assoc(enc_string(a.symbol), t4, pad);
    lemma_string_round_trip(a.symbol, t4 + pad);
    lemma_assoc(enc_u64(a.total_supply), t5, pad);
    lemma_u64_round_trip(a.total_supply, t5 + pad);
    lemma_assoc(enc_u8(a.decimals), t6, pad);
    lemma_u8_round_trip(a.decimals, t6 + pad);
    lemma_assoc(a.mint, t7, pad);
    lemma_address_round_trip(a.mint, t7 + pad);
    lemma_assoc(enc_u64(a.price), t8, pad);
    lemma_u64_round_trip(a.price, t8 + pad);
    lemma_assoc(enc_u64(a.remaining_supply), t9, pad);
    lemma_u64_round_trip(a.remaining_supply, t9 + pad);
    lemma_assoc(enc_u8(a.vault_bump), t10, pad);
    lemma_u8_round_trip(a.vault_bump, t10 + pad);
    lemma_assoc(enc_u16(a.platform_fee_bps), t11, pad);
    lemma_u16_round_trip(a.platform_fee_bps, t11 + pad);
    lemma_i64_round_trip(a.created_at, pad);
}

/// The asset's encoding, read as the fields appended one after another.
proof fn lemma_asset_appended(a: AssetView)
    ensures
        encode_asset(a) == enc_bool(a.is_initialized) + a.owner + enc_string(a.name) + enc_string(
            a.symbol,
        ) + enc_u64(a.total_supply) + enc_u8(a.decimals) + a.mint + enc_u64(a.price) + enc_u64(
            a.remaining_supply,
        ) + enc_u8(a.vault_bump) + enc_u16(a.platform_fee_bps) + enc_i64(a.created_at),
{
    assert(encode_asset(a) =~= enc_bool(a.is_initialized) + a.owner + enc_string(a.name)
        + enc_string(a.symbol) + enc_u64(a.total_supply) + enc_u8(a.decimals) + a.mint + enc_u64(
        a.price,
    ) + enc_u64(a.remaining_supply) + enc_u8(a.vault_bump) + enc_u16(a.platform_fee_bps)
        + enc_i64(a.created_at));
}

impl Asset {
    /// The record's bytes: the fields in order, zero-padded to its size.
    pub fn pack(&self) -> (r: Vec<u8>)
        requires
            self@.fits(),
        ensures
            r@ == packed_asset(self@),
            r@.len() == ASSET_LEN,
    {
        let mut out: Vec<u8> = Vec::new();
        proof {
            lemma_asset_len(self@);
            lemma_asset_appended(self@);
        }
        write_bool(&mut out, self.is_initialized);
        write_address(&mut out, &self.owner);
        write_string(&mut out, &self.name);
        write_string(&mut out, &self.symbol);
        write_u64(&mut out, self.total_supply);
        write_u8(&mut out, self.decimals);
        write_address(&mut out, &self.mint);
        write_u64(&mut out, self.price);
        write_u64(&mut out, self.remaining_supply);
        write_u8(&mut out, self.vault_bump);
        write_u16(&mut out, self.platform_fee_bps);
        write_i64(&mut out, self.created_at);
        pad_zeros(&mut out, ASSET_LEN);
        out
    }

    /// Reads an asset record. Fails on a record of the wrong size or whose
    /// fields do not decode.
    pub fn unpack(data: &[u8]) -> (r: Result<Asset, RwaHubError>)
        ensures
            data@.len() != ASSET_LEN ==> r == Err::<Asset, RwaHubError>(
                RwaHubError::InvalidAccountData,
            ),
            data@.len() == ASSET_LEN ==> match decode_asset(data@) {
                Some(v) => r is Ok && r->Ok_0@ == v,
                None => r == Err::<Asset, RwaHubError>(RwaHubError::InvalidAccountData),
            },
    {
        if data.len() != ASSET_LEN {
            return Err(RwaHubError::InvalidAccountData);
        }
        assert(tail(data@, 0) =~= data@);
        let bad = RwaHubError::InvalidAccountData;
        let (is_initialized, p) = match read_bool(data, 0) { Some(v) => v, None => { return Err(bad); } };
        let (owner, p) = match read_address(data, p) { Some(v) => v, None => { return Err(bad); } };
        let (name, p) = match read_string(data, p) { Some(v) => v, None => { return Err(bad); } };
        let (symbol, p) = match read_string(data, p) { Some(v) => v, None => { return Err(bad); } };
        let (total_supply, p) = match read_u64(data, p) { Some(v) => v, None => { return Err(bad); } };
        let (decimals, p) = match read_u8(data, p) { Some(v) => v, None => { return Err(bad); } };
        let (mint, p) = match read_address(data, p) { Some(v) => v, None => { return Err(bad); } };
        let (price, p) = match read_u64(data, p) { Some(v) => v, None => { return Err(bad); } };
        let (remaining_supply, p) = match read_u64(data, p) { Some(v) => v, None => { return Err(bad); } };
        let (vault_bump, p) = match read_u8(data, p) { Some(v) => v, None => { return Err(bad); } };
        let (platform_fee_bps, p) = match read_u16(data, p) { Some(v) => v, None => { return Err(bad); } };
        let (created_at, _) = match read_i64(data, p) { Some(v) => v, None => { return Err(bad); } };
        Ok(
            Asset {
                is_initialized,
                owner,
                name,
                symbol,
                total_supply,
                decimals,
                mint,
                price,
                remaining_supply,
                vault_bump,
                platform_fee_bps,
                created_at,
            },
        )
    }
}

pub open spec fn encode_pool(p: DividendPoolView) -> Seq<u8> {
    enc_bool(p.is_initialized) + (p.creator + (p.asset_mint + (enc_u64(p.total_deposited) + (
    enc_u64(p.distributable_amount) + (enc_u64(p.remaining_amount) + (enc_u32(p.holder_count) + (
    enc_u32(p.claimed_count) + (enc_u16(p.platform_fee_bps) + (enc_i64(p.created_at) + (enc_i64(
        p.deadline,
    ) + (enc_bool(p.is_active) + enc_vec(p.details))))))))))))
}

pub open spec fn decode_pool(s: Seq<u8>) -> Option<DividendPoolView> {
    match dec_bool(s) {
        None => None,
        Some((is_initialized, s)) => match dec_address(s) {
            None => None,
            Some((creator, s)) => match dec_address(s) {
                None => None,
                Some((asset_mint, s)) => match dec_u64(s) {
                    None => None,
                    Some((total_deposited, s)) => match dec_u64(s) {
                        None => None,
                        Some((distributable_amount, s)) => match dec_u64(s) {
                            None => None,
                            Some((remaining_amount, s)) => match dec_u32(s) {
                                None => None,
                                Some((holder_count, s)) => match dec_u32(s) {
                                    None => None,
                                    Some((claimed_count, s)) => match dec_u16(s) {
                                        None => None,
                                        Some((platform_fee_bps, s)) => match dec_i64(s) {
                                            None => None,
                                            Some((created_at, s)) => match dec_i64(s) {
                                                None => None,
                                                Some((deadline, s)) => match dec_bool(s) {
                                                    None => None,
                                                    Some((is_active, s)) => match dec_vec(
                                                        s,
                                                        MAX_DETAILS_LEN as nat,
                                                    ) {
                                                        None => None,
                                                        Some((details, _)) => Some(
                                                            DividendPoolView {
                                                                is_initialized,
                                                                creator,
                                                                asset_mint,
                                                                total_deposited,
                                                                distributable_amount,
                                                                remaining_amount,
                                                                holder_count,
                                                                claimed_count,
                                                                platform_fee_bps,
                                                                created_at,
                                                                deadline,
                                                                is_active,
                                                                details,
                                                            },
                                                        ),
                                                    },
                                                },
                                            },
                                        },
                                    },
                                },
                            },
                        },
                    },
                },
            },
        },
    }
}

/// The stored form of a pool: its fields, zero-padded to the record size.
pub open spec fn packed_pool(p: DividendPoolView) -> Seq<u8> {
    encode_pool(p) + zeros(POOL_LEN - encode_pool(p).len())
}

/// Pool values that the record can hold: the holder-detail payload within
/// its cap.
pub open spec fn pool_storable(p: DividendPoolView) -> bool {
    p.creator.len() == 32 && p.asset_mint.len() == 32 && p.details.len() <= MAX_DETAILS_LEN
}

pub proof fn lemma_pool_len(p: DividendPoolView)
    requires
        pool_storable(p),
    ensures
        encode_pool(p).len() == POOL_FIXED_LEN + p.details.len(),
{
    lemma_fixed_lens(p.is_initialized, 0, p.platform_fee_bps, p.holder_count, p.total_deposited, p.created_at);
    lemma_fixed_lens(p.is_active, 0, 0, p.claimed_count, p.distributable_amount, p.deadline);
    lemma_fixed_lens(true, 0, 0, p.details.len() as u32, p.remaining_amount, 0);
}

/// Reading back a stored pool gives the same pool, field for field.
pub proof fn lemma_pool_round_trip(p: DividendPoolView)
    requires
        pool_storable(p),
    ensures
        packed_pool(p).len() == POOL_LEN,
        decode_pool(packed_pool(p)) == Some(p),
{
    lemma_pool_len(p);
    let pad = zeros(POOL_LEN - encode_pool(p).len());
    let t12 = enc_vec(p.details);
    let t11 = enc_bool(p.is_active) + t12;
    let t10 = enc_i64(p.deadline) + t11;
    let t9 = enc_i64(p.created_at) + t10;
    let t8 = enc_u16(p.platform_fee_bps) + t9;
    let t7 = enc_u32(p.claimed_count) + t8;
    let t6 = enc_u32(p.holder_count) + t7;
    let t5 = enc_u64(p.remaining_amount) + t6;
    let t4 = enc_u64(p.distributable_amount) + t5;
    let t3 = enc_u64(p.total_deposited) + t4;
    let t2 = p.asset_mint + t3;
    let t1 = p.creator + t2;
    lemma_assoc(enc_bool(p.is_initialized), t1, pad);
    lemma_bool_round_trip(p.is_initialized, t1 + pad);
    lemma_assoc(p.creator, t2, pad);
    lemma_address_round_trip(p.creator, t2 + pad);
    lemma_assoc(p.asset_mint, t3, pad);
    lemma_address_round_trip(p.asset_mint, t3 + pad);
    lemma_assoc(enc_u64(p.total_deposited), t4, pad);
    lemma_u64_round_trip(p.total_deposited, t4 + pad);
    lemma_assoc(enc_u64(p.distributable_amount), t5, pad);
    lemma_u64_round_trip(p.distributable_amount, t5 + pad);
    lemma_assoc(enc_u64(p.remaining_amount), t6, pad);
    lemma_u64_round_trip(p.remaining_amount, t6 + pad);
    lemma_assoc(enc_u32(p.holder_count), t7, pad);
    lemma_u32_round_trip(p.holder_count, t7 + pad);
    lemma_assoc(enc_u32(p.claimed_count), t8, pad);
    lemma_u32_round_trip(p.claimed_count, t8 + pad);
    lemma_assoc(enc_u16(p.platform_fee_bps), t9, pad);
    lemma_u16_round_trip(p.platform_fee_bps, t9 + pad);
    lemma_assoc(enc_i64(p.created_at), t10, pad);
    lemma_i64_round_trip(p.created_at, t10 + pad);
    lemma_assoc(enc_i64(p.deadline), t11, pad);
    lemma_i64_round_trip(p.deadline, t11 + pad);
    lemma_assoc(enc_bool(p.is_active), t12, pad);
    lemma_bool_round_trip(p.is_active, t12 + pad);
    lemma_vec_round_trip(p.details, MAX_DETAILS_LEN as nat, pad);
}

/// The pool's encoding, read as the fields appended one after another.
#[verifier::rlimit(100)]
proof fn lemma_pool_appended(p: DividendPoolView)
    ensures
        encode_pool(p) == enc_bool(p.is_initialized) + p.creator + p.asset_mint + enc_u64(
            p.total_deposited,
        ) + enc_u64(p.distributable_amount) + enc_u64(p.remaining_amount) + enc_u32(p.holder_count)
            + enc_u32(p.claimed_count) + enc_u16(p.platform_fee_bps) + enc_i64(p.created_at)
            + enc_i64(p.deadline) + enc_bool(p.is_active) + enc_vec(p.details),
{
    assert(encode_pool(p) =~= enc_bool(p.is_initialized) + p.creator + p.asset_mint + enc_u64(
        p.total_deposited,
    ) + enc_u64(p.distributable_amount) + enc_u64(p.remaining_amount) + enc_u32(p.holder_count)
        + enc_u32(p.claimed_count) + enc_u16(p.platform_fee_bps) + enc_i64(p.created_at) + enc_i64(
        p.deadline,
    ) + enc_bool(p.is_active) + enc_vec(p.details));
}

impl DividendPool {
    /// The record's bytes: the fields in order, zero-padded to its size.
    pub fn pack(&self) -> (r: Vec<u8>)
        requires
            self@.details.len() <= MAX_DETAILS_LEN,
        ensures
            r@ == packed_pool(self@),
            r@.len() == POOL_LEN,
    {
        let mut out: Vec<u8> = Vec::new();
        proof {
            lemma_pool_len(self@);
            lemma_pool_appended(self@);
        }
        write_bool(&mut out, self.is_initialized);
        write_address(&mut out, &self.creator);
        write_address(&mut out, &self.asset_mint);
        write_u64(&mut out, self.total_deposited);
        write_u64(&mut out, self.distributable_amount);
        write_u64(&mut out, self.remaining_amount);
        write_u32(&mut out, self.holder_count);
        write_u32(&mut out, self.claimed_count);
        write_u16(&mut out, self.platform_fee_bps);
        write_i64(&mut out, self.created_at);
        write_i64(&mut out, self.deadline);
        write_bool(&mut out, self.is_active);
        write_vec(&mut out, &self.details);
        pad_zeros(&mut out, POOL_LEN);
        out
    }

    /// Reads a pool record. Fails on a record of the wrong size, whose
    /// fields do not decode, or whose holder-detail payload exceeds its cap.
    pub fn unpack(data: &[u8]) -> (r: Result<DividendPool, RwaHubError>)
        ensures
            data@.len() != POOL_LEN ==> r == Err::<DividendPool, RwaHubError>(
                RwaHubError::InvalidAccountData,
            ),
            data@.len() == POOL_LEN ==> match decode_pool(data@) {
                Some(v) => r is Ok && r->Ok_0@ == v,
                None => r == Err::<DividendPool, RwaHubError>(RwaHubError::InvalidAccountData),
            },
    {
        if data.len() != POOL_LEN {
            return Err(RwaHubError::InvalidAccountData);
        }
        assert(tail(data@, 0) =~= data@);
        let bad = RwaHubError::InvalidAccountData;
        let (is_initialized, p) = match read_bool(data, 0) { Some(v) => v, None => { return Err(bad); } };
        let (creator, p) = match read_address(data, p) { Some(v) => v, None => { return Err(bad); } };
        let (asset_mint, p) = match read_address(data, p) { Some(v) => v, None => { return Err(bad); } };
        let (total_deposited, p) = match read_u64(data, p) { Some(v) => v, None => { return Err(bad); } };
        let (distributable_amount, p) = match read_u64(data, p) { Some(v) => v, None => { return Err(bad); } };
        let (remaining_amount, p) = match read_u64(data, p) { Some(v) => v, None => { return Err(bad); } };
        let (holder_count, p) = match read_u32(data, p) { Some(v) => v, None => { return Err(bad); } };
        let (claimed_count, p) = match read_u32(data, p) { Some(v) => v, None => { return Err(bad); } };
        let (platform_fee_bps, p) = match read_u16(data, p) { Some(v) => v, None => { return Err(bad); } };
        let (created_at, p) = match read_i64(data, p) { Some(v) => v, None => { return Err(bad); } };
        let (deadline, p) = match read_i64(data, p) { Some(v) => v, None => { return Err(bad); } };
        let (is_active, p) = match read_bool(data, p) { Some(v) => v, None => { return Err(bad); } };
        let (details, _) = match read_vec(data, p, MAX_DETAILS_LEN) { Some(v) => v, None => { return Err(bad); } };
        Ok(
            DividendPool {
                is_initialized,
                creator,
                asset_mint,
                total_deposited,
                distributable_amount,
                remaining_amount,
                holder_count,
                claimed_count,
                platform_fee_bps,
                created_at,
                deadline,
                is_active,
                details,
            },
        )
    }
}

pub open spec fn encode_record(r: DividendRecord) -> Seq<u8> {
    r.holder@ + (enc_u64(r.amount_claimed) + (enc_bool(r.claimed) + (enc_i64(r.last_claim_time)
        + r.reference@)))
}

pub open spec fn decode_record(s: Seq<u8>) -> Option<(Seq<u8>, u64, bool, i64, Seq<u8>)> {
    match dec_address(s) {
        None => None,
        Some((holder, s)) => match dec_u64(s) {
            None => None,
            Some((amount_claimed, s)) => match dec_bool(s) {
                None => None,
                Some((claimed, s)) => match dec_i64(s) {
                    None => None,
                    Some((last_claim_time, s)) => match dec_address(s) {
                        None => None,
                        Some((reference, _)) => Some(
                            (holder, amount_claimed, claimed, last_claim_time, reference),
                        ),
                    },
                },
            },
        },
    }
}

/// The fields of a claim record, addresses as bytes.
pub open spec fn record_fields(r: DividendRecord) -> (Seq<u8>, u64, bool, i64, Seq<u8>) {
    (r.holder@, r.amount_claimed, r.claimed, r.last_claim_time, r.reference@)
}

/// Reading back a stored claim record gives the same record, field for
/// field.
pub proof fn lemma_record_round_trip(r: DividendRecord)
    ensures
        encode_record(r).len() == DIVIDEND_RECORD_LEN,
        decode_record(encode_record(r)) == Some(record_fields(r)),
{
    lemma_fixed_lens(r.claimed, 0, 0, 0, r.amount_claimed, r.last_claim_time);
    let e = Seq::<u8>::empty();
    let t4 = r.reference@;
    let t3 = enc_i64(r.last_claim_time) + t4;
    let t2 = enc_bool(r.claimed) + t3;
    let t1 = enc_u64(r.amount_claimed) + t2;
    assert(encode_record(r) =~= r.holder@ + t1);
    lemma_address_round_trip(r.holder@, t1);
    lemma_u64_round_trip(r.amount_claimed, t2);
    lemma_bool_round_trip(r.claimed, t3);
    lemma_i64_round_trip(r.last_claim_time, t4);
    assert(t4 + e =~= t4);
    lemma_address_round_trip(r.reference@, e);
}

impl DividendRecord {
    /// The record's bytes: the fields in order.
    pub fn pack(&self) -> (r: Vec<u8>)
        ensures
            r@ == encode_record(*self),
            r@.len() == DIVIDEND_RECORD_LEN,
    {
        let mut out: Vec<u8> = Vec::new();
        proof {
            lemma_record_round_trip(*self);
        }
        write_address(&mut out, &self.holder);
        write_u64(&mut out, self.amount_claimed);
        write_bool(&mut out, self.claimed);
        write_i64(&mut out, self.last_claim_time);
        write_address(&mut out, &self.reference);
        assert(out@ =~= encode_record(*self));
        out
    }

    /// Reads a claim record. Fails on a record of the wrong size or whose
    /// fields do not decode.
    pub fn unpack(data: &[u8]) -> (r: Result<DividendRecord, RwaHubError>)
        ensures
            data@.len() != DIVIDEND_RECORD_LEN ==> r == Err::<DividendRecord, RwaHubError>(
                RwaHubError::InvalidAccountData,
            ),
            data@.len() == DIVIDEND_RECORD_LEN ==> match decode_record(data@) {
                Some(v) => r is Ok && record_fields(r->Ok_0) == v,
                None => r == Err::<DividendRecord, RwaHubError>(RwaHubError::InvalidAccountData),
            },
    {
        if data.len() != DIVIDEND_RECORD_LEN {
            return Err(RwaHubError::InvalidAccountData);
        }
        assert(tail(data@, 0) =~= data@);
        let bad = RwaHubError::InvalidAccountData;
        let (holder, p) = match read_address(data, 0) { Some(v) => v, None => { return Err(bad); } };
        let (amount_claimed, p) = match read_u64(data, p) { Some(v) => v, None => { return Err(bad); } };
        let (claimed, p) = match read_bool(data, p) { Some(v) => v, None => { return Err(bad); } };
        let (last_claim_time, p) = match read_i64(data, p) { Some(v) => v, None => { return Err(bad); } };
        let (reference, _) = match read_address(data, p) { Some(v) => v, None => { return Err(bad); } };
        Ok(DividendRecord { holder, amount_claimed, claimed, last_claim_time, reference })
    }
}

} // verus!
