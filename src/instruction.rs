use vstd::prelude::*;

use crate::codec::{
    dec_i64, dec_string, dec_u16, dec_u32, dec_u64, dec_u8, read_i64, read_string, read_u16,
    read_u32, read_u64, read_u8, tail,
};
use crate::error::RwaHubError;

verus! {

/// An operation submitted to the ledger: a zero byte, a tag byte naming the
/// operation, then its fields in the record encoding, and nothing after
/// them.
#[derive(Debug)]
pub enum RwaHubInstruction {
    /// Creates an asset and its custody vault, minting the whole supply
    /// into the vault.
    InitializeAsset { name: String, symbol: String, total_supply: u64, decimals: u8, price: u64 },
    /// Buys units of an asset.
    Buy { amount: u64 },
    /// Deposits dividend funds for an asset, creating its pool on the first
    /// deposit.
    Dividend { amount: u64, deadline: i64, platform_fee_bps: u16 },
    /// Claims a holder's dividend from a pool.
    ClaimDividend { amount: u64 },
    /// Records the holder count and the share excluded from payout.
    SetHoldersInfo { holder_count: u32, excluded_amount: u64 },
    /// Closes a pool.
    CloseDividend,
    /// Sets an asset's unit price.
    UpdatePrice { new_price: u64 },
    /// Sets the platform's fee rate on an asset's sales.
    UpdateFee { new_fee_bps: u16 },
}

pub enum InstructionView {
    InitializeAsset {
        name: Seq<char>,
        symbol: Seq<char>,
        total_supply: u64,
        decimals: u8,
        price: u64,
    },
    Buy { amount: u64 },
    Dividend { amount: u64, deadline: i64, platform_fee_bps: u16 },
    ClaimDividend { amount: u64 },
    SetHoldersInfo { holder_count: u32, excluded_amount: u64 },
    CloseDividend,
    UpdatePrice { new_price: u64 },
    UpdateFee { new_fee_bps: u16 },
}

impl View for RwaHubInstruction {
    type V = InstructionView;

    open spec fn view(&self) -> InstructionView {
        match self {
            RwaHubInstruction::InitializeAsset { name, symbol, total_supply, decimals, price } =>
                InstructionView::InitializeAsset {
                name: name@,
                symbol: symbol@,
                total_supply: *total_supply,
                decimals: *decimals,
                price: *price,
            },
            RwaHubInstruction::Buy { amount } => InstructionView::Buy { amount: *amount },
            RwaHubInstruction::Dividend { amount, deadline, platform_fee_bps } =>
                InstructionView::Dividend {
                amount: *amount,
                deadline: *deadline,
                platform_fee_bps: *platform_fee_bps,
            },
            RwaHubInstruction::ClaimDividend { amount } => InstructionView::ClaimDividend {
                amount: *amount,
            },
            RwaHubInstruction::SetHoldersInfo { holder_count, excluded_amount } =>
                InstructionView::SetHoldersInfo {
                holder_count: *holder_count,
                excluded_amount: *excluded_amount,
            },
            RwaHubInstruction::CloseDividend => InstructionView::CloseDividend,
            RwaHubInstruction::UpdatePrice { new_price } => InstructionView::UpdatePrice {
                new_price: *new_price,
            },
            RwaHubInstruction::UpdateFee { new_fee_bps } => InstructionView::UpdateFee {
                new_fee_bps: *new_fee_bps,
            },
        }
    }
}

/// `v` where nothing follows the fields.
pub open spec fn complete<T>(v: T, rest: Seq<u8>) -> Option<T> {
    if rest.len() == 0 {
        Some(v)
    } else {
        None
    }
}

pub open spec fn decode_instruction(s: Seq<u8>) -> Option<InstructionView> {
    match dec_u8(s) {
        None => None,
        Some((lead, s)) => if lead != 0 {
            None
        } else {
            decode_operation(s)
        },
    }
}

/// The operation after the leading zero byte.
pub open spec fn decode_operation(s: Seq<u8>) -> Option<InstructionView> {
    match dec_u8(s) {
        None => None,
        Some((tag, s)) => if tag == 0 {
            match dec_string(s) {
                None => None,
                Some((name, s)) => match dec_string(s) {
                    None => None,
                    Some((symbol, s)) => match dec_u64(s) {
                        None => None,
                        Some((total_supply, s)) => match dec_u8(s) {
                            None => None,
                            Some((decimals, s)) => match dec_u64(s) {
                                None => None,
                                Some((price, s)) => complete(
                                    InstructionView::InitializeAsset {
                                        name,
                                        symbol,
                                        total_supply,
                                        decimals,
                                        price,
                                    },
                                    s,
                                ),
                            },
                        },
                    },
                },
            }
        } else if tag == 1 {
            match dec_u64(s) {
                None => None,
                Some((amount, s)) => complete(InstructionView::Buy { amount }, s),
            }
        } else if tag == 2 {
            match dec_u64(s) {
                None => None,
                Some((amount, s)) => match dec_i64(s) {
                    None => None,
                    Some((deadline, s)) => match dec_u16(s) {
                        None => None,
                        Some((platform_fee_bps, s)) => complete(
                            InstructionView::Dividend { amount, deadline, platform_fee_bps },
                            s,
                        ),
                    },
                },
            }
        } else if tag == 3 {
            match dec_u64(s) {
                None => None,
                Some((amount, s)) => complete(InstructionView::ClaimDividend { amount }, s),
            }
        } else if tag == 4 {
            match dec_u32(s) {
                None => None,
                Some((holder_count, s)) => match dec_u64(s) {
                    None => None,
                    Some((excluded_amount, s)) => complete(
                        InstructionView::SetHoldersInfo { holder_count, excluded_amount },
                        s,
                    ),
                },
            }
        } else if tag == 5 {
            complete(InstructionView::CloseDividend, s)
        } else if tag == 6 {
            match dec_u64(s) {
                None => None,
                Some((new_price, s)) => complete(InstructionView::UpdatePrice { new_price }, s),
            }
        } else if tag == 7 {
            match dec_u16(s) {
                None => None,
                Some((new_fee_bps, s)) => complete(InstructionView::UpdateFee { new_fee_bps }, s),
            }
        } else {
            None
        }
    }
}

fn finish(data: &[u8], pos: usize, ins: RwaHubInstruction) -> (r: Result<
    RwaHubInstruction,
    RwaHubError,
>)
    requires
        pos <= data@.len(),
    ensures
        match complete(ins@, tail(data@, pos as int)) {
            Some(v) => r is Ok && r->Ok_0@ == v,
            None => r == Err::<RwaHubInstruction, RwaHubError>(RwaHubError::InvalidInstruction),
        },
{
    if pos == data.len() {
        Ok(ins)
    } else {
        Err(RwaHubError::InvalidInstruction)
    }
}

impl RwaHubInstruction {
    /// Decodes an operation. Fails on an empty input, a first byte other
    /// than zero, an unknown tag, fields that do not decode, and bytes left
    /// over after the fields.
    pub fn unpack(input: &[u8]) -> (r: Result<RwaHubInstruction, RwaHubError>)
        ensures
            match decode_instruction(input@) {
                Some(v) => r is Ok && r->Ok_0@ == v,
                None => r == Err::<RwaHubInstruction, RwaHubError>(RwaHubError::InvalidInstruction),
            },
    {
        assert(tail(input@, 0) =~= input@);
        let bad = RwaHubError::InvalidInstruction;
        let (lead, p) = match read_u8(input, 0) { Some(v) => v, None => { return Err(bad); } };
        if lead != 0 {
            return Err(bad);
        }
        let (tag, p) = match read_u8(input, p) { Some(v) => v, None => { return Err(bad); } };
        if tag == 0 {
            let (name, p) = match read_string(input, p) { Some(v) => v, None => { return Err(bad); } };
            let (symbol, p) = match read_string(input, p) { Some(v) => v, None => { return Err(bad); } };
            let (total_supply, p) = match read_u64(input, p) { Some(v) => v, None => { return Err(bad); } };
            let (decimals, p) = match read_u8(input, p) { Some(v) => v, None => { return Err(bad); } };
            let (price, p) = match read_u64(input, p) { Some(v) => v, None => { return Err(bad); } };
            finish(input, p, RwaHubInstruction::InitializeAsset { name, symbol, total_supply, decimals, price })
        } else if tag == 1 {
            let (amount, p) = match read_u64(input, p) { Some(v) => v, None => { return Err(bad); } };
            finish(input, p, RwaHubInstruction::Buy { amount })
        } else if tag == 2 {
            let (amount, p) = match read_u64(input, p) { Some(v) => v, None => { return Err(bad); } };
            let (deadline, p) = match read_i64(input, p) { Some(v) => v, None => { return Err(bad); } };
            let (platform_fee_bps, p) = match read_u16(input, p) { Some(v) => v, None => { return Err(bad); } };
            finish(input, p, RwaHubInstruction::Dividend { amount, deadline, platform_fee_bps })
        } else if tag == 3 {
            let (amount, p) = match read_u64(input, p) { Some(v) => v, None => { return Err(bad); } };
            finish(input, p, RwaHubInstruction::ClaimDividend { amount })
        } else if tag == 4 {
            let (holder_count, p) = match read_u32(input, p) { Some(v) => v, None => { return Err(bad); } };
            let (excluded_amount, p) = match read_u64(input, p) { Some(v) => v, None => { return Err(bad); } };
            finish(input, p, RwaHubInstruction::SetHoldersInfo { holder_count, excluded_amount })
        } else if tag == 5 {
            finish(input, p, RwaHubInstruction::CloseDividend)
        } else if tag == 6 {
            let (new_price, p) = match read_u64(input, p) { Some(v) => v, None => { return Err(bad); } };
            finish(input, p, RwaHubInstruction::UpdatePrice { new_price })
        } else if tag == 7 {
            let (new_fee_bps, p) = match read_u16(input, p) { Some(v) => v, None => { return Err(bad); } };
            finish(input, p, RwaHubInstruction::UpdateFee { new_fee_bps })
        } else {
            Err(bad)
        }
    }
}

} // verus!
