use vstd::prelude::*;

use crate::address::Address;
use crate::asset::{Asset, AssetView};
use crate::error::RwaHubError;
use crate::fee::{spec_split_fee, split_fee, FeeSplit, MAX_FEE_BPS};

verus! {

/// Cap on the holder-detail payload carried by a pool record.
pub const MAX_DETAILS_LEN: usize = 1000;

/// Bytes of a pool record besides the holder-detail payload.
pub const POOL_FIXED_LEN: usize = 120;

/// Size of the stored pool record.
pub const POOL_LEN: usize = 1120;

/// Size of the stored claim record.
pub const DIVIDEND_RECORD_LEN: usize = 81;

/// Dividend funds deposited for one asset, paid out to its holders. An
/// uninitialized record (all zero) stands for a pool not yet created.
#[derive(Clone, Debug)]
pub struct DividendPool {
    pub is_initialized: bool,
    pub creator: Address,
    pub asset_mint: Address,
    pub total_deposited: u64,
    /// What may be paid out: the deposits less any excluded share.
    pub distributable_amount: u64,
    pub remaining_amount: u64,
    pub holder_count: u32,
    pub claimed_count: u32,
    pub platform_fee_bps: u16,
    pub created_at: i64,
    pub deadline: i64,
    pub is_active: bool,
    pub details: Vec<u8>,
}

pub struct DividendPoolView {
    pub is_initialized: bool,
    pub creator: Seq<u8>,
    pub asset_mint: Seq<u8>,
    pub total_deposited: u64,
    pub distributable_amount: u64,
    pub remaining_amount: u64,
    pub holder_count: u32,
    pub claimed_count: u32,
    pub platform_fee_bps: u16,
    pub created_at: i64,
    pub deadline: i64,
    pub is_active: bool,
    pub details: Seq<u8>,
}

impl View for DividendPool {
    type V = DividendPoolView;

    open spec fn view(&self) -> DividendPoolView {
        DividendPoolView {
            is_initialized: self.is_initialized,
            creator: self.creator@,
            asset_mint: self.asset_mint@,
            total_deposited: self.total_deposited,
            distributable_amount: self.distributable_amount,
            remaining_amount: self.remaining_amount,
            holder_count: self.holder_count,
            claimed_count: self.claimed_count,
            platform_fee_bps: self.platform_fee_bps,
            created_at: self.created_at,
            deadline: self.deadline,
            is_active: self.is_active,
            details: self.details@,
        }
    }
}

impl DividendPoolView {
    /// The record's invariant once created.
    pub open spec fn wf(self) -> bool {
        self.is_initialized ==> {
            &&& self.remaining_amount <= self.distributable_amount <= self.total_deposited
            &&& self.platform_fee_bps <= MAX_FEE_BPS
            &&& self.details.len() <= MAX_DETAILS_LEN
        }
    }
}

/// One holder's claim on one pool. An all-zero record stands for a holder
/// who has not claimed.
#[derive(Clone, Copy, Debug)]
pub struct DividendRecord {
    pub holder: Address,
    pub amount_claimed: u64,
    pub claimed: bool,
    pub last_claim_time: i64,
    /// Reference of the transaction that paid the claim.
    pub reference: Address,
}

/// What a deposit does to the asset's pool, and how the amount splits
/// between the platform's fee and the dividend itself.
pub open spec fn spec_create_dividend(
    pool: DividendPoolView,
    asset: AssetView,
    caller: Seq<u8>,
    caller_signed: bool,
    amount: u64,
    deadline: i64,
    platform_fee_bps: u16,
    now: i64,
) -> Result<(DividendPoolView, FeeSplit), RwaHubError> {
    if !caller_signed {
        Err(RwaHubError::Unauthorized)
    } else if !asset.is_initialized {
        Err(RwaHubError::AssetNotFound)
    } else if caller != asset.owner {
        Err(RwaHubError::Unauthorized)
    } else if amount == 0 {
        Err(RwaHubError::InvalidDividendAmount)
    } else if platform_fee_bps > MAX_FEE_BPS {
        Err(RwaHubError::InvalidFeeAmount)
    } else if deadline <= now {
        Err(RwaHubError::InvalidDeadline)
    } else if !pool.is_initialized {
        match spec_split_fee(amount, platform_fee_bps) {
            Ok(split) => Ok(
                (
                    DividendPoolView {
                        is_initialized: true,
                        creator: caller,
                        asset_mint: asset.mint,
                        total_deposited: split.net,
                        distributable_amount: split.net,
                        remaining_amount: split.net,
                        holder_count: 0,
                        claimed_count: 0,
                        platform_fee_bps,
                        created_at: now,
                        deadline,
                        is_active: true,
                        details: Seq::empty(),
                    },
                    split,
                ),
            ),
            Err(e) => Err(e),
        }
    } else if !pool.is_active {
        Err(RwaHubError::DividendNotActive)
    } else if pool.asset_mint != asset.mint {
        Err(RwaHubError::InvalidAssetState)
    } else if caller != pool.creator {
        Err(RwaHubError::Unauthorized)
    } else {
        match spec_split_fee(amount, pool.platform_fee_bps) {
            Ok(split) => if pool.total_deposited + split.net > u64::MAX
                || pool.distributable_amount + split.net > u64::MAX || pool.remaining_amount
                + split.net > u64::MAX {
                Err(RwaHubError::ArithmeticOverflow)
            } else {
                Ok(
                    (
                        DividendPoolView {
                            total_deposited: (pool.total_deposited + split.net) as u64,
                            distributable_amount: (pool.distributable_amount + split.net) as u64,
                            remaining_amount: (pool.remaining_amount + split.net) as u64,
                            ..pool
                        },
                        split,
                    ),
                )
            },
            Err(e) => Err(e),
        }
    }
}

/// Deposits dividend funds for an asset; only its owner may. The first
/// deposit creates the asset's pool with the given deadline and fee rate;
/// later ones, while the pool is open, add to it at the pool's own rate. The
/// fee goes to the platform and the rest into the pool's custody. On failure
/// nothing changes.
pub fn create_dividend(
    pool: &mut DividendPool,
    asset: &Asset,
    caller: &Address,
    caller_signed: bool,
    amount: u64,
    deadline: i64,
    platform_fee_bps: u16,
    now: i64,
) -> (r: Result<FeeSplit, RwaHubError>)
    ensures
        match spec_create_dividend(
            old(pool)@,
            asset@,
            caller@,
            caller_signed,
            amount,
            deadline,
            platform_fee_bps,
            now,
        ) {
            Ok((v, split)) => r == Ok::<FeeSplit, RwaHubError>(split) && final(pool)@ == v,
            Err(e) => r == Err::<FeeSplit, RwaHubError>(e) && *final(pool) == *old(pool),
        },
        r is Ok ==> r->Ok_0.fee + r->Ok_0.net == amount,
        old(pool)@.wf() ==> final(pool)@.wf(),
{
    if !caller_signed {
        return Err(RwaHubError::Unauthorized);
    }
    if !asset.is_initialized {
        return Err(RwaHubError::AssetNotFound);
    }
    if !caller.same_as(&asset.owner) {
        return Err(RwaHubError::Unauthorized);
    }
    if amount == 0 {
        return Err(RwaHubError::InvalidDividendAmount);
    }
    if platform_fee_bps > MAX_FEE_BPS {
        return Err(RwaHubError::InvalidFeeAmount);
    }
    if deadline <= now {
        return Err(RwaHubError::InvalidDeadline);
    }
    if !pool.is_initialized {
        let split = split_fee(amount, platform_fee_bps)?;
        *pool = DividendPool {
            is_initialized: true,
            creator: *caller,
            asset_mint: asset.mint,
            total_deposited: split.net,
            distributable_amount: split.net,
            remaining_amount: split.net,
            holder_count: 0,
            claimed_count: 0,
            platform_fee_bps,
            created_at: now,
            deadline,
            is_active: true,
            details: Vec::new(),
        };
        assert(pool.details@ =~= Seq::<u8>::empty());
        return Ok(split);
    }
    if !pool.is_active {
        return Err(RwaHubError::DividendNotActive);
    }
    if !pool.asset_mint.same_as(&asset.mint) {
        return Err(RwaHubError::InvalidAssetState);
    }
    if !caller.same_as(&pool.creator) {
        return Err(RwaHubError::Unauthorized);
    }
    let split = split_fee(amount, pool.platform_fee_bps)?;
    let total = match pool.total_deposited.checked_add(split.net) {
        Some(v) => v,
        None => {
            return Err(RwaHubError::ArithmeticOverflow);
        },
    };
    let distributable = match pool.distributable_amount.checked_add(split.net) {
        Some(v) => v,
        None => {
            return Err(RwaHubError::ArithmeticOverflow);
        },
    };
    let remaining = match pool.remaining_amount.checked_add(split.net) {
        Some(v) => v,
        None => {
            return Err(RwaHubError::ArithmeticOverflow);
        },
    };
    pool.total_deposited = total;
    pool.distributable_amount = distributable;
    pool.remaining_amount = remaining;
    Ok(split)
}

/// What may be paid out given the deposits and the excluded share: the
/// deposits less `excluded_amount` where that lies strictly between zero and
/// the deposits, the deposits otherwise.
pub open spec fn distributable_after_exclusion(total_deposited: u64, excluded_amount: u64) -> u64 {
    if 0 < excluded_amount && excluded_amount < total_deposited {
        (total_deposited - excluded_amount) as u64
    } else {
        total_deposited
    }
}

/// What the pool has paid out of its distributable amount so far.
pub open spec fn paid_out(pool: DividendPoolView) -> int {
    pool.distributable_amount - pool.remaining_amount
}

/// What recording the holder count and the excluded share does to a pool.
pub open spec fn spec_set_holders_info(
    pool: DividendPoolView,
    caller: Seq<u8>,
    caller_signed: bool,
    holder_count: u32,
    excluded_amount: u64,
) -> Result<DividendPoolView, RwaHubError> {
    if !pool.is_initialized {
        Err(RwaHubError::DividendNotActive)
    } else if !caller_signed || caller != pool.creator {
        Err(RwaHubError::Unauthorized)
    } else if pool.remaining_amount > pool.distributable_amount {
        Err(RwaHubError::InvalidAssetState)
    } else if distributable_after_exclusion(pool.total_deposited, excluded_amount) < paid_out(pool) {
        Err(RwaHubError::InvalidDividendAmount)
    } else {
        let distributable = distributable_after_exclusion(pool.total_deposited, excluded_amount);
        Ok(
            DividendPoolView {
                holder_count,
                distributable_amount: distributable,
                remaining_amount: (distributable - paid_out(pool)) as u64,
                ..pool
            },
        )
    }
}

/// Records the number of holders and excludes the issuer's unsold share from
/// what may be paid out: the distributable amount becomes the deposits less
/// `excluded_amount` where that is strictly between zero and the deposits,
/// and the deposits otherwise. What remains to be paid moves with it, so
/// that what was already paid stays counted against the new amount; an
/// exclusion that would leave less distributable than was already paid is
/// refused. Only the pool's creator may.
pub fn set_holders_info(
    pool: &mut DividendPool,
    caller: &Address,
    caller_signed: bool,
    holder_count: u32,
    excluded_amount: u64,
) -> (r: Result<(), RwaHubError>)
    ensures
        match spec_set_holders_info(old(pool)@, caller@, caller_signed, holder_count, excluded_amount) {
            Ok(v) => r is Ok && final(pool)@ == v,
            Err(e) => r == Err::<(), RwaHubError>(e) && *final(pool) == *old(pool),
        },
        old(pool)@.wf() ==> final(pool)@.wf(),
        r is Ok ==> paid_out(final(pool)@) == paid_out(old(pool)@),
{
    if !pool.is_initialized {
        return Err(RwaHubError::DividendNotActive);
    }
    if !caller_signed || !caller.same_as(&pool.creator) {
        return Err(RwaHubError::Unauthorized);
    }
    if pool.remaining_amount > pool.distributable_amount {
        return Err(RwaHubError::InvalidAssetState);
    }
    let paid = pool.distributable_amount - pool.remaining_amount;
    let distributable = if excluded_amount > 0 && excluded_amount < pool.total_deposited {
        pool.total_deposited - excluded_amount
    } else {
        pool.total_deposited
    };
    if distributable < paid {
        return Err(RwaHubError::InvalidDividendAmount);
    }
    pool.holder_count = holder_count;
    pool.distributable_amount = distributable;
    pool.remaining_amount = distributable - paid;
    Ok(())
}

/// What closing does to a pool.
pub open spec fn spec_close_dividend(
    pool: DividendPoolView,
    caller: Seq<u8>,
    caller_signed: bool,
) -> Result<DividendPoolView, RwaHubError> {
    if !pool.is_initialized {
        Err(RwaHubError::DividendNotActive)
    } else if !caller_signed || caller != pool.creator {
        Err(RwaHubError::Unauthorized)
    } else {
        Ok(DividendPoolView { is_active: false, ..pool })
    }
}

/// Closes a pool for good: no claim is accepted afterwards, and the records
/// of claims already paid stay as they are. Only the pool's creator may.
pub fn close_dividend(pool: &mut DividendPool, caller: &Address, caller_signed: bool) -> (r: Result<
    (),
    RwaHubError,
>)
    ensures
        match spec_close_dividend(old(pool)@, caller@, caller_signed) {
            Ok(v) => r is Ok && final(pool)@ == v,
            Err(e) => r == Err::<(), RwaHubError>(e) && *final(pool) == *old(pool),
        },
        old(pool)@.wf() ==> final(pool)@.wf(),
{
    if !pool.is_initialized {
        return Err(RwaHubError::DividendNotActive);
    }
    if !caller_signed || !caller.same_as(&pool.creator) {
        return Err(RwaHubError::Unauthorized);
    }
    pool.is_active = false;
    Ok(())
}

/// What a claim of `amount` by `holder` does to the pool and to the holder's
/// record, given whether that record is already claimed.
pub open spec fn spec_claim_dividend(
    pool: DividendPoolView,
    already_claimed: bool,
    holder: Address,
    holder_signed: bool,
    amount: u64,
    now: i64,
    reference: Address,
) -> Result<(DividendPoolView, DividendRecord), RwaHubError> {
    if already_claimed {
        Err(RwaHubError::AlreadyClaimed)
    } else if !holder_signed {
        Err(RwaHubError::Unauthorized)
    } else if !pool.is_initialized || !pool.is_active {
        Err(RwaHubError::DividendNotActive)
    } else if now > pool.deadline {
        Err(RwaHubError::DividendExpired)
    } else if pool.remaining_amount < amount {
        Err(RwaHubError::InsufficientDividendBalance)
    } else if pool.claimed_count == u32::MAX {
        Err(RwaHubError::ArithmeticOverflow)
    } else {
        Ok(
            (
                DividendPoolView {
                    remaining_amount: (pool.remaining_amount - amount) as u64,
                    claimed_count: (pool.claimed_count + 1) as u32,
                    ..pool
                },
                DividendRecord {
                    holder,
                    amount_claimed: amount,
                    claimed: true,
                    last_claim_time: now,
                    reference,
                },
            ),
        )
    }
}

/// Pays `amount` of the pool to `holder`, once: the holder's record is
/// marked claimed, and a record already claimed refuses any further claim.
/// The pool must be open and before its deadline, and hold at least `amount`.
/// The caller moves `amount` from the pool's custody to the holder. On
/// failure nothing changes.
pub fn claim_dividend(
    pool: &mut DividendPool,
    record: &mut DividendRecord,
    holder: &Address,
    holder_signed: bool,
    amount: u64,
    now: i64,
    reference: &Address,
) -> (r: Result<(), RwaHubError>)
    ensures
        match spec_claim_dividend(
            old(pool)@,
            old(record).claimed,
            *holder,
            holder_signed,
            amount,
            now,
            *reference,
        ) {
            Ok((v, rec)) => r is Ok && final(pool)@ == v && *final(record) == rec,
            Err(e) => r == Err::<(), RwaHubError>(e) && *final(pool) == *old(pool) && *final(record)
                == *old(record),
        },
        old(pool)@.wf() ==> final(pool)@.wf(),
        final(pool).remaining_amount <= old(pool).remaining_amount,
{
    if record.claimed {
        return Err(RwaHubError::AlreadyClaimed);
    }
    if !holder_signed {
        return Err(RwaHubError::Unauthorized);
    }
    if !pool.is_initialized || !pool.is_active {
        return Err(RwaHubError::DividendNotActive);
    }
    if now > pool.deadline {
        return Err(RwaHubError::DividendExpired);
    }
    if pool.remaining_amount < amount {
        return Err(RwaHubError::InsufficientDividendBalance);
    }
    if pool.claimed_count == u32::MAX {
        return Err(RwaHubError::ArithmeticOverflow);
    }
    pool.remaining_amount = pool.remaining_amount - amount;
    pool.claimed_count = pool.claimed_count + 1;
    *record = DividendRecord {
        holder: *holder,
        amount_claimed: amount,
        claimed: true,
        last_claim_time: now,
        reference: *reference,
    };
    Ok(())
}

/// One operation on a pool, as a run of them is modelled.
pub enum PoolStep {
    Deposit {
        asset: AssetView,
        caller: Seq<u8>,
        caller_signed: bool,
        amount: u64,
        deadline: i64,
        platform_fee_bps: u16,
        now: i64,
    },
    SetHoldersInfo { caller: Seq<u8>, caller_signed: bool, holder_count: u32, excluded_amount: u64 },
    Close { caller: Seq<u8>, caller_signed: bool },
    Claim { holder: Address, holder_signed: bool, amount: u64, now: i64, reference: Address },
}

/// Whether `holder`'s record in `records` is claimed.
pub open spec fn holder_claimed(records: Map<Seq<u8>, DividendRecord>, holder: Seq<u8>) -> bool {
    records.contains_key(holder) && records[holder].claimed
}

/// The pool and the holders' records (keyed by holder) after the operations
/// of `steps` in order, with the holders paid, in the order they were paid.
/// A refused operation changes nothing.
pub open spec fn run_pool(
    pool: DividendPoolView,
    records: Map<Seq<u8>, DividendRecord>,
    steps: Seq<PoolStep>,
) -> (DividendPoolView, Map<Seq<u8>, DividendRecord>, Seq<Seq<u8>>)
    decreases steps.len(),
{
    if steps.len() == 0 {
        (pool, records, Seq::empty())
    } else {
        let (before, recs, paid) = run_pool(pool, records, steps.drop_last());
        match steps.last() {
            PoolStep::Deposit {
                asset,
                caller,
                caller_signed,
                amount,
                deadline,
                platform_fee_bps,
                now,
            } => match spec_create_dividend(
                before,
                asset,
                caller,
                caller_signed,
                amount,
                deadline,
                platform_fee_bps,
                now,
            ) {
                Ok((after, _)) => (after, recs, paid),
                Err(_) => (before, recs, paid),
            },
            PoolStep::SetHoldersInfo { caller, caller_signed, holder_count, excluded_amount } =>
                match spec_set_holders_info(
                before,
                caller,
                caller_signed,
                holder_count,
                excluded_amount,
            ) {
                Ok(after) => (after, recs, paid),
                Err(_) => (before, recs, paid),
            },
            PoolStep::Close { caller, caller_signed } => match spec_close_dividend(
                before,
                caller,
                caller_signed,
            ) {
                Ok(after) => (after, recs, paid),
                Err(_) => (before, recs, paid),
            },
            PoolStep::Claim { holder, holder_signed, amount, now, reference } =>
                match spec_claim_dividend(
                before,
                holder_claimed(recs, holder@),
                holder,
                holder_signed,
                amount,
                now,
                reference,
            ) {
                Ok((after, rec)) => (after, recs.insert(holder@, rec), paid.push(holder@)),
                Err(_) => (before, recs, paid),
            },
        }
    }
}

/// What a pool had paid out before a run: nothing where the run creates it.
pub open spec fn paid_before(pool: DividendPoolView) -> int {
    if pool.is_initialized {
        paid_out(pool)
    } else {
        0
    }
}

/// The sum of what the records of `holders` say was claimed.
pub open spec fn total_claimed(records: Map<Seq<u8>, DividendRecord>, holders: Seq<Seq<u8>>) -> int
    decreases holders.len(),
{
    if holders.len() == 0 {
        0
    } else {
        total_claimed(records, holders.drop_last()) + records[holders.last()].amount_claimed
    }
}

proof fn lemma_total_claimed_other(
    records: Map<Seq<u8>, DividendRecord>,
    holders: Seq<Seq<u8>>,
    holder: Seq<u8>,
    rec: DividendRecord,
)
    requires
        !holders.contains(holder),
    ensures
        total_claimed(records.insert(holder, rec), holders) == total_claimed(records, holders),
    decreases holders.len(),
{
    if holders.len() > 0 {
        assert(!holders.drop_last().contains(holder)) by {
            if holders.drop_last().contains(holder) {
                let k = choose|k: int| 0 <= k < holders.drop_last().len() && holders.drop_last()[k]
                    == holder;
                assert(holders[k] == holder);
            }
        }
        lemma_total_claimed_other(records, holders.drop_last(), holder, rec);
    }
}

/// A claim never raises what remains in the pool: a paid claim lowers it by
/// exactly the amount paid, and leaves the distributable amount alone.
pub proof fn lemma_claim_lowers_remaining(
    pool: DividendPoolView,
    already_claimed: bool,
    holder: Address,
    holder_signed: bool,
    amount: u64,
    now: i64,
    reference: Address,
)
    ensures
        match spec_claim_dividend(pool, already_claimed, holder, holder_signed, amount, now, reference) {
            Ok((after, rec)) => {
                &&& after.remaining_amount == pool.remaining_amount - amount
                &&& after.distributable_amount == pool.distributable_amount
                &&& rec.amount_claimed == amount
            },
            Err(_) => true,
        },
{
}

/// Over any run of deposits, holder-info updates, closes and claims on a
/// pool, from its creation on or from any well-formed state: the pool stays
/// well formed, no holder is paid twice, each holder paid has a claimed
/// record, and what the paid holders' records say was claimed is exactly
/// what the pool paid out during the run. So the sum claimed across holders
/// never exceeds the distributable amount.
pub proof fn lemma_claims_within_distributable(
    pool: DividendPoolView,
    records: Map<Seq<u8>, DividendRecord>,
    steps: Seq<PoolStep>,
)
    requires
        pool.wf(),
    ensures
        ({
            let (after, recs, paid) = run_pool(pool, records, steps);
            &&& after.wf()
            &&& pool.is_initialized ==> after.is_initialized
            &&& paid.no_duplicates()
            &&& forall|k: int| 0 <= k < paid.len() ==> holder_claimed(recs, #[trigger] paid[k])
            &&& !after.is_initialized ==> paid.len() == 0
            &&& after.is_initialized ==> total_claimed(recs, paid) + paid_before(pool) == paid_out(
                after,
            )
            &&& total_claimed(recs, paid) <= after.distributable_amount
        }),
    decreases steps.len(),
{
    if steps.len() > 0 {
        lemma_claims_within_distributable(pool, records, steps.drop_last());
        let (before, recs, paid) = run_pool(pool, records, steps.drop_last());
        lemma_total_claimed_nonnegative(recs, paid);
        match steps.last() {
            PoolStep::Claim { holder, holder_signed, amount, now, reference } => {
                match spec_claim_dividend(
                    before,
                    holder_claimed(recs, holder@),
                    holder,
                    holder_signed,
                    amount,
                    now,
                    reference,
                ) {
                    Ok((after, rec)) => {
                        let h = holder@;
                        assert(!paid.contains(h)) by {
                            if paid.contains(h) {
                                let k = choose|k: int| 0 <= k < paid.len() && paid[k] == h;
                                assert(holder_claimed(recs, paid[k]));
                            }
                        }
                        lemma_total_claimed_other(recs, paid, h, rec);
                        let recs2 = recs.insert(h, rec);
                        let paid2 = paid.push(h);
                        assert(paid2.drop_last() =~= paid);
                        assert(total_claimed(recs2, paid2) == total_claimed(recs2, paid)
                            + rec.amount_claimed);
                        assert forall|k: int| 0 <= k < paid2.len() implies holder_claimed(
                            recs2,
                            #[trigger] paid2[k],
                        ) by {
                            if k < paid.len() {
                                assert(paid2[k] == paid[k]);
                            }
                        }
                    },
                    Err(_) => {},
                }
            },
            _ => {},
        }
        let (after, recs3, paid3) = run_pool(pool, records, steps);
        lemma_total_claimed_nonnegative(recs3, paid3);
    }
}

proof fn lemma_total_claimed_nonnegative(records: Map<Seq<u8>, DividendRecord>, holders: Seq<Seq<u8>>)
    ensures
        total_claimed(records, holders) >= 0,
    decreases holders.len(),
{
    if holders.len() > 0 {
        lemma_total_claimed_nonnegative(records, holders.drop_last());
    }
}

/// A holder's claim on a pool succeeds at most once: once paid, the record
/// refuses any further claim as already claimed, signed or not and whatever
/// the pool then holds (and a refused claim changes nothing).
pub proof fn lemma_second_claim_refused(
    pool: DividendPoolView,
    already_claimed: bool,
    holder: Address,
    amount: u64,
    now: i64,
    reference: Address,
    later_pool: DividendPoolView,
    later_holder: Address,
    later_signed: bool,
    second_amount: u64,
    later: i64,
    second_reference: Address,
)
    requires
        spec_claim_dividend(pool, already_claimed, holder, true, amount, now, reference) is Ok,
    ensures
        spec_claim_dividend(
            later_pool,
            spec_claim_dividend(
                pool,
                already_claimed,
                holder,
                true,
                amount,
                now,
                reference,
            )->Ok_0.1.claimed,
            later_holder,
            later_signed,
            second_amount,
            later,
            second_reference,
        ) == Err::<(DividendPoolView, DividendRecord), RwaHubError>(RwaHubError::AlreadyClaimed),
{
}

} // verus!
