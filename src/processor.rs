use crate::authority::{check_pool_authority, is_pool_authority};
use crate::curve::{spec_curve, Curve};
use crate::error::AppError;
use crate::key::Key;
use crate::state::{AccountRef, Network, NetworkState, Pool, LPT, MAX_MINTS};
use vstd::prelude::*;

verus! {

/// Trading fee numerator: 0.25%.
pub const FEE: u64 = 2500000;

/// Protocol earn numerator: 0.05%.
pub const EARN: u64 = 500000;

/// Denominator of both fee rates.
pub const FEE_DECIMALS: u64 = 1000000000;

/// The operation handlers.
pub struct Processor {}

/// Trading fee on a gross output.
pub open spec fn spec_fee(gross: int) -> int {
    gross * FEE / FEE_DECIMALS as int
}

/// Protocol earn fee on a gross output; waived when the bought asset is primary.
pub open spec fn spec_earn(gross: int, is_primary: bool) -> int {
    if is_primary {
        0
    } else {
        gross * EARN / FEE_DECIMALS as int
    }
}

/// Splits the gross output `reserve - new_reserve` into the reserve kept with
/// the trading fee, the payout, the fee and the earn fee.
pub open spec fn spec_apply_fee(new_reserve: u64, reserve: u64, is_primary: bool) -> Option<(u64, u64, u64, u64)> {
    if new_reserve > reserve {
        None
    } else {
        let gross = reserve - new_reserve;
        let fee = spec_fee(gross);
        let earn = spec_earn(gross, is_primary);
        Some(((new_reserve + fee) as u64, (gross - fee - earn) as u64, fee as u64, earn as u64))
    }
}

/// Shares minted for a deposit of `reserve` into a pool holding `pool_reserve`
/// against `pool_lpt` shares.
pub open spec fn spec_minted(pool_lpt: u128, pool_reserve: u64, reserve: u64) -> int {
    pool_lpt * reserve / pool_reserve as int
}

/// Reserve paid out for burning `lpt` shares of a pool holding `pool_reserve`
/// against `pool_lpt` shares.
pub open spec fn spec_payout(pool_reserve: u64, pool_lpt: u128, lpt: u128) -> int {
    pool_reserve * lpt / pool_lpt as int
}

/// The first failing precondition of a deposit, if any.
pub open spec fn add_liquidity_check(
    program_id: Key,
    owner: AccountRef,
    pool_acc: AccountRef,
    treasury: Key,
    lpt_acc: AccountRef,
    pool: Pool,
    account: LPT,
    reserve: u64,
) -> Option<AppError> {
    if pool_acc.owner@ != program_id@ || lpt_acc.owner@ != program_id@ {
        Some(AppError::IncorrectProgramId)
    } else if !pool.is_initialized || !account.is_initialized {
        Some(AppError::NotInitialized)
    } else if !owner.is_signer || pool.treasury@ != treasury@ || account.owner@ != owner.key@ {
        Some(AppError::InvalidOwner)
    } else if account.pool@ != pool_acc.key@ {
        Some(AppError::UnmatchedPool)
    } else if reserve == 0 {
        Some(AppError::ZeroValue)
    } else {
        None
    }
}

/// Shares minted by a deposit, or why it fails.
pub open spec fn add_liquidity_outcome(
    program_id: Key,
    owner: AccountRef,
    pool_acc: AccountRef,
    treasury: Key,
    lpt_acc: AccountRef,
    pool: Pool,
    account: LPT,
    reserve: u64,
) -> Result<u128, AppError> {
    match add_liquidity_check(program_id, owner, pool_acc, treasury, lpt_acc, pool, account, reserve) {
        Some(e) => Err(e),
        None => {
            if pool.lpt * reserve > u128::MAX || pool.reserve == 0 {
                Err(AppError::Overflow)
            } else {
                let minted = spec_minted(pool.lpt, pool.reserve, reserve);
                if pool.reserve + reserve > u64::MAX || pool.lpt + minted > u128::MAX
                    || account.lpt + minted > u128::MAX {
                    Err(AppError::Overflow)
                } else {
                    Ok(minted as u128)
                }
            }
        }
    }
}

/// The first failing precondition of a withdrawal, if any.
pub open spec fn remove_liquidity_check(
    program_id: Key,
    owner: AccountRef,
    pool_acc: AccountRef,
    treasury: Key,
    lpt_acc: AccountRef,
    treasurer: Key,
    pool: Pool,
    account: LPT,
    lpt: u128,
) -> Option<AppError> {
    if pool_acc.owner@ != program_id@ || lpt_acc.owner@ != program_id@ {
        Some(AppError::IncorrectProgramId)
    } else if !pool.is_initialized || !account.is_initialized {
        Some(AppError::NotInitialized)
    } else if !owner.is_signer || pool.treasury@ != treasury@ || account.owner@ != owner.key@
        || !is_pool_authority(pool_acc.key, program_id, treasurer) {
        Some(AppError::InvalidOwner)
    } else if account.pool@ != pool_acc.key@ {
        Some(AppError::UnmatchedPool)
    } else if lpt == 0 {
        Some(AppError::ZeroValue)
    } else if account.lpt < lpt {
        Some(AppError::InsufficientFunds)
    } else {
        None
    }
}

/// Reserve paid out by a withdrawal, or why it fails.
pub open spec fn remove_liquidity_outcome(
    program_id: Key,
    owner: AccountRef,
    pool_acc: AccountRef,
    treasury: Key,
    lpt_acc: AccountRef,
    treasurer: Key,
    pool: Pool,
    account: LPT,
    lpt: u128,
) -> Result<u64, AppError> {
    match remove_liquidity_check(
        program_id,
        owner,
        pool_acc,
        treasury,
        lpt_acc,
        treasurer,
        pool,
        account,
        lpt,
    ) {
        Some(e) => Err(e),
        None => {
            if pool.reserve * lpt > u128::MAX || pool.lpt == 0 {
                Err(AppError::Overflow)
            } else {
                let payout = spec_payout(pool.reserve, pool.lpt, lpt);
                if payout > pool.reserve || lpt > pool.lpt {
                    Err(AppError::Overflow)
                } else {
                    Ok(payout as u64)
                }
            }
        }
    }
}

/// The accounts of one pool taking part in a swap: the pool record's
/// account, its treasury, and the authority presented for the treasury.
#[derive(Clone, Copy, Debug)]
pub struct PoolRefs {
    pub account: AccountRef,
    pub treasury: Key,
    pub treasurer: Key,
}

/// Token movements decided by a swap.
#[derive(Clone, Copy, Debug, PartialEq, Eq, Structural)]
pub struct SwapReceipt {
    /// Moved from the trader into the bid treasury.
    pub amount: u64,
    /// Moved from the ask treasury to the trader.
    pub payout: u64,
    /// Trading fee kept in the ask pool.
    pub fee: u64,
    /// Earn fee, in ask units, kept in the ask pool.
    pub earn: u64,
    /// Earn fee converted to settlement units, moved from the settlement
    /// treasury to the protocol vault.
    pub earn_in_settlement: u64,
}

/// The receipt of a swap that moves nothing.
pub open spec fn empty_receipt() -> SwapReceipt {
    SwapReceipt { amount: 0, payout: 0, fee: 0, earn: 0, earn_in_settlement: 0 }
}

/// The first failing precondition of a swap, if any.
pub open spec fn swap_check(
    program_id: Key,
    owner: AccountRef,
    bid_refs: PoolRefs,
    ask_refs: PoolRefs,
    sen_refs: PoolRefs,
    bid: Pool,
    ask: Pool,
    sen: Pool,
    amount: u64,
) -> Option<AppError> {
    if bid_refs.account.owner@ != program_id@ || ask_refs.account.owner@ != program_id@
        || sen_refs.account.owner@ != program_id@ {
        Some(AppError::IncorrectProgramId)
    } else if !bid.is_initialized || !ask.is_initialized || !sen.is_initialized {
        Some(AppError::NotInitialized)
    } else if !owner.is_signer || bid.treasury@ != bid_refs.treasury@ || ask.treasury@
        != ask_refs.treasury@ || !is_pool_authority(
        ask_refs.account.key,
        program_id,
        ask_refs.treasurer,
    ) || sen.treasury@ != sen_refs.treasury@ || !is_pool_authority(
        sen_refs.account.key,
        program_id,
        sen_refs.treasurer,
    ) {
        Some(AppError::InvalidOwner)
    } else if sen.network@ != bid.network@ || sen.network@ != ask.network@ {
        Some(AppError::IncorrectNetworkId)
    } else if amount == 0 {
        Some(AppError::ZeroValue)
    } else {
        None
    }
}

/// The pool records after a swap between distinct bid and ask pools, and its
/// receipt, or why it fails.
///
/// The settlement pool may be the bid or the ask pool itself; the earn fee is
/// then taken from that one record.
pub open spec fn swap_transition(
    bid_key: Key,
    ask_key: Key,
    sen_key: Key,
    bid: Pool,
    ask: Pool,
    sen: Pool,
    amount: u64,
) -> Result<(Pool, Pool, Pool, SwapReceipt), AppError> {
    if bid.reserve + amount > u64::MAX {
        Err(AppError::Overflow)
    } else {
        let new_bid_reserve = (bid.reserve + amount) as u64;
        match spec_curve(new_bid_reserve, bid.reserve, bid.lpt, ask.reserve, ask.lpt) {
            None => Err(AppError::Overflow),
            Some(without_fee) => match spec_apply_fee(
                without_fee,
                ask.reserve,
                ask.mint@ == Key::spec_primary(),
            ) {
                None => Err(AppError::Overflow),
                Some((with_fee, payout, fee, earn)) => {
                    if with_fee + earn > u64::MAX {
                        Err(AppError::Overflow)
                    } else {
                        let new_ask_reserve = (with_fee + earn) as u64;
                        let bid1 = Pool { reserve: new_bid_reserve, ..bid };
                        let ask1 = Pool { reserve: new_ask_reserve, ..ask };
                        let receipt = SwapReceipt {
                            amount,
                            payout,
                            fee,
                            earn,
                            earn_in_settlement: 0,
                        };
                        if earn == 0 {
                            Ok((bid1, ask1, sen, receipt))
                        } else {
                            let settle = if sen_key@ == bid_key@ {
                                bid1
                            } else if sen_key@ == ask_key@ {
                                ask1
                            } else {
                                sen
                            };
                            match spec_curve(
                                new_ask_reserve,
                                with_fee,
                                ask.lpt,
                                settle.reserve,
                                settle.lpt,
                            ) {
                                None => Err(AppError::Overflow),
                                Some(earn_in_settlement) => {
                                    if earn_in_settlement > settle.reserve {
                                        Err(AppError::Overflow)
                                    } else {
                                        let settled = Pool {
                                            reserve: (settle.reserve - earn_in_settlement) as u64,
                                            ..settle
                                        };
                                        let receipt = SwapReceipt {
                                            earn_in_settlement,
                                            ..receipt
                                        };
                                        if sen_key@ == bid_key@ {
                                            Ok((settled, ask1, sen, receipt))
                                        } else if sen_key@ == ask_key@ {
                                            Ok((bid1, settled, sen, receipt))
                                        } else {
                                            Ok((bid1, ask1, settled, receipt))
                                        }
                                    }
                                }
                            }
                        }
                    }
                }
            },
        }
    }
}

/// The pool records after a swap and its receipt, or why it fails.
pub open spec fn swap_outcome(
    program_id: Key,
    owner: AccountRef,
    bid_refs: PoolRefs,
    ask_refs: PoolRefs,
    sen_refs: PoolRefs,
    bid: Pool,
    ask: Pool,
    sen: Pool,
    amount: u64,
) -> Result<(Pool, Pool, Pool, SwapReceipt), AppError> {
    match swap_check(program_id, owner, bid_refs, ask_refs, sen_refs, bid, ask, sen, amount) {
        Some(e) => Err(e),
        None => {
            if bid_refs.account.key@ == ask_refs.account.key@ {
                Ok((bid, ask, sen, empty_receipt()))
            } else {
                swap_transition(
                    bid_refs.account.key,
                    ask_refs.account.key,
                    sen_refs.account.key,
                    bid,
                    ask,
                    sen,
                    amount,
                )
            }
        }
    }
}

/// The first failing precondition of a share transfer, if any.
pub open spec fn transfer_check(
    program_id: Key,
    owner: AccountRef,
    src_acc: AccountRef,
    dst_acc: AccountRef,
    src: LPT,
    dst: LPT,
    lpt: u128,
) -> Option<AppError> {
    if src_acc.owner@ != program_id@ || dst_acc.owner@ != program_id@ {
        Some(AppError::IncorrectProgramId)
    } else if !src.is_initialized || !dst.is_initialized {
        Some(AppError::NotInitialized)
    } else if !owner.is_signer || src.owner@ != owner.key@ {
        Some(AppError::InvalidOwner)
    } else if src.pool@ != dst.pool@ {
        Some(AppError::UnmatchedPool)
    } else if lpt == 0 {
        Some(AppError::ZeroValue)
    } else if src.lpt < lpt {
        Some(AppError::InsufficientFunds)
    } else {
        None
    }
}

/// The first failing precondition of a pool creation, if any.
pub open spec fn initialize_pool_check(
    program_id: Key,
    owner: AccountRef,
    network_acc: AccountRef,
    pool_acc: AccountRef,
    lpt_acc: AccountRef,
    mint: Key,
    treasurer: Key,
    network: Network,
    pool: Pool,
    account: LPT,
    reserve: u64,
    lpt: u128,
) -> Option<AppError> {
    if network_acc.owner@ != program_id@ || pool_acc.owner@ != program_id@ || lpt_acc.owner@
        != program_id@ {
        Some(AppError::IncorrectProgramId)
    } else if !network.spec_is_initialized() {
        Some(AppError::NotInitialized)
    } else if pool.is_initialized || account.is_initialized {
        Some(AppError::ConstructorOnce)
    } else if !owner.is_signer || !pool_acc.is_signer || !lpt_acc.is_signer || !is_pool_authority(
        pool_acc.key,
        program_id,
        treasurer,
    ) {
        Some(AppError::InvalidOwner)
    } else if !network.spec_is_approved(mint@) {
        Some(AppError::UnmatchedPool)
    } else if mint@ != Key::spec_primary() && !network.spec_is_activated() {
        Some(AppError::NotInitialized)
    } else if mint@ == Key::spec_primary() && network.spec_is_activated() {
        Some(AppError::ConstructorOnce)
    } else if reserve == 0 || lpt == 0 {
        Some(AppError::ZeroValue)
    } else {
        None
    }
}

/// The first failing precondition of closing a share account, if any.
pub open spec fn close_lpt_check(
    program_id: Key,
    owner: AccountRef,
    lpt_acc: AccountRef,
    account: LPT,
) -> Option<AppError> {
    if lpt_acc.owner@ != program_id@ {
        Some(AppError::IncorrectProgramId)
    } else if !account.is_initialized {
        Some(AppError::NotInitialized)
    } else if !owner.is_signer || account.owner@ != owner.key@ {
        Some(AppError::InvalidOwner)
    } else if account.lpt != 0 {
        Some(AppError::ZeroValue)
    } else {
        None
    }
}

/// The first failing precondition of closing a pool, if any.
pub open spec fn close_pool_check(
    program_id: Key,
    owner: AccountRef,
    pool_acc: AccountRef,
    treasury: Key,
    treasurer: Key,
    pool: Pool,
) -> Option<AppError> {
    if pool_acc.owner@ != program_id@ {
        Some(AppError::IncorrectProgramId)
    } else if !pool.is_initialized {
        Some(AppError::NotInitialized)
    } else if !owner.is_signer || pool.owner@ != owner.key@ || pool.treasury@ != treasury@
        || !is_pool_authority(pool_acc.key, program_id, treasurer) {
        Some(AppError::InvalidOwner)
    } else if pool.lpt != 0 || pool.reserve != 0 {
        Some(AppError::ZeroValue)
    } else {
        None
    }
}

/// Balance of the destination after it takes over a closed account's balance.
pub open spec fn reclaim_outcome(balance: u64, dst_balance: u64) -> Result<u64, AppError> {
    if balance + dst_balance > u64::MAX {
        Err(AppError::Overflow)
    } else {
        Ok((balance + dst_balance) as u64)
    }
}

impl Processor {
    /// Splits the output of a swap into fee, earn fee and payout.
    pub fn apply_fee(new_ask_reserve: u64, ask_reserve: u64, is_primary: bool) -> (r: Option<
        (u64, u64, u64, u64),
    >)
        ensures
            r == spec_apply_fee(new_ask_reserve, ask_reserve, is_primary),
    {
        if new_ask_reserve > ask_reserve {
            return None;
        }
        let gross = ask_reserve - new_ask_reserve;
        let g = gross as u128;
        proof {
            assert(g * 2500000 <= 0xffff_ffff_ffff_ffff * 2500000) by (nonlinear_arith)
                requires
                    g <= 0xffff_ffff_ffff_ffff,
            ;
            assert(g * 500000 <= 0xffff_ffff_ffff_ffff * 500000) by (nonlinear_arith)
                requires
                    g <= 0xffff_ffff_ffff_ffff,
            ;
        }
        let fee_wide = g * (FEE as u128) / (FEE_DECIMALS as u128);
        let earn_wide = g * (EARN as u128) / (FEE_DECIMALS as u128);
        proof {
            assert(fee_wide * 400 <= g) by (nonlinear_arith)
                requires
                    fee_wide == g * 2500000 / 1000000000,
            ;
            assert(earn_wide * 2000 <= g) by (nonlinear_arith)
                requires
                    earn_wide == g * 500000 / 1000000000,
            ;
        }
        let fee = fee_wide as u64;
        let earn: u64 = if is_primary {
            0
        } else {
            earn_wide as u64
        };
        let new_ask_reserve_with_fee = new_ask_reserve + fee;
        let paid_amount_with_fee = gross - fee - earn;
        Some((new_ask_reserve_with_fee, paid_amount_with_fee, fee, earn))
    }

    /// Deposits `reserve` into a pool and mints the proportional shares to
    /// the depositor's account, rounding down. Returns the shares minted; the
    /// host then moves `reserve` from the depositor into the treasury.
    pub fn add_liquidity(
        program_id: &Key,
        owner: &AccountRef,
        pool_acc: &AccountRef,
        treasury: &Key,
        lpt_acc: &AccountRef,
        pool: &mut Pool,
        account: &mut LPT,
        reserve: u64,
    ) -> (r: Result<u128, AppError>)
        ensures
            r == add_liquidity_outcome(
                *program_id,
                *owner,
                *pool_acc,
                *treasury,
                *lpt_acc,
                *old(pool),
                *old(account),
                reserve,
            ),
            match r {
                Ok(minted) => {
                    &&& final(pool).reserve == old(pool).reserve + reserve
                    &&& final(pool).lpt == old(pool).lpt + minted
                    &&& final(account).lpt == old(account).lpt + minted
                    &&& (Pool { reserve: old(pool).reserve, lpt: old(pool).lpt, ..*final(pool) })
                        == *old(pool)
                    &&& (LPT { lpt: old(account).lpt, ..*final(account) }) == *old(account)
                },
                Err(_) => *final(pool) == *old(pool) && *final(account) == *old(account),
            },
    {
        if pool_acc.owner != *program_id || lpt_acc.owner != *program_id {
            return Err(AppError::IncorrectProgramId);
        }
        if !pool.is_initialized || !account.is_initialized {
            return Err(AppError::NotInitialized);
        }
        if !owner.is_signer || pool.treasury != *treasury || account.owner != owner.key {
            return Err(AppError::InvalidOwner);
        }
        if account.pool != pool_acc.key {
            return Err(AppError::UnmatchedPool);
        }
        if reserve == 0 {
            return Err(AppError::ZeroValue);
        }
        let product = match pool.lpt.checked_mul(reserve as u128) {
            Some(p) => p,
            None => return Err(AppError::Overflow),
        };
        let minted = match product.checked_div(pool.reserve as u128) {
            Some(m) => m,
            None => return Err(AppError::Overflow),
        };
        let new_reserve = match pool.reserve.checked_add(reserve) {
            Some(v) => v,
            None => return Err(AppError::Overflow),
        };
        let new_pool_lpt = match pool.lpt.checked_add(minted) {
            Some(v) => v,
            None => return Err(AppError::Overflow),
        };
        let new_account_lpt = match account.lpt.checked_add(minted) {
            Some(v) => v,
            None => return Err(AppError::Overflow),
        };
        pool.reserve = new_reserve;
        pool.lpt = new_pool_lpt;
        account.lpt = new_account_lpt;
        Ok(minted)
    }

    /// Burns `lpt` shares of the holder's account and pays out the
    /// proportional reserve, rounding down. Returns the payout, which the host
    /// then moves from the treasury to the holder.
    pub fn remove_liquidity(
        program_id: &Key,
        owner: &AccountRef,
        pool_acc: &AccountRef,
        treasury: &Key,
        lpt_acc: &AccountRef,
        treasurer: &Key,
        pool: &mut Pool,
        account: &mut LPT,
        lpt: u128,
    ) -> (r: Result<u64, AppError>)
        ensures
            r == remove_liquidity_outcome(
                *program_id,
                *owner,
                *pool_acc,
                *treasury,
                *lpt_acc,
                *treasurer,
                *old(pool),
                *old(account),
                lpt,
            ),
            match r {
                Ok(payout) => {
                    &&& final(pool).reserve == old(pool).reserve - payout
                    &&& final(pool).lpt == old(pool).lpt - lpt
                    &&& final(account).lpt == old(account).lpt - lpt
                    &&& (Pool { reserve: old(pool).reserve, lpt: old(pool).lpt, ..*final(pool) })
                        == *old(pool)
                    &&& (LPT { lpt: old(account).lpt, ..*final(account) }) == *old(account)
                },
                Err(_) => *final(pool) == *old(pool) && *final(account) == *old(account),
            },
    {
        if pool_acc.owner != *program_id || lpt_acc.owner != *program_id {
            return Err(AppError::IncorrectProgramId);
        }
        if !pool.is_initialized || !account.is_initialized {
            return Err(AppError::NotInitialized);
        }
        if !owner.is_signer || pool.treasury != *treasury || account.owner != owner.key
            || !check_pool_authority(&pool_acc.key, program_id, treasurer) {
            return Err(AppError::InvalidOwner);
        }
        if account.pool != pool_acc.key {
            return Err(AppError::UnmatchedPool);
        }
        if lpt == 0 {
            return Err(AppError::ZeroValue);
        }
        if account.lpt < lpt {
            return Err(AppError::InsufficientFunds);
        }
        let product = match (pool.reserve as u128).checked_mul(lpt) {
            Some(p) => p,
            None => return Err(AppError::Overflow),
        };
        let payout = match product.checked_div(pool.lpt) {
            Some(v) => v,
            None => return Err(AppError::Overflow),
        };
        if payout > pool.reserve as u128 || lpt > pool.lpt {
            return Err(AppError::Overflow);
        }
        let payout = payout as u64;
        account.lpt = account.lpt - lpt;
        pool.reserve = pool.reserve - payout;
        pool.lpt = pool.lpt - lpt;
        Ok(payout)
    }
    /// Sells `amount` of the bid pool's asset for the ask pool's asset.
    ///
    /// The bid reserve grows by `amount`; the ask reserve falls to the curve's
    /// price, plus the trading fee and the earn fee; where an earn fee is
    /// due, its value in settlement units leaves the settlement pool's
    /// reserve. A swap within one pool moves nothing. The bid pool's
    /// treasurer is not consulted: nothing leaves its treasury. On success the host
    /// performs the movements of the receipt; on failure no record changes.
    pub fn swap(
        program_id: &Key,
        owner: &AccountRef,
        bid_refs: &PoolRefs,
        ask_refs: &PoolRefs,
        sen_refs: &PoolRefs,
        bid: &mut Pool,
        ask: &mut Pool,
        sen: &mut Pool,
        amount: u64,
    ) -> (r: Result<SwapReceipt, AppError>)
        ensures
            match swap_outcome(
                *program_id,
                *owner,
                *bid_refs,
                *ask_refs,
                *sen_refs,
                *old(bid),
                *old(ask),
                *old(sen),
                amount,
            ) {
                Ok((b, a, s, receipt)) => {
                    &&& r == Ok::<SwapReceipt, AppError>(receipt)
                    &&& *final(bid) == b
                    &&& *final(ask) == a
                    &&& *final(sen) == s
                },
                Err(e) => {
                    &&& r == Err::<SwapReceipt, AppError>(e)
                    &&& *final(bid) == *old(bid)
                    &&& *final(ask) == *old(ask)
                    &&& *final(sen) == *old(sen)
                },
            },
    {
        if bid_refs.account.owner != *program_id || ask_refs.account.owner != *program_id
            || sen_refs.account.owner != *program_id {
            return Err(AppError::IncorrectProgramId);
        }
        if !bid.is_initialized || !ask.is_initialized || !sen.is_initialized {
            return Err(AppError::NotInitialized);
        }
        if !owner.is_signer || bid.treasury != bid_refs.treasury || ask.treasury
            != ask_refs.treasury || !check_pool_authority(
            &ask_refs.account.key,
            program_id,
            &ask_refs.treasurer,
        ) || sen.treasury != sen_refs.treasury || !check_pool_authority(
            &sen_refs.account.key,
            program_id,
            &sen_refs.treasurer,
        ) {
            return Err(AppError::InvalidOwner);
        }
        if sen.network != bid.network || sen.network != ask.network {
            return Err(AppError::IncorrectNetworkId);
        }
        if amount == 0 {
            return Err(AppError::ZeroValue);
        }
        if bid_refs.account.key == ask_refs.account.key {
            return Ok(SwapReceipt { amount: 0, payout: 0, fee: 0, earn: 0, earn_in_settlement: 0 });
        }
        let new_bid_reserve = match bid.reserve.checked_add(amount) {
            Some(v) => v,
            None => return Err(AppError::Overflow),
        };
        let without_fee = match Curve::curve(
            new_bid_reserve,
            bid.reserve,
            bid.lpt,
            ask.reserve,
            ask.lpt,
        ) {
            Some(v) => v,
            None => return Err(AppError::Overflow),
        };
        let is_primary = ask.mint == Key::primary();
        let (with_fee, payout, fee, earn) = match Self::apply_fee(
            without_fee,
            ask.reserve,
            is_primary,
        ) {
            Some(t) => t,
            None => return Err(AppError::Overflow),
        };
        let new_ask_reserve = match with_fee.checked_add(earn) {
            Some(v) => v,
            None => return Err(AppError::Overflow),
        };
        let sen_is_bid = sen_refs.account.key == bid_refs.account.key;
        let sen_is_ask = sen_refs.account.key == ask_refs.account.key;
        let mut earn_in_settlement: u64 = 0;
        let mut settled_reserve: u64 = 0;
        if earn != 0 {
            let (settle_reserve, settle_lpt) = if sen_is_bid {
                (new_bid_reserve, bid.lpt)
            } else if sen_is_ask {
                (new_ask_reserve, ask.lpt)
            } else {
                (sen.reserve, sen.lpt)
            };
            earn_in_settlement = match Curve::curve(
                new_ask_reserve,
                with_fee,
                ask.lpt,
                settle_reserve,
                settle_lpt,
            ) {
                Some(v) => v,
                None => return Err(AppError::Overflow),
            };
            settled_reserve = match settle_reserve.checked_sub(earn_in_settlement) {
                Some(v) => v,
                None => return Err(AppError::Overflow),
            };
        }
        bid.reserve = new_bid_reserve;
        ask.reserve = new_ask_reserve;
        if earn != 0 {
            if sen_is_bid {
                bid.reserve = settled_reserve;
            } else if sen_is_ask {
                ask.reserve = settled_reserve;
            } else {
                sen.reserve = settled_reserve;
            }
        }
        Ok(SwapReceipt { amount, payout, fee, earn, earn_in_settlement })
    }
    /// Creates a network: slot 0 of its assets holds the primary asset, the
    /// others the given assets in order.
    pub fn initialize_network(
        program_id: &Key,
        network_acc: &AccountRef,
        network: &mut Network,
        mints: &Vec<Key>,
    ) -> (r: Result<(), AppError>)
        requires
            mints@.len() == MAX_MINTS - 1,
        ensures
            r == (if network_acc.owner@ != program_id@ {
                Err(AppError::IncorrectProgramId)
            } else if old(network).spec_is_initialized() {
                Err(AppError::ConstructorOnce)
            } else if !network_acc.is_signer {
                Err(AppError::InvalidOwner)
            } else {
                Ok(())
            }),
            r is Ok ==> {
                &&& final(network).state == NetworkState::Initialized
                &&& final(network).mints@.len() == MAX_MINTS
                &&& final(network).mints@[0]@ == Key::spec_primary()
                &&& forall|i: int|
                    1 <= i < MAX_MINTS ==> #[trigger] final(network).mints@[i] == mints@[i - 1]
            },
            r is Err ==> *final(network) == *old(network),
    {
        if network_acc.owner != *program_id {
            return Err(AppError::IncorrectProgramId);
        }
        if network.is_initialized() {
            return Err(AppError::ConstructorOnce);
        }
        if !network_acc.is_signer {
            return Err(AppError::InvalidOwner);
        }
        let mut slots: Vec<Key> = Vec::new();
        slots.push(Key::primary());
        let mut i: usize = 0;
        while i < mints.len()
            invariant
                0 <= i <= mints@.len(),
                slots@.len() == i + 1,
                slots@[0]@ == Key::spec_primary(),
                forall|j: int| 1 <= j <= i ==> #[trigger] slots@[j] == mints@[j - 1],
            decreases mints@.len() - i,
        {
            slots.push(mints[i]);
            i = i + 1;
        }
        network.state = NetworkState::Initialized;
        network.mints = slots;
        Ok(())
    }

    /// Creates a pool with its first deposit `reserve` and mints `lpt`
    /// shares to the creator's account. The first pool of the primary asset
    /// activates the network; other assets need an activated network. On
    /// success the host opens the treasury and moves `reserve` into it.
    pub fn initialize_pool(
        program_id: &Key,
        owner: &AccountRef,
        network_acc: &AccountRef,
        pool_acc: &AccountRef,
        treasury: &Key,
        lpt_acc: &AccountRef,
        mint: &Key,
        treasurer: &Key,
        network: &mut Network,
        pool: &mut Pool,
        account: &mut LPT,
        reserve: u64,
        lpt: u128,
    ) -> (r: Result<(), AppError>)
        ensures
            r == (match initialize_pool_check(
                *program_id,
                *owner,
                *network_acc,
                *pool_acc,
                *lpt_acc,
                *mint,
                *treasurer,
                *old(network),
                *old(pool),
                *old(account),
                reserve,
                lpt,
            ) {
                Some(e) => Err(e),
                None => Ok(()),
            }),
            r is Ok ==> {
                &&& *final(pool) == (Pool {
                    owner: owner.key,
                    network: network_acc.key,
                    mint: *mint,
                    treasury: *treasury,
                    reserve,
                    lpt,
                    fee: FEE,
                    is_initialized: true,
                })
                &&& *final(account) == (LPT {
                    owner: owner.key,
                    pool: pool_acc.key,
                    lpt,
                    is_initialized: true,
                })
                &&& final(network).mints == old(network).mints
                &&& final(network).state == (if mint@ == Key::spec_primary() {
                    NetworkState::Activated
                } else {
                    old(network).state
                })
            },
            r is Err ==> *final(network) == *old(network) && *final(pool) == *old(pool)
                && *final(account) == *old(account),
    {
        if network_acc.owner != *program_id || pool_acc.owner != *program_id || lpt_acc.owner
            != *program_id {
            return Err(AppError::IncorrectProgramId);
        }
        if !network.is_initialized() {
            return Err(AppError::NotInitialized);
        }
        if pool.is_initialized || account.is_initialized {
            return Err(AppError::ConstructorOnce);
        }
        if !owner.is_signer || !pool_acc.is_signer || !lpt_acc.is_signer || !check_pool_authority(
            &pool_acc.key,
            program_id,
            treasurer,
        ) {
            return Err(AppError::InvalidOwner);
        }
        if !network.is_approved(mint) {
            return Err(AppError::UnmatchedPool);
        }
        let is_primary = *mint == Key::primary();
        if !is_primary && !network.is_activated() {
            return Err(AppError::NotInitialized);
        }
        if is_primary && network.is_activated() {
            return Err(AppError::ConstructorOnce);
        }
        if reserve == 0 || lpt == 0 {
            return Err(AppError::ZeroValue);
        }
        if is_primary {
            network.state = NetworkState::Activated;
        }
        *pool = Pool {
            owner: owner.key,
            network: network_acc.key,
            mint: *mint,
            treasury: *treasury,
            reserve,
            lpt,
            fee: FEE,
            is_initialized: true,
        };
        *account = LPT { owner: owner.key, pool: pool_acc.key, lpt, is_initialized: true };
        Ok(())
    }

    /// Opens an empty share account of `owner` in the pool at `pool_acc`.
    pub fn initialize_lpt(
        program_id: &Key,
        owner: &AccountRef,
        pool_acc: &AccountRef,
        lpt_acc: &AccountRef,
        account: &mut LPT,
    ) -> (r: Result<(), AppError>)
        ensures
            r == (if pool_acc.owner@ != program_id@ || lpt_acc.owner@ != program_id@ {
                Err(AppError::IncorrectProgramId)
            } else if old(account).is_initialized {
                Err(AppError::ConstructorOnce)
            } else if !owner.is_signer || !lpt_acc.is_signer {
                Err(AppError::InvalidOwner)
            } else {
                Ok(())
            }),
            r is Ok ==> *final(account) == (LPT {
                owner: owner.key,
                pool: pool_acc.key,
                lpt: 0,
                is_initialized: true,
            }),
            r is Err ==> *final(account) == *old(account),
    {
        if pool_acc.owner != *program_id || lpt_acc.owner != *program_id {
            return Err(AppError::IncorrectProgramId);
        }
        if account.is_initialized {
            return Err(AppError::ConstructorOnce);
        }
        if !owner.is_signer || !lpt_acc.is_signer {
            return Err(AppError::InvalidOwner);
        }
        *account = LPT { owner: owner.key, pool: pool_acc.key, lpt: 0, is_initialized: true };
        Ok(())
    }

    /// Moves `lpt` shares between two accounts of the same pool; a transfer
    /// from an account to itself changes nothing.
    pub fn transfer(
        program_id: &Key,
        owner: &AccountRef,
        src_acc: &AccountRef,
        dst_acc: &AccountRef,
        src: &mut LPT,
        dst: &mut LPT,
        lpt: u128,
    ) -> (r: Result<(), AppError>)
        ensures
            r == (match transfer_check(*program_id, *owner, *src_acc, *dst_acc, *old(src), *old(dst), lpt) {
                Some(e) => Err(e),
                None => if src_acc.key@ != dst_acc.key@ && old(dst).lpt + lpt > u128::MAX {
                    Err(AppError::Overflow)
                } else {
                    Ok(())
                },
            }),
            r is Ok && src_acc.key@ != dst_acc.key@ ==> {
                &&& *final(src) == (LPT { lpt: (old(src).lpt - lpt) as u128, ..*old(src) })
                &&& *final(dst) == (LPT { lpt: (old(dst).lpt + lpt) as u128, ..*old(dst) })
            },
            r is Err || src_acc.key@ == dst_acc.key@ ==> *final(src) == *old(src) && *final(dst)
                == *old(dst),
    {
        if src_acc.owner != *program_id || dst_acc.owner != *program_id {
            return Err(AppError::IncorrectProgramId);
        }
        if !src.is_initialized || !dst.is_initialized {
            return Err(AppError::NotInitialized);
        }
        if !owner.is_signer || src.owner != owner.key {
            return Err(AppError::InvalidOwner);
        }
        if src.pool != dst.pool {
            return Err(AppError::UnmatchedPool);
        }
        if lpt == 0 {
            return Err(AppError::ZeroValue);
        }
        if src.lpt < lpt {
            return Err(AppError::InsufficientFunds);
        }
        if src_acc.key == dst_acc.key {
            return Ok(());
        }
        let new_dst = match dst.lpt.checked_add(lpt) {
            Some(v) => v,
            None => return Err(AppError::Overflow),
        };
        src.lpt = src.lpt - lpt;
        dst.lpt = new_dst;
        Ok(())
    }

    /// Balance of the destination after it takes over the balance of a
    /// closed account.
    pub fn reclaim(balance: u64, dst_balance: u64) -> (r: Result<u64, AppError>)
        ensures
            r == reclaim_outcome(balance, dst_balance),
    {
        match balance.checked_add(dst_balance) {
            Some(v) => Ok(v),
            None => Err(AppError::Overflow),
        }
    }

    /// Closes an empty share account; its storage balance `balance` goes to
    /// the destination, whose new balance is returned.
    pub fn close_lpt(
        program_id: &Key,
        owner: &AccountRef,
        lpt_acc: &AccountRef,
        account: &LPT,
        balance: u64,
        dst_balance: u64,
    ) -> (r: Result<u64, AppError>)
        ensures
            r == (match close_lpt_check(*program_id, *owner, *lpt_acc, *account) {
                Some(e) => Err(e),
                None => reclaim_outcome(balance, dst_balance),
            }),
    {
        if lpt_acc.owner != *program_id {
            return Err(AppError::IncorrectProgramId);
        }
        if !account.is_initialized {
            return Err(AppError::NotInitialized);
        }
        if !owner.is_signer || account.owner != owner.key {
            return Err(AppError::InvalidOwner);
        }
        if account.lpt != 0 {
            return Err(AppError::ZeroValue);
        }
        Self::reclaim(balance, dst_balance)
    }

    /// Checks that a drained pool may be closed. On success the host closes
    /// the treasury, then hands the pool's storage balance to the destination
    /// through [`Processor::reclaim`].
    pub fn close_pool(
        program_id: &Key,
        owner: &AccountRef,
        pool_acc: &AccountRef,
        treasury: &Key,
        treasurer: &Key,
        pool: &Pool,
    ) -> (r: Result<(), AppError>)
        ensures
            r == (match close_pool_check(*program_id, *owner, *pool_acc, *treasury, *treasurer, *pool) {
                Some(e) => Err(e),
                None => Ok(()),
            }),
    {
        if pool_acc.owner != *program_id {
            return Err(AppError::IncorrectProgramId);
        }
        if !pool.is_initialized {
            return Err(AppError::NotInitialized);
        }
        if !owner.is_signer || pool.owner != owner.key || pool.treasury != *treasury
            || !check_pool_authority(&pool_acc.key, program_id, treasurer) {
            return Err(AppError::InvalidOwner);
        }
        if pool.lpt != 0 || pool.reserve != 0 {
            return Err(AppError::ZeroValue);
        }
        Ok(())
    }
}

} // verus!
