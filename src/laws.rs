use crate::error::AppError;
use crate::key::Key;
use crate::processor::{
    add_liquidity_check, add_liquidity_outcome, empty_receipt, remove_liquidity_check, remove_liquidity_outcome,
    spec_apply_fee, spec_minted, spec_payout, swap_check, swap_outcome, transfer_check, PoolRefs,
};
use crate::state::{AccountRef, Pool, LPT};
use vstd::prelude::*;

verus! {

/// Sum of a list of share balances.
pub open spec fn total_shares(balances: Seq<u128>) -> int
    decreases balances.len(),
{
    if balances.len() == 0 {
        0
    } else {
        total_shares(balances.drop_last()) + balances.last()
    }
}

proof fn lemma_total_update(balances: Seq<u128>, i: int, v: u128)
    requires
        0 <= i < balances.len(),
    ensures
        total_shares(balances.update(i, v)) == total_shares(balances) - balances[i] + v,
    decreases balances.len(),
{
    let u = balances.update(i, v);
    if i == balances.len() - 1 {
        assert(u.drop_last() =~= balances.drop_last());
    } else {
        lemma_total_update(balances.drop_last(), i, v);
        assert(u.drop_last() =~= balances.drop_last().update(i, v));
    }
}

/// A deposit mints exactly the floor of the proportional share count: the
/// depositor never receives more than the deposit's share of the pool, and
/// the reserve backing each share does not fall.
pub proof fn deposit_is_proportional(
    program_id: Key,
    owner: AccountRef,
    pool_acc: AccountRef,
    treasury: Key,
    lpt_acc: AccountRef,
    pool: Pool,
    account: LPT,
    reserve: u64,
)
    requires
        add_liquidity_outcome(
            program_id,
            owner,
            pool_acc,
            treasury,
            lpt_acc,
            pool,
            account,
            reserve,
        ) is Ok,
    ensures
        ({
            let minted = add_liquidity_outcome(
                program_id,
                owner,
                pool_acc,
                treasury,
                lpt_acc,
                pool,
                account,
                reserve,
            )->Ok_0;
            &&& minted * pool.reserve <= pool.lpt * reserve
            &&& pool.lpt * reserve < (minted + 1) * pool.reserve
            &&& (pool.reserve + reserve) * pool.lpt >= pool.reserve * (pool.lpt + minted)
        }),
{
    let m = spec_minted(pool.lpt, pool.reserve, reserve);
    let r = pool.reserve as int;
    let p = pool.lpt * reserve;
    assert(m * r <= p && p < (m + 1) * r) by (nonlinear_arith)
        requires
            r > 0,
            m == p / r,
    ;
    assert((r + reserve) * pool.lpt >= r * (pool.lpt + m)) by (nonlinear_arith)
        requires
            m * r <= pool.lpt * reserve,
    ;
}

/// A withdrawal pays out exactly the floor of the proportional reserve: the
/// holder never receives more than the burned shares' part of the pool, and
/// the reserve backing each remaining share does not fall.
pub proof fn withdrawal_is_proportional(
    program_id: Key,
    owner: AccountRef,
    pool_acc: AccountRef,
    treasury: Key,
    lpt_acc: AccountRef,
    treasurer: Key,
    pool: Pool,
    account: LPT,
    lpt: u128,
)
    requires
        remove_liquidity_outcome(
            program_id,
            owner,
            pool_acc,
            treasury,
            lpt_acc,
            treasurer,
            pool,
            account,
            lpt,
        ) is Ok,
    ensures
        ({
            let payout = remove_liquidity_outcome(
                program_id,
                owner,
                pool_acc,
                treasury,
                lpt_acc,
                treasurer,
                pool,
                account,
                lpt,
            )->Ok_0;
            &&& payout * pool.lpt <= pool.reserve * lpt
            &&& pool.reserve * lpt < (payout + 1) * pool.lpt
            &&& (pool.reserve - payout) * pool.lpt >= pool.reserve * (pool.lpt - lpt)
        }),
{
    let q = spec_payout(pool.reserve, pool.lpt, lpt);
    let l = pool.lpt as int;
    let p = pool.reserve * lpt;
    assert(q * l <= p && p < (q + 1) * l) by (nonlinear_arith)
        requires
            l > 0,
            q == p / l,
    ;
    assert((pool.reserve - q) * l >= pool.reserve * (l - lpt)) by (nonlinear_arith)
        requires
            q * l <= pool.reserve * lpt,
    ;
}

/// Reserve per share never falls along a run of deposits and withdrawals:
/// if each step keeps `reserve * lpt` of the previous state from exceeding
/// the cross product (as the two laws above show), so does the whole run.
pub proof fn share_value_never_falls(states: Seq<(u64, u128)>)
    requires
        states.len() > 0,
        forall|i: int| 0 <= i < states.len() ==> (#[trigger] states[i]).1 > 0,
        forall|i: int|
            0 <= i < states.len() - 1 ==> (#[trigger] states[i + 1]).0 * states[i].1 >= states[i].0
                * states[i + 1].1,
    ensures
        states.last().0 * states[0].1 >= states[0].0 * states.last().1,
    decreases states.len(),
{
    if states.len() > 1 {
        let init = states.drop_last();
        assert forall|i: int| 0 <= i < init.len() - 1 implies (#[trigger] init[i + 1]).0 * init[i].1
            >= init[i].0 * init[i + 1].1 by {
            assert(states[i + 1] == init[i + 1]);
        }
        share_value_never_falls(init);
        let a = states[0];
        let b = init.last();
        let c = states.last();
        let k = states.len() - 2;
        assert(states[k + 1].0 * states[k].1 >= states[k].0 * states[k + 1].1);
        assert(init[k] == states[k]);
        assert(c.0 * b.1 >= b.0 * c.1);
        assert(c.0 * a.1 >= a.0 * c.1) by (nonlinear_arith)
            requires
                b.0 * a.1 >= a.0 * b.1,
                c.0 * b.1 >= b.0 * c.1,
                a.1 > 0,
                b.1 > 0,
                c.1 > 0,
                a.0 >= 0,
                b.0 >= 0,
                c.0 >= 0,
        ;
    }
}

/// A deposit keeps a pool's share supply equal to the sum of its holders'
/// balances: the pool and the depositor's account gain the same shares.
pub proof fn deposit_keeps_share_sum(
    program_id: Key,
    owner: AccountRef,
    pool_acc: AccountRef,
    treasury: Key,
    lpt_acc: AccountRef,
    pool: Pool,
    account: LPT,
    reserve: u64,
    balances: Seq<u128>,
    i: int,
)
    requires
        add_liquidity_outcome(
            program_id,
            owner,
            pool_acc,
            treasury,
            lpt_acc,
            pool,
            account,
            reserve,
        ) is Ok,
        total_shares(balances) == pool.lpt,
        0 <= i < balances.len(),
        balances[i] == account.lpt,
    ensures
        ({
            let minted = add_liquidity_outcome(
                program_id,
                owner,
                pool_acc,
                treasury,
                lpt_acc,
                pool,
                account,
                reserve,
            )->Ok_0;
            total_shares(balances.update(i, (account.lpt + minted) as u128)) == pool.lpt + minted
        }),
{
    let minted = add_liquidity_outcome(
        program_id,
        owner,
        pool_acc,
        treasury,
        lpt_acc,
        pool,
        account,
        reserve,
    )->Ok_0;
    lemma_total_update(balances, i, (account.lpt + minted) as u128);
}

/// A withdrawal keeps a pool's share supply equal to the sum of its holders'
/// balances: the pool and the holder's account lose the same shares.
pub proof fn withdrawal_keeps_share_sum(
    program_id: Key,
    owner: AccountRef,
    pool_acc: AccountRef,
    treasury: Key,
    lpt_acc: AccountRef,
    treasurer: Key,
    pool: Pool,
    account: LPT,
    lpt: u128,
    balances: Seq<u128>,
    i: int,
)
    requires
        remove_liquidity_outcome(
            program_id,
            owner,
            pool_acc,
            treasury,
            lpt_acc,
            treasurer,
            pool,
            account,
            lpt,
        ) is Ok,
        total_shares(balances) == pool.lpt,
        0 <= i < balances.len(),
        balances[i] == account.lpt,
    ensures
        total_shares(balances.update(i, (account.lpt - lpt) as u128)) == pool.lpt - lpt,
{
    lemma_total_update(balances, i, (account.lpt - lpt) as u128);
}

/// A transfer between two accounts of one pool keeps the sum of the pool's
/// balances.
pub proof fn transfer_keeps_share_sum(
    program_id: Key,
    owner: AccountRef,
    src_acc: AccountRef,
    dst_acc: AccountRef,
    src: LPT,
    dst: LPT,
    lpt: u128,
    balances: Seq<u128>,
    i: int,
    j: int,
)
    requires
        transfer_check(program_id, owner, src_acc, dst_acc, src, dst, lpt) is None,
        dst.lpt + lpt <= u128::MAX,
        0 <= i < balances.len(),
        0 <= j < balances.len(),
        i != j,
        balances[i] == src.lpt,
        balances[j] == dst.lpt,
    ensures
        total_shares(
            balances.update(i, (src.lpt - lpt) as u128).update(j, (dst.lpt + lpt) as u128),
        ) == total_shares(balances),
{
    let b1 = balances.update(i, (src.lpt - lpt) as u128);
    lemma_total_update(balances, i, (src.lpt - lpt) as u128);
    lemma_total_update(b1, j, (dst.lpt + lpt) as u128);
}

/// A swap never changes the share supply of any pool it touches.
pub proof fn swap_keeps_share_supply(
    program_id: Key,
    owner: AccountRef,
    bid_refs: PoolRefs,
    ask_refs: PoolRefs,
    sen_refs: PoolRefs,
    bid: Pool,
    ask: Pool,
    sen: Pool,
    amount: u64,
)
    requires
        swap_outcome(program_id, owner, bid_refs, ask_refs, sen_refs, bid, ask, sen, amount) is Ok,
    ensures
        ({
            let (b, a, s, _) = swap_outcome(
                program_id,
                owner,
                bid_refs,
                ask_refs,
                sen_refs,
                bid,
                ask,
                sen,
                amount,
            )->Ok_0;
            b.lpt == bid.lpt && a.lpt == ask.lpt && s.lpt == sen.lpt
        }),
{
}

/// A withdrawal never burns more shares than the account holds nor pays out
/// more than the pool's reserve; asking for more than the balance fails, with
/// `InsufficientFunds` once the accounts have passed their checks.
pub proof fn withdrawal_never_overdraws(
    program_id: Key,
    owner: AccountRef,
    pool_acc: AccountRef,
    treasury: Key,
    lpt_acc: AccountRef,
    treasurer: Key,
    pool: Pool,
    account: LPT,
    lpt: u128,
)
    ensures
        ({
            let r = remove_liquidity_outcome(
                program_id,
                owner,
                pool_acc,
                treasury,
                lpt_acc,
                treasurer,
                pool,
                account,
                lpt,
            );
            let c = remove_liquidity_check(
                program_id,
                owner,
                pool_acc,
                treasury,
                lpt_acc,
                treasurer,
                pool,
                account,
                lpt,
            );
            &&& r is Ok ==> lpt <= account.lpt && lpt <= pool.lpt && r->Ok_0 <= pool.reserve
            &&& account.lpt < lpt ==> r is Err
            &&& account.lpt < lpt && 0 < lpt && c != Some(AppError::IncorrectProgramId) && c != Some(
                AppError::NotInitialized,
            ) && c != Some(AppError::InvalidOwner) && c != Some(AppError::UnmatchedPool) ==> r
                == Err::<u64, AppError>(AppError::InsufficientFunds)
        }),
{
}

/// A transfer never moves more shares than the source holds; asking for
/// more than the balance fails.
pub proof fn transfer_never_overdraws(
    program_id: Key,
    owner: AccountRef,
    src_acc: AccountRef,
    dst_acc: AccountRef,
    src: LPT,
    dst: LPT,
    lpt: u128,
)
    ensures
        transfer_check(program_id, owner, src_acc, dst_acc, src, dst, lpt) is None ==> lpt
            <= src.lpt,
        src.lpt < lpt ==> transfer_check(program_id, owner, src_acc, dst_acc, src, dst, lpt)
            is Some,
{
}

/// A swap whose bid and ask pools are one pool succeeds and changes nothing.
pub proof fn swap_within_one_pool_is_noop(
    program_id: Key,
    owner: AccountRef,
    bid_refs: PoolRefs,
    ask_refs: PoolRefs,
    sen_refs: PoolRefs,
    bid: Pool,
    ask: Pool,
    sen: Pool,
    amount: u64,
)
    requires
        swap_check(program_id, owner, bid_refs, ask_refs, sen_refs, bid, ask, sen, amount) is None,
        bid_refs.account.key@ == ask_refs.account.key@,
    ensures
        swap_outcome(program_id, owner, bid_refs, ask_refs, sen_refs, bid, ask, sen, amount)
            == Ok::<(Pool, Pool, Pool, crate::processor::SwapReceipt), AppError>(
            (bid, ask, sen, empty_receipt()),
        ),
{
}

/// Fees are charged on every output of at least 400 units when the bought
/// asset is not primary, and the earn fee is never charged when it is.
pub proof fn fees_are_charged(new_reserve: u64, reserve: u64, is_primary: bool)
    requires
        new_reserve <= reserve,
    ensures
        ({
            let (_, _, fee, earn) = spec_apply_fee(new_reserve, reserve, is_primary)->Some_0;
            &&& !is_primary && reserve - new_reserve >= 400 ==> fee + earn > 0
            &&& is_primary ==> earn == 0
        }),
{
}

/// Reserve and share supply of a pool are both zero, the state in which it
/// may be closed, or both positive.
pub open spec fn pool_well_formed(pool: Pool) -> bool {
    (pool.reserve == 0 && pool.lpt == 0) || (pool.reserve > 0 && pool.lpt > 0)
}

/// Deposits and withdrawals keep a pool well formed.
pub proof fn liquidity_keeps_pool_well_formed(
    program_id: Key,
    owner: AccountRef,
    pool_acc: AccountRef,
    treasury: Key,
    lpt_acc: AccountRef,
    treasurer: Key,
    pool: Pool,
    account: LPT,
    reserve: u64,
    lpt: u128,
)
    requires
        pool_well_formed(pool),
    ensures
        add_liquidity_outcome(program_id, owner, pool_acc, treasury, lpt_acc, pool, account, reserve)
            matches Ok(minted) ==> pool_well_formed(
            Pool { reserve: (pool.reserve + reserve) as u64, lpt: (pool.lpt + minted) as u128, ..pool },
        ),
        remove_liquidity_outcome(
            program_id,
            owner,
            pool_acc,
            treasury,
            lpt_acc,
            treasurer,
            pool,
            account,
            lpt,
        ) matches Ok(payout) ==> pool_well_formed(
            Pool { reserve: (pool.reserve - payout) as u64, lpt: (pool.lpt - lpt) as u128, ..pool },
        ),
{
    if remove_liquidity_outcome(
        program_id,
        owner,
        pool_acc,
        treasury,
        lpt_acc,
        treasurer,
        pool,
        account,
        lpt,
    ) is Ok {
        let q = spec_payout(pool.reserve, pool.lpt, lpt);
        let l = pool.lpt as int;
        let r = pool.reserve as int;
        if lpt < pool.lpt {
            assert(q < r) by (nonlinear_arith)
                requires
                    l > 0,
                    r > 0,
                    0 < lpt < l,
                    q == (r * lpt) / l,
            ;
        } else {
            assert(q == r) by (nonlinear_arith)
                requires
                    l > 0,
                    lpt == l,
                    q == (r * lpt) / l,
            ;
        }
    }
}

/// A deposit whose exact sums exceed the field widths fails with `Overflow`.
pub proof fn deposit_overflow_fails(
    program_id: Key,
    owner: AccountRef,
    pool_acc: AccountRef,
    treasury: Key,
    lpt_acc: AccountRef,
    pool: Pool,
    account: LPT,
    reserve: u64,
)
    requires
        add_liquidity_check(program_id, owner, pool_acc, treasury, lpt_acc, pool, account, reserve)
            is None,
        pool.reserve + reserve > u64::MAX || pool.lpt * reserve > u128::MAX || pool.reserve == 0,
    ensures
        add_liquidity_outcome(program_id, owner, pool_acc, treasury, lpt_acc, pool, account, reserve)
            == Err::<u128, AppError>(AppError::Overflow),
{
}

/// A swap between two pools whose bid reserve would exceed 64 bits fails
/// with `Overflow`.
pub proof fn swap_overflow_fails(
    program_id: Key,
    owner: AccountRef,
    bid_refs: PoolRefs,
    ask_refs: PoolRefs,
    sen_refs: PoolRefs,
    bid: Pool,
    ask: Pool,
    sen: Pool,
    amount: u64,
)
    requires
        swap_check(program_id, owner, bid_refs, ask_refs, sen_refs, bid, ask, sen, amount) is None,
        bid_refs.account.key@ != ask_refs.account.key@,
        bid.reserve + amount > u64::MAX,
    ensures
        swap_outcome(program_id, owner, bid_refs, ask_refs, sen_refs, bid, ask, sen, amount)
            == Err::<(Pool, Pool, Pool, crate::processor::SwapReceipt), AppError>(
            AppError::Overflow,
        ),
{
}

/// Opening an empty share account keeps the sum of a pool's balances, and a
/// new pool's only balance is its whole share supply.
pub proof fn opening_keeps_share_sum(balances: Seq<u128>, lpt: u128)
    ensures
        total_shares(balances.push(0)) == total_shares(balances),
        total_shares(seq![lpt]) == lpt,
{
    assert(balances.push(0).drop_last() =~= balances);
    let single = seq![lpt];
    assert(single.drop_last() =~= Seq::<u128>::empty());
    assert(total_shares(single.drop_last()) == 0);
    assert(single.last() == lpt);
}

} // verus!
