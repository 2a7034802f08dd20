//! The distributor: turns a payment amount and a work's registry into a
//! sequence of transfer instructions for the external ledger service.
//!
//! Every contributor but the last receives the floored proportion
//! `amount * weight / total_weight`; the last receives the exact remainder,
//! so the shares always sum to the amount. Zero shares produce no
//! instruction.

use vstd::prelude::*;

use crate::arith::lemma_floor_sum;
use crate::arith::lemma_proportion_nonneg;
use crate::model::AccountId;
use crate::model::ErrorCode;
use crate::model::Music;
use crate::model::weight_prefix_sum;
use crate::model::weights_of;
use vstd::arithmetic::div_mod::lemma_div_is_ordered;
use vstd::arithmetic::div_mod::lemma_div_multiples_vanish;
use vstd::arithmetic::mul::lemma_mul_inequality;
use vstd::arithmetic::mul::lemma_mul_is_distributive_add;
use vstd::arithmetic::mul::lemma_mul_nonnegative;

verus! {

/// One transfer for the external ledger: move `amount` from `from` to `to`,
/// authorized by `authority`.
#[derive(Clone, Copy, PartialEq, Eq, Structural, Debug)]
pub struct TransferInstruction {
    pub from: AccountId,
    pub to: AccountId,
    pub authority: AccountId,
    pub amount: u64,
}

/// The inputs of a distribution call: the registry snapshot, the account the
/// payment sits on, the identity authorizing the transfers, and one
/// destination per contributor, in contributor order.
pub struct DistributeRoyalty {
    pub music: Music,
    pub royalty_source: AccountId,
    pub authority: AccountId,
    pub destinations: Vec<AccountId>,
}

/// The floored proportion of `amount` that a weight of `weight` out of
/// `total` earns.
pub open spec fn proportional_share(amount: u64, weight: u16, total: u16) -> int
    recommends
        total > 0,
{
    (amount as int * weight as int) / (total as int)
}

/// Sum of the proportional shares of the first `k` weights.
pub open spec fn share_prefix_sum(amount: u64, ws: Seq<u16>, total: u16, k: int) -> int
    decreases k,
{
    if k <= 0 {
        0
    } else {
        share_prefix_sum(amount, ws, total, k - 1) + proportional_share(amount, ws[k - 1], total)
    }
}

/// The share of contributor `i`: the floored proportion for every
/// contributor but the last, and the exact remainder for the last.
pub open spec fn share_at(amount: u64, ws: Seq<u16>, total: u16, i: int) -> int
    recommends
        ws.len() > 0,
        0 <= i < ws.len(),
        total > 0,
{
    if i < ws.len() - 1 {
        proportional_share(amount, ws[i], total)
    } else {
        amount - share_prefix_sum(amount, ws, total, ws.len() - 1)
    }
}

/// The instructions for the first `k` contributors: one per positive share,
/// in contributor order.
pub open spec fn payouts_prefix(d: DistributeRoyalty, amount: u64, k: int) -> Seq<
    TransferInstruction,
>
    decreases k,
{
    if k <= 0 {
        Seq::empty()
    } else {
        let prev = payouts_prefix(d, amount, k - 1);
        let s = share_at(amount, weights_of(d.music.contributors@), d.music.total_weight, k - 1);
        if s > 0 {
            prev.push(
                TransferInstruction {
                    from: d.royalty_source,
                    to: d.destinations@[k - 1],
                    authority: d.authority,
                    amount: s as u64,
                },
            )
        } else {
            prev
        }
    }
}

/// All instructions of one distribution.
pub open spec fn payouts(d: DistributeRoyalty, amount: u64) -> Seq<TransferInstruction> {
    payouts_prefix(d, amount, d.music.contributors@.len() as int)
}

/// Whether every arithmetic step of the share computation stays in range:
/// the proportional shares must not together exceed the amount.
pub open spec fn shares_in_range(d: DistributeRoyalty, amount: u64) -> bool {
    share_prefix_sum(
        amount,
        weights_of(d.music.contributors@),
        d.music.total_weight,
        d.music.contributors@.len() - 1,
    ) <= amount
}

/// What a distribution returns, for every input: the precondition checks in
/// order, then the instruction sequence.
pub open spec fn distribute_spec(d: DistributeRoyalty, amount: u64) -> Result<
    Seq<TransferInstruction>,
    ErrorCode,
> {
    if !d.music.initialized {
        Err(ErrorCode::NotInitialized)
    } else if d.music.total_weight == 0 {
        Err(ErrorCode::NoContributors)
    } else if d.music.contributors@.len() == 0 {
        Err(ErrorCode::NoContributors)
    } else if d.destinations@.len() != d.music.contributors@.len() {
        Err(ErrorCode::InvalidContributors)
    } else if !shares_in_range(d, amount) {
        Err(ErrorCode::MathOverflow)
    } else {
        Ok(payouts(d, amount))
    }
}

/// Whether an executable result equals the specified one.
pub open spec fn result_agrees(
    r: Result<Vec<TransferInstruction>, ErrorCode>,
    s: Result<Seq<TransferInstruction>, ErrorCode>,
) -> bool {
    match (r, s) {
        (Ok(v), Ok(sq)) => v@ == sq,
        (Err(e1), Err(e2)) => e1 == e2,
        _ => false,
    }
}

/// Share prefix sums start at zero and never decrease.
pub proof fn lemma_share_prefix_sum_mono(amount: u64, ws: Seq<u16>, total: u16, k: int, m: int)
    requires
        total > 0,
        0 <= k <= m <= ws.len(),
    ensures
        0 <= share_prefix_sum(amount, ws, total, k) <= share_prefix_sum(amount, ws, total, m),
    decreases m,
{
    if m > k {
        lemma_share_prefix_sum_mono(amount, ws, total, k, m - 1);
        lemma_proportion_nonneg(amount as int, ws[m - 1] as int, total as int);
    } else if m > 0 {
        lemma_share_prefix_sum_mono(amount, ws, total, k - 1, m - 1);
        lemma_proportion_nonneg(amount as int, ws[m - 1] as int, total as int);
    }
}

/// A share prefix sum never exceeds the floored proportion of the
/// corresponding weight prefix sum: rounding only ever loses value.
pub proof fn lemma_share_prefix_le_weighted(amount: u64, ws: Seq<u16>, total: u16, k: int)
    requires
        total > 0,
        0 <= k <= ws.len(),
    ensures
        share_prefix_sum(amount, ws, total, k) <= (amount as int * weight_prefix_sum(ws, k)) / (
        total as int),
    decreases k,
{
    let a = amount as int;
    let t = total as int;
    if k <= 0 {
        assert((a * 0) / t == 0);
    } else {
        lemma_share_prefix_le_weighted(amount, ws, total, k - 1);
        let wp = weight_prefix_sum(ws, k - 1);
        let w = ws[k - 1] as int;
        crate::model::lemma_weight_prefix_sum_nonneg(ws, k - 1);
        lemma_mul_nonnegative(a, wp);
        lemma_mul_nonnegative(a, w);
        lemma_floor_sum(a * wp, a * w, t);
        lemma_mul_is_distributive_add(a, wp, w);
    }
}

impl DistributeRoyalty {
    /// Checks the distribution preconditions in order, computes every
    /// contributor's share, and returns the transfer instructions in
    /// contributor order, one per positive share.
    ///
    /// The result is exactly `distribute_spec`; on a well-formed registry
    /// with positive total weight and one destination per contributor the
    /// call always succeeds.
    pub fn distribute(&self, amount: u64) -> (r: Result<Vec<TransferInstruction>, ErrorCode>)
        ensures
            result_agrees(r, distribute_spec(*self, amount)),
            self.music.wf() && self.music.initialized && self.music.total_weight > 0
                && self.destinations@.len() == self.music.contributors@.len() ==> r is Ok,
    {
        proof {
            if self.music.wf() && self.music.total_weight > 0
                && self.music.contributors@.len() > 0 {
                lemma_wf_shares_in_range(*self, amount);
            }
        }
        if !self.music.initialized {
            return Err(ErrorCode::NotInitialized);
        }
        if self.music.total_weight == 0 {
            return Err(ErrorCode::NoContributors);
        }
        let n = self.music.contributors.len();
        if n == 0 {
            return Err(ErrorCode::NoContributors);
        }
        if self.destinations.len() != n {
            return Err(ErrorCode::InvalidContributors);
        }
        let total = self.music.total_weight;
        let ghost ws = weights_of(self.music.contributors@);
        let mut out: Vec<TransferInstruction> = Vec::new();
        let mut paid: u64 = 0;
        let mut i: usize = 0;
        while i < n - 1
            invariant
                0 < n == self.music.contributors@.len() == self.destinations@.len(),
                i < n,
                self.music.initialized,
                total == self.music.total_weight,
                total > 0,
                ws == weights_of(self.music.contributors@),
                paid as int == share_prefix_sum(amount, ws, total, i as int),
                out@ == payouts_prefix(*self, amount, i as int),
            decreases n - 1 - i,
        {
            let w = self.music.contributors[i].contribution_weight;
            proof {
                vstd::arithmetic::mul::lemma_mul_upper_bound(
                    amount as int,
                    u64::MAX as int,
                    w as int,
                    u16::MAX as int,
                );
            }
            let product: u128 = (amount as u128) * (w as u128);
            let wide_share: u128 = product / (total as u128);
            assert(wide_share as int == proportional_share(amount, ws[i as int], total));
            if wide_share > u64::MAX as u128 {
                proof {
                    lemma_share_prefix_sum_mono(amount, ws, total, 0, i as int);
                    lemma_share_prefix_sum_mono(
                        amount,
                        ws,
                        total,
                        i as int + 1,
                        ws.len() as int - 1,
                    );
                    assert(share_prefix_sum(amount, ws, total, i as int + 1) > amount);
                    assert(!shares_in_range(*self, amount));
                    if self.music.wf() {
                        lemma_wf_shares_in_range(*self, amount);
                    }
                }
                return Err(ErrorCode::MathOverflow);
            }
            let share: u64 = wide_share as u64;
            if paid > u64::MAX - share {
                proof {
                    lemma_share_prefix_sum_mono(
                        amount,
                        ws,
                        total,
                        i as int + 1,
                        ws.len() as int - 1,
                    );
                    assert(share_prefix_sum(amount, ws, total, i as int + 1) > amount);
                    assert(!shares_in_range(*self, amount));
                    if self.music.wf() {
                        lemma_wf_shares_in_range(*self, amount);
                    }
                }
                return Err(ErrorCode::MathOverflow);
            }
            paid = paid + share;
            if share > 0 {
                out.push(
                    TransferInstruction {
                        from: self.royalty_source,
                        to: self.destinations[i],
                        authority: self.authority,
                        amount: share,
                    },
                );
            }
            proof {
                assert(out@ == payouts_prefix(*self, amount, i as int + 1));
            }
            i = i + 1;
        }
        if paid > amount {
            return Err(ErrorCode::MathOverflow);
        }
        let last = amount - paid;
        if last > 0 {
            out.push(
                TransferInstruction {
                    from: self.royalty_source,
                    to: self.destinations[n - 1],
                    authority: self.authority,
                    amount: last,
                },
            );
        }
        proof {
            assert(last as int == share_at(amount, ws, total, n as int - 1));
            assert(out@ == payouts_prefix(*self, amount, n as int));
        }
        Ok(out)
    }
}

/// Distributes `amount` according to the registry snapshot in `ctx`.
pub fn distribute_royalty(ctx: &DistributeRoyalty, amount: u64) -> (r: Result<
    Vec<TransferInstruction>,
    ErrorCode,
>)
    ensures
        result_agrees(r, distribute_spec(*ctx, amount)),
        ctx.music.wf() && ctx.music.initialized && ctx.music.total_weight > 0
            && ctx.destinations@.len() == ctx.music.contributors@.len() ==> r is Ok,
{
    ctx.distribute(amount)
}

/// No prefix of the weights sums past the registry total, so under the
/// registry invariant the proportional shares together fit in `amount`.
pub proof fn lemma_wf_shares_in_range(d: DistributeRoyalty, amount: u64)
    requires
        d.music.wf(),
        d.music.total_weight > 0,
        d.music.contributors@.len() > 0,
    ensures
        shares_in_range(d, amount),
{
    let ws = weights_of(d.music.contributors@);
    let n = d.music.contributors@.len() as int;
    let a = amount as int;
    let t = d.music.total_weight as int;
    lemma_share_prefix_le_weighted(amount, ws, d.music.total_weight, n - 1);
    let wp = weight_prefix_sum(ws, n - 1);
    crate::model::lemma_weight_prefix_sum_mono(ws, n - 1, n);
    crate::model::lemma_weight_prefix_sum_nonneg(ws, n - 1);
    lemma_mul_inequality(wp, t, a);
    assert(a * wp <= t * a);
    lemma_div_is_ordered(a * wp, t * a, t);
    lemma_div_multiples_vanish(a, t);
}

/// For every two-contributor split with positive total weight, the two
/// shares sum exactly to the amount: no value is lost or created.
pub proof fn lemma_two_way_split_exact(amount: u64, w0: u16, w1: u16)
    requires
        w0 + w1 > 0,
        w0 + w1 <= u16::MAX,
    ensures
        ({
            let ws = seq![w0, w1];
            let total = (w0 + w1) as u16;
            share_at(amount, ws, total, 0) + share_at(amount, ws, total, 1) == amount
        }),
{
    let ws = seq![w0, w1];
    let total = (w0 + w1) as u16;
    assert(share_prefix_sum(amount, ws, total, 1)
        == share_prefix_sum(amount, ws, total, 0) + proportional_share(amount, ws[0], total));
}

/// For every two-contributor split with positive total weight: the first
/// share is the floored proportion of the first weight, the second share is
/// the exact remainder, and both lie between zero and the amount.
pub proof fn lemma_two_way_share_bounds(amount: u64, w0: u16, w1: u16)
    requires
        w0 + w1 > 0,
        w0 + w1 <= u16::MAX,
    ensures
        ({
            let ws = seq![w0, w1];
            let total = (w0 + w1) as u16;
            &&& share_at(amount, ws, total, 0) == (amount as int * w0 as int) / (w0 + w1)
            &&& share_at(amount, ws, total, 1) == amount - share_at(amount, ws, total, 0)
            &&& 0 <= share_at(amount, ws, total, 0) <= amount
            &&& 0 <= share_at(amount, ws, total, 1) <= amount
        }),
{
    let ws = seq![w0, w1];
    let total = (w0 + w1) as u16;
    crate::arith::lemma_proportion_in_range(amount as int, w0 as int, total as int);
    assert(share_prefix_sum(amount, ws, total, 1)
        == share_prefix_sum(amount, ws, total, 0) + proportional_share(amount, ws[0], total));
}

/// Sum of the amounts of a sequence of transfer instructions.
pub open spec fn amount_total(s: Seq<TransferInstruction>) -> int
    decreases s.len(),
{
    if s.len() == 0 {
        0
    } else {
        amount_total(s.drop_last()) + s.last().amount
    }
}

/// The instructions for the first `k` contributors move exactly the sum of
/// the first `k` shares: dropping zero shares drops no value.
proof fn lemma_payouts_prefix_amount(d: DistributeRoyalty, amount: u64, k: int)
    requires
        d.music.total_weight > 0,
        d.music.contributors@.len() > 0,
        shares_in_range(d, amount),
        0 <= k <= d.music.contributors@.len() - 1,
    ensures
        amount_total(payouts_prefix(d, amount, k))
            == share_prefix_sum(amount, weights_of(d.music.contributors@), d.music.total_weight, k),
    decreases k,
{
    let ws = weights_of(d.music.contributors@);
    let total = d.music.total_weight;
    if k > 0 {
        lemma_payouts_prefix_amount(d, amount, k - 1);
        let prev = payouts_prefix(d, amount, k - 1);
        let s = share_at(amount, ws, total, k - 1);
        lemma_proportion_nonneg(amount as int, ws[k - 1] as int, total as int);
        if s > 0 {
            lemma_share_prefix_sum_mono(amount, ws, total, 0, k - 1);
            lemma_share_prefix_sum_mono(amount, ws, total, k, ws.len() as int - 1);
            assert(s <= amount);
            let instr = TransferInstruction {
                from: d.royalty_source,
                to: d.destinations@[k - 1],
                authority: d.authority,
                amount: s as u64,
            };
            assert(prev.push(instr).drop_last() =~= prev);
        }
    }
}

/// No value lost or created, for any number of contributors: under the
/// registry invariant, the amounts of the issued transfer instructions sum
/// exactly to the distributed amount.
pub proof fn lemma_distribution_conserves_amount(d: DistributeRoyalty, amount: u64)
    requires
        d.music.wf(),
        d.music.total_weight > 0,
        d.music.contributors@.len() > 0,
    ensures
        amount_total(payouts(d, amount)) == amount,
{
    let ws = weights_of(d.music.contributors@);
    let total = d.music.total_weight;
    let n = d.music.contributors@.len() as int;
    lemma_wf_shares_in_range(d, amount);
    lemma_payouts_prefix_amount(d, amount, n - 1);
    let prev = payouts_prefix(d, amount, n - 1);
    let s = share_at(amount, ws, total, n - 1);
    lemma_share_prefix_sum_mono(amount, ws, total, 0, n - 1);
    if s > 0 {
        let instr = TransferInstruction {
            from: d.royalty_source,
            to: d.destinations@[n - 1],
            authority: d.authority,
            amount: s as u64,
        };
        assert(prev.push(instr).drop_last() =~= prev);
    }
}

} // verus!
