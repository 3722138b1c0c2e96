use vstd::prelude::*;

use crate::instructions::add_tip::{spec_apply_tip, spec_tip_check};
use crate::states::Tipper;

verus! {

/// The sum of a sequence of tip amounts, as an unbounded integer.
pub open spec fn sum_of(amounts: Seq<u64>) -> int
    decreases amounts.len(),
{
    if amounts.len() == 0 {
        0
    } else {
        amounts[0] + sum_of(amounts.drop_first())
    }
}

/// Every amount is a machine integer, so no sum of amounts is negative.
pub proof fn lemma_sum_nonneg(amounts: Seq<u64>)
    ensures
        sum_of(amounts) >= 0,
    decreases amounts.len(),
{
    if amounts.len() > 0 {
        lemma_sum_nonneg(amounts.drop_first());
    }
}

/// A campaign record run through a sequence of tip attempts, each handled as
/// the tip ledger handles it: an attempt that fails a check leaves the
/// record untouched, an accepted one credits its amount and may close the
/// campaign.
pub open spec fn run_tips(t: Tipper, amounts: Seq<u64>) -> Tipper
    decreases amounts.len(),
{
    if amounts.len() == 0 {
        t
    } else {
        let t1 = if spec_tip_check(t, amounts[0]) is None {
            spec_apply_tip(t, amounts[0])
        } else {
            t
        };
        run_tips(t1, amounts.drop_first())
    }
}

/// Balance accounting over a run of tips against an open campaign: positive
/// amounts whose running total never overflows 64 bits, and never passes the
/// capacity ceiling before the last tip, are all accepted. The final balance
/// is the starting balance plus the sum of all the amounts, and the campaign
/// ends closed exactly when that final total passed the capacity.
///
/// The proviso that only the last running total may pass the ceiling is the
/// tip ledger's own behaviour, not a convenience: the tip that passes the
/// ceiling closes the campaign in the same step, so had an earlier total
/// passed it, every later tip would have been refused and never credited.
pub proof fn lemma_tip_sequence(t: Tipper, amounts: Seq<u64>)
    requires
        t.wf(),
        t.state is Open,
        forall|i: int| 0 <= i < amounts.len() ==> amounts[i] > 0,
        t.balance + sum_of(amounts) <= u64::MAX,
        forall|k: int|
            0 <= k < amounts.len() - 1 ==> t.balance + sum_of(#[trigger] amounts.take(k + 1))
                <= t.max_balance,
    ensures
        run_tips(t, amounts).balance == t.balance + sum_of(amounts),
        run_tips(t, amounts).state is Closed <==> t.balance + sum_of(amounts) > t.max_balance,
        run_tips(t, amounts).state is Open <==> t.balance + sum_of(amounts) <= t.max_balance,
    decreases amounts.len(),
{
    if amounts.len() > 0 {
        let a0 = amounts[0];
        let rest = amounts.drop_first();
        lemma_sum_nonneg(rest);
        assert(sum_of(amounts) == a0 + sum_of(rest));
        assert(spec_tip_check(t, a0) is None);
        let t1 = spec_apply_tip(t, a0);
        if rest.len() == 0 {
            assert(run_tips(t, amounts) == t1);
        } else {
            // the first running total stays within the ceiling, so the
            // campaign is still open for the rest of the run
            assert(amounts.take(1).drop_first() =~= Seq::<u64>::empty());
            assert(sum_of(Seq::<u64>::empty()) == 0);
            assert(sum_of(amounts.take(1)) == amounts.take(1)[0] + sum_of(
                amounts.take(1).drop_first(),
            ));
            assert(sum_of(amounts.take(1)) == a0);
            assert(t.balance + a0 <= t.max_balance);
            assert(t1.state is Open);
            // the hypotheses carry over to the shorter run from t1
            assert forall|k: int|
                0 <= k < rest.len() - 1 implies t1.balance + sum_of(
                #[trigger] rest.take(k + 1),
            ) <= t1.max_balance by {
                assert(amounts.take(k + 2).drop_first() =~= rest.take(k + 1));
                assert(amounts.take(k + 2)[0] == a0);
                assert(sum_of(amounts.take(k + 2)) == amounts.take(k + 2)[0] + sum_of(
                    amounts.take(k + 2).drop_first(),
                ));
                assert(sum_of(amounts.take(k + 2)) == a0 + sum_of(rest.take(k + 1)));
                let kk = k + 1;
                assert(0 <= kk < amounts.len() - 1);
                assert(t.balance + sum_of(amounts.take(kk + 1)) <= t.max_balance);
                assert(amounts.take(kk + 1) == amounts.take(k + 2));
            }
            lemma_tip_sequence(t1, rest);
            assert(run_tips(t, amounts) == run_tips(t1, rest));
        }
    }
}

} // verus!
