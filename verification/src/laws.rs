//! Ledger-wide laws: properties that hold across whole sequences of
//! operations, proved once and for all states.

use vstd::prelude::*;

use crate::account::MAX_CORPUS;
use crate::account::lemma_payout_within_corpus;
use crate::account::payout_amount;
use crate::account::record_valid;
use crate::account::UserConfig;
use crate::ledger::record_of;
use crate::ledger::spec_configure;
use crate::ledger::spec_deposit;
use crate::ledger::spec_payout;

verus! {

/// The total of a sequence of deposit amounts.
pub open spec fn sum_of(amounts: Seq<i128>) -> int
    decreases amounts.len(),
{
    if amounts.len() == 0 {
        0
    } else {
        sum_of(amounts.drop_last()) + amounts.last()
    }
}

/// The stored state after depositing each amount, in order, into `user`.
pub open spec fn deposit_all(m: Map<u64, UserConfig>, user: u64, amounts: Seq<i128>) -> Map<
    u64,
    UserConfig,
>
    decreases amounts.len(),
{
    if amounts.len() == 0 {
        m
    } else {
        spec_deposit(deposit_all(m, user, amounts.drop_last()), user, amounts.last())
    }
}

proof fn lemma_sum_of_non_negative(amounts: Seq<i128>)
    requires
        forall|i: int| 0 <= i < amounts.len() ==> 0 <= #[trigger] amounts[i],
    ensures
        0 <= sum_of(amounts),
    decreases amounts.len(),
{
    if amounts.len() > 0 {
        lemma_sum_of_non_negative(amounts.drop_last());
    }
}

/// Law: any sequence of non-negative deposits into one account whose total
/// keeps the corpus within `MAX_CORPUS` leaves that account's corpus equal
/// to its prior corpus plus the sum of all amounts — and therefore never
/// negative.
pub proof fn lemma_deposits_sum_up(m: Map<u64, UserConfig>, user: u64, amounts: Seq<i128>)
    requires
        0 <= record_of(m, user).corpus,
        forall|i: int| 0 <= i < amounts.len() ==> 0 <= #[trigger] amounts[i],
        record_of(m, user).corpus + sum_of(amounts) <= MAX_CORPUS,
    ensures
        record_of(deposit_all(m, user, amounts), user).corpus == record_of(m, user).corpus
            + sum_of(amounts),
        0 <= record_of(deposit_all(m, user, amounts), user).corpus,
    decreases amounts.len(),
{
    if amounts.len() > 0 {
        let prefix = amounts.drop_last();
        assert(forall|i: int| 0 <= i < prefix.len() ==> 0 <= #[trigger] prefix[i]);
        lemma_sum_of_non_negative(prefix);
        lemma_deposits_sum_up(m, user, prefix);
    }
}

/// Law: a settled payout never grows the next one. After a payout the
/// remaining corpus authorizes at most the amount that was just paid out,
/// since each payout is a percentage of what remains, not of an original
/// principal.
pub proof fn lemma_payouts_shrink(m: Map<u64, UserConfig>, user: u64)
    requires
        record_valid(record_of(m, user)),
    ensures
        payout_amount(record_of(spec_payout(m, user), user)) <= payout_amount(record_of(m, user)),
{
    let cfg = record_of(m, user);
    lemma_payout_within_corpus(cfg);
    let drained = (cfg.corpus - payout_amount(cfg)) as i128;
    assert(drained * cfg.monthly_percent <= cfg.corpus * cfg.monthly_percent) by (nonlinear_arith)
        requires
            0 <= drained <= cfg.corpus,
            0 <= cfg.monthly_percent,
    ;
    assert((drained * cfg.monthly_percent) / 100 <= (cfg.corpus * cfg.monthly_percent) / 100)
        by (nonlinear_arith)
        requires
            drained * cfg.monthly_percent <= cfg.corpus * cfg.monthly_percent,
    ;
}

/// Law: configuring an account twice with the same arguments yields the
/// same stored state as configuring it once.
pub proof fn lemma_configure_idempotent(
    m: Map<u64, UserConfig>,
    user: u64,
    retirement_ts: u64,
    monthly_percent: u32,
)
    ensures
        spec_configure(spec_configure(m, user, retirement_ts, monthly_percent),
            user,
            retirement_ts,
            monthly_percent,
        ) == spec_configure(m, user, retirement_ts, monthly_percent),
{
    let once = spec_configure(m, user, retirement_ts, monthly_percent);
    assert(spec_configure(once, user, retirement_ts, monthly_percent) =~= once);
}

} // verus!
