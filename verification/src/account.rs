//! Account records and the payout arithmetic that governs them.

use vstd::prelude::*;

verus! {

/// Largest corpus the ledger accepts. Keeping every corpus at or below
/// this bound guarantees that `corpus * percent` fits in an `i128` for
/// every percentage in `[0, 100]`.
pub const MAX_CORPUS: i128 = 1701411834604692317316873037158841057;

/// One account's stored record: when the holder may retire, what share of
/// the corpus each payout releases, and the corpus itself in the smallest
/// currency unit.
#[derive(Clone, Copy, Debug, PartialEq, Eq, Structural)]
pub struct UserConfig {
    /// Earliest time (epoch seconds) at which payouts are authorized.
    /// Zero means "not configured".
    pub retirement_ts: u64,
    /// Share of the remaining corpus released per payout, in `[0, 100]`.
    pub monthly_percent: u32,
    /// Accumulated balance available for payout, never negative.
    pub corpus: i128,
}

/// Why a ledger operation was refused. Every failure is detected before
/// any mutation, so a refused operation leaves stored state unchanged.
#[derive(Clone, Copy, Debug, PartialEq, Eq, Structural)]
pub enum Error {
    /// A negative amount was offered as a deposit.
    InvalidAmount,
    /// A payout percentage outside `[0, 100]` was offered.
    InvalidPercent,
    /// The operation needs an existing record and none is stored.
    AccountNotFound,
    /// A payout was attempted before the account's retirement time.
    NotYetEligible,
    /// The external value-transfer service reported failure.
    TransferFailed,
}

/// The zero record an absent account is read as: epoch-zero retirement
/// time, zero percent, empty corpus.
pub open spec fn default_record() -> UserConfig {
    UserConfig { retirement_ts: 0, monthly_percent: 0, corpus: 0 }
}

/// A record the ledger is willing to store: corpus within `[0, MAX_CORPUS]`
/// and percentage within `[0, 100]`.
pub open spec fn record_valid(cfg: UserConfig) -> bool {
    &&& 0 <= cfg.corpus <= MAX_CORPUS
    &&& cfg.monthly_percent <= 100
}

/// The payout a record authorizes: `floor(corpus * percent / 100)`.
pub open spec fn payout_amount(cfg: UserConfig) -> int {
    (cfg.corpus * cfg.monthly_percent) / 100
}

impl UserConfig {
    /// The zero record, as executable code.
    pub fn zeroed() -> (cfg: UserConfig)
        ensures
            cfg == default_record(),
    {
        UserConfig { retirement_ts: 0, monthly_percent: 0, corpus: 0 }
    }
}

/// A valid record's payout is never negative and never exceeds the corpus,
/// so paying it out can never drive the corpus negative.
pub proof fn lemma_payout_within_corpus(cfg: UserConfig)
    requires
        record_valid(cfg),
    ensures
        0 <= payout_amount(cfg) <= cfg.corpus,
{
    assert(0 <= cfg.corpus * cfg.monthly_percent <= cfg.corpus * 100) by (nonlinear_arith)
        requires
            0 <= cfg.corpus,
            cfg.monthly_percent <= 100,
    ;
    assert((cfg.corpus * cfg.monthly_percent) / 100 <= (cfg.corpus * 100) / 100) by (nonlinear_arith)
        requires
            0 <= cfg.corpus * cfg.monthly_percent <= cfg.corpus * 100,
    ;
}

} // verus!
