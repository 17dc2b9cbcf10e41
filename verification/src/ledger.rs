//! The account ledger: the mapping from account identity to record and the
//! operations that read or mutate it.

use std::collections::HashMap;
use vstd::prelude::*;

use crate::account::Error;
use crate::account::MAX_CORPUS;
use crate::account::UserConfig;
use crate::account::default_record;
use crate::account::payout_amount;
use crate::account::record_valid;

verus! {

broadcast use vstd::std_specs::hash::group_hash_axioms;

/// The record an account is read as: the stored one, or the zero record if
/// none is stored.
pub open spec fn record_of(m: Map<u64, UserConfig>, user: u64) -> UserConfig {
    if m.contains_key(user) {
        m[user]
    } else {
        default_record()
    }
}

/// The stored state after a deposit of `amount` into `user`'s corpus.
pub open spec fn spec_deposit(m: Map<u64, UserConfig>, user: u64, amount: i128) -> Map<
    u64,
    UserConfig,
> {
    let cfg = record_of(m, user);
    m.insert(
        user,
        UserConfig {
            retirement_ts: cfg.retirement_ts,
            monthly_percent: cfg.monthly_percent,
            corpus: (cfg.corpus + amount) as i128,
        },
    )
}

/// The stored state after `user`'s retirement time and percentage are
/// overwritten; the corpus is kept.
pub open spec fn spec_configure(
    m: Map<u64, UserConfig>,
    user: u64,
    retirement_ts: u64,
    monthly_percent: u32,
) -> Map<u64, UserConfig> {
    let cfg = record_of(m, user);
    m.insert(
        user,
        UserConfig { retirement_ts, monthly_percent, corpus: cfg.corpus },
    )
}

/// The stored state after `user`'s authorized payout leaves the corpus;
/// retirement time and percentage are kept.
pub open spec fn spec_payout(m: Map<u64, UserConfig>, user: u64) -> Map<u64, UserConfig> {
    let cfg = record_of(m, user);
    m.insert(
        user,
        UserConfig {
            retirement_ts: cfg.retirement_ts,
            monthly_percent: cfg.monthly_percent,
            corpus: (cfg.corpus - payout_amount(cfg)) as i128,
        },
    )
}

/// The pension-fund ledger. It owns the mapping from account identity to
/// record and is the sole authorized mutator; a host persists it and
/// supplies the clock and the value-transfer service.
pub struct PensionFund {
    accounts: HashMap<u64, UserConfig>,
}

impl View for PensionFund {
    type V = Map<u64, UserConfig>;

    closed spec fn view(&self) -> Map<u64, UserConfig> {
        self.accounts@
    }
}

impl PensionFund {
    /// Every stored record is one the ledger was willing to store.
    pub open spec fn well_formed(self) -> bool {
        forall|user: u64| self@.contains_key(user) ==> record_valid(#[trigger] self@[user])
    }

    /// An empty ledger: no account has a stored record.
    pub fn init() -> (fund: PensionFund)
        ensures
            fund@ == Map::<u64, UserConfig>::empty(),
            fund.well_formed(),
    {
        PensionFund { accounts: HashMap::new() }
    }

    /// Deposits `amount` into `user`'s corpus, creating the record from the
    /// zero default on first touch. Negative amounts are rejected as
    /// `InvalidAmount` without mutating: deposits are not a withdrawal
    /// path. Returns the resulting corpus so the host can report it.
    pub fn deposit(&mut self, user: u64, amount: i128) -> (result: Result<i128, Error>)
        requires
            old(self).well_formed(),
            0 <= amount ==> record_of(old(self)@, user).corpus + amount <= MAX_CORPUS,
        ensures
            final(self).well_formed(),
            amount < 0 ==> result == Err::<i128, Error>(Error::InvalidAmount) && final(self)@
                == old(self)@,
            0 <= amount ==> final(self)@ == spec_deposit(old(self)@, user, amount) && result
                == Ok::<i128, Error>((record_of(old(self)@, user).corpus + amount) as i128),
    {
        if amount < 0 {
            return Err(Error::InvalidAmount);
        }
        let mut cfg = self.get_user(user);
        cfg.corpus = cfg.corpus + amount;
        self.accounts.insert(user, cfg);
        Ok(cfg.corpus)
    }

    /// Overwrites `user`'s retirement time and payout percentage, keeping
    /// the corpus and creating the record from the zero default on first
    /// touch. A percentage outside `[0, 100]` is rejected as
    /// `InvalidPercent` without mutating.
    pub fn set_retirement(
        &mut self,
        user: u64,
        retirement_ts: u64,
        monthly_percent: u32,
    ) -> (result: Result<(), Error>)
        requires
            old(self).well_formed(),
        ensures
            final(self).well_formed(),
            monthly_percent > 100 ==> result == Err::<(), Error>(Error::InvalidPercent)
                && final(self)@ == old(self)@,
            monthly_percent <= 100 ==> result == Ok::<(), Error>(()) && final(self)@
                == spec_configure(old(self)@, user, retirement_ts, monthly_percent),
    {
        if monthly_percent > 100 {
            return Err(Error::InvalidPercent);
        }
        let mut cfg = self.get_user(user);
        cfg.retirement_ts = retirement_ts;
        cfg.monthly_percent = monthly_percent;
        self.accounts.insert(user, cfg);
        Ok(())
    }

    /// Previews the payout `user`'s stored record currently authorizes:
    /// `floor(corpus * percent / 100)`. Read-only, so it neither checks the
    /// retirement time nor creates a record; an absent account is refused
    /// as `AccountNotFound`.
    pub fn calculate_monthly(&self, user: u64) -> (result: Result<i128, Error>)
        requires
            self.well_formed(),
        ensures
            match result {
                Ok(amount) => self@.contains_key(user) && amount == payout_amount(self@[user]),
                Err(e) => e == Error::AccountNotFound && !self@.contains_key(user),
            },
    {
        match self.accounts.get(&user) {
            None => Err(Error::AccountNotFound),
            Some(cfg) => {
                proof {
                    assert(self@.contains_key(user) && *cfg == self@[user]);
                    assert(record_valid(*cfg));
                    assert(0 <= cfg.corpus * cfg.monthly_percent <= MAX_CORPUS * 100)
                        by (nonlinear_arith)
                        requires
                            0 <= cfg.corpus <= MAX_CORPUS,
                            cfg.monthly_percent <= 100,
                    ;
                }
                Ok((cfg.corpus * (cfg.monthly_percent as i128)) / 100)
            },
        }
    }

    /// Decides whether a payout is authorized now and, if so, how much the
    /// value-transfer service should move. Pure: the first phase of the
    /// two-phase payout protocol, run before any value moves.
    pub fn prepare_payout(&self, user: u64, now: u64) -> (result: Result<i128, Error>)
        requires
            self.well_formed(),
        ensures
            match result {
                Ok(amount) => self@.contains_key(user) && now >= self@[user].retirement_ts
                    && amount == payout_amount(self@[user]),
                Err(e) => (e == Error::AccountNotFound && !self@.contains_key(user)) || (e
                    == Error::NotYetEligible && self@.contains_key(user) && now
                    < self@[user].retirement_ts),
            },
    {
        match self.accounts.get(&user) {
            None => Err(Error::AccountNotFound),
            Some(cfg) => {
                if now < cfg.retirement_ts {
                    Err(Error::NotYetEligible)
                } else {
                    self.calculate_monthly(user)
                }
            },
        }
    }

    /// Settles a payout: the second phase of the two-phase protocol, run
    /// after the host has observed the value-transfer outcome for the
    /// amount `prepare_payout` returned (a zero amount may skip the
    /// transfer and pass `transfer_confirmed = true`). Only a confirmed
    /// transfer mutates: the payout leaves the corpus, and the same amount
    /// is returned so the host can report it. An absent account, an
    /// attempt before the retirement time, and an unconfirmed transfer are
    /// refused in that order, leaving stored state unchanged.
    ///
    /// No cooldown is enforced: repeated settlements within one
    /// eligibility window are allowed, and each draws its percentage from
    /// the corpus that remains after the previous one.
    pub fn trigger_payout(&mut self, user: u64, now: u64, transfer_confirmed: bool) -> (result:
        Result<i128, Error>)
        requires
            old(self).well_formed(),
        ensures
            final(self).well_formed(),
            !old(self)@.contains_key(user) ==> result == Err::<i128, Error>(
                Error::AccountNotFound,
            ) && final(self)@ == old(self)@,
            old(self)@.contains_key(user) && now < old(self)@[user].retirement_ts ==> result
                == Err::<i128, Error>(Error::NotYetEligible) && final(self)@ == old(self)@,
            old(self)@.contains_key(user) && now >= old(self)@[user].retirement_ts
                && !transfer_confirmed ==> result == Err::<i128, Error>(Error::TransferFailed)
                && final(self)@ == old(self)@,
            old(self)@.contains_key(user) && now >= old(self)@[user].retirement_ts
                && transfer_confirmed ==> {
                let paid = payout_amount(old(self)@[user]);
                &&& result == Ok::<i128, Error>(paid as i128)
                &&& 0 <= paid <= old(self)@[user].corpus
                &&& final(self)@ == spec_payout(old(self)@, user)
            },
    {
        let monthly = match self.prepare_payout(user, now) {
            Err(e) => {
                return Err(e);
            },
            Ok(amount) => amount,
        };
        if !transfer_confirmed {
            return Err(Error::TransferFailed);
        }
        let mut cfg = self.get_user(user);
        proof {
            crate::account::lemma_payout_within_corpus(cfg);
        }
        cfg.corpus = cfg.corpus - monthly;
        self.accounts.insert(user, cfg);
        Ok(monthly)
    }

    /// Reads `user`'s record, or the zero record if none is stored. Never
    /// mutates and never persists: probing an absent account does not
    /// create it.
    pub fn get_user(&self, user: u64) -> (cfg: UserConfig)
        ensures
            cfg == record_of(self@, user),
    {
        match self.accounts.get(&user) {
            Some(cfg) => *cfg,
            None => UserConfig::zeroed(),
        }
    }
}

} // verus!
