use pension_fund::Error;
use pension_fund::PensionFund;

#[test]
fn fresh_ledger_reads_zero_record() {
    let fund = PensionFund::init();
    let cfg = fund.get_user(1);
    assert_eq!(cfg.retirement_ts, 0);
    assert_eq!(cfg.monthly_percent, 0);
    assert_eq!(cfg.corpus, 0);
}

#[test]
fn deposits_accumulate() {
    let mut fund = PensionFund::init();
    assert_eq!(fund.deposit(1, 100), Ok(100));
    assert_eq!(fund.deposit(1, 250), Ok(350));
    assert_eq!(fund.deposit(1, 0), Ok(350));
    assert_eq!(fund.get_user(1).corpus, 350);
}

#[test]
fn deposits_are_per_account() {
    let mut fund = PensionFund::init();
    assert_eq!(fund.deposit(1, 100), Ok(100));
    assert_eq!(fund.deposit(2, 40), Ok(40));
    assert_eq!(fund.get_user(1).corpus, 100);
    assert_eq!(fund.get_user(2).corpus, 40);
}

#[test]
fn negative_deposit_rejected_without_mutation() {
    let mut fund = PensionFund::init();
    assert_eq!(fund.deposit(1, 500), Ok(500));
    assert_eq!(fund.deposit(1, -1), Err(Error::InvalidAmount));
    assert_eq!(fund.get_user(1).corpus, 500);
}

#[test]
fn configure_stores_time_and_percent() {
    let mut fund = PensionFund::init();
    assert_eq!(fund.deposit(1, 500), Ok(500));
    assert_eq!(fund.set_retirement(1, 1000, 40), Ok(()));
    let cfg = fund.get_user(1);
    assert_eq!(cfg.retirement_ts, 1000);
    assert_eq!(cfg.monthly_percent, 40);
    assert_eq!(cfg.corpus, 500);
}

#[test]
fn configure_invalid_percent_changes_nothing() {
    let mut fund = PensionFund::init();
    assert_eq!(fund.deposit(1, 500), Ok(500));
    assert_eq!(fund.set_retirement(1, 1000, 40), Ok(()));
    assert_eq!(fund.set_retirement(1, 2000, 150), Err(Error::InvalidPercent));
    let cfg = fund.get_user(1);
    assert_eq!(cfg.retirement_ts, 1000);
    assert_eq!(cfg.monthly_percent, 40);
    assert_eq!(cfg.corpus, 500);
}

#[test]
fn configure_percent_boundaries() {
    let mut fund = PensionFund::init();
    assert_eq!(fund.set_retirement(1, 10, 100), Ok(()));
    assert_eq!(fund.get_user(1).monthly_percent, 100);
    assert_eq!(fund.set_retirement(1, 10, 101), Err(Error::InvalidPercent));
    assert_eq!(fund.get_user(1).monthly_percent, 100);
}

#[test]
fn configure_twice_same_arguments_is_idempotent() {
    let mut fund = PensionFund::init();
    assert_eq!(fund.deposit(1, 300), Ok(300));
    assert_eq!(fund.set_retirement(1, 777, 25), Ok(()));
    let first = fund.get_user(1);
    assert_eq!(fund.set_retirement(1, 777, 25), Ok(()));
    let second = fund.get_user(1);
    assert_eq!(first, second);
}

#[test]
fn preview_is_pure() {
    let mut fund = PensionFund::init();
    assert_eq!(fund.deposit(1, 1000), Ok(1000));
    assert_eq!(fund.set_retirement(1, 500, 10), Ok(()));
    let before = fund.get_user(1);
    let first = fund.calculate_monthly(1);
    let second = fund.calculate_monthly(1);
    assert_eq!(first, Ok(100));
    assert_eq!(first, second);
    assert_eq!(fund.get_user(1), before);
}

#[test]
fn preview_absent_account_not_found() {
    let fund = PensionFund::init();
    assert_eq!(fund.calculate_monthly(1), Err(Error::AccountNotFound));
    // A read-only probe must not create the record.
    let cfg = fund.get_user(1);
    assert_eq!(cfg.corpus, 0);
    assert_eq!(fund.calculate_monthly(1), Err(Error::AccountNotFound));
}

#[test]
fn preview_rounds_down() {
    let mut fund = PensionFund::init();
    assert_eq!(fund.deposit(1, 999), Ok(999));
    assert_eq!(fund.set_retirement(1, 0, 10), Ok(()));
    assert_eq!(fund.calculate_monthly(1), Ok(99));
}

#[test]
fn preview_ignores_retirement_time() {
    let mut fund = PensionFund::init();
    assert_eq!(fund.deposit(1, 1000), Ok(1000));
    assert_eq!(fund.set_retirement(1, u64::MAX, 10), Ok(()));
    assert_eq!(fund.calculate_monthly(1), Ok(100));
}

#[test]
fn payout_before_retirement_not_eligible() {
    let mut fund = PensionFund::init();
    assert_eq!(fund.deposit(1, 1000), Ok(1000));
    assert_eq!(fund.set_retirement(1, 100, 10), Ok(()));
    assert_eq!(fund.prepare_payout(1, 99), Err(Error::NotYetEligible));
    assert_eq!(fund.trigger_payout(1, 99, true), Err(Error::NotYetEligible));
    assert_eq!(fund.get_user(1).corpus, 1000);
}

#[test]
fn payout_scenario_two_draws() {
    let mut fund = PensionFund::init();
    assert_eq!(fund.deposit(1, 1000), Ok(1000));
    assert_eq!(fund.set_retirement(1, 100, 10), Ok(()));
    assert_eq!(fund.trigger_payout(1, 100, true), Ok(100));
    assert_eq!(fund.get_user(1).corpus, 900);
    assert_eq!(fund.trigger_payout(1, 100, true), Ok(90));
    assert_eq!(fund.get_user(1).corpus, 810);
}

#[test]
fn payout_absent_account_not_found() {
    let mut fund = PensionFund::init();
    assert_eq!(fund.prepare_payout(1, 100), Err(Error::AccountNotFound));
    assert_eq!(fund.trigger_payout(1, 100, true), Err(Error::AccountNotFound));
}

#[test]
fn payout_unconfirmed_transfer_changes_nothing() {
    let mut fund = PensionFund::init();
    assert_eq!(fund.deposit(1, 1000), Ok(1000));
    assert_eq!(fund.set_retirement(1, 100, 10), Ok(()));
    assert_eq!(fund.trigger_payout(1, 100, false), Err(Error::TransferFailed));
    assert_eq!(fund.get_user(1).corpus, 1000);
}

#[test]
fn payout_zero_percent_is_zero() {
    let mut fund = PensionFund::init();
    assert_eq!(fund.deposit(1, 1000), Ok(1000));
    assert_eq!(fund.set_retirement(1, 100, 0), Ok(()));
    assert_eq!(fund.prepare_payout(1, 100), Ok(0));
    assert_eq!(fund.trigger_payout(1, 100, true), Ok(0));
    assert_eq!(fund.get_user(1).corpus, 1000);
}

#[test]
fn payout_full_percent_drains_corpus() {
    let mut fund = PensionFund::init();
    assert_eq!(fund.deposit(1, 1000), Ok(1000));
    assert_eq!(fund.set_retirement(1, 100, 100), Ok(()));
    assert_eq!(fund.trigger_payout(1, 200, true), Ok(1000));
    assert_eq!(fund.get_user(1).corpus, 0);
}

#[test]
fn prepare_and_trigger_agree_on_amount() {
    let mut fund = PensionFund::init();
    assert_eq!(fund.deposit(1, 12345), Ok(12345));
    assert_eq!(fund.set_retirement(1, 50, 7), Ok(()));
    let planned = fund.prepare_payout(1, 60);
    assert_eq!(planned, Ok(864));
    assert_eq!(fund.trigger_payout(1, 60, true), planned);
    assert_eq!(fund.get_user(1).corpus, 12345 - 864);
}
