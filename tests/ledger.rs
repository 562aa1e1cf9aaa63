use cargo_delay_insurance::days::days_delayed;
use cargo_delay_insurance::ledger::{
    CargoDelayInsurance, ClaimOrder, DEFAULT_MAX_PAYOUT_DAYS, DEFAULT_PAYOUT_PER_DAY,
    DEFAULT_PREMIUM,
};
use cargo_delay_insurance::types::{Address, LedgerError, Policy, Status};

const DAY: u128 = 86400;
const T: u128 = 1_700_000_000;

fn admin() -> Address {
    Address::new(0, 0xad)
}

fn buyer() -> Address {
    Address::new(7, 0xb0b)
}

fn stranger() -> Address {
    Address::new(0, 0x5)
}

fn token() -> Address {
    Address::new(0x1234, 0x5678)
}

/// A ledger initialised by `admin()` with premium 1000, 10 per day, 10 days,
/// and one policy bought by `buyer()` expected at `T`.
fn ledger_with_policy() -> (CargoDelayInsurance, u128) {
    let mut l = CargoDelayInsurance::new();
    l.init(admin(), token()).unwrap();
    l.set_pricing(admin(), 1000, 10, 10).unwrap();
    assert_eq!(l.premium_due(buyer(), T - DAY, T), Ok(1000));
    let id = l.buy_policy(buyer(), T - DAY, T, true).unwrap();
    (l, id)
}

#[test]
fn init_sets_admin_token_and_defaults() {
    let mut l = CargoDelayInsurance::new();
    assert!(l.admin().is_zero());
    assert_eq!(l.next_policy_id(), 0);
    assert_eq!(l.init(admin(), token()), Ok(()));
    assert_eq!(l.admin(), admin());
    assert_eq!(l.token(), token());
    assert_eq!(l.next_policy_id(), 1);
    assert_eq!(l.premium_amount(), DEFAULT_PREMIUM);
    assert_eq!(DEFAULT_PREMIUM, 1000 * 10u128.pow(18));
    assert_eq!(l.payout_per_day(), DEFAULT_PAYOUT_PER_DAY);
    assert_eq!(DEFAULT_PAYOUT_PER_DAY, 10 * 10u128.pow(18));
    assert_eq!(l.max_payout_days(), DEFAULT_MAX_PAYOUT_DAYS);
    assert_eq!(DEFAULT_MAX_PAYOUT_DAYS, 10);
    assert!(!l.is_locked());
}

#[test]
fn init_twice_is_refused() {
    let mut l = CargoDelayInsurance::new();
    l.init(admin(), token()).unwrap();
    assert_eq!(l.init(stranger(), Address::new(9, 9)), Err(LedgerError::AlreadyInitialized));
    assert_eq!(l.admin(), admin());
    assert_eq!(l.token(), token());
}

#[test]
fn init_with_null_token_is_refused() {
    let mut l = CargoDelayInsurance::new();
    assert_eq!(l.init(admin(), Address::zero()), Err(LedgerError::InvalidArgument));
    assert!(l.admin().is_zero());
}

#[test]
fn buy_then_get_policy_is_fresh() {
    let (l, id) = ledger_with_policy();
    assert_eq!(id, 1);
    assert_eq!(l.next_policy_id(), 2);
    assert_eq!(l.get_policy(id), Ok((buyer(), T, 0, 0, Status::Active)));
}

#[test]
fn ids_are_sequential() {
    let (mut l, id) = ledger_with_policy();
    let id2 = l.buy_policy(stranger(), T, T + 1, true).unwrap();
    assert_eq!(id2, id + 1);
    assert_eq!(l.get_policy(id2), Ok((stranger(), T + 1, 0, 0, Status::Active)));
    assert_eq!(l.get_policy(id), Ok((buyer(), T, 0, 0, Status::Active)));
}

#[test]
fn buy_in_the_past_is_refused() {
    let (mut l, _) = ledger_with_policy();
    assert_eq!(l.premium_due(buyer(), T, T), Err(LedgerError::InvalidArgument));
    assert_eq!(l.buy_policy(buyer(), T, T, true), Err(LedgerError::InvalidArgument));
    assert_eq!(l.buy_policy(buyer(), T + 1, T, true), Err(LedgerError::InvalidArgument));
    assert_eq!(l.next_policy_id(), 2);
}

#[test]
fn buy_without_premium_records_nothing() {
    let (mut l, _) = ledger_with_policy();
    assert_eq!(l.buy_policy(buyer(), T, T + DAY, false), Err(LedgerError::TransferFailed));
    assert_eq!(l.next_policy_id(), 2);
    assert_eq!(l.get_policy(2), Err(LedgerError::NotFound));
}

#[test]
fn buy_before_init_fails_transfer() {
    let mut l = CargoDelayInsurance::new();
    assert_eq!(l.premium_due(buyer(), 0, 10), Err(LedgerError::TransferFailed));
    assert_eq!(l.buy_policy(buyer(), 0, 10, true), Err(LedgerError::TransferFailed));
    assert_eq!(l.get_policy(0), Err(LedgerError::NotFound));
}

#[test]
fn days_delayed_values() {
    assert_eq!(days_delayed(5, 10), 0);
    assert_eq!(days_delayed(10, 10), 0);
    assert_eq!(days_delayed(10 + DAY - 1, 10), 0);
    assert_eq!(days_delayed(10 + DAY, 10), 1);
    assert_eq!(days_delayed(T + 3 * DAY + 5, T), 3);
    assert_eq!(days_delayed(T + 86400 * 42 + 86399, T), 42);
    assert_eq!(days_delayed(u128::MAX, 0), u128::MAX / 86400);
}

#[test]
fn delayed_claims_up_to_cap() {
    let (mut l, id) = ledger_with_policy();
    let now = T + 3 * DAY + 5;
    assert_eq!(l.set_delayed_status(admin(), id, true), Ok(()));
    assert_eq!(l.claimable_days(id, now), 3);
    let order = l.claim(buyer(), now, id, Some(1_000_000)).unwrap();
    assert_eq!(order, ClaimOrder { policy_id: id, insured: buyer(), days: 3, amount: 30 });
    assert!(l.is_locked());
    assert_eq!(l.settle_claim(true), Ok(()));
    assert!(!l.is_locked());
    assert_eq!(l.get_policy(id), Ok((buyer(), T, 0, 3, Status::Delayed)));

    let later = T + 15 * DAY;
    assert_eq!(l.claimable_days(id, later), 7);
    let order = l.claim(buyer(), later, id, Some(1_000_000)).unwrap();
    assert_eq!(order.days, 7);
    assert_eq!(order.amount, 70);
    assert_eq!(l.settle_claim(true), Ok(()));
    assert_eq!(l.get_policy(id), Ok((buyer(), T, 0, 10, Status::Inactive)));
    assert_eq!(l.claim(buyer(), later + DAY, id, Some(1_000_000)), Err(LedgerError::InvalidState));
    assert_eq!(l.claimable_days(id, later + DAY), 0);
}

#[test]
fn delivery_freezes_days() {
    let (mut l, id) = ledger_with_policy();
    assert_eq!(l.set_delivery_status(admin(), id, true, T + 2 * DAY), Ok(()));
    assert_eq!(l.get_policy(id), Ok((buyer(), T, T + 2 * DAY, 0, Status::Delivered)));
    assert_eq!(l.claimable_days(id, T + 2 * DAY), 2);
    assert_eq!(l.claimable_days(id, T + 100 * DAY), 2);
    let order = l.claim(buyer(), T + 100 * DAY, id, Some(20)).unwrap();
    assert_eq!(order.days, 2);
    assert_eq!(order.amount, 20);
    assert_eq!(l.settle_claim(true), Ok(()));
    assert_eq!(l.get_policy(id), Ok((buyer(), T, T + 2 * DAY, 2, Status::Delivered)));
}

#[test]
fn delivery_cleared_resets_arrival() {
    let (mut l, id) = ledger_with_policy();
    l.set_delivery_status(admin(), id, true, T + 2 * DAY).unwrap();
    assert_eq!(l.set_delivery_status(admin(), id, false, 12345), Ok(()));
    assert_eq!(l.get_policy(id), Ok((buyer(), T, 0, 0, Status::Active)));
    assert_eq!(l.claimable_days(id, T + 5 * DAY), 0);
}

#[test]
fn delivery_at_zero_is_refused() {
    let (mut l, id) = ledger_with_policy();
    assert_eq!(l.set_delivery_status(admin(), id, true, 0), Err(LedgerError::InvalidArgument));
    assert_eq!(l.get_policy(id), Ok((buyer(), T, 0, 0, Status::Active)));
}

#[test]
fn status_reports_on_unknown_policy() {
    let (mut l, _) = ledger_with_policy();
    assert_eq!(l.set_delayed_status(admin(), 9, true), Err(LedgerError::NotFound));
    assert_eq!(l.set_delivery_status(admin(), 0, true, T), Err(LedgerError::NotFound));
    assert_eq!(l.get_policy(9), Err(LedgerError::NotFound));
    assert_eq!(l.claimable_days(9, T + 5 * DAY), 0);
}

#[test]
fn delayed_overrides_delivered() {
    let (mut l, id) = ledger_with_policy();
    l.set_delivery_status(admin(), id, true, T + 2 * DAY).unwrap();
    assert_eq!(l.set_delayed_status(admin(), id, true), Ok(()));
    assert_eq!(l.get_policy(id), Ok((buyer(), T, T + 2 * DAY, 0, Status::Delayed)));
    assert_eq!(l.claimable_days(id, T + 4 * DAY), 4);
    assert_eq!(l.set_delayed_status(admin(), id, false), Ok(()));
    assert_eq!(l.get_policy(id).unwrap().4, Status::Active);
}

#[test]
fn claim_twice_owes_nothing() {
    let (mut l, id) = ledger_with_policy();
    let now = T + 4 * DAY;
    l.set_delayed_status(admin(), id, true).unwrap();
    assert_eq!(l.claim(buyer(), now, id, Some(1000)).unwrap().days, 4);
    l.settle_claim(true).unwrap();
    assert_eq!(l.claim(buyer(), now, id, Some(1000)), Err(LedgerError::NothingToClaim));
    assert_eq!(l.get_policy(id).unwrap().3, 4);
    assert!(!l.is_locked());
    // one more whole day accrues
    assert_eq!(l.claim(buyer(), now + DAY, id, Some(1000)).unwrap().days, 1);
}

#[test]
fn claimed_days_never_drop() {
    let (mut l, id) = ledger_with_policy();
    l.set_delayed_status(admin(), id, true).unwrap();
    l.claim(buyer(), T + 6 * DAY, id, Some(1000)).unwrap();
    l.settle_claim(true).unwrap();
    assert_eq!(l.get_policy(id).unwrap().3, 6);
    l.set_delivery_status(admin(), id, true, T + DAY).unwrap();
    l.set_delivery_status(admin(), id, false, 0).unwrap();
    l.set_pricing(admin(), 1, 1, 2).unwrap();
    l.set_delayed_status(admin(), id, true).unwrap();
    assert_eq!(l.claim(buyer(), T + 9 * DAY, id, Some(1000)), Err(LedgerError::NothingToClaim));
    assert_eq!(l.get_policy(id).unwrap().3, 6);
}

#[test]
fn claim_by_other_than_insured() {
    let (mut l, id) = ledger_with_policy();
    l.set_delayed_status(admin(), id, true).unwrap();
    assert_eq!(l.claim(stranger(), T + 4 * DAY, id, Some(1000)), Err(LedgerError::Unauthorized));
    assert_eq!(l.claim(admin(), T + 4 * DAY, id, Some(1000)), Err(LedgerError::Unauthorized));
    assert_eq!(l.get_policy(id).unwrap().3, 0);
}

#[test]
fn claim_while_active_is_invalid_state() {
    let (mut l, id) = ledger_with_policy();
    assert_eq!(l.claim(buyer(), T + 4 * DAY, id, Some(1000)), Err(LedgerError::InvalidState));
    assert_eq!(l.claimable_days(id, T + 4 * DAY), 0);
}

#[test]
fn claim_before_any_day_is_nothing() {
    let (mut l, id) = ledger_with_policy();
    l.set_delayed_status(admin(), id, true).unwrap();
    assert_eq!(l.claim(buyer(), T + DAY - 1, id, Some(1000)), Err(LedgerError::NothingToClaim));
}

#[test]
fn claim_with_short_balance() {
    let (mut l, id) = ledger_with_policy();
    l.set_delayed_status(admin(), id, true).unwrap();
    assert_eq!(l.claim(buyer(), T + 3 * DAY, id, Some(29)), Err(LedgerError::InsufficientFunds));
    assert_eq!(l.get_policy(id).unwrap().3, 0);
    assert!(!l.is_locked());
    assert_eq!(l.claim(buyer(), T + 3 * DAY, id, Some(30)).unwrap().amount, 30);
}

#[test]
fn claim_with_payout_beyond_range() {
    let (mut l, id) = ledger_with_policy();
    l.set_pricing(admin(), 1000, u128::MAX / 2, 10).unwrap();
    l.set_delayed_status(admin(), id, true).unwrap();
    assert_eq!(l.claim(buyer(), T + 3 * DAY, id, Some(u128::MAX)), Err(LedgerError::InsufficientFunds));
    assert_eq!(l.claim(buyer(), T + DAY, id, Some(u128::MAX)).unwrap().amount, u128::MAX / 2);
}

#[test]
fn failed_payout_transfer_undoes_claim() {
    let (mut l, id) = ledger_with_policy();
    l.set_delayed_status(admin(), id, true).unwrap();
    let before = l.get_policy(id);
    assert_eq!(l.pending_claim(), None);
    l.claim(buyer(), T + 10 * DAY, id, Some(1000)).unwrap();
    assert_eq!(l.get_policy(id), Ok((buyer(), T, 0, 10, Status::Inactive)));
    let kept = Policy {
        insured: buyer(),
        expected_arrival: T,
        actual_arrival: 0,
        claimed_days: 0,
        status: Status::Delayed,
    };
    assert_eq!(l.pending_claim(), Some((id, kept)));
    assert_eq!(l.settle_claim(false), Err(LedgerError::TransferFailed));
    assert!(!l.is_locked());
    assert_eq!(l.pending_claim(), None);
    assert_eq!(l.get_policy(id), before);
    // the claim can be made again once funds can move
    assert_eq!(l.claim(buyer(), T + 10 * DAY, id, Some(1000)).unwrap().days, 10);
    assert_eq!(l.settle_claim(true), Ok(()));
    assert_eq!(l.get_policy(id).unwrap().3, 10);
}

#[test]
fn failed_balance_query_is_transfer_failure() {
    let (mut l, id) = ledger_with_policy();
    l.set_delayed_status(admin(), id, true).unwrap();
    assert_eq!(l.claim(buyer(), T + 2 * DAY, id, None), Err(LedgerError::TransferFailed));
    assert!(!l.is_locked());
    assert_eq!(l.get_policy(id).unwrap().3, 0);
}

#[test]
fn buy_by_null_buyer_is_refused() {
    let (mut l, _) = ledger_with_policy();
    assert_eq!(l.premium_due(Address::zero(), T, T + DAY), Err(LedgerError::InvalidArgument));
    assert_eq!(l.buy_policy(Address::zero(), T, T + DAY, true), Err(LedgerError::InvalidArgument));
    assert_eq!(l.next_policy_id(), 2);
}

#[test]
fn restore_round_trip() {
    let (mut l, id) = ledger_with_policy();
    l.set_delayed_status(admin(), id, true).unwrap();
    l.claim(buyer(), T + 2 * DAY, id, Some(1000)).unwrap();
    let records = vec![l.policy(1)];
    let mut r = CargoDelayInsurance::restore(
        l.admin(), l.token(), l.premium_amount(), l.payout_per_day(), l.max_payout_days(),
        l.pending_claim(), records.clone(),
    )
    .unwrap();
    assert_eq!(r.next_policy_id(), 2);
    assert!(r.is_locked());
    assert_eq!(r.claim(buyer(), T + 3 * DAY, id, Some(1000)), Err(LedgerError::ReentrancyDetected));
    assert_eq!(r.settle_claim(false), Err(LedgerError::TransferFailed));
    assert_eq!(r.get_policy(id).unwrap().3, 0);
    let blank = CargoDelayInsurance::restore(
        Address::zero(), token(), 0, 0, 0, None, records.clone(),
    );
    assert!(blank.is_none());
    let stray = CargoDelayInsurance::restore(admin(), token(), 0, 0, 1, Some((2, records[0])), records.clone());
    assert!(stray.is_none());
    let inflated = Policy { claimed_days: 5, ..records[0] };
    let ahead = CargoDelayInsurance::restore(admin(), token(), 0, 0, 1, Some((1, inflated)), records);
    assert!(ahead.is_none());
}

#[test]
fn nested_claim_is_reentrant() {
    let (mut l, id) = ledger_with_policy();
    l.set_delayed_status(admin(), id, true).unwrap();
    let order = l.claim(buyer(), T + 2 * DAY, id, Some(1000)).unwrap();
    // the transfer of `order` calls back into claim before returning
    assert_eq!(l.claim(buyer(), T + 9 * DAY, id, Some(1000)), Err(LedgerError::ReentrancyDetected));
    assert_eq!(order.amount, 20);
    assert_eq!(l.settle_claim(true), Ok(()));
    assert_eq!(l.get_policy(id).unwrap().3, 2);
    assert_eq!(l.claim(buyer(), T + 9 * DAY, id, Some(1000)).unwrap().days, 7);
}

#[test]
fn non_admin_is_refused_everywhere() {
    let (mut l, id) = ledger_with_policy();
    let before = (l.admin(), l.premium_amount(), l.payout_per_day(), l.max_payout_days(), l.get_policy(id));
    assert_eq!(l.set_pricing(stranger(), 1, 2, 3), Err(LedgerError::Unauthorized));
    assert_eq!(l.set_admin(stranger(), stranger()), Err(LedgerError::Unauthorized));
    assert_eq!(l.set_delayed_status(buyer(), id, true), Err(LedgerError::Unauthorized));
    assert_eq!(l.set_delivery_status(buyer(), id, true, T), Err(LedgerError::Unauthorized));
    assert_eq!(l.withdraw_tokens(stranger(), true), Err(LedgerError::Unauthorized));
    assert_eq!(l.only_admin(stranger()), Err(LedgerError::Unauthorized));
    let after = (l.admin(), l.premium_amount(), l.payout_per_day(), l.max_payout_days(), l.get_policy(id));
    assert_eq!(before, after);
}

#[test]
fn nobody_is_admin_before_init() {
    let mut l = CargoDelayInsurance::new();
    assert_eq!(l.only_admin(Address::zero()), Err(LedgerError::Unauthorized));
    assert_eq!(l.set_admin(Address::zero(), admin()), Err(LedgerError::Unauthorized));
    assert!(l.admin().is_zero());
}

#[test]
fn pricing_rules() {
    let (mut l, _) = ledger_with_policy();
    assert_eq!(l.set_pricing(admin(), 5, 6, 0), Err(LedgerError::InvalidArgument));
    assert_eq!(l.max_payout_days(), 10);
    assert_eq!(l.set_pricing(admin(), 5, 6, 7), Ok(()));
    assert_eq!((l.premium_amount(), l.payout_per_day(), l.max_payout_days()), (5, 6, 7));
}

#[test]
fn admin_handover() {
    let (mut l, _) = ledger_with_policy();
    assert_eq!(l.set_admin(admin(), Address::zero()), Err(LedgerError::InvalidArgument));
    assert_eq!(l.set_admin(admin(), stranger()), Ok(()));
    assert_eq!(l.admin(), stranger());
    assert_eq!(l.set_pricing(admin(), 1, 1, 1), Err(LedgerError::Unauthorized));
    assert_eq!(l.set_pricing(stranger(), 1, 1, 1), Ok(()));
}

#[test]
fn withdraw_outcomes() {
    let (l, _) = ledger_with_policy();
    assert_eq!(l.withdraw_tokens(admin(), true), Ok(()));
    assert_eq!(l.withdraw_tokens(admin(), false), Err(LedgerError::TransferFailed));
}

#[test]
fn lowered_cap_ends_policy() {
    let (mut l, id) = ledger_with_policy();
    l.set_delayed_status(admin(), id, true).unwrap();
    l.claim(buyer(), T + 2 * DAY, id, Some(1000)).unwrap();
    l.settle_claim(true).unwrap();
    l.set_pricing(admin(), 1000, 10, 3).unwrap();
    let order = l.claim(buyer(), T + 8 * DAY, id, Some(1000)).unwrap();
    assert_eq!(order.days, 1);
    l.settle_claim(true).unwrap();
    assert_eq!(l.get_policy(id).unwrap().4, Status::Inactive);
}

#[test]
fn status_codes_and_reasons() {
    assert_eq!(Status::Inactive.code(), 0);
    assert_eq!(Status::Active.code(), 1);
    assert_eq!(Status::Delayed.code(), 2);
    assert_eq!(Status::Delivered.code(), 3);
    assert_eq!(LedgerError::NothingToClaim.reason(), "Nothing to claim");
    assert_eq!(LedgerError::ReentrancyDetected.reason(), "Reentrancy");
}
