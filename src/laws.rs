use vstd::prelude::*;
use crate::types::{Address, Status, LedgerError};
use crate::ledger::{LedgerModel, ClaimOrder};

verus! {

/// One call made on the ledger, with the outcome of any transfer it relied on.
pub enum LedgerEvent {
    Initialize { caller: Address, token: Address },
    SetPricing { caller: Address, premium: u128, payout: u128, max_days: u128 },
    SetAdmin { caller: Address, new_admin: Address },
    SetDelayed { caller: Address, id: u128, delayed: bool },
    SetDelivery { caller: Address, id: u128, delivered: bool, arrival: u128 },
    Buy { buyer: Address, now: u128, expected_arrival: u128, premium_paid: bool },
    Claim { caller: Address, now: u128, id: u128, balance: Option<u128> },
    SettleClaim { paid: bool },
}

/// The state after one call. A rejected call leaves the state as it was,
/// but for a claim's failed payout, which undoes the claim.
pub open spec fn step(m: LedgerModel, e: LedgerEvent) -> LedgerModel {
    let r = match e {
        LedgerEvent::Initialize { caller, token } => m.initialize(caller, token),
        LedgerEvent::SetPricing { caller, premium, payout, max_days } => m.pricing(caller, premium, payout, max_days),
        LedgerEvent::SetAdmin { caller, new_admin } => m.admin_change(caller, new_admin),
        LedgerEvent::SetDelayed { caller, id, delayed } => m.delay_report(caller, id as int, delayed),
        LedgerEvent::SetDelivery { caller, id, delivered, arrival } => m.delivery_report(caller, id as int, delivered, arrival),
        LedgerEvent::Buy { buyer, now, expected_arrival, premium_paid } => match m.purchase(buyer, now, expected_arrival, premium_paid) {
            Ok((m2, _)) => Ok(m2),
            Err(e) => Err(e),
        },
        LedgerEvent::Claim { caller, now, id, balance } => match m.claim_start(caller, now, id, balance) {
            Ok((m2, _)) => Ok(m2),
            Err(e) => Err(e),
        },
        LedgerEvent::SettleClaim { paid } => Ok(m.claim_finish(paid).1),
    };
    match r {
        Ok(m2) => m2,
        Err(_) => m,
    }
}

/// The state after a sequence of calls, in order.
pub open spec fn run(m: LedgerModel, events: Seq<LedgerEvent>) -> LedgerModel
    decreases events.len(),
{
    if events.len() == 0 {
        m
    } else {
        run(step(m, events[0]), events.drop_first())
    }
}

/// The paid days on record for policy `id`, where a claim still awaiting its
/// payout counts as not made.
pub open spec fn committed_days(m: LedgerModel, id: int) -> int {
    if m.pending is Some && m.pending.unwrap().0 == id {
        m.pending.unwrap().1.claimed_days as int
    } else {
        m.policy(id).claimed_days as int
    }
}

/// A claim in progress is on a bought policy, and has not lowered its days.
pub open spec fn pending_sound(m: LedgerModel) -> bool {
    m.pending matches Some((id, p)) ==> {
        &&& 1 <= id <= m.policies.len()
        &&& m.policy(id as int).claimed_days >= p.claimed_days
    }
}

/// A well-formed ledger's claim in progress is sound.
pub proof fn lemma_wf_pending_sound(m: LedgerModel)
    requires
        m.wf(),
    ensures
        pending_sound(m),
{
}

/// No policy's paid days on record are fewer in `b` than in `a`.
pub open spec fn claims_kept(a: LedgerModel, b: LedgerModel) -> bool {
    forall|id: int| #[trigger] committed_days(b, id) >= committed_days(a, id)
}

/// No call lowers any policy's paid days on record.
pub proof fn lemma_step_keeps_claims(m: LedgerModel, e: LedgerEvent)
    requires
        pending_sound(m),
    ensures
        pending_sound(step(m, e)),
        claims_kept(m, step(m, e)),
{
    let m2 = step(m, e);
    assert forall|id: int| #[trigger] committed_days(m2, id) >= committed_days(m, id) by {
        if 1 <= id <= m.policies.len() && m2.policies.len() >= m.policies.len() {
            assert(m2.policy(id) == m2.policies[id - 1]);
        }
    }
}

/// Across any sequence of calls, no policy's paid days on record ever drop.
/// Every well-formed ledger meets the premise (see `lemma_wf_pending_sound`).
pub proof fn lemma_claimed_days_never_decrease(m: LedgerModel, events: Seq<LedgerEvent>)
    requires
        pending_sound(m),
    ensures
        pending_sound(run(m, events)),
        claims_kept(m, run(m, events)),
    decreases events.len(),
{
    if events.len() > 0 {
        let m1 = step(m, events[0]);
        lemma_step_keeps_claims(m, events[0]);
        lemma_claimed_days_never_decrease(m1, events.drop_first());
        let mn = run(m1, events.drop_first());
        assert forall|id: int| #[trigger] committed_days(mn, id) >= committed_days(m, id) by {
            assert(committed_days(mn, id) >= committed_days(m1, id));
            assert(committed_days(m1, id) >= committed_days(m, id));
        }
    }
}

/// A claim whose payout transfer fails leaves the ledger exactly as it was
/// before the claim, lock released.
pub proof fn lemma_failed_payout_undoes_claim(m: LedgerModel, caller: Address, now: u128, id: u128, balance: Option<u128>)
    requires
        m.claim_start(caller, now, id, balance) is Ok,
    ensures
        m.claim_start(caller, now, id, balance).unwrap().0.claim_finish(false)
            == (Err::<(), LedgerError>(LedgerError::TransferFailed), m),
{
    let m1 = m.claim_start(caller, now, id, balance).unwrap().0;
    assert(1 <= id <= m.policies.len());
    assert(m1.claim_finish(false).1.policies =~= m.policies);
}

/// A policy just bought by a non-null buyer reads back as active, with no
/// arrival recorded and no day paid.
pub proof fn lemma_bought_policy_is_fresh(m: LedgerModel, buyer: Address, now: u128, expected_arrival: u128)
    requires
        m.wf(),
        m.initialized(),
        !buyer.is_null(),
        expected_arrival > now,
    ensures
        match m.purchase(buyer, now, expected_arrival, true) {
            Ok((m2, id)) => m2.policy_fields(id as int) == Ok::<(Address, u128, u128, u128, Status), LedgerError>(
                (buyer, expected_arrival, 0u128, 0u128, Status::Active)),
            Err(_) => false,
        },
{
    let (m2, id) = m.purchase(buyer, now, expected_arrival, true).unwrap();
    assert(m2.policy(id as int) == m2.policies[m.policies.len() as int]);
}

/// A claim repeated at the same time, with nothing changed in between but
/// the first claim's payout, owes nothing, unless the first reached the cap.
pub proof fn lemma_claim_again_owes_nothing(m: LedgerModel, caller: Address, now: u128, id: u128, balance: Option<u128>, balance2: Option<u128>)
    requires
        m.claim_start(caller, now, id, balance) is Ok,
        m.claim_start(caller, now, id, balance).unwrap().0.policy(id as int).status != Status::Inactive,
    ensures
        ({
            let m1 = m.claim_start(caller, now, id, balance).unwrap().0;
            let m2 = m1.claim_finish(true).1;
            &&& m2.claim_start(caller, now, id, balance2) == Err::<(LedgerModel, ClaimOrder), LedgerError>(LedgerError::NothingToClaim)
            &&& m2.policy(id as int).claimed_days == m1.policy(id as int).claimed_days
        }),
{
    let m1 = m.claim_start(caller, now, id, balance).unwrap().0;
    let m2 = m1.claim_finish(true).1;
    assert(1 <= id <= m.policies.len());
    assert(m2.policy(id as int).status == m.policy(id as int).status);
    assert(m2.capped_days(id as int, now as int) == m.capped_days(id as int, now as int));
}

/// A claim that brings the paid days to the cap ends the policy.
pub proof fn lemma_cap_ends_policy(m: LedgerModel, caller: Address, now: u128, id: u128, balance: Option<u128>)
    requires
        m.claim_start(caller, now, id, balance) is Ok,
        m.claim_start(caller, now, id, balance).unwrap().0.policy(id as int).claimed_days == m.max_payout_days,
    ensures
        m.claim_start(caller, now, id, balance).unwrap().0.policy(id as int).status == Status::Inactive,
{
    assert(1 <= id <= m.policies.len());
}

/// An ended policy cannot be claimed: its owner, outside a claim in
/// progress, is refused for an ineligible state, whatever the time or balance.
pub proof fn lemma_ended_policy_refuses_claims(m: LedgerModel, caller: Address, now: u128, id: u128, balance: Option<u128>)
    requires
        m.policy(id as int).status == Status::Inactive,
        caller == m.policy(id as int).insured,
        !m.locked(),
    ensures
        m.claim_start(caller, now, id, balance) == Err::<(LedgerModel, ClaimOrder), LedgerError>(LedgerError::InvalidState),
{
}

/// Every administrative call by anyone but the administrator is refused as
/// unauthorised, and so changes nothing.
pub proof fn lemma_non_admin_refused(m: LedgerModel, caller: Address, e: LedgerEvent)
    requires
        !m.is_admin(caller),
        match e {
            LedgerEvent::SetPricing { caller: c, .. } => c == caller,
            LedgerEvent::SetAdmin { caller: c, .. } => c == caller,
            LedgerEvent::SetDelayed { caller: c, .. } => c == caller,
            LedgerEvent::SetDelivery { caller: c, .. } => c == caller,
            _ => false,
        },
    ensures
        step(m, e) == m,
        match e {
            LedgerEvent::SetPricing { caller, premium, payout, max_days } => m.pricing(caller, premium, payout, max_days) == Err::<LedgerModel, LedgerError>(LedgerError::Unauthorized),
            LedgerEvent::SetAdmin { caller, new_admin } => m.admin_change(caller, new_admin) == Err::<LedgerModel, LedgerError>(LedgerError::Unauthorized),
            LedgerEvent::SetDelayed { caller, id, delayed } => m.delay_report(caller, id as int, delayed) == Err::<LedgerModel, LedgerError>(LedgerError::Unauthorized),
            LedgerEvent::SetDelivery { caller, id, delivered, arrival } => m.delivery_report(caller, id as int, delivered, arrival) == Err::<LedgerModel, LedgerError>(LedgerError::Unauthorized),
            _ => false,
        },
{
}

/// While a claim awaits its payout transfer, any nested claim is refused as
/// reentrant.
pub proof fn lemma_nested_claim_refused(m: LedgerModel, caller: Address, now: u128, id: u128, balance: Option<u128>, caller2: Address, now2: u128, id2: u128, balance2: Option<u128>)
    requires
        m.claim_start(caller, now, id, balance) is Ok,
    ensures
        m.claim_start(caller, now, id, balance).unwrap().0.claim_start(caller2, now2, id2, balance2)
            == Err::<(LedgerModel, ClaimOrder), LedgerError>(LedgerError::ReentrancyDetected),
{
}
} // verus!
