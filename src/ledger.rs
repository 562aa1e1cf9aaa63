use vstd::prelude::*;
use crate::types::{Address, Status, Policy, LedgerError};
use crate::days::{days_late, days_delayed};

verus! {

/// The ledger's state seen as values: configuration, the claim in progress
/// and the policies, where the policy with id `i` (from 1) stands at index
/// `i - 1`. While a claim awaits its payout, `pending` holds its policy id and
/// the record as it was before the claim; the ledger is then locked.
pub struct LedgerModel {
    pub admin: Address,
    pub token: Address,
    pub premium_amount: u128,
    pub payout_per_day: u128,
    pub max_payout_days: u128,
    pub next_policy_id: u128,
    pub pending: Option<(u128, Policy)>,
    pub policies: Seq<Policy>,
}

/// What a successful claim owes: `amount` tokens to `insured` for `days` days.
#[derive(Clone, Copy, Debug, PartialEq, Eq, Structural)]
pub struct ClaimOrder {
    pub policy_id: u128,
    pub insured: Address,
    pub days: u128,
    pub amount: u128,
}

/// Premium magnitude set at initialisation: 1000 tokens of 18 decimals.
pub const DEFAULT_PREMIUM: u128 = 1000_000000000000000000;
/// Payout per day set at initialisation: 10 tokens of 18 decimals.
pub const DEFAULT_PAYOUT_PER_DAY: u128 = 10_000000000000000000;
/// Cap on paid days set at initialisation.
pub const DEFAULT_MAX_PAYOUT_DAYS: u128 = 10;

impl LedgerModel {
    pub open spec fn initialized(self) -> bool {
        !self.admin.is_null()
    }

    /// Whether `caller` holds the administrator's privilege; before
    /// initialisation nobody does.
    pub open spec fn is_admin(self, caller: Address) -> bool {
        caller == self.admin && !self.admin.is_null()
    }

    /// Whether a claim is in progress.
    pub open spec fn locked(self) -> bool {
        self.pending is Some
    }

    /// Ids are handed out from 1 in order: before initialisation there are
    /// none, afterwards the next id follows the last one bought. A claim in
    /// progress is on a bought id, and has not lowered its paid days.
    pub open spec fn wf(self) -> bool {
        &&& self.initialized() ==> self.next_policy_id == self.policies.len() + 1
        &&& !self.initialized() ==> self.policies.len() == 0 && self.next_policy_id == 0
        &&& self.pending matches Some((id, p)) ==> {
            &&& 1 <= id <= self.policies.len()
            &&& self.policy(id as int).claimed_days >= p.claimed_days
        }
    }

    /// The record stored under `id`; the blank record where none was bought.
    pub open spec fn policy(self, id: int) -> Policy {
        if 1 <= id <= self.policies.len() {
            self.policies[id - 1]
        } else {
            Policy::blank()
        }
    }

    pub open spec fn with_policy(self, id: int, p: Policy) -> LedgerModel {
        LedgerModel { policies: self.policies.update(id - 1, p), ..self }
    }

    /// Days accrued by policy `id` at time `now`, before the cap.
    pub open spec fn total_days(self, id: int, now: int) -> int {
        let p = self.policy(id);
        if p.status == Status::Delivered {
            days_late(p.actual_arrival as int, p.expected_arrival as int)
        } else {
            days_late(now, p.expected_arrival as int)
        }
    }

    /// Accrued days of policy `id` at time `now`, capped at the maximum.
    pub open spec fn capped_days(self, id: int, now: int) -> int {
        let t = self.total_days(id, now);
        if t > self.max_payout_days { self.max_payout_days as int } else { t }
    }

    /// Days that a claim of policy `id` at time `now` would pay.
    pub open spec fn claimable(self, id: int, now: int) -> int {
        let p = self.policy(id);
        if p.status != Status::Delayed && p.status != Status::Delivered {
            0
        } else if self.capped_days(id, now) <= p.claimed_days {
            0
        } else {
            self.capped_days(id, now) - p.claimed_days
        }
    }

    pub open spec fn policy_fields(self, id: int) -> Result<(Address, u128, u128, u128, Status), LedgerError> {
        let p = self.policy(id);
        if p.insured.is_null() {
            Err(LedgerError::NotFound)
        } else {
            Ok((p.insured, p.expected_arrival, p.actual_arrival, p.claimed_days, p.status))
        }
    }

    pub open spec fn initialize(self, caller: Address, token: Address) -> Result<LedgerModel, LedgerError> {
        if self.initialized() {
            Err(LedgerError::AlreadyInitialized)
        } else if token.is_null() || caller.is_null() {
            Err(LedgerError::InvalidArgument)
        } else {
            Ok(LedgerModel {
                admin: caller,
                token,
                premium_amount: DEFAULT_PREMIUM,
                payout_per_day: DEFAULT_PAYOUT_PER_DAY,
                max_payout_days: DEFAULT_MAX_PAYOUT_DAYS,
                next_policy_id: 1,
                pending: None,
                ..self
            })
        }
    }

    pub open spec fn pricing(self, caller: Address, premium: u128, payout: u128, max_days: u128) -> Result<LedgerModel, LedgerError> {
        if !self.is_admin(caller) {
            Err(LedgerError::Unauthorized)
        } else if max_days == 0 {
            Err(LedgerError::InvalidArgument)
        } else {
            Ok(LedgerModel { premium_amount: premium, payout_per_day: payout, max_payout_days: max_days, ..self })
        }
    }

    pub open spec fn admin_change(self, caller: Address, new_admin: Address) -> Result<LedgerModel, LedgerError> {
        if !self.is_admin(caller) {
            Err(LedgerError::Unauthorized)
        } else if new_admin.is_null() {
            Err(LedgerError::InvalidArgument)
        } else {
            Ok(LedgerModel { admin: new_admin, ..self })
        }
    }

    pub open spec fn delay_report(self, caller: Address, id: int, delayed: bool) -> Result<LedgerModel, LedgerError> {
        if !self.is_admin(caller) {
            Err(LedgerError::Unauthorized)
        } else if self.policy(id).insured.is_null() {
            Err(LedgerError::NotFound)
        } else {
            let s = if delayed { Status::Delayed } else { Status::Active };
            Ok(self.with_policy(id, Policy { status: s, ..self.policy(id) }))
        }
    }

    pub open spec fn delivery_report(self, caller: Address, id: int, delivered: bool, arrival: u128) -> Result<LedgerModel, LedgerError> {
        if !self.is_admin(caller) {
            Err(LedgerError::Unauthorized)
        } else if self.policy(id).insured.is_null() {
            Err(LedgerError::NotFound)
        } else if delivered && arrival == 0 {
            Err(LedgerError::InvalidArgument)
        } else if delivered {
            Ok(self.with_policy(id, Policy { status: Status::Delivered, actual_arrival: arrival, ..self.policy(id) }))
        } else {
            Ok(self.with_policy(id, Policy { status: Status::Active, actual_arrival: 0, ..self.policy(id) }))
        }
    }

    /// A purchase at time `now`; `premium_paid` is whether the premium pull
    /// from the buyer succeeded. A null buyer could never own the policy.
    pub open spec fn purchase(self, buyer: Address, now: u128, expected_arrival: u128, premium_paid: bool) -> Result<(LedgerModel, u128), LedgerError> {
        if expected_arrival <= now || buyer.is_null() {
            Err(LedgerError::InvalidArgument)
        } else if !self.initialized() || !premium_paid {
            Err(LedgerError::TransferFailed)
        } else {
            let p = Policy {
                insured: buyer,
                expected_arrival,
                actual_arrival: 0,
                claimed_days: 0,
                status: Status::Active,
            };
            Ok((LedgerModel {
                next_policy_id: (self.next_policy_id + 1) as u128,
                policies: self.policies.push(p),
                ..self
            }, self.next_policy_id))
        }
    }

    /// The first half of a claim, up to the payout transfer: checks, records
    /// the paid days and takes the lock, keeping the record as it was.
    /// `balance` is the escrow's balance, `None` where the query failed.
    pub open spec fn claim_start(self, caller: Address, now: u128, id: u128, balance: Option<u128>) -> Result<(LedgerModel, ClaimOrder), LedgerError> {
        let p = self.policy(id as int);
        let capped = self.capped_days(id as int, now as int);
        let days = capped - p.claimed_days;
        let amount = days * self.payout_per_day;
        if self.locked() {
            Err(LedgerError::ReentrancyDetected)
        } else if caller != p.insured {
            Err(LedgerError::Unauthorized)
        } else if p.status != Status::Delayed && p.status != Status::Delivered {
            Err(LedgerError::InvalidState)
        } else if capped <= p.claimed_days {
            Err(LedgerError::NothingToClaim)
        } else if balance is None {
            Err(LedgerError::TransferFailed)
        } else if balance.unwrap() < amount {
            Err(LedgerError::InsufficientFunds)
        } else {
            let s = if capped >= self.max_payout_days { Status::Inactive } else { p.status };
            let q = Policy { claimed_days: capped as u128, status: s, ..p };
            Ok((LedgerModel { pending: Some((id, p)), ..self.with_policy(id as int, q) },
                ClaimOrder { policy_id: id, insured: p.insured, days: days as u128, amount: amount as u128 }))
        }
    }

    /// The second half of a claim: `paid` is whether the payout transfer
    /// succeeded. Either way the lock is released; on failure the claim is
    /// undone, its policy's record put back as it was before the claim.
    pub open spec fn claim_finish(self, paid: bool) -> (Result<(), LedgerError>, LedgerModel) {
        let r = if paid { Ok(()) } else { Err(LedgerError::TransferFailed) };
        match self.pending {
            None => (r, self),
            Some((id, p)) => if paid {
                (r, LedgerModel { pending: None, ..self })
            } else {
                (r, LedgerModel { pending: None, ..self.with_policy(id as int, p) })
            },
        }
    }
}


/// How an operation's result and final state follow from its transition:
/// on success the state is the one the transition gives, on failure the error
/// is the one it gives and nothing changes.
pub open spec fn applied(r: Result<(), LedgerError>, before: LedgerModel, after: LedgerModel, t: Result<LedgerModel, LedgerError>) -> bool {
    match t {
        Ok(m) => r is Ok && after == m,
        Err(e) => r == Err::<(), LedgerError>(e) && after == before,
    }
}

/// The policy ledger: configuration, reentrancy lock and policy registry.
pub struct CargoDelayInsurance {
    admin: Address,
    token: Address,
    premium_amount: u128,
    payout_per_day: u128,
    max_payout_days: u128,
    next_policy_id: u128,
    pending: Option<(u128, Policy)>,
    policies: Vec<Policy>,
}

impl View for CargoDelayInsurance {
    type V = LedgerModel;

    closed spec fn view(&self) -> LedgerModel {
        LedgerModel {
            admin: self.admin,
            token: self.token,
            premium_amount: self.premium_amount,
            payout_per_day: self.payout_per_day,
            max_payout_days: self.max_payout_days,
            next_policy_id: self.next_policy_id,
            pending: self.pending,
            policies: self.policies@,
        }
    }
}

impl CargoDelayInsurance {
    /// A ledger as deployed, before initialisation: everything zero.
    pub fn new() -> (r: CargoDelayInsurance)
        ensures
            r@.wf(),
            !r@.initialized(),
            !r@.locked(),
            r@.token.is_null(),
            r@.premium_amount == 0,
            r@.payout_per_day == 0,
            r@.max_payout_days == 0,
    {
        CargoDelayInsurance {
            admin: Address::zero(),
            token: Address::zero(),
            premium_amount: 0,
            payout_per_day: 0,
            max_payout_days: 0,
            next_policy_id: 0,
            pending: None,
            policies: Vec::new(),
        }
    }

    /// The record stored under `id`, blank where none was bought.
    fn policy_at(&self, id: u128) -> (r: Policy)
        ensures
            r == self@.policy(id as int),
    {
        if id >= 1 && id - 1 < self.policies.len() as u128 {
            self.policies[(id - 1) as usize]
        } else {
            Policy::empty()
        }
    }

    /// Replaces the record of a bought id.
    fn store_policy(&mut self, id: u128, p: Policy)
        requires
            1 <= id <= old(self)@.policies.len(),
        ensures
            final(self)@ == old(self)@.with_policy(id as int, p),
    {
        let n = self.policies.len();
        let i = (id - 1) as usize;
        assert(i < n);
        self.policies.set(i, p);
        assert(self@.policies =~= old(self)@.policies.update(id - 1, p));
    }

    /// One-time setup by the caller, who becomes the administrator; sets the
    /// token and the default pricing.
    pub fn init(&mut self, caller: Address, token_address: Address) -> (r: Result<(), LedgerError>)
        requires
            old(self)@.wf(),
        ensures
            final(self)@.wf(),
            applied(r, old(self)@, final(self)@, old(self)@.initialize(caller, token_address)),
    {
        if !self.admin.is_zero() {
            return Err(LedgerError::AlreadyInitialized);
        }
        if token_address.is_zero() || caller.is_zero() {
            return Err(LedgerError::InvalidArgument);
        }
        self.admin = caller;
        self.token = token_address;
        self.next_policy_id = 1;
        self.pending = None;
        self.premium_amount = DEFAULT_PREMIUM;
        self.payout_per_day = DEFAULT_PAYOUT_PER_DAY;
        self.max_payout_days = DEFAULT_MAX_PAYOUT_DAYS;
        Ok(())
    }

    /// The first half of a claim by `caller` of policy `policy_id` at time
    /// `now`, the escrow holding `balance` (`None` where the balance query
    /// failed): checks eligibility, records the newly paid days (ending the
    /// policy at the cap) and takes the lock, keeping the record as it was.
    /// The returned order is the payout to transfer; `settle_claim` completes
    /// or undoes the claim.
    pub fn claim(&mut self, caller: Address, now: u128, policy_id: u128, balance: Option<u128>) -> (r: Result<ClaimOrder, LedgerError>)
        requires
            old(self)@.wf(),
        ensures
            final(self)@.wf(),
            match old(self)@.claim_start(caller, now, policy_id, balance) {
                Ok((m, o)) => r == Ok::<ClaimOrder, LedgerError>(o) && final(self)@ == m,
                Err(e) => r == Err::<ClaimOrder, LedgerError>(e) && final(self)@ == old(self)@,
            },
    {
        if self.pending.is_some() {
            return Err(LedgerError::ReentrancyDetected);
        }
        let p = self.policy_at(policy_id);
        if caller != p.insured {
            return Err(LedgerError::Unauthorized);
        }
        if p.status != Status::Delayed && p.status != Status::Delivered {
            return Err(LedgerError::InvalidState);
        }
        let total = if p.status == Status::Delivered {
            days_delayed(p.actual_arrival, p.expected_arrival)
        } else {
            days_delayed(now, p.expected_arrival)
        };
        let capped = if total > self.max_payout_days { self.max_payout_days } else { total };
        if capped <= p.claimed_days {
            return Err(LedgerError::NothingToClaim);
        }
        let balance = match balance {
            Some(b) => b,
            None => {
                return Err(LedgerError::TransferFailed);
            },
        };
        let days = capped - p.claimed_days;
        let amount = match days.checked_mul(self.payout_per_day) {
            Some(a) => a,
            None => {
                // a payout beyond the integer range exceeds any balance
                return Err(LedgerError::InsufficientFunds);
            },
        };
        if balance < amount {
            return Err(LedgerError::InsufficientFunds);
        }
        let status = if capped >= self.max_payout_days { Status::Inactive } else { p.status };
        self.store_policy(policy_id, Policy { claimed_days: capped, status, ..p });
        self.pending = Some((policy_id, p));
        Ok(ClaimOrder { policy_id, insured: p.insured, days, amount })
    }

    /// Completes a claim once its payout transfer has run and releases the
    /// lock. Where the transfer failed (`!paid`) the claim is undone: its
    /// policy's record is put back as it was before the claim, and the result
    /// is `TransferFailed`.
    pub fn settle_claim(&mut self, paid: bool) -> (r: Result<(), LedgerError>)
        requires
            old(self)@.wf(),
        ensures
            final(self)@.wf(),
            (r, final(self)@) == old(self)@.claim_finish(paid),
    {
        match self.pending {
            None => {},
            Some((id, p)) => {
                if !paid {
                    self.store_policy(id, p);
                }
                self.pending = None;
            },
        }
        if !paid {
            return Err(LedgerError::TransferFailed);
        }
        Ok(())
    }

    /// What a purchase by `buyer` at time `now` arriving at
    /// `expected_arrival` must pull from the buyer before `buy_policy`
    /// records it.
    pub fn premium_due(&self, buyer: Address, now: u128, expected_arrival: u128) -> (r: Result<u128, LedgerError>)
        ensures
            r == (if expected_arrival <= now || buyer.is_null() {
                Err::<u128, LedgerError>(LedgerError::InvalidArgument)
            } else if !self@.initialized() {
                Err(LedgerError::TransferFailed)
            } else {
                Ok(self@.premium_amount)
            }),
    {
        if expected_arrival <= now || buyer.is_zero() {
            return Err(LedgerError::InvalidArgument);
        }
        if self.admin.is_zero() {
            return Err(LedgerError::TransferFailed);
        }
        Ok(self.premium_amount)
    }

    /// Records a policy bought by `buyer` at time `now`, once the premium
    /// pull has run (`premium_paid`); returns the new id.
    pub fn buy_policy(&mut self, buyer: Address, now: u128, expected_arrival: u128, premium_paid: bool) -> (r: Result<u128, LedgerError>)
        requires
            old(self)@.wf(),
        ensures
            final(self)@.wf(),
            match old(self)@.purchase(buyer, now, expected_arrival, premium_paid) {
                Ok((m, id)) => r == Ok::<u128, LedgerError>(id) && final(self)@ == m,
                Err(e) => r == Err::<u128, LedgerError>(e) && final(self)@ == old(self)@,
            },
    {
        if expected_arrival <= now || buyer.is_zero() {
            return Err(LedgerError::InvalidArgument);
        }
        if self.admin.is_zero() || !premium_paid {
            return Err(LedgerError::TransferFailed);
        }
        let id = self.next_policy_id;
        let n = self.policies.len();
        assert(id == n + 1);
        self.policies.push(Policy {
            insured: buyer,
            expected_arrival,
            actual_arrival: 0,
            claimed_days: 0,
            status: Status::Active,
        });
        self.next_policy_id = id + 1;
        Ok(id)
    }

    /// Checks that `caller` is the administrator.
    pub fn only_admin(&self, caller: Address) -> (r: Result<(), LedgerError>)
        ensures
            r == (if self@.is_admin(caller) { Ok::<(), LedgerError>(()) } else { Err(LedgerError::Unauthorized) }),
    {
        if caller != self.admin || self.admin.is_zero() {
            return Err(LedgerError::Unauthorized);
        }
        Ok(())
    }

    pub fn set_pricing(&mut self, caller: Address, premium: u128, payout: u128, max_days: u128) -> (r: Result<(), LedgerError>)
        requires
            old(self)@.wf(),
        ensures
            final(self)@.wf(),
            applied(r, old(self)@, final(self)@, old(self)@.pricing(caller, premium, payout, max_days)),
    {
        self.only_admin(caller)?;
        if max_days == 0 {
            return Err(LedgerError::InvalidArgument);
        }
        self.premium_amount = premium;
        self.payout_per_day = payout;
        self.max_payout_days = max_days;
        Ok(())
    }

    pub fn set_admin(&mut self, caller: Address, new_admin: Address) -> (r: Result<(), LedgerError>)
        requires
            old(self)@.wf(),
        ensures
            final(self)@.wf(),
            applied(r, old(self)@, final(self)@, old(self)@.admin_change(caller, new_admin)),
    {
        self.only_admin(caller)?;
        if new_admin.is_zero() {
            return Err(LedgerError::InvalidArgument);
        }
        self.admin = new_admin;
        Ok(())
    }

    pub fn set_delayed_status(&mut self, caller: Address, policy_id: u128, delayed: bool) -> (r: Result<(), LedgerError>)
        requires
            old(self)@.wf(),
        ensures
            final(self)@.wf(),
            applied(r, old(self)@, final(self)@, old(self)@.delay_report(caller, policy_id as int, delayed)),
    {
        self.only_admin(caller)?;
        let p = self.policy_at(policy_id);
        if p.insured.is_zero() {
            return Err(LedgerError::NotFound);
        }
        let status = if delayed { Status::Delayed } else { Status::Active };
        self.store_policy(policy_id, Policy { status, ..p });
        Ok(())
    }

    pub fn set_delivery_status(&mut self, caller: Address, policy_id: u128, delivered: bool, actual_arrival: u128) -> (r: Result<(), LedgerError>)
        requires
            old(self)@.wf(),
        ensures
            final(self)@.wf(),
            applied(r, old(self)@, final(self)@, old(self)@.delivery_report(caller, policy_id as int, delivered, actual_arrival)),
    {
        self.only_admin(caller)?;
        let p = self.policy_at(policy_id);
        if p.insured.is_zero() {
            return Err(LedgerError::NotFound);
        }
        if delivered {
            if actual_arrival == 0 {
                return Err(LedgerError::InvalidArgument);
            }
            self.store_policy(policy_id, Policy { status: Status::Delivered, actual_arrival, ..p });
        } else {
            self.store_policy(policy_id, Policy { status: Status::Active, actual_arrival: 0, ..p });
        }
        Ok(())
    }

    /// Decides a withdrawal of escrowed tokens by `caller`, once the transfer
    /// has run (`transferred`); only the administrator may withdraw.
    pub fn withdraw_tokens(&self, caller: Address, transferred: bool) -> (r: Result<(), LedgerError>)
        ensures
            r == (if !self@.is_admin(caller) {
                Err::<(), LedgerError>(LedgerError::Unauthorized)
            } else if !transferred {
                Err(LedgerError::TransferFailed)
            } else {
                Ok(())
            }),
    {
        self.only_admin(caller)?;
        if !transferred {
            return Err(LedgerError::TransferFailed);
        }
        Ok(())
    }

    /// The fields of policy `policy_id`: insured, expected arrival, actual
    /// arrival, claimed days and status.
    pub fn get_policy(&self, policy_id: u128) -> (r: Result<(Address, u128, u128, u128, Status), LedgerError>)
        ensures
            r == self@.policy_fields(policy_id as int),
    {
        let p = self.policy_at(policy_id);
        if p.insured.is_zero() {
            return Err(LedgerError::NotFound);
        }
        Ok((p.insured, p.expected_arrival, p.actual_arrival, p.claimed_days, p.status))
    }

    /// Days that a claim of `policy_id` at time `now` would pay; zero where
    /// the policy is not eligible or nothing new has accrued.
    pub fn claimable_days(&self, policy_id: u128, now: u128) -> (r: u128)
        ensures
            r == self@.claimable(policy_id as int, now as int),
    {
        let p = self.policy_at(policy_id);
        if p.status != Status::Delayed && p.status != Status::Delivered {
            return 0;
        }
        let total = if p.status == Status::Delivered {
            days_delayed(p.actual_arrival, p.expected_arrival)
        } else {
            days_delayed(now, p.expected_arrival)
        };
        let capped = if total > self.max_payout_days { self.max_payout_days } else { total };
        if capped <= p.claimed_days {
            return 0;
        }
        capped - p.claimed_days
    }

    pub fn admin(&self) -> (r: Address)
        ensures
            r == self@.admin,
    {
        self.admin
    }

    pub fn token(&self) -> (r: Address)
        ensures
            r == self@.token,
    {
        self.token
    }

    pub fn premium_amount(&self) -> (r: u128)
        ensures
            r == self@.premium_amount,
    {
        self.premium_amount
    }

    pub fn payout_per_day(&self) -> (r: u128)
        ensures
            r == self@.payout_per_day,
    {
        self.payout_per_day
    }

    pub fn max_payout_days(&self) -> (r: u128)
        ensures
            r == self@.max_payout_days,
    {
        self.max_payout_days
    }

    pub fn next_policy_id(&self) -> (r: u128)
        ensures
            r == self@.next_policy_id,
    {
        self.next_policy_id
    }

    /// Whether a claim is in progress.
    pub fn is_locked(&self) -> (r: bool)
        ensures
            r == self@.locked(),
    {
        self.pending.is_some()
    }

    /// The claim in progress: its policy id and the record as it was before
    /// the claim.
    pub fn pending_claim(&self) -> (r: Option<(u128, Policy)>)
        ensures
            r == self@.pending,
    {
        self.pending
    }

    /// Rebuilds a ledger from stored fields; the policies are those with ids
    /// 1, 2, ... in order, `pending` the claim in progress. Refused where the
    /// fields could not come from the operations above: policies before
    /// initialisation, or a claim in progress on an id never bought or with
    /// more paid days kept than the policy now has.
    pub fn restore(
        admin: Address,
        token: Address,
        premium_amount: u128,
        payout_per_day: u128,
        max_payout_days: u128,
        pending: Option<(u128, Policy)>,
        policies: Vec<Policy>,
    ) -> (r: Option<CargoDelayInsurance>)
        ensures
            match r {
                Some(l) => l@.wf() && l@ == (LedgerModel {
                    admin,
                    token,
                    premium_amount,
                    payout_per_day,
                    max_payout_days,
                    next_policy_id: if admin.is_null() { 0 } else { (policies@.len() + 1) as u128 },
                    pending,
                    policies: policies@,
                }),
                None => (admin.is_null() && policies@.len() > 0)
                    || (pending matches Some((id, p)) && !(1 <= id <= policies@.len()
                        && policies@[id - 1].claimed_days >= p.claimed_days)),
            },
    {
        let n = policies.len();
        if let Some((id, p)) = pending {
            if id < 1 || id > n as u128 {
                return None;
            }
            if policies[(id - 1) as usize].claimed_days < p.claimed_days {
                return None;
            }
        }
        let next_policy_id: u128 = if admin.is_zero() {
            if n > 0 {
                return None;
            }
            0
        } else {
            n as u128 + 1
        };
        Some(CargoDelayInsurance {
            admin,
            token,
            premium_amount,
            payout_per_day,
            max_payout_days,
            next_policy_id,
            pending,
            policies,
        })
    }

    /// The record stored under `policy_id`, blank where none was bought.
    pub fn policy(&self, policy_id: u128) -> (r: Policy)
        ensures
            r == self@.policy(policy_id as int),
    {
        self.policy_at(policy_id)
    }
}
} // verus!
