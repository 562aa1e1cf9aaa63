use vstd::prelude::*;

verus! {

/// A 160-bit account identity, held as its upper 32 and lower 128 bits.
#[derive(Clone, Copy, Debug, PartialEq, Eq, Structural)]
pub struct Address {
    pub high: u32,
    pub low: u128,
}

impl Address {
    pub open spec fn is_null(self) -> bool {
        self.high == 0 && self.low == 0
    }

    /// The null identity.
    pub fn zero() -> (r: Address)
        ensures
            r.is_null(),
    {
        Address { high: 0, low: 0 }
    }

    pub fn new(high: u32, low: u128) -> (r: Address)
        ensures
            r.high == high,
            r.low == low,
    {
        Address { high, low }
    }

    pub fn is_zero(&self) -> (r: bool)
        ensures
            r == self.is_null(),
    {
        self.high == 0 && self.low == 0
    }
}

/// Lifecycle state of a policy.
#[derive(Clone, Copy, Debug, PartialEq, Eq, Structural)]
pub enum Status {
    Inactive,
    Active,
    Delayed,
    Delivered,
}

impl Status {
    /// The numeric code of the status as stored on chain (0 to 3).
    pub fn code(&self) -> (r: u8)
        ensures
            r == self.code_spec(),
    {
        match self {
            Status::Inactive => 0,
            Status::Active => 1,
            Status::Delayed => 2,
            Status::Delivered => 3,
        }
    }

    pub open spec fn code_spec(self) -> u8 {
        match self {
            Status::Inactive => 0,
            Status::Active => 1,
            Status::Delayed => 2,
            Status::Delivered => 3,
        }
    }
}

/// One insurance policy. A null `insured` marks an id that was never bought.
#[derive(Clone, Copy, Debug, PartialEq, Eq, Structural)]
pub struct Policy {
    pub insured: Address,
    pub expected_arrival: u128,
    pub actual_arrival: u128,
    pub claimed_days: u128,
    pub status: Status,
}

impl Policy {
    /// The record read for an id that holds no policy.
    pub open spec fn blank() -> Policy {
        Policy {
            insured: Address { high: 0, low: 0 },
            expected_arrival: 0,
            actual_arrival: 0,
            claimed_days: 0,
            status: Status::Inactive,
        }
    }

    pub fn empty() -> (r: Policy)
        ensures
            r == Policy::blank(),
    {
        Policy {
            insured: Address::zero(),
            expected_arrival: 0,
            actual_arrival: 0,
            claimed_days: 0,
            status: Status::Inactive,
        }
    }
}

/// Why an operation of the ledger was rejected. A rejected operation changes
/// nothing.
#[derive(Clone, Copy, Debug, PartialEq, Eq, Structural)]
pub enum LedgerError {
    Unauthorized,
    AlreadyInitialized,
    InvalidArgument,
    NotFound,
    InvalidState,
    NothingToClaim,
    InsufficientFunds,
    TransferFailed,
    ReentrancyDetected,
}

impl LedgerError {
    /// The short diagnostic reason of the error.
    pub fn reason(&self) -> (r: &'static str) {
        match self {
            LedgerError::Unauthorized => "Not admin",
            LedgerError::AlreadyInitialized => "Already initialized",
            LedgerError::InvalidArgument => "Invalid argument",
            LedgerError::NotFound => "Invalid policy",
            LedgerError::InvalidState => "Not delayed/delivered",
            LedgerError::NothingToClaim => "Nothing to claim",
            LedgerError::InsufficientFunds => "insufficient funds",
            LedgerError::TransferFailed => "transfer failed",
            LedgerError::ReentrancyDetected => "Reentrancy",
        }
    }
}

} // verus!
