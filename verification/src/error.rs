use vstd::prelude::*;

verus! {

/// Errors returned by the emitter's entry points.
#[derive(Clone, Copy, Debug, PartialEq, Eq, Structural)]
pub enum EmitterError {
    NotInitialized,
    AlreadyInitialized,
    EventNotFound,
    Unauthorized,
    UpgradeNotProposed,
    UpgradeTimelockActive,
    ContractPaused,
    InvalidAmount,
    DuplicateEvent,
    MaxEventsReached,
    ReentrantCall,
    InvalidTxHash,
    EmitFailed,
    CrossContractCallFailed,
}

/// The numeric contract error code of each variant.
pub open spec fn error_code(e: EmitterError) -> u32 {
    match e {
        EmitterError::NotInitialized => 1,
        EmitterError::AlreadyInitialized => 2,
        EmitterError::EventNotFound => 3,
        EmitterError::Unauthorized => 4,
        EmitterError::UpgradeNotProposed => 5,
        EmitterError::UpgradeTimelockActive => 6,
        EmitterError::ContractPaused => 7,
        EmitterError::InvalidAmount => 8,
        EmitterError::DuplicateEvent => 9,
        EmitterError::MaxEventsReached => 10,
        EmitterError::ReentrantCall => 11,
        EmitterError::InvalidTxHash => 12,
        EmitterError::EmitFailed => 13,
        EmitterError::CrossContractCallFailed => 14,
    }
}

impl EmitterError {
    /// The contract error code under which the host reports this error.
    pub fn code(&self) -> (c: u32)
        ensures
            c == error_code(*self),
    {
        match self {
            EmitterError::NotInitialized => 1,
            EmitterError::AlreadyInitialized => 2,
            EmitterError::EventNotFound => 3,
            EmitterError::Unauthorized => 4,
            EmitterError::UpgradeNotProposed => 5,
            EmitterError::UpgradeTimelockActive => 6,
            EmitterError::ContractPaused => 7,
            EmitterError::InvalidAmount => 8,
            EmitterError::DuplicateEvent => 9,
            EmitterError::MaxEventsReached => 10,
            EmitterError::ReentrantCall => 11,
            EmitterError::InvalidTxHash => 12,
            EmitterError::EmitFailed => 13,
            EmitterError::CrossContractCallFailed => 14,
        }
    }
}

} // verus!
