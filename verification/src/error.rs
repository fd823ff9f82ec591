//! Why a call to the contract is refused.
use vstd::prelude::*;

verus! {

/// The reason a call fails. A failed call changes nothing.
#[derive(Clone, Copy, Debug, PartialEq, Eq, Structural)]
pub enum PingPongError {
    /// EGLD was sent to an endpoint that accepts no payment.
    EgldPaymentNotAccepted,
    /// ESDT tokens were sent to an endpoint that accepts no payment.
    EsdtPaymentNotAccepted,
    /// ESDT tokens were sent to `ping`, which accepts EGLD only.
    EsdtPaymentRejected,
    /// An owner-only endpoint was called by someone else.
    NotOwner,
    /// The contract is closed.
    Maintenance,
    /// The deposit is above the maximum ping amount.
    PingAmountTooHigh,
    /// The deposit would take the contract's funds above the maximum.
    ContractFull,
    /// The activation timestamp has not been reached.
    NotActiveYet,
    /// The deadline for pinging has passed.
    DeadlinePassed,
    /// The caller is already on the user list.
    AlreadyPinged,
    /// The deadline has not passed yet, so pong is not open.
    DeadlineNotPassed,
    /// The caller is not on the user list.
    NotPinged,
    /// The activation timestamp given is not before the deadline given.
    ActivationNotBeforeDeadline,
}

impl PingPongError {
    /// The error message the chain reports for the failed call.
    pub fn message(&self) -> (r: &'static str)
        ensures
            r@ == match *self {
                PingPongError::EgldPaymentNotAccepted => "function does not accept EGLD payment"@,
                PingPongError::EsdtPaymentNotAccepted => "function does not accept ESDT payment"@,
                PingPongError::EsdtPaymentRejected => "function does not accept ESDT payment"@,
                PingPongError::NotOwner => "Endpoint can only be called by owner"@,
                PingPongError::Maintenance => "maintenance"@,
                PingPongError::PingAmountTooHigh => "the egld_amount must be lower or equal to the max ping amount"@,
                PingPongError::ContractFull => "contract is full"@,
                PingPongError::NotActiveYet => "smart contract not active yet"@,
                PingPongError::DeadlinePassed => "cannot ping anymore, deadline has passed"@,
                PingPongError::AlreadyPinged => "caller already pinged"@,
                PingPongError::DeadlineNotPassed => "cannot pong yet, deadline has not passed"@,
                PingPongError::NotPinged => "caller has not pinged"@,
                PingPongError::ActivationNotBeforeDeadline => "activation timestamp cannot be after deadline"@,
            },
    {
        match self {
            PingPongError::EgldPaymentNotAccepted => "function does not accept EGLD payment",
            PingPongError::EsdtPaymentNotAccepted => "function does not accept ESDT payment",
            PingPongError::EsdtPaymentRejected => "function does not accept ESDT payment",
            PingPongError::NotOwner => "Endpoint can only be called by owner",
            PingPongError::Maintenance => "maintenance",
            PingPongError::PingAmountTooHigh => "the egld_amount must be lower or equal to the max ping amount",
            PingPongError::ContractFull => "contract is full",
            PingPongError::NotActiveYet => "smart contract not active yet",
            PingPongError::DeadlinePassed => "cannot ping anymore, deadline has passed",
            PingPongError::AlreadyPinged => "caller already pinged",
            PingPongError::DeadlineNotPassed => "cannot pong yet, deadline has not passed",
            PingPongError::NotPinged => "caller has not pinged",
            PingPongError::ActivationNotBeforeDeadline => "activation timestamp cannot be after deadline",
        }
    }

    /// The return code the chain reports for the failed call: 10 for a payment
    /// refused by the virtual machine itself, 4 for an error the contract signals.
    pub fn return_code(&self) -> (r: u64)
        ensures
            r == (if *self is EgldPaymentNotAccepted || *self is EsdtPaymentNotAccepted {
                10u64
            } else {
                4u64
            }),
    {
        match self {
            PingPongError::EgldPaymentNotAccepted => 10,
            PingPongError::EsdtPaymentNotAccepted => 10,
            _ => 4,
        }
    }
}

} // verus!
