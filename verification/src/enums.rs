//! Status enums and other closed vocabularies of the transaction core.
//!
//! An intent and its attempt evolve as two independently stored state
//! machines; each flow declares which intent statuses it refuses and how it
//! advances both machines in lockstep.

use vstd::prelude::*;

verus! {

/// Lifecycle status of a payment intent.
#[derive(Clone, Copy, Debug, PartialEq, Eq, Structural)]
pub enum IntentStatus {
    Succeeded,
    Failed,
    Cancelled,
    Processing,
    RequiresCustomerAction,
    RequiresMerchantAction,
    RequiresPaymentMethod,
    RequiresConfirmation,
    RequiresCapture,
    PartiallyCaptured,
}

/// Lifecycle status of a single connector-facing payment attempt.
#[derive(Clone, Copy, Debug, PartialEq, Eq, Structural)]
pub enum AttemptStatus {
    Started,
    AuthenticationPending,
    Authorized,
    Charged,
    Voided,
    VoidInitiated,
    VoidFailed,
    Pending,
    Failure,
}

/// Lifecycle status of a payout and of its attempts.
#[derive(Clone, Copy, Debug, PartialEq, Eq, Hash, Structural)]
pub enum PayoutStatus {
    Success,
    Failed,
    Cancelled,
    Initiated,
    Pending,
    RequiresCreation,
    RequiresConfirmation,
    RequiresFulfillment,
}

/// Settlement currency of a transaction.
#[derive(Clone, Copy, Debug, PartialEq, Eq, Structural)]
pub enum Currency {
    USD,
    EUR,
    GBP,
    INR,
    JPY,
}

/// The rail a payout is sent over.
#[derive(Clone, Copy, Debug, PartialEq, Eq, Structural)]
pub enum PayoutType {
    Card,
    Bank,
    Wallet,
}

/// The kind of instrument a stored payment-method token refers to.
#[derive(Clone, Copy, Debug, PartialEq, Eq, Structural)]
pub enum PaymentMethod {
    Card,
    Wallet,
    PayLater,
    BankTransfer,
    BankDebit,
}

/// Per-merchant configuration selecting the persistence code path.
#[derive(Clone, Copy, Debug, PartialEq, Eq, Structural)]
pub enum MerchantStorageScheme {
    PostgresOnly,
    RedisKv,
}

/// The label under which a payment method appears in composed lookup keys.
pub open spec fn payment_method_label(pm: PaymentMethod) -> Seq<char> {
    match pm {
        PaymentMethod::Card => "card"@,
        PaymentMethod::Wallet => "wallet"@,
        PaymentMethod::PayLater => "pay_later"@,
        PaymentMethod::BankTransfer => "bank_transfer"@,
        PaymentMethod::BankDebit => "bank_debit"@,
    }
}

impl PaymentMethod {
    /// The label as an executable string slice.
    pub fn as_str(&self) -> (r: &'static str)
        ensures
            r@ == payment_method_label(*self),
    {
        match self {
            PaymentMethod::Card => "card",
            PaymentMethod::Wallet => "wallet",
            PaymentMethod::PayLater => "pay_later",
            PaymentMethod::BankTransfer => "bank_transfer",
            PaymentMethod::BankDebit => "bank_debit",
        }
    }
}

} // verus!
