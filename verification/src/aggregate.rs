//! The working aggregate a flow assembles per request.
//!
//! The aggregate is ephemeral: the fetch stage builds it from the intent,
//! its active attempt, the resolved addresses and the business profile, and
//! the update stage projects specific fields back to storage. It is never
//! persisted wholesale.

use vstd::prelude::*;

use crate::enums::Currency;
use crate::records::{clone_opt_address, clone_opt_string, Address, PaymentAttempt, PaymentIntent};

verus! {

/// Field-wise merge of two addresses: the primary's fields win, absent ones
/// are filled from the fallback.
pub open spec fn merge_address(primary: Address, fallback: Address) -> Address {
    Address {
        city: if primary.city is Some {
            primary.city
        } else {
            fallback.city
        },
        country: if primary.country is Some {
            primary.country
        } else {
            fallback.country
        },
        ..primary
    }
}

/// The payment-method billing address after unification: when the profile
/// asks for it, an explicitly supplied address is completed from the billing
/// address, and a missing one is the billing address itself; otherwise the
/// supplied address stands as it is.
pub open spec fn unified_payment_method_billing(
    billing: Option<Address>,
    payment_method_billing: Option<Address>,
    should_unify: bool,
) -> Option<Address> {
    if should_unify {
        match payment_method_billing {
            Some(pmb) => match billing {
                Some(b) => Some(merge_address(pmb, b)),
                None => Some(pmb),
            },
            None => billing,
        }
    } else {
        payment_method_billing
    }
}

/// The addresses a payment runs with.
#[derive(Clone, Debug)]
pub struct PaymentAddress {
    pub shipping: Option<Address>,
    pub billing: Option<Address>,
    pub unified_payment_method_billing: Option<Address>,
}

impl PaymentAddress {
    /// Assembles the address set, unifying the payment-method billing
    /// address with the billing address when the profile asks for it.
    pub fn new(
        shipping: Option<Address>,
        billing: Option<Address>,
        payment_method_billing: Option<Address>,
        use_billing_as_payment_method_billing: Option<bool>,
    ) -> (r: PaymentAddress)
        ensures
            r.shipping == shipping,
            r.billing == billing,
            r.unified_payment_method_billing == unified_payment_method_billing(
                billing,
                payment_method_billing,
                use_billing_as_payment_method_billing == Some(true),
            ),
    {
        let should_unify = match use_billing_as_payment_method_billing {
            Some(b) => b,
            None => false,
        };
        let unified = if should_unify {
            match payment_method_billing {
                Some(pmb) => match &billing {
                    Some(b) => {
                        let Address { address_id, merchant_id, city, country } = pmb;
                        Some(Address {
                            city: match city {
                                Some(c) => Some(c),
                                None => clone_opt_string(&b.city),
                            },
                            country: match country {
                                Some(c) => Some(c),
                                None => clone_opt_string(&b.country),
                            },
                            address_id,
                            merchant_id,
                        })
                    },
                    None => Some(pmb),
                },
                None => clone_opt_address(&billing),
            }
        } else {
            payment_method_billing
        };
        PaymentAddress { shipping, billing, unified_payment_method_billing: unified }
    }
}

/// The ephemeral aggregate the cancel flow carries between its stages.
#[derive(Clone, Debug)]
pub struct PaymentData {
    pub payment_intent: PaymentIntent,
    pub payment_attempt: PaymentAttempt,
    pub currency: Currency,
    pub amount: i64,
    pub email: Option<String>,
    pub mandate_id: Option<u64>,
    pub address: PaymentAddress,
    pub confirm: Option<bool>,
    pub force_sync: Option<bool>,
    pub creds_identifier: Option<String>,
}

/// What the fetch stage hands to the rest of the pipeline.
#[derive(Clone, Debug)]
pub struct GetTrackerResponse {
    pub payment_data: PaymentData,
    pub business_profile: crate::records::BusinessProfile,
}

} // verus!
