use payment_flows::enums::{IntentStatus, PaymentMethod};
use payment_flows::records::PaymentTokenData;
use payment_flows::store::Store;
use payment_flows::tokens::ParentPaymentMethodToken;

#[test]
fn key_is_composed_from_parent_token_and_payment_method() {
    let key = ParentPaymentMethodToken::return_key_for_token((
        &"tok1".to_string(),
        PaymentMethod::Card,
    ));
    assert_eq!(key, "pm_token_tok1_card_hyperswitch");
}

#[test]
fn key_uses_the_payment_method_label() {
    let key = ParentPaymentMethodToken::return_key_for_token((
        &"abc".to_string(),
        PaymentMethod::BankTransfer,
    ));
    assert_eq!(key, "pm_token_abc_bank_transfer_hyperswitch");
}

#[test]
fn insert_stores_the_token_under_the_composed_key() {
    let mut store = Store::new();
    let handle =
        ParentPaymentMethodToken::create_key_for_token((&"tok1".to_string(), PaymentMethod::Card));
    handle.insert(
        900,
        PaymentTokenData::TemporaryGeneric { token: "vault_ref".to_string() },
        &mut store,
    );
    assert_eq!(store.tokens.len(), 1);
    assert_eq!(store.tokens[0].key, "pm_token_tok1_card_hyperswitch");
    assert_eq!(store.tokens[0].expiry_seconds, 900);
    match &store.tokens[0].token {
        PaymentTokenData::TemporaryGeneric { token } => assert_eq!(token, "vault_ref"),
        other => panic!("unexpected token data {:?}", other),
    }
}

#[test]
fn insert_overwrites_an_existing_entry() {
    let mut store = Store::new();
    let handle =
        ParentPaymentMethodToken::create_key_for_token((&"tok1".to_string(), PaymentMethod::Card));
    handle.insert(
        900,
        PaymentTokenData::TemporaryGeneric { token: "first".to_string() },
        &mut store,
    );
    handle.insert(
        1800,
        PaymentTokenData::PermanentCard { payment_method_id: 42 },
        &mut store,
    );
    assert_eq!(store.tokens.len(), 1);
    assert_eq!(store.tokens[0].expiry_seconds, 1800);
    assert!(matches!(
        store.tokens[0].token,
        PaymentTokenData::PermanentCard { payment_method_id: 42 }
    ));
}

#[test]
fn delete_removes_only_the_addressed_entry() {
    let mut store = Store::new();
    let card =
        ParentPaymentMethodToken::create_key_for_token((&"tok1".to_string(), PaymentMethod::Card));
    let wallet = ParentPaymentMethodToken::create_key_for_token((
        &"tok1".to_string(),
        PaymentMethod::Wallet,
    ));
    card.insert(
        900,
        PaymentTokenData::TemporaryGeneric { token: "a".to_string() },
        &mut store,
    );
    wallet.insert(
        900,
        PaymentTokenData::TemporaryGeneric { token: "b".to_string() },
        &mut store,
    );
    card.delete(&mut store);
    assert_eq!(store.tokens.len(), 1);
    assert_eq!(store.tokens[0].key, "pm_token_tok1_wallet_hyperswitch");
}

#[test]
fn delete_of_an_absent_key_is_success() {
    let mut store = Store::new();
    let handle =
        ParentPaymentMethodToken::create_key_for_token((&"tok1".to_string(), PaymentMethod::Card));
    handle.delete(&mut store);
    assert_eq!(store.tokens.len(), 0);
}

#[test]
fn token_is_kept_while_customer_or_merchant_action_is_pending() {
    let handle =
        ParentPaymentMethodToken::create_key_for_token((&"tok1".to_string(), PaymentMethod::Card));
    assert!(!handle.should_delete_payment_method_token(IntentStatus::RequiresCustomerAction));
    assert!(!handle.should_delete_payment_method_token(IntentStatus::RequiresMerchantAction));
    assert!(handle.should_delete_payment_method_token(IntentStatus::Succeeded));
    assert!(handle.should_delete_payment_method_token(IntentStatus::Failed));
    assert!(handle.should_delete_payment_method_token(IntentStatus::Cancelled));
    assert!(handle.should_delete_payment_method_token(IntentStatus::Processing));
    assert!(handle.should_delete_payment_method_token(IntentStatus::RequiresCapture));
    assert!(handle.should_delete_payment_method_token(IntentStatus::RequiresConfirmation));
    assert!(handle.should_delete_payment_method_token(IntentStatus::RequiresPaymentMethod));
    assert!(handle.should_delete_payment_method_token(IntentStatus::PartiallyCaptured));
}
