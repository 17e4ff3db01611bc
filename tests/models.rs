use sure_client::models::account::{
    AccountKind, AccountableAttributes, CryptoAttributes, DepositoryAttributes, VehicleAttributes,
};
use sure_client::models::category::Classification;
use sure_client::models::chat::{AiResponseStatus, MessageRole, MessageType};
use sure_client::models::sync::SyncStatus;
use sure_client::models::transaction::{TransactionNature, TransactionType};
use sure_client::models::usage::{AuthenticationMethod, RateLimitTier};
use sure_client::models::auth::TokenType;

#[test]
fn account_kinds_round_trip() {
    for k in [
        AccountKind::Depository,
        AccountKind::CreditCard,
        AccountKind::Investment,
        AccountKind::Property,
        AccountKind::Loan,
        AccountKind::OtherAsset,
        AccountKind::OtherLiability,
    ] {
        assert_eq!(k.to_string().parse::<AccountKind>(), Ok(k));
    }
    assert_eq!(AccountKind::CreditCard.to_string(), "CreditCard");
    let e = "credit_card".parse::<AccountKind>().unwrap_err();
    assert_eq!(e.text(), "credit_card");
    assert_eq!(e.to_string(), "Invalid account kind: credit_card");
}

#[test]
fn attribute_kinds() {
    let crypto = AccountableAttributes::Crypto(CryptoAttributes { subtype: None, locked_attributes: None });
    assert_eq!(crypto.kind(), AccountKind::Property);
    let vehicle = AccountableAttributes::Vehicle(VehicleAttributes {
        year: Some(2020),
        make: None,
        model: None,
        mileage_value: None,
        mileage_unit: None,
        subtype: None,
        locked_attributes: None,
    });
    assert_eq!(vehicle.kind(), AccountKind::Property);
    let dep = AccountableAttributes::Depository(DepositoryAttributes { subtype: None, locked_attributes: None });
    assert_eq!(dep.kind(), AccountKind::Depository);
}

#[test]
fn lower_case_enums() {
    assert_eq!(Classification::from_name("income"), Ok(Classification::Income));
    assert_eq!(Classification::Expense.to_string(), "expense");
    assert!(Classification::from_name("Income").is_err());
    assert_eq!("user_message".parse::<MessageType>(), Ok(MessageType::UserMessage));
    assert_eq!(MessageRole::Assistant.to_string(), "assistant");
    assert_eq!("failed".parse::<AiResponseStatus>(), Ok(AiResponseStatus::Failed));
    assert_eq!("syncing".parse::<SyncStatus>(), Ok(SyncStatus::Syncing));
    assert_eq!(TokenType::Bearer.to_string(), "Bearer");
    assert_eq!("oauth".parse::<AuthenticationMethod>(), Ok(AuthenticationMethod::OAuth));
    assert_eq!("expense".parse::<TransactionType>(), Ok(TransactionType::Expense));
    let e = "done".parse::<SyncStatus>().unwrap_err();
    assert_eq!(e.to_string(), "Invalid sync status: done");
}

#[test]
fn transaction_nature_aliases() {
    assert_eq!("inflow".parse::<TransactionNature>(), Ok(TransactionNature::Income));
    assert_eq!("outflow".parse::<TransactionNature>(), Ok(TransactionNature::Expense));
    assert_eq!(TransactionNature::Income.to_string(), "income");
    assert!("sideways".parse::<TransactionNature>().is_err());
}

#[test]
fn unknown_rate_limit_tier() {
    assert_eq!("premium".parse::<RateLimitTier>(), Ok(RateLimitTier::Premium));
    assert_eq!("platinum".parse::<RateLimitTier>(), Ok(RateLimitTier::Unknown));
    assert_eq!(RateLimitTier::Noop.to_string(), "noop");
}
