use yourwallet::model::find_account;
use yourwallet::model::Account;
use yourwallet::model::AccountType;
use yourwallet::model::CreateAccountRequest;
use yourwallet::model::CreateTransactionRequest;
use yourwallet::model::CreateUserRequest;
use yourwallet::model::Transaction;
use yourwallet::model::TransactionType;
use yourwallet::model::UpdateTransactionRequest;
use yourwallet::model::User;
use yourwallet::response::ApiResponse;
use yourwallet::services::ServiceError;

fn account_request(balance: Option<i64>) -> CreateAccountRequest {
    CreateAccountRequest {
        name: "Wallet".to_string(),
        account_type: AccountType::BankCard,
        currency: "USD".to_string(),
        initial_balance: balance,
    }
}

fn tx_request(account_id: u128, amount: i64) -> CreateTransactionRequest {
    CreateTransactionRequest {
        account_id,
        category_id: Some(4),
        transaction_type: TransactionType::Expense,
        amount,
        description: "groceries".to_string(),
        notes: None,
        tags: None,
        transaction_date: None,
    }
}

#[test]
fn user_from_request_keeps_fields() {
    let req = CreateUserRequest {
        username: "ann".to_string(),
        email: "ann@example.com".to_string(),
        display_name: "Ann".to_string(),
    };
    let u = User::from_request(9, req.clone(), 1_000);
    assert_eq!(u.id, 9);
    assert_eq!(u.username, "ann");
    assert_eq!(u.email, "ann@example.com");
    assert!(u.avatar_url.is_none());
    assert_eq!(u.created_at, 1_000);
    let r = User::register(req);
    assert_eq!(r.display_name, "Ann");
    assert_eq!(r.created_at, r.updated_at);
}

#[test]
fn fresh_identifiers_are_version_four() {
    let a = Account::open(1, account_request(None));
    let b = Account::open(1, account_request(None));
    assert_ne!(a.id, b.id);
    assert_eq!((a.id >> 76) & 0xF, 4);
}

#[test]
fn account_balance_defaults_to_zero() {
    let a = Account::from_request(5, 6, account_request(None), 10);
    assert_eq!(a.balance, 0);
    assert!(a.is_active);
    assert_eq!(a.user_id, 6);
    let b = Account::from_request(5, 6, account_request(Some(2_500)), 10);
    assert_eq!(b.balance, 2_500);
}

#[test]
fn account_update_replaces_fields() {
    let mut a = Account::from_request(5, 6, account_request(Some(100)), 10);
    a.apply_request(
        CreateAccountRequest {
            name: "Renamed".to_string(),
            account_type: AccountType::Crypto,
            currency: "EUR".to_string(),
            initial_balance: None,
        },
        20,
    );
    assert_eq!(a.name, "Renamed");
    assert_eq!(a.account_type, AccountType::Crypto);
    assert_eq!(a.balance, 100);
    assert_eq!(a.created_at, 10);
    assert_eq!(a.updated_at, 20);
}

#[test]
fn finds_the_first_matching_account() {
    let accounts = vec![
        Account::from_request(1, 6, account_request(None), 0),
        Account::from_request(2, 6, account_request(None), 0),
        Account::from_request(2, 6, account_request(Some(1)), 0),
    ];
    assert_eq!(find_account(&accounts, 2), Some(1));
    assert_eq!(find_account(&accounts, 3), None);
}

#[test]
fn transaction_takes_the_account_currency() {
    let accounts = vec![Account::from_request(3, 6, account_request(None), 0)];
    let t = Transaction::from_request(8, 6, &accounts, tx_request(3, 1_999), 77).unwrap();
    assert_eq!(t.currency, "USD");
    assert_eq!(t.amount, 1_999);
    assert_eq!(t.transaction_date, 77);
    assert!(t.tags.is_empty());
    assert_eq!(t.category_id, Some(4));
}

#[test]
fn transaction_errors() {
    let accounts = vec![Account::from_request(3, 6, account_request(None), 0)];
    let r = Transaction::from_request(8, 6, &accounts, tx_request(4, 100), 77);
    assert!(matches!(r, Err(ServiceError::NotFound(_))));
    let r = Transaction::record(6, &accounts, tx_request(3, -5));
    assert!(matches!(r, Err(ServiceError::InvalidInput(_))));
}

#[test]
fn transaction_update_is_partial() {
    let accounts = vec![Account::from_request(3, 6, account_request(None), 0)];
    let mut t = Transaction::from_request(8, 6, &accounts, tx_request(3, 100), 77).unwrap();
    let req = UpdateTransactionRequest {
        account_id: None,
        category_id: None,
        amount: Some(250),
        description: None,
        notes: Some("weekly".to_string()),
        tags: Some(vec!["food".to_string()]),
        transaction_date: None,
    };
    assert!(t.apply_update(req, 90).is_ok());
    assert_eq!(t.amount, 250);
    assert_eq!(t.notes, Some("weekly".to_string()));
    assert_eq!(t.tags, vec!["food".to_string()]);
    assert_eq!(t.description, "groceries");
    assert_eq!(t.updated_at, 90);
    assert_eq!(t.created_at, 77);
}

#[test]
fn transaction_update_rejects_non_positive_amount() {
    let accounts = vec![Account::from_request(3, 6, account_request(None), 0)];
    let mut t = Transaction::from_request(8, 6, &accounts, tx_request(3, 100), 77).unwrap();
    let req = UpdateTransactionRequest {
        account_id: Some(1),
        category_id: None,
        amount: Some(0),
        description: None,
        notes: None,
        tags: None,
        transaction_date: None,
    };
    assert!(matches!(t.apply_update(req, 90), Err(ServiceError::InvalidInput(_))));
    assert_eq!(t.amount, 100);
    assert_eq!(t.account_id, 3);
    assert_eq!(t.updated_at, 77);
}

#[test]
fn response_envelopes() {
    let ok = ApiResponse::success(5u32);
    assert!(ok.success);
    assert_eq!(ok.data, Some(5));
    assert_eq!(ok.message, "Success");
    assert!(ok.timestamp > 0);
    let err: ApiResponse<u32> = ApiResponse::error("boom".to_string());
    assert!(!err.success);
    assert!(err.data.is_none());
    assert_eq!(err.message, "boom");
}
