use yourwallet::model::Account;
use yourwallet::model::AccountType;
use yourwallet::paging::newest_first;
use yourwallet::paging::paginate;
use yourwallet::paging::PaginationQuery;
use yourwallet::services::ServiceError;

fn numbers(n: u32) -> Vec<u32> {
    (1..=n).collect()
}

#[test]
fn second_page_of_forty_five() {
    let q = PaginationQuery { page: Some(2), limit: Some(20) };
    let p = paginate(numbers(45), &q).unwrap();
    assert_eq!(p.data, (21..=40).collect::<Vec<u32>>());
    assert_eq!(p.total, 45);
    assert_eq!(p.page, 2);
    assert_eq!(p.limit, 20);
    assert!(p.has_next);
}

#[test]
fn third_page_of_forty_five() {
    let q = PaginationQuery { page: Some(3), limit: Some(20) };
    let p = paginate(numbers(45), &q).unwrap();
    assert_eq!(p.data, (41..=45).collect::<Vec<u32>>());
    assert!(!p.has_next);
}

#[test]
fn page_past_the_end_is_empty() {
    let q = PaginationQuery { page: Some(4), limit: Some(20) };
    let p = paginate(numbers(45), &q).unwrap();
    assert!(p.data.is_empty());
    assert_eq!(p.total, 45);
    assert!(!p.has_next);
}

#[test]
fn defaults_are_first_page_of_twenty() {
    let q = PaginationQuery::default();
    assert_eq!(q.page, Some(1));
    assert_eq!(q.limit, Some(20));
    let p = paginate(numbers(25), &PaginationQuery { page: None, limit: None }).unwrap();
    assert_eq!(p.page, 1);
    assert_eq!(p.limit, 20);
    assert_eq!(p.data, (1..=20).collect::<Vec<u32>>());
    assert!(p.has_next);
}

#[test]
fn exact_fit_has_no_next_page() {
    let q = PaginationQuery { page: Some(2), limit: Some(20) };
    let p = paginate(numbers(40), &q).unwrap();
    assert_eq!(p.data.len(), 20);
    assert!(!p.has_next);
}

#[test]
fn zero_page_or_limit_is_invalid() {
    let r = paginate(numbers(3), &PaginationQuery { page: Some(0), limit: Some(2) });
    assert!(matches!(r, Err(ServiceError::InvalidInput(_))));
    let r = paginate(numbers(3), &PaginationQuery { page: Some(1), limit: Some(0) });
    assert!(matches!(r, Err(ServiceError::InvalidInput(_))));
}

#[test]
fn huge_page_number_does_not_overflow() {
    let q = PaginationQuery { page: Some(u64::MAX), limit: Some(u64::MAX) };
    let p = paginate(numbers(3), &q).unwrap();
    assert!(p.data.is_empty());
    assert!(!p.has_next);
}

fn dated(id: u128, created_at: i64) -> Account {
    Account {
        id,
        user_id: 1,
        name: String::new(),
        account_type: AccountType::Cash,
        currency: "CNY".to_string(),
        balance: 0,
        is_active: true,
        created_at,
        updated_at: created_at,
    }
}

#[test]
fn newest_first_orders_by_creation_descending() {
    let items = vec![dated(1, 30), dated(2, 10), dated(3, 50), dated(4, 30), dated(5, -5)];
    let sorted = newest_first(items);
    let times: Vec<i64> = sorted.iter().map(|a| a.created_at).collect();
    assert_eq!(times, vec![50, 30, 30, 10, -5]);
    let mut ids: Vec<u128> = sorted.iter().map(|a| a.id).collect();
    ids.sort();
    assert_eq!(ids, vec![1, 2, 3, 4, 5]);
}

#[test]
fn newest_first_of_nothing_is_nothing() {
    let sorted: Vec<Account> = newest_first(Vec::new());
    assert!(sorted.is_empty());
}
