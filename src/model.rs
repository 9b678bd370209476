//! The ledger's records. Identifiers are 128-bit values, instants are
//! milliseconds since the Unix epoch (UTC), and money is a whole number of
//! hundredths of the currency unit, so every sum is exact.
use vstd::prelude::*;

use crate::outside::new_id;
use crate::outside::now_millis;
use crate::services::ServiceError;

verus! {

/// Kinds of account a user can hold.
#[derive(Debug, Clone, Copy, PartialEq, Eq, Structural)]
pub enum AccountType {
    Cash,
    BankCard,
    CreditCard,
    Investment,
    Crypto,
}

/// Kinds of transaction; the kind, not the sign of the amount, says which way money moves.
#[derive(Debug, Clone, Copy, PartialEq, Eq, Structural)]
pub enum TransactionType {
    Income,
    Expense,
    Transfer,
    Investment,
}

/// A registered user.
#[derive(Debug, Clone)]
pub struct User {
    pub id: u128,
    pub username: String,
    pub email: String,
    pub display_name: String,
    pub avatar_url: Option<String>,
    pub created_at: i64,
    pub updated_at: i64,
}

/// What a client supplies to register a user.
#[derive(Debug, Clone)]
pub struct CreateUserRequest {
    pub username: String,
    pub email: String,
    pub display_name: String,
}

/// A store of money owned by a user; `balance` is the stored running total.
#[derive(Debug, Clone)]
pub struct Account {
    pub id: u128,
    pub user_id: u128,
    pub name: String,
    pub account_type: AccountType,
    pub currency: String,
    pub balance: i64,
    pub is_active: bool,
    pub created_at: i64,
    pub updated_at: i64,
}

/// What a client supplies to open or to redefine an account.
#[derive(Debug, Clone)]
pub struct CreateAccountRequest {
    pub name: String,
    pub account_type: AccountType,
    pub currency: String,
    pub initial_balance: Option<i64>,
}

/// A label that transactions can be filed under.
#[derive(Debug, Clone)]
pub struct Category {
    pub id: u128,
    pub name: String,
    pub icon: String,
    pub color: String,
    pub transaction_type: TransactionType,
    pub is_system: bool,
}

/// One ledger entry; `amount` is positive.
#[derive(Debug, Clone)]
pub struct Transaction {
    pub id: u128,
    pub user_id: u128,
    pub account_id: u128,
    pub category_id: Option<u128>,
    pub transaction_type: TransactionType,
    pub amount: i64,
    pub currency: String,
    pub description: String,
    pub notes: Option<String>,
    pub tags: Vec<String>,
    pub transaction_date: i64,
    pub created_at: i64,
    pub updated_at: i64,
}

/// What a client supplies to record a transaction.
#[derive(Debug, Clone)]
pub struct CreateTransactionRequest {
    pub account_id: u128,
    pub category_id: Option<u128>,
    pub transaction_type: TransactionType,
    pub amount: i64,
    pub description: String,
    pub notes: Option<String>,
    pub tags: Option<Vec<String>>,
    pub transaction_date: Option<i64>,
}

/// A partial change to a transaction: each present field replaces the stored one.
#[derive(Debug, Clone)]
pub struct UpdateTransactionRequest {
    pub account_id: Option<u128>,
    pub category_id: Option<u128>,
    pub amount: Option<i64>,
    pub description: Option<String>,
    pub notes: Option<String>,
    pub tags: Option<Vec<String>>,
    pub transaction_date: Option<i64>,
}

/// One active account's entry in a financial summary.
#[derive(Debug, Clone)]
pub struct AccountBalance {
    pub account_id: u128,
    pub account_name: String,
    pub balance: i64,
    pub currency: String,
}

/// Totals over a user's transactions and the balances of the user's active accounts.
#[derive(Debug, Clone)]
pub struct FinancialSummary {
    pub total_income: i128,
    pub total_expense: i128,
    pub net_income: i128,
    pub account_balances: Vec<AccountBalance>,
}

impl User {
    /// The user that `request` registers, under identifier `id`, created at `now`.
    pub fn from_request(id: u128, request: CreateUserRequest, now: i64) -> (r: User)
        ensures
            r.id == id,
            r.username == request.username,
            r.email == request.email,
            r.display_name == request.display_name,
            r.avatar_url is None,
            r.created_at == now,
            r.updated_at == now,
    {
        User {
            id,
            username: request.username,
            email: request.email,
            display_name: request.display_name,
            avatar_url: None,
            created_at: now,
            updated_at: now,
        }
    }

    /// Registers a user under a fresh random identifier, stamped with the current time.
    pub fn register(request: CreateUserRequest) -> (r: User)
        ensures
            r.username == request.username,
            r.email == request.email,
            r.display_name == request.display_name,
            r.avatar_url is None,
            r.created_at == r.updated_at,
    {
        let id = new_id();
        let now = now_millis();
        User::from_request(id, request, now)
    }
}

impl Account {
    /// The active account that `request` opens for `user_id` under identifier `id` at
    /// `now`; without an initial balance it starts at zero.
    pub fn from_request(id: u128, user_id: u128, request: CreateAccountRequest, now: i64) -> (r: Account)
        ensures
            r.id == id,
            r.user_id == user_id,
            r.name == request.name,
            r.account_type == request.account_type,
            r.currency == request.currency,
            r.balance == (match request.initial_balance {
                Some(b) => b,
                None => 0,
            }),
            r.is_active,
            r.created_at == now,
            r.updated_at == now,
    {
        Account {
            id,
            user_id,
            name: request.name,
            account_type: request.account_type,
            currency: request.currency,
            balance: match request.initial_balance {
                Some(b) => b,
                None => 0,
            },
            is_active: true,
            created_at: now,
            updated_at: now,
        }
    }

    /// Opens an account for `user_id` under a fresh random identifier at the current time.
    pub fn open(user_id: u128, request: CreateAccountRequest) -> (r: Account)
        ensures
            r.user_id == user_id,
            r.name == request.name,
            r.account_type == request.account_type,
            r.currency == request.currency,
            r.balance == (match request.initial_balance {
                Some(b) => b,
                None => 0,
            }),
            r.is_active,
            r.created_at == r.updated_at,
    {
        let id = new_id();
        let now = now_millis();
        Account::from_request(id, user_id, request, now)
    }

    /// Redefines the account from `request` at `now`: name, kind and currency are
    /// replaced, and the balance too when the request carries one; identity, owner,
    /// active flag and creation time stay.
    pub fn apply_request(&mut self, request: CreateAccountRequest, now: i64)
        ensures
            final(self).id == old(self).id,
            final(self).user_id == old(self).user_id,
            final(self).name == request.name,
            final(self).account_type == request.account_type,
            final(self).currency == request.currency,
            final(self).balance == (match request.initial_balance {
                Some(b) => b,
                None => old(self).balance,
            }),
            final(self).is_active == old(self).is_active,
            final(self).created_at == old(self).created_at,
            final(self).updated_at == now,
    {
        self.name = request.name;
        self.account_type = request.account_type;
        self.currency = request.currency;
        if let Some(b) = request.initial_balance {
            self.balance = b;
        }
        self.updated_at = now;
    }
}

/// Position of the first account with identifier `id`, if any.
pub fn find_account(accounts: &Vec<Account>, id: u128) -> (r: Option<usize>)
    ensures
        r matches Some(i) ==> i < accounts@.len() && accounts@[i as int].id == id && forall|
            j: int,
        | 0 <= j < i ==> #[trigger] accounts@[j].id != id,
        r is None ==> forall|j: int| 0 <= j < accounts@.len() ==> #[trigger] accounts@[j].id != id,
{
    let mut i: usize = 0;
    while i < accounts.len()
        invariant
            i <= accounts@.len(),
            forall|j: int| 0 <= j < i ==> #[trigger] accounts@[j].id != id,
        decreases accounts@.len() - i,
    {
        if accounts[i].id == id {
            return Some(i);
        }
        i += 1;
    }
    None
}

/// Whether some account has identifier `id`.
pub open spec fn has_account(accounts: Seq<Account>, id: u128) -> bool {
    exists|j: int| 0 <= j < accounts.len() && #[trigger] accounts[j].id == id
}

impl Transaction {
    /// The transaction that `request` records for `user_id` under identifier `id` at
    /// `now`, in the currency of the account it names.
    ///
    /// Fails with `NotFound` when no account in `accounts` has the named identifier,
    /// and otherwise with `InvalidInput` when the amount is not positive. Without a
    /// date the transaction is dated `now`; without tags it has none.
    pub fn from_request(
        id: u128,
        user_id: u128,
        accounts: &Vec<Account>,
        request: CreateTransactionRequest,
        now: i64,
    ) -> (r: Result<Transaction, ServiceError>)
        ensures
            (r matches Err(ServiceError::NotFound(_))) <==> !has_account(accounts@, request.account_id),
            (r matches Err(ServiceError::InvalidInput(_))) <==> (has_account(accounts@, request.account_id)
                && request.amount <= 0),
            r is Ok <==> (has_account(accounts@, request.account_id) && request.amount > 0),
            r matches Ok(t) ==> {
                &&& t.id == id
                &&& t.user_id == user_id
                &&& t.account_id == request.account_id
                &&& t.category_id == request.category_id
                &&& t.transaction_type == request.transaction_type
                &&& t.amount == request.amount
                &&& exists|j: int|
                    0 <= j < accounts@.len() && #[trigger] accounts@[j].id == request.account_id
                        && t.currency == accounts@[j].currency
                &&& t.description == request.description
                &&& t.notes == request.notes
                &&& t.tags@ == (match request.tags {
                    Some(v) => v@,
                    None => Seq::empty(),
                })
                &&& t.transaction_date == (match request.transaction_date {
                    Some(d) => d,
                    None => now,
                })
                &&& t.created_at == now
                &&& t.updated_at == now
            },
    {
        let found = find_account(accounts, request.account_id);
        let k = match found {
            Some(k) => k,
            None => {
                return Err(ServiceError::NotFound(String::from_str("the transaction's account does not exist")));
            },
        };
        if request.amount <= 0 {
            return Err(ServiceError::InvalidInput(String::from_str("the amount must be positive")));
        }
        let currency = accounts[k].currency.clone();
        let tags = match request.tags {
            Some(v) => v,
            None => Vec::new(),
        };
        let transaction_date = match request.transaction_date {
            Some(d) => d,
            None => now,
        };
        Ok(Transaction {
            id,
            user_id,
            account_id: request.account_id,
            category_id: request.category_id,
            transaction_type: request.transaction_type,
            amount: request.amount,
            currency,
            description: request.description,
            notes: request.notes,
            tags,
            transaction_date,
            created_at: now,
            updated_at: now,
        })
    }

    /// Records a transaction for `user_id` under a fresh random identifier at the
    /// current time; it fails exactly as `from_request` does.
    pub fn record(user_id: u128, accounts: &Vec<Account>, request: CreateTransactionRequest) -> (r:
        Result<Transaction, ServiceError>)
        ensures
            (r matches Err(ServiceError::NotFound(_))) <==> !has_account(accounts@, request.account_id),
            (r matches Err(ServiceError::InvalidInput(_))) <==> (has_account(accounts@, request.account_id)
                && request.amount <= 0),
            r is Ok <==> (has_account(accounts@, request.account_id) && request.amount > 0),
            r matches Ok(t) ==> {
                &&& t.user_id == user_id
                &&& t.account_id == request.account_id
                &&& t.category_id == request.category_id
                &&& t.transaction_type == request.transaction_type
                &&& t.amount == request.amount
                &&& t.description == request.description
                &&& t.notes == request.notes
                &&& exists|j: int|
                    0 <= j < accounts@.len() && #[trigger] accounts@[j].id == request.account_id
                        && t.currency == accounts@[j].currency
                &&& t.tags@ == (match request.tags {
                    Some(v) => v@,
                    None => Seq::empty(),
                })
                &&& t.created_at == t.updated_at
                &&& request.transaction_date matches Some(d) ==> t.transaction_date == d
            },
    {
        let id = new_id();
        let now = now_millis();
        Transaction::from_request(id, user_id, accounts, request, now)
    }

    /// Applies a partial change at `now`: each field present in `request` replaces the
    /// stored one, and the update time becomes `now`.
    ///
    /// Fails with `InvalidInput`, leaving the transaction unchanged, when the request
    /// carries an amount that is not positive.
    pub fn apply_update(&mut self, request: UpdateTransactionRequest, now: i64) -> (r: Result<(), ServiceError>)
        ensures
            (r matches Err(ServiceError::InvalidInput(_))) <==> (request.amount matches Some(a) && a <= 0),
            r is Ok <==> !(request.amount matches Some(a) && a <= 0),
            r is Err ==> *final(self) == *old(self),
            r is Ok ==> {
                &&& final(self).id == old(self).id
                &&& final(self).user_id == old(self).user_id
                &&& final(self).account_id == (match request.account_id {
                    Some(v) => v,
                    None => old(self).account_id,
                })
                &&& final(self).category_id == (match request.category_id {
                    Some(v) => Some(v),
                    None => old(self).category_id,
                })
                &&& final(self).transaction_type == old(self).transaction_type
                &&& final(self).amount == (match request.amount {
                    Some(v) => v,
                    None => old(self).amount,
                })
                &&& final(self).currency == old(self).currency
                &&& final(self).description == (match request.description {
                    Some(v) => v,
                    None => old(self).description,
                })
                &&& final(self).notes == (match request.notes {
                    Some(v) => Some(v),
                    None => old(self).notes,
                })
                &&& final(self).tags@ == (match request.tags {
                    Some(v) => v@,
                    None => old(self).tags@,
                })
                &&& final(self).transaction_date == (match request.transaction_date {
                    Some(v) => v,
                    None => old(self).transaction_date,
                })
                &&& final(self).created_at == old(self).created_at
                &&& final(self).updated_at == now
            },
    {
        if let Some(a) = request.amount {
            if a <= 0 {
                return Err(ServiceError::InvalidInput(String::from_str("the amount must be positive")));
            }
        }
        if let Some(v) = request.account_id {
            self.account_id = v;
        }
        if let Some(v) = request.category_id {
            self.category_id = Some(v);
        }
        if let Some(v) = request.amount {
            self.amount = v;
        }
        if let Some(v) = request.description {
            self.description = v;
        }
        if let Some(v) = request.notes {
            self.notes = Some(v);
        }
        if let Some(v) = request.tags {
            self.tags = v;
        }
        if let Some(v) = request.transaction_date {
            self.transaction_date = v;
        }
        self.updated_at = now;
        Ok(())
    }
}

} // verus!
