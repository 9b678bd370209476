//! The financial summary: income and expense totals over a user's transactions,
//! optionally restricted to a date window, and the balances of the active accounts.
use vstd::assert_seqs_equal;
use vstd::prelude::*;

use crate::model::Account;
use crate::model::AccountBalance;
use crate::model::FinancialSummary;
use crate::model::Transaction;
use crate::model::TransactionType;
use crate::services::ServiceError;

verus! {

/// An inclusive window of instants, `[start, end]`.
#[derive(Debug, Clone, Copy, PartialEq, Eq, Structural)]
pub struct DateRange {
    pub start: i64,
    pub end: i64,
}

impl DateRange {
    /// Whether `t` lies in the window, boundaries included.
    pub fn contains(&self, t: i64) -> (r: bool)
        ensures
            r == (self.start <= t && t <= self.end),
    {
        self.start <= t && t <= self.end
    }
}

/// Whether an instant passes the optional window (no window lets everything pass).
pub open spec fn in_window(range: Option<DateRange>, t: i64) -> bool {
    match range {
        Some(w) => w.start <= t && t <= w.end,
        None => true,
    }
}

/// Whether the window, if given, ends before it starts.
pub open spec fn window_inverted(range: Option<DateRange>) -> bool {
    match range {
        Some(w) => w.end < w.start,
        None => false,
    }
}

/// Whether a transaction is of the given kind and inside the window.
pub open spec fn counted(t: Transaction, kind: TransactionType, range: Option<DateRange>) -> bool {
    t.transaction_type == kind && in_window(range, t.transaction_date)
}

/// Sum of the amounts of the transactions of `kind` inside the window.
pub open spec fn kind_total(txs: Seq<Transaction>, kind: TransactionType, range: Option<DateRange>) -> int
    decreases txs.len(),
{
    if txs.len() == 0 {
        0
    } else {
        kind_total(txs.drop_last(), kind, range) + if counted(txs.last(), kind, range) {
            txs.last().amount as int
        } else {
            0
        }
    }
}

/// Whether every transaction has a positive amount.
pub open spec fn amounts_positive(txs: Seq<Transaction>) -> bool {
    forall|i: int| 0 <= i < txs.len() ==> #[trigger] txs[i].amount > 0
}

/// The summary entry of an account.
pub open spec fn balance_of(a: Account) -> AccountBalance {
    AccountBalance {
        account_id: a.id,
        account_name: a.name,
        balance: a.balance,
        currency: a.currency,
    }
}

/// The active accounts, in their given order.
pub open spec fn active_accounts(accounts: Seq<Account>) -> Seq<Account> {
    accounts.filter(|a: Account| a.is_active)
}

/// The summary entries of the active accounts, in their given order.
pub open spec fn active_balances(accounts: Seq<Account>) -> Seq<AccountBalance> {
    active_accounts(accounts).map_values(|a: Account| balance_of(a))
}

/// Entries for the active accounts, each carrying the account's stored balance.
fn collect_balances(accounts: &Vec<Account>) -> (r: Vec<AccountBalance>)
    ensures
        r@ == active_balances(accounts@),
{
    let mut out: Vec<AccountBalance> = Vec::new();
    let mut i: usize = 0;
    while i < accounts.len()
        invariant
            i <= accounts@.len(),
            out@ == active_balances(accounts@.subrange(0, i as int)),
        decreases accounts@.len() - i,
    {
        let a = &accounts[i];
        proof {
            let s0 = accounts@.subrange(0, i as int);
            let s1 = accounts@.subrange(0, i + 1);
            assert(s1.drop_last() == s0);
            assert(s1.last() == *a);
            reveal_with_fuel(Seq::filter, 1);
            assert(active_accounts(s1) == if a.is_active {
                active_accounts(s0).push(*a)
            } else {
                active_accounts(s0)
            });
        }
        if a.is_active {
            let entry = AccountBalance {
                account_id: a.id,
                account_name: a.name.clone(),
                balance: a.balance,
                currency: a.currency.clone(),
            };
            out.push(entry);
            proof {
                assert_seqs_equal!(out@, active_balances(accounts@.subrange(0, i + 1)));
            }
        }
        i += 1;
    }
    proof {
        assert(accounts@.subrange(0, accounts@.len() as int) == accounts@);
    }
    out
}

/// The total of the transactions of `kind` inside the window; amounts must be positive.
fn total_of_kind(txs: &Vec<Transaction>, kind: TransactionType, range: Option<DateRange>) -> (r: i128)
    requires
        amounts_positive(txs@),
    ensures
        r == kind_total(txs@, kind, range),
        r >= 0,
{
    let mut total: i128 = 0;
    let mut i: usize = 0;
    while i < txs.len()
        invariant
            i <= txs@.len(),
            amounts_positive(txs@),
            total == kind_total(txs@.subrange(0, i as int), kind, range),
            0 <= total <= i * 0x7fff_ffff_ffff_ffff,
        decreases txs@.len() - i,
    {
        let t = &txs[i];
        proof {
            assert(txs@.subrange(0, i + 1).drop_last() == txs@.subrange(0, i as int));
            assert(txs@.subrange(0, i + 1).last() == txs@[i as int]);
            assert(txs@[i as int].amount > 0);
        }
        let inside = match range {
            Some(w) => w.contains(t.transaction_date),
            None => true,
        };
        if t.transaction_type == kind && inside {
            proof {
                assert((i + 1) * 0x7fff_ffff_ffff_ffff <= 0xffff_ffff_ffff_ffff * 0x7fff_ffff_ffff_ffff)
                    by (nonlinear_arith)
                    requires
                        i < 0xffff_ffff_ffff_ffff,
                ;
            }
            total = total + t.amount as i128;
        }
        i += 1;
    }
    proof {
        assert(txs@.subrange(0, txs@.len() as int) == txs@);
    }
    total
}

/// The financial summary of a user's accounts and transactions.
///
/// Fails with `NotFound` when no account is given, and otherwise with
/// `InvalidInput` when the window ends before it starts or a transaction's amount
/// is not positive. Income and expense are summed over the transactions inside the
/// window (all of them when there is none); transfers and investments count in
/// neither. The balances are those stored on the active accounts, in their order.
pub fn summarize(
    accounts: &Vec<Account>,
    transactions: &Vec<Transaction>,
    range: Option<DateRange>,
) -> (r: Result<FinancialSummary, ServiceError>)
    ensures
        (r matches Err(ServiceError::NotFound(_))) <==> accounts@.len() == 0,
        (r matches Err(ServiceError::InvalidInput(_))) <==> (accounts@.len() > 0 && (
        window_inverted(range) || !amounts_positive(transactions@))),
        r is Ok <==> (accounts@.len() > 0 && !window_inverted(range) && amounts_positive(
            transactions@,
        )),
        r matches Ok(s) ==> {
            &&& s.total_income == kind_total(transactions@, TransactionType::Income, range)
            &&& s.total_expense == kind_total(transactions@, TransactionType::Expense, range)
            &&& s.net_income == s.total_income - s.total_expense
            &&& s.account_balances@ == active_balances(accounts@)
        },
        transactions@.len() == 0 ==> (r matches Ok(s) ==> s.total_income == 0 && s.total_expense
            == 0 && s.net_income == 0),
{
    if accounts.len() == 0 {
        return Err(ServiceError::NotFound(String::from_str("the user has no accounts")));
    }
    if let Some(w) = range {
        if w.end < w.start {
            return Err(ServiceError::InvalidInput(String::from_str("the date range ends before it starts")));
        }
    }
    let mut i: usize = 0;
    while i < transactions.len()
        invariant
            i <= transactions@.len(),
            accounts@.len() > 0,
            !window_inverted(range),
            forall|j: int| 0 <= j < i ==> #[trigger] transactions@[j].amount > 0,
        decreases transactions@.len() - i,
    {
        if transactions[i].amount <= 0 {
            proof {
                assert(!(transactions@[i as int].amount > 0));
            }
            return Err(ServiceError::InvalidInput(String::from_str("a transaction amount is not positive")));
        }
        i += 1;
    }
    let total_income = total_of_kind(transactions, TransactionType::Income, range);
    let total_expense = total_of_kind(transactions, TransactionType::Expense, range);
    let account_balances = collect_balances(accounts);
    Ok(FinancialSummary {
        total_income,
        total_expense,
        net_income: total_income - total_expense,
        account_balances,
    })
}

/// What one transaction adds to the total of `kind` inside the window.
pub open spec fn contribution(t: Transaction, kind: TransactionType, range: Option<DateRange>) -> int {
    if counted(t, kind, range) {
        t.amount as int
    } else {
        0
    }
}

/// Taking any one transaction out lowers a total by exactly what it contributed.
proof fn lemma_kind_total_remove(
    txs: Seq<Transaction>,
    j: int,
    kind: TransactionType,
    range: Option<DateRange>,
)
    requires
        0 <= j < txs.len(),
    ensures
        kind_total(txs, kind, range) == kind_total(txs.remove(j), kind, range) + contribution(
            txs[j],
            kind,
            range,
        ),
    decreases txs.len(),
{
    if j == txs.len() - 1 {
        assert(txs.remove(j) == txs.drop_last());
    } else {
        let rest = txs.remove(j);
        assert(rest.drop_last() == txs.drop_last().remove(j));
        assert(rest.last() == txs.last());
        lemma_kind_total_remove(txs.drop_last(), j, kind, range);
    }
}

/// Totals do not depend on the order of the transactions: two sequences holding the
/// same transactions, each as many times, give the same total of every kind over
/// every window.
pub proof fn lemma_totals_order_independent(
    a: Seq<Transaction>,
    b: Seq<Transaction>,
    kind: TransactionType,
    range: Option<DateRange>,
)
    requires
        a.to_multiset() == b.to_multiset(),
    ensures
        kind_total(a, kind, range) == kind_total(b, kind, range),
    decreases a.len(),
{
    broadcast use vstd::seq_lib::group_to_multiset_ensures;

    if a.len() == 0 {
        assert(b.to_multiset().len() == 0);
    } else {
        let x = a.last();
        let a0 = a.drop_last();
        assert(a == a0.push(x));
        assert(a.to_multiset().count(x) > 0);
        assert(b.contains(x));
        let j = choose|j: int| 0 <= j < b.len() && b[j] == x;
        let b0 = b.remove(j);
        assert(b0.to_multiset() == b.to_multiset().remove(x));
        assert(a0.to_multiset() == a.to_multiset().remove(x));
        lemma_kind_total_remove(b, j, kind, range);
        lemma_totals_order_independent(a0, b0, kind, range);
    }
}

/// With no transactions every total is zero.
pub proof fn lemma_empty_totals(kind: TransactionType, range: Option<DateRange>)
    ensures
        kind_total(Seq::<Transaction>::empty(), kind, range) == 0,
{
}

/// The summary lists exactly one entry per active account, in order, each with
/// that account's identifier, name, currency and stored balance unchanged.
pub proof fn lemma_balances_follow_active_accounts(accounts: Seq<Account>)
    ensures
        active_balances(accounts).len() == active_accounts(accounts).len(),
        forall|i: int|
            0 <= i < active_accounts(accounts).len() ==> {
                let e = #[trigger] active_balances(accounts)[i];
                let a = active_accounts(accounts)[i];
                &&& a.is_active
                &&& e.account_id == a.id
                &&& e.account_name == a.name
                &&& e.balance == a.balance
                &&& e.currency == a.currency
            },
{
    assert forall|i: int| 0 <= i < active_accounts(accounts).len() implies active_accounts(
        accounts,
    )[i].is_active by {
        accounts.lemma_filter_pred(|a: Account| a.is_active, i);
    }
}

/// The window is closed: a transaction dated exactly at either end is counted, and
/// one dated before the start or after the end is not.
pub proof fn lemma_window_bounds(t: Transaction, kind: TransactionType, w: DateRange)
    ensures
        kind_total(seq![t], kind, Some(w)) == if t.transaction_type == kind && w.start
            <= t.transaction_date && t.transaction_date <= w.end {
            t.amount as int
        } else {
            0
        },
        t.transaction_type == kind && (t.transaction_date == w.start || t.transaction_date
            == w.end) && w.start <= w.end ==> kind_total(seq![t], kind, Some(w)) == t.amount,
        t.transaction_date < w.start || t.transaction_date > w.end ==> kind_total(
            seq![t],
            kind,
            Some(w),
        ) == 0,
{
    assert(seq![t].drop_last() == Seq::<Transaction>::empty());
    assert(kind_total(Seq::<Transaction>::empty(), kind, Some(w)) == 0);
    assert(seq![t].last() == t);
}

} // verus!
