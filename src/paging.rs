//! Splitting an ordered record list into numbered pages.
use vstd::multiset::Multiset;
use vstd::prelude::*;

use crate::model::Account;
use crate::model::Transaction;
use crate::services::ServiceError;

verus! {

/// The page served when none is asked for (pages count from one).
pub const DEFAULT_PAGE: u64 = 1;

/// The page size used when none is asked for.
pub const DEFAULT_LIMIT: u64 = 20;

/// Which page of a list a client asks for, and how long a page is.
#[derive(Debug, Clone, Copy, PartialEq, Eq, Structural)]
pub struct PaginationQuery {
    pub page: Option<u64>,
    pub limit: Option<u64>,
}

impl PaginationQuery {
    /// The page number asked for, or the first page.
    pub open spec fn page_spec(self) -> u64 {
        match self.page {
            Some(p) => p,
            None => DEFAULT_PAGE,
        }
    }

    /// The page size asked for, or the default size.
    pub open spec fn limit_spec(self) -> u64 {
        match self.limit {
            Some(l) => l,
            None => DEFAULT_LIMIT,
        }
    }
}

impl Default for PaginationQuery {
    /// The first page at the default size.
    fn default() -> (r: PaginationQuery)
        ensures
            r.page == Some(DEFAULT_PAGE),
            r.limit == Some(DEFAULT_LIMIT),
    {
        PaginationQuery { page: Some(DEFAULT_PAGE), limit: Some(DEFAULT_LIMIT) }
    }
}

/// One page of a list, with the list's length and whether a later page holds items.
#[derive(Debug, Clone)]
pub struct PaginatedResponse<T> {
    pub data: Vec<T>,
    pub page: u64,
    pub limit: u64,
    pub total: u64,
    pub has_next: bool,
}

/// Position in the list of the first item of `page` (counted from one).
pub open spec fn page_start(page: u64, limit: u64) -> int {
    (page - 1) * limit
}

/// The items of `page` at size `limit`: those at positions `[(page-1)*limit, page*limit)`
/// that the list has.
pub open spec fn page_items<T>(items: Seq<T>, page: u64, limit: u64) -> Seq<T> {
    let lo = page_start(page, limit);
    let hi = lo + limit;
    if lo >= items.len() {
        Seq::empty()
    } else if hi >= items.len() {
        items.subrange(lo, items.len() as int)
    } else {
        items.subrange(lo, hi)
    }
}

/// The requested page of `items`, which are taken to be in their display order.
///
/// Fails with `InvalidInput` when the page number or the page size is zero.
pub fn paginate<T>(items: Vec<T>, query: &PaginationQuery) -> (r: Result<PaginatedResponse<T>, ServiceError>)
    ensures
        (r matches Err(ServiceError::InvalidInput(_))) <==> (query.page_spec() == 0
            || query.limit_spec() == 0),
        r is Ok <==> (query.page_spec() > 0 && query.limit_spec() > 0),
        r matches Ok(p) ==> {
            &&& p.page == query.page_spec()
            &&& p.limit == query.limit_spec()
            &&& p.total == items@.len()
            &&& p.data@ == page_items(items@, p.page, p.limit)
            &&& p.has_next == (p.page * p.limit < items@.len())
        },
{
    let page = match query.page {
        Some(p) => p,
        None => DEFAULT_PAGE,
    };
    let limit = match query.limit {
        Some(l) => l,
        None => DEFAULT_LIMIT,
    };
    if page == 0 || limit == 0 {
        return Err(ServiceError::InvalidInput(String::from_str("page and limit must be positive")));
    }
    let n: usize = items.len();
    let total = n as u64;
    proof {
        let a: int = page - 1;
        let b: int = limit as int;
        assert(a * b <= 0xffff_ffff_ffff_ffff * 0xffff_ffff_ffff_ffff) by (nonlinear_arith)
            requires
                0 <= a <= 0xffff_ffff_ffff_ffff,
                0 <= b <= 0xffff_ffff_ffff_ffff,
        ;
        assert((page - 1) * limit + limit == page * limit) by (nonlinear_arith);
    }
    let start: u128 = (page - 1) as u128 * limit as u128;
    let end: u128 = start + limit as u128;
    let has_next = end < n as u128;
    let mut data = items;
    if start >= n as u128 {
        data = Vec::new();
    } else {
        let mut rest = data.split_off(start as usize);
        if end < n as u128 {
            rest.truncate(limit as usize);
        }
        data = rest;
    }
    proof {
        assert(data@ =~= page_items(items@, page, limit));
    }
    Ok(PaginatedResponse { data, page, limit, total, has_next })
}

/// Records that carry the instant they were created at.
pub trait Created {
    spec fn created_spec(&self) -> i64;

    fn created(&self) -> (r: i64)
        ensures
            r == self.created_spec(),
    ;
}

impl Created for Account {
    open spec fn created_spec(&self) -> i64 {
        self.created_at
    }

    fn created(&self) -> (r: i64) {
        self.created_at
    }
}

impl Created for Transaction {
    open spec fn created_spec(&self) -> i64 {
        self.created_at
    }

    fn created(&self) -> (r: i64) {
        self.created_at
    }
}

/// Whether the records run from the most recently created to the oldest.
pub open spec fn is_newest_first<T: Created>(s: Seq<T>) -> bool {
    forall|i: int, j: int| 0 <= i < j < s.len() ==> #[trigger] s[i].created_spec() >= #[trigger] s[j].created_spec()
}

/// The same records, reordered from the most recently created to the oldest: the
/// default display order of record lists.
pub fn newest_first<T: Created>(items: Vec<T>) -> (r: Vec<T>)
    ensures
        r@.to_multiset() == items@.to_multiset(),
        is_newest_first(r@),
{
    broadcast use vstd::seq_lib::group_to_multiset_ensures;

    let ghost all = items@.to_multiset();
    let mut rest = items;
    let mut out: Vec<T> = Vec::new();
    assert(out@.to_multiset().add(rest@.to_multiset()) =~= all);
    while rest.len() > 0
        invariant
            out@.to_multiset().add(rest@.to_multiset()) == all,
            is_newest_first(out@),
        decreases rest@.len(),
    {
        let ghost before = rest@;
        let x = rest.pop().unwrap();
        proof {
            assert(before == rest@.push(x));
        }
        let key = x.created();
        let mut p: usize = 0;
        let mut searching = true;
        while searching && p < out.len()
            invariant
                p <= out@.len(),
                forall|i: int| 0 <= i < p ==> #[trigger] out@[i].created_spec() >= key,
                !searching ==> p < out@.len() && out@[p as int].created_spec() < key,
            decreases out@.len() - p + if searching {
                1int
            } else {
                0int
            },
        {
            if out[p].created() < key {
                searching = false;
            } else {
                p += 1;
            }
        }
        let ghost old_out = out@;
        proof {
            old_out.insert_ensures(p as int, x);
        }
        out.insert(p, x);
        proof {
            assert(out@ == old_out.insert(p as int, x));
            assert forall|i: int, j: int| 0 <= i < j < out@.len() implies #[trigger] out@[i].created_spec()
                >= #[trigger] out@[j].created_spec() by {
                if j < p {
                } else if j == p {
                } else if i < p {
                    assert(old_out[i].created_spec() >= key);
                    if p < old_out.len() {
                        assert(old_out[p as int].created_spec() < key);
                    }
                } else if i == p {
                    assert(old_out[p as int].created_spec() < key);
                    assert(old_out[p as int].created_spec() >= old_out[j - 1].created_spec());
                } else {
                    assert(old_out[i - 1].created_spec() >= old_out[j - 1].created_spec());
                }
            }
            vstd::seq_lib::to_multiset_insert(old_out, p as int, x);
            vstd::seq_lib::to_multiset_build(rest@, x);
            assert(out@.to_multiset() == old_out.to_multiset().insert(x));
            assert(before.to_multiset() == rest@.to_multiset().insert(x));
            assert(out@.to_multiset().add(rest@.to_multiset()) =~= all);
        }
    }
    proof {
        assert(rest@.to_multiset() =~= Multiset::empty());
        assert(out@.to_multiset() =~= all);
    }
    out
}

} // verus!
