//! The balance delta calculator.
//!
//! Given one fetched transaction and the queried address, locate the
//! address's position in the transaction's account list (whichever of the
//! two encodings is present) and compute the signed balance change at that
//! position.  Every failure path — no metadata, no account list, address
//! absent, balances out of range — degrades to "unknown" (`None`), never to
//! an error: the delta is advisory data, not the record's identity.

use vstd::prelude::*;

use crate::address::Address;
use crate::types::AccountKeys;
use crate::types::TransactionDetail;
use crate::types::TransactionMeta;

verus! {

/// The ordered address list an account-list encoding denotes: mapping-style
/// entries contribute their embedded address field, plain entries stand for
/// themselves.
pub open spec fn account_seq(keys: AccountKeys) -> Seq<Seq<char>> {
    match keys {
        AccountKeys::Parsed(v) => Seq::new(v@.len(), |i: int| v@[i].pubkey@),
        AccountKeys::Raw(v) => Seq::new(v@.len(), |i: int| v@[i]@),
    }
}

/// The delta of one transaction for one address: the post-balance minus the
/// pre-balance at the address's first position in the account list, in the
/// smallest currency unit, or `None` whenever any part of that lookup is
/// impossible.
pub open spec fn spec_delta(tx: TransactionDetail, addr: Seq<char>) -> Option<i128> {
    match (tx.meta, tx.account_keys) {
        (Some(meta), Some(keys)) => (match account_seq(keys).index_of_first(addr) {
            Some(i) => {
                if 0 <= i && i < meta.pre_balances@.len() && i < meta.post_balances@.len() {
                    Some((meta.post_balances@[i] - meta.pre_balances@[i]) as i128)
                } else {
                    None
                }
            },
            None => None,
        }),
        _ => None,
    }
}

/// Locate the first position of `target` in the account list, resolving the
/// encoding once so that no variant branching leaks into the arithmetic.
pub fn find_account_index(keys: &AccountKeys, target: &String) -> (r: Option<usize>)
    ensures
        (match r {
            Some(i) => account_seq(*keys).index_of_first(target@) == Some(i as int),
            None => account_seq(*keys).index_of_first(target@) is None,
        }),
{
    let ghost s = account_seq(*keys);
    proof {
        s.index_of_first_ensures(target@);
    }
    match keys {
        AccountKeys::Parsed(v) => {
            let n: usize = v.len();
            let mut i: usize = 0;
            while i < n
                invariant
                    n == v@.len(),
                    i <= n,
                    s == account_seq(*keys),
                    s == Seq::new(v@.len(), |j: int| v@[j].pubkey@),
                    forall|j: int| 0 <= j < i ==> s[j] != target@,
                decreases n - i,
            {
                if v[i].pubkey == *target {
                    proof {
                        assert(s[i as int] == target@);
                        assert(s.contains(target@));
                        s.index_of_first_ensures(target@);
                    }
                    return Some(i);
                }
                assert(s[i as int] != target@);
                i += 1;
            }
            assert(!s.contains(target@));
            None
        },
        AccountKeys::Raw(v) => {
            let n: usize = v.len();
            let mut i: usize = 0;
            while i < n
                invariant
                    n == v@.len(),
                    i <= n,
                    s == account_seq(*keys),
                    s == Seq::new(v@.len(), |j: int| v@[j]@),
                    forall|j: int| 0 <= j < i ==> s[j] != target@,
                decreases n - i,
            {
                if v[i] == *target {
                    proof {
                        assert(s[i as int] == target@);
                        assert(s.contains(target@));
                        s.index_of_first_ensures(target@);
                    }
                    return Some(i);
                }
                assert(s[i as int] != target@);
                i += 1;
            }
            assert(!s.contains(target@));
            None
        },
    }
}

/// Compute the net balance change of `address` in `tx`, in the smallest
/// currency unit (positive: received, negative: sent).  Returns `None`
/// whenever the delta cannot be determined; it never fails.
pub fn compute_delta(tx: &TransactionDetail, address: &Address) -> (r: Option<i128>)
    ensures
        r == spec_delta(*tx, address.b58@),
{
    let meta = match &tx.meta {
        Some(m) => m,
        None => {
            return None;
        },
    };
    let keys = match &tx.account_keys {
        Some(k) => k,
        None => {
            return None;
        },
    };
    let i = match find_account_index(keys, &address.b58) {
        Some(i) => i,
        None => {
            return None;
        },
    };
    if i < meta.pre_balances.len() && i < meta.post_balances.len() {
        let pre = meta.pre_balances[i];
        let post = meta.post_balances[i];
        Some(post as i128 - pre as i128)
    } else {
        None
    }
}

/// The nominal shape of a fetched transaction: both balance snapshots are
/// present and exactly as long as the account list.  The calculator
/// tolerates violations of this shape; where it holds, a listed address
/// always has a determined delta.
pub open spec fn shape_consistent(tx: TransactionDetail) -> bool {
    &&& tx.meta matches Some(m) && tx.account_keys matches Some(keys)
        && m.pre_balances@.len() == account_seq(keys).len() && m.post_balances@.len()
        == account_seq(keys).len()
}

/// Law: on a shape-consistent transaction whose account list holds the
/// queried address, the delta is always determined.
pub proof fn lemma_listed_address_delta_known(tx: TransactionDetail, addr: Seq<char>)
    requires
        shape_consistent(tx),
        account_seq(tx.account_keys->0).contains(addr),
    ensures
        spec_delta(tx, addr) is Some,
{
    account_seq(tx.account_keys->0).index_of_first_ensures(addr);
}

/// The same transaction with its pre- and post-balance snapshots exchanged.
pub open spec fn swap_balances(tx: TransactionDetail) -> TransactionDetail {
    TransactionDetail {
        account_keys: tx.account_keys,
        meta: match tx.meta {
            Some(m) => Some(
                TransactionMeta {
                    fee: m.fee,
                    pre_balances: m.post_balances,
                    post_balances: m.pre_balances,
                },
            ),
            None => None,
        },
    }
}

/// Law: exchanging the pre- and post-balance snapshots negates the delta
/// exactly; a determined delta stays determined and an unknown one stays
/// unknown.
pub proof fn lemma_delta_negates_on_swap(tx: TransactionDetail, addr: Seq<char>)
    ensures
        spec_delta(swap_balances(tx), addr) is Some <==> spec_delta(tx, addr) is Some,
        (match (spec_delta(tx, addr), spec_delta(swap_balances(tx), addr)) {
            (Some(d), Some(e)) => d + e == 0,
            _ => true,
        }),
{
}

/// Law: if the queried address is absent from the account list, the delta
/// is unknown — never an error and never zero.
pub proof fn lemma_absent_address_unknown(tx: TransactionDetail, addr: Seq<char>)
    requires
        (tx.account_keys matches Some(keys) ==> !account_seq(keys).contains(addr)),
    ensures
        spec_delta(tx, addr) is None,
{
    match tx.account_keys {
        Some(keys) => {
            account_seq(keys).index_of_first_ensures(addr);
        },
        None => {},
    }
}

/// Law: if the address's position in the account list falls outside either
/// balance snapshot, the delta is unknown.
pub proof fn lemma_out_of_range_unknown(tx: TransactionDetail, addr: Seq<char>, i: int)
    requires
        tx.meta is Some,
        tx.account_keys is Some,
        account_seq(tx.account_keys->0).index_of_first(addr) == Some(i),
        i >= tx.meta->0.pre_balances@.len() || i >= tx.meta->0.post_balances@.len(),
    ensures
        spec_delta(tx, addr) is None,
{
}

} // verus!
