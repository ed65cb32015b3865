//! Reconciliation of discovered column names against an expected list.

use vstd::prelude::*;
use crate::table::{copy_texts, same_texts};
use crate::text::{join_texts, joined, lemma_sorted_unique, sort_texts, sorted_texts, texts};

verus! {

broadcast use vstd::seq_lib::group_to_multiset_ensures;

/// The discovered columns differ from the expected ones.
#[derive(Debug)]
pub struct MismatchError {
    /// The expected column names: in ascending order, except where the
    /// caller's order is kept (relational sources).
    pub expected: Vec<String>,
    /// The discovered column names, in the order they were discovered.
    pub discovered: Vec<String>,
}

/// The same names, each as many times, in any order.
pub open spec fn same_columns(a: Seq<Seq<char>>, b: Seq<Seq<char>>) -> bool {
    a.to_multiset() == b.to_multiset()
}

/// Whether `discovered` passes against `expected`: always when nothing is
/// expected, else when both hold the same names.
pub open spec fn columns_accepted(discovered: Seq<Seq<char>>, expected: Option<Seq<Seq<char>>>) -> bool {
    match expected {
        None => true,
        Some(e) => same_columns(discovered, e),
    }
}

pub open spec fn opt_texts(v: Option<Vec<String>>) -> Option<Seq<Seq<char>>> {
    match v {
        None => None,
        Some(v) => Some(texts(v@)),
    }
}

/// The text of a mismatch: both lists, each joined with `", "`.
pub open spec fn mismatch_text(expected: Seq<Seq<char>>, discovered: Seq<Seq<char>>) -> Seq<char> {
    "Column mismatch: Expected ["@ + joined(expected, ", "@) + "], Got ["@ + joined(discovered, ", "@)
        + "]"@
}

/// What `reconcile` returns for `discovered` and `expected`.
pub open spec fn reconcile_post(
    discovered: Seq<Seq<char>>,
    expected: Option<Seq<Seq<char>>>,
    r: Result<(), MismatchError>,
) -> bool {
    &&& (r is Ok <==> columns_accepted(discovered, expected))
    &&& (r matches Err(e) ==> {
        &&& expected is Some
        &&& texts(e.discovered@) == discovered
        &&& texts(e.expected@).to_multiset() == expected.unwrap().to_multiset()
        &&& sorted_texts(texts(e.expected@))
    })
}

/// The outcome of a reconciliation as plain values: nothing on success, the
/// two lists on a mismatch.
pub open spec fn outcome(r: Result<(), MismatchError>) -> Option<(Seq<Seq<char>>, Seq<Seq<char>>)> {
    match r {
        Ok(_) => None,
        Err(e) => Some((texts(e.expected@), texts(e.discovered@))),
    }
}

impl MismatchError {
    /// The human-readable description, naming both lists.
    pub fn message(&self) -> (r: String)
        ensures
            r@ == mismatch_text(texts(self.expected@), texts(self.discovered@)),
    {
        let mut s = String::new();
        s.append("Column mismatch: Expected [");
        s.append(join_texts(&self.expected, ", ").as_str());
        s.append("], Got [");
        s.append(join_texts(&self.discovered, ", ").as_str());
        s.append("]");
        assert(s@ =~= mismatch_text(texts(self.expected@), texts(self.discovered@)));
        s
    }
}

/// Compares the discovered column names with the expected ones, ignoring
/// order but not repetition.
pub fn reconcile(discovered: &Vec<String>, expected: &Option<Vec<String>>) -> (r: Result<(), MismatchError>)
    ensures
        reconcile_post(texts(discovered@), opt_texts(*expected), r),
{
    match expected {
        None => Ok(()),
        Some(exp) => {
            let sorted_expected = sort_texts(exp);
            let sorted_discovered = sort_texts(discovered);
            if same_texts(&sorted_expected, &sorted_discovered) {
                Ok(())
            } else {
                proof {
                    if same_columns(texts(discovered@), texts(exp@)) {
                        lemma_sorted_unique(texts(sorted_expected@), texts(sorted_discovered@));
                    }
                }
                let copy = copy_texts(discovered);
                Err(MismatchError { expected: sorted_expected, discovered: copy })
            }
        }
    }
}

/// Reconciliation has no hidden state: any two results that `reconcile`
/// may return for the same pair of lists are the same outcome.
pub proof fn lemma_reconcile_idempotent(
    discovered: Seq<Seq<char>>,
    expected: Option<Seq<Seq<char>>>,
    r1: Result<(), MismatchError>,
    r2: Result<(), MismatchError>,
)
    requires
        reconcile_post(discovered, expected, r1),
        reconcile_post(discovered, expected, r2),
    ensures
        outcome(r1) == outcome(r2),
{
    if let (Err(e1), Err(e2)) = (r1, r2) {
        lemma_sorted_unique(texts(e1.expected@), texts(e2.expected@));
    }
}

} // verus!
