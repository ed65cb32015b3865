//! The canonical table: an ordered header list and rows of strings aligned
//! to it.

use vstd::prelude::*;
use crate::text::texts;

verus! {

/// A table of strings: column names, and rows whose cells line up with them.
#[derive(Debug)]
pub struct ExtractedData {
    pub headers: Vec<String>,
    pub rows: Vec<Vec<String>>,
}

/// The character contents of a sequence of rows.
pub open spec fn rows_texts(rows: Seq<Vec<String>>) -> Seq<Seq<Seq<char>>> {
    rows.map_values(|r: Vec<String>| texts(r@))
}

impl ExtractedData {
    pub open spec fn header_texts(&self) -> Seq<Seq<char>> {
        texts(self.headers@)
    }

    pub open spec fn row_texts(&self) -> Seq<Seq<Seq<char>>> {
        rows_texts(self.rows@)
    }

    /// Every row has exactly one cell per header.
    pub open spec fn wf(&self) -> bool {
        forall|i: int| 0 <= i < self.rows@.len() ==> (#[trigger] self.rows@[i])@.len() == self.headers@.len()
    }

    /// The table with no columns and no rows.
    pub fn empty() -> (r: ExtractedData)
        ensures
            r.headers@.len() == 0,
            r.rows@.len() == 0,
            r.wf(),
    {
        ExtractedData { headers: Vec::new(), rows: Vec::new() }
    }

    /// Whether every row has exactly one cell per header.
    pub fn is_well_formed(&self) -> (r: bool)
        ensures
            r == self.wf(),
    {
        let mut i: usize = 0;
        while i < self.rows.len()
            invariant
                i <= self.rows@.len(),
                forall|k: int| 0 <= k < i ==> (#[trigger] self.rows@[k])@.len() == self.headers@.len(),
            decreases self.rows@.len() - i,
        {
            if self.rows[i].len() != self.headers.len() {
                return false;
            }
            i = i + 1;
        }
        true
    }

    /// The number of data rows.
    pub fn row_count(&self) -> (r: usize)
        ensures
            r == self.rows@.len(),
    {
        self.rows.len()
    }
}

/// A copy of `v`, string by string.
pub fn copy_texts(v: &Vec<String>) -> (r: Vec<String>)
    ensures
        r@ == v@,
{
    let mut r: Vec<String> = Vec::new();
    let mut i: usize = 0;
    while i < v.len()
        invariant
            i <= v@.len(),
            r@ == v@.take(i as int),
        decreases v@.len() - i,
    {
        r.push(v[i].clone());
        assert(r@ =~= v@.take(i + 1));
        i = i + 1;
    }
    assert(v@.take(v@.len() as int) =~= v@);
    r
}

/// Whether the two sequences hold the same strings in the same order.
pub fn same_texts(a: &Vec<String>, b: &Vec<String>) -> (r: bool)
    ensures
        r == (texts(a@) == texts(b@)),
{
    if a.len() != b.len() {
        assert(texts(a@).len() != texts(b@).len());
        return false;
    }
    let mut i: usize = 0;
    while i < a.len()
        invariant
            i <= a@.len(),
            a@.len() == b@.len(),
            forall|k: int| 0 <= k < i ==> (#[trigger] a@[k])@ == b@[k]@,
        decreases a@.len() - i,
    {
        if a[i] != b[i] {
            assert(texts(a@)[i as int] != texts(b@)[i as int]);
            return false;
        }
        i = i + 1;
    }
    assert(texts(a@) =~= texts(b@));
    true
}

} // verus!
