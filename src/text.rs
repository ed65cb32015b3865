//! Text utilities over `String`: the order of `String`, sorting, decimal
//! rendering of integers and joining.

use vstd::prelude::*;
use vstd::string::*;

verus! {

broadcast use vstd::seq_lib::group_to_multiset_ensures;

/// The character contents of a sequence of strings.
pub open spec fn texts(v: Seq<String>) -> Seq<Seq<char>> {
    v.map_values(|s: String| s@)
}

/// The order of `String`: lexicographic by code point (which is the byte
/// order of the UTF-8 encoding).
pub open spec fn text_lt(a: Seq<char>, b: Seq<char>) -> bool
    decreases a.len(),
{
    if a.len() == 0 {
        b.len() > 0
    } else if b.len() == 0 {
        false
    } else if a[0] != b[0] {
        (a[0] as int) < (b[0] as int)
    } else {
        text_lt(a.drop_first(), b.drop_first())
    }
}

/// Every element is at most every element after it.
pub open spec fn sorted_texts(s: Seq<Seq<char>>) -> bool {
    forall|i: int, j: int| 0 <= i < j < s.len() ==> !text_lt(#[trigger] s[j], #[trigger] s[i])
}

pub proof fn lemma_text_lt_irreflexive(a: Seq<char>)
    ensures
        !text_lt(a, a),
    decreases a.len(),
{
    if a.len() > 0 {
        lemma_text_lt_irreflexive(a.drop_first());
    }
}

pub proof fn lemma_text_lt_trans(a: Seq<char>, b: Seq<char>, c: Seq<char>)
    requires
        text_lt(a, b),
        text_lt(b, c),
    ensures
        text_lt(a, c),
    decreases a.len(),
{
    if a.len() > 0 && a[0] == b[0] && b[0] == c[0] {
        lemma_text_lt_trans(a.drop_first(), b.drop_first(), c.drop_first());
    }
}

pub proof fn lemma_text_lt_total(a: Seq<char>, b: Seq<char>)
    ensures
        a == b || text_lt(a, b) || text_lt(b, a),
    decreases a.len(),
{
    if a.len() > 0 && b.len() > 0 && a[0] != b[0] {
        assert((a[0] as int) != (b[0] as int));
    } else if a.len() > 0 && b.len() > 0 && a[0] == b[0] {
        lemma_text_lt_total(a.drop_first(), b.drop_first());
        if a.drop_first() == b.drop_first() {
            assert(a =~= seq![a[0]] + a.drop_first());
            assert(b =~= seq![b[0]] + b.drop_first());
        }
    } else if a.len() == 0 && b.len() == 0 {
        assert(a =~= b);
    }
}

pub proof fn lemma_text_lt_asymmetric(a: Seq<char>, b: Seq<char>)
    requires
        text_lt(a, b),
    ensures
        !text_lt(b, a),
{
    if text_lt(b, a) {
        lemma_text_lt_trans(a, b, a);
        lemma_text_lt_irreflexive(a);
    }
}

/// Two sorted sequences with the same elements are the same sequence.
pub proof fn lemma_sorted_unique(s: Seq<Seq<char>>, t: Seq<Seq<char>>)
    requires
        sorted_texts(s),
        sorted_texts(t),
        s.to_multiset() == t.to_multiset(),
    ensures
        s == t,
    decreases s.len(),
{
    if s.len() == 0 {
        assert(t.to_multiset().len() == 0);
        assert(t =~= s);
    } else {
        assert(s.to_multiset().len() == s.len());
        assert(t.to_multiset().len() == t.len());
        assert(s.contains(s[0]));
        assert(t.to_multiset().count(s[0]) > 0);
        let j = choose|j: int| 0 <= j < t.len() && t[j] == s[0];
        assert(t.contains(t[0]));
        assert(s.to_multiset().count(t[0]) > 0);
        let k = choose|k: int| 0 <= k < s.len() && s[k] == t[0];
        if s[0] != t[0] {
            lemma_text_lt_total(s[0], t[0]);
            if text_lt(s[0], t[0]) {
                assert(k != 0);
                assert(!text_lt(s[k], s[0]));
                lemma_text_lt_asymmetric(s[0], t[0]);
            } else {
                assert(j != 0);
                assert(!text_lt(t[j], t[0]));
            }
        }
        assert(s.remove(0) =~= s.drop_first());
        assert(t.remove(0) =~= t.drop_first());
        assert(s.remove(0).to_multiset() == s.to_multiset().remove(s[0]));
        assert(t.remove(0).to_multiset() == t.to_multiset().remove(t[0]));
        lemma_sorted_unique(s.drop_first(), t.drop_first());
        assert(s =~= seq![s[0]] + s.drop_first());
        assert(t =~= seq![t[0]] + t.drop_first());
    }
}

/// Whether `a` comes strictly before `b` in the order of `String`.
pub fn text_less(a: &str, b: &str) -> (r: bool)
    ensures
        r == text_lt(a@, b@),
{
    let la = a.unicode_len();
    let lb = b.unicode_len();
    let mut i: usize = 0;
    assert(a@.skip(0) =~= a@);
    assert(b@.skip(0) =~= b@);
    while i < la && i < lb
        invariant
            i <= la,
            i <= lb,
            la == a@.len(),
            lb == b@.len(),
            text_lt(a@, b@) == text_lt(a@.skip(i as int), b@.skip(i as int)),
        decreases la - i,
    {
        let ca = a.get_char(i);
        let cb = b.get_char(i);
        if ca != cb {
            return (ca as u32) < (cb as u32);
        }
        assert(a@.skip(i as int).drop_first() =~= a@.skip(i + 1));
        assert(b@.skip(i as int).drop_first() =~= b@.skip(i + 1));
        i = i + 1;
    }
    i < lb
}

/// The strings of `v` in ascending order.
pub fn sort_texts(v: &Vec<String>) -> (r: Vec<String>)
    ensures
        texts(r@).to_multiset() == texts(v@).to_multiset(),
        sorted_texts(texts(r@)),
{
    let mut r: Vec<String> = Vec::new();
    let mut n: usize = 0;
    while n < v.len()
        invariant
            n <= v.len(),
            texts(r@).to_multiset() == texts(v@.take(n as int)).to_multiset(),
            sorted_texts(texts(r@)),
        decreases v.len() - n,
    {
        let x = v[n].clone();
        let mut p: usize = 0;
        while p < r.len() && !text_less(x.as_str(), r[p].as_str())
            invariant
                p <= r.len(),
                forall|k: int| 0 <= k < p ==> !text_lt(x@, #[trigger] r@[k]@),
            decreases r.len() - p,
        {
            p = p + 1;
        }
        let ghost before = texts(r@);
        proof {
            assert forall|k: int| p <= k < before.len() implies !text_lt(
                #[trigger] before[k],
                x@,
            ) by {
                if text_lt(before[k], x@) {
                    assert(text_lt(x@, before[p as int]));
                    if k > p {
                        assert(!text_lt(before[k], before[p as int]));
                        lemma_text_lt_trans(before[k], x@, before[p as int]);
                    } else {
                        lemma_text_lt_asymmetric(x@, before[p as int]);
                    }
                }
            }
        }
        r.insert(p, x);
        proof {
            let after = texts(r@);
            assert(after =~= before.insert(p as int, v@[n as int]@));
            assert(texts(v@.take(n + 1)) =~= texts(v@.take(n as int)).push(v@[n as int]@));
            assert forall|i: int, j: int| 0 <= i < j < after.len() implies !text_lt(
                #[trigger] after[j],
                #[trigger] after[i],
            ) by {
                if i < p && j == p {
                } else if i < p && j > p {
                    assert(after[j] == before[j - 1]);
                } else if i == p {
                    assert(after[j] == before[j - 1]);
                } else if i > p {
                    assert(after[j] == before[j - 1]);
                    assert(after[i] == before[i - 1]);
                }
            }
        }
        n = n + 1;
    }
    assert(v@.take(v@.len() as int) =~= v@);
    r
}

/// The decimal digit `d` (for `d < 10`).
pub open spec fn digit_char(d: nat) -> char {
    if d == 0 {
        '0'
    } else if d == 1 {
        '1'
    } else if d == 2 {
        '2'
    } else if d == 3 {
        '3'
    } else if d == 4 {
        '4'
    } else if d == 5 {
        '5'
    } else if d == 6 {
        '6'
    } else if d == 7 {
        '7'
    } else if d == 8 {
        '8'
    } else {
        '9'
    }
}

/// The decimal digits of `n`, most significant first, without leading zeros.
pub open spec fn decimal_digits(n: nat) -> Seq<char>
    decreases n,
{
    if n < 10 {
        seq![digit_char(n)]
    } else {
        decimal_digits(n / 10).push(digit_char(n % 10))
    }
}

/// The decimal text of an integer, with a leading `-` when it is negative.
pub open spec fn decimal_text(n: int) -> Seq<char> {
    if n < 0 {
        seq!['-'] + decimal_digits((-n) as nat)
    } else {
        decimal_digits(n as nat)
    }
}

/// The parts one after another, with `sep` between each two.
pub open spec fn joined(parts: Seq<Seq<char>>, sep: Seq<char>) -> Seq<char>
    decreases parts.len(),
{
    if parts.len() == 0 {
        Seq::empty()
    } else if parts.len() == 1 {
        parts[0]
    } else {
        joined(parts.drop_last(), sep) + sep + parts.last()
    }
}

fn digit_str(d: u64) -> (r: &'static str)
    requires
        d < 10,
    ensures
        r@ == seq![digit_char(d as nat)],
{
    if d == 0 {
        proof { reveal_strlit("0"); }
        assert("0"@ =~= seq!['0']);
        "0"
    } else if d == 1 {
        proof { reveal_strlit("1"); }
        assert("1"@ =~= seq!['1']);
        "1"
    } else if d == 2 {
        proof { reveal_strlit("2"); }
        assert("2"@ =~= seq!['2']);
        "2"
    } else if d == 3 {
        proof { reveal_strlit("3"); }
        assert("3"@ =~= seq!['3']);
        "3"
    } else if d == 4 {
        proof { reveal_strlit("4"); }
        assert("4"@ =~= seq!['4']);
        "4"
    } else if d == 5 {
        proof { reveal_strlit("5"); }
        assert("5"@ =~= seq!['5']);
        "5"
    } else if d == 6 {
        proof { reveal_strlit("6"); }
        assert("6"@ =~= seq!['6']);
        "6"
    } else if d == 7 {
        proof { reveal_strlit("7"); }
        assert("7"@ =~= seq!['7']);
        "7"
    } else if d == 8 {
        proof { reveal_strlit("8"); }
        assert("8"@ =~= seq!['8']);
        "8"
    } else {
        proof { reveal_strlit("9"); }
        assert("9"@ =~= seq!['9']);
        "9"
    }
}

fn append_digits(s: &mut String, n: u64)
    ensures
        final(s)@ == old(s)@ + decimal_digits(n as nat),
    decreases n,
{
    if n >= 10 {
        append_digits(s, n / 10);
    }
    s.append(digit_str(n % 10));
    if n >= 10 {
        assert(final(s)@ =~= old(s)@ + decimal_digits(n as nat));
    } else {
        assert(final(s)@ =~= old(s)@ + decimal_digits(n as nat));
    }
}

/// The decimal text of `n`.
pub fn decimal_u64(n: u64) -> (r: String)
    ensures
        r@ == decimal_text(n as int),
{
    let mut s = String::new();
    append_digits(&mut s, n);
    assert(s@ =~= decimal_digits(n as nat));
    s
}

/// The decimal text of `n`.
pub fn decimal_i64(n: i64) -> (r: String)
    ensures
        r@ == decimal_text(n as int),
{
    let mut s = String::new();
    if n < 0 {
        s.append("-");
        proof { reveal_strlit("-"); }
        let m: u64 = (0i128 - n as i128) as u64;
        append_digits(&mut s, m);
        assert(s@ =~= seq!['-'] + decimal_digits((-n) as nat));
    } else {
        append_digits(&mut s, n as u64);
        assert(s@ =~= decimal_digits(n as nat));
    }
    s
}

/// The strings of `parts`, with `sep` between each two.
pub fn join_texts(parts: &Vec<String>, sep: &str) -> (r: String)
    ensures
        r@ == joined(texts(parts@), sep@),
{
    let mut s = String::new();
    let mut i: usize = 0;
    while i < parts.len()
        invariant
            i <= parts.len(),
            s@ == joined(texts(parts@.take(i as int)), sep@),
        decreases parts.len() - i,
    {
        let ghost prev = s@;
        assert(texts(parts@.take(i + 1)).drop_last() =~= texts(parts@.take(i as int)));
        if i > 0 {
            s.append(sep);
        }
        s.append(parts[i].as_str());
        if i == 0 {
            assert(texts(parts@.take(1)) =~= seq![parts@[0]@]);
            assert(s@ =~= parts@[0]@);
        } else {
            assert(s@ =~= prev + sep@ + parts@[i as int]@);
        }
        i = i + 1;
    }
    assert(parts@.take(parts@.len() as int) =~= parts@);
    s
}

} // verus!
