//! The order of strings that `String`'s `Ord` uses (by code point), and
//! sorting without repeats.

use vstd::prelude::*;
use vstd::string::*;
use crate::commands::common::strs;
use crate::text::chars_of;

verus! {

/// Lexicographic order by code point, as `String` compares.
pub open spec fn seq_lt(a: Seq<char>, b: Seq<char>) -> bool
    decreases a.len(),
{
    if b.len() == 0 {
        false
    } else if a.len() == 0 {
        true
    } else if a[0] != b[0] {
        a[0] < b[0]
    } else {
        seq_lt(a.drop_first(), b.drop_first())
    }
}

/// No string is below itself.
pub proof fn lemma_lt_irreflexive(a: Seq<char>)
    ensures
        !seq_lt(a, a),
    decreases a.len(),
{
    if a.len() > 0 {
        lemma_lt_irreflexive(a.drop_first());
    }
}

/// The order is transitive.
pub proof fn lemma_lt_transitive(a: Seq<char>, b: Seq<char>, c: Seq<char>)
    requires
        seq_lt(a, b),
        seq_lt(b, c),
    ensures
        seq_lt(a, c),
    decreases a.len(),
{
    if a.len() > 0 && b.len() > 0 && c.len() > 0 && a[0] == b[0] && b[0] == c[0] {
        lemma_lt_transitive(a.drop_first(), b.drop_first(), c.drop_first());
    }
}

/// Two different strings are ordered one way or the other.
pub proof fn lemma_lt_total(a: Seq<char>, b: Seq<char>)
    requires
        a != b,
    ensures
        seq_lt(a, b) || seq_lt(b, a),
    decreases a.len(),
{
    if a.len() > 0 && b.len() > 0 && a[0] == b[0] {
        if a.drop_first() == b.drop_first() {
            assert(a =~= seq![a[0]] + a.drop_first());
            assert(b =~= seq![b[0]] + b.drop_first());
        }
        lemma_lt_total(a.drop_first(), b.drop_first());
    } else if a.len() == 0 && b.len() == 0 {
        assert(a =~= b);
    }
}

/// The order is asymmetric.
pub proof fn lemma_lt_asymmetric(a: Seq<char>, b: Seq<char>)
    requires
        seq_lt(a, b),
    ensures
        !seq_lt(b, a),
{
    if seq_lt(b, a) {
        lemma_lt_transitive(a, b, a);
        lemma_lt_irreflexive(a);
    }
}

/// Whether a list is strictly increasing.
pub open spec fn sorted_strict(s: Seq<Seq<char>>) -> bool {
    forall|i: int, j: int| 0 <= i < j < s.len() ==> seq_lt(s[i], s[j])
}

/// Whether `a` comes before `b`.
pub fn str_less(a: &str, b: &str) -> (r: bool)
    ensures
        r == seq_lt(a@, b@),
{
    let x = chars_of(a);
    let y = chars_of(b);
    let mut i: usize = 0;
    assert(a@.subrange(0, a@.len() as int) =~= a@);
    assert(b@.subrange(0, b@.len() as int) =~= b@);
    while i < x.len() && i < y.len()
        invariant
            x@ == a@,
            y@ == b@,
            i <= x@.len(),
            i <= y@.len(),
            forall|k: int| 0 <= k < i ==> x@[k] == y@[k],
            seq_lt(a@, b@) == seq_lt(a@.subrange(i as int, a@.len() as int), b@.subrange(i as int, b@.len() as int)),
        decreases x@.len() - i,
    {
        let ghost sa = a@.subrange(i as int, a@.len() as int);
        let ghost sb = b@.subrange(i as int, b@.len() as int);
        if x[i] != y[i] {
            assert(sa[0] == x@[i as int] && sb[0] == y@[i as int]);
            return x[i] < y[i];
        }
        assert(sa.drop_first() =~= a@.subrange(i + 1, a@.len() as int));
        assert(sb.drop_first() =~= b@.subrange(i + 1, b@.len() as int));
        i = i + 1;
    }
    i < y.len()
}

/// Inserts a string into a strictly increasing list unless it is there.
pub fn insert_sorted(v: &mut Vec<String>, s: String)
    requires
        sorted_strict(strs(old(v)@)),
    ensures
        sorted_strict(strs(final(v)@)),
        forall|x: Seq<char>| strs(final(v)@).contains(x) <==> (strs(old(v)@).contains(x) || x == s@),
{
    let ghost old_s = strs(v@);
    let mut k: usize = 0;
    let mut done = false;
    while k < v.len() && !done
        invariant
            k <= v@.len(),
            strs(v@) == old_s,
            sorted_strict(old_s),
            forall|j: int| 0 <= j < k ==> seq_lt(#[trigger] old_s[j], s@),
            done ==> k < v@.len() && !seq_lt(old_s[k as int], s@),
        decreases v@.len() - k + (if done { 0int } else { 1int }),
    {
        assert(old_s[k as int] == v@[k as int]@);
        if !str_less(v[k].as_str(), s.as_str()) {
            done = true;
        } else {
            k = k + 1;
        }
    }
    if k < v.len() && crate::text::str_eq(v[k].as_str(), s.as_str()) {
        assert(old_s[k as int] == s@);
        assert(old_s.contains(s@));
        return;
    }
    proof {
        if k < v@.len() {
            assert(old_s[k as int] == v@[k as int]@);
            assert(!seq_lt(old_s[k as int], s@));
            assert(old_s[k as int] != s@);
            lemma_lt_total(old_s[k as int], s@);
        }
    }
    let ghost sv = s@;
    v.insert(k, s);
    proof {
        let ns = strs(v@);
        assert(ns =~= old_s.insert(k as int, sv));
        assert forall|i: int, j: int| 0 <= i < j < ns.len() implies seq_lt(ns[i], ns[j]) by {
            if j < k {
                assert(ns[i] == old_s[i] && ns[j] == old_s[j]);
            } else if j == k {
                assert(ns[i] == old_s[i]);
            } else if i == k {
                assert(ns[j] == old_s[j - 1]);
                if j - 1 > k {
                    lemma_lt_transitive(sv, old_s[k as int], old_s[j - 1]);
                }
            } else if i < k {
                assert(ns[i] == old_s[i] && ns[j] == old_s[j - 1]);
            } else {
                assert(ns[i] == old_s[i - 1] && ns[j] == old_s[j - 1]);
            }
        }
        assert forall|x: Seq<char>| ns.contains(x) <==> (old_s.contains(x) || x == sv) by {
            if ns.contains(x) {
                let i = choose|i: int| 0 <= i < ns.len() && ns[i] == x;
                if i < k {
                    assert(old_s[i] == x);
                } else if i > k {
                    assert(old_s[i - 1] == x);
                }
            }
            if old_s.contains(x) {
                let i = choose|i: int| 0 <= i < old_s.len() && old_s[i] == x;
                if i < k {
                    assert(ns[i] == x);
                } else {
                    assert(ns[i + 1] == x);
                }
            }
            if x == sv {
                assert(ns[k as int] == x);
            }
        }
    }
}

/// The strings of a list, without repeats, in increasing order.
pub fn sorted_unique(items: &Vec<String>) -> (r: Vec<String>)
    ensures
        sorted_strict(strs(r@)),
        forall|x: Seq<char>| strs(r@).contains(x) <==> strs(items@).contains(x),
{
    let mut out: Vec<String> = Vec::new();
    let mut i: usize = 0;
    while i < items.len()
        invariant
            i <= items@.len(),
            sorted_strict(strs(out@)),
            forall|x: Seq<char>| strs(out@).contains(x) <==> strs(items@).subrange(0, i as int).contains(x),
        decreases items@.len() - i,
    {
        let ghost pre = strs(items@).subrange(0, i + 1);
        assert(pre =~= strs(items@).subrange(0, i as int).push(items@[i as int]@));
        let s = items[i].clone();
        assert(s@ == items@[i as int]@);
        let ghost before = strs(out@);
        let ghost sub = strs(items@).subrange(0, i as int);
        insert_sorted(&mut out, s);
        assert forall|x: Seq<char>| strs(out@).contains(x) <==> pre.contains(x) by {
            assert(before.contains(x) <==> sub.contains(x));
            assert(strs(out@).contains(x) <==> (before.contains(x) || x == pre[i as int]));
            if x == pre[i as int] {
                assert(pre.contains(x));
            }
            if pre.contains(x) {
                let j = choose|j: int| 0 <= j < pre.len() && pre[j] == x;
                if j < i {
                    assert(strs(items@).subrange(0, i as int)[j] == x);
                }
            }
            if strs(items@).subrange(0, i as int).contains(x) {
                let j = choose|j: int| 0 <= j < i && strs(items@).subrange(0, i as int)[j] == x;
                assert(pre[j] == x);
            }
        }
        i = i + 1;
    }
    assert(strs(items@).subrange(0, items@.len() as int) =~= strs(items@));
    out
}

} // verus!
