//! Character-level string helpers with exact specifications.

use vstd::prelude::*;
use vstd::string::*;

verus! {

/// Appends one character to a string.
#[verifier::external_body]
pub(crate) fn push_char(s: &mut String, c: char)
    ensures
        final(s)@ == old(s)@.push(c),
{
    s.push(c);
}

/// The characters of a string slice, in order.
pub fn chars_of(s: &str) -> (v: Vec<char>)
    ensures
        v@ == s@,
{
    let n = s.unicode_len();
    let mut v: Vec<char> = Vec::new();
    let mut i: usize = 0;
    while i < n
        invariant
            n == s@.len(),
            i <= n,
            v@ == s@.subrange(0, i as int),
        decreases n - i,
    {
        let c = s.get_char(i);
        v.push(c);
        i = i + 1;
        assert(v@ =~= s@.subrange(0, i as int));
    }
    assert(v@ =~= s@);
    v
}

/// A string holding the given characters.
pub fn string_of(cs: &[char]) -> (s: String)
    ensures
        s@ == cs@,
{
    let mut s = String::new();
    let mut i: usize = 0;
    while i < cs.len()
        invariant
            i <= cs@.len(),
            s@ == cs@.subrange(0, i as int),
        decreases cs@.len() - i,
    {
        push_char(&mut s, cs[i]);
        i = i + 1;
        assert(s@ =~= cs@.subrange(0, i as int));
    }
    assert(s@ =~= cs@);
    s
}

/// Whether two string slices hold the same characters.
pub fn str_eq(a: &str, b: &str) -> (r: bool)
    ensures
        r == (a@ == b@),
{
    let x = chars_of(a);
    let y = chars_of(b);
    if x.len() != y.len() {
        return false;
    }
    let mut i: usize = 0;
    while i < x.len()
        invariant
            x@ == a@,
            y@ == b@,
            x@.len() == y@.len(),
            i <= x@.len(),
            forall|j: int| 0 <= j < i ==> x@[j] == y@[j],
        decreases x@.len() - i,
    {
        if x[i] != y[i] {
            return false;
        }
        i = i + 1;
    }
    assert(x@ =~= y@);
    true
}


/// Whether a character sequence equals the characters of a string slice.
pub fn chars_eq_str(v: &[char], b: &str) -> (r: bool)
    ensures
        r == (v@ == b@),
{
    let y = chars_of(b);
    if v.len() != y.len() {
        return false;
    }
    let mut i: usize = 0;
    while i < v.len()
        invariant
            y@ == b@,
            v@.len() == y@.len(),
            i <= v@.len(),
            forall|j: int| 0 <= j < i ==> v@[j] == y@[j],
        decreases v@.len() - i,
    {
        if v[i] != y[i] {
            return false;
        }
        i = i + 1;
    }
    assert(v@ =~= y@);
    true
}

/// `s` with every `from` replaced by `to`.
pub open spec fn replace_char_spec(s: Seq<char>, from: char, to: char) -> Seq<char> {
    s.map_values(|c: char| if c == from { to } else { c })
}

/// Replaces every occurrence of one character by another.
pub fn replace_char(s: &str, from: char, to: char) -> (r: String)
    ensures
        r@ == replace_char_spec(s@, from, to),
{
    let cs = chars_of(s);
    let mut out = String::new();
    let mut i: usize = 0;
    while i < cs.len()
        invariant
            cs@ == s@,
            i <= cs@.len(),
            out@ == replace_char_spec(s@.subrange(0, i as int), from, to),
        decreases cs@.len() - i,
    {
        let c = cs[i];
        if c == from {
            push_char(&mut out, to);
        } else {
            push_char(&mut out, c);
        }
        i = i + 1;
        assert(out@ =~= replace_char_spec(s@.subrange(0, i as int), from, to));
    }
    assert(s@.subrange(0, s@.len() as int) =~= s@);
    out
}

/// The pieces of `s` between occurrences of `sep`, as `str::split` yields
/// them: empty pieces are kept and there is always at least one piece.
pub open spec fn split_spec(s: Seq<char>, sep: char) -> Seq<Seq<char>>
    decreases s.len(),
{
    if s.len() == 0 {
        seq![Seq::<char>::empty()]
    } else {
        let r = split_spec(s.drop_last(), sep);
        if s.last() == sep {
            r.push(Seq::<char>::empty())
        } else {
            r.update(r.len() - 1, r.last().push(s.last()))
        }
    }
}

/// A split never yields an empty list of pieces.
pub proof fn lemma_split_nonempty(s: Seq<char>, sep: char)
    ensures
        split_spec(s, sep).len() >= 1,
    decreases s.len(),
{
    if s.len() > 0 {
        lemma_split_nonempty(s.drop_last(), sep);
    }
}

/// The views of a list of character vectors.
pub open spec fn views(v: Seq<Vec<char>>) -> Seq<Seq<char>> {
    v.map_values(|x: Vec<char>| x@)
}

/// Splits a string slice at every `sep`.
pub fn split_chars(s: &str, sep: char) -> (r: Vec<Vec<char>>)
    ensures
        views(r@) == split_spec(s@, sep),
{
    let cs = chars_of(s);
    let mut parts: Vec<Vec<char>> = Vec::new();
    let mut cur: Vec<char> = Vec::new();
    let mut i: usize = 0;
    while i < cs.len()
        invariant
            cs@ == s@,
            i <= cs@.len(),
            views(parts@).push(cur@) == split_spec(s@.subrange(0, i as int), sep),
        decreases cs@.len() - i,
    {
        let c = cs[i];
        let ghost pre = s@.subrange(0, i as int);
        let ghost nxt = s@.subrange(0, i + 1);
        assert(nxt.drop_last() =~= pre);
        proof {
            lemma_split_nonempty(pre, sep);
        }
        if c == sep {
            let done = cur;
            parts.push(done);
            cur = Vec::new();
            assert(views(parts@).push(cur@) =~= split_spec(nxt, sep));
        } else {
            cur.push(c);
            assert(views(parts@).push(cur@) =~= split_spec(nxt, sep));
        }
        i = i + 1;
    }
    assert(s@.subrange(0, s@.len() as int) =~= s@);
    parts.push(cur);
    assert(views(parts@) =~= split_spec(s@, sep));
    parts
}

/// The non-empty elements of a list of pieces, in order.
pub open spec fn non_empty(ps: Seq<Seq<char>>) -> Seq<Seq<char>>
    decreases ps.len(),
{
    if ps.len() == 0 {
        ps
    } else if ps.last().len() == 0 {
        non_empty(ps.drop_last())
    } else {
        non_empty(ps.drop_last()).push(ps.last())
    }
}

/// Keeps the non-empty pieces of a list.
pub fn filter_non_empty(ps: Vec<Vec<char>>) -> (r: Vec<Vec<char>>)
    ensures
        views(r@) == non_empty(views(ps@)),
{
    let ghost all = views(ps@);
    let mut out: Vec<Vec<char>> = Vec::new();
    let mut rest = ps;
    let ghost mut k: int = 0;
    while rest.len() > 0
        invariant
            0 <= k <= all.len(),
            views(rest@) == all.subrange(k, all.len() as int),
            views(out@) == non_empty(all.subrange(0, k)),
        decreases rest.len(),
    {
        let ghost before = rest@;
        assert(views(before).len() == before.len());
        assert(k < all.len());
        assert(views(before)[0] == all[k]);
        let x = rest.remove(0);
        proof {
            assert(x == before[0]);
            assert(x@ == all[k]);
            assert(all.subrange(0, k + 1).drop_last() =~= all.subrange(0, k));
            assert(rest@ =~= before.subrange(1, before.len() as int));
            assert forall|j: int| 0 <= j < views(rest@).len() implies views(rest@)[j]
                == all.subrange(k + 1, all.len() as int)[j] by {
                assert(rest@[j] == before[j + 1]);
                assert(views(before)[j + 1] == all[k + 1 + j]);
            }
            assert(views(rest@) =~= all.subrange(k + 1, all.len() as int));
        }
        if x.len() > 0 {
            out.push(x);
            assert(views(out@) =~= non_empty(all.subrange(0, k + 1)));
        }
        proof {
            k = k + 1;
        }
    }
    assert(all.subrange(0, k) =~= all);
    out
}

/// Whether piece `i` of a list equals the characters of `lit`.
pub fn piece_is(ps: &Vec<Vec<char>>, i: usize, lit: &str) -> (r: bool)
    requires
        i < ps@.len(),
    ensures
        r == (ps@[i as int]@ == lit@),
{
    chars_eq_str(ps[i].as_slice(), lit)
}

/// The pieces joined back with `sep` between them.
pub open spec fn join_spec(ps: Seq<Seq<char>>, sep: char) -> Seq<char>
    decreases ps.len(),
{
    if ps.len() == 0 {
        Seq::<char>::empty()
    } else if ps.len() == 1 {
        ps[0]
    } else {
        join_spec(ps.drop_last(), sep) + seq![sep] + ps.last()
    }
}

/// Cutting `x`, `sep`, `y` at `sep` gives the pieces of `x` then those of `y`.
pub proof fn lemma_split_around(x: Seq<char>, y: Seq<char>, sep: char)
    ensures
        split_spec(x + seq![sep] + y, sep) == split_spec(x, sep) + split_spec(y, sep),
    decreases y.len(),
{
    let s = x + seq![sep] + y;
    if y.len() == 0 {
        assert(s.drop_last() =~= x);
        assert(split_spec(x, sep).push(Seq::<char>::empty()) =~= split_spec(x, sep) + split_spec(y, sep));
    } else {
        let y2 = y.drop_last();
        lemma_split_around(x, y2, sep);
        lemma_split_nonempty(y2, sep);
        lemma_split_nonempty(x, sep);
        assert(s.drop_last() =~= x + seq![sep] + y2);
        assert(s.last() == y.last());
        let a = split_spec(x, sep);
        let b = split_spec(y2, sep);
        if y.last() == sep {
            assert((a + b).push(Seq::<char>::empty()) =~= a + b.push(Seq::<char>::empty()));
        } else {
            let ab = a + b;
            assert(ab.last() == b.last());
            assert(ab.update(ab.len() - 1, ab.last().push(y.last())) =~= a + b.update(
                b.len() - 1,
                b.last().push(y.last()),
            ));
        }
    }
}

/// A piece without `sep` splits into itself.
pub proof fn lemma_split_plain(w: Seq<char>, sep: char)
    requires
        !w.contains(sep),
    ensures
        split_spec(w, sep) == seq![w],
    decreases w.len(),
{
    if w.len() > 0 {
        let w2 = w.drop_last();
        assert(!w2.contains(sep)) by {
            if w2.contains(sep) {
                let k = choose|k: int| 0 <= k < w2.len() && w2[k] == sep;
                assert(w[k] == sep);
            }
        }
        lemma_split_plain(w2, sep);
        assert(w.last() != sep) by {
            assert(w[w.len() - 1] == w.last());
        }
        assert(w2.push(w.last()) =~= w);
        assert(seq![w2].update(0, w2.push(w.last())) =~= seq![w]);
    } else {
        assert(w =~= Seq::<char>::empty());
        assert(seq![Seq::<char>::empty()] =~= seq![w]);
    }
}

/// Joining pieces free of `sep` and splitting again gives the pieces back.
pub proof fn lemma_split_join(ps: Seq<Seq<char>>, sep: char)
    requires
        ps.len() >= 1,
        forall|i: int| 0 <= i < ps.len() ==> !(#[trigger] ps[i]).contains(sep),
    ensures
        split_spec(join_spec(ps, sep), sep) == ps,
    decreases ps.len(),
{
    if ps.len() == 1 {
        lemma_split_plain(ps[0], sep);
        assert(seq![ps[0]] =~= ps);
    } else {
        let p2 = ps.drop_last();
        assert forall|i: int| 0 <= i < p2.len() implies !(#[trigger] p2[i]).contains(sep) by {
            assert(p2[i] == ps[i]);
        }
        lemma_split_join(p2, sep);
        assert(!ps[ps.len() - 1].contains(sep));
        lemma_split_around(join_spec(p2, sep), ps.last(), sep);
        lemma_split_plain(ps.last(), sep);
        assert(p2 + seq![ps.last()] =~= ps);
    }
}

/// Dropping empty pieces from a list without empty pieces changes nothing.
pub proof fn lemma_non_empty_id(ps: Seq<Seq<char>>)
    requires
        forall|i: int| 0 <= i < ps.len() ==> (#[trigger] ps[i]).len() > 0,
    ensures
        non_empty(ps) == ps,
    decreases ps.len(),
{
    if ps.len() > 0 {
        let p2 = ps.drop_last();
        assert forall|i: int| 0 <= i < p2.len() implies (#[trigger] p2[i]).len() > 0 by {
            assert(p2[i] == ps[i]);
        }
        lemma_non_empty_id(p2);
        assert(ps[ps.len() - 1].len() > 0);
        assert(p2.push(ps.last()) =~= ps);
    }
}

/// Joins a relative path onto a base path, as `Path::join` does: nothing
/// is added to an empty base, and a separator only where the base lacks one.
pub open spec fn join_path_spec(base: Seq<char>, rel: Seq<char>) -> Seq<char> {
    if base.len() == 0 {
        rel
    } else if base.last() == '/' {
        base + rel
    } else {
        base + seq!['/'] + rel
    }
}

/// Joins a relative path onto a base path.
pub fn join_path(base: &str, rel: &str) -> (r: String)
    ensures
        r@ == join_path_spec(base@, rel@),
{
    let n = base.unicode_len();
    let mut r = base.to_owned();
    if n == 0 {
        return rel.to_owned();
    }
    if base.get_char(n - 1) != '/' {
        push_char(&mut r, '/');
    }
    r.append(rel);
    r
}

/// Concatenates two string slices.
pub fn concat2(a: &str, b: &str) -> (r: String)
    ensures
        r@ == a@ + b@,
{
    let mut r = a.to_owned();
    r.append(b);
    r
}

/// Concatenates three string slices.
pub fn concat3(a: &str, b: &str, c: &str) -> (r: String)
    ensures
        r@ == a@ + b@ + c@,
{
    let mut r = a.to_owned();
    r.append(b);
    r.append(c);
    r
}

/// Concatenates four string slices.
pub fn concat4(a: &str, b: &str, c: &str, d: &str) -> (r: String)
    ensures
        r@ == a@ + b@ + c@ + d@,
{
    let mut r = a.to_owned();
    r.append(b);
    r.append(c);
    r.append(d);
    r
}


/// Concatenates five string slices.
pub fn concat5(a: &str, b: &str, c: &str, d: &str, e: &str) -> (r: String)
    ensures
        r@ == a@ + b@ + c@ + d@ + e@,
{
    let mut r = a.to_owned();
    r.append(b);
    r.append(c);
    r.append(d);
    r.append(e);
    r
}

/// Whether `p` is a prefix of `s`.
pub open spec fn has_prefix(s: Seq<char>, p: Seq<char>) -> bool {
    p.len() <= s.len() && s.subrange(0, p.len() as int) == p
}

/// Whether `n` occurs in `s` at position `i`.
pub open spec fn occurs_at(s: Seq<char>, n: Seq<char>, i: int) -> bool {
    0 <= i && i + n.len() <= s.len() && s.subrange(i, i + n.len()) == n
}

/// Whether `n` occurs anywhere in `s`.
pub open spec fn contains_spec(s: Seq<char>, n: Seq<char>) -> bool {
    exists|i: int| occurs_at(s, n, i)
}

/// Whether the characters of `n` stand in `cs` at position `i`.
fn occurs_at_exec(cs: &Vec<char>, ns: &Vec<char>, i: usize) -> (r: bool)
    requires
        i <= cs@.len(),
    ensures
        r == occurs_at(cs@, ns@, i as int),
{
    if ns.len() > cs.len() - i {
        return false;
    }
    let mut j: usize = 0;
    while j < ns.len()
        invariant
            i + ns@.len() <= cs@.len(),
            cs@.len() <= usize::MAX,
            j <= ns@.len(),
            forall|k: int| 0 <= k < j ==> cs@[i + k] == ns@[k],
        decreases ns@.len() - j,
    {
        assert(i + j < cs@.len());
        if cs[i + j] != ns[j] {
            assert(cs@.subrange(i as int, i + ns@.len())[j as int] != ns@[j as int]);
            return false;
        }
        j = j + 1;
    }
    assert(cs@.subrange(i as int, i + ns@.len()) =~= ns@);
    true
}

/// Whether `s` starts with `p`.
pub fn starts_with(s: &str, p: &str) -> (r: bool)
    ensures
        r == has_prefix(s@, p@),
{
    let cs = chars_of(s);
    let ps = chars_of(p);
    occurs_at_exec(&cs, &ps, 0)
}

/// What follows the prefix `p` in `s`, if `s` starts with it.
pub fn strip_prefix(s: &str, p: &str) -> (r: Option<String>)
    ensures
        r is Some <==> has_prefix(s@, p@),
        r matches Some(t) ==> t@ == s@.subrange(p@.len() as int, s@.len() as int),
{
    let cs = chars_of(s);
    let ps = chars_of(p);
    if !occurs_at_exec(&cs, &ps, 0) {
        return None;
    }
    let mut out = String::new();
    let mut i: usize = ps.len();
    while i < cs.len()
        invariant
            ps@.len() <= i <= cs@.len(),
            cs@ == s@,
            out@ == s@.subrange(ps@.len() as int, i as int),
        decreases cs@.len() - i,
    {
        push_char(&mut out, cs[i]);
        i = i + 1;
        assert(out@ =~= s@.subrange(ps@.len() as int, i as int));
    }
    Some(out)
}

/// The first position at which `n` occurs in `s`, if any.
pub fn find_str(s: &str, n: &str) -> (r: Option<usize>)
    ensures
        r matches Some(i) ==> occurs_at(s@, n@, i as int) && forall|j: int|
            0 <= j < i ==> !occurs_at(s@, n@, j),
        r is None ==> !contains_spec(s@, n@),
{
    let cs = chars_of(s);
    let ns = chars_of(n);
    let mut i: usize = 0;
    while i < cs.len()
        invariant
            cs@ == s@,
            ns@ == n@,
            i <= cs@.len(),
            forall|j: int| 0 <= j < i ==> !occurs_at(s@, n@, j),
        decreases cs@.len() - i,
    {
        if occurs_at_exec(&cs, &ns, i) {
            return Some(i);
        }
        i = i + 1;
    }
    if occurs_at_exec(&cs, &ns, i) {
        return Some(i);
    }
    assert forall|j: int| #![auto] occurs_at(s@, n@, j) implies false by {
        assert(0 <= j <= i);
    }
    None
}

/// Whether `n` occurs in `s`.
pub fn contains_str(s: &str, n: &str) -> (r: bool)
    ensures
        r == contains_spec(s@, n@),
{
    match find_str(s, n) {
        Some(_) => true,
        None => false,
    }
}

/// The characters of `s` from position `i` to position `j`.
pub fn substring(s: &str, i: usize, j: usize) -> (r: String)
    requires
        i <= j <= s@.len(),
    ensures
        r@ == s@.subrange(i as int, j as int),
{
    let mut out = String::new();
    let mut k: usize = i;
    while k < j
        invariant
            i <= k <= j <= s@.len(),
            out@ == s@.subrange(i as int, k as int),
        decreases j - k,
    {
        push_char(&mut out, s.get_char(k));
        k = k + 1;
        assert(out@ =~= s@.subrange(i as int, k as int));
    }
    out
}

/// The decimal digit of a value below ten.
pub open spec fn digit_char(d: nat) -> char {
    if d == 0 { '0' } else if d == 1 { '1' } else if d == 2 { '2' } else if d == 3 { '3' }
    else if d == 4 { '4' } else if d == 5 { '5' } else if d == 6 { '6' } else if d == 7 { '7' }
    else if d == 8 { '8' } else { '9' }
}

/// The decimal notation of a natural number, as `to_string` writes it.
pub open spec fn decimal_spec(n: nat) -> Seq<char>
    decreases n,
{
    if n < 10 {
        seq![digit_char(n)]
    } else {
        decimal_spec(n / 10).push(digit_char(n % 10))
    }
}

/// The digit character of a value below ten.
fn digit(d: usize) -> (c: char)
    requires
        d < 10,
    ensures
        c == digit_char(d as nat),
{
    if d == 0 { '0' } else if d == 1 { '1' } else if d == 2 { '2' } else if d == 3 { '3' }
    else if d == 4 { '4' } else if d == 5 { '5' } else if d == 6 { '6' } else if d == 7 { '7' }
    else if d == 8 { '8' } else { '9' }
}

/// The decimal notation of a number.
pub fn usize_to_string(n: usize) -> (r: String)
    ensures
        r@ == decimal_spec(n as nat),
    decreases n,
{
    if n < 10 {
        let mut s = String::new();
        push_char(&mut s, digit(n));
        s
    } else {
        let mut s = usize_to_string(n / 10);
        push_char(&mut s, digit(n % 10));
        s
    }
}

/// The decimal notation of a 64-bit number.
pub fn u64_to_string(n: u64) -> (r: String)
    ensures
        r@ == decimal_spec(n as nat),
    decreases n,
{
    if n < 10 {
        let mut s = String::new();
        push_char(&mut s, digit(n as usize));
        s
    } else {
        let mut s = u64_to_string(n / 10);
        push_char(&mut s, digit((n % 10) as usize));
        s
    }
}

/// What `char::is_alphanumeric` answers for a character.
pub uninterp spec fn alphanumeric_spec(c: char) -> bool;

/// An ASCII letter or digit.
pub open spec fn ascii_alnum(c: char) -> bool {
    ('a' <= c && c <= 'z') || ('A' <= c && c <= 'Z') || ('0' <= c && c <= '9')
}

/// Calls `char::is_alphanumeric`, which answers whether the character is
/// alphabetic or numeric in Unicode's sense. The contract states the
/// answer on ASCII, where the letters and digits are exactly the ASCII
/// letters and digits; beyond ASCII the answer is named and not stated.
#[verifier::external_body]
pub(crate) fn char_is_alphanumeric(c: char) -> (r: bool)
    ensures
        r == alphanumeric_spec(c),
        (c as u32) < 128 ==> (r <==> ascii_alnum(c)),
{
    c.is_alphanumeric()
}

/// The plural ending for a count.
pub open spec fn plural(n: nat) -> Seq<char> {
    if n == 1 {
        seq![]
    } else {
        "s"@
    }
}

/// The plural ending for a count.
pub fn plural_of(n: usize) -> (r: &'static str)
    ensures
        r@ == plural(n as nat),
{
    if n == 1 {
        proof {
            reveal_strlit("");
        }
        ""
    } else {
        "s"
    }
}

/// `n` spaces.
pub open spec fn spaces(n: nat) -> Seq<char> {
    Seq::new(n, |_i: int| ' ')
}

/// `s` padded with spaces on the right to at least `width` characters.
pub open spec fn pad_right_spec(s: Seq<char>, width: nat) -> Seq<char> {
    if s.len() >= width {
        s
    } else {
        s + spaces((width - s.len()) as nat)
    }
}

/// `s` padded with spaces on the left to at least `width` characters.
pub open spec fn pad_left_spec(s: Seq<char>, width: nat) -> Seq<char> {
    if s.len() >= width {
        s
    } else {
        spaces((width - s.len()) as nat) + s
    }
}

/// `n` spaces as a string.
fn space_string(n: usize) -> (r: String)
    ensures
        r@ == spaces(n as nat),
{
    let mut r = String::new();
    let mut i: usize = 0;
    while i < n
        invariant
            i <= n,
            r@ == spaces(i as nat),
        decreases n - i,
    {
        push_char(&mut r, ' ');
        assert(r@ =~= spaces((i + 1) as nat));
        i = i + 1;
    }
    r
}

/// `s` padded with spaces on the right to at least `width` characters.
pub fn pad_right(s: &str, width: usize) -> (r: String)
    ensures
        r@ == pad_right_spec(s@, width as nat),
{
    let n = s.unicode_len();
    if n >= width {
        return s.to_owned();
    }
    let pad = space_string(width - n);
    concat2(s, pad.as_str())
}

/// `s` padded with spaces on the left to at least `width` characters.
pub fn pad_left(s: &str, width: usize) -> (r: String)
    ensures
        r@ == pad_left_spec(s@, width as nat),
{
    let n = s.unicode_len();
    if n >= width {
        return s.to_owned();
    }
    let pad = space_string(width - n);
    concat2(pad.as_str(), s)
}

/// Whether a character is white space, as Unicode's `White_Space`
/// property lists it.
pub open spec fn is_white_space(c: char) -> bool {
    let u = c as u32;
    (0x9 <= u <= 0xd) || u == 0x20 || u == 0x85 || u == 0xa0 || u == 0x1680 || (0x2000 <= u <= 0x200a)
        || u == 0x2028 || u == 0x2029 || u == 0x202f || u == 0x205f || u == 0x3000
}

fn white_space(c: char) -> (r: bool)
    ensures
        r == is_white_space(c),
{
    let u = c as u32;
    (0x9 <= u && u <= 0xd) || u == 0x20 || u == 0x85 || u == 0xa0 || u == 0x1680 || (0x2000 <= u
        && u <= 0x200a) || u == 0x2028 || u == 0x2029 || u == 0x202f || u == 0x205f || u == 0x3000
}

/// The number of white-space characters at the start of `s`.
pub open spec fn lead_ws(s: Seq<char>) -> nat
    decreases s.len(),
{
    if s.len() > 0 && is_white_space(s[0]) {
        1 + lead_ws(s.drop_first())
    } else {
        0
    }
}

/// The number of white-space characters at the end of `s`.
pub open spec fn trail_ws(s: Seq<char>) -> nat
    decreases s.len(),
{
    if s.len() > 0 && is_white_space(s.last()) {
        1 + trail_ws(s.drop_last())
    } else {
        0
    }
}

/// `s` without white space at either end.
pub open spec fn trim_spec(s: Seq<char>) -> Seq<char> {
    let a = s.subrange(lead_ws(s) as int, s.len() as int);
    a.subrange(0, a.len() - trail_ws(a))
}

proof fn lemma_lead_ws(s: Seq<char>, i: int)
    requires
        0 <= i <= s.len(),
        forall|j: int| 0 <= j < i ==> is_white_space(#[trigger] s[j]),
        i == s.len() || !is_white_space(s[i]),
    ensures
        lead_ws(s) == i,
    decreases i,
{
    if i > 0 {
        let t = s.drop_first();
        assert forall|j: int| 0 <= j < i - 1 implies is_white_space(#[trigger] t[j]) by {
            assert(t[j] == s[j + 1]);
        }
        if i - 1 < t.len() {
            assert(t[i - 1] == s[i]);
        }
        lemma_lead_ws(t, i - 1);
    }
}

proof fn lemma_trail_ws(s: Seq<char>, k: int)
    requires
        0 <= k <= s.len(),
        forall|j: int| s.len() - k <= j < s.len() ==> is_white_space(#[trigger] s[j]),
        k == s.len() || !is_white_space(s[s.len() - k - 1]),
    ensures
        trail_ws(s) == k,
    decreases k,
{
    if k > 0 {
        let t = s.drop_last();
        assert forall|j: int| t.len() - (k - 1) <= j < t.len() implies is_white_space(#[trigger] t[j]) by {
            assert(t[j] == s[j]);
        }
        if k - 1 < t.len() {
            assert(t[t.len() - (k - 1) - 1] == s[s.len() - k - 1]);
        }
        lemma_trail_ws(t, k - 1);
    }
}

/// `s` without white space at either end, as `str::trim` gives it.
pub fn trim(s: &str) -> (r: String)
    ensures
        r@ == trim_spec(s@),
{
    let cs = chars_of(s);
    let n = cs.len();
    let mut i: usize = 0;
    while i < n && white_space(cs[i])
        invariant
            i <= n,
            n == cs@.len(),
            forall|j: int| 0 <= j < i ==> is_white_space(#[trigger] cs@[j]),
        decreases n - i,
    {
        i = i + 1;
    }
    proof {
        lemma_lead_ws(cs@, i as int);
    }
    let ghost a = cs@.subrange(i as int, n as int);
    let mut k: usize = 0;
    while k < n - i && white_space(cs[n - 1 - k])
        invariant
            i <= n,
            k <= n - i,
            n == cs@.len(),
            a == cs@.subrange(i as int, n as int),
            forall|j: int| a.len() - k <= j < a.len() ==> is_white_space(#[trigger] a[j]),
        decreases n - i - k,
    {
        assert(a[a.len() - k - 1] == cs@[n - 1 - k]);
        k = k + 1;
    }
    proof {
        if k < n - i {
            assert(a[a.len() - k - 1] == cs@[n - 1 - k]);
        }
        lemma_trail_ws(a, k as int);
    }
    let out = string_of(&cs.as_slice()[i..n - k]);
    assert(out@ =~= trim_spec(s@));
    out
}

} // verus!
