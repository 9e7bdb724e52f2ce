//! Character-level text helpers: comparison, prefix tests, the removal of
//! every `/kv/` occurrence from a path, and decimal rendering of integers.
use vstd::prelude::*;

verus! {

broadcast use vstd::string::axiom_spec_iter;

/// The characters of `s`, in order.
pub fn chars_of(s: &str) -> (v: Vec<char>)
    ensures
        v@ == s@,
{
    let mut v: Vec<char> = Vec::new();
    for c in it: s.chars()
        invariant
            it.seq() == s@,
            v@ == it.seq().take(it.index() as int),
    {
        v.push(c);
    }
    v
}


/// Whether `a` and `b` hold the same characters.
pub fn same_chars(a: &Vec<char>, b: &Vec<char>) -> (r: bool)
    ensures
        r == (a@ == b@),
{
    if a.len() != b.len() {
        return false;
    }
    let mut i: usize = 0;
    while i < a.len()
        invariant
            a.len() == b.len(),
            i <= a.len(),
            a@.take(i as int) == b@.take(i as int),
        decreases a.len() - i,
    {
        if a[i] != b[i] {
            assert(a@[i as int] != b@[i as int]);
            return false;
        }
        assert(a@.take(i + 1) == a@.take(i as int).push(a@[i as int]));
        assert(b@.take(i + 1) == b@.take(i as int).push(b@[i as int]));
        i = i + 1;
    }
    assert(a@ == a@.take(a.len() as int));
    assert(b@ == b@.take(b.len() as int));
    true
}

/// Whether `p` occurs in `s` starting at position `at`.
pub open spec fn occurs_at(s: Seq<char>, p: Seq<char>, at: int) -> bool {
    0 <= at && at + p.len() <= s.len() && s.subrange(at, at + p.len()) == p
}

/// Whether `p` occurs in `s` at position `at`.
pub fn matches_at(s: &Vec<char>, p: &Vec<char>, at: usize) -> (r: bool)
    ensures
        r == occurs_at(s@, p@, at as int),
{
    if at > s.len() || p.len() > s.len() - at {
        return false;
    }
    let mut j: usize = 0;
    while j < p.len()
        invariant
            at + p.len() <= s.len(),
            j <= p.len(),
            s@.subrange(at as int, at + j) == p@.take(j as int),
        decreases p.len() - j,
    {
        if s[at + j] != p[j] {
            assert(s@.subrange(at as int, at + p.len())[j as int] != p@[j as int]);
            return false;
        }
        assert(s@.subrange(at as int, at + j + 1) == s@.subrange(at as int, at + j).push(
            s@[at + j],
        ));
        assert(p@.take(j + 1) == p@.take(j as int).push(p@[j as int]));
        j = j + 1;
    }
    assert(p@ == p@.take(p.len() as int));
    true
}

/// The characters `/kv/`.
pub open spec fn kv_marker() -> Seq<char> {
    seq!['/', 'k', 'v', '/']
}

/// `s` with every occurrence of `/kv/` removed, occurrences being found
/// from the left and never overlapping.
pub open spec fn strip_kv(s: Seq<char>) -> Seq<char>
    decreases s.len(),
{
    if s.len() == 0 {
        Seq::empty()
    } else if occurs_at(s, kv_marker(), 0) {
        strip_kv(s.skip(4))
    } else {
        seq![s[0]] + strip_kv(s.skip(1))
    }
}

proof fn lemma_strip_kv_step(s: Seq<char>, i: int)
    requires
        0 <= i < s.len(),
    ensures
        occurs_at(s, kv_marker(), i) ==> strip_kv(s.skip(i)) == strip_kv(s.skip(i + 4)),
        !occurs_at(s, kv_marker(), i) ==> strip_kv(s.skip(i)) == seq![s[i]] + strip_kv(
            s.skip(i + 1),
        ),
{
    let t = s.skip(i);
    assert(t.skip(1) == s.skip(i + 1));
    if i + 4 <= s.len() {
        assert(t.skip(4) == s.skip(i + 4));
        assert(t.subrange(0, 4) == s.subrange(i, i + 4));
    }
}

/// The characters `/kv/`, as a vector.
pub(crate) fn kv_marker_chars() -> (v: Vec<char>)
    ensures
        v@ == kv_marker(),
{
    let v = vec!['/', 'k', 'v', '/'];
    assert(v@ == kv_marker());
    v
}

/// `s` with every `/kv/` removed: the key that a `/kv/...` path names.
pub fn strip_kv_text(s: &str) -> (r: String)
    ensures
        r@ == strip_kv(s@),
{
    let v = chars_of(s);
    let marker = kv_marker_chars();
    let n = v.len();
    let mut r = String::new();
    let mut start: usize = 0;
    let mut i: usize = 0;
    assert(s@.skip(0) == s@);
    assert(r@ + s@.subrange(0, 0) == Seq::<char>::empty());
    while i < n
        invariant
            v@ == s@,
            n == v.len(),
            marker@ == kv_marker(),
            start <= i <= n,
            r@ + s@.subrange(start as int, i as int) + strip_kv(s@.skip(i as int)) == strip_kv(
                s@,
            ),
        decreases n - i,
    {
        proof {
            lemma_strip_kv_step(s@, i as int);
        }
        if matches_at(&v, &marker, i) {
            let piece = s.substring_char(start, i);
            r.append(piece);
            i = i + 4;
            start = i;
            assert(s@.subrange(start as int, i as int) == Seq::<char>::empty());
        } else {
            assert(s@.subrange(start as int, i + 1) == s@.subrange(start as int, i as int)
                + seq![s@[i as int]]);
            i = i + 1;
        }
    }
    assert(s@.skip(n as int) == Seq::<char>::empty());
    let piece = s.substring_char(start, n);
    r.append(piece);
    assert(r@ == r@ + strip_kv(Seq::<char>::empty()));
    r
}


/// The character of decimal digit `d`.
pub open spec fn digit_char(d: nat) -> char {
    if d == 0 { '0' }
    else if d == 1 { '1' }
    else if d == 2 { '2' }
    else if d == 3 { '3' }
    else if d == 4 { '4' }
    else if d == 5 { '5' }
    else if d == 6 { '6' }
    else if d == 7 { '7' }
    else if d == 8 { '8' }
    else { '9' }
}

/// The decimal digits of `n`, most significant first, with no leading zero.
pub open spec fn decimal(n: nat) -> Seq<char>
    decreases n,
{
    if n < 10 {
        seq![digit_char(n)]
    } else {
        decimal(n / 10) + seq![digit_char(n % 10)]
    }
}

/// The one-character text of decimal digit `d`.
fn digit_text(d: u64) -> (r: &'static str)
    requires
        d < 10,
    ensures
        r@ == seq![digit_char(d as nat)],
{
    proof {
        reveal_strlit("0");
        reveal_strlit("1");
        reveal_strlit("2");
        reveal_strlit("3");
        reveal_strlit("4");
        reveal_strlit("5");
        reveal_strlit("6");
        reveal_strlit("7");
        reveal_strlit("8");
        reveal_strlit("9");
    }
    if d == 0 {
        "0"
    } else if d == 1 {
        "1"
    } else if d == 2 {
        "2"
    } else if d == 3 {
        "3"
    } else if d == 4 {
        "4"
    } else if d == 5 {
        "5"
    } else if d == 6 {
        "6"
    } else if d == 7 {
        "7"
    } else if d == 8 {
        "8"
    } else {
        "9"
    }
}

/// The decimal text of `n`.
pub fn decimal_text(n: u64) -> (r: String)
    ensures
        r@ == decimal(n as nat),
    decreases n,
{
    if n < 10 {
        String::from_str(digit_text(n))
    } else {
        let mut r = decimal_text(n / 10);
        r.append(digit_text(n % 10));
        r
    }
}

} // verus!
