//! Character-sequence helpers shared by the URL analysis.
use vstd::prelude::*;

verus! {

/// `n` occurs in `h` starting at position `i`.
pub open spec fn occurs_at(h: Seq<char>, n: Seq<char>, i: int) -> bool {
    0 <= i && i + n.len() <= h.len() && h.subrange(i, i + n.len()) == n
}

/// `n` occurs somewhere in `h` (the empty sequence occurs in every sequence).
pub open spec fn contains_seq(h: Seq<char>, n: Seq<char>) -> bool {
    exists|i: int| occurs_at(h, n, i)
}

/// `h` ends with `n`.
pub open spec fn ends_with_seq(h: Seq<char>, n: Seq<char>) -> bool {
    n.len() <= h.len() && h.subrange(h.len() - n.len(), h.len() as int) == n
}

/// Number of occurrences of `c` in `s`.
pub open spec fn count_char(s: Seq<char>, c: char) -> nat
    decreases s.len(),
{
    if s.len() == 0 {
        0
    } else {
        count_char(s.drop_last(), c) + if s.last() == c { 1nat } else { 0nat }
    }
}

/// The text after the last `.` of `s` (all of `s` where it has none).
pub open spec fn last_label(s: Seq<char>) -> Seq<char>
    decreases s.len(),
{
    if s.len() == 0 || s.last() == '.' {
        Seq::empty()
    } else {
        last_label(s.drop_last()).push(s.last())
    }
}

/// `s` without its first `k` characters (empty where it has no more than `k`).
pub open spec fn after(s: Seq<char>, k: nat) -> Seq<char> {
    if s.len() <= k {
        Seq::empty()
    } else {
        s.subrange(k as int, s.len() as int)
    }
}

/// The characters of `s`, one per element.
pub fn chars_of(s: &str) -> (r: Vec<char>)
    ensures
        r@ == s@,
{
    let n = s.unicode_len();
    let mut r: Vec<char> = Vec::new();
    let mut i: usize = 0;
    while i < n
        invariant
            n == s@.len(),
            i <= n,
            r@ == s@.subrange(0, i as int),
        decreases n - i,
    {
        r.push(s.get_char(i));
        i = i + 1;
    }
    assert(r@ =~= s@);
    r
}

/// Whether `n` occurs in `h` at position `i`.
pub fn occurs_at_exec(h: &Vec<char>, n: &Vec<char>, i: usize) -> (r: bool)
    requires
        i + n@.len() <= h@.len(),
    ensures
        r == occurs_at(h@, n@, i as int),
{
    let hl = h.len();
    let mut j: usize = 0;
    while j < n.len()
        invariant
            hl == h@.len(),
            i + n@.len() <= h@.len(),
            j <= n@.len(),
            forall|k: int| 0 <= k < j ==> h@[i + k] == n@[k],
        decreases n@.len() - j,
    {
        if h[i + j] != n[j] {
            assert(h@.subrange(i as int, i + n@.len())[j as int] != n@[j as int]);
            return false;
        }
        j = j + 1;
    }
    assert(h@.subrange(i as int, i + n@.len()) =~= n@);
    true
}

/// Whether `n` occurs anywhere in `h`.
pub fn contains_exec(h: &Vec<char>, n: &Vec<char>) -> (r: bool)
    ensures
        r == contains_seq(h@, n@),
{
    if n.len() > h.len() {
        return false;
    }
    let last = h.len() - n.len();
    let mut i: usize = 0;
    while i < last
        invariant
            i <= last,
            last == h@.len() - n@.len(),
            forall|k: int| 0 <= k < i ==> !occurs_at(h@, n@, k),
        decreases last - i,
    {
        if occurs_at_exec(h, n, i) {
            return true;
        }
        i = i + 1;
    }
    occurs_at_exec(h, n, last)
}

/// Whether `h` ends with `n`.
pub fn ends_with_exec(h: &Vec<char>, n: &Vec<char>) -> (r: bool)
    ensures
        r == ends_with_seq(h@, n@),
{
    if n.len() > h.len() {
        return false;
    }
    occurs_at_exec(h, n, h.len() - n.len())
}

/// Whether the two sequences are equal.
pub fn chars_equal(a: &Vec<char>, b: &Vec<char>) -> (r: bool)
    ensures
        r == (a@ == b@),
{
    if a.len() != b.len() {
        return false;
    }
    assert(a@.subrange(0, b@.len() as int) =~= a@);
    occurs_at_exec(a, b, 0)
}

/// Whether `c` occurs in `s`.
pub fn contains_char(s: &Vec<char>, c: char) -> (r: bool)
    ensures
        r == s@.contains(c),
{
    let mut i: usize = 0;
    while i < s.len()
        invariant
            i <= s@.len(),
            forall|k: int| 0 <= k < i ==> s@[k] != c,
        decreases s@.len() - i,
    {
        if s[i] == c {
            return true;
        }
        i = i + 1;
    }
    false
}

/// How many times `c` occurs in `s`.
pub fn count_char_exec(s: &Vec<char>, c: char) -> (r: usize)
    ensures
        r == count_char(s@, c),
{
    let mut i: usize = 0;
    let mut n: usize = 0;
    while i < s.len()
        invariant
            i <= s@.len(),
            n == count_char(s@.subrange(0, i as int), c),
            n <= i,
        decreases s@.len() - i,
    {
        assert(s@.subrange(0, i + 1).drop_last() =~= s@.subrange(0, i as int));
        if s[i] == c {
            n = n + 1;
        }
        i = i + 1;
    }
    assert(s@.subrange(0, i as int) =~= s@);
    n
}

/// The text after the last `.` of `s`.
pub fn last_label_exec(s: &Vec<char>) -> (r: Vec<char>)
    ensures
        r@ == last_label(s@),
{
    let mut i: usize = s.len();
    assert(s@.subrange(0, i as int) =~= s@);
    assert(last_label(s@) + s@.subrange(i as int, s@.len() as int) =~= last_label(s@));
    while i > 0 && s[i - 1] != '.'
        invariant
            i <= s@.len(),
            last_label(s@) == last_label(s@.subrange(0, i as int)) + s@.subrange(i as int, s@.len() as int),
        decreases i,
    {
        let ghost pre = s@.subrange(0, i as int);
        assert(pre.drop_last() =~= s@.subrange(0, i - 1));
        assert(s@.subrange(i - 1, s@.len() as int) =~= seq![s@[i - 1]] + s@.subrange(i as int, s@.len() as int));
        assert(last_label(pre) == last_label(s@.subrange(0, i - 1)).push(s@[i - 1]));
        assert(last_label(pre) + s@.subrange(i as int, s@.len() as int) =~= last_label(s@.subrange(0, i - 1)) + s@.subrange(i - 1, s@.len() as int));
        i = i - 1;
    }
    assert(last_label(s@.subrange(0, i as int)) =~= Seq::<char>::empty());
    let r = after_exec(s, i);
    assert(r@ =~= s@.subrange(i as int, s@.len() as int));
    r
}

/// `s` without its first `k` characters.
pub fn after_exec(s: &Vec<char>, k: usize) -> (r: Vec<char>)
    ensures
        r@ == after(s@, k as nat),
{
    let mut r: Vec<char> = Vec::new();
    if s.len() <= k {
        return r;
    }
    let mut i: usize = k;
    while i < s.len()
        invariant
            k < s@.len(),
            k <= i <= s@.len(),
            r@ == s@.subrange(k as int, i as int),
        decreases s@.len() - i,
    {
        r.push(s[i]);
        i = i + 1;
        assert(r@ =~= s@.subrange(k as int, i as int));
    }
    r
}

} // verus!
