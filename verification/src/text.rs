//! Character-level helpers over strings, with their specifications.

use vstd::prelude::*;

verus! {

/// `pat` occurs in `s` as a contiguous run of characters.
pub open spec fn seq_contains(s: Seq<char>, pat: Seq<char>) -> bool {
    exists|i: int| 0 <= i && i + pat.len() <= s.len() && #[trigger] s.subrange(i, i + pat.len()) == pat
}

/// The characters of `s`, in order.
pub fn chars_of(s: &str) -> (v: Vec<char>)
    ensures
        v@ == s@,
{
    let n = s.unicode_len();
    let mut v: Vec<char> = Vec::new();
    let mut i: usize = 0;
    while i < n
        invariant
            n == s@.len(),
            i <= n,
            v@ == s@.subrange(0, i as int),
        decreases n - i,
    {
        let c = s.get_char(i);
        v.push(c);
        i = i + 1;
        assert(v@ =~= s@.subrange(0, i as int));
    }
    assert(v@ =~= s@);
    v
}

/// Whether `pat` occurs at position `at` of `hay`.
fn occurs_at(hay: &Vec<char>, pat: &Vec<char>, at: usize) -> (res: bool)
    requires
        at + pat.len() <= hay.len(),
    ensures
        res == (hay@.subrange(at as int, at + pat.len()) == pat@),
{
    let mut j: usize = 0;
    while j < pat.len()
        invariant
            at + pat.len() <= hay.len(),
            j <= pat.len(),
            forall|k: int| 0 <= k < j ==> hay@[at + k] == pat@[k],
        decreases pat.len() - j,
    {
        if hay[at + j] != pat[j] {
            assert(hay@.subrange(at as int, at + pat.len())[j as int] != pat@[j as int]);
            return false;
        }
        j = j + 1;
    }
    assert(hay@.subrange(at as int, at + pat.len()) =~= pat@);
    true
}

/// Whether `pat` occurs in `hay`.
pub fn contains_chars(hay: &Vec<char>, pat: &Vec<char>) -> (res: bool)
    ensures
        res == seq_contains(hay@, pat@),
{
    if pat.len() == 0 {
        assert(hay@.subrange(0, 0 + pat@.len() as int) =~= pat@);
        return true;
    }
    if pat.len() > hay.len() {
        return false;
    }
    let last = hay.len() - pat.len();
    let mut i: usize = 0;
    while i <= last
        invariant
            last + pat.len() == hay.len(),
            pat.len() > 0,
            i <= last + 1,
            forall|k: int| 0 <= k < i ==> #[trigger] hay@.subrange(k, k + pat.len()) != pat@,
        decreases last + 1 - i,
    {
        if occurs_at(hay, pat, i) {
            return true;
        }
        i = i + 1;
    }
    false
}

/// Whether two byte strings are equal.
pub fn bytes_eq(a: &Vec<u8>, b: &[u8]) -> (res: bool)
    ensures
        res == (a@ == b@),
{
    if a.len() != b.len() {
        return false;
    }
    let mut i: usize = 0;
    while i < a.len()
        invariant
            a.len() == b.len(),
            i <= a.len(),
            forall|k: int| 0 <= k < i ==> a@[k] == b@[k],
        decreases a.len() - i,
    {
        if a[i] != b[i] {
            return false;
        }
        i = i + 1;
    }
    assert(a@ =~= b@);
    true
}

/// Whether two strings hold the same characters.
pub fn str_eq(a: &str, b: &str) -> (res: bool)
    ensures
        res == (a@ == b@),
{
    let x = a.to_owned();
    let y = b.to_owned();
    x == y
}

/// The position of the last `c` in `s`.
pub open spec fn last_index(s: Seq<char>, c: char) -> Option<int>
    decreases s.len(),
{
    if s.len() == 0 {
        None
    } else if s.last() == c {
        Some(s.len() - 1)
    } else {
        last_index(s.drop_last(), c)
    }
}

/// The last position of `c` lies in `s` and holds `c`.
pub proof fn lemma_last_index(s: Seq<char>, c: char)
    ensures
        last_index(s, c) matches Some(k) ==> 0 <= k < s.len() && s[k] == c,
    decreases s.len(),
{
    if s.len() > 0 {
        lemma_last_index(s.drop_last(), c);
    }
}

/// The position of the last `c` in `chars`.
pub fn find_last(chars: &Vec<char>, c: char) -> (res: Option<usize>)
    ensures
        match res {
            Some(k) => last_index(chars@, c) == Some(k as int) && k < chars.len(),
            None => last_index(chars@, c) is None,
        },
{
    let n = chars.len();
    let mut found: Option<usize> = None;
    let mut i: usize = 0;
    while i < n
        invariant
            n == chars@.len(),
            i <= n,
            match found {
                Some(k) => last_index(chars@.take(i as int), c) == Some(k as int) && k < i,
                None => last_index(chars@.take(i as int), c) is None,
            },
        decreases n - i,
    {
        assert(chars@.take(i + 1).drop_last() =~= chars@.take(i as int));
        if chars[i] == c {
            found = Some(i);
        }
        i = i + 1;
    }
    assert(chars@.take(n as int) =~= chars@);
    found
}

} // verus!
