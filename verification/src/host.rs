//! The `Host` header as it is written back into a redirect location: the
//! header text trimmed of white space, its port read as a `u16` after the
//! last `:`, and the ports 80 and 443 left out, as hyper's `Host` header
//! parses and displays it.

use vstd::prelude::*;
use crate::text::{chars_of, find_last, last_index, lemma_last_index};

verus! {

/// Unicode white space, as `char::is_whitespace` defines it.
pub open spec fn is_space(c: char) -> bool {
    let v = c as u32;
    (0x09 <= v <= 0x0D) || v == 0x20 || v == 0x85 || v == 0xA0 || v == 0x1680
        || (0x2000 <= v <= 0x200A) || v == 0x2028 || v == 0x2029 || v == 0x202F
        || v == 0x205F || v == 0x3000
}

pub open spec fn trim_start(s: Seq<char>) -> Seq<char>
    decreases s.len(),
{
    if s.len() > 0 && is_space(s[0]) {
        trim_start(s.drop_first())
    } else {
        s
    }
}

pub open spec fn trim_end(s: Seq<char>) -> Seq<char>
    decreases s.len(),
{
    if s.len() > 0 && is_space(s.last()) {
        trim_end(s.drop_last())
    } else {
        s
    }
}

/// `s` without white space at either end, as `str::trim` gives it.
pub open spec fn trim(s: Seq<char>) -> Seq<char> {
    trim_end(trim_start(s))
}

pub open spec fn is_digit(c: char) -> bool {
    '0' <= c <= '9'
}

pub open spec fn digit_value(c: char) -> int {
    (c as u32) - ('0' as u32)
}

pub open spec fn all_digits(d: Seq<char>) -> bool {
    forall|i: int| 0 <= i < d.len() ==> is_digit(#[trigger] d[i])
}

/// The number that the decimal digits `d` write.
pub open spec fn digits_value(d: Seq<char>) -> int
    decreases d.len(),
{
    if d.len() == 0 {
        0
    } else {
        digits_value(d.drop_last()) * 10 + digit_value(d.last())
    }
}

/// What `<u16 as FromStr>::from_str` gives: an optional `+`, then at least
/// one decimal digit, with a value that fits in a `u16`.
pub open spec fn parse_u16(s: Seq<char>) -> Option<u16> {
    let d = if s.len() > 0 && s[0] == '+' { s.drop_first() } else { s };
    if d.len() == 0 || !all_digits(d) || digits_value(d) > 65535 {
        None
    } else {
        Some(digits_value(d) as u16)
    }
}

pub open spec fn digit_char(d: int) -> char {
    if d == 0 { '0' } else if d == 1 { '1' } else if d == 2 { '2' } else if d == 3 { '3' }
    else if d == 4 { '4' } else if d == 5 { '5' } else if d == 6 { '6' } else if d == 7 { '7' }
    else if d == 8 { '8' } else { '9' }
}

/// The decimal text of `n`, as `Display` writes a number.
pub open spec fn decimal(n: nat) -> Seq<char>
    decreases n,
{
    if n < 10 {
        seq![digit_char(n as int)]
    } else {
        decimal(n / 10) + seq![digit_char((n % 10) as int)]
    }
}

/// The text of the `Host` header `h` as hyper reads it and writes it back:
/// trimmed; when the part after the last `:` reads as a port, the name
/// before that `:`, followed by `:` and the port unless the port is 80 or
/// 443; otherwise the trimmed text as it is.
pub open spec fn host_text(h: Seq<char>) -> Seq<char> {
    let t = trim(h);
    match last_index(t, ':') {
        Some(i) => match parse_u16(t.skip(i + 1)) {
            Some(p) => if p == 80 || p == 443 {
                t.take(i)
            } else {
                t.take(i) + seq![':'] + decimal(p as nat)
            },
            None => t,
        },
        None => t,
    }
}

fn is_space_char(c: char) -> (res: bool)
    ensures
        res == is_space(c),
{
    let v = c as u32;
    (0x09 <= v && v <= 0x0D) || v == 0x20 || v == 0x85 || v == 0xA0 || v == 0x1680
        || (0x2000 <= v && v <= 0x200A) || v == 0x2028 || v == 0x2029 || v == 0x202F
        || v == 0x205F || v == 0x3000
}

/// `s` trimmed of white space at both ends.
pub fn trim_str(s: &str) -> (res: String)
    ensures
        res@ == trim(s@),
{
    let chars = chars_of(s);
    let n = chars.len();
    let mut i: usize = 0;
    assert(chars@.subrange(0, n as int) =~= chars@);
    while i < n && is_space_char(chars[i])
        invariant
            n == chars@.len(),
            i <= n,
            trim_start(chars@) == trim_start(chars@.subrange(i as int, n as int)),
        decreases n - i,
    {
        assert(chars@.subrange(i as int, n as int).drop_first() =~= chars@.subrange(i + 1, n as int));
        i = i + 1;
    }
    let ghost front = chars@.subrange(i as int, n as int);
    assert(trim_start(front) == front);
    let mut j: usize = n;
    while j > i && is_space_char(chars[j - 1])
        invariant
            n == chars@.len(),
            i <= j <= n,
            front == chars@.subrange(i as int, n as int),
            trim_end(front) == trim_end(chars@.subrange(i as int, j as int)),
        decreases j - i,
    {
        assert(chars@.subrange(i as int, j as int).drop_last() =~= chars@.subrange(i as int, j - 1));
        j = j - 1;
    }
    assert(trim_end(chars@.subrange(i as int, j as int)) == chars@.subrange(i as int, j as int));
    assert(s@ == chars@);
    s.substring_char(i, j).to_owned()
}

proof fn lemma_digits_value_monotone(d: Seq<char>, k: int)
    requires
        0 <= k <= d.len(),
        all_digits(d),
    ensures
        0 <= digits_value(d.take(k)) <= digits_value(d),
    decreases d.len(),
{
    if d.len() > 0 {
        assert(all_digits(d.drop_last()));
        lemma_digits_value_monotone(d.drop_last(), if k == d.len() { d.len() - 1 } else { k });
        if k == d.len() {
            assert(d.take(k) =~= d);
        } else {
            assert(d.drop_last().take(k) =~= d.take(k));
        }
        assert(digit_value(d.last()) >= 0);
    }
}

/// The port written in `chars` from position `from` on.
fn parse_port(chars: &Vec<char>, from: usize) -> (res: Option<u16>)
    requires
        from <= chars.len(),
    ensures
        res == parse_u16(chars@.subrange(from as int, chars@.len() as int)),
{
    let n = chars.len();
    let ghost s = chars@.subrange(from as int, n as int);
    let mut start = from;
    if from < n && chars[from] == '+' {
        start = from + 1;
        assert(s.drop_first() =~= chars@.subrange(start as int, n as int));
    }
    let ghost d = chars@.subrange(start as int, n as int);
    assert(d == (if s.len() > 0 && s[0] == '+' { s.drop_first() } else { s }));
    if start == n {
        return None;
    }
    let mut value: u32 = 0;
    let mut i: usize = start;
    while i < n
        invariant
            n == chars@.len(),
            start <= i <= n,
            d == chars@.subrange(start as int, n as int),
            s == chars@.subrange(from as int, n as int),
            d == (if s.len() > 0 && s[0] == '+' { s.drop_first() } else { s }),
            d.len() > 0,
            all_digits(d.take(i - start)),
            value == digits_value(d.take(i - start)),
            value <= 65535,
        decreases n - i,
    {
        let c = chars[i];
        assert(d[i - start] == c);
        if !('0' <= c && c <= '9') {
            assert(!all_digits(d)) by {
                assert(!is_digit(d[i - start]));
            }
            return None;
        }
        let dv = (c as u32) - ('0' as u32);
        assert(d.take(i + 1 - start).drop_last() =~= d.take(i - start));
        let next = value * 10 + dv;
        assert(d.take(i + 1 - start).last() == c);
        assert(digits_value(d.take(i + 1 - start)) == next);
        if next > 65535 {
            proof {
                assert(all_digits(d.take(i + 1 - start)));
                if all_digits(d) {
                    lemma_digits_value_monotone(d, i + 1 - start);
                }
            }
            return None;
        }
        value = next;
        i = i + 1;
        assert(all_digits(d.take(i - start)));
    }
    assert(d.take(n - start) =~= d);
    Some(value as u16)
}

fn digit_str(d: u16) -> (r: &'static str)
    requires
        d < 10,
    ensures
        r@ == seq![digit_char(d as int)],
{
    if d == 0 { proof { reveal_strlit("0"); } "0" }
    else if d == 1 { proof { reveal_strlit("1"); } "1" }
    else if d == 2 { proof { reveal_strlit("2"); } "2" }
    else if d == 3 { proof { reveal_strlit("3"); } "3" }
    else if d == 4 { proof { reveal_strlit("4"); } "4" }
    else if d == 5 { proof { reveal_strlit("5"); } "5" }
    else if d == 6 { proof { reveal_strlit("6"); } "6" }
    else if d == 7 { proof { reveal_strlit("7"); } "7" }
    else if d == 8 { proof { reveal_strlit("8"); } "8" }
    else { proof { reveal_strlit("9"); } "9" }
}

/// The decimal text of `n`.
pub fn decimal_string(n: u16) -> (s: String)
    ensures
        s@ == decimal(n as nat),
    decreases n,
{
    if n < 10 {
        String::from_str(digit_str(n))
    } else {
        let mut s = decimal_string(n / 10);
        s.append(digit_str(n % 10));
        s
    }
}

/// The text of the `Host` header `host` as it goes into a redirect
/// location.
pub fn host_text_of(host: &str) -> (res: String)
    ensures
        res@ == host_text(host@),
{
    let t = trim_str(host);
    let chars = chars_of(t.as_str());
    match find_last(&chars, ':') {
        Some(i) => {
            assert(chars@.subrange(i + 1, chars@.len() as int) =~= t@.skip(i + 1));
            match parse_port(&chars, i + 1) {
                Some(p) => {
                    let name = t.as_str().substring_char(0, i).to_owned();
                    assert(name@ =~= t@.take(i as int));
                    if p == 80 || p == 443 {
                        name
                    } else {
                        let mut out = name;
                        out.append(":");
                        proof {
                            reveal_strlit(":");
                        }
                        let port = decimal_string(p);
                        out.append(port.as_str());
                        assert(out@ =~= t@.take(i as int) + seq![':'] + decimal(p as nat));
                        out
                    }
                },
                None => t,
            }
        },
        None => t,
    }
}

} // verus!
