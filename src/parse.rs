use vstd::prelude::*;
use crate::config::Mode;
use crate::types::Ipv4Addr;

verus! {

/// The byte that separates the fields of a peer configuration.
pub const SPACE: u8 = 32;

/// The byte that separates the octets of an IPv4 address.
pub const DOT: u8 = 46;

pub open spec fn is_digit(c: u8) -> bool {
    48 <= c <= 57
}

pub open spec fn all_digits(s: Seq<u8>) -> bool {
    forall|i: int| 0 <= i < s.len() ==> is_digit(#[trigger] s[i])
}

/// The value of a string of decimal digits.
pub open spec fn digits_value(s: Seq<u8>) -> int
    decreases s.len(),
{
    if s.len() == 0 {
        0
    } else {
        digits_value(s.drop_last()) * 10 + (s.last() - 48)
    }
}

/// `x`, or 65536 where `x` is larger: enough to tell whether a value fits in
/// 16 bits.
pub open spec fn capped(x: int) -> int {
    if x > 65536 {
        65536
    } else {
        x
    }
}

/// The index of the first `sep` at or after `start` in `s`, or the length of
/// `s` when there is none.
pub open spec fn field_end(s: Seq<u8>, start: int, sep: u8) -> int
    decreases s.len() - start,
{
    if start >= s.len() || start < 0 {
        s.len() as int
    } else if s[start] == sep {
        start
    } else {
        field_end(s, start + 1, sep)
    }
}

/// A decimal 16-bit number: an optional `+`, then at least one digit.
pub open spec fn parse_u16_spec(s: Seq<u8>) -> Option<u16> {
    let d = if s.len() > 0 && s[0] == 43 {
        s.drop_first()
    } else {
        s
    };
    if d.len() > 0 && all_digits(d) && digits_value(d) <= 65535 {
        Some(digits_value(d) as u16)
    } else {
        None
    }
}

/// One octet of a dotted-quad address: one to three digits, no leading zero,
/// at most 255.
pub open spec fn parse_octet_spec(s: Seq<u8>) -> Option<u8> {
    if 1 <= s.len() <= 3 && all_digits(s) && !(s.len() > 1 && s[0] == 48) && digits_value(s)
        <= 255 {
        Some(digits_value(s) as u8)
    } else {
        None
    }
}

/// The value of the digits in `b[start..end]`, capped at 65536, or `None`
/// where a byte there is not a digit.
pub fn read_decimal(b: &[u8], start: usize, end: usize) -> (r: Option<u32>)
    requires
        start <= end <= b@.len(),
    ensures
        match r {
            Some(v) => all_digits(b@.subrange(start as int, end as int)) && v == capped(
                digits_value(b@.subrange(start as int, end as int)),
            ),
            None => !all_digits(b@.subrange(start as int, end as int)),
        },
{
    let mut v: u32 = 0;
    let mut i: usize = start;
    while i < end
        invariant
            start <= i <= end <= b@.len(),
            all_digits(b@.subrange(start as int, i as int)),
            v == capped(digits_value(b@.subrange(start as int, i as int))),
        decreases end - i,
    {
        let c = b[i];
        if c < 48 || c > 57 {
            assert(!is_digit(b@.subrange(start as int, end as int)[i - start]));
            return None;
        }
        let ghost pre = b@.subrange(start as int, i as int);
        let ghost next = b@.subrange(start as int, i + 1);
        assert(next.drop_last() =~= pre);
        assert(digits_value(pre) >= 0) by {
            lemma_digits_value_nonneg(pre);
        }
        if v >= 6554 {
            v = 65536;
        } else {
            v = v * 10 + (c - 48) as u32;
            if v > 65536 {
                v = 65536;
            }
        }
        assert(all_digits(next)) by {
            assert forall|j: int| 0 <= j < next.len() implies is_digit(#[trigger] next[j]) by {
                if j < pre.len() {
                    assert(next[j] == pre[j]);
                }
            }
        }
        i = i + 1;
    }
    Some(v)
}

proof fn lemma_digits_value_nonneg(s: Seq<u8>)
    requires
        all_digits(s),
    ensures
        digits_value(s) >= 0,
    decreases s.len(),
{
    if s.len() > 0 {
        assert(is_digit(s[s.len() - 1]));
        lemma_digits_value_nonneg(s.drop_last());
    }
}

/// The index of the first `sep` at or after `start`, or the length of `b`.
pub fn find_field_end(b: &[u8], start: usize, sep: u8) -> (r: usize)
    requires
        start <= b@.len(),
    ensures
        r == field_end(b@, start as int, sep),
        start <= r <= b@.len(),
{
    let mut i: usize = start;
    while i < b.len() && b[i] != sep
        invariant
            start <= i <= b@.len(),
            field_end(b@, i as int, sep) == field_end(b@, start as int, sep),
        decreases b@.len() - i,
    {
        i = i + 1;
    }
    i
}

/// Reads `b[start..end]` as a decimal 16-bit number.
pub fn parse_u16(b: &[u8], start: usize, end: usize) -> (r: Option<u16>)
    requires
        start <= end <= b@.len(),
    ensures
        r == parse_u16_spec(b@.subrange(start as int, end as int)),
{
    let ghost s = b@.subrange(start as int, end as int);
    let d0 = if start < end && b[start] == 43 {
        start + 1
    } else {
        start
    };
    assert(b@.subrange(d0 as int, end as int) =~= (if s.len() > 0 && s[0] == 43 {
        s.drop_first()
    } else {
        s
    }));
    if d0 == end {
        return None;
    }
    match read_decimal(b, d0, end) {
        Some(v) => if v <= 65535 {
            Some(v as u16)
        } else {
            None
        },
        None => None,
    }
}

/// Reads `b[start..end]` as one octet of a dotted-quad address.
pub fn parse_octet(b: &[u8], start: usize, end: usize) -> (r: Option<u8>)
    requires
        start <= end <= b@.len(),
    ensures
        r == parse_octet_spec(b@.subrange(start as int, end as int)),
{
    if end == start || end - start > 3 || (end - start > 1 && b[start] == 48) {
        return None;
    }
    match read_decimal(b, start, end) {
        Some(v) => if v <= 255 {
            Some(v as u8)
        } else {
            None
        },
        None => None,
    }
}

/// A dotted-quad IPv4 address: exactly four octets separated by dots.
pub open spec fn parse_ipv4_spec(s: Seq<u8>) -> Option<Ipv4Addr> {
    let e0 = field_end(s, 0, DOT);
    let e1 = field_end(s, e0 + 1, DOT);
    let e2 = field_end(s, e1 + 1, DOT);
    let e3 = field_end(s, e2 + 1, DOT);
    if e2 < s.len() && e3 == s.len() {
        match (
            parse_octet_spec(s.subrange(0, e0)),
            parse_octet_spec(s.subrange(e0 + 1, e1)),
            parse_octet_spec(s.subrange(e1 + 1, e2)),
            parse_octet_spec(s.subrange(e2 + 1, e3)),
        ) {
            (Some(a), Some(b), Some(c), Some(d)) => Some(Ipv4Addr(a, b, c, d)),
            _ => None,
        }
    } else {
        None
    }
}

/// Reads `b[start..end]` as a dotted-quad IPv4 address.
pub fn parse_ipv4(b: &[u8], start: usize, end: usize) -> (r: Option<Ipv4Addr>)
    requires
        start <= end <= b@.len(),
    ensures
        r == parse_ipv4_spec(b@.subrange(start as int, end as int)),
{
    let f = &b[start..end];
    assert(f@ == b@.subrange(start as int, end as int));
    let n = f.len();
    let e0 = find_field_end(f, 0, DOT);
    if e0 >= n {
        return None;
    }
    let e1 = find_field_end(f, e0 + 1, DOT);
    if e1 >= n {
        return None;
    }
    let e2 = find_field_end(f, e1 + 1, DOT);
    if e2 >= n {
        return None;
    }
    let e3 = find_field_end(f, e2 + 1, DOT);
    if e3 != n {
        return None;
    }
    let a = parse_octet(f, 0, e0);
    let b1 = parse_octet(f, e0 + 1, e1);
    let c = parse_octet(f, e1 + 1, e2);
    let d = parse_octet(f, e2 + 1, e3);
    match (a, b1, c, d) {
        (Some(a), Some(b1), Some(c), Some(d)) => Some(Ipv4Addr::new(a, b1, c, d)),
        _ => None,
    }
}

/// `c` with ASCII upper case taken to lower case.
pub open spec fn ascii_lower(c: u8) -> u8 {
    if 65 <= c <= 90 {
        (c + 32) as u8
    } else {
        c
    }
}

/// "active".
pub open spec fn active_word() -> Seq<u8> {
    seq![97u8, 99, 116, 105, 118, 101]
}

/// "passive".
pub open spec fn passive_word() -> Seq<u8> {
    seq![112u8, 97, 115, 115, 105, 118, 101]
}

/// Whether `s` spells `word` (which is lower case), ignoring ASCII case.
pub open spec fn spells(s: Seq<u8>, word: Seq<u8>) -> bool {
    s.len() == word.len() && forall|i: int| 0 <= i < s.len() ==> ascii_lower(#[trigger] s[i])
        == word[i]
}

/// A session mode, `active` or `passive` in any ASCII case.
pub open spec fn parse_mode_spec(s: Seq<u8>) -> Option<Mode> {
    if spells(s, active_word()) {
        Some(Mode::Active)
    } else if spells(s, passive_word()) {
        Some(Mode::Passive)
    } else {
        None
    }
}

/// Whether `b[start..end]` spells `word`, ignoring ASCII case.
fn spells_word(b: &[u8], start: usize, end: usize, word: &[u8]) -> (r: bool)
    requires
        start <= end <= b@.len(),
    ensures
        r == spells(b@.subrange(start as int, end as int), word@),
{
    let ghost s = b@.subrange(start as int, end as int);
    if end - start != word.len() {
        return false;
    }
    let mut i: usize = 0;
    while i < word.len()
        invariant
            end - start == word@.len(),
            start <= end <= b@.len(),
            s == b@.subrange(start as int, end as int),
            i <= word@.len(),
            forall|j: int| 0 <= j < i ==> ascii_lower(#[trigger] s[j]) == word@[j],
        decreases word@.len() - i,
    {
        let c = b[start + i];
        let lower = if 65 <= c && c <= 90 {
            c + 32
        } else {
            c
        };
        assert(s[i as int] == c);
        assert(lower == ascii_lower(c));
        if lower != word[i] {
            return false;
        }
        i = i + 1;
    }
    true
}

/// Reads `b[start..end]` as a session mode.
pub fn parse_mode(b: &[u8], start: usize, end: usize) -> (r: Option<Mode>)
    requires
        start <= end <= b@.len(),
    ensures
        r == parse_mode_spec(b@.subrange(start as int, end as int)),
{
    let active: [u8; 6] = [97, 99, 116, 105, 118, 101];
    let passive: [u8; 7] = [112, 97, 115, 115, 105, 118, 101];
    assert(active@ =~= active_word());
    assert(passive@ =~= passive_word());
    if spells_word(b, start, end, active.as_slice()) {
        Some(Mode::Active)
    } else if spells_word(b, start, end, passive.as_slice()) {
        Some(Mode::Passive)
    } else {
        None
    }
}

} // verus!
