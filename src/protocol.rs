use vstd::prelude::*;

verus! {

/// Decimal digits of `n`, most significant first, as ASCII bytes.
pub open spec fn decimal(n: nat) -> Seq<u8>
    decreases n,
{
    if n < 10 {
        seq![(48 + n) as u8]
    } else {
        decimal(n / 10) + seq![(48 + n % 10) as u8]
    }
}

/// `v` in decimal, with a leading `-` when negative.
pub open spec fn signed_decimal(v: int) -> Seq<u8> {
    if v < 0 {
        seq![45u8] + decimal((-v) as nat)
    } else {
        decimal(v as nat)
    }
}

/// The line that commands a move to `position` at `speed`: `move <speed> <position>\n`.
pub open spec fn move_line_spec(speed: int, position: int) -> Seq<u8> {
    seq![109u8, 111u8, 118u8, 101u8, 32u8] + signed_decimal(speed) + seq![32u8] + signed_decimal(
        position,
    ) + seq![10u8]
}

/// The line that asks for the current position: `position\n`.
pub open spec fn query_line_spec() -> Seq<u8> {
    seq![112u8, 111u8, 115u8, 105u8, 116u8, 105u8, 111u8, 110u8, 10u8]
}

fn push_decimal(out: &mut Vec<u8>, n: u64)
    ensures
        final(out)@ == old(out)@ + decimal(n as nat),
    decreases n,
{
    if n >= 10 {
        push_decimal(out, n / 10);
        out.push(48 + (n % 10) as u8);
    } else {
        out.push(48 + n as u8);
    }
}

fn push_signed_decimal(out: &mut Vec<u8>, v: i64)
    ensures
        final(out)@ == old(out)@ + signed_decimal(v as int),
{
    if v < 0 {
        out.push(45);
        let magnitude: u64 = (-(v as i128)) as u64;
        push_decimal(out, magnitude);
        assert(final(out)@ == old(out)@ + (seq![45u8] + decimal((-v) as nat)));
    } else {
        push_decimal(out, v as u64);
    }
}

/// Encodes `move <speed> <position>\n` in ASCII.
pub fn move_line(speed: i64, position: i64) -> (r: Vec<u8>)
    ensures
        r@ == move_line_spec(speed as int, position as int),
{
    let mut out: Vec<u8> = Vec::new();
    out.push(109);
    out.push(111);
    out.push(118);
    out.push(101);
    out.push(32);
    push_signed_decimal(&mut out, speed);
    out.push(32);
    push_signed_decimal(&mut out, position);
    out.push(10);
    assert(out@ =~= move_line_spec(speed as int, position as int));
    out
}

/// Encodes `position\n` in ASCII.
pub fn query_line() -> (r: Vec<u8>)
    ensures
        r@ == query_line_spec(),
{
    let r: Vec<u8> = vec![112u8, 111u8, 115u8, 105u8, 116u8, 105u8, 111u8, 110u8, 10u8];
    assert(r@ =~= query_line_spec());
    r
}

pub open spec fn is_space(b: u8) -> bool {
    b == 32 || b == 9 || b == 10 || b == 13
}

pub open spec fn is_digit(b: u8) -> bool {
    48 <= b <= 57
}

/// `s` without its leading ASCII white space.
pub open spec fn trim_start(s: Seq<u8>) -> Seq<u8>
    decreases s.len(),
{
    if s.len() > 0 && is_space(s[0]) {
        trim_start(s.drop_first())
    } else {
        s
    }
}

/// `s` without its trailing ASCII white space.
pub open spec fn trim_end(s: Seq<u8>) -> Seq<u8>
    decreases s.len(),
{
    if s.len() > 0 && is_space(s.last()) {
        trim_end(s.drop_last())
    } else {
        s
    }
}

/// The value of a run of decimal digits.
pub open spec fn digits_value(s: Seq<u8>) -> nat
    decreases s.len(),
{
    if s.len() == 0 {
        0
    } else {
        digits_value(s.drop_last()) * 10 + (s.last() - 48) as nat
    }
}

pub open spec fn all_digits(s: Seq<u8>) -> bool {
    s.len() > 0 && forall|i: int| 0 <= i < s.len() ==> is_digit(#[trigger] s[i])
}

/// The number a trimmed reply body stands for: decimal digits with an optional
/// leading `-` or `+`.
pub open spec fn number_of(t: Seq<u8>) -> Option<int> {
    if t.len() > 0 && t[0] == 45 {
        if all_digits(t.drop_first()) {
            Some(-(digits_value(t.drop_first()) as int))
        } else {
            None
        }
    } else if t.len() > 0 && t[0] == 43 {
        if all_digits(t.drop_first()) {
            Some(digits_value(t.drop_first()) as int)
        } else {
            None
        }
    } else if all_digits(t) {
        Some(digits_value(t) as int)
    } else {
        None
    }
}

/// The position a reply line reports: surrounding white space is ignored, the
/// rest must be a number that fits in `i64`.
pub open spec fn reply_value(s: Seq<u8>) -> Option<int> {
    match number_of(trim_end(trim_start(s))) {
        Some(v) => if i64::MIN <= v <= i64::MAX {
            Some(v)
        } else {
            None
        },
        None => None,
    }
}

proof fn lemma_digits_prefix(t: Seq<u8>, k: int, j: int)
    requires
        0 <= k <= j <= t.len(),
    ensures
        digits_value(t.subrange(0, k)) <= digits_value(t.subrange(0, j)),
    decreases j - k,
{
    if k < j {
        lemma_digits_prefix(t, k, j - 1);
        assert(t.subrange(0, j).drop_last() == t.subrange(0, j - 1));
    }
}

fn byte_is_space(b: u8) -> (r: bool)
    ensures
        r == is_space(b),
{
    b == 32 || b == 9 || b == 10 || b == 13
}

/// Reads the digits `s[a..b]` as a number no larger than `limit`.
fn parse_digits(s: &Vec<u8>, a: usize, b: usize, limit: u128) -> (r: Option<u128>)
    requires
        a <= b <= s@.len(),
        limit <= 0x1_0000_0000_0000_0000,
    ensures
        match r {
            Some(v) => all_digits(s@.subrange(a as int, b as int)) && v == digits_value(
                s@.subrange(a as int, b as int),
            ) && v <= limit,
            None => !all_digits(s@.subrange(a as int, b as int)) || digits_value(
                s@.subrange(a as int, b as int),
            ) > limit,
        },
{
    let ghost t = s@.subrange(a as int, b as int);
    if a == b {
        return None;
    }
    let mut acc: u128 = 0;
    let mut i: usize = a;
    while i < b
        invariant
            a <= i <= b <= s@.len(),
            t == s@.subrange(a as int, b as int),
            acc == digits_value(s@.subrange(a as int, i as int)),
            acc <= limit,
            limit <= 0x1_0000_0000_0000_0000,
            forall|j: int| a <= j < i ==> is_digit(#[trigger] s@[j]),
        decreases b - i,
    {
        let c = s[i];
        if c < 48 || c > 57 {
            assert(!is_digit(t[i - a]));
            return None;
        }
        assert(s@.subrange(a as int, i + 1).drop_last() == s@.subrange(a as int, i as int));
        let next: u128 = acc * 10 + (c - 48) as u128;
        if next > limit {
            proof {
                assert(t.subrange(0, i + 1 - a) == s@.subrange(a as int, i + 1));
                lemma_digits_prefix(t, i + 1 - a, t.len() as int);
                assert(t.subrange(0, t.len() as int) == t);
            }
            return None;
        }
        acc = next;
        i = i + 1;
    }
    assert forall|j: int| 0 <= j < t.len() implies is_digit(#[trigger] t[j]) by {
        assert(t[j] == s@[a + j]);
    }
    assert(s@.subrange(a as int, i as int) == t);
    Some(acc)
}

/// Parses the device's reply to a position query: a decimal integer, possibly
/// signed, with white space around it. Anything else, or a number outside `i64`,
/// gives `None`.
pub fn parse_position(reply: &Vec<u8>) -> (r: Option<i64>)
    ensures
        match r {
            Some(v) => reply_value(reply@) == Some(v as int),
            None => reply_value(reply@) is None,
        },
{
    let ghost s = reply@;
    let n = reply.len();
    let mut lo: usize = 0;
    assert(s.subrange(0, n as int) == s);
    while lo < n && byte_is_space(reply[lo])
        invariant
            lo <= n == s.len(),
            s == reply@,
            trim_start(s.subrange(lo as int, n as int)) == trim_start(s),
        decreases n - lo,
    {
        assert(s.subrange(lo as int, n as int).drop_first() == s.subrange(lo + 1, n as int));
        lo = lo + 1;
    }
    assert(trim_start(s) == s.subrange(lo as int, n as int));
    let mut hi: usize = n;
    while hi > lo && byte_is_space(reply[hi - 1])
        invariant
            lo <= hi <= n == s.len(),
            s == reply@,
            trim_end(s.subrange(lo as int, hi as int)) == trim_end(s.subrange(lo as int, n as int)),
        decreases hi - lo,
    {
        assert(s.subrange(lo as int, hi as int).drop_last() == s.subrange(lo as int, hi - 1));
        hi = hi - 1;
    }
    let ghost t = s.subrange(lo as int, hi as int);
    assert(trim_end(trim_start(s)) == t);
    if hi > lo && (reply[lo] == 45 || reply[lo] == 43) {
        assert(t.drop_first() == s.subrange(lo + 1, hi as int));
        let negative = reply[lo] == 45;
        let limit: u128 = if negative {
            0x8000_0000_0000_0000
        } else {
            0x7fff_ffff_ffff_ffff
        };
        match parse_digits(reply, lo + 1, hi, limit) {
            Some(v) => if negative {
                Some((-(v as i128)) as i64)
            } else {
                Some(v as i64)
            },
            None => None,
        }
    } else {
        match parse_digits(reply, lo, hi, 0x7fff_ffff_ffff_ffff) {
            Some(v) => Some(v as i64),
            None => None,
        }
    }
}

} // verus!
