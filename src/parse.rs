use vstd::prelude::*;
use vstd::string::StringSliceAdditionalSpecFns;

verus! {

/// The byte is an ASCII decimal digit.
pub open spec fn is_digit(b: u8) -> bool {
    48 <= b <= 57
}

/// Every byte is an ASCII decimal digit.
pub open spec fn all_digits(d: Seq<u8>) -> bool {
    forall|i: int| 0 <= i < d.len() ==> is_digit(#[trigger] d[i])
}

/// The number that the decimal digits `d` spell, most significant first.
pub open spec fn digits_value(d: Seq<u8>) -> int
    decreases d.len(),
{
    if d.len() == 0 {
        0
    } else {
        digits_value(d.drop_last()) * 10 + (d.last() as int - 48)
    }
}

/// The digits of a number written with an optional leading `+`.
pub open spec fn unsigned_digits(s: Seq<u8>) -> Seq<u8> {
    if s.len() > 0 && s[0] == 43 {
        s.subrange(1, s.len() as int)
    } else {
        s
    }
}

/// The 64-bit unsigned number that the text `s` writes in decimal, with an
/// optional leading `+`; `None` where it writes none, or one too large.
pub open spec fn parsed_u64(s: Seq<u8>) -> Option<u64> {
    let d = unsigned_digits(s);
    if d.len() > 0 && all_digits(d) && digits_value(d) <= u64::MAX {
        Some(digits_value(d) as u64)
    } else {
        None
    }
}

/// A prefix of a run of digits spells at most what the whole run spells.
proof fn lemma_prefix_value_le(d: Seq<u8>, i: int)
    requires
        all_digits(d),
        0 <= i <= d.len(),
    ensures
        0 <= digits_value(d.subrange(0, i)) <= digits_value(d),
    decreases d.len(),
{
    if d.len() == 0 {
        assert(d.subrange(0, i) =~= d);
    } else {
        let p = d.drop_last();
        assert(all_digits(p));
        lemma_prefix_value_le(p, p.len() as int);
        assert(p.subrange(0, p.len() as int) =~= p);
        if i == d.len() {
            assert(d.subrange(0, i) =~= d);
        } else {
            lemma_prefix_value_le(p, i);
            assert(p.subrange(0, i) =~= d.subrange(0, i));
        }
    }
}

/// Reads a 64-bit unsigned number written in decimal, with an optional
/// leading `+`.
pub fn parse_u64(s: &str) -> (r: Option<u64>)
    ensures
        r == parsed_u64(s.spec_bytes()),
{
    let b = s.as_bytes();
    let mut i: usize = 0;
    if b.len() > 0 && b[0] == 43 {
        i = 1;
    }
    let start = i;
    let ghost d = unsigned_digits(b@);
    assert(d =~= b@.subrange(start as int, b@.len() as int));
    if i >= b.len() {
        return None;
    }
    let mut acc: u64 = 0;
    while i < b.len()
        invariant
            start <= i <= b@.len(),
            b@ == s.spec_bytes(),
            d == unsigned_digits(b@),
            d == b@.subrange(start as int, b@.len() as int),
            forall|j: int| start <= j < i ==> is_digit(#[trigger] b@[j]),
            acc as int == digits_value(d.subrange(0, i - start)),
        decreases b@.len() - i,
    {
        let c = b[i];
        if c < 48 || c > 57 {
            assert(!is_digit(d[i - start]));
            return None;
        }
        let digit: u64 = (c - 48) as u64;
        let ghost pre = d.subrange(0, i - start);
        let ghost next = d.subrange(0, i - start + 1);
        assert(next.drop_last() =~= pre);
        if acc > (u64::MAX - digit) / 10 {
            assert(digits_value(next) > u64::MAX) by (nonlinear_arith)
                requires
                    digits_value(next) == acc * 10 + digit,
                    acc > (u64::MAX - digit) / 10,
                    digit <= 9,
            ;
            proof {
                if all_digits(d) {
                    lemma_prefix_value_le(d, i - start + 1);
                }
            }
            return None;
        }
        assert(acc * 10 + digit <= u64::MAX) by (nonlinear_arith)
            requires
                acc <= (u64::MAX - digit) / 10,
                digit <= 9,
        ;
        acc = acc * 10 + digit;
        i = i + 1;
    }
    assert(d.subrange(0, d.len() as int) =~= d);
    assert(all_digits(d));
    Some(acc)
}

/// The priority fee written in `s`, or zero where `s` writes no number.
pub fn parse_priority_fee(s: &str) -> (r: u64)
    ensures
        r == match parsed_u64(s.spec_bytes()) {
            Some(v) => v,
            None => 0,
        },
{
    match parse_u64(s) {
        Some(v) => v,
        None => 0,
    }
}

} // verus!
