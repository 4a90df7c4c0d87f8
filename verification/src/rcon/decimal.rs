//! Decimal text: how numbers are spelled in messages and addresses, and how the
//! unsigned numbers of the configuration are read.

use vstd::prelude::*;
use vstd::string::*;

verus! {

/// The character of one decimal digit.
pub open spec fn digit_char(d: int) -> char {
    if d == 0 {
        '0'
    } else if d == 1 {
        '1'
    } else if d == 2 {
        '2'
    } else if d == 3 {
        '3'
    } else if d == 4 {
        '4'
    } else if d == 5 {
        '5'
    } else if d == 6 {
        '6'
    } else if d == 7 {
        '7'
    } else if d == 8 {
        '8'
    } else {
        '9'
    }
}

/// A natural number in decimal, without leading zeros.
pub open spec fn decimal_nat(n: nat) -> Seq<char>
    decreases n,
{
    if n < 10 {
        seq![digit_char(n as int)]
    } else {
        decimal_nat(n / 10).push(digit_char((n % 10) as int))
    }
}

/// An integer in decimal, with a minus sign in front of a negative one.
pub open spec fn decimal(v: int) -> Seq<char> {
    if v < 0 {
        seq!['-'] + decimal_nat((-v) as nat)
    } else {
        decimal_nat(v as nat)
    }
}

fn digit_text(d: u64) -> (text: &'static str)
    requires
        d < 10,
    ensures
        text@ == seq![digit_char(d as int)],
{
    proof {
        reveal_strlit("0");
        reveal_strlit("1");
        reveal_strlit("2");
        reveal_strlit("3");
        reveal_strlit("4");
        reveal_strlit("5");
        reveal_strlit("6");
        reveal_strlit("7");
        reveal_strlit("8");
        reveal_strlit("9");
    }
    let text: &'static str = if d == 0 {
        "0"
    } else if d == 1 {
        "1"
    } else if d == 2 {
        "2"
    } else if d == 3 {
        "3"
    } else if d == 4 {
        "4"
    } else if d == 5 {
        "5"
    } else if d == 6 {
        "6"
    } else if d == 7 {
        "7"
    } else if d == 8 {
        "8"
    } else {
        "9"
    };
    assert(text@ =~= seq![digit_char(d as int)]);
    text
}

/// Spells an unsigned number in decimal.
pub fn u64_to_decimal(v: u64) -> (text: String)
    ensures
        text@ == decimal_nat(v as nat),
    decreases v,
{
    if v < 10 {
        String::from_str(digit_text(v))
    } else {
        let mut text: String = u64_to_decimal(v / 10);
        text.append(digit_text(v % 10));
        text
    }
}

/// Spells a signed 32-bit number in decimal.
pub fn i32_to_decimal(v: i32) -> (text: String)
    ensures
        text@ == decimal(v as int),
{
    if v < 0 {
        let magnitude: u64 = (-(v as i64)) as u64;
        let digits: String = u64_to_decimal(magnitude);
        proof {
            reveal_strlit("-");
        }
        let mut text: String = String::from_str("-");
        text.append(digits.as_str());
        assert(text@ =~= decimal(v as int));
        text
    } else {
        u64_to_decimal(v as u64)
    }
}

/// Whether `b` is an ASCII decimal digit.
pub open spec fn is_digit(b: u8) -> bool {
    48 <= b <= 57
}

/// Whether every byte of `ds` is an ASCII decimal digit.
pub open spec fn all_digits(ds: Seq<u8>) -> bool {
    forall|i: int| 0 <= i < ds.len() ==> is_digit(#[trigger] ds[i])
}

/// The number that the digits `ds` spell, most significant first.
pub open spec fn digits_value(ds: Seq<u8>) -> nat
    decreases ds.len(),
{
    if ds.len() == 0 {
        0
    } else {
        digits_value(ds.drop_last()) * 10 + (ds.last() - 48) as nat
    }
}

/// The part of `text` that must be digits: all of it but one leading `+`
/// that something follows.
pub open spec fn unsigned_digits(text: Seq<u8>) -> Seq<u8> {
    if text.len() > 1 && text[0] == 43 {
        text.subrange(1, text.len() as int)
    } else {
        text
    }
}

/// The number that `text` spells, if it is an optional `+` followed by one or
/// more decimal digits whose value is at most `max`.
pub open spec fn parse_unsigned(text: Seq<u8>, max: nat) -> Option<nat> {
    let ds = unsigned_digits(text);
    if ds.len() > 0 && all_digits(ds) && digits_value(ds) <= max {
        Some(digits_value(ds))
    } else {
        None
    }
}

/// A run of digits spells at least what any of its prefixes spells.
pub proof fn lemma_prefix_value(ds: Seq<u8>, k: int)
    requires
        all_digits(ds),
        0 <= k <= ds.len(),
    ensures
        digits_value(ds.subrange(0, k)) <= digits_value(ds),
    decreases ds.len() - k,
{
    if k == ds.len() {
        assert(ds.subrange(0, k) =~= ds);
    } else {
        let shorter = ds.drop_last();
        assert(shorter.subrange(0, k) =~= ds.subrange(0, k));
        assert(all_digits(shorter)) by {
            assert forall|i: int| 0 <= i < shorter.len() implies is_digit(#[trigger] shorter[i]) by {
                assert(shorter[i] == ds[i]);
            }
        }
        lemma_prefix_value(shorter, k);
        assert(is_digit(ds[ds.len() - 1]));
    }
}

/// Reads an unsigned 64-bit number as `str::parse` does: an optional `+`, then
/// only decimal digits, at least one, and no overflow.
pub fn parse_u64(text: &str) -> (r: Option<u64>)
    ensures
        match parse_unsigned(text.spec_bytes(), u64::MAX as nat) {
            Some(v) => r == Some(v as u64),
            None => r is None,
        },
{
    let bytes: &[u8] = text.as_bytes();
    let n: usize = bytes.len();
    let start: usize = if n > 1 && bytes[0] == 43 {
        1
    } else {
        0
    };
    let ghost ds = unsigned_digits(bytes@);
    assert(ds =~= bytes@.subrange(start as int, n as int));
    if n == 0 {
        return None;
    }
    let mut value: u64 = 0;
    let mut i: usize = start;
    assert(ds.subrange(0, 0) =~= Seq::<u8>::empty());
    while i < n
        invariant
            start <= i <= n,
            n == bytes@.len(),
            ds == bytes@.subrange(start as int, n as int),
            ds == unsigned_digits(text.spec_bytes()),
            all_digits(ds.subrange(0, i - start)),
            value == digits_value(ds.subrange(0, i - start)),
        decreases n - i,
    {
        let b: u8 = bytes[i];
        let ghost seen = ds.subrange(0, i - start);
        let ghost more = ds.subrange(0, i - start + 1);
        assert(more.drop_last() =~= seen);
        assert(more.last() == b);
        if b < 48 || b > 57 {
            assert(!is_digit(ds[i - start]));
            return None;
        }
        assert(all_digits(more)) by {
            assert forall|j: int| 0 <= j < more.len() implies is_digit(#[trigger] more[j]) by {
                if j < seen.len() {
                    assert(more[j] == seen[j]);
                }
            }
        }
        let d: u64 = (b - 48) as u64;
        if value > (u64::MAX - d) / 10 {
            proof {
                if all_digits(ds) {
                    lemma_prefix_value(ds, i - start + 1);
                }
            }
            return None;
        }
        value = value * 10 + d;
        i = i + 1;
    }
    assert(ds.subrange(0, i - start) =~= ds);
    Some(value)
}

/// Reads an unsigned 16-bit number as `str::parse` does.
pub fn parse_u16(text: &str) -> (r: Option<u16>)
    ensures
        match parse_unsigned(text.spec_bytes(), u16::MAX as nat) {
            Some(v) => r == Some(v as u16),
            None => r is None,
        },
{
    match parse_u64(text) {
        Some(v) => if v <= 0xffff {
            Some(v as u16)
        } else {
            None
        },
        None => None,
    }
}

} // verus!
