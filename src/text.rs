//! Decimal and hexadecimal rendering of integers, stated over character
//! sequences and proved against those statements.
use vstd::prelude::*;

verus! {

/// The single character that writes the digit `d` (base 16, lower case).
pub open spec fn digit_text(d: nat) -> Seq<char> {
    if d == 0 {
        "0"@
    } else if d == 1 {
        "1"@
    } else if d == 2 {
        "2"@
    } else if d == 3 {
        "3"@
    } else if d == 4 {
        "4"@
    } else if d == 5 {
        "5"@
    } else if d == 6 {
        "6"@
    } else if d == 7 {
        "7"@
    } else if d == 8 {
        "8"@
    } else if d == 9 {
        "9"@
    } else if d == 10 {
        "a"@
    } else if d == 11 {
        "b"@
    } else if d == 12 {
        "c"@
    } else if d == 13 {
        "d"@
    } else if d == 14 {
        "e"@
    } else {
        "f"@
    }
}

/// `n` written in decimal, without leading zeros.
pub open spec fn decimal(n: nat) -> Seq<char>
    decreases n,
{
    if n < 10 {
        digit_text(n)
    } else {
        decimal(n / 10) + digit_text(n % 10)
    }
}

/// A byte written as two lower-case hexadecimal digits.
pub open spec fn hex_byte(b: u8) -> Seq<char> {
    digit_text((b / 16) as nat) + digit_text((b % 16) as nat)
}

/// The bytes as two-digit hex numbers separated by `", "`.
pub open spec fn hex_items(s: Seq<u8>) -> Seq<char>
    decreases s.len(),
{
    if s.len() == 0 {
        Seq::empty()
    } else if s.len() == 1 {
        hex_byte(s[0])
    } else {
        hex_items(s.drop_last()) + ", "@ + hex_byte(s.last())
    }
}

/// The bytes as a bracketed list of two-digit hex numbers: `[01, 0a, ff]`.
pub open spec fn hex_list(s: Seq<u8>) -> Seq<char> {
    "["@ + hex_items(s) + "]"@
}

/// Appends the digit `d` (below 16).
pub fn push_digit(s: &mut String, d: u64)
    requires
        d < 16,
    ensures
        final(s)@ == old(s)@ + digit_text(d as nat),
{
    let t: &str = if d == 0 {
        "0"
    } else if d == 1 {
        "1"
    } else if d == 2 {
        "2"
    } else if d == 3 {
        "3"
    } else if d == 4 {
        "4"
    } else if d == 5 {
        "5"
    } else if d == 6 {
        "6"
    } else if d == 7 {
        "7"
    } else if d == 8 {
        "8"
    } else if d == 9 {
        "9"
    } else if d == 10 {
        "a"
    } else if d == 11 {
        "b"
    } else if d == 12 {
        "c"
    } else if d == 13 {
        "d"
    } else if d == 14 {
        "e"
    } else {
        "f"
    };
    s.append(t);
}

/// Appends `n` in decimal.
pub fn push_decimal(s: &mut String, n: u64)
    ensures
        final(s)@ == old(s)@ + decimal(n as nat),
    decreases n,
{
    if n >= 10 {
        push_decimal(s, n / 10);
        push_digit(s, n % 10);
        assert(final(s)@ =~= old(s)@ + decimal(n as nat));
    } else {
        push_digit(s, n);
    }
}

/// Appends one byte as two hex digits.
pub fn push_hex_byte(s: &mut String, b: u8)
    ensures
        final(s)@ == old(s)@ + hex_byte(b),
{
    push_digit(s, (b / 16) as u64);
    push_digit(s, (b % 16) as u64);
    assert(final(s)@ =~= old(s)@ + hex_byte(b));
}

/// The first `end` bytes as a bracketed list of two-digit hex numbers.
pub fn hex_list_string(data: &[u8], end: usize) -> (r: String)
    requires
        end <= data@.len(),
    ensures
        r@ == hex_list(data@.subrange(0, end as int)),
{
    let mut s = String::new();
    s.append("[");
    let mut i: usize = 0;
    while i < end
        invariant
            end <= data@.len(),
            i <= end,
            s@ == "["@ + hex_items(data@.subrange(0, i as int)),
        decreases end - i,
    {
        if i > 0 {
            s.append(", ");
        }
        push_hex_byte(&mut s, data[i]);
        proof {
            let next = data@.subrange(0, i + 1);
            assert(next.drop_last() =~= data@.subrange(0, i as int));
            assert(next.last() == data@[i as int]);
            if i == 0 {
                assert(hex_items(data@.subrange(0, 0)) =~= Seq::<char>::empty());
            }
        }
        i = i + 1;
    }
    s.append("]");
    s
}

} // verus!
