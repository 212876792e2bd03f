//! Rendering of numbers as text, over `Seq<char>` models.

use vstd::prelude::*;

verus! {

/// The lowercase digit that stands for `d` in any base up to sixteen.
pub open spec fn digit_char(d: int) -> char {
    if d == 0 {
        '0'
    } else if d == 1 {
        '1'
    } else if d == 2 {
        '2'
    } else if d == 3 {
        '3'
    } else if d == 4 {
        '4'
    } else if d == 5 {
        '5'
    } else if d == 6 {
        '6'
    } else if d == 7 {
        '7'
    } else if d == 8 {
        '8'
    } else if d == 9 {
        '9'
    } else if d == 10 {
        'a'
    } else if d == 11 {
        'b'
    } else if d == 12 {
        'c'
    } else if d == 13 {
        'd'
    } else if d == 14 {
        'e'
    } else {
        'f'
    }
}

/// Whether `c` is one of `0`..`9`, `a`..`f`.
pub open spec fn is_lower_hex(c: char) -> bool {
    exists|d: int| 0 <= d < 16 && c == #[trigger] digit_char(d)
}

/// Decimal numeral of `n`, without sign or leading zeros.
pub open spec fn decimal(n: nat) -> Seq<char>
    decreases n,
{
    if n < 10 {
        seq![digit_char(n as int)]
    } else {
        decimal(n / 10).push(digit_char((n % 10) as int))
    }
}

/// Decimal numeral of `n`, with a leading `-` below zero.
pub open spec fn signed_decimal(n: int) -> Seq<char> {
    if n < 0 {
        seq!['-'] + decimal((-n) as nat)
    } else {
        decimal(n as nat)
    }
}

/// The lowest `width` hexadecimal digits of `v`, most significant first.
pub open spec fn hex_digits(v: nat, width: nat) -> Seq<char>
    decreases width,
{
    if width == 0 {
        Seq::empty()
    } else {
        hex_digits(v / 16, (width - 1) as nat).push(digit_char((v % 16) as int))
    }
}

/// What is left of `v` above its lowest `width` hexadecimal digits.
pub open spec fn above_digits(v: nat, width: nat) -> nat
    decreases width,
{
    if width == 0 {
        v
    } else {
        above_digits(v / 16, (width - 1) as nat)
    }
}

/// The one-character text of a digit below sixteen.
pub fn digit_str(d: u8) -> (r: &'static str)
    requires
        d < 16,
    ensures
        r@ == seq![digit_char(d as int)],
{
    proof {
        reveal_strlit("0");
        reveal_strlit("1");
        reveal_strlit("2");
        reveal_strlit("3");
        reveal_strlit("4");
        reveal_strlit("5");
        reveal_strlit("6");
        reveal_strlit("7");
        reveal_strlit("8");
        reveal_strlit("9");
        reveal_strlit("a");
        reveal_strlit("b");
        reveal_strlit("c");
        reveal_strlit("d");
        reveal_strlit("e");
        reveal_strlit("f");
    }
    let r = match d {
        0 => "0",
        1 => "1",
        2 => "2",
        3 => "3",
        4 => "4",
        5 => "5",
        6 => "6",
        7 => "7",
        8 => "8",
        9 => "9",
        10 => "a",
        11 => "b",
        12 => "c",
        13 => "d",
        14 => "e",
        _ => "f",
    };
    assert(r@ =~= seq![digit_char(d as int)]);
    r
}

/// Appends the decimal numeral of `n` to `out`.
pub fn push_decimal(out: &mut String, n: u64)
    ensures
        final(out)@ == old(out)@ + decimal(n as nat),
    decreases n,
{
    if n < 10 {
        out.append(digit_str(n as u8));
    } else {
        push_decimal(out, n / 10);
        out.append(digit_str((n % 10) as u8));
        assert(out@ =~= old(out)@ + decimal(n as nat));
    }
}

/// Appends the decimal numeral of `n`, signed, to `out`.
pub fn push_signed_decimal(out: &mut String, n: i32)
    ensures
        final(out)@ == old(out)@ + signed_decimal(n as int),
{
    if n < 0 {
        proof {
            reveal_strlit("-");
        }
        out.append("-");
        let m: i64 = -(n as i64);
        push_decimal(out, m as u64);
        assert(out@ =~= old(out)@ + signed_decimal(n as int));
    } else {
        push_decimal(out, n as u64);
    }
}

/// Appends the lowest `width` hexadecimal digits of `v` to `out`.
pub fn push_hex(out: &mut String, v: u128, width: u32)
    ensures
        final(out)@ == old(out)@ + hex_digits(v as nat, width as nat),
    decreases width,
{
    if width > 0 {
        push_hex(out, v / 16, width - 1);
        out.append(digit_str((v % 16) as u8));
        assert(out@ =~= old(out)@ + hex_digits(v as nat, width as nat));
    } else {
        assert(out@ =~= old(out)@ + hex_digits(v as nat, width as nat));
    }
}

/// A hexadecimal rendering has exactly as many characters as asked for,
/// each of them a lowercase hexadecimal digit.
pub proof fn lemma_hex_digits_shape(v: nat, width: nat)
    ensures
        hex_digits(v, width).len() == width,
        forall|i: int| 0 <= i < width ==> is_lower_hex(#[trigger] hex_digits(v, width)[i]),
    decreases width,
{
    if width > 0 {
        lemma_hex_digits_shape(v / 16, (width - 1) as nat);
        let prefix = hex_digits(v / 16, (width - 1) as nat);
        let last = digit_char((v % 16) as int);
        assert(is_lower_hex(last));
        assert forall|i: int| 0 <= i < width implies is_lower_hex(
            #[trigger] hex_digits(v, width)[i],
        ) by {
            if i < width - 1 {
                assert(hex_digits(v, width)[i] == prefix[i]);
            }
        }
    }
}

/// Two numbers with the same digits below `width`, and the same rest above
/// them, are the same number.
pub proof fn lemma_hex_digits_injective(a: nat, b: nat, width: nat)
    requires
        hex_digits(a, width) == hex_digits(b, width),
        above_digits(a, width) == above_digits(b, width),
    ensures
        a == b,
    decreases width,
{
    if width > 0 {
        let w = (width - 1) as nat;
        let pa = hex_digits(a / 16, w);
        let pb = hex_digits(b / 16, w);
        let da = digit_char((a % 16) as int);
        let db = digit_char((b % 16) as int);
        lemma_hex_digits_shape(a / 16, w);
        lemma_hex_digits_shape(b / 16, w);
        assert(pa.push(da) == pb.push(db));
        assert(pa.push(da)[w as int] == da);
        assert(pb.push(db)[w as int] == db);
        assert(pa =~= pa.push(da).drop_last());
        assert(pb =~= pb.push(db).drop_last());
        lemma_hex_digits_injective(a / 16, b / 16, w);
        assert(a % 16 == b % 16);
    }
}

} // verus!
