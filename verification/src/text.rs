//! Decimal and hexadecimal text formatting with exact character-level
//! contracts.  All metric values are fixed-point integers in thousandths
//! ("milli" values); `format_milli` is the one numeric formatting the
//! exposition format uses.

use vstd::prelude::*;

verus! {

/// The character for one decimal digit.
pub open spec fn digit_char(d: int) -> char {
    if d == 0 {
        '0'
    } else if d == 1 {
        '1'
    } else if d == 2 {
        '2'
    } else if d == 3 {
        '3'
    } else if d == 4 {
        '4'
    } else if d == 5 {
        '5'
    } else if d == 6 {
        '6'
    } else if d == 7 {
        '7'
    } else if d == 8 {
        '8'
    } else {
        '9'
    }
}

/// Decimal digits of a natural number, most significant first.
pub open spec fn spec_dec_nat(n: nat) -> Seq<char>
    decreases n,
{
    if n < 10 {
        seq![digit_char(n as int)]
    } else {
        spec_dec_nat(n / 10) + seq![digit_char((n % 10) as int)]
    }
}

/// Decimal rendering of a signed integer: a minus sign for negative values,
/// then the digits of the magnitude.
pub open spec fn spec_dec_int(v: int) -> Seq<char> {
    if v < 0 {
        seq!['-'] + spec_dec_nat((-v) as nat)
    } else {
        spec_dec_nat(v as nat)
    }
}

/// The fractional digits of a milli value, given `f = |v| % 1000` with
/// `1 <= f <= 999`: three digits with trailing zeros trimmed.
pub open spec fn spec_frac_digits(f: int) -> Seq<char> {
    let d1 = digit_char(f / 100);
    let d2 = digit_char((f / 10) % 10);
    let d3 = digit_char(f % 10);
    if f % 10 != 0 {
        seq![d1, d2, d3]
    } else if (f / 10) % 10 != 0 {
        seq![d1, d2]
    } else {
        seq![d1]
    }
}

/// Decimal rendering of a fixed-point milli value: sign, integer part, and,
/// when the fractional part is nonzero, a point followed by the trimmed
/// fractional digits.  `21500` renders as `21.5`, `12000` as `12`,
/// `-45` as `-0.045`.
pub open spec fn spec_milli(v: int) -> Seq<char> {
    let m = if v < 0 {
        -v
    } else {
        v
    };
    let sign = if v < 0 {
        seq!['-']
    } else {
        Seq::<char>::empty()
    };
    if m % 1000 == 0 {
        sign + spec_dec_nat((m / 1000) as nat)
    } else {
        sign + spec_dec_nat((m / 1000) as nat) + seq!['.'] + spec_frac_digits(m % 1000)
    }
}

/// The character for one hexadecimal digit.
pub open spec fn hex_char(d: int) -> char {
    if d < 10 {
        digit_char(d)
    } else if d == 10 {
        'a'
    } else if d == 11 {
        'b'
    } else if d == 12 {
        'c'
    } else if d == 13 {
        'd'
    } else if d == 14 {
        'e'
    } else {
        'f'
    }
}

/// Two hexadecimal digits of a byte, high nibble first.
pub open spec fn spec_hex_byte(b: int) -> Seq<char> {
    seq![hex_char(b / 16), hex_char(b % 16)]
}

/// One decimal digit as a string slice.
fn digit_str(d: u64) -> (r: &'static str)
    requires
        d < 10,
    ensures
        r@ == seq![digit_char(d as int)],
{
    proof {
        reveal_strlit("0");
        reveal_strlit("1");
        reveal_strlit("2");
        reveal_strlit("3");
        reveal_strlit("4");
        reveal_strlit("5");
        reveal_strlit("6");
        reveal_strlit("7");
        reveal_strlit("8");
        reveal_strlit("9");
    }
    let r: &'static str = if d == 0 {
        "0"
    } else if d == 1 {
        "1"
    } else if d == 2 {
        "2"
    } else if d == 3 {
        "3"
    } else if d == 4 {
        "4"
    } else if d == 5 {
        "5"
    } else if d == 6 {
        "6"
    } else if d == 7 {
        "7"
    } else if d == 8 {
        "8"
    } else {
        "9"
    };
    proof {
        assert(r@ =~= seq![digit_char(d as int)]);
    }
    r
}

/// Decimal rendering of an unsigned integer.
pub fn format_u128(n: u128) -> (r: String)
    ensures
        r@ == spec_dec_nat(n as nat),
    decreases n,
{
    if n < 10 {
        String::from_str(digit_str(n as u64))
    } else {
        let mut s = format_u128(n / 10);
        s.append(digit_str((n % 10) as u64));
        proof {
            assert(s@ =~= spec_dec_nat(n as nat));
        }
        s
    }
}

/// Decimal rendering of an unsigned integer.
pub fn format_u64(n: u64) -> (r: String)
    ensures
        r@ == spec_dec_nat(n as nat),
{
    format_u128(n as u128)
}

/// Decimal rendering of a signed integer.
pub fn format_i64(v: i64) -> (r: String)
    ensures
        r@ == spec_dec_int(v as int),
{
    if v < 0 {
        let m: u64 = ((-(v as i128)) as u64);
        let mut s = String::from_str("-");
        s.append(format_u64(m).as_str());
        proof {
            reveal_strlit("-");
            assert(s@ =~= spec_dec_int(v as int));
        }
        s
    } else {
        format_u64(v as u64)
    }
}

/// The trimmed fractional digits of a milli value.
fn frac_digits(f: u64) -> (r: String)
    requires
        1 <= f <= 999,
    ensures
        r@ == spec_frac_digits(f as int),
{
    let d1: u64 = f / 100;
    let d2: u64 = (f / 10) % 10;
    let d3: u64 = f % 10;
    let mut s = String::from_str(digit_str(d1));
    if d3 != 0 {
        s.append(digit_str(d2));
        s.append(digit_str(d3));
    } else if d2 != 0 {
        s.append(digit_str(d2));
    }
    proof {
        assert(s@ =~= spec_frac_digits(f as int));
    }
    s
}

/// Fixed-point decimal rendering of a milli value; the one numeric
/// formatting used in the exposition format.
pub fn format_milli(v: i64) -> (r: String)
    ensures
        r@ == spec_milli(v as int),
{
    format_milli_wide(v as i128)
}

/// Fixed-point decimal rendering of a wide milli value, as accumulated
/// sums use; the magnitude must be representable.
pub fn format_milli_wide(v: i128) -> (r: String)
    requires
        v > i128::MIN,
    ensures
        r@ == spec_milli(v as int),
{
    let m: u128 = if v < 0 {
        (-v) as u128
    } else {
        v as u128
    };
    let mut s = if v < 0 {
        String::from_str("-")
    } else {
        String::new()
    };
    proof {
        reveal_strlit("-");
    }
    let whole: u128 = m / 1000;
    let frac: u64 = (m % 1000) as u64;
    s.append(format_u128(whole).as_str());
    if frac != 0 {
        s.append(".");
        s.append(frac_digits(frac).as_str());
        proof {
            reveal_strlit(".");
            assert(s@ =~= spec_milli(v as int));
        }
    } else {
        proof {
            assert(s@ =~= spec_milli(v as int));
        }
    }
    s
}

/// One hexadecimal digit as a string slice.
fn hex_digit_str(d: u8) -> (r: &'static str)
    requires
        d < 16,
    ensures
        r@ == seq![hex_char(d as int)],
{
    if d < 10 {
        digit_str(d as u64)
    } else {
        proof {
            reveal_strlit("a");
            reveal_strlit("b");
            reveal_strlit("c");
            reveal_strlit("d");
            reveal_strlit("e");
            reveal_strlit("f");
        }
        let r: &'static str = if d == 10 {
            "a"
        } else if d == 11 {
            "b"
        } else if d == 12 {
            "c"
        } else if d == 13 {
            "d"
        } else if d == 14 {
            "e"
        } else {
            "f"
        };
        proof {
            assert(r@ =~= seq![hex_char(d as int)]);
        }
        r
    }
}

/// Two lowercase hexadecimal digits of a byte, high nibble first.
pub fn format_hex_byte(b: u8) -> (r: String)
    ensures
        r@ == spec_hex_byte(b as int),
{
    let mut s = String::from_str(hex_digit_str(b / 16));
    s.append(hex_digit_str(b % 16));
    proof {
        assert(s@ =~= spec_hex_byte(b as int));
    }
    s
}

/// The DHCP hostname derived from the flash unique id: a fixed prefix and
/// the last four id bytes in hexadecimal.
pub open spec fn spec_unique_hostname(uid: Seq<u8>) -> Seq<char> {
    "pico-climate-"@ + spec_hex_byte(uid[4] as int) + spec_hex_byte(uid[5] as int) + spec_hex_byte(
        uid[6] as int,
    ) + spec_hex_byte(uid[7] as int)
}

/// The DHCP hostname derived from the flash unique id.
pub fn unique_hostname(uid: &[u8; 8]) -> (r: String)
    ensures
        r@ == spec_unique_hostname(uid@),
{
    let mut s = String::from_str("pico-climate-");
    s.append(format_hex_byte(uid[4]).as_str());
    s.append(format_hex_byte(uid[5]).as_str());
    s.append(format_hex_byte(uid[6]).as_str());
    s.append(format_hex_byte(uid[7]).as_str());
    proof {
        assert(s@ =~= spec_unique_hostname(uid@));
    }
    s
}

} // verus!
