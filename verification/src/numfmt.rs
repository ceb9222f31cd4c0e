//! Verified decimal rendering of integers and fixed-point values.
//!
//! The markup backend and the textual path encoding print raw
//! fixed-point values as exact decimals: sixteen fractional digits cover
//! one raw step, and trailing zeros are dropped.

use vstd::prelude::*;

verus! {

/// The decimal digit character of a value below ten.
pub open spec fn digit_char(d: int) -> char {
    if d == 0 { '0' }
    else if d == 1 { '1' }
    else if d == 2 { '2' }
    else if d == 3 { '3' }
    else if d == 4 { '4' }
    else if d == 5 { '5' }
    else if d == 6 { '6' }
    else if d == 7 { '7' }
    else if d == 8 { '8' }
    else { '9' }
}

/// The decimal digits of a non-negative value, most significant first.
pub open spec fn dec_digits(n: int) -> Seq<char>
    decreases n,
{
    if n < 10 {
        seq![digit_char(n)]
    } else {
        dec_digits(n / 10).push(digit_char(n % 10))
    }
}

/// The decimal rendering of a signed value.
pub open spec fn dec_int(n: int) -> Seq<char> {
    if n < 0 {
        seq!['-'] + dec_digits(-n)
    } else {
        dec_digits(n)
    }
}

/// The decimal digits of a non-negative value padded with leading zeros
/// to the given width.
pub open spec fn dec_pad(n: int, w: int) -> Seq<char>
    decreases w,
{
    if w <= 0 {
        Seq::<char>::empty()
    } else {
        dec_pad(n / 10, w - 1).push(digit_char(n % 10))
    }
}

/// The fraction digits with their trailing zeros dropped: the reduced
/// value and the digits that remain, at least one.
pub open spec fn frac_reduced(fs: int, w: int) -> (int, int)
    decreases w,
{
    if w > 1 && fs % 10 == 0 {
        frac_reduced(fs / 10, w - 1)
    } else {
        (fs, w)
    }
}

/// One raw fractional step, in units of one ten-quadrillionth: sixteen
/// decimal digits render a sixteen-bit binary fraction exactly.
pub const FRAC_SCALE: u64 = 152587890625;

/// The exact decimal text of a raw fixed-point value: the sign, the whole
/// units, and — for a fractional value — a point and the fraction's
/// decimal digits with trailing zeros dropped.
pub open spec fn fx_text(raw: int) -> Seq<char> {
    let sign: Seq<char> = if raw < 0 { seq!['-'] } else { Seq::<char>::empty() };
    let m = if raw < 0 { -raw } else { raw };
    let units = m / 65536;
    let frac = m % 65536;
    if frac == 0 {
        sign + dec_digits(units)
    } else {
        let fs = frac * (FRAC_SCALE as int);
        let red = frac_reduced(fs, 16);
        sign + dec_digits(units) + seq!['.'] + dec_pad(red.0, red.1)
    }
}

fn digit_str(d: u64) -> (r: String)
    requires
        d < 10,
    ensures
        r@ == seq![digit_char(d as int)],
{
    let s = if d == 0 { "0" }
        else if d == 1 { "1" }
        else if d == 2 { "2" }
        else if d == 3 { "3" }
        else if d == 4 { "4" }
        else if d == 5 { "5" }
        else if d == 6 { "6" }
        else if d == 7 { "7" }
        else if d == 8 { "8" }
        else { "9" };
    proof {
        reveal_strlit("0");
        reveal_strlit("1");
        reveal_strlit("2");
        reveal_strlit("3");
        reveal_strlit("4");
        reveal_strlit("5");
        reveal_strlit("6");
        reveal_strlit("7");
        reveal_strlit("8");
        reveal_strlit("9");
        assert("0"@ =~= seq!['0']);
        assert("1"@ =~= seq!['1']);
        assert("2"@ =~= seq!['2']);
        assert("3"@ =~= seq!['3']);
        assert("4"@ =~= seq!['4']);
        assert("5"@ =~= seq!['5']);
        assert("6"@ =~= seq!['6']);
        assert("7"@ =~= seq!['7']);
        assert("8"@ =~= seq!['8']);
        assert("9"@ =~= seq!['9']);
    }
    s.to_owned()
}

/// Renders a value in decimal.
pub fn u64_to_dec(n: u64) -> (r: String)
    ensures
        r@ == dec_digits(n as int),
    decreases n,
{
    if n < 10 {
        digit_str(n)
    } else {
        let mut s = u64_to_dec(n / 10);
        let d = digit_str(n % 10);
        s.append(d.as_str());
        proof {
            assert(dec_digits(n as int / 10) + seq![digit_char(n as int % 10)]
                =~= dec_digits(n as int / 10).push(digit_char(n as int % 10)));
        }
        s
    }
}

/// Renders a signed value in decimal.
pub fn i64_to_dec(n: i64) -> (r: String)
    ensures
        r@ == dec_int(n as int),
{
    if n >= 0 {
        u64_to_dec(n as u64)
    } else {
        let m: u64 = (-(n as i128)) as u64;
        let mut s = "-".to_owned();
        let d = u64_to_dec(m);
        s.append(d.as_str());
        proof {
            reveal_strlit("-");
            assert("-"@ =~= seq!['-']);
        }
        s
    }
}

fn u64_to_dec_pad(n: u64, w: u64) -> (r: String)
    ensures
        r@ == dec_pad(n as int, w as int),
    decreases w,
{
    if w == 0 {
        proof {
            reveal_strlit("");
            assert(""@ =~= Seq::<char>::empty());
        }
        "".to_owned()
    } else {
        let mut s = u64_to_dec_pad(n / 10, w - 1);
        let d = digit_str(n % 10);
        s.append(d.as_str());
        proof {
            assert(dec_pad(n as int / 10, w as int - 1) + seq![digit_char(n as int % 10)]
                =~= dec_pad(n as int / 10, w as int - 1).push(digit_char(n as int % 10)));
        }
        s
    }
}

/// Renders a raw fixed-point value as an exact decimal.
pub fn fx_to_dec(raw: i64) -> (r: String)
    ensures
        r@ == fx_text(raw as int),
{
    let m: u64 = if raw < 0 { (-(raw as i128)) as u64 } else { raw as u64 };
    let units: u64 = m / 65536;
    let frac: u64 = m % 65536;
    let mut s = if raw < 0 {
        proof {
            reveal_strlit("-");
            assert("-"@ =~= seq!['-']);
        }
        "-".to_owned()
    } else {
        proof {
            reveal_strlit("");
            assert(""@ =~= Seq::<char>::empty());
        }
        "".to_owned()
    };
    let u = u64_to_dec(units);
    s.append(u.as_str());
    if frac == 0 {
        return s;
    }
    let mut fs: u64 = frac * FRAC_SCALE;
    let mut w: u64 = 16;
    let ghost fs0 = fs as int;
    while w > 1 && fs % 10 == 0
        invariant
            1 <= w <= 16,
            frac_reduced(fs0, 16) == frac_reduced(fs as int, w as int),
        decreases w,
    {
        fs = fs / 10;
        w = w - 1;
    }
    proof {
        assert(frac_reduced(fs as int, w as int) == (fs as int, w as int));
    }
    s.append(".");
    let f = u64_to_dec_pad(fs, w);
    s.append(f.as_str());
    proof {
        reveal_strlit(".");
        assert("."@ =~= seq!['.']);
    }
    s
}


/// One 256th, in units of one hundred-millionth: eight decimal digits
/// render an eight-bit binary fraction exactly.
pub const FRAC256_SCALE: u64 = 390625;

/// The exact decimal text of `a / 256` for an 8-bit value: `0` for zero,
/// else `0.` and the fraction digits with trailing zeros dropped.
pub open spec fn frac256_text(a: int) -> Seq<char> {
    if a == 0 {
        seq!['0']
    } else {
        let fs = a * (FRAC256_SCALE as int);
        let red = frac_reduced(fs, 8);
        seq!['0', '.'] + dec_pad(red.0, red.1)
    }
}

/// Renders `a / 256` as an exact decimal.
pub fn u8_frac256_to_dec(a: u8) -> (r: String)
    ensures
        r@ == frac256_text(a as int),
{
    if a == 0 {
        proof {
            reveal_strlit("0");
            assert("0"@ =~= seq!['0']);
        }
        return "0".to_owned();
    }
    let mut fs: u64 = (a as u64) * FRAC256_SCALE;
    let mut w: u64 = 8;
    let ghost fs0 = fs as int;
    while w > 1 && fs % 10 == 0
        invariant
            1 <= w <= 8,
            frac_reduced(fs0, 8) == frac_reduced(fs as int, w as int),
        decreases w,
    {
        fs = fs / 10;
        w = w - 1;
    }
    proof {
        assert(frac_reduced(fs as int, w as int) == (fs as int, w as int));
        reveal_strlit("0.");
        assert("0."@ =~= seq!['0', '.']);
    }
    let mut s = "0.".to_owned();
    let f = u64_to_dec_pad(fs, w);
    s.append(f.as_str());
    s
}

} // verus!
