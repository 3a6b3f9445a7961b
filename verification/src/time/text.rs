//! The text by which a time span is shown: whole seconds, milliseconds or
//! microseconds with the fractional digits that are not zero, and a unit.
use vstd::prelude::*;

verus! {

/// The decimal digit `d` (`0 <= d < 10`).
pub open spec fn digit_char(d: int) -> char {
    if d == 0 {
        '0'
    } else if d == 1 {
        '1'
    } else if d == 2 {
        '2'
    } else if d == 3 {
        '3'
    } else if d == 4 {
        '4'
    } else if d == 5 {
        '5'
    } else if d == 6 {
        '6'
    } else if d == 7 {
        '7'
    } else if d == 8 {
        '8'
    } else {
        '9'
    }
}

/// The decimal digits of `n`, without leading zeros.
pub open spec fn decimal(n: nat) -> Seq<char>
    decreases n,
{
    if n < 10 {
        seq![digit_char(n as int)]
    } else {
        decimal(n / 10).push(digit_char((n % 10) as int))
    }
}

/// The last `w` decimal digits of `n`, with leading zeros.
pub open spec fn padded(n: nat, w: nat) -> Seq<char>
    decreases w,
{
    if w == 0 {
        Seq::empty()
    } else {
        padded(n / 10, (w - 1) as nat).push(digit_char((n % 10) as int))
    }
}

/// The last `w` decimal digits of `n`, with leading zeros and without
/// trailing zeros.
pub open spec fn trimmed(n: nat, w: nat) -> Seq<char>
    decreases w,
{
    if w > 0 && n % 10 == 0 {
        trimmed(n / 10, (w - 1) as nat)
    } else {
        padded(n, w)
    }
}

/// The fractional part `n` of `w` digits: nothing if it is zero, else a
/// point and its digits without trailing zeros.
pub open spec fn fraction(n: nat, w: nat) -> Seq<char> {
    if n == 0 {
        Seq::empty()
    } else {
        seq!['.'] + trimmed(n, w)
    }
}

/// The text of a time span of `micros` microseconds: in seconds from one
/// second up, in milliseconds from one millisecond up, in microseconds below
/// that, and `0ns` for an empty span.
pub open spec fn duration_text(micros: nat) -> Seq<char> {
    if micros >= 1_000_000 {
        decimal(micros / 1_000_000) + fraction(micros % 1_000_000, 6) + seq!['s']
    } else if micros >= 1000 {
        decimal(micros / 1000) + fraction(micros % 1000, 3) + seq!['m', 's']
    } else if micros > 0 {
        decimal(micros) + seq!['\u{b5}', 's']
    } else {
        seq!['0', 'n', 's']
    }
}

/// The decimal digit `d` as a string.
fn digit_str(d: u64) -> (r: &'static str)
    requires
        d < 10,
    ensures
        r@ == seq![digit_char(d as int)],
{
    proof {
        reveal_strlit("0");
        reveal_strlit("1");
        reveal_strlit("2");
        reveal_strlit("3");
        reveal_strlit("4");
        reveal_strlit("5");
        reveal_strlit("6");
        reveal_strlit("7");
        reveal_strlit("8");
        reveal_strlit("9");
    }
    if d == 0 {
        "0"
    } else if d == 1 {
        "1"
    } else if d == 2 {
        "2"
    } else if d == 3 {
        "3"
    } else if d == 4 {
        "4"
    } else if d == 5 {
        "5"
    } else if d == 6 {
        "6"
    } else if d == 7 {
        "7"
    } else if d == 8 {
        "8"
    } else {
        "9"
    }
}

/// Append the decimal digits of `n`.
fn append_decimal(out: &mut String, n: u64)
    ensures
        final(out)@ == old(out)@ + decimal(n as nat),
    decreases n,
{
    if n >= 10 {
        append_decimal(out, n / 10);
        let ghost mid = out@;
        out.append(digit_str(n % 10));
        proof {
            assert(mid == old(out)@ + decimal((n / 10) as nat));
            assert(out@ =~= old(out)@ + decimal(n as nat));
        }
    } else {
        out.append(digit_str(n));
        assert(out@ =~= old(out)@ + decimal(n as nat));
    }
}

/// Append the last `w` decimal digits of `n`, with leading zeros.
fn append_padded(out: &mut String, n: u64, w: u64)
    ensures
        final(out)@ == old(out)@ + padded(n as nat, w as nat),
    decreases w,
{
    if w == 0 {
        assert(out@ =~= old(out)@ + padded(n as nat, w as nat));
    } else {
        append_padded(out, n / 10, w - 1);
        out.append(digit_str(n % 10));
        assert(out@ =~= old(out)@ + padded(n as nat, w as nat));
    }
}

/// Append the last `w` decimal digits of `n`, with leading zeros and without
/// trailing zeros.
fn append_trimmed(out: &mut String, n: u64, w: u64)
    ensures
        final(out)@ == old(out)@ + trimmed(n as nat, w as nat),
    decreases w,
{
    if w > 0 && n % 10 == 0 {
        append_trimmed(out, n / 10, w - 1);
    } else {
        append_padded(out, n, w);
    }
}

/// The text of a time span of `micros` microseconds.
pub fn duration_text_of_micros(micros: u64) -> (r: String)
    ensures
        r@ == duration_text(micros as nat),
{
    proof {
        reveal_strlit("");
        reveal_strlit(".");
        reveal_strlit("s");
        reveal_strlit("ms");
        reveal_strlit("\u{b5}s");
        reveal_strlit("0ns");
    }
    let ghost u = micros as nat;
    if micros >= 1_000_000 {
        let mut out = String::from_str("");
        append_decimal(&mut out, micros / 1_000_000);
        let sub = micros % 1_000_000;
        if sub != 0 {
            out.append(".");
            append_trimmed(&mut out, sub, 6);
        }
        out.append("s");
        proof {
            assert(out@ =~= duration_text(u));
        }
        out
    } else if micros >= 1000 {
        let mut out = String::from_str("");
        append_decimal(&mut out, micros / 1000);
        let sub = micros % 1000;
        if sub != 0 {
            out.append(".");
            append_trimmed(&mut out, sub, 3);
        }
        out.append("ms");
        proof {
            assert(out@ =~= duration_text(u));
        }
        out
    } else if micros > 0 {
        let mut out = String::from_str("");
        append_decimal(&mut out, micros);
        out.append("\u{b5}s");
        proof {
            assert(out@ =~= duration_text(u));
        }
        out
    } else {
        String::from_str("0ns")
    }
}

} // verus!
