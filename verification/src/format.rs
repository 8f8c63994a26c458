use vstd::prelude::*;
use vstd::string::StringExecFns;

verus! {

/// The character of a decimal digit.
pub open spec fn digit_char(d: int) -> char {
    if d == 0 {
        '0'
    } else if d == 1 {
        '1'
    } else if d == 2 {
        '2'
    } else if d == 3 {
        '3'
    } else if d == 4 {
        '4'
    } else if d == 5 {
        '5'
    } else if d == 6 {
        '6'
    } else if d == 7 {
        '7'
    } else if d == 8 {
        '8'
    } else {
        '9'
    }
}

/// A natural number in decimal, without leading zeros.
pub open spec fn decimal(n: nat) -> Seq<char>
    decreases n,
{
    if n < 10 {
        seq![digit_char(n as int)]
    } else {
        decimal(n / 10).push(digit_char((n % 10) as int))
    }
}

/// An integer in decimal, with a minus sign when it is negative.
pub open spec fn signed_decimal(n: int) -> Seq<char> {
    if n < 0 {
        seq!['-'] + decimal((-n) as nat)
    } else {
        decimal(n as nat)
    }
}

/// An integer in decimal, at least two characters wide: a single digit gets
/// a zero in front, a negative number only its sign.
pub open spec fn two_wide(n: int) -> Seq<char> {
    if 0 <= n < 10 {
        seq!['0'] + decimal(n as nat)
    } else {
        signed_decimal(n)
    }
}

/// Division that rounds toward zero.
pub open spec fn quotient_toward_zero(a: int, b: int) -> int {
    if a >= 0 {
        a / b
    } else {
        -((-a) / b)
    }
}

/// The remainder that goes with `quotient_toward_zero`; it has the sign of
/// `a`.
pub open spec fn remainder_toward_zero(a: int, b: int) -> int {
    a - b * quotient_toward_zero(a, b)
}

/// A duration as minutes and seconds, `M:SS`.
pub open spec fn duration_text(seconds: int) -> Seq<char> {
    signed_decimal(quotient_toward_zero(seconds, 60)) + seq![':'] + two_wide(
        remainder_toward_zero(seconds, 60),
    )
}

/// The whole number nearest to `thousandths / 1000`; a tie goes to the even
/// neighbour.
pub open spec fn round_half_even(thousandths: nat) -> nat {
    let whole = thousandths / 1000;
    let rest = thousandths % 1000;
    if rest > 500 || (rest == 500 && whole % 2 == 1) {
        whole + 1
    } else {
        whole
    }
}

/// A tempo, given in thousandths of a beat per minute, rounded to a whole
/// number. A negative tempo keeps its sign, also where it rounds to zero.
pub open spec fn tempo_text(thousandths: int) -> Seq<char> {
    if thousandths < 0 {
        seq!['-'] + decimal(round_half_even((-thousandths) as nat))
    } else {
        decimal(round_half_even(thousandths as nat))
    }
}

fn digit_str(d: u64) -> (s: &'static str)
    requires
        d < 10,
    ensures
        s@ == seq![digit_char(d as int)],
{
    proof {
        reveal_strlit("0");
        reveal_strlit("1");
        reveal_strlit("2");
        reveal_strlit("3");
        reveal_strlit("4");
        reveal_strlit("5");
        reveal_strlit("6");
        reveal_strlit("7");
        reveal_strlit("8");
        reveal_strlit("9");
    }
    let s = if d == 0 {
        "0"
    } else if d == 1 {
        "1"
    } else if d == 2 {
        "2"
    } else if d == 3 {
        "3"
    } else if d == 4 {
        "4"
    } else if d == 5 {
        "5"
    } else if d == 6 {
        "6"
    } else if d == 7 {
        "7"
    } else if d == 8 {
        "8"
    } else {
        "9"
    };
    assert(s@ =~= seq![digit_char(d as int)]);
    s
}

/// Appends `n` in decimal.
pub fn append_decimal(out: &mut String, n: u64)
    ensures
        final(out)@ == old(out)@ + decimal(n as nat),
    decreases n,
{
    if n >= 10 {
        append_decimal(out, n / 10);
    }
    out.append(digit_str(n % 10));
    assert(out@ =~= old(out)@ + decimal(n as nat));
}

/// Appends `n` in decimal, with its sign when negative.
pub fn append_signed(out: &mut String, n: i64)
    ensures
        final(out)@ == old(out)@ + signed_decimal(n as int),
{
    if n < 0 {
        proof {
            reveal_strlit("-");
        }
        out.append("-");
        let magnitude: u64 = ((-(n + 1)) as u64) + 1;
        append_decimal(out, magnitude);
        assert(out@ =~= old(out)@ + signed_decimal(n as int));
    } else {
        append_decimal(out, n as u64);
    }
}

/// Formats a duration in seconds as `M:SS`.
pub fn format_duration(seconds: i32) -> (text: String)
    ensures
        text@ == duration_text(seconds as int),
{
    let total: i64 = seconds as i64;
    let (mins, secs): (i64, i64) = if total >= 0 {
        (total / 60, total % 60)
    } else {
        (-((-total) / 60), -((-total) % 60))
    };
    assert(mins == quotient_toward_zero(seconds as int, 60));
    assert(secs == remainder_toward_zero(seconds as int, 60));
    let mut text = String::new();
    append_signed(&mut text, mins);
    proof {
        reveal_strlit(":");
        reveal_strlit("0");
    }
    text.append(":");
    if 0 <= secs && secs < 10 {
        text.append("0");
        append_decimal(&mut text, secs as u64);
    } else {
        append_signed(&mut text, secs);
    }
    assert(text@ =~= duration_text(seconds as int));
    text
}

/// Formats a tempo, given in thousandths of a beat per minute, as a whole
/// number.
pub fn format_tempo(thousandths: i64) -> (text: String)
    ensures
        text@ == tempo_text(thousandths as int),
{
    let magnitude: u64 = if thousandths < 0 {
        ((-(thousandths + 1)) as u64) + 1
    } else {
        thousandths as u64
    };
    let whole = magnitude / 1000;
    let rest = magnitude % 1000;
    let rounded = if rest > 500 || (rest == 500 && whole % 2 == 1) {
        whole + 1
    } else {
        whole
    };
    let mut text = String::new();
    if thousandths < 0 {
        proof {
            reveal_strlit("-");
        }
        text.append("-");
    }
    append_decimal(&mut text, rounded);
    assert(text@ =~= tempo_text(thousandths as int));
    text
}

} // verus!
