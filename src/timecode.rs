//! Decimal and `HH:MM:SS,mmm` rendering of integer quantities.

use vstd::prelude::*;

verus! {

pub open spec fn digit_char(d: nat) -> char {
    if d == 0 {
        '0'
    } else if d == 1 {
        '1'
    } else if d == 2 {
        '2'
    } else if d == 3 {
        '3'
    } else if d == 4 {
        '4'
    } else if d == 5 {
        '5'
    } else if d == 6 {
        '6'
    } else if d == 7 {
        '7'
    } else if d == 8 {
        '8'
    } else {
        '9'
    }
}

/// The decimal digits of `n`, without leading zeros.
pub open spec fn decimal(n: nat) -> Seq<char>
    decreases n,
{
    if n < 10 {
        seq![digit_char(n)]
    } else {
        decimal(n / 10) + seq![digit_char(n % 10)]
    }
}

/// `n` in decimal, left-padded with zeros to two digits.
pub open spec fn pad2(n: nat) -> Seq<char> {
    if n < 10 {
        seq!['0'] + decimal(n)
    } else {
        decimal(n)
    }
}

/// `n` in decimal, left-padded with zeros to three digits.
pub open spec fn pad3(n: nat) -> Seq<char> {
    if n < 10 {
        seq!['0', '0'] + decimal(n)
    } else if n < 100 {
        seq!['0'] + decimal(n)
    } else {
        decimal(n)
    }
}

/// A time of `ms` milliseconds as `HH:MM:SS,mmm`.
pub open spec fn timecode(ms: nat) -> Seq<char> {
    pad2(ms / 3_600_000) + seq![':'] + pad2((ms / 60_000) % 60) + seq![':'] + pad2(
        (ms / 1000) % 60,
    ) + seq![','] + pad3(ms % 1000)
}

fn digit_str(d: u128) -> (r: &'static str)
    requires
        d < 10,
    ensures
        r@ == seq![digit_char(d as nat)],
{
    proof {
        reveal_strlit("0");
        reveal_strlit("1");
        reveal_strlit("2");
        reveal_strlit("3");
        reveal_strlit("4");
        reveal_strlit("5");
        reveal_strlit("6");
        reveal_strlit("7");
        reveal_strlit("8");
        reveal_strlit("9");
    }
    if d == 0 {
        "0"
    } else if d == 1 {
        "1"
    } else if d == 2 {
        "2"
    } else if d == 3 {
        "3"
    } else if d == 4 {
        "4"
    } else if d == 5 {
        "5"
    } else if d == 6 {
        "6"
    } else if d == 7 {
        "7"
    } else if d == 8 {
        "8"
    } else {
        "9"
    }
}

/// Appends the decimal digits of `n`.
pub fn append_decimal(out: &mut String, n: u128)
    ensures
        final(out)@ == old(out)@ + decimal(n as nat),
    decreases n,
{
    if n >= 10 {
        append_decimal(out, n / 10);
    }
    out.append(digit_str(n % 10));
    proof {
        if n >= 10 {
            assert(final(out)@ =~= old(out)@ + decimal(n as nat));
        } else {
            assert(n % 10 == n);
        }
    }
}

/// Appends `n` padded with zeros to `width` digits, `width` being 2 or 3.
pub fn append_padded(out: &mut String, n: u128, width: usize)
    requires
        width == 2 || width == 3,
    ensures
        width == 2 ==> final(out)@ == old(out)@ + pad2(n as nat),
        width == 3 ==> final(out)@ == old(out)@ + pad3(n as nat),
{
    proof {
        reveal_strlit("0");
        reveal_strlit("00");
    }
    if n < 10 {
        if width == 3 {
            out.append("00");
        } else {
            out.append("0");
        }
    } else if n < 100 && width == 3 {
        out.append("0");
    }
    append_decimal(out, n);
    proof {
        if width == 3 && n < 10 {
            assert(final(out)@ =~= old(out)@ + pad3(n as nat));
        }
        if width == 2 && n < 10 {
            assert(final(out)@ =~= old(out)@ + pad2(n as nat));
        }
        if width == 3 && 10 <= n < 100 {
            assert(final(out)@ =~= old(out)@ + pad3(n as nat));
        }
    }
}

/// Appends a time of `ms` milliseconds as `HH:MM:SS,mmm`.
pub fn append_timecode(out: &mut String, ms: u64)
    ensures
        final(out)@ == old(out)@ + timecode(ms as nat),
{
    proof {
        reveal_strlit(":");
        reveal_strlit(",");
    }
    let ghost start = out@;
    let m = ms as u128;
    append_padded(out, m / 3_600_000, 2);
    out.append(":");
    append_padded(out, (m / 60_000) % 60, 2);
    out.append(":");
    append_padded(out, (m / 1000) % 60, 2);
    out.append(",");
    append_padded(out, m % 1000, 3);
    assert(out@ =~= start + timecode(ms as nat));
}

} // verus!
