//! Building the decimal and separator-joined text that filter descriptions and file names
//! are made of.

use vstd::prelude::*;
use crate::time::Duration;

verus! {

/// The ASCII character of decimal digit `d` (`0..=9`).
pub open spec fn digit_char(d: nat) -> char {
    (48 + d) as char
}

/// The decimal representation of `n`, without leading zeros (`"0"` for zero).
pub open spec fn dec(n: nat) -> Seq<char>
    decreases n,
{
    if n < 10 {
        seq![digit_char(n)]
    } else {
        dec(n / 10).push(digit_char(n % 10))
    }
}

/// The decimal representation of `i`, with a leading `-` when negative.
pub open spec fn dec_int(i: int) -> Seq<char> {
    if i < 0 {
        seq!['-'] + dec((-i) as nat)
    } else {
        dec(i as nat)
    }
}

/// `n` in decimal, left-padded with zeros to at least `width` characters.
pub open spec fn zero_padded(n: nat, width: nat) -> Seq<char> {
    let d = dec(n);
    if d.len() >= width {
        d
    } else {
        Seq::new((width - d.len()) as nat, |i: int| '0') + d
    }
}

/// `s` without its trailing `'0'` characters.
pub open spec fn strip_trailing_zeros(s: Seq<char>) -> Seq<char>
    decreases s.len(),
{
    if s.len() > 0 && s.last() == '0' {
        strip_trailing_zeros(s.drop_last())
    } else {
        s
    }
}

/// A nanosecond count written as a decimal number of seconds: the whole seconds, then, when
/// there is a fractional part, a `.` and its digits without trailing zeros (`2`, `1.5`,
/// `0.000001`).
pub open spec fn secs_text(nanos: nat) -> Seq<char> {
    let whole = dec(nanos / 1_000_000_000);
    let frac = nanos % 1_000_000_000;
    if frac == 0 {
        whole
    } else {
        whole + seq!['.'] + strip_trailing_zeros(zero_padded(frac, 9))
    }
}

/// `parts` joined by `sep`.
pub open spec fn join(parts: Seq<Seq<char>>, sep: Seq<char>) -> Seq<char>
    decreases parts.len(),
{
    if parts.len() == 0 {
        Seq::empty()
    } else if parts.len() == 1 {
        parts[0]
    } else {
        join(parts.drop_last(), sep) + sep + parts.last()
    }
}

/// The text of `digit` as a one-character string.
fn digit_str(digit: u64) -> (s: &'static str)
    requires
        digit < 10,
    ensures
        s@ == seq![digit_char(digit as nat)],
{
    proof {
        reveal_strlit("0");
        reveal_strlit("1");
        reveal_strlit("2");
        reveal_strlit("3");
        reveal_strlit("4");
        reveal_strlit("5");
        reveal_strlit("6");
        reveal_strlit("7");
        reveal_strlit("8");
        reveal_strlit("9");
    }
    match digit {
        0 => "0",
        1 => "1",
        2 => "2",
        3 => "3",
        4 => "4",
        5 => "5",
        6 => "6",
        7 => "7",
        8 => "8",
        _ => "9",
    }
}

/// Append `n` in decimal.
pub fn push_dec(s: &mut String, n: u64)
    ensures
        final(s)@ == old(s)@ + dec(n as nat),
    decreases n,
{
    if n >= 10 {
        push_dec(s, n / 10);
    }
    s.append(digit_str(n % 10));
}

/// Append `i` in decimal, with a leading `-` when negative.
pub fn push_dec_i64(s: &mut String, i: i64)
    ensures
        final(s)@ == old(s)@ + dec_int(i as int),
{
    if i < 0 {
        proof {
            reveal_strlit("-");
        }
        s.append("-");
        let magnitude: u64 = if i == i64::MIN {
            0x8000_0000_0000_0000u64
        } else {
            (-i) as u64
        };
        push_dec(s, magnitude);
    } else {
        push_dec(s, i as u64);
    }
}

/// `10^k`.
pub open spec fn pow10(k: nat) -> nat
    decreases k,
{
    if k == 0 {
        1
    } else {
        10 * pow10((k - 1) as nat)
    }
}

/// A number below `10^k` (`k >= 1`) has at most `k` decimal digits.
pub proof fn lemma_dec_len_bound(n: nat, k: nat)
    requires
        k >= 1,
        n < pow10(k),
    ensures
        dec(n).len() <= k,
    decreases k,
{
    if n >= 10 {
        assert(k >= 2) by {
            if k == 1 {
                assert(pow10(1) == 10) by {
                    reveal_with_fuel(pow10, 2);
                }
            }
        }
        assert(n / 10 < pow10((k - 1) as nat));
        lemma_dec_len_bound(n / 10, (k - 1) as nat);
    }
}

/// The number of decimal digits of `n`.
pub fn dec_len(n: u64) -> (len: usize)
    ensures
        len == dec(n as nat).len(),
        len <= 20,
    decreases n,
{
    proof {
        assert(pow10(20) == 100_000_000_000_000_000_000) by {
            reveal_with_fuel(pow10, 21);
        }
        lemma_dec_len_bound(n as nat, 20);
    }
    if n >= 10 {
        dec_len(n / 10) + 1
    } else {
        1
    }
}

/// Append `n` in decimal, left-padded with zeros to at least `width` characters.
pub fn push_zero_padded(s: &mut String, n: u64, width: usize)
    ensures
        final(s)@ == old(s)@ + zero_padded(n as nat, width as nat),
{
    let len = dec_len(n);
    let ghost start = s@;
    if len < width {
        let pad = width - len;
        let mut i: usize = 0;
        while i < pad
            invariant
                i <= pad,
                s@ == start + Seq::new(i as nat, |k: int| '0'),
            decreases pad - i,
        {
            proof {
                reveal_strlit("0");
            }
            s.append("0");
            i = i + 1;
            assert(s@ =~= start + Seq::new(i as nat, |k: int| '0'));
        }
    }
    push_dec(s, n);
    assert(s@ =~= start + zero_padded(n as nat, width as nat));
}

/// Appending a zero digit: `10 f` padded to `w + 1` is `f` padded to `w` followed by `'0'`.
proof fn lemma_pad_shift(f: nat, w: nat)
    requires
        f > 0,
    ensures
        zero_padded(f * 10, w + 1) =~= zero_padded(f, w).push('0'),
{
    assert((f * 10) / 10 == f && (f * 10) % 10 == 0) by (nonlinear_arith)
        requires f > 0;
    assert(f * 10 >= 10) by (nonlinear_arith)
        requires f > 0;
    assert(dec(f * 10) == dec(f).push(digit_char(0)));
    assert(digit_char(0) == '0');
    let d = dec(f);
    if d.len() < w {
        assert(Seq::new((w + 1 - (d.len() + 1)) as nat, |i: int| '0') + d.push('0') =~= (Seq::new(
            (w - d.len()) as nat,
            |i: int| '0',
        ) + d).push('0'));
    }
}

/// Stripping trailing zeros ignores one more appended zero.
proof fn lemma_strip_push_zero(x: Seq<char>)
    ensures
        strip_trailing_zeros(x.push('0')) == strip_trailing_zeros(x),
{
    assert(x.push('0').drop_last() =~= x);
}

/// A padded number that does not end in a zero digit is unchanged by stripping zeros.
proof fn lemma_strip_nonzero_last(f: nat, w: nat)
    requires
        f % 10 != 0,
    ensures
        strip_trailing_zeros(zero_padded(f, w)) == zero_padded(f, w),
{
    let d = dec(f);
    assert(d.last() == digit_char(f % 10));
    assert(digit_char(f % 10) != '0') by {
        assert(1 <= f % 10 <= 9);
    }
    let z = zero_padded(f, w);
    assert(z.last() == d.last());
}

/// Append the duration `d` as a decimal number of seconds (see [`secs_text`]).
pub fn push_secs(s: &mut String, d: Duration)
    ensures
        final(s)@ == old(s)@ + secs_text(d@),
{
    let whole = d.as_secs();
    let frac = d.subsec_nanos();
    push_dec(s, whole);
    if frac != 0 {
        let ghost before = s@;
        proof {
            reveal_strlit(".");
        }
        s.append(".");
        let mut f: u32 = frac;
        let mut width: usize = 9;
        assert(pow10((9 - width) as nat) == 1);
        assert(f * pow10((9 - width) as nat) == frac);
        assert(frac < 1_000_000_000);
        while f % 10 == 0
            invariant
                f > 0,
                1 <= width <= 9,
                0 < frac < 1_000_000_000,
                f * pow10((9 - width) as nat) == frac,
                strip_trailing_zeros(zero_padded(frac as nat, 9)) == strip_trailing_zeros(
                    zero_padded(f as nat, width as nat),
                ),
            decreases f,
        {
            let ghost old_f = f;
            let ghost old_w = width;
            assert(f / 10 > 0 && (f / 10) * 10 == f) by (nonlinear_arith)
                requires f > 0, f % 10 == 0;
            f = f / 10;
            proof {
                lemma_pad_shift(f as nat, (old_w - 1) as nat);
                lemma_strip_push_zero(zero_padded(f as nat, (old_w - 1) as nat));
                assert(pow10((9 - (old_w - 1)) as nat) == 10 * pow10((9 - old_w) as nat));
                assert(f * pow10((9 - (old_w - 1)) as nat) == frac) by (nonlinear_arith)
                    requires
                        old_f * pow10((9 - old_w) as nat) == frac,
                        f * 10 == old_f,
                        pow10((9 - (old_w - 1)) as nat) == 10 * pow10((9 - old_w) as nat),
                ;
                if old_w == 1 {
                    assert(pow10(9) == 1_000_000_000) by {
                        reveal_with_fuel(pow10, 10);
                    }
                    assert(f * 1_000_000_000 >= 1_000_000_000) by (nonlinear_arith)
                        requires f > 0;
                    assert(false);
                }
            }
            width = width - 1;
        }
        proof {
            lemma_strip_nonzero_last(f as nat, width as nat);
        }
        push_zero_padded(s, f as u64, width);
        assert(s@ =~= old(s)@ + secs_text(d@));
    }
}

/// The strings of `parts` joined by commas.
pub fn join_commas(parts: &Vec<String>) -> (res: String)
    ensures
        res@ == join(parts@.map_values(|p: String| p@), seq![',']),
{
    let mut res = String::new();
    let ghost views = parts@.map_values(|p: String| p@);
    let mut i: usize = 0;
    while i < parts.len()
        invariant
            i <= parts.len(),
            views == parts@.map_values(|p: String| p@),
            res@ == join(views.take(i as int), seq![',']),
        decreases parts.len() - i,
    {
        proof {
            reveal_strlit(",");
        }
        if i != 0 {
            res.append(",");
        }
        res.append(parts[i].as_str());
        assert(views.take(i + 1).drop_last() =~= views.take(i as int));
        i = i + 1;
    }
    assert(views.take(parts.len() as int) =~= views);
    res
}

/// The number a string of decimal digits denotes.
pub open spec fn digits_value(s: Seq<char>) -> int
    decreases s.len(),
{
    if s.len() == 0 {
        0
    } else {
        digits_value(s.drop_last()) * 10 + (s.last() as int - 48)
    }
}

/// The decimal text of `n` denotes `n`.
pub proof fn lemma_dec_value(n: nat)
    ensures
        digits_value(dec(n)) == n,
    decreases n,
{
    let d = n % 10;
    assert(digit_char(d) as int == 48 + d);
    if n < 10 {
        assert(d == n);
        assert(dec(n) == seq![digit_char(n)]);
        assert(dec(n).drop_last() =~= Seq::<char>::empty());
        assert(dec(n).last() == digit_char(n));
        assert(digits_value(dec(n)) == digits_value(dec(n).drop_last()) * 10 + (dec(n).last() as int - 48));
    } else {
        lemma_dec_value(n / 10);
        assert(dec(n) == dec(n / 10).push(digit_char(d)));
        assert(dec(n).drop_last() =~= dec(n / 10));
        assert(dec(n).last() == digit_char(d));
        assert(digits_value(dec(n)) == digits_value(dec(n).drop_last()) * 10 + (dec(n).last() as int - 48));
        assert((n / 10) * 10 + d == n);
    }
}

/// Leading zeros do not change the number a digit string denotes.
pub proof fn lemma_leading_zeros_value(k: nat, d: Seq<char>)
    ensures
        digits_value(Seq::new(k, |i: int| '0') + d) == digits_value(d),
    decreases d.len() + k,
{
    let z = Seq::new(k, |i: int| '0');
    if d.len() == 0 {
        assert(z + d =~= z);
        if k > 0 {
            assert(z.drop_last() =~= Seq::new((k - 1) as nat, |i: int| '0'));
            lemma_leading_zeros_value((k - 1) as nat, d);
            assert(Seq::new((k - 1) as nat, |i: int| '0') + d =~= Seq::new((k - 1) as nat, |i: int| '0'));
        }
    } else {
        assert((z + d).drop_last() =~= z + d.drop_last());
        lemma_leading_zeros_value(k, d.drop_last());
    }
}

/// A zero-padded decimal number denotes the number, whatever the padding.
pub proof fn lemma_zero_padded_value(n: nat, width: nat)
    ensures
        digits_value(zero_padded(n, width)) == n,
{
    lemma_dec_value(n);
    if dec(n).len() < width {
        lemma_leading_zeros_value((width - dec(n).len()) as nat, dec(n));
    }
}

} // verus!
