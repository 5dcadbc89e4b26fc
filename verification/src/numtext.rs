//! Decimal text for the numbers that appear in rendered recipes.
//!
//! Serving counts and minute counts are printed as plain decimal integers.
//! Ingredient amounts are measured in whole thousandths of a unit and are
//! printed as a decimal number with up to three fractional digits, trailing
//! zeros trimmed.

use vstd::prelude::*;

verus! {

/// The decimal digit character for `d` (0 through 9).
pub open spec fn spec_digit(d: nat) -> char {
    if d == 0 {
        '0'
    } else if d == 1 {
        '1'
    } else if d == 2 {
        '2'
    } else if d == 3 {
        '3'
    } else if d == 4 {
        '4'
    } else if d == 5 {
        '5'
    } else if d == 6 {
        '6'
    } else if d == 7 {
        '7'
    } else if d == 8 {
        '8'
    } else {
        '9'
    }
}

/// The decimal text of `n`: most significant digit first, no leading zeros
/// (a single `0` for zero).
pub open spec fn spec_dec(n: nat) -> Seq<char>
    decreases n,
{
    if n < 10 {
        seq![spec_digit(n)]
    } else {
        spec_dec(n / 10) + seq![spec_digit(n % 10)]
    }
}

fn digit_str(d: u128) -> (r: &'static str)
    requires
        d < 10,
    ensures
        r@ == seq![spec_digit(d as nat)],
{
    let r: &'static str = match d {
        0 => "0",
        1 => "1",
        2 => "2",
        3 => "3",
        4 => "4",
        5 => "5",
        6 => "6",
        7 => "7",
        8 => "8",
        _ => "9",
    };
    proof {
        reveal_strlit("0");
        reveal_strlit("1");
        reveal_strlit("2");
        reveal_strlit("3");
        reveal_strlit("4");
        reveal_strlit("5");
        reveal_strlit("6");
        reveal_strlit("7");
        reveal_strlit("8");
        reveal_strlit("9");
        assert(r@ =~= seq![spec_digit(d as nat)]);
    }
    r
}

/// Append the decimal text of `n` to `out`.
pub fn push_dec(out: &mut String, n: u128)
    ensures
        final(out)@ == old(out)@ + spec_dec(n as nat),
    decreases n,
{
    if n < 10 {
        out.append(digit_str(n));
    } else {
        push_dec(out, n / 10);
        out.append(digit_str(n % 10));
    }
    proof {
        assert(out@ =~= old(out)@ + spec_dec(n as nat));
    }
}

/// The fractional part of an amount, `f` thousandths (1 through 999),
/// as one to three digits with trailing zeros trimmed.
pub open spec fn spec_frac(f: nat) -> Seq<char> {
    let d1 = f / 100;
    let d2 = (f / 10) % 10;
    let d3 = f % 10;
    if d3 != 0 {
        seq![spec_digit(d1), spec_digit(d2), spec_digit(d3)]
    } else if d2 != 0 {
        seq![spec_digit(d1), spec_digit(d2)]
    } else {
        seq![spec_digit(d1)]
    }
}

/// The decimal text of an amount of `milli` thousandths: the whole part,
/// then, when the fractional part is not zero, a dot and the fractional
/// digits with trailing zeros trimmed.
pub open spec fn spec_amount(milli: nat) -> Seq<char> {
    if milli % 1000 == 0 {
        spec_dec(milli / 1000)
    } else {
        spec_dec(milli / 1000) + seq!['.'] + spec_frac(milli % 1000)
    }
}

/// Append the decimal text of an amount of `milli` thousandths to `out`.
pub fn push_amount(out: &mut String, milli: u128)
    ensures
        final(out)@ == old(out)@ + spec_amount(milli as nat),
{
    push_dec(out, milli / 1000);
    let f = milli % 1000;
    if f != 0 {
        out.append(".");
        proof {
            reveal_strlit(".");
            assert(out@ =~= old(out)@ + spec_dec((milli / 1000) as nat) + seq!['.']);
        }
        let d1 = f / 100;
        let d2 = (f / 10) % 10;
        let d3 = f % 10;
        out.append(digit_str(d1));
        if d2 != 0 || d3 != 0 {
            out.append(digit_str(d2));
        }
        if d3 != 0 {
            out.append(digit_str(d3));
        }
    }
    proof {
        assert(out@ =~= old(out)@ + spec_amount(milli as nat));
    }
}

/// Whether `c` is a decimal digit.
pub open spec fn spec_is_digit(c: char) -> bool {
    c == '0' || c == '1' || c == '2' || c == '3' || c == '4' || c == '5' || c == '6' || c == '7'
        || c == '8' || c == '9'
}

/// The numeric value of the digit character `c`.
pub open spec fn spec_digit_val(c: char) -> nat {
    if c == '1' {
        1
    } else if c == '2' {
        2
    } else if c == '3' {
        3
    } else if c == '4' {
        4
    } else if c == '5' {
        5
    } else if c == '6' {
        6
    } else if c == '7' {
        7
    } else if c == '8' {
        8
    } else if c == '9' {
        9
    } else {
        0
    }
}

fn is_digit_char(c: char) -> (r: bool)
    ensures
        r == spec_is_digit(c),
{
    match c {
        '0' | '1' | '2' | '3' | '4' | '5' | '6' | '7' | '8' | '9' => true,
        _ => false,
    }
}

fn digit_char_val(c: char) -> (r: u64)
    requires
        spec_is_digit(c),
    ensures
        r == spec_digit_val(c),
{
    match c {
        '1' => 1,
        '2' => 2,
        '3' => 3,
        '4' => 4,
        '5' => 5,
        '6' => 6,
        '7' => 7,
        '8' => 8,
        '9' => 9,
        _ => 0,
    }
}

/// Whether every character of `s` is a decimal digit.
pub open spec fn spec_all_digits(s: Seq<char>) -> bool {
    forall|k: int| 0 <= k < s.len() ==> spec_is_digit(s[k])
}

/// The numeric value of the digit string `s`, most significant digit first.
pub open spec fn spec_digits_val(s: Seq<char>) -> nat
    decreases s.len(),
{
    if s.len() == 0 {
        0
    } else {
        spec_digits_val(s.drop_last()) * 10 + spec_digit_val(s.last())
    }
}

/// Ten to the power `n`.
pub open spec fn pow10(n: nat) -> nat
    decreases n,
{
    if n == 0 {
        1
    } else {
        10 * pow10((n - 1) as nat)
    }
}

/// A digit string of length `n` has a value below ten to the power `n`.
pub proof fn lemma_digits_val_bound(s: Seq<char>)
    requires
        spec_all_digits(s),
    ensures
        spec_digits_val(s) < pow10(s.len()),
    decreases s.len(),
{
    if s.len() > 0 {
        assert(spec_all_digits(s.drop_last()));
        lemma_digits_val_bound(s.drop_last());
        assert(spec_digit_val(s.last()) <= 9);
    }
}

/// Ten to any power is at least one.
pub proof fn lemma_pow10_pos(n: nat)
    ensures
        pow10(n) >= 1,
    decreases n,
{
    if n > 0 {
        lemma_pow10_pos((n - 1) as nat);
    }
}

/// Ten to the power of a smaller exponent is no larger.
pub proof fn lemma_pow10_mono(a: nat, b: nat)
    requires
        a <= b,
    ensures
        pow10(a) <= pow10(b),
    decreases b,
{
    if a < b {
        lemma_pow10_mono(a, (b - 1) as nat);
        lemma_pow10_pos((b - 1) as nat);
    }
}

/// The concrete value of ten to the fifteenth power.
pub proof fn lemma_pow10_15()
    ensures
        pow10(15) == 1000000000000000,
{
    assert(pow10(0) == 1);
    assert(pow10(1) == 10);
    assert(pow10(2) == 100);
    assert(pow10(3) == 1000);
    assert(pow10(4) == 10000);
    assert(pow10(5) == 100000);
    assert(pow10(6) == 1000000);
    assert(pow10(7) == 10000000);
    assert(pow10(8) == 100000000);
    assert(pow10(9) == 1000000000);
    assert(pow10(10) == 10000000000);
    assert(pow10(11) == 100000000000);
    assert(pow10(12) == 1000000000000);
    assert(pow10(13) == 10000000000000);
    assert(pow10(14) == 100000000000000);
    assert(pow10(15) == 1000000000000000);
}

/// A well-formed fractional decimal amount: the dot stands at `i` with at
/// least one digit before it, at least one digit after it, and nothing but
/// digits on either side.
pub open spec fn spec_amount_split(s: Seq<char>, i: int) -> bool {
    &&& 1 <= i
    &&& i + 1 < s.len()
    &&& s[i] == '.'
    &&& (forall|k: int| 0 <= k < i ==> spec_is_digit(s[k]))
    &&& (forall|k: int| i < k < s.len() ==> spec_is_digit(s[k]))
}

/// At most one position of `s` can be the dot of a well-formed amount.
pub proof fn lemma_amount_split_unique(s: Seq<char>, i: int, j: int)
    requires
        spec_amount_split(s, i),
        spec_amount_split(s, j),
    ensures
        i == j,
{
    if i < j {
        assert(spec_is_digit(s[j]));
        assert(s[j] == '.');
        assert(false);
    } else if j < i {
        assert(spec_is_digit(s[i]));
        assert(s[i] == '.');
        assert(false);
    }
}

/// The fractional digits `f` of an amount as thousandths: the first three
/// digits, padded with zeros on the right when fewer are given; further
/// digits are truncated away.
pub open spec fn spec_frac_milli(f: Seq<char>) -> nat {
    if f.len() >= 3 {
        spec_digits_val(f.subrange(0, 3))
    } else if f.len() == 2 {
        spec_digits_val(f) * 10
    } else {
        spec_digits_val(f) * 100
    }
}

/// The amount, in thousandths of a unit, that the text `s` denotes: a
/// non-empty string of digits, optionally followed by a dot and at least one
/// more digit. A whole part of more than fifteen digits is rejected, so that
/// every accepted amount fits the machine word; anything else that is not of
/// this shape (an exponent, a sign, a stray character) is rejected too.
pub open spec fn spec_parse_amount(s: Seq<char>) -> Option<u64> {
    if 0 < s.len() && s.len() <= 15 && spec_all_digits(s) {
        Some((spec_digits_val(s) * 1000) as u64)
    } else if exists|i: int| spec_amount_split(s, i) {
        let i = choose|i: int| spec_amount_split(s, i);
        if i <= 15 {
            Some(
                (spec_digits_val(s.subrange(0, i)) * 1000 + spec_frac_milli(
                    s.subrange(i + 1, s.len() as int),
                )) as u64,
            )
        } else {
            None
        }
    } else {
        None
    }
}

fn str_to_chars(s: &str) -> (v: Vec<char>)
    ensures
        v@ == s@,
{
    let n = s.unicode_len();
    let mut v: Vec<char> = Vec::new();
    let mut i: usize = 0;
    while i < n
        invariant
            i <= n,
            n == s@.len(),
            v@ == s@.take(i as int),
        decreases n - i,
    {
        v.push(s.get_char(i));
        proof {
            assert(v@ =~= s@.take(i as int + 1));
        }
        i = i + 1;
    }
    proof {
        assert(s@.take(n as int) =~= s@);
    }
    v
}

/// The numeric value of the digit characters of `v` from `from` up to `to`.
fn digits_value(v: &Vec<char>, from: usize, to: usize) -> (r: u64)
    requires
        from <= to <= v@.len(),
        to - from <= 15,
        forall|k: int| from <= k < to ==> spec_is_digit(v@[k]),
    ensures
        r == spec_digits_val(v@.subrange(from as int, to as int)),
        r < 1000000000000000,
{
    let mut acc: u64 = 0;
    let mut i: usize = from;
    while i < to
        invariant
            from <= i <= to <= v@.len(),
            to - from <= 15,
            forall|k: int| from <= k < to ==> spec_is_digit(v@[k]),
            acc == spec_digits_val(v@.subrange(from as int, i as int)),
            acc < pow10((i - from) as nat),
        decreases to - i,
    {
        let c = v[i];
        let d: u64 = digit_char_val(c);
        proof {
            lemma_pow10_mono((i - from) as nat, 14);
            lemma_pow10_mono((i + 1 - from) as nat, 15);
            lemma_pow10_15();
            assert(pow10(14) * 10 == pow10(15));
        }
        acc = acc * 10 + d;
        proof {
            let sub = v@.subrange(from as int, i as int + 1);
            assert(sub.drop_last() =~= v@.subrange(from as int, i as int));
            assert(sub.last() == v@[i as int]);
            assert(d == spec_digit_val(v@[i as int]));
        }
        i = i + 1;
    }
    proof {
        lemma_pow10_mono((to - from) as nat, 15);
        lemma_pow10_15();
    }
    acc
}

/// Parse the decimal text of an ingredient amount into thousandths of a
/// unit, exactly as [`spec_parse_amount`] describes.
pub fn parse_amount(s: &str) -> (r: Option<u64>)
    ensures
        r == spec_parse_amount(s@),
{
    let v = str_to_chars(s);
    let n = v.len();
    // Find the first dot, if any.
    let mut p: usize = n;
    let mut k: usize = 0;
    while k < n
        invariant
            k <= n,
            n == s@.len(),
            v@ == s@,
            p <= n,
            p == n ==> forall|t: int| 0 <= t < k ==> s@[t] != '.',
            p < n ==> p < k && s@[p as int] == '.' && (forall|t: int| 0 <= t < p ==> s@[t]
                != '.'),
        decreases n - k,
    {
        if p == n && v[k] == '.' {
            p = k;
        }
        k = k + 1;
    }
    if p == n {
        // No dot: the whole text must be one to fifteen digits.
        if n == 0 || n > 15 {
            proof {
                if exists|i: int| spec_amount_split(s@, i) {
                    let i = choose|i: int| spec_amount_split(s@, i);
                    assert(s@[i] == '.');
                }
            }
            return None;
        }
        let mut k2: usize = 0;
        while k2 < n
            invariant
                k2 <= n,
                n == s@.len(),
                v@ == s@,
                forall|t: int| 0 <= t < k2 ==> spec_is_digit(s@[t]),
                forall|t: int| 0 <= t < n ==> s@[t] != '.',
            decreases n - k2,
        {
            let c = v[k2];
            if !is_digit_char(c) {
                proof {
                    assert(!spec_is_digit(s@[k2 as int]));
                    if exists|i: int| spec_amount_split(s@, i) {
                        let i = choose|i: int| spec_amount_split(s@, i);
                        assert(s@[i] == '.');
                    }
                }
                return None;
            }
            k2 = k2 + 1;
        }
        let whole = digits_value(&v, 0, n);
        proof {
            assert(v@.subrange(0, n as int) =~= s@);
        }
        Some(whole * 1000)
    } else {
        // A dot at `p`: digits before and after, the whole part short enough.
        proof {
            assert(spec_is_digit('.') == false);
        }
        if p == 0 || p + 1 >= n || p > 15 {
            proof {
                if exists|i: int| spec_amount_split(s@, i) {
                    let i = choose|i: int| spec_amount_split(s@, i);
                    if i < p {
                        assert(s@[i] == '.');
                    } else if i > p {
                        assert(spec_is_digit(s@[p as int]));
                    }
                    assert(i == p);
                }
            }
            return None;
        }
        let mut k2: usize = 0;
        while k2 < n
            invariant
                k2 <= n,
                n == s@.len(),
                v@ == s@,
                p < n,
                s@[p as int] == '.',
                forall|t: int| 0 <= t < p ==> s@[t] != '.',
                forall|t: int| 0 <= t < k2 && t != p ==> spec_is_digit(s@[t]),
            decreases n - k2,
        {
            if k2 != p {
                let c = v[k2];
                if !is_digit_char(c) {
                    proof {
                        assert(!spec_is_digit(s@[k2 as int]));
                        if exists|i: int| spec_amount_split(s@, i) {
                            let i = choose|i: int| spec_amount_split(s@, i);
                            if i < p {
                                assert(s@[i] == '.');
                            } else if i > p {
                                assert(spec_is_digit(s@[p as int]));
                            }
                            assert(i == p);
                            assert(spec_is_digit(s@[k2 as int]));
                        }
                    }
                    return None;
                }
            }
            k2 = k2 + 1;
        }
        proof {
            assert(spec_amount_split(s@, p as int));
            let i = choose|i: int| spec_amount_split(s@, i);
            lemma_amount_split_unique(s@, i, p as int);
        }
        let whole = digits_value(&v, 0, p);
        let fend = if n - (p + 1) >= 3 {
            p + 4
        } else {
            n
        };
        let frac_digits = digits_value(&v, p + 1, fend);
        let frac: u64 = if fend - (p + 1) == 3 {
            frac_digits
        } else if fend - (p + 1) == 2 {
            frac_digits * 10
        } else {
            frac_digits * 100
        };
        proof {
            let f = s@.subrange(p as int + 1, n as int);
            assert(f.len() == n - (p + 1));
            if n - (p + 1) >= 3 {
                assert(v@.subrange(p as int + 1, p as int + 4) =~= f.subrange(0, 3));
            } else {
                assert(v@.subrange(p as int + 1, n as int) =~= f);
            }
            assert(frac == spec_frac_milli(f));
            assert(frac < 1000) by {
                lemma_digits_val_bound(f.subrange(0, if f.len() >= 3 {
                    3
                } else {
                    f.len() as int
                }));
                assert(pow10(0) == 1);
                assert(pow10(1) == 10);
                assert(pow10(2) == 100);
                assert(pow10(3) == 1000);
                if f.len() >= 3 {
                    assert(f.subrange(0, 3) =~= f.subrange(0, 3));
                } else {
                    assert(f.subrange(0, f.len() as int) =~= f);
                }
            };
            assert(v@.subrange(0, p as int) =~= s@.subrange(0, p as int));
        }
        Some(whole * 1000 + frac)
    }
}

} // verus!
