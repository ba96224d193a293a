//! Normalisers for time and memory amounts, and the mapping of remote-judge records.

use vstd::prelude::*;

use crate::models::{Submission, SubmissionView};
use crate::text::{
    all_digits, chars_of, contains, ends_with, finishes, fold, fold_chars, includes, is_digit,
    prefix, string_of, suffix, trim, trimmed,
};

verus! {

/// The value of a run of decimal digits.
pub open spec fn digits_value(d: Seq<char>) -> nat
    decreases d.len(),
{
    if d.len() == 0 {
        0
    } else {
        digits_value(d.drop_last()) * 10 + ((d.last() as u32) - 48) as nat
    }
}

/// The value of the first `k` fractional digits, with missing ones read as `0`.
pub open spec fn leading_value(f: Seq<char>, k: nat) -> nat
    decreases k,
{
    if k == 0 {
        0
    } else {
        leading_value(f, (k - 1) as nat) * 10 + if k - 1 < f.len() {
            ((f[k - 1] as u32) - 48) as nat
        } else {
            0
        }
    }
}

/// The length of the run of digits that `s` starts with.
pub open spec fn leading_digits(s: Seq<char>) -> nat
    decreases s.len(),
{
    if s.len() > 0 && is_digit(s[0]) {
        1 + leading_digits(s.drop_first())
    } else {
        0
    }
}

/// A decimal number `[+-]digits[.digits]` with at least one digit, read as
/// (negative, whole digits, fractional digits).
pub open spec fn decimal_of(s: Seq<char>) -> Option<(bool, Seq<char>, Seq<char>)> {
    let signed = s.len() > 0 && (s[0] == '-' || s[0] == '+');
    let body = if signed {
        s.drop_first()
    } else {
        s
    };
    let n = leading_digits(body);
    let whole = body.take(n as int);
    let rest = body.skip(n as int);
    if rest.len() == 0 {
        if n > 0 {
            Some((signed && s[0] == '-', whole, Seq::<char>::empty()))
        } else {
            None
        }
    } else if rest[0] == '.' && all_digits(rest.drop_first()) && n + rest.len() > 1 {
        Some((signed && s[0] == '-', whole, rest.drop_first()))
    } else {
        None
    }
}

/// The factor by which a number is brought to the target unit.
#[derive(Clone, Copy, Debug, PartialEq, Eq, Structural)]
pub enum Scale {
    /// Times one.
    One,
    /// Times 1000.
    Thousand,
    /// Times 1024.
    Kibi,
    /// Divided by 1024.
    PerKibi,
}

/// `whole.frac` brought to the target unit and truncated to an integer: three fractional
/// digits settle a product by 1000; ten settle one by 1024, since 1/1024 has ten decimals;
/// none count for a quotient by 1024.
pub open spec fn magnitude(whole: Seq<char>, frac: Seq<char>, scale: Scale) -> int {
    match scale {
        Scale::One => digits_value(whole) as int,
        Scale::Thousand => (digits_value(whole) * 1000 + leading_value(frac, 3)) as int,
        Scale::Kibi => (digits_value(whole) * 1024 + leading_value(frac, 10) / 9765625) as int,
        Scale::PerKibi => (digits_value(whole) / 1024) as int,
    }
}

/// An integer held to the range of `i32`, as a saturating cast does.
pub open spec fn saturate(v: int) -> i32 {
    if v > i32::MAX {
        i32::MAX
    } else if v < i32::MIN {
        i32::MIN
    } else {
        v as i32
    }
}

/// The decimal number that `s` spells, scaled and truncated toward zero.
pub open spec fn scaled_number(s: Seq<char>, scale: Scale) -> Option<i32> {
    match decimal_of(s) {
        Some((negative, whole, frac)) => {
            let m = magnitude(whole, frac, scale);
            Some(saturate(if negative { -m } else { m }))
        },
        None => None,
    }
}

/// A time in milliseconds: a number with the suffix `ms`, a number of seconds with `s`, or a bare
/// number of milliseconds; suffixes in either case; whitespace around the number is ignored.
pub open spec fn time_ms(s: Seq<char>) -> Option<i32> {
    let t = trim(s);
    let l = fold(t);
    if t.len() == 0 {
        None
    } else if ends_with(l, "ms"@) {
        scaled_number(trim(t.take(t.len() - 2)), Scale::One)
    } else if ends_with(l, "s"@) {
        scaled_number(trim(t.take(t.len() - 1)), Scale::Thousand)
    } else {
        scaled_number(t, Scale::One)
    }
}

/// An amount of memory in kibibytes: `mb` or `m` for mebibytes, `kb` or `k` for kibibytes, `b`
/// for bytes, and a bare number as kibibytes; suffixes in either case.
pub open spec fn memory_kb(s: Seq<char>) -> Option<i32> {
    let t = trim(s);
    let l = fold(t);
    if t.len() == 0 {
        None
    } else if ends_with(l, "mb"@) {
        scaled_number(trim(t.take(t.len() - 2)), Scale::Kibi)
    } else if ends_with(l, "m"@) {
        scaled_number(trim(t.take(t.len() - 1)), Scale::Kibi)
    } else if ends_with(l, "kb"@) {
        scaled_number(trim(t.take(t.len() - 2)), Scale::One)
    } else if ends_with(l, "k"@) {
        scaled_number(trim(t.take(t.len() - 1)), Scale::One)
    } else if ends_with(l, "b"@) {
        scaled_number(trim(t.take(t.len() - 1)), Scale::PerKibi)
    } else {
        scaled_number(t, Scale::One)
    }
}

/// Whole parts are read up to this bound: from it on every scale saturates.
pub(crate) const WHOLE_CAP: u64 = 0x4_0000_0000_0000;

proof fn lemma_leading_value_bound(f: Seq<char>, k: nat)
    requires
        all_digits(f),
    ensures
        leading_value(f, k) < pow10(k),
    decreases k,
{
    if k > 0 {
        lemma_leading_value_bound(f, (k - 1) as nat);
        if k - 1 < f.len() {
            assert(is_digit(f[k - 1]));
        }
    }
}

pub open spec fn pow10(k: nat) -> nat
    decreases k,
{
    if k == 0 {
        1
    } else {
        10 * pow10((k - 1) as nat)
    }
}

fn leading_value_of(f: &Vec<char>, k: usize) -> (r: u64)
    requires
        all_digits(f@),
        k <= 10,
    ensures
        r == leading_value(f@, k as nat),
{
    let mut v: u64 = 0;
    for i in 0..k
        invariant
            k <= 10,
            all_digits(f@),
            v == leading_value(f@, i as nat),
    {
        proof {
            lemma_leading_value_bound(f@, i as nat);
            assert(pow10(i as nat) <= pow10(10)) by {
                lemma_pow10_mono(i as nat, 10);
            }
            reveal_with_fuel(pow10, 11);
            assert(pow10(10) == 10000000000nat);
        }
        let d: u64 = if i < f.len() {
            assert(is_digit(f@[i as int]));
            (f[i] as u32 - 48) as u64
        } else {
            0
        };
        v = v * 10 + d;
    }
    v
}

proof fn lemma_pow10_mono(a: nat, b: nat)
    requires
        a <= b,
    ensures
        pow10(a) <= pow10(b),
    decreases b,
{
    if a < b {
        lemma_pow10_mono(a, (b - 1) as nat);
    }
}

/// The whole digits' value, held at `WHOLE_CAP`.
pub(crate) fn capped_value(d: &Vec<char>) -> (r: u64)
    requires
        all_digits(d@),
    ensures
        r == if digits_value(d@) < WHOLE_CAP {
            digits_value(d@)
        } else {
            WHOLE_CAP as nat
        },
{
    let mut v: u64 = 0;
    for i in 0..d.len()
        invariant
            all_digits(d@),
            v == if digits_value(d@.take(i as int)) < WHOLE_CAP {
                digits_value(d@.take(i as int))
            } else {
                WHOLE_CAP as nat
            },
    {
        assert(d@.take(i + 1).drop_last() =~= d@.take(i as int));
        assert(is_digit(d@[i as int]));
        let c = (d[i] as u32 - 48) as u64;
        if v < WHOLE_CAP {
            v = v * 10 + c;
            if v > WHOLE_CAP {
                v = WHOLE_CAP;
            }
        }
    }
    assert(d@.take(d@.len() as int) =~= d@);
    v
}


fn is_digit_char(c: char) -> (r: bool)
    ensures
        r == is_digit(c),
{
    '0' <= c && c <= '9'
}

/// Reads a decimal number: (negative, whole digits, fractional digits).
fn read_decimal(s: &Vec<char>) -> (r: Option<(bool, Vec<char>, Vec<char>)>)
    ensures
        r matches Some((n, w, f)) ==> decimal_of(s@) == Some((n, w@, f@)),
        r is None <==> decimal_of(s@) is None,
{
    let signed = s.len() > 0 && (s[0] == '-' || s[0] == '+');
    let negative = signed && s[0] == '-';
    let body = if signed {
        suffix(s, 1)
    } else {
        suffix(s, 0)
    };
    assert(s@.skip(0) =~= s@);
    assert(signed ==> s@.skip(1) =~= s@.drop_first());
    let mut k: usize = 0;
    assert(body@.skip(0) =~= body@);
    while k < body.len() && is_digit_char(body[k])
        invariant
            k <= body@.len(),
            leading_digits(body@) == k + leading_digits(body@.skip(k as int)),
        decreases body.len() - k,
    {
        assert(body@.skip(k as int).drop_first() =~= body@.skip(k + 1));
        k = k + 1;
    }
    assert(leading_digits(body@) == k);
    let whole = prefix(&body, k);
    let rest = suffix(&body, k);
    if rest.len() == 0 {
        if k > 0 {
            Some((negative, whole, rest))
        } else {
            None
        }
    } else if rest[0] == '.' {
        let frac = suffix(&rest, 1);
        assert(rest@.skip(1) =~= rest@.drop_first());
        if !crate::text::only_digits(&frac) {
            return None;
        }
        if k + rest.len() > 1 {
            Some((negative, whole, frac))
        } else {
            None
        }
    } else {
        None
    }
}

/// `magnitude`, with the whole part read as `capped_value` reads it, signed and saturated.
fn scaled_value(negative: bool, whole: &Vec<char>, frac: &Vec<char>, scale: Scale) -> (r: i32)
    requires
        all_digits(whole@),
        all_digits(frac@),
    ensures
        r == saturate(
            if negative {
                -magnitude(whole@, frac@, scale)
            } else {
                magnitude(whole@, frac@, scale)
            },
        ),
{
    let w = capped_value(whole);
    let f3 = leading_value_of(frac, 3);
    let f10 = leading_value_of(frac, 10);
    proof {
        lemma_leading_value_bound(frac@, 3);
        lemma_leading_value_bound(frac@, 10);
        reveal_with_fuel(pow10, 11);
        assert(w * 1024 <= WHOLE_CAP * 1024) by (nonlinear_arith)
            requires
                w <= WHOLE_CAP,
        ;
        assert(w * 1000 <= WHOLE_CAP * 1000) by (nonlinear_arith)
            requires
                w <= WHOLE_CAP,
        ;
    }
    let m: u64 = match scale {
        Scale::One => w,
        Scale::Thousand => w * 1000 + f3,
        Scale::Kibi => w * 1024 + f10 / 9765625,
        Scale::PerKibi => w / 1024,
    };
    let ghost exact = magnitude(whole@, frac@, scale);
    proof {
        let dv = digits_value(whole@);
        if dv >= WHOLE_CAP {
            assert(dv * 1024 >= WHOLE_CAP * 1024) by (nonlinear_arith)
                requires
                    dv >= WHOLE_CAP,
            ;
            assert(dv * 1000 >= WHOLE_CAP * 1000) by (nonlinear_arith)
                requires
                    dv >= WHOLE_CAP,
            ;
            assert(m >= 0x100_0000_0000);
            assert(exact >= 0x100_0000_0000);
        } else {
            assert(m == exact);
        }
    }
    if negative {
        if m > 2147483648 {
            i32::MIN
        } else {
            (0 - (m as i64)) as i32
        }
    } else {
        if m > 2147483647 {
            i32::MAX
        } else {
            m as i32
        }
    }
}

/// The decimal number that `s` spells, scaled and truncated toward zero.
fn scaled_number_of(s: &Vec<char>, scale: Scale) -> (r: Option<i32>)
    ensures
        r == scaled_number(s@, scale),
{
    match read_decimal(s) {
        Some((negative, whole, frac)) => {
            proof {
                let body = if s@.len() > 0 && (s@[0] == '-' || s@[0] == '+') {
                    s@.drop_first()
                } else {
                    s@
                };
                lemma_leading_digits(body);
            }
            Some(scaled_value(negative, &whole, &frac, scale))
        },
        None => None,
    }
}

proof fn lemma_leading_digits(s: Seq<char>)
    ensures
        leading_digits(s) <= s.len(),
        all_digits(s.take(leading_digits(s) as int)),
    decreases s.len(),
{
    if s.len() > 0 && is_digit(s[0]) {
        lemma_leading_digits(s.drop_first());
        let n = leading_digits(s.drop_first()) as int;
        assert forall|i: int| 0 <= i < n + 1 implies is_digit(#[trigger] s.take(n + 1)[i]) by {
            if i > 0 {
                assert(s.take(n + 1)[i] == s.drop_first().take(n as int)[i - 1]);
            }
        }
    }
}

/// Parses a time such as `100ms`, `0.2s` or `50` to milliseconds; `None` for blank text or
/// text that is no number.
pub fn parse_time_to_ms(s: &str) -> (r: Option<i32>)
    ensures
        r == time_ms(s@),
{
    let t = trimmed(&chars_of(s));
    if t.len() == 0 {
        return None;
    }
    let l = fold_chars(&t);
    proof {
        reveal_strlit("ms");
        reveal_strlit("s");
    }
    if finishes(&l, &chars_of("ms")) {
        scaled_number_of(&trimmed(&prefix(&t, t.len() - 2)), Scale::One)
    } else if finishes(&l, &chars_of("s")) {
        scaled_number_of(&trimmed(&prefix(&t, t.len() - 1)), Scale::Thousand)
    } else {
        scaled_number_of(&t, Scale::One)
    }
}

/// Parses an amount of memory such as `1MB`, `512K`, `2048b` or `256` to kibibytes; `None` for
/// blank text or text that is no number.
pub fn parse_mem_to_kb(s: &str) -> (r: Option<i32>)
    ensures
        r == memory_kb(s@),
{
    let t = trimmed(&chars_of(s));
    if t.len() == 0 {
        return None;
    }
    let l = fold_chars(&t);
    proof {
        reveal_strlit("mb");
        reveal_strlit("m");
        reveal_strlit("kb");
        reveal_strlit("k");
        reveal_strlit("b");
    }
    if finishes(&l, &chars_of("mb")) {
        scaled_number_of(&trimmed(&prefix(&t, t.len() - 2)), Scale::Kibi)
    } else if finishes(&l, &chars_of("m")) {
        scaled_number_of(&trimmed(&prefix(&t, t.len() - 1)), Scale::Kibi)
    } else if finishes(&l, &chars_of("kb")) {
        scaled_number_of(&trimmed(&prefix(&t, t.len() - 2)), Scale::One)
    } else if finishes(&l, &chars_of("k")) {
        scaled_number_of(&trimmed(&prefix(&t, t.len() - 1)), Scale::One)
    } else if finishes(&l, &chars_of("b")) {
        scaled_number_of(&trimmed(&prefix(&t, t.len() - 1)), Scale::PerKibi)
    } else {
        scaled_number_of(&t, Scale::One)
    }
}


/// A separator between a judge's name and a problem id in a combined id.
pub open spec fn is_id_separator(c: char) -> bool {
    c == '/' || c == '_' || c == ':'
}

/// The first position from `i` on that holds `-` (for `dash`) or an id separator.
pub open spec fn first_break(s: Seq<char>, dash: bool, i: int) -> Option<int>
    decreases s.len() - i,
{
    if i < 0 || i >= s.len() {
        None
    } else if (dash && s[i] == '-') || (!dash && is_id_separator(s[i])) {
        Some(i)
    } else {
        first_break(s, dash, i + 1)
    }
}

/// (judge, problem id, record id) of a record that a virtual judge reported: the problem id is
/// split at its first `-`, else at its first separator, the part after that ending at the next
/// separator.
pub open spec fn origin_of(sub: SubmissionView) -> Option<(Seq<char>, Seq<char>, Seq<char>)> {
    let o = fold(sub.oj);
    let p = trim(sub.pid);
    if !contains(o, "vjudge"@) && !contains(o, "virtual"@) {
        None
    } else {
        match first_break(p, true, 0) {
            Some(k) => Some((p.take(k), p.skip(k + 1), sub.rid)),
            None => match first_break(p, false, 0) {
                Some(k) => {
                    let rest = p.skip(k + 1);
                    Some(
                        (
                            p.take(k),
                            match first_break(rest, false, 0) {
                                Some(m) => rest.take(m),
                                None => rest,
                            },
                            sub.rid,
                        ),
                    )
                },
                None => None,
            },
        }
    }
}

fn find_break(s: &Vec<char>, dash: bool) -> (r: Option<usize>)
    ensures
        r matches Some(k) ==> first_break(s@, dash, 0) == Some(k as int) && k < s@.len(),
        r is None <==> first_break(s@, dash, 0) is None,
{
    let mut i: usize = 0;
    while i < s.len()
        invariant
            i <= s@.len(),
            first_break(s@, dash, 0) == first_break(s@, dash, i as int),
        decreases s.len() - i,
    {
        let c = s[i];
        if (dash && c == '-') || (!dash && (c == '/' || c == '_' || c == ':')) {
            return Some(i);
        }
        i = i + 1;
    }
    None
}

/// Maps a record that a virtual judge reported to the judge it was run on: (judge, problem id,
/// record id), or `None` when the record is not a virtual judge's or its problem id names no judge.
pub fn map_vjudge_to_origin(sub: &Submission) -> (r: Option<(String, String, String)>)
    ensures
        r matches Some((o, p, q)) ==> origin_of(sub@) == Some((o@, p@, q@)),
        r is None <==> origin_of(sub@) is None,
{
    let o = fold_chars(&chars_of(sub.oj.as_str()));
    if !includes(&o, &chars_of("vjudge")) && !includes(&o, &chars_of("virtual")) {
        return None;
    }
    let p = trimmed(&chars_of(sub.pid.as_str()));
    if let Some(k) = find_break(&p, true) {
        return Some((string_of(&prefix(&p, k)), string_of(&suffix(&p, k + 1)), sub.rid.clone()));
    }
    match find_break(&p, false) {
        Some(k) => {
            let rest = suffix(&p, k + 1);
            let second = match find_break(&rest, false) {
                Some(m) => prefix(&rest, m),
                None => rest,
            };
            Some((string_of(&prefix(&p, k)), string_of(&second), sub.rid.clone()))
        },
        None => None,
    }
}

} // verus!
