//! Queries shared by the site extractors, and the check that ends every extraction.

use vstd::prelude::*;

use crate::markup::{element_text, opt_chars, select, selection, text, Page};
use crate::text::{
    all_digits, fold, fold_chars, is_space, only_digits, space, suffix, trim, trim_end, trimmed,
};
use crate::utils::{capped_value, digits_value};

verus! {

/// The first element that `selector` matches within `scope`.
pub open spec fn first_in(source: Seq<char>, scope: Option<usize>, selector: Seq<char>) -> Option<
    usize,
> {
    match selection(source, scope, selector) {
        Some(found) => if found.len() > 0 {
            Some(found[0])
        } else {
            None
        },
        None => None,
    }
}

/// The trimmed text of the first element that `selector` matches within `scope`.
pub open spec fn first_text_in(source: Seq<char>, scope: Option<usize>, selector: Seq<char>) -> Option<
    Seq<char>,
> {
    match first_in(source, scope, selector) {
        Some(n) => Some(trim(element_text(source, n))),
        None => None,
    }
}

/// The elements that `selector` matches within `scope`; none when the selector does not parse.
pub open spec fn all_in(source: Seq<char>, scope: Option<usize>, selector: Seq<char>) -> Seq<usize> {
    match selection(source, scope, selector) {
        Some(found) => found,
        None => Seq::empty(),
    }
}

pub fn first(page: &Page, scope: Option<usize>, selector: &str) -> (r: Option<usize>)
    ensures
        r == first_in(page@, scope, selector@),
{
    match select(page, scope, selector) {
        Some(found) => if found.len() > 0 {
            Some(found[0])
        } else {
            None
        },
        None => None,
    }
}

pub fn all(page: &Page, scope: Option<usize>, selector: &str) -> (r: Vec<usize>)
    ensures
        r@ == all_in(page@, scope, selector@),
{
    match select(page, scope, selector) {
        Some(found) => found,
        None => Vec::new(),
    }
}

pub fn trimmed_text(page: &Page, node: usize) -> (r: Vec<char>)
    ensures
        r@ == trim(element_text(page@, node)),
{
    trimmed(&text(page, node))
}

pub fn first_text(page: &Page, scope: Option<usize>, selector: &str) -> (r: Option<Vec<char>>)
    ensures
        opt_chars(r) == first_text_in(page@, scope, selector@),
{
    match first(page, scope, selector) {
        Some(n) => Some(trimmed_text(page, n)),
        None => None,
    }
}

/// A decimal integer `[+-]digits` that fits `i32`, as `str::parse::<i32>` reads it.
pub open spec fn int_of(s: Seq<char>) -> Option<i32> {
    let signed = s.len() > 0 && (s[0] == '-' || s[0] == '+');
    let d = if signed {
        s.drop_first()
    } else {
        s
    };
    let v = if signed && s[0] == '-' {
        -digits_value(d)
    } else {
        digits_value(d) as int
    };
    if d.len() > 0 && all_digits(d) && i32::MIN <= v <= i32::MAX {
        Some(v as i32)
    } else {
        None
    }
}

pub fn parse_int(s: &Vec<char>) -> (r: Option<i32>)
    ensures
        r == int_of(s@),
{
    let n = s.len();
    let signed = n > 0 && (s[0] == '-' || s[0] == '+');
    let negative = signed && s[0] == '-';
    let d = if signed {
        suffix(s, 1)
    } else {
        suffix(s, 0)
    };
    assert(s@.skip(0) =~= s@);
    assert(signed ==> s@.skip(1) =~= s@.drop_first());
    if d.len() == 0 || !only_digits(&d) {
        return None;
    }
    let w = capped_value(&d);
    if negative {
        if w > 2147483648 {
            None
        } else {
            Some((0 - (w as i64)) as i32)
        }
    } else if w > 2147483647 {
        None
    } else {
        Some(w as i32)
    }
}

/// The last whitespace-separated word of `s`; empty when `s` holds none.
pub open spec fn last_word(s: Seq<char>) -> Seq<char> {
    tail_word(trim_end(s))
}

pub open spec fn tail_word(t: Seq<char>) -> Seq<char>
    decreases t.len(),
{
    if t.len() == 0 || is_space(t.last()) {
        Seq::empty()
    } else {
        tail_word(t.drop_last()).push(t.last())
    }
}

/// The first `f(items[k])` that is `Some`, for `k` from `i` on.
pub open spec fn first_some<T>(items: Seq<usize>, f: spec_fn(usize) -> Option<T>, i: int) -> Option<T>
    decreases items.len() - i,
{
    if i < 0 || i >= items.len() {
        None
    } else {
        match f(items[i]) {
            Some(v) => Some(v),
            None => first_some(items, f, i + 1),
        }
    }
}

/// The value of an optional number, `0` when absent.
pub open spec fn or_zero(v: Option<i32>) -> i32 {
    match v {
        Some(x) => x,
        None => 0,
    }
}

/// The value of optional text, empty when absent.
pub open spec fn or_empty(v: Option<Seq<char>>) -> Seq<char> {
    match v {
        Some(x) => x,
        None => Seq::empty(),
    }
}

pub fn text_or_empty(v: Option<Vec<char>>) -> (r: Vec<char>)
    ensures
        r@ == or_empty(opt_chars(v)),
{
    match v {
        Some(x) => x,
        None => Vec::new(),
    }
}

/// The last whitespace-separated word of `s`.
pub fn last_word_of(s: &Vec<char>) -> (r: Vec<char>)
    ensures
        r@ == last_word(s@),
{
    let mut b: usize = s.len();
    assert(s@.take(s@.len() as int) =~= s@);
    while b > 0 && space(s[b - 1])
        invariant
            b <= s@.len(),
            trim_end(s@) == trim_end(s@.take(b as int)),
        decreases b,
    {
        assert(s@.take(b as int).drop_last() =~= s@.take(b - 1));
        b = b - 1;
    }
    assert(s@.take(s@.len() as int) =~= s@);
    let ghost t = s@.take(b as int);
    assert(trim_end(t) == t);
    let mut a: usize = b;
    while a > 0 && !space(s[a - 1])
        invariant
            a <= b <= s@.len(),
            t == s@.take(b as int),
            tail_word(t) == tail_word(s@.take(a as int)) + s@.subrange(a as int, b as int),
        decreases a,
    {
        assert(s@.take(a as int).drop_last() =~= s@.take(a - 1));
        assert(s@.subrange(a - 1, b as int) =~= seq![s@[a - 1]] + s@.subrange(a as int, b as int));
        assert(tail_word(s@.take(a as int)) == tail_word(s@.take(a - 1)).push(s@[a - 1]));
        assert(tail_word(s@.take(a - 1)).push(s@[a - 1]) + s@.subrange(a as int, b as int)
            =~= tail_word(s@.take(a - 1)) + s@.subrange(a - 1, b as int));
        a = a - 1;
    }
    assert(tail_word(s@.take(a as int)) =~= Seq::<char>::empty());
    assert(Seq::<char>::empty() + s@.subrange(a as int, b as int) =~= s@.subrange(a as int, b as int));
    let mut r: Vec<char> = Vec::new();
    for i in a..b
        invariant
            a <= b <= s@.len(),
            r@ == s@.subrange(a as int, i as int),
    {
        r.push(s[i]);
        assert(s@.subrange(a as int, i + 1) =~= s@.subrange(a as int, i as int).push(s@[i as int]));
    }
    r
}


/// A table row's header (its first `th`, ASCII letters folded) and value (its first `td`,
/// trimmed), when it has both.
pub open spec fn row_cells(source: Seq<char>, row: usize) -> Option<(Seq<char>, Seq<char>)> {
    match (first_in(source, Some(row), "th"@), first_in(source, Some(row), "td"@)) {
        (Some(th), Some(td)) => Some((fold(element_text(source, th)), trim(element_text(source, td)))),
        _ => None,
    }
}

pub fn row_cells_of(page: &Page, row: usize) -> (r: Option<(Vec<char>, Vec<char>)>)
    ensures
        r matches Some((h, v)) ==> row_cells(page@, row) == Some((h@, v@)),
        r is None <==> row_cells(page@, row) is None,
{
    let th = first(page, Some(row), "th");
    let td = first(page, Some(row), "td");
    match (th, td) {
        (Some(th), Some(td)) => Some((fold_chars(&text(page, th)), trimmed_text(page, td))),
        _ => None,
    }
}

} // verus!
