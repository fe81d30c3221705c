use vstd::prelude::*;
use crate::error::{ErrorKind, NetRouteError, fail};

verus! {

/// The characters that `char::is_whitespace` accepts (Unicode White_Space).
pub open spec fn is_space(c: char) -> bool {
    ('\u{9}' <= c && c <= '\u{d}') || c == ' ' || c == '\u{85}' || c == '\u{a0}' || c
        == '\u{1680}' || ('\u{2000}' <= c && c <= '\u{200a}') || c == '\u{2028}' || c
        == '\u{2029}' || c == '\u{202f}' || c == '\u{205f}' || c == '\u{3000}'
}

fn is_space_char(c: char) -> (b: bool)
    ensures
        b == is_space(c),
{
    ('\u{9}' <= c && c <= '\u{d}') || c == ' ' || c == '\u{85}' || c == '\u{a0}' || c
        == '\u{1680}' || ('\u{2000}' <= c && c <= '\u{200a}') || c == '\u{2028}' || c
        == '\u{2029}' || c == '\u{202f}' || c == '\u{205f}' || c == '\u{3000}'
}

/// `s` without its leading white space.
pub open spec fn trim_start_spec(s: Seq<char>) -> Seq<char>
    decreases s.len(),
{
    if s.len() > 0 && is_space(s[0]) {
        trim_start_spec(s.skip(1))
    } else {
        s
    }
}

/// `s` without its trailing white space.
pub open spec fn trim_end_spec(s: Seq<char>) -> Seq<char>
    decreases s.len(),
{
    if s.len() > 0 && is_space(s.last()) {
        trim_end_spec(s.drop_last())
    } else {
        s
    }
}

/// `s` without leading and trailing white space, as `str::trim` gives it.
pub open spec fn trim_spec(s: Seq<char>) -> Seq<char> {
    trim_end_spec(trim_start_spec(s))
}

/// `c` is the letter given in either case.
pub open spec fn is_letter(c: char, lower: char, upper: char) -> bool {
    c == lower || c == upper
}

/// A confirmation answer approves when, trimmed, it reads `y` or `yes` in
/// any case.
pub open spec fn approves(s: Seq<char>) -> bool {
    let t = trim_spec(s);
    (t.len() == 1 && is_letter(t[0], 'y', 'Y')) || (t.len() == 3 && is_letter(t[0], 'y', 'Y')
        && is_letter(t[1], 'e', 'E') && is_letter(t[2], 's', 'S'))
}

/// The answer that cancels a numeric choice: `n` or `N`, trimmed.
pub open spec fn is_cancel(s: Seq<char>) -> bool {
    let t = trim_spec(s);
    t.len() == 1 && is_letter(t[0], 'n', 'N')
}

pub open spec fn is_digit(c: char) -> bool {
    '0' <= c && c <= '9'
}

pub open spec fn digit_value(c: char) -> nat {
    (c as u32 - '0' as u32) as nat
}

/// The number that a run of decimal digits denotes.
pub open spec fn digits_value(s: Seq<char>) -> nat
    decreases s.len(),
{
    if s.len() == 0 {
        0
    } else {
        digits_value(s.drop_last()) * 10 + digit_value(s.last())
    }
}

pub open spec fn all_digits(s: Seq<char>) -> bool {
    forall|i: int| 0 <= i < s.len() ==> is_digit(#[trigger] s[i])
}

/// The digits of a decimal numeral as `usize::from_str` reads it: an
/// optional `+`, then at least one ASCII digit.
pub open spec fn numeral_digits(s: Seq<char>) -> Seq<char> {
    if s.len() > 0 && s[0] == '+' {
        s.skip(1)
    } else {
        s
    }
}

pub open spec fn is_numeral(s: Seq<char>) -> bool {
    let d = numeral_digits(s);
    d.len() > 0 && all_digits(d)
}

/// The `usize` that `s` denotes, if it is a numeral whose value fits.
pub open spec fn parse_usize_spec(s: Seq<char>) -> Option<usize> {
    if is_numeral(s) && digits_value(numeral_digits(s)) <= usize::MAX {
        Some(digits_value(numeral_digits(s)) as usize)
    } else {
        None
    }
}

proof fn lemma_digits_monotone(s: Seq<char>, j: int)
    requires
        0 <= j <= s.len(),
    ensures
        digits_value(s.take(j)) <= digits_value(s),
    decreases s.len(),
{
    if j < s.len() {
        assert(s.drop_last().take(j) == s.take(j));
        lemma_digits_monotone(s.drop_last(), j);
    } else {
        assert(s.take(j) == s);
    }
}

/// Bounds `(a, b)` with `s[a..b]` the trimmed text.
fn trim_bounds(s: &str) -> (r: (usize, usize))
    ensures
        r.0 <= r.1 <= s@.len(),
        s@.subrange(r.0 as int, r.1 as int) == trim_spec(s@),
{
    let n = s.unicode_len();
    let mut a: usize = 0;
    assert(s@.skip(0) == s@);
    while a < n && is_space_char(s.get_char(a))
        invariant
            a <= n,
            n == s@.len(),
            trim_start_spec(s@) == trim_start_spec(s@.skip(a as int)),
        decreases n - a,
    {
        proof {
            assert(s@.skip(a as int).skip(1) == s@.skip(a as int + 1));
        }
        a = a + 1;
    }
    let ghost t = s@.skip(a as int);
    assert(trim_start_spec(t) == t);
    let mut b: usize = n;
    while b > a && is_space_char(s.get_char(b - 1))
        invariant
            a <= b <= n,
            n == s@.len(),
            t == s@.skip(a as int),
            trim_end_spec(t) == trim_end_spec(s@.subrange(a as int, b as int)),
        decreases b,
    {
        proof {
            assert(s@.subrange(a as int, b as int).drop_last() == s@.subrange(
                a as int,
                b - 1,
            ));
        }
        b = b - 1;
    }
    proof {
        assert(t == s@.subrange(a as int, n as int));
    }
    (a, b)
}

/// `s` without leading and trailing white space.
pub fn trim(s: &str) -> (r: &str)
    ensures
        r@ == trim_spec(s@),
{
    let (a, b) = trim_bounds(s);
    s.substring_char(a, b)
}

fn letter_at(s: &str, i: usize, lower: char, upper: char) -> (b: bool)
    requires
        i < s@.len(),
    ensures
        b == is_letter(s@[i as int], lower, upper),
{
    let c = s.get_char(i);
    c == lower || c == upper
}

/// Whether the confirmation answer `input` approves.
pub fn is_approval(input: &str) -> (b: bool)
    ensures
        b == approves(input@),
{
    let t = trim(input);
    let n = t.unicode_len();
    if n == 1 {
        letter_at(t, 0, 'y', 'Y')
    } else if n == 3 {
        letter_at(t, 0, 'y', 'Y') && letter_at(t, 1, 'e', 'E') && letter_at(t, 2, 's', 'S')
    } else {
        false
    }
}

/// Whether the answer `input` to a numeric choice cancels it.
pub fn is_cancel_reply(input: &str) -> (b: bool)
    ensures
        b == is_cancel(input@),
{
    let t = trim(input);
    t.unicode_len() == 1 && letter_at(t, 0, 'n', 'N')
}

/// The `usize` that `s` denotes, or `None` where `s` is no numeral or the
/// value does not fit.
pub fn parse_usize(s: &str) -> (r: Option<usize>)
    ensures
        r == parse_usize_spec(s@),
{
    let n = s.unicode_len();
    let start: usize = if n > 0 && s.get_char(0) == '+' {
        1
    } else {
        0
    };
    let ghost d = numeral_digits(s@);
    assert(d == s@.skip(start as int));
    if start == n {
        return None;
    }
    let mut acc: usize = 0;
    let mut i: usize = start;
    while i < n
        invariant
            start <= i <= n,
            n == s@.len(),
            d == s@.skip(start as int),
            d == numeral_digits(s@),
            all_digits(d.take(i - start)),
            acc == digits_value(d.take(i - start)),
        decreases n - i,
    {
        let c = s.get_char(i);
        proof {
            assert(d[i - start] == c);
            assert(d.take(i - start + 1).drop_last() == d.take(i - start));
            assert(d.take(i - start + 1).last() == c);
        }
        if !('0' <= c && c <= '9') {
            assert(!is_digit(d[i - start]));
            return None;
        }
        let v = (c as u32 - '0' as u32) as usize;
        if acc > (usize::MAX - v) / 10 {
            proof {
                assert(digits_value(d.take(i - start + 1)) == acc * 10 + v);
                assert(acc * 10 + v > usize::MAX) by (nonlinear_arith)
                    requires
                        acc > (usize::MAX - v) / 10,
                        v <= 9,
                ;
                lemma_digits_monotone(d, i - start + 1);
            }
            return None;
        }
        proof {
            assert(acc * 10 + v <= usize::MAX) by (nonlinear_arith)
                requires
                    acc <= (usize::MAX - v) / 10,
                    v <= 9,
            ;
            assert(forall|k: int|
                0 <= k < i - start + 1 ==> #[trigger] d.take(i - start + 1)[k] == d[k]);
        }
        acc = acc * 10 + v;
        i = i + 1;
    }
    proof {
        assert(d.take(n - start) == d);
    }
    Some(acc)
}

/// What an answer to a numeric choice between `min` and `max` means.
#[derive(Clone, Copy, Debug, PartialEq, Eq, Structural)]
pub enum SelectionReply {
    /// A number in range.
    Chosen(usize),
    /// `n` or `N`: the operator gave up.
    Cancelled,
    /// Anything else: ask again.
    Invalid,
}

pub open spec fn selection_reply_spec(s: Seq<char>, min: usize, max: usize) -> SelectionReply {
    if is_cancel(s) {
        SelectionReply::Cancelled
    } else {
        match parse_usize_spec(trim_spec(s)) {
            Some(v) => if min <= v && v <= max {
                SelectionReply::Chosen(v)
            } else {
                SelectionReply::Invalid
            },
            None => SelectionReply::Invalid,
        }
    }
}

/// Reads one answer to a numeric choice.
pub fn selection_reply(input: &str, min: usize, max: usize) -> (r: SelectionReply)
    ensures
        r == selection_reply_spec(input@, min, max),
{
    if is_cancel_reply(input) {
        return SelectionReply::Cancelled;
    }
    match parse_usize(trim(input)) {
        Some(v) => if min <= v && v <= max {
            SelectionReply::Chosen(v)
        } else {
            SelectionReply::Invalid
        },
        None => SelectionReply::Invalid,
    }
}

/// A numeric choice needs `min <= max`.
pub fn check_select_range(min: usize, max: usize) -> (r: Result<(), NetRouteError>)
    ensures
        r is Ok <==> min <= max,
        r is Err ==> r->Err_0.kind == ErrorKind::InvalidRange,
{
    if min > max {
        Err(fail(ErrorKind::InvalidRange, "最小值不能大于最大值"))
    } else {
        Ok(())
    }
}

/// A confirmation needs a prompt to show.
pub fn check_prompt(message: &str) -> (r: Result<(), NetRouteError>)
    ensures
        r is Ok <==> message@.len() > 0,
        r is Err ==> r->Err_0.kind == ErrorKind::EmptyPrompt,
{
    if message.unicode_len() == 0 {
        Err(fail(ErrorKind::EmptyPrompt, "输入不能为空"))
    } else {
        Ok(())
    }
}

/// The outcome of a confirmation: approval, or `UserCancelled` for any
/// other answer.
pub fn confirmation_reply(input: &str) -> (r: Result<(), NetRouteError>)
    ensures
        r is Ok <==> approves(input@),
        r is Err ==> r->Err_0.kind == ErrorKind::UserCancelled,
{
    if is_approval(input) {
        Ok(())
    } else {
        Err(fail(ErrorKind::UserCancelled, "用户取消操作"))
    }
}

} // verus!
