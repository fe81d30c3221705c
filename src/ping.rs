use vstd::prelude::*;

verus! {

/// The text that GBK-encoded bytes decode to (a byte-order mark, where there
/// is one, choosing the encoding instead).
pub uninterp spec fn gbk_text(bytes: Seq<u8>) -> Seq<char>;

/// Relies on `encoding_rs::Encoding::decode` on `GBK`: the decoded text,
/// malformed sequences replaced, depends on the bytes alone.
#[verifier::external_body]
fn decode_gbk(bytes: &Vec<u8>) -> (r: String)
    ensures
        r@ == gbk_text(bytes@),
{
    encoding_rs::GBK.decode(bytes.as_slice()).0.into_owned()
}

/// `pat` occurs in `text` at position `i`.
pub open spec fn occurs_at(text: Seq<char>, pat: Seq<char>, i: int) -> bool {
    0 <= i && i + pat.len() <= text.len() && text.subrange(i, i + pat.len()) == pat
}

/// `pat` occurs somewhere in `text`.
pub open spec fn has_text(text: Seq<char>, pat: Seq<char>) -> bool {
    exists|i: int| occurs_at(text, pat, i)
}

/// A probe's output reports success when it shows a reply ("来自"), a
/// reply size ("字节=") and no total loss ("100% 丢失").
pub open spec fn reply_ok(text: Seq<char>) -> bool {
    has_text(text, "来自"@) && has_text(text, "字节="@) && !has_text(text, "100% 丢失"@)
}

fn occurs_at_exec(text: &str, n: usize, pat: &str, m: usize, i: usize) -> (b: bool)
    requires
        n == text@.len(),
        m == pat@.len(),
        i + m <= n,
    ensures
        b == occurs_at(text@, pat@, i as int),
{
    let mut k: usize = 0;
    while k < m
        invariant
            k <= m,
            n == text@.len(),
            m == pat@.len(),
            i + m <= n,
            forall|j: int| 0 <= j < k ==> text@[i + j] == pat@[j],
        decreases m - k,
    {
        if text.get_char(i + k) != pat.get_char(k) {
            assert(text@.subrange(i as int, i + m)[k as int] != pat@[k as int]);
            return false;
        }
        k = k + 1;
    }
    assert(text@.subrange(i as int, i + m) =~= pat@);
    true
}

/// Whether `pat` occurs in `text`.
pub fn contains_text(text: &str, pat: &str) -> (b: bool)
    ensures
        b == has_text(text@, pat@),
{
    let n = text.unicode_len();
    let m = pat.unicode_len();
    if m > n {
        return false;
    }
    let last = n - m;
    let mut i: usize = 0;
    loop
        invariant
            m <= n,
            last == n - m,
            i <= last,
            n == text@.len(),
            m == pat@.len(),
            forall|j: int| 0 <= j < i ==> !occurs_at(text@, pat@, j),
        decreases last - i,
    {
        if occurs_at_exec(text, n, pat, m, i) {
            return true;
        }
        if i == last {
            return false;
        }
        i = i + 1;
    }
}

/// Whether a probe's decoded output reports the target reachable.
pub fn reply_indicates_success(output: &str) -> (b: bool)
    ensures
        b == reply_ok(output@),
{
    contains_text(output, "来自") && contains_text(output, "字节=") && !contains_text(
        output,
        "100% 丢失",
    )
}

/// Whether a probe's raw (GBK) output reports the target reachable. The
/// verdict is advisory: nothing in this library makes it a precondition.
pub fn ping_output_reachable(stdout: &Vec<u8>) -> (b: bool)
    ensures
        b == reply_ok(gbk_text(stdout@)),
{
    let text = decode_gbk(stdout);
    reply_indicates_success(text.as_str())
}

/// The decoded text of a probe's raw (GBK) output, to show the operator.
pub fn ping_output_text(stdout: &Vec<u8>) -> (r: String)
    ensures
        r@ == gbk_text(stdout@),
{
    decode_gbk(stdout)
}

} // verus!
