use vstd::prelude::*;

verus! {

/// Relies on `String::push`: appends one character at the end.
#[verifier::external_body]
pub(crate) fn push_char(s: &mut String, c: char)
    ensures
        final(s)@ == old(s)@.push(c),
{
    s.push(c)
}

/// The parts joined, with `sep` between each two.
pub open spec fn join(parts: Seq<Seq<char>>, sep: Seq<char>) -> Seq<char>
    decreases parts.len(),
{
    if parts.len() == 0 {
        Seq::empty()
    } else if parts.len() == 1 {
        parts[0]
    } else {
        join(parts.drop_last(), sep) + sep + parts.last()
    }
}

/// The ASCII digit for `d < 10`.
pub open spec fn digit_char(d: nat) -> char {
    ((d + 48) as u8) as char
}

/// Decimal text of `n`, without leading zeros.
pub open spec fn dec_text(n: nat) -> Seq<char>
    decreases n,
{
    if n < 10 {
        seq![digit_char(n)]
    } else {
        dec_text(n / 10).push(digit_char(n % 10))
    }
}

/// Lower-case hexadecimal digit for `d < 16`.
pub open spec fn hex_char(d: nat) -> char {
    if d < 10 {
        ((d + 48) as u8) as char
    } else {
        ((d + 87) as u8) as char
    }
}

/// Two lower-case hexadecimal digits of a byte.
pub open spec fn hex_byte(b: u8) -> Seq<char> {
    seq![hex_char(b as nat / 16), hex_char(b as nat % 16)]
}

/// Appends the decimal text of `n`.
pub fn push_dec(s: &mut String, n: u8)
    ensures
        final(s)@ == old(s)@ + dec_text(n as nat),
{
    if n >= 100 {
        push_char(s, ((n / 100) + 48) as char);
        push_char(s, ((n / 10 % 10) + 48) as char);
        push_char(s, ((n % 10) + 48) as char);
        let ghost m = n as nat;
        assert(m / 10 / 10 == m / 100);
        assert(dec_text(m / 100) == seq![digit_char(m / 100)]);
        assert(dec_text(m / 10) == dec_text(m / 100).push(digit_char(m / 10 % 10)));
        assert(dec_text(m) == dec_text(m / 10).push(digit_char(m % 10)));
        assert(dec_text(m) =~= seq![digit_char(m / 100), digit_char(m / 10 % 10), digit_char(m % 10)]);
    } else if n >= 10 {
        push_char(s, ((n / 10) + 48) as char);
        push_char(s, ((n % 10) + 48) as char);
        let ghost m = n as nat;
        assert(dec_text(m / 10) == seq![digit_char(m / 10)]);
        assert(dec_text(m) == dec_text(m / 10).push(digit_char(m % 10)));
        assert(dec_text(m) =~= seq![digit_char(m / 10), digit_char(m % 10)]);
    } else {
        push_char(s, (n + 48) as char);
    }
}

fn hex_digit(d: u8) -> (c: char)
    requires
        d < 16,
    ensures
        c == hex_char(d as nat),
{
    if d < 10 {
        (d + 48) as char
    } else {
        (d + 87) as char
    }
}

/// Appends the two hexadecimal digits of `b`.
pub fn push_hex(s: &mut String, b: u8)
    ensures
        final(s)@ == old(s)@ + hex_byte(b),
{
    push_char(s, hex_digit(b / 16));
    push_char(s, hex_digit(b % 16));
}

} // verus!
