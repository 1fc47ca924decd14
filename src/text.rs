//! Rendering of unsigned integers as fixed-width hexadecimal and as decimal text.
use vstd::prelude::*;

verus! {

/// The lowercase hexadecimal digit of `d`, for `d < 16`.
pub open spec fn hex_char(d: nat) -> char {
    seq!['0', '1', '2', '3', '4', '5', '6', '7', '8', '9', 'a', 'b', 'c', 'd', 'e', 'f'][d as int]
}

/// The decimal digit of `d`, for `d < 10`.
pub open spec fn decimal_char(d: nat) -> char {
    hex_char(d)
}

/// The `w` low nibbles of `n` as hexadecimal digits, most significant first,
/// padded with zeros.
pub open spec fn hex_digits(n: u64, w: nat) -> Seq<char> {
    Seq::new(w, |k: int| hex_char(((n >> (4 * (w - 1 - k)) as u64) & 0xfu64) as nat))
}

/// `n` written in decimal, without leading zeros (`"0"` for zero).
pub open spec fn decimal(n: nat) -> Seq<char>
    decreases n,
{
    if n < 10 {
        seq![decimal_char(n)]
    } else {
        decimal(n / 10).push(decimal_char(n % 10))
    }
}

/// Relies on `String::push`: appends one character.
#[verifier::external_body]
pub(crate) fn push_char(s: &mut String, c: char)
    ensures
        final(s)@ == old(s)@.push(c),
{
    s.push(c)
}

/// Digit `d` in lowercase hexadecimal.
fn digit_char(d: u64) -> (c: char)
    requires
        d < 16,
    ensures
        c == hex_char(d as nat),
{
    let digits: [char; 16] = [
        '0', '1', '2', '3', '4', '5', '6', '7', '8', '9', 'a', 'b', 'c', 'd', 'e', 'f',
    ];
    assert(digits@ =~= seq![
        '0', '1', '2', '3', '4', '5', '6', '7', '8', '9', 'a', 'b', 'c', 'd', 'e', 'f',
    ]);
    digits[d as usize]
}

/// Appends the `width` low nibbles of `n` in hexadecimal, zero-padded.
pub fn push_hex(s: &mut String, n: u64, width: usize)
    requires
        width <= 16,
    ensures
        final(s)@ == old(s)@ + hex_digits(n, width as nat),
{
    let ghost start = s@;
    let mut k: usize = 0;
    while k < width
        invariant
            k <= width <= 16,
            s@ == start + hex_digits(n, width as nat).take(k as int),
        decreases width - k,
    {
        let shift: u64 = 4 * ((width - 1 - k) as u64);
        let d = (n >> shift) & 0xfu64;
        assert(d < 16) by (bit_vector)
            requires
                d == (n >> shift) & 0xfu64,
        ;
        let c = digit_char(d);
        push_char(s, c);
        k = k + 1;
        assert(hex_digits(n, width as nat).take(k as int) =~= hex_digits(
            n,
            width as nat,
        ).take(k - 1).push(c));
    }
    assert(hex_digits(n, width as nat).take(width as int) =~= hex_digits(n, width as nat));
}

/// Appends `n` in decimal.
pub fn push_decimal(s: &mut String, n: u128)
    ensures
        final(s)@ == old(s)@ + decimal(n as nat),
    decreases n,
{
    let ghost start = s@;
    if n >= 10 {
        push_decimal(s, n / 10);
    }
    let c = digit_char((n % 10) as u64);
    push_char(s, c);
    if n >= 10 {
        assert(s@ =~= start + decimal(n as nat));
    } else {
        assert(s@ =~= start + decimal(n as nat));
    }
}

} // verus!
