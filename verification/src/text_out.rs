//! Building text: pushing characters, hexadecimal and decimal digits.
use vstd::prelude::*;

verus! {

/// Appends one character to a string.
///
/// Calls `String::push`, which per its documentation appends the given char to
/// the end of the string; the contract states exactly that.
#[verifier::external_body]
pub(crate) fn push_char(s: &mut String, c: char)
    ensures
        final(s)@ == old(s)@.push(c),
{
    s.push(c)
}

/// The upper-case hexadecimal digit for `d` (which is below 16).
pub open spec fn hex_char(d: nat) -> char {
    if d < 10 {
        (48 + d) as char
    } else {
        (55 + d) as char
    }
}

/// The decimal digit for `d` (which is below 10).
pub open spec fn dec_char(d: nat) -> char {
    (48 + d) as char
}

/// The upper-case hexadecimal digits of `n`, most significant first, without leading zeros
/// (zero is the single digit `0`).
pub open spec fn hex_digits(n: nat) -> Seq<char>
    decreases n,
{
    if n < 16 {
        seq![hex_char(n)]
    } else {
        hex_digits(n / 16).push(hex_char(n % 16))
    }
}

/// The decimal digits of `n`, most significant first, without leading zeros.
pub open spec fn dec_digits(n: nat) -> Seq<char>
    decreases n,
{
    if n < 10 {
        seq![dec_char(n)]
    } else {
        dec_digits(n / 10).push(dec_char(n % 10))
    }
}

/// `k` zero characters.
pub open spec fn zeros(k: nat) -> Seq<char> {
    Seq::new(k, |i: int| '0')
}

/// Whether a character is an upper-case hexadecimal digit.
pub open spec fn is_upper_hex(c: char) -> bool {
    ('0' <= c <= '9') || ('A' <= c <= 'F')
}

/// The value of a hexadecimal digit.
pub open spec fn hex_digit_value(c: char) -> int {
    if c <= '9' {
        c as int - 48
    } else {
        c as int - 55
    }
}

/// The number that hexadecimal digits write, most significant first.
pub open spec fn hex_value(s: Seq<char>) -> int
    decreases s.len(),
{
    if s.len() == 0 {
        0
    } else {
        hex_value(s.drop_last()) * 16 + hex_digit_value(s.last())
    }
}

/// The digits of `n` are upper-case hexadecimal digits that read back as `n`; below `16^4`
/// there are at most four of them.
pub proof fn lemma_hex_digits(n: nat)
    ensures
        forall|i: int| 0 <= i < hex_digits(n).len() ==> is_upper_hex(#[trigger] hex_digits(n)[i]),
        hex_value(hex_digits(n)) == n,
        1 <= hex_digits(n).len(),
        n < 0x10000 ==> hex_digits(n).len() <= 4,
        n < 0x1000 ==> hex_digits(n).len() <= 3,
        n < 0x100 ==> hex_digits(n).len() <= 2,
        n < 0x10 ==> hex_digits(n).len() <= 1,
    decreases n,
{
    if n < 16 {
        let d = hex_digits(n);
        assert(d.drop_last() =~= Seq::<char>::empty());
        assert(hex_value(d.drop_last()) == 0);
        lemma_hex_char(n);
        assert(hex_value(d) == hex_value(d.drop_last()) * 16 + hex_digit_value(d.last()));
    } else {
        lemma_hex_digits(n / 16);
        let d = hex_digits(n);
        assert(d.drop_last() =~= hex_digits(n / 16));
        assert(n == (n / 16) * 16 + n % 16);
        lemma_hex_char(n % 16);
        assert(d.last() == hex_char(n % 16));
        assert(hex_value(d) == hex_value(d.drop_last()) * 16 + hex_digit_value(d.last()));
    }
}

/// A hexadecimal digit is upper case and reads back as its value.
proof fn lemma_hex_char(d: nat)
    requires
        d < 16,
    ensures
        is_upper_hex(hex_char(d)),
        hex_digit_value(hex_char(d)) == d,
{
    if d < 10 {
        assert(((48 + d) as char) as int == 48 + d);
    } else {
        assert(((55 + d) as char) as int == 55 + d);
    }
}

/// Leading zeros do not change the number that digits write.
pub proof fn lemma_hex_value_leading_zeros(k: nat, d: Seq<char>)
    ensures
        hex_value(zeros(k) + d) == hex_value(d),
    decreases d.len(), k,
{
    if d.len() == 0 {
        if k > 0 {
            assert((zeros(k) + d).drop_last() =~= zeros((k - 1) as nat) + d);
            lemma_hex_value_leading_zeros((k - 1) as nat, d);
        } else {
            assert(zeros(k) + d =~= d);
        }
    } else {
        assert((zeros(k) + d).drop_last() =~= zeros(k) + d.drop_last());
        lemma_hex_value_leading_zeros(k, d.drop_last());
    }
}

/// `hex4(n)` of a number below `16^4` is four upper-case hexadecimal digits that read back as
/// `n`.
pub proof fn lemma_hex4(n: nat)
    requires
        n < 0x10000,
    ensures
        hex4(n).len() == 4,
        forall|i: int| 0 <= i < 4 ==> is_upper_hex(#[trigger] hex4(n)[i]),
        hex_value(hex4(n)) == n,
{
    lemma_hex_digits(n);
    let d = hex_digits(n);
    if d.len() < 4 {
        lemma_hex_value_leading_zeros((4 - d.len()) as nat, d);
        assert forall|i: int| 0 <= i < 4 implies is_upper_hex(#[trigger] hex4(n)[i]) by {
            if i >= 4 - d.len() {
                assert(hex4(n)[i] == d[i - (4 - d.len())]);
            }
        }
    }
}

/// `n` in upper-case hexadecimal, zero padded to at least four digits (the `{:04X}` format).
pub open spec fn hex4(n: nat) -> Seq<char> {
    let d = hex_digits(n);
    if d.len() < 4 {
        zeros((4 - d.len()) as nat) + d
    } else {
        d
    }
}

fn hex_char_exec(d: u32) -> (c: char)
    requires
        d < 16,
    ensures
        c == hex_char(d as nat),
{
    match d {
        0 => '0',
        1 => '1',
        2 => '2',
        3 => '3',
        4 => '4',
        5 => '5',
        6 => '6',
        7 => '7',
        8 => '8',
        9 => '9',
        10 => 'A',
        11 => 'B',
        12 => 'C',
        13 => 'D',
        14 => 'E',
        _ => 'F',
    }
}

fn dec_char_exec(d: usize) -> (c: char)
    requires
        d < 10,
    ensures
        c == dec_char(d as nat),
{
    match d {
        0 => '0',
        1 => '1',
        2 => '2',
        3 => '3',
        4 => '4',
        5 => '5',
        6 => '6',
        7 => '7',
        8 => '8',
        _ => '9',
    }
}

/// Appends the hexadecimal digits of `n`.
pub(crate) fn push_hex_digits(s: &mut String, n: u32)
    ensures
        final(s)@ == old(s)@ + hex_digits(n as nat),
    decreases n,
{
    if n < 16 {
        push_char(s, hex_char_exec(n));
    } else {
        push_hex_digits(s, n / 16);
        push_char(s, hex_char_exec(n % 16));
    }
}

/// Appends the decimal digits of `n`.
pub(crate) fn push_dec_digits(s: &mut String, n: usize)
    ensures
        final(s)@ == old(s)@ + dec_digits(n as nat),
    decreases n,
{
    if n < 10 {
        push_char(s, dec_char_exec(n));
    } else {
        push_dec_digits(s, n / 10);
        push_char(s, dec_char_exec(n % 10));
    }
}

/// The number of hexadecimal digits of `n`.
fn hex_len(n: u32) -> (r: usize)
    ensures
        r == hex_digits(n as nat).len(),
        r <= 8,
    decreases n,
{
    if n < 16 {
        1
    } else {
        let k = hex_len(n / 16);
        proof {
            lemma_hex_len_bound(n as nat);
        }
        k + 1
    }
}

proof fn lemma_hex_len_bound(n: nat)
    requires
        n < 0x1_0000_0000,
    ensures
        hex_digits(n).len() <= 8,
    decreases n,
{
    assert(pow16(8) == 0x1_0000_0000) by {
        reveal_with_fuel(pow16, 9);
    }
    lemma_hex_len_bound_k(n, 8);
}

proof fn lemma_hex_len_bound_k(n: nat, k: nat)
    requires
        k >= 1,
        n < pow16(k),
    ensures
        hex_digits(n).len() <= k,
    decreases n,
{
    if n >= 16 {
        assert(k >= 2) by {
            if k < 2 {
                assert(pow16(1) == 16) by {
                    reveal_with_fuel(pow16, 2);
                }
            }
        }
        assert(pow16(k) == 16 * pow16((k - 1) as nat));
        assert(n / 16 < pow16((k - 1) as nat));
        lemma_hex_len_bound_k(n / 16, (k - 1) as nat);
    }
}

/// 16 to the power `k`.
pub open spec fn pow16(k: nat) -> nat
    decreases k,
{
    if k == 0 {
        1
    } else {
        16 * pow16((k - 1) as nat)
    }
}

/// Appends `n` in hexadecimal, zero padded to four digits (`{:04X}`).
pub(crate) fn push_hex4(s: &mut String, n: u32)
    ensures
        final(s)@ == old(s)@ + hex4(n as nat),
{
    let len = hex_len(n);
    let ghost start = s@;
    let mut k: usize = len;
    while k < 4
        invariant
            len == hex_digits(n as nat).len(),
            len <= k <= 4 || (len > 4 && k == len),
            s@ == start + zeros((k - len) as nat),
        decreases 4 - k,
    {
        push_char(s, '0');
        proof {
            assert(zeros((k + 1 - len) as nat) == zeros((k - len) as nat).push('0'));
        }
        k = k + 1;
    }
    push_hex_digits(s, n);
    proof {
        if len >= 4 {
            assert(zeros(0) == Seq::<char>::empty());
            assert(start + Seq::<char>::empty() == start);
        }
    }
}

} // verus!

verus! {

/// Whether two strings are equal: their UTF-8 bytes compared one by one.
pub(crate) fn str_eq(a: &str, b: &str) -> (r: bool)
    ensures
        r == (a@ == b@),
{
    let x = a.as_bytes();
    let y = b.as_bytes();
    proof {
        vstd::utf8::encode_utf8_decode_utf8(a@);
        vstd::utf8::encode_utf8_decode_utf8(b@);
        assert(x@ == vstd::utf8::encode_utf8(a@));
        assert(y@ == vstd::utf8::encode_utf8(b@));
    }
    if x.len() != y.len() {
        return false;
    }
    let mut i: usize = 0;
    while i < x.len()
        invariant
            i <= x@.len(),
            x@.len() == y@.len(),
            x@ == vstd::utf8::encode_utf8(a@),
            y@ == vstd::utf8::encode_utf8(b@),
            forall|j: int| 0 <= j < i ==> x@[j] == y@[j],
        decreases x.len() - i,
    {
        if x[i] != y[i] {
            assert(x@ != y@);
            return false;
        }
        i = i + 1;
    }
    assert(x@ =~= y@);
    true
}

} // verus!
