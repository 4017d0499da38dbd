//! Number formatting used by the register view, the hover labels and the
//! simulator's halt messages: fixed-width hexadecimal and binary notation,
//! decimal notation (unsigned and two's complement), and padding.
use vstd::prelude::*;

verus! {

/// The character that writes digit `d` (`d < 16`): `0`-`9`, then `a`-`f`.
pub open spec fn digit_char(d: nat) -> char {
    if d < 10 {
        (48 + d) as char
    } else {
        (87 + d) as char
    }
}

/// The value of a digit character written by `digit_char`.
pub open spec fn char_digit(c: char) -> nat {
    if '0' <= c && c <= '9' {
        (c as int - 48) as nat
    } else if 'a' <= c && c <= 'f' {
        (c as int - 87) as nat
    } else {
        0
    }
}

/// `base` to the power `e`.
pub open spec fn power(base: nat, e: nat) -> nat
    decreases e,
{
    if e == 0 {
        1
    } else {
        base * power(base, (e - 1) as nat)
    }
}

/// The `width` lowest digits of `n` in base `base`, most significant first,
/// with leading zeros.
pub open spec fn fixed_digits(n: nat, base: nat, width: nat) -> Seq<char>
    decreases width,
{
    if width == 0 {
        Seq::empty()
    } else {
        fixed_digits(n / base, base, (width - 1) as nat).push(digit_char(n % base))
    }
}

/// Decimal notation of `n`, without leading zeros (`"0"` for zero).
pub open spec fn decimal(n: nat) -> Seq<char>
    decreases n,
{
    if n < 10 {
        seq![digit_char(n)]
    } else {
        decimal(n / 10).push(digit_char(n % 10))
    }
}

/// The number that a string of digits in base `base` denotes.
pub open spec fn digits_value(s: Seq<char>, base: nat) -> nat
    decreases s.len(),
{
    if s.len() == 0 {
        0
    } else {
        digits_value(s.drop_last(), base) * base + char_digit(s.last())
    }
}

/// `{:#010x}` of a 32-bit value: `0x` and eight lower-case hexadecimal digits.
pub open spec fn hex_text(v: u32) -> Seq<char> {
    seq!['0', 'x'] + fixed_digits(v as nat, 16, 8)
}

/// `{:#034b}` of a 32-bit value: `0b` and thirty-two binary digits.
pub open spec fn bin_text(v: u32) -> Seq<char> {
    seq!['0', 'b'] + fixed_digits(v as nat, 2, 32)
}

/// The value of a 32-bit word read as a two's complement `i32`.
pub open spec fn as_signed(v: u32) -> int {
    if v < 0x8000_0000 {
        v as int
    } else {
        v as int - 0x1_0000_0000
    }
}

/// Decimal notation of an integer, with a leading `-` for negative values.
pub open spec fn signed_decimal(x: int) -> Seq<char> {
    if x < 0 {
        seq!['-'] + decimal((-x) as nat)
    } else {
        decimal(x as nat)
    }
}

/// `s` padded on the right with spaces to at least `width` characters
/// (what `{:<width}` does).
pub open spec fn pad_right(s: Seq<char>, width: nat) -> Seq<char> {
    if s.len() >= width {
        s
    } else {
        s + Seq::new((width - s.len()) as nat, |i: int| ' ')
    }
}

/// Byte `k` (0 to 3) of `w`, most significant first.
pub open spec fn be_byte(w: u32, k: int) -> u8 {
    if k == 0 {
        (w / 0x100_0000) as u8
    } else if k == 1 {
        ((w / 0x1_0000) % 0x100) as u8
    } else if k == 2 {
        ((w / 0x100) % 0x100) as u8
    } else {
        (w % 0x100) as u8
    }
}

/// The bytes of `w`, most significant first (`u32::to_be_bytes`).
pub open spec fn be_bytes(w: u32) -> Seq<u8> {
    seq![be_byte(w, 0), be_byte(w, 1), be_byte(w, 2), be_byte(w, 3)]
}

/// The bytes of `w`, least significant first (`u32::to_le_bytes`).
pub open spec fn le_bytes(w: u32) -> Seq<u8> {
    seq![be_byte(w, 3), be_byte(w, 2), be_byte(w, 1), be_byte(w, 0)]
}

/// The bytes of `w`, most significant first.
pub fn to_be_bytes(w: u32) -> (r: [u8; 4])
    ensures
        r@ == be_bytes(w),
{
    let r = [(w / 0x100_0000) as u8, ((w / 0x1_0000) % 0x100) as u8, ((w / 0x100) % 0x100) as u8, (w % 0x100) as u8];
    assert(r@ =~= be_bytes(w));
    r
}

/// The bytes of `w`, least significant first.
pub fn to_le_bytes(w: u32) -> (r: [u8; 4])
    ensures
        r@ == le_bytes(w),
{
    let r = [(w % 0x100) as u8, ((w / 0x100) % 0x100) as u8, ((w / 0x1_0000) % 0x100) as u8, (w / 0x100_0000) as u8];
    assert(r@ =~= le_bytes(w));
    r
}

/// Appends one character to a string.
#[verifier::external_body]
pub(crate) fn push_char(s: &mut String, c: char)
    ensures
        final(s)@ == old(s)@.push(c),
{
    s.push(c);
}

/// Appends the characters of a string slice.
pub(crate) fn push_str(s: &mut String, t: &str)
    ensures
        final(s)@ == old(s)@ + t@,
{
    s.append(t);
}

fn digit_to_char(d: u32) -> (c: char)
    requires
        d < 16,
    ensures
        c == digit_char(d as nat),
{
    if d < 10 {
        ((d + 48) as u8) as char
    } else {
        ((d + 87) as u8) as char
    }
}

/// Appends the `width` lowest digits of `n` in base `base`.
pub fn push_fixed_digits(s: &mut String, n: u32, base: u32, width: u32)
    requires
        2 <= base <= 16,
    ensures
        final(s)@ == old(s)@ + fixed_digits(n as nat, base as nat, width as nat),
    decreases width,
{
    if width > 0 {
        let ghost start = s@;
        push_fixed_digits(s, n / base, base, width - 1);
        let c = digit_to_char(n % base);
        push_char(s, c);
        assert(s@ =~= start + fixed_digits(n as nat, base as nat, width as nat));
    }
}

/// Appends the decimal notation of `n`.
pub fn push_decimal(s: &mut String, n: u64)
    ensures
        final(s)@ == old(s)@ + decimal(n as nat),
    decreases n,
{
    let ghost start = s@;
    if n >= 10 {
        push_decimal(s, n / 10);
    }
    let c = digit_to_char((n % 10) as u32);
    push_char(s, c);
    assert(s@ =~= start + decimal(n as nat));
}

/// `format!("{:#010x}", v)`.
pub fn hex_u32(v: u32) -> (r: String)
    ensures
        r@ == hex_text(v),
{
    let mut s = String::new();
    push_str(&mut s, "0x");
    push_fixed_digits(&mut s, v, 16, 8);
    proof {
        reveal_strlit("0x");
    }
    assert(s@ =~= hex_text(v));
    s
}

/// `format!("{:#034b}", v)`.
pub fn bin_u32(v: u32) -> (r: String)
    ensures
        r@ == bin_text(v),
{
    let mut s = String::new();
    push_str(&mut s, "0b");
    push_fixed_digits(&mut s, v, 2, 32);
    proof {
        reveal_strlit("0b");
    }
    assert(s@ =~= bin_text(v));
    s
}

/// `format!("{}", v)` of an unsigned value.
pub fn dec_u64(v: u64) -> (r: String)
    ensures
        r@ == decimal(v as nat),
{
    let mut s = String::new();
    push_decimal(&mut s, v);
    assert(s@ =~= decimal(v as nat));
    s
}

/// `format!("{}", v as i32)`: the word read as a two's complement number.
pub fn dec_signed_u32(v: u32) -> (r: String)
    ensures
        r@ == signed_decimal(as_signed(v)),
{
    let mut s = String::new();
    if v < 0x8000_0000 {
        push_decimal(&mut s, v as u64);
    } else {
        push_char(&mut s, '-');
        let magnitude: u64 = 0x1_0000_0000u64 - v as u64;
        push_decimal(&mut s, magnitude);
    }
    assert(s@ =~= signed_decimal(as_signed(v)));
    s
}

/// Appends `t` padded on the right with spaces to `width` characters.
pub fn push_padded(s: &mut String, t: &str, width: usize)
    ensures
        final(s)@ == old(s)@ + pad_right(t@, width as nat),
{
    let ghost start = s@;
    push_str(s, t);
    let n = t.unicode_len();
    let mut k = n;
    while k < width
        invariant
            n == t@.len(),
            k >= n,
            n < width ==> k <= width,
            n >= width ==> k == n,
            s@ == start + t@ + Seq::new((k - n) as nat, |i: int| ' '),
        decreases width - k,
    {
        push_char(s, ' ');
        k = k + 1;
        assert(s@ =~= start + t@ + Seq::new((k - n) as nat, |i: int| ' '));
    }
    if n >= width {
        assert(Seq::new((k - n) as nat, |i: int| ' ') =~= Seq::<char>::empty());
    }
    assert(s@ =~= start + pad_right(t@, width as nat));
}

// ----- laws of the notations ---------------------------------------------

/// Reading back the digits of a digit character gives the digit.
pub proof fn lemma_char_digit(d: nat)
    requires
        d < 16,
    ensures
        char_digit(digit_char(d)) == d,
{
}

/// The fixed-width digits of `n` denote `n` modulo `base^width`.
pub proof fn lemma_fixed_digits_value(n: nat, base: nat, width: nat)
    requires
        2 <= base <= 16,
    ensures
        fixed_digits(n, base, width).len() == width,
        digits_value(fixed_digits(n, base, width), base) == n % power(base, width),
    decreases width,
{
    if width > 0 {
        let w1 = (width - 1) as nat;
        lemma_fixed_digits_value(n / base, base, w1);
        lemma_power_positive(base, w1);
        let s = fixed_digits(n, base, width);
        assert(s.drop_last() =~= fixed_digits(n / base, base, w1));
        lemma_char_digit(n % base);
        vstd::arithmetic::div_mod::lemma_mod_breakdown(n as int, base as int, power(base, w1) as int);
        assert(power(base, width) == base * power(base, w1));
        vstd::arithmetic::mul::lemma_mul_is_commutative(base as int, ((n / base) % power(base, w1)) as int);
    }
}

/// `base^width` is positive.
pub proof fn lemma_power_positive(base: nat, e: nat)
    requires
        base >= 1,
    ensures
        power(base, e) >= 1,
    decreases e,
{
    if e > 0 {
        let p = power(base, (e - 1) as nat);
        lemma_power_positive(base, (e - 1) as nat);
        assert(base * p >= 1) by (nonlinear_arith)
            requires
                base >= 1,
                p >= 1,
        ;
    }
}

/// The decimal notation of `n` denotes `n`.
pub proof fn lemma_decimal_value(n: nat)
    ensures
        digits_value(decimal(n), 10) == n,
        decimal(n).len() >= 1,
    decreases n,
{
    if n >= 10 {
        lemma_decimal_value(n / 10);
        assert(decimal(n).drop_last() =~= decimal(n / 10));
        lemma_char_digit(n % 10);
        vstd::arithmetic::div_mod::lemma_fundamental_div_mod(n as int, 10);
        assert(decimal(n).last() == digit_char(n % 10));
        assert(digits_value(decimal(n), 10) == digits_value(decimal(n / 10), 10) * 10 + n % 10);
    } else {
        lemma_char_digit(n);
        assert(seq![digit_char(n)].drop_last() =~= Seq::<char>::empty());
        assert(digits_value(Seq::<char>::empty(), 10) == 0);
        assert(digits_value(decimal(n), 10) == char_digit(digit_char(n)));
    }
}

/// Hexadecimal notation of a word reads back as the word.
pub proof fn lemma_hex_roundtrip(v: u32)
    ensures
        hex_text(v).len() == 10,
        digits_value(hex_text(v).skip(2), 16) == v,
{
    lemma_fixed_digits_value(v as nat, 16, 8);
    assert(hex_text(v).skip(2) =~= fixed_digits(v as nat, 16, 8));
    assert(power(16, 8) == 0x1_0000_0000) by {
        reveal_with_fuel(power, 9);
    }
    vstd::arithmetic::div_mod::lemma_small_mod(v as nat, power(16, 8));
}

/// Binary notation of a word reads back as the word.
pub proof fn lemma_bin_roundtrip(v: u32)
    ensures
        bin_text(v).len() == 34,
        digits_value(bin_text(v).skip(2), 2) == v,
{
    lemma_fixed_digits_value(v as nat, 2, 32);
    assert(bin_text(v).skip(2) =~= fixed_digits(v as nat, 2, 32));
    assert(power(2, 32) == 0x1_0000_0000) by {
        reveal_with_fuel(power, 33);
    }
    vstd::arithmetic::div_mod::lemma_small_mod(v as nat, power(2, 32));
}

} // verus!
