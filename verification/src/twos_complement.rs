//! Conversion between two's complement binary strings and signed integers.

use crate::bits::{
    all_bits, binary_digits, bit_length, flipped, inverted, is_binary, is_bit,
    lemma_binary_digits_shape, lemma_bit_length_bound, lemma_carry, lemma_digits_of_value,
    lemma_inverted_value, lemma_leading_digit, lemma_negative_value, lemma_padded_is_digits,
    lemma_value_of_digits,
    padded_binary, plain_binary, representable, signed_value, twos_complement_digits,
    unsigned_value,
};
use crate::decimal::{decimal_string, decimal_text};
use crate::errors::TwosComplementError;
use crate::trusted::parse_binary;
use vstd::arithmetic::power2::*;
use vstd::bits::lemma_u64_shl_is_mul;
use vstd::prelude::*;

verus! {

/// Counts the binary digits of `n`.
pub(crate) fn count_bits(n: u32) -> (r: usize)
    ensures
        r == bit_length(n as nat),
        1 <= r <= 32,
    decreases n,
{
    proof {
        lemma2_to64();
        lemma_bit_length_bound(n as nat, 32);
    }
    if n < 2 {
        1
    } else {
        1 + count_bits(n / 2)
    }
}

/// Appends `n` in binary, without leading zeros, to `out`.
pub(crate) fn push_binary(out: &mut String, n: u32)
    ensures
        final(out)@ == old(out)@ + plain_binary(n as nat),
    decreases n,
{
    if n >= 2 {
        push_binary(out, n / 2);
    }
    out.push(if n % 2 == 1 { '1' } else { '0' });
    proof {
        reveal_with_fuel(binary_digits, 2);
    }
}

/// Writes `n` in binary, filled with zeros on the left up to `width` digits.
pub(crate) fn binary_string(n: u32, width: usize) -> (r: String)
    ensures
        r@ == padded_binary(n as nat, width as nat),
{
    let own = count_bits(n);
    let mut out = String::new();
    let mut filled: usize = own;
    while filled < width
        invariant
            own <= filled,
            filled <= width || filled == own,
            out@ == Seq::new((filled - own) as nat, |i: int| '0'),
        decreases width - filled,
    {
        out.push('0');
        filled = filled + 1;
    }
    push_binary(&mut out, n);
    out
}

/// Flips every digit of `digits`: `'0'` becomes `'1'`, anything else `'0'`.
pub(crate) fn invert_bits(digits: &str) -> (r: String)
    ensures
        r@ == inverted(digits@),
{
    let mut out = String::new();
    for c in it: digits.chars()
        invariant
            it.seq() == digits@,
            out@.len() == it.index(),
            forall|j: int| 0 <= j < out@.len() ==> out@[j] == flipped(digits@[j]),
    {
        out.push(if c == '0' { '1' } else { '0' });
    }
    out
}

/// Adds one to the unsigned number that `digits` spells, on the same width:
/// from all ones it wraps around to all zeros.
pub(crate) fn add_one(digits: &str) -> (r: String)
    requires
        all_bits(digits@),
    ensures
        r@ == binary_digits(unsigned_value(digits@) + 1, digits@.len()),
{
    let mut cells: Vec<char> = Vec::new();
    for c in it: digits.chars()
        invariant
            it.seq() == digits@,
            cells@.len() == it.index(),
            forall|j: int| 0 <= j < cells@.len() ==> cells@[j] == digits@[j],
    {
        cells.push(c);
    }
    let mut i: usize = cells.len();
    let mut carrying = true;
    while carrying && i > 0
        invariant
            all_bits(digits@),
            cells@.len() == digits@.len(),
            i <= cells@.len(),
            forall|j: int| 0 <= j < i ==> cells@[j] == digits@[j],
            forall|j: int|
                (if carrying {
                    i <= j
                } else {
                    i < j
                }) && j < cells@.len() ==> digits@[j] == '1' && cells@[j] == '0',
            !carrying ==> i < cells@.len() && digits@[i as int] == '0' && cells@[i as int] == '1',
        decreases i + if carrying { 1nat } else { 0nat },
    {
        i = i - 1;
        assert(is_bit(digits@[i as int]));
        if cells[i] == '1' {
            cells.set(i, '0');
        } else {
            cells.set(i, '1');
            carrying = false;
        }
    }
    proof {
        lemma_carry(
            digits@,
            if carrying {
                -1
            } else {
                i as int
            },
        );
        assert(cells@ == binary_digits(unsigned_value(digits@) + 1, digits@.len()));
    }
    let mut out = String::new();
    for k in 0..cells.len()
        invariant
            out@ == cells@.take(k as int),
    {
        out.push(cells[k]);
        assert(cells@.take(k + 1) == cells@.take(k as int).push(cells@[k as int]));
    }
    assert(cells@.take(cells@.len() as int) == cells@);
    out
}

/// Tells whether `decimal` fits in `size` bits of two's complement.
pub(crate) fn fits_in_width(decimal: i32, size: usize) -> (r: bool)
    requires
        size >= 1,
    ensures
        r == representable(decimal as int, size as nat),
{
    proof {
        lemma2_to64();
    }
    if size > 31 {
        proof {
            if size > 32 {
                lemma_pow2_strictly_increases(31, (size - 1) as nat);
            }
        }
        true
    } else {
        let shift: u64 = (size - 1) as u64;
        proof {
            lemma_pow2_strictly_increases(shift as nat, 31);
            lemma_u64_shl_is_mul(1, shift);
        }
        let half: i64 = (1u64 << shift) as i64;
        -half <= decimal as i64 && (decimal as i64) < half
    }
}

/// Tells whether `text` is a binary string.
pub(crate) fn is_binary_string(text: &str) -> (r: bool)
    ensures
        r == is_binary(text@),
{
    if text.is_empty() {
        return false;
    }
    for c in it: text.chars()
        invariant
            it.seq() == text@,
            forall|j: int| 0 <= j < it.index() ==> is_bit(text@[j]),
    {
        if c != '0' && c != '1' {
            assert(!is_bit(text@[it.index()]));
            return false;
        }
    }
    true
}

/// Reads a two's complement binary string as a signed integer.
///
/// The input must be a binary string, else `InvalidInput` is returned. The
/// first digit is the sign: where it is `'1'`, the digits are flipped and read
/// as an unsigned number `m`, and the result is `-(m + 1)`; where it is `'0'`,
/// the digits are read as they stand. Where the number read does not fit in an
/// `i32`, the parser's error is handed on as `ParseError`. That is the case
/// exactly when the two's complement value is outside the `i32` range.
pub fn calculate_twos_complement_rust(binary_input: &str) -> (r: Result<
    i32,
    TwosComplementError,
>)
    ensures
        !is_binary(binary_input@) <==> r matches Err(TwosComplementError::InvalidInput),
        is_binary(binary_input@) && i32::MIN <= signed_value(binary_input@) <= i32::MAX
            <==> r is Ok,
        r matches Ok(v) ==> v == signed_value(binary_input@),
        is_binary(binary_input@) && !(i32::MIN <= signed_value(binary_input@) <= i32::MAX)
            <==> r matches Err(TwosComplementError::ParseError(_)),
{
    if !is_binary_string(binary_input) {
        return Err(TwosComplementError::InvalidInput);
    }
    let first = binary_input.chars().next();
    assert(first == Some(binary_input@[0]));
    if first == Some('1') {
        proof {
            lemma_negative_value(binary_input@);
        }
        let flipped_input = invert_bits(binary_input);
        match parse_binary(flipped_input.as_str()) {
            Ok(magnitude) => Ok(-magnitude - 1),
            Err(e) => Err(TwosComplementError::ParseError(e)),
        }
    } else {
        match parse_binary(binary_input) {
            Ok(value) => Ok(value),
            Err(e) => Err(TwosComplementError::ParseError(e)),
        }
    }
}

/// Reads a two's complement binary string and gives one line of text: the
/// number in decimal where there is one, and the error's message where there
/// is none.
pub fn calculate_twos_complement(binary_input: &str) -> (r: String)
    ensures
        !is_binary(binary_input@) ==> r@ == TwosComplementError::InvalidInput.fixed_text(),
        is_binary(binary_input@) && i32::MIN <= signed_value(binary_input@) <= i32::MAX ==> r@
            == decimal_text(signed_value(binary_input@)),
        is_binary(binary_input@) && !(i32::MIN <= signed_value(binary_input@) <= i32::MAX)
            ==> "Error parsing binary input: "@.is_prefix_of(r@),
{
    match calculate_twos_complement_rust(binary_input) {
        Ok(result) => decimal_string(result),
        Err(e) => e.message(),
    }
}

/// Writes a signed integer as a two's complement binary string of `size`
/// digits.
///
/// A `size` of zero is refused with `InvalidSize`, and a number outside
/// `-2^(size - 1) ..= 2^(size - 1) - 1` with `OverflowError`. A number that is
/// not negative is written in binary and filled with zeros on the left. Of a
/// negative one the magnitude is written so, every digit is flipped, and one
/// is added on that width.
pub fn decimal_to_twos_complement_rust(decimal: i32, size: usize) -> (r: Result<
    String,
    TwosComplementError,
>)
    ensures
        size == 0 <==> r matches Err(TwosComplementError::InvalidSize),
        size > 0 && !representable(decimal as int, size as nat) <==> r matches Err(
            TwosComplementError::OverflowError,
        ),
        representable(decimal as int, size as nat) <==> r is Ok,
        r matches Ok(digits) ==> {
            &&& digits@ == twos_complement_digits(decimal as int, size as nat)
            &&& digits@.len() == size
            &&& is_binary(digits@)
            &&& signed_value(digits@) == decimal
        },
{
    if size == 0 {
        return Err(TwosComplementError::InvalidSize);
    }
    if !fits_in_width(decimal, size) {
        return Err(TwosComplementError::OverflowError);
    }
    proof {
        lemma_pow2_unfold(size as nat);
        lemma_encoding_decodes(decimal as int, size as nat);
    }
    if decimal >= 0 {
        proof {
            lemma_bit_length_bound(decimal as nat, size as nat);
            lemma_padded_is_digits(decimal as nat, size as nat);
        }
        Ok(binary_string(decimal as u32, size))
    } else {
        let magnitude: u32 = (-(decimal as i64)) as u32;
        proof {
            lemma_bit_length_bound(magnitude as nat, size as nat);
            lemma_padded_is_digits(magnitude as nat, size as nat);
            lemma_binary_digits_shape(magnitude as nat, size as nat);
            lemma_value_of_digits(magnitude as nat, size as nat);
            lemma_inverted_value(binary_digits(magnitude as nat, size as nat));
        }
        let binary = binary_string(magnitude, size);
        let ones_complement = invert_bits(binary.as_str());
        Ok(add_one(ones_complement.as_str()))
    }
}

/// Writes a signed integer in two's complement and gives one line of text:
/// the digits where the number fits, and the error's message where it does
/// not.
pub fn decimal_to_twos_complement(decimal: i32, size: usize) -> (r: String)
    ensures
        size == 0 ==> r@ == TwosComplementError::InvalidSize.fixed_text(),
        size > 0 && !representable(decimal as int, size as nat) ==> r@
            == TwosComplementError::OverflowError.fixed_text(),
        representable(decimal as int, size as nat) ==> r@ == twos_complement_digits(
            decimal as int,
            size as nat,
        ),
{
    match decimal_to_twos_complement_rust(decimal, size) {
        Ok(result) => result,
        Err(e) => e.message(),
    }
}

/// Decoding undoes encoding: the two's complement digits of a number that
/// fits in `size` bits are a binary string of `size` digits whose two's
/// complement value is that number.
pub proof fn lemma_encoding_decodes(v: int, size: nat)
    requires
        representable(v, size),
    ensures
        twos_complement_digits(v, size).len() == size,
        is_binary(twos_complement_digits(v, size)),
        signed_value(twos_complement_digits(v, size)) == v,
{
    let digits = twos_complement_digits(v, size);
    let n = if v >= 0 {
        v as nat
    } else {
        (pow2(size) + v) as nat
    };
    lemma_pow2_unfold(size);
    lemma_binary_digits_shape(n, size);
    lemma_value_of_digits(n, size);
    lemma_leading_digit(digits);
}

/// Encoding undoes decoding: the two's complement value of a binary string
/// fits in as many bits as the string has digits, and its encoding on that
/// width is the string itself.
pub proof fn lemma_decoding_encodes(s: Seq<char>)
    requires
        is_binary(s),
    ensures
        representable(signed_value(s), s.len()),
        twos_complement_digits(signed_value(s), s.len()) == s,
{
    lemma_pow2_unfold(s.len());
    lemma_digits_of_value(s);
    lemma_leading_digit(s);
    assert(is_bit(s[0]));
}

/// The ends of the range of `size` bits: `2^(size - 1) - 1` is the largest
/// number that fits and `-2^(size - 1)` the smallest, and the next number
/// beyond either end does not fit.
pub proof fn lemma_range_ends(size: nat)
    requires
        size >= 1,
    ensures
        representable(pow2((size - 1) as nat) - 1, size),
        !representable(pow2((size - 1) as nat) as int, size),
        representable(-pow2((size - 1) as nat), size),
        !representable(-pow2((size - 1) as nat) - 1, size),
{
    lemma_pow2_pos((size - 1) as nat);
}

} // verus!
