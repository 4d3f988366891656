//! Binary digit strings and the numbers they stand for.
//!
//! A digit string is a `Seq<char>` whose first character is the most
//! significant digit. Everything here is specification and proof; the
//! executable conversions are stated over these functions.

use vstd::arithmetic::power2::*;
use vstd::prelude::*;

verus! {

/// `c` is one of the two binary digits.
pub open spec fn is_bit(c: char) -> bool {
    c == '0' || c == '1'
}

/// Every character of `s` is a binary digit.
pub open spec fn all_bits(s: Seq<char>) -> bool {
    forall|i: int| 0 <= i < s.len() ==> is_bit(#[trigger] s[i])
}

/// `s` is a binary string: it is not empty and holds binary digits only.
pub open spec fn is_binary(s: Seq<char>) -> bool {
    s.len() > 0 && all_bits(s)
}

/// The number that one digit contributes at the lowest place.
pub open spec fn bit_value(c: char) -> nat {
    if c == '1' {
        1
    } else {
        0
    }
}

/// The digit for the lowest place of `n`.
pub open spec fn low_bit(n: nat) -> char {
    if n % 2 == 1 {
        '1'
    } else {
        '0'
    }
}

/// `s` read as an unsigned binary number.
pub open spec fn unsigned_value(s: Seq<char>) -> nat
    decreases s.len(),
{
    if s.len() == 0 {
        0
    } else {
        2 * unsigned_value(s.drop_last()) + bit_value(s.last())
    }
}

/// `s` read in two's complement: the first digit weighs `-2^(len - 1)`, every
/// other digit what it weighs in an unsigned number.
pub open spec fn signed_value(s: Seq<char>) -> int {
    if s.len() > 0 && s[0] == '1' {
        unsigned_value(s) - pow2(s.len())
    } else {
        unsigned_value(s) as int
    }
}

/// The `width` lowest binary digits of `n`, most significant first.
pub open spec fn binary_digits(n: nat, width: nat) -> Seq<char>
    decreases width,
{
    if width == 0 {
        Seq::empty()
    } else {
        binary_digits(n / 2, (width - 1) as nat).push(low_bit(n))
    }
}

/// The number of binary digits that `n` takes when written without leading
/// zeros; zero takes one digit.
pub open spec fn bit_length(n: nat) -> nat
    decreases n,
{
    if n < 2 {
        1
    } else {
        1 + bit_length(n / 2)
    }
}

/// `n` in binary without leading zeros; zero is `"0"`.
pub open spec fn plain_binary(n: nat) -> Seq<char> {
    binary_digits(n, bit_length(n))
}

/// `n` in binary without leading zeros, then filled with `'0'` on the left up
/// to `width` characters where it is shorter than that.
pub open spec fn padded_binary(n: nat, width: nat) -> Seq<char> {
    if width > bit_length(n) {
        Seq::new((width - bit_length(n)) as nat, |i: int| '0') + plain_binary(n)
    } else {
        plain_binary(n)
    }
}

/// The digit that stands where `c` stood once every bit is flipped: `'0'`
/// becomes `'1'`, and anything else becomes `'0'`.
pub open spec fn flipped(c: char) -> char {
    if c == '0' {
        '1'
    } else {
        '0'
    }
}

/// `s` with every digit flipped.
pub open spec fn inverted(s: Seq<char>) -> Seq<char> {
    Seq::new(s.len(), |i: int| flipped(s[i]))
}

/// `v` lies in the range of two's complement numbers of `size` bits,
/// `-2^(size - 1) ..= 2^(size - 1) - 1`.
pub open spec fn representable(v: int, size: nat) -> bool {
    size >= 1 && -pow2((size - 1) as nat) <= v < pow2((size - 1) as nat)
}

/// The two's complement encoding of `v` on `size` bits: the `size` lowest
/// digits of `v` itself where it is not negative, and of `2^size + v` where it
/// is.
pub open spec fn twos_complement_digits(v: int, size: nat) -> Seq<char> {
    if v >= 0 {
        binary_digits(v as nat, size)
    } else {
        binary_digits((pow2(size) + v) as nat, size)
    }
}

/// `binary_digits` gives exactly `width` characters, all of them binary digits.
pub proof fn lemma_binary_digits_shape(n: nat, width: nat)
    ensures
        binary_digits(n, width).len() == width,
        all_bits(binary_digits(n, width)),
    decreases width,
{
    if width > 0 {
        lemma_binary_digits_shape(n / 2, (width - 1) as nat);
    }
}

/// A number below `2^width` is the value of its `width` digits.
pub proof fn lemma_value_of_digits(n: nat, width: nat)
    requires
        n < pow2(width),
    ensures
        unsigned_value(binary_digits(n, width)) == n,
    decreases width,
{
    if width == 0 {
        lemma2_to64();
    } else {
        let rest = binary_digits(n / 2, (width - 1) as nat);
        lemma_pow2_unfold(width);
        lemma_value_of_digits(n / 2, (width - 1) as nat);
        assert(rest.push(low_bit(n)).drop_last() == rest);
    }
}

/// The value of a string of binary digits is below `2^len`, and its digits on
/// that width are the string itself.
pub proof fn lemma_digits_of_value(s: Seq<char>)
    requires
        all_bits(s),
    ensures
        unsigned_value(s) < pow2(s.len()),
        binary_digits(unsigned_value(s), s.len()) == s,
    decreases s.len(),
{
    if s.len() == 0 {
        lemma2_to64();
    } else {
        let front = s.drop_last();
        lemma_pow2_unfold(s.len());
        lemma_digits_of_value(front);
        assert(is_bit(s.last()));
        assert(unsigned_value(s) / 2 == unsigned_value(front));
        assert(low_bit(unsigned_value(s)) == s.last());
        assert(front.push(s.last()) == s);
    }
}

/// Flipping every digit of a string of binary digits gives binary digits
/// again, and the two values add up to `2^len - 1`.
pub proof fn lemma_inverted_value(s: Seq<char>)
    requires
        all_bits(s),
    ensures
        inverted(s).len() == s.len(),
        all_bits(inverted(s)),
        unsigned_value(inverted(s)) + unsigned_value(s) + 1 == pow2(s.len()),
    decreases s.len(),
{
    if s.len() == 0 {
        lemma2_to64();
    } else {
        lemma_pow2_unfold(s.len());
        lemma_inverted_value(s.drop_last());
        assert(is_bit(s.last()));
        assert(inverted(s).drop_last() == inverted(s.drop_last()));
    }
}

/// A binary string that starts with `'1'` stands for `-(m + 1)`, where `m` is
/// the unsigned value of its flipped digits, and those start with `'0'`.
pub proof fn lemma_negative_value(s: Seq<char>)
    requires
        is_binary(s),
        s[0] == '1',
    ensures
        is_binary(inverted(s)),
        inverted(s)[0] == '0',
        signed_value(s) == -(unsigned_value(inverted(s)) + 1),
{
    lemma_inverted_value(s);
}

/// The first digit of a binary string tells whether its value reaches
/// `2^(len - 1)`.
pub proof fn lemma_leading_digit(s: Seq<char>)
    requires
        is_binary(s),
    ensures
        s[0] == '1' <==> unsigned_value(s) >= pow2((s.len() - 1) as nat),
    decreases s.len(),
{
    assert(is_bit(s[0]));
    if s.len() == 1 {
        lemma2_to64();
        assert(s.drop_last().len() == 0);
        assert(unsigned_value(s.drop_last()) == 0);
    } else {
        lemma_pow2_unfold((s.len() - 1) as nat);
        lemma_leading_digit(s.drop_last());
        assert(is_bit(s.last()));
    }
}

/// A number has no more digits than any width whose power of two lies above it.
pub proof fn lemma_bit_length_bound(n: nat, width: nat)
    requires
        width >= 1,
        n < pow2(width),
    ensures
        bit_length(n) <= width,
    decreases width,
{
    if n >= 2 {
        lemma_pow2_unfold(width);
        if width == 1 {
            lemma2_to64();
        } else {
            lemma_bit_length_bound(n / 2, (width - 1) as nat);
        }
    }
}

/// Digits beyond a number's own are zeros: on a width that holds the number,
/// its padded form is its digits on that width.
pub proof fn lemma_padded_is_digits(n: nat, width: nat)
    requires
        width >= bit_length(n),
    ensures
        padded_binary(n, width) == binary_digits(n, width),
    decreases width,
{
    if n >= 2 {
        lemma_padded_is_digits(n / 2, (width - 1) as nat);
    } else if width >= 2 {
        lemma_padded_is_digits(0, (width - 1) as nat);
        reveal_with_fuel(binary_digits, 2);
    } else {
        reveal_with_fuel(binary_digits, 2);
    }
    assert(padded_binary(n, width) == binary_digits(n, width));
}

/// Adding one to the value of a string of binary digits: the digits up to the
/// last `'0'` stay, that `'0'` becomes `'1'`, and the ones behind it become
/// zeros. Where there is no `'0'` (`last_zero` is `-1`), all become zeros.
pub proof fn lemma_carry(s: Seq<char>, last_zero: int)
    requires
        all_bits(s),
        -1 <= last_zero < s.len(),
        last_zero >= 0 ==> s[last_zero] == '0',
        forall|j: int| last_zero < j < s.len() ==> s[j] == '1',
    ensures
        binary_digits(unsigned_value(s) + 1, s.len()) == Seq::new(
            s.len(),
            |j: int|
                if j < last_zero {
                    s[j]
                } else if j == last_zero {
                    '1'
                } else {
                    '0'
                },
        ),
    decreases s.len(),
{
    let carried = Seq::new(
        s.len(),
        |j: int|
            if j < last_zero {
                s[j]
            } else if j == last_zero {
                '1'
            } else {
                '0'
            },
    );
    if s.len() > 0 {
        let front = s.drop_last();
        let n = unsigned_value(s);
        if last_zero == s.len() - 1 {
            lemma_digits_of_value(front);
            assert((n + 1) / 2 == unsigned_value(front));
            assert(binary_digits(n + 1, s.len()) == carried);
        } else {
            lemma_carry(front, last_zero);
            assert((n + 1) / 2 == unsigned_value(front) + 1);
            assert(binary_digits(n + 1, s.len()) == carried);
        }
    } else {
        assert(binary_digits(unsigned_value(s) + 1, s.len()) == carried);
    }
}

} // verus!
