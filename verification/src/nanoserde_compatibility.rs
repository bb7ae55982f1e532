//! Discriminant-only serialization, binary and text style: a variant goes
//! over the wire as its discriminant alone — eight little-endian bytes in
//! the binary form, a decimal number in the text form — and decoding
//! validates the discriminant against the variant table, reporting a
//! recoverable error for out-of-range input.

use vstd::prelude::*;
use vstd::bytes::spec_u64_from_le_bytes;
use vstd::bytes::spec_u64_to_le_bytes;
use vstd::string::StrSliceExecFns;
use vstd::string::StringExecFns;
use crate::indexed_enum::Indexed;
use crate::serde_compatibility::DecodeError;

verus! {

#[verifier::external_type_specification]
#[verifier::external_body]
pub struct ExDeBinErr(nanoserde::DeBinErr);

/// Relies on nanoserde's binary form of `usize`: the value, as a `u64`, is
/// appended to the output as eight little-endian bytes.
#[verifier::external_body]
fn ser_bin_usize(value: usize, output: &mut Vec<u8>)
    ensures
        final(output)@ == old(output)@ + spec_u64_to_le_bytes(value as u64),
{
    nanoserde::SerBin::ser_bin(&value, output)
}

/// Relies on nanoserde's binary read of `usize`: eight little-endian bytes
/// at `offset` read as a `u64`, moving the offset past them; it fails
/// without moving the offset when the input ends before that.
#[verifier::external_body]
fn de_bin_usize(offset: &mut usize, bytes: &[u8]) -> (r: Result<usize, nanoserde::DeBinErr>)
    requires
        *old(offset) + 8 <= usize::MAX,
    ensures
        *old(offset) + 8 <= bytes@.len() ==> (*final(offset) == *old(offset) + 8 && (r matches
        Ok(v) && v == spec_u64_from_le_bytes(
            bytes@.subrange(*old(offset) as int, *old(offset) + 8),
        ) as usize)),
        *old(offset) + 8 > bytes@.len() ==> (r is Err && *final(offset) == *old(offset)),
{
    nanoserde::DeBin::de_bin(offset, bytes)
}

/// Serializes a variant as its discriminant in the binary form: eight
/// little-endian bytes appended to the output.
pub fn ser_bin_variant<T: Indexed>(variant: &T, output: &mut Vec<u8>)
    ensures
        final(output)@ == old(output)@ + spec_u64_to_le_bytes(variant.discriminant_spec() as u64),
{
    let discriminant = variant.discriminant();
    ser_bin_usize(discriminant, output);
}

/// Deserializes a variant from its discriminant in the binary form: eight
/// little-endian bytes at `offset`. Input that ends too early and a
/// discriminant past the table are recoverable decode errors.
pub fn de_bin_variant<T: Indexed>(offset: &mut usize, bytes: &[u8]) -> (r: Result<
    T,
    DecodeError,
>)
    requires
        *old(offset) + 8 <= usize::MAX,
    ensures
        ({
            let got = spec_u64_from_le_bytes(
                bytes@.subrange(*old(offset) as int, *old(offset) + 8),
            ) as usize;
            &&& (*old(offset) + 8 <= bytes@.len() && got < T::table().len()) ==> (*final(offset)
                == *old(offset) + 8 && (r matches Ok(v) && v == T::table()[got as int]))
            &&& (*old(offset) + 8 <= bytes@.len() && got >= T::table().len()) ==> (*final(offset)
                == *old(offset) + 8 && r == Err::<T, DecodeError>(
                DecodeError::UnknownDiscriminant { discriminant: got },
            ))
            &&& *old(offset) + 8 > bytes@.len() ==> (*final(offset) == *old(offset) && r
                == Err::<T, DecodeError>(DecodeError::TruncatedInput { offset: *old(offset) }))
        }),
{
    let start = *offset;
    match de_bin_usize(offset, bytes) {
        Err(_) => Err(DecodeError::TruncatedInput { offset: start }),
        Ok(discriminant) => match T::from_discriminant_opt(discriminant) {
            Some(v) => Ok(v),
            None => Err(DecodeError::UnknownDiscriminant { discriminant }),
        },
    }
}


/// The character of one decimal digit.
pub open spec fn spec_decimal_digit(d: nat) -> char {
    if d == 0 {
        '0'
    } else if d == 1 {
        '1'
    } else if d == 2 {
        '2'
    } else if d == 3 {
        '3'
    } else if d == 4 {
        '4'
    } else if d == 5 {
        '5'
    } else if d == 6 {
        '6'
    } else if d == 7 {
        '7'
    } else if d == 8 {
        '8'
    } else {
        '9'
    }
}

/// The plain decimal form of a number: its digits in order, without sign,
/// padding or separators.
pub open spec fn spec_decimal(n: nat) -> Seq<char>
    decreases n,
{
    if n < 10 {
        seq![spec_decimal_digit(n)]
    } else {
        spec_decimal(n / 10).push(spec_decimal_digit(n % 10))
    }
}

/// Whether the character is a decimal digit.
pub open spec fn spec_is_digit(c: char) -> bool {
    48 <= c as u32 <= 57
}

/// The value of one decimal digit character.
pub open spec fn spec_digit_value(c: char) -> nat
    recommends
        spec_is_digit(c),
{
    (c as u32 - 48) as nat
}

/// Whether every character of the text is a decimal digit.
pub open spec fn spec_all_digits(s: Seq<char>) -> bool {
    forall|i: int| 0 <= i < s.len() ==> spec_is_digit(#[trigger] s[i])
}

/// The number a digit text stands for, most significant digit first.
pub open spec fn spec_decimal_value(s: Seq<char>) -> nat
    decreases s.len(),
{
    if s.len() == 0 {
        0
    } else {
        spec_decimal_value(s.drop_last()) * 10 + spec_digit_value(s.last())
    }
}

/// The value of a digit text never falls below the value of any of its
/// prefixes.
proof fn lemma_decimal_value_prefix(s: Seq<char>, i: int)
    requires
        0 <= i <= s.len(),
    ensures
        spec_decimal_value(s.take(i)) <= spec_decimal_value(s),
    decreases s.len() - i,
{
    if i < s.len() {
        assert(s.take(i + 1).drop_last() =~= s.take(i));
        assert(s.take(i + 1).last() == s[i]);
        let v = spec_decimal_value(s.take(i));
        assert(v * 10 >= v) by (nonlinear_arith);
        lemma_decimal_value_prefix(s, i + 1);
    } else {
        assert(s.take(i) =~= s);
    }
}

/// One decimal digit as text.
fn decimal_digit_str(d: usize) -> (s: &'static str)
    requires
        d < 10,
    ensures
        s@ == seq![spec_decimal_digit(d as nat)],
{
    proof {
        reveal_strlit("0");
        reveal_strlit("1");
        reveal_strlit("2");
        reveal_strlit("3");
        reveal_strlit("4");
        reveal_strlit("5");
        reveal_strlit("6");
        reveal_strlit("7");
        reveal_strlit("8");
        reveal_strlit("9");
    }
    let s = match d {
        0 => "0",
        1 => "1",
        2 => "2",
        3 => "3",
        4 => "4",
        5 => "5",
        6 => "6",
        7 => "7",
        8 => "8",
        _ => "9",
    };
    proof {
        assert(s@ =~= seq![spec_decimal_digit(d as nat)]);
    }
    s
}

/// Writes a number in its plain decimal form.
pub fn usize_to_decimal(n: usize) -> (s: String)
    ensures
        s@ == spec_decimal(n as nat),
{
    let mut s: String = decimal_digit_str(n % 10).to_owned();
    let mut m: usize = n / 10;
    proof {
        if n < 10 {
            assert(s@ =~= spec_decimal(n as nat));
        } else {
            assert(spec_decimal(m as nat) + s@ =~= spec_decimal(n as nat));
        }
    }
    while m > 0
        invariant
            m == 0 ==> s@ == spec_decimal(n as nat),
            m > 0 ==> spec_decimal(m as nat) + s@ == spec_decimal(n as nat),
        decreases m,
    {
        let ghost m0 = m as nat;
        let ghost s0 = s@;
        let d = m % 10;
        let digit = decimal_digit_str(d);
        let prefixed = digit.to_owned().concat(s.as_str());
        s = prefixed;
        m = m / 10;
        proof {
            if m == 0 {
                assert(spec_decimal(m0) =~= seq![spec_decimal_digit(m0 % 10)]);
                assert(s@ =~= spec_decimal(m0) + s0);
            } else {
                assert(spec_decimal(m0) =~= spec_decimal(m0 / 10) + seq![
                    spec_decimal_digit(m0 % 10),
                ]);
                assert(spec_decimal(m as nat) + s@ =~= (spec_decimal(m0) + s0));
            }
        }
    }
    s
}

/// Serializes a variant as its discriminant in the text form: a plain
/// decimal number.
pub fn ser_json_variant<T: Indexed>(variant: &T) -> (s: String)
    ensures
        s@ == spec_decimal(variant.discriminant_spec() as nat),
{
    proof {
        T::lemma_table_wf();
    }
    usize_to_decimal(variant.discriminant())
}

/// Reads a number from its plain decimal form: the text must be non-empty
/// digits, and the number must fit the discriminant's machine word; each
/// failure is its own decode error.
pub fn parse_decimal(s: &str) -> (r: Result<usize, DecodeError>)
    ensures
        (s@.len() == 0 || !spec_all_digits(s@)) ==> r == Err::<usize, DecodeError>(
            DecodeError::MalformedText,
        ),
        (s@.len() > 0 && spec_all_digits(s@) && spec_decimal_value(s@) > usize::MAX) ==> r
            == Err::<usize, DecodeError>(DecodeError::ValueOutsideUsize),
        (s@.len() > 0 && spec_all_digits(s@) && spec_decimal_value(s@) <= usize::MAX) ==> r
            == Ok::<usize, DecodeError>(spec_decimal_value(s@) as usize),
{
    let len = s.unicode_len();
    if len == 0 {
        return Err(DecodeError::MalformedText);
    }
    let mut i: usize = 0;
    while i < len
        invariant
            0 <= i <= s@.len(),
            len == s@.len(),
            forall|j: int| 0 <= j < i ==> spec_is_digit(#[trigger] s@[j]),
        decreases s@.len() - i,
    {
        let c = s.get_char(i);
        let u = c as u32;
        if u < 48 || u > 57 {
            return Err(DecodeError::MalformedText);
        }
        i += 1;
    }
    let mut acc: u128 = 0;
    i = 0;
    proof {
        assert(s@.take(0) =~= Seq::<char>::empty());
    }
    while i < len
        invariant
            0 <= i <= s@.len(),
            len == s@.len(),
            spec_all_digits(s@),
            acc == spec_decimal_value(s@.take(i as int)),
            acc <= usize::MAX,
        decreases s@.len() - i,
    {
        let c = s.get_char(i);
        let u = c as u32;
        proof {
            assert(spec_is_digit(s@[i as int]));
        }
        let d = (u - 48) as u128;
        proof {
            assert(acc * 10 + d < u128::MAX) by (nonlinear_arith)
                requires
                    acc <= u64::MAX,
                    d <= 9,
            ;
        }
        let next = acc * 10 + d;
        proof {
            assert(s@.take(i + 1).drop_last() =~= s@.take(i as int));
            assert(s@.take(i + 1).last() == s@[i as int]);
            assert(next == spec_decimal_value(s@.take(i + 1)));
        }
        if next > usize::MAX as u128 {
            proof {
                lemma_decimal_value_prefix(s@, i + 1);
            }
            return Err(DecodeError::ValueOutsideUsize);
        }
        acc = next;
        i += 1;
    }
    proof {
        assert(s@.take(len as int) =~= s@);
    }
    Ok(acc as usize)
}

/// Deserializes a variant from its discriminant in the text form: a plain
/// decimal number naming a table position. Text that is not a number, a
/// number too wide for the machine word, and a discriminant past the table
/// are recoverable decode errors.
pub fn de_json_variant<T: Indexed>(s: &str) -> (r: Result<T, DecodeError>)
    ensures
        (s@.len() == 0 || !spec_all_digits(s@)) ==> r == Err::<T, DecodeError>(
            DecodeError::MalformedText,
        ),
        (s@.len() > 0 && spec_all_digits(s@) && spec_decimal_value(s@) > usize::MAX) ==> r
            == Err::<T, DecodeError>(DecodeError::ValueOutsideUsize),
        (s@.len() > 0 && spec_all_digits(s@) && spec_decimal_value(s@) <= usize::MAX
            && spec_decimal_value(s@) < T::table().len()) ==> (r matches Ok(v) && v == T::table()[
            spec_decimal_value(s@) as int
        ]),
        (s@.len() > 0 && spec_all_digits(s@) && spec_decimal_value(s@) <= usize::MAX
            && spec_decimal_value(s@) >= T::table().len()) ==> r == Err::<T, DecodeError>(
            DecodeError::UnknownDiscriminant { discriminant: spec_decimal_value(s@) as usize },
        ),
{
    let discriminant = match parse_decimal(s) {
        Ok(d) => d,
        Err(e) => {
            return Err(e);
        },
    };
    match T::from_discriminant_opt(discriminant) {
        Some(v) => Ok(v),
        None => Err(DecodeError::UnknownDiscriminant { discriminant }),
    }
}

/// Decodes a variant from a wire number a text tokenizer handed back, as
/// the text form carries it; a number past the table is a recoverable
/// decode error.
pub fn de_json_discriminant<T: Indexed>(value: u64) -> (r: Result<T, DecodeError>)
    ensures
        value <= usize::MAX && value < T::table().len() ==> (r matches Ok(v) && v == T::table()[
            value as int
        ]),
        value <= usize::MAX && value >= T::table().len() ==> r == Err::<T, DecodeError>(
            DecodeError::UnknownDiscriminant { discriminant: value as usize },
        ),
        value > usize::MAX ==> r == Err::<T, DecodeError>(DecodeError::ValueOutsideUsize),
{
    let visitor = crate::serde_compatibility::USizediscriminantVisitor;
    let discriminant = match visitor.visit_u64(value) {
        Ok(d) => d,
        Err(e) => {
            return Err(e);
        },
    };
    match T::from_discriminant_opt(discriminant) {
        Some(v) => Ok(v),
        None => Err(DecodeError::UnknownDiscriminant { discriminant }),
    }
}

} // verus!
