//! Discriminant-only serialization, structured-data style: a variant goes
//! over the wire as nothing but its discriminant, carried as a wide
//! unsigned integer, and decoding validates the discriminant against the
//! variant table, reporting a recoverable error for out-of-range input.

use vstd::prelude::*;
use crate::indexed_enum::Indexed;

verus! {

/// A failure while decoding a wire discriminant, each descriptive of its
/// cause.
#[derive(Clone, Copy, Debug, PartialEq, Eq, Structural)]
pub enum DecodeError {
    /// The wire integer does not fit the discriminant's machine word.
    ValueOutsideUsize,
    /// The wire integer names no variant: it is at or past the table's end.
    UnknownDiscriminant { discriminant: usize },
    /// The input ends before the discriminant's bytes, which begin at the
    /// given offset.
    TruncatedInput { offset: usize },
    /// The input text is not a plain decimal number.
    MalformedText,
}

/// Narrows wire integers of every width to a discriminant-sized word,
/// reporting values outside its range as decode errors.
pub struct USizediscriminantVisitor;

impl USizediscriminantVisitor {
    /// What the visitor expects of the wire value.
    pub fn expecting(&self) -> (s: &'static str)
        ensures
            s@ == "an integer in usize's range"@,
    {
        "an integer in usize's range"
    }

    /// Narrows an 8-bit wire value, which always fits.
    pub fn visit_u8(self, v: u8) -> (r: Result<usize, DecodeError>)
        ensures
            r == Ok::<usize, DecodeError>(v as usize),
    {
        Ok(v as usize)
    }

    /// Narrows a 16-bit wire value, which always fits.
    pub fn visit_u16(self, v: u16) -> (r: Result<usize, DecodeError>)
        ensures
            r == Ok::<usize, DecodeError>(v as usize),
    {
        Ok(v as usize)
    }

    /// Narrows a 32-bit wire value, which always fits.
    pub fn visit_u32(self, v: u32) -> (r: Result<usize, DecodeError>)
        ensures
            r == Ok::<usize, DecodeError>(v as usize),
    {
        Ok(v as usize)
    }

    /// Narrows a 64-bit wire value.
    pub fn visit_u64(self, v: u64) -> (r: Result<usize, DecodeError>)
        ensures
            v <= usize::MAX ==> r == Ok::<usize, DecodeError>(v as usize),
            v > usize::MAX ==> r == Err::<usize, DecodeError>(DecodeError::ValueOutsideUsize),
    {
        if v <= usize::MAX as u64 {
            Ok(v as usize)
        } else {
            Err(DecodeError::ValueOutsideUsize)
        }
    }

    /// Narrows a 128-bit wire value.
    pub fn visit_u128(self, v: u128) -> (r: Result<usize, DecodeError>)
        ensures
            v <= usize::MAX ==> r == Ok::<usize, DecodeError>(v as usize),
            v > usize::MAX ==> r == Err::<usize, DecodeError>(DecodeError::ValueOutsideUsize),
    {
        if v <= usize::MAX as u128 {
            Ok(v as usize)
        } else {
            Err(DecodeError::ValueOutsideUsize)
        }
    }

    /// Narrows a signed 8-bit wire value; negative values never fit.
    pub fn visit_i8(self, v: i8) -> (r: Result<usize, DecodeError>)
        ensures
            v >= 0 ==> r == Ok::<usize, DecodeError>(v as usize),
            v < 0 ==> r == Err::<usize, DecodeError>(DecodeError::ValueOutsideUsize),
    {
        if v >= 0 {
            Ok(v as usize)
        } else {
            Err(DecodeError::ValueOutsideUsize)
        }
    }

    /// Narrows a signed 16-bit wire value; negative values never fit.
    pub fn visit_i16(self, v: i16) -> (r: Result<usize, DecodeError>)
        ensures
            v >= 0 ==> r == Ok::<usize, DecodeError>(v as usize),
            v < 0 ==> r == Err::<usize, DecodeError>(DecodeError::ValueOutsideUsize),
    {
        if v >= 0 {
            Ok(v as usize)
        } else {
            Err(DecodeError::ValueOutsideUsize)
        }
    }

    /// Narrows a signed 32-bit wire value; negative values never fit.
    pub fn visit_i32(self, v: i32) -> (r: Result<usize, DecodeError>)
        ensures
            v >= 0 ==> r == Ok::<usize, DecodeError>(v as usize),
            v < 0 ==> r == Err::<usize, DecodeError>(DecodeError::ValueOutsideUsize),
    {
        if v >= 0 {
            Ok(v as usize)
        } else {
            Err(DecodeError::ValueOutsideUsize)
        }
    }

    /// Narrows a signed 64-bit wire value.
    pub fn visit_i64(self, v: i64) -> (r: Result<usize, DecodeError>)
        ensures
            0 <= v <= usize::MAX ==> r == Ok::<usize, DecodeError>(v as usize),
            !(0 <= v <= usize::MAX) ==> r == Err::<usize, DecodeError>(
                DecodeError::ValueOutsideUsize,
            ),
    {
        if v >= 0 && (v as u64) <= usize::MAX as u64 {
            Ok(v as usize)
        } else {
            Err(DecodeError::ValueOutsideUsize)
        }
    }

    /// Narrows a signed 128-bit wire value.
    pub fn visit_i128(self, v: i128) -> (r: Result<usize, DecodeError>)
        ensures
            0 <= v <= usize::MAX ==> r == Ok::<usize, DecodeError>(v as usize),
            !(0 <= v <= usize::MAX) ==> r == Err::<usize, DecodeError>(
                DecodeError::ValueOutsideUsize,
            ),
    {
        if v >= 0 && (v as u128) <= usize::MAX as u128 {
            Ok(v as usize)
        } else {
            Err(DecodeError::ValueOutsideUsize)
        }
    }
}

/// Serializes a variant as nothing but its discriminant, widened onto the
/// wire.
pub fn serialize_discriminant<T: Indexed>(variant: &T) -> (w: u128)
    ensures
        w == variant.discriminant_spec(),
{
    proof {
        T::lemma_table_wf();
    }
    variant.discriminant() as u128
}

/// Deserializes a variant from a wire discriminant: the table entry at that
/// position, or a recoverable decode error when the wire value does not fit
/// the discriminant's machine word or names no variant.
pub fn deserialize_discriminant<T: Indexed>(wire: u128) -> (r: Result<T, DecodeError>)
    ensures
        wire <= usize::MAX && wire < T::table().len() ==> (r matches Ok(v) && v == T::table()[
            wire as int
        ]),
        wire <= usize::MAX && wire >= T::table().len() ==> r == Err::<T, DecodeError>(
            DecodeError::UnknownDiscriminant { discriminant: wire as usize },
        ),
        wire > usize::MAX ==> r == Err::<T, DecodeError>(DecodeError::ValueOutsideUsize),
{
    let visitor = USizediscriminantVisitor;
    let discriminant = match visitor.visit_u128(wire) {
        Ok(d) => d,
        Err(e) => {
            return Err(e);
        },
    };
    match T::from_discriminant_opt(discriminant) {
        Some(v) => Ok(v),
        None => Err(DecodeError::UnknownDiscriminant { discriminant }),
    }
}

} // verus!
