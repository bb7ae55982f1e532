//! The discriminant side of the mapping: every variant of an implementing
//! enum owns a dense, zero-based discriminant, and the variant can be
//! recovered from its discriminant through a table of all variants kept in
//! declaration order.

use vstd::prelude::*;

verus! {

/// An enum whose variants are indexed by a dense, zero-based discriminant.
///
/// The implementor supplies the variant table (every variant, in declaration
/// order), the discriminant of each variant, and a proof that the two agree:
/// the entry at table position `i` is exactly the variant with discriminant
/// `i`, and every value's discriminant lies inside the table.
pub trait Indexed: Sized {
    /// The variant table: one entry per variant, in declaration order.
    spec fn table() -> Seq<Self>;

    /// The discriminant of this value: its variant's position in the table.
    spec fn discriminant_spec(self) -> int;

    /// Law binding discriminants to table positions: the entry at position
    /// `i` has discriminant `i`, and every value's discriminant is a valid
    /// table position.
    proof fn lemma_table_wf()
        ensures
            forall|i: int|
                0 <= i < Self::table().len() ==> (#[trigger] Self::table()[i]).discriminant_spec()
                    == i,
            forall|v: Self| 0 <= #[trigger] v.discriminant_spec() < Self::table().len(),
    ;

    /// The variant table as an owned vector, one entry per variant, in
    /// declaration order.
    fn variant_table() -> (t: Vec<Self>)
        ensures
            t@ == Self::table(),
    ;

    /// Gets the discriminant of this variant.
    fn discriminant(&self) -> (d: usize)
        ensures
            d == self.discriminant_spec(),
    ;

    /// Gets the variant stored at position `discriminant` of the variant
    /// table, or nothing when the discriminant is past the table's end.
    fn from_discriminant_opt(discriminant: usize) -> (r: Option<Self>)
        ensures
            discriminant < Self::table().len() ==> r == Some(
                Self::table()[discriminant as int],
            ),
            discriminant >= Self::table().len() ==> r is None,
    {
        let mut table: Vec<Self> = Self::variant_table();
        if discriminant < table.len() {
            Some(table.remove(discriminant))
        } else {
            None
        }
    }

    /// Gets the variant stored at position `discriminant` of the variant
    /// table; the discriminant must be in range.
    fn from_discriminant(discriminant: usize) -> (r: Self)
        requires
            discriminant < Self::table().len(),
        ensures
            r == Self::table()[discriminant as int],
    {
        Self::from_discriminant_opt(discriminant).unwrap()
    }
}

/// Gets the discriminant of a variant of any [`Indexed`] enum.
pub fn discriminant_internal<T: Indexed>(variant: &T) -> (d: usize)
    ensures
        d == variant.discriminant_spec(),
{
    variant.discriminant()
}

/// Gets the variant at position `discriminant` of the variant table, or
/// nothing when the discriminant is past the table's end. The entry is taken
/// out of an owned copy of the table, so the enum needs no duplication
/// capability of its own.
pub fn from_discriminant_opt_internal<T: Indexed>(discriminant: usize) -> (r: Option<T>)
    ensures
        discriminant < T::table().len() ==> r == Some(T::table()[discriminant as int]),
        discriminant >= T::table().len() ==> r is None,
{
    T::from_discriminant_opt(discriminant)
}

/// Gets the variant at position `discriminant` of the variant table; the
/// discriminant must be in range.
pub fn from_discriminant_internal<T: Indexed>(discriminant: usize) -> (r: T)
    requires
        discriminant < T::table().len(),
    ensures
        r == T::table()[discriminant as int],
{
    T::from_discriminant(discriminant)
}

/// Law: discriminants and table positions are in bijection. The variant at
/// table position `i` has discriminant `i`, so recovering a variant from any
/// valid discriminant and reading its discriminant gives the same number
/// back, and reading any value's discriminant always lands inside the table.
pub proof fn lemma_discriminant_bijection<T: Indexed>()
    ensures
        forall|i: int|
            0 <= i < T::table().len() ==> (#[trigger] T::table()[i]).discriminant_spec() == i,
        forall|v: T| 0 <= #[trigger] v.discriminant_spec() < T::table().len(),
{
    T::lemma_table_wf();
}

/// Divides a `usize` into three non-negative `isize` offsets that sum back
/// to it, so that a table position wider than `isize::MAX` can be walked in
/// bounded hops on platforms whose pointer step is the narrower type.
pub fn split_usize_to_isizes(index: usize) -> (r: (isize, isize, isize))
    ensures
        r.0 as int + r.1 as int + r.2 as int == index as int,
        0 <= r.0,
        0 <= r.1,
        0 <= r.2,
{
    match index.checked_sub(isize::MAX as usize) {
        Some(first_rest) => {
            if first_rest > isize::MAX as usize {
                (isize::MAX, isize::MAX, 1)
            } else {
                (isize::MAX, first_rest as isize, 0)
            }
        },
        None => (index as isize, 0, 0),
    }
}

} // verus!
