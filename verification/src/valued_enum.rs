//! The payload side of the mapping: a second table associates one payload
//! value with every variant, keyed by the same discriminant, and a linear
//! scan maps a payload back to the first variant carrying it.

use vstd::prelude::*;
use crate::indexed_enum::Indexed;

verus! {

/// Position of the first entry of `vals` equal to `x`, or `-1` when no entry
/// is. Equality is taken at the specification level, over the same views
/// that [`Valued::value_eq`] compares by.
pub open spec fn first_value_index<VV>(vals: Seq<VV>, x: VV) -> int
    decreases vals.len(),
{
    if vals.len() == 0 {
        -1
    } else if vals[0] == x {
        0
    } else {
        let rest = first_value_index(vals.drop_first(), x);
        if rest < 0 {
            -1
        } else {
            rest + 1
        }
    }
}

/// What [`first_value_index`] finds: a position inside the sequence holding
/// an entry equal to the query, with no earlier entry equal to it, or `-1`
/// exactly when no entry at all is equal to it.
pub proof fn lemma_first_value_index<VV>(vals: Seq<VV>, x: VV)
    ensures
        -1 <= first_value_index(vals, x) < vals.len(),
        first_value_index(vals, x) >= 0 ==> vals[first_value_index(vals, x)] == x,
        forall|j: int| 0 <= j < first_value_index(vals, x) ==> vals[j] != x,
        first_value_index(vals, x) == -1 ==> forall|j: int|
            0 <= j < vals.len() ==> vals[j] != x,
    decreases vals.len(),
{
    if vals.len() > 0 && vals[0] != x {
        lemma_first_value_index(vals.drop_first(), x);
        assert forall|j: int| 0 <= j < vals.len() && vals[j] == x implies j
            >= first_value_index(vals, x) && first_value_index(vals, x) >= 0 by {
            if j > 0 {
                assert(vals.drop_first()[j - 1] == vals[j]);
            }
        }
    }
}

/// An [`Indexed`] enum whose variants resolve to payload values.
///
/// The implementor supplies the value table (one payload per variant, in
/// declaration order, described through the payload type's view), a proof
/// that it matches the variant table in length, and an equality test on
/// payloads that agrees with equality of their views.
pub trait Valued: Indexed {
    /// Type of the values the enumeration resolves to.
    type Value: View;

    /// The value table, under the payload type's view: entry `i` is the view
    /// of the payload associated with the variant of discriminant `i`.
    spec fn values() -> Seq<<Self::Value as View>::V>;

    /// Law binding the value table to the variant table: the tables have the
    /// same length.
    proof fn lemma_values_wf()
        ensures
            Self::values().len() == Self::table().len(),
    ;

    /// Payload equality: true exactly when the two payloads have the same
    /// view. The reverse lookup compares table entries with this.
    fn value_eq(a: &Self::Value, b: &Self::Value) -> (r: bool)
        ensures
            r == (a@ == b@),
    ;

    /// The value table as an owned vector: entry `i` holds the payload
    /// associated with the variant of discriminant `i`.
    fn value_table() -> (t: Vec<Self::Value>)
        ensures
            t@.len() == Self::values().len(),
            forall|i: int| 0 <= i < t@.len() ==> (#[trigger] t@[i])@ == Self::values()[i],
    ;

    /// Gives the value corresponding to this variant, read out of an owned
    /// copy of the value table; always present.
    fn value_opt(&self) -> (r: Option<Self::Value>)
        ensures
            r matches Some(v) && v@ == Self::values()[self.discriminant_spec()],
    {
        proof {
            Self::lemma_table_wf();
            Self::lemma_values_wf();
        }
        let discriminant = self.discriminant();
        let mut values: Vec<Self::Value> = Self::value_table();
        Some(values.remove(discriminant))
    }

    /// Gives the value corresponding to this variant.
    fn value(&self) -> (r: Self::Value)
        ensures
            r@ == Self::values()[self.discriminant_spec()],
    {
        Self::value_opt(self).unwrap()
    }

    /// Gives the variant corresponding to a value: the entry of the value
    /// table equal to it with the smallest discriminant, or nothing when no
    /// entry is equal to it. Found by comparing every value in the table in
    /// discriminant order.
    fn value_to_variant_opt(value: &Self::Value) -> (r: Option<Self>)
        ensures
            ({
                let idx = first_value_index(Self::values(), value@);
                &&& idx >= 0 ==> r == Some(Self::table()[idx])
                &&& idx < 0 ==> r is None
            }),
    {
        proof {
            Self::lemma_table_wf();
            Self::lemma_values_wf();
            lemma_first_value_index(Self::values(), value@);
        }
        let values: Vec<Self::Value> = Self::value_table();
        let ghost idx = first_value_index(Self::values(), value@);
        let mut i: usize = 0;
        while i < values.len()
            invariant
                0 <= i <= values.len(),
                values@.len() == Self::values().len(),
                forall|k: int|
                    0 <= k < values@.len() ==> (#[trigger] values@[k])@ == Self::values()[k],
                forall|j: int| 0 <= j < i ==> Self::values()[j] != value@,
                idx == first_value_index(Self::values(), value@),
                -1 <= idx < Self::values().len(),
                idx >= 0 ==> Self::values()[idx] == value@,
                forall|j: int| 0 <= j < idx ==> Self::values()[j] != value@,
                idx == -1 ==> forall|j: int|
                    0 <= j < Self::values().len() ==> Self::values()[j] != value@,
                Self::values().len() == Self::table().len(),
            decreases values.len() - i,
        {
            if Self::value_eq(value, &values[i]) {
                proof {
                    if idx != i {
                        assert(Self::values()[idx] == value@);
                    }
                }
                return Self::from_discriminant_opt(i);
            }
            i += 1;
        }
        None
    }

    /// Gives the variant corresponding to a value; some entry of the value
    /// table must be equal to it.
    fn value_to_variant(value: &Self::Value) -> (r: Self)
        requires
            first_value_index(Self::values(), value@) >= 0,
        ensures
            r == Self::table()[first_value_index(Self::values(), value@)],
    {
        proof {
            Self::lemma_table_wf();
            Self::lemma_values_wf();
            lemma_first_value_index(Self::values(), value@);
        }
        Self::value_to_variant_opt(value).unwrap()
    }
}

/// Gives the value corresponding to a variant of any [`Valued`] enum, read
/// out of an owned copy of the value table; always present.
pub fn value_opt_internal<T: Valued>(variant: &T) -> (r: Option<T::Value>)
    ensures
        r matches Some(v) && v@ == T::values()[variant.discriminant_spec()],
{
    T::value_opt(variant)
}

/// Gives the value corresponding to a variant of any [`Valued`] enum.
pub fn value_internal<T: Valued>(variant: &T) -> (r: T::Value)
    ensures
        r@ == T::values()[variant.discriminant_spec()],
{
    value_opt_internal(variant).unwrap()
}

/// The clone-by-discriminant generation rule: duplication by a round trip
/// through the discriminant and the variant table. The result is the table
/// entry sharing the argument's discriminant, so for a field-carrying
/// variant it holds the table entry's field values, not the argument's.
pub fn clone_by_discriminant<T: Indexed>(variant: &T) -> (r: T)
    ensures
        r == T::table()[variant.discriminant_spec()],
{
    proof {
        T::lemma_table_wf();
    }
    let discriminant = variant.discriminant();
    T::from_discriminant(discriminant)
}

/// Law: the reverse lookup breaks ties deterministically towards the
/// smallest discriminant. When the entry at position `i` of the value table
/// equals the query, the position the lookup resolves to is at most `i`, and
/// it always holds an entry equal to the query.
pub proof fn lemma_value_to_variant_tie_break<VV>(vals: Seq<VV>, x: VV, i: int)
    requires
        0 <= i < vals.len(),
        vals[i] == x,
    ensures
        0 <= first_value_index(vals, x) <= i,
        vals[first_value_index(vals, x)] == x,
{
    lemma_first_value_index(vals, x);
}

/// Law: looking a variant's value back up finds that variant again, whenever
/// the table's payload values are pairwise distinct and the variant is its
/// own table entry (as every variant of a field-less enum is).
pub proof fn lemma_value_round_trip<T: Valued>(v: T)
    requires
        forall|i: int, j: int|
            0 <= i < j < T::values().len() ==> T::values()[i] != T::values()[j],
        T::table()[v.discriminant_spec()] == v,
    ensures
        first_value_index(T::values(), T::values()[v.discriminant_spec()])
            == v.discriminant_spec(),
        T::table()[first_value_index(T::values(), T::values()[v.discriminant_spec()])] == v,
{
    T::lemma_table_wf();
    T::lemma_values_wf();
    let d = v.discriminant_spec();
    lemma_value_to_variant_tie_break(T::values(), T::values()[d], d);
    let idx = first_value_index(T::values(), T::values()[d]);
    if idx < d {
        assert(T::values()[idx] == T::values()[d]);
    }
}

} // verus!
