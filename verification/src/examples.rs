//! Ready-made enums wired to the lookup traits, written out the way the
//! generation rules of [`crate::codegen`] describe: a variant table and a
//! value table in declaration order, with the laws binding them proved.

use vstd::prelude::*;
use crate::indexed_enum::Indexed;
use crate::utils::str_eq;
use crate::valued_enum::Valued;

verus! {

/// A payload holding a text label and a position number.
pub struct NumberDescription {
    pub description: &'static str,
    pub index: u16,
}

/// What a [`NumberDescription`] holds: the label's characters and the
/// position number.
pub struct NumberDescriptionView {
    pub description: Seq<char>,
    pub index: u16,
}

impl View for NumberDescription {
    type V = NumberDescriptionView;

    open spec fn view(&self) -> NumberDescriptionView {
        NumberDescriptionView { description: self.description@, index: self.index }
    }
}

impl PartialEq for NumberDescription {
    fn eq(&self, other: &Self) -> (r: bool)
        ensures
            r == (self@ == other@),
    {
        let r = str_eq(self.description, other.description) && self.index == other.index;
        proof {
            if self.description@ == other.description@ && self.index == other.index {
                assert(self@ == other@);
            }
        }
        r
    }
}

impl vstd::std_specs::cmp::PartialEqSpecImpl for NumberDescription {
    open spec fn obeys_eq_spec() -> bool {
        true
    }

    open spec fn eq_spec(&self, other: &Self) -> bool {
        self.description@ == other.description@ && self.index == other.index
    }
}

/// Four positions, each resolving to a [`NumberDescription`] naming it.
#[derive(Debug, PartialEq, Eq, Structural)]
pub enum Number {
    Zero,
    First,
    Second,
    Third,
}

impl Indexed for Number {
    open spec fn table() -> Seq<Number> {
        seq![Number::Zero, Number::First, Number::Second, Number::Third]
    }

    open spec fn discriminant_spec(self) -> int {
        match self {
            Number::Zero => 0,
            Number::First => 1,
            Number::Second => 2,
            Number::Third => 3,
        }
    }

    proof fn lemma_table_wf() {
    }

    fn variant_table() -> (t: Vec<Number>) {
        let mut t: Vec<Number> = Vec::new();
        t.push(Number::Zero);
        t.push(Number::First);
        t.push(Number::Second);
        t.push(Number::Third);
        proof {
            assert(t@ =~= Self::table());
        }
        t
    }

    fn discriminant(&self) -> (d: usize) {
        match self {
            Number::Zero => 0,
            Number::First => 1,
            Number::Second => 2,
            Number::Third => 3,
        }
    }
}

impl Valued for Number {
    type Value = NumberDescription;

    open spec fn values() -> Seq<NumberDescriptionView> {
        seq![
            NumberDescriptionView { description: "Zero position"@, index: 0u16 },
            NumberDescriptionView { description: "First position"@, index: 1u16 },
            NumberDescriptionView { description: "Second position"@, index: 2u16 },
            NumberDescriptionView { description: "Third position"@, index: 3u16 },
        ]
    }

    proof fn lemma_values_wf() {
    }

    fn value_eq(a: &NumberDescription, b: &NumberDescription) -> (r: bool) {
        let r = str_eq(a.description, b.description) && a.index == b.index;
        proof {
            if a.description@ == b.description@ && a.index == b.index {
                assert(a@ == b@);
            }
        }
        r
    }

    fn value_table() -> (t: Vec<NumberDescription>) {
        let mut t: Vec<NumberDescription> = Vec::new();
        t.push(NumberDescription { description: "Zero position", index: 0 });
        t.push(NumberDescription { description: "First position", index: 1 });
        t.push(NumberDescription { description: "Second position", index: 2 });
        t.push(NumberDescription { description: "Third position", index: 3 });
        proof {
            assert forall|i: int| 0 <= i < t@.len() implies (#[trigger] t@[i])@
                == Self::values()[i] by {
                assert(t@[0]@ == Self::values()[0]);
                assert(t@[1]@ == Self::values()[1]);
                assert(t@[2]@ == Self::values()[2]);
                assert(t@[3]@ == Self::values()[3]);
            }
        }
        t
    }
}

/// Four positions, each resolving to its position number as a `u8`.
#[derive(Debug, PartialEq, Eq, Structural)]
pub enum NumberValue {
    Zero,
    First,
    Second,
    Third,
}

impl Indexed for NumberValue {
    open spec fn table() -> Seq<NumberValue> {
        seq![
            NumberValue::Zero,
            NumberValue::First,
            NumberValue::Second,
            NumberValue::Third,
        ]
    }

    open spec fn discriminant_spec(self) -> int {
        match self {
            NumberValue::Zero => 0,
            NumberValue::First => 1,
            NumberValue::Second => 2,
            NumberValue::Third => 3,
        }
    }

    proof fn lemma_table_wf() {
    }

    fn variant_table() -> (t: Vec<NumberValue>) {
        let mut t: Vec<NumberValue> = Vec::new();
        t.push(NumberValue::Zero);
        t.push(NumberValue::First);
        t.push(NumberValue::Second);
        t.push(NumberValue::Third);
        proof {
            assert(t@ =~= Self::table());
        }
        t
    }

    fn discriminant(&self) -> (d: usize) {
        match self {
            NumberValue::Zero => 0,
            NumberValue::First => 1,
            NumberValue::Second => 2,
            NumberValue::Third => 3,
        }
    }
}

impl Valued for NumberValue {
    type Value = u8;

    open spec fn values() -> Seq<u8> {
        seq![0u8, 1u8, 2u8, 3u8]
    }

    proof fn lemma_values_wf() {
    }

    fn value_eq(a: &u8, b: &u8) -> (r: bool) {
        *a == *b
    }

    fn value_table() -> (t: Vec<u8>) {
        let mut t: Vec<u8> = Vec::new();
        t.push(0);
        t.push(1);
        t.push(2);
        t.push(3);
        proof {
            assert(t@ =~= Self::values());
            assert forall|i: int| 0 <= i < t@.len() implies (#[trigger] t@[i])@
                == Self::values()[i] by {
                assert(t@[i] == Self::values()[i]);
            }
        }
        t
    }
}

/// Four positions, each resolving to its position number as a `u8`; the
/// zero position's payload comes from the enum-level default.
#[derive(Debug, PartialEq, Eq, Structural)]
pub enum NumberValueDefaulted {
    Zero,
    First,
    Second,
    Third,
}

impl Indexed for NumberValueDefaulted {
    open spec fn table() -> Seq<NumberValueDefaulted> {
        seq![
            NumberValueDefaulted::Zero,
            NumberValueDefaulted::First,
            NumberValueDefaulted::Second,
            NumberValueDefaulted::Third,
        ]
    }

    open spec fn discriminant_spec(self) -> int {
        match self {
            NumberValueDefaulted::Zero => 0,
            NumberValueDefaulted::First => 1,
            NumberValueDefaulted::Second => 2,
            NumberValueDefaulted::Third => 3,
        }
    }

    proof fn lemma_table_wf() {
    }

    fn variant_table() -> (t: Vec<NumberValueDefaulted>) {
        let mut t: Vec<NumberValueDefaulted> = Vec::new();
        t.push(NumberValueDefaulted::Zero);
        t.push(NumberValueDefaulted::First);
        t.push(NumberValueDefaulted::Second);
        t.push(NumberValueDefaulted::Third);
        proof {
            assert(t@ =~= Self::table());
        }
        t
    }

    fn discriminant(&self) -> (d: usize) {
        match self {
            NumberValueDefaulted::Zero => 0,
            NumberValueDefaulted::First => 1,
            NumberValueDefaulted::Second => 2,
            NumberValueDefaulted::Third => 3,
        }
    }
}

impl Valued for NumberValueDefaulted {
    type Value = u8;

    open spec fn values() -> Seq<u8> {
        seq![0u8, 1u8, 2u8, 3u8]
    }

    proof fn lemma_values_wf() {
    }

    fn value_eq(a: &u8, b: &u8) -> (r: bool) {
        *a == *b
    }

    fn value_table() -> (t: Vec<u8>) {
        let mut t: Vec<u8> = Vec::new();
        t.push(0);
        t.push(1);
        t.push(2);
        t.push(3);
        proof {
            assert(t@ =~= Self::values());
            assert forall|i: int| 0 <= i < t@.len() implies (#[trigger] t@[i])@
                == Self::values()[i] by {
                assert(t@[i] == Self::values()[i]);
            }
        }
        t
    }
}

/// A payload holding a position number and a name.
pub struct MyType {
    pub num: usize,
    pub name: &'static str,
}

/// What a [`MyType`] holds: the position number and the name's characters.
pub struct MyTypeView {
    pub num: usize,
    pub name: Seq<char>,
}

impl View for MyType {
    type V = MyTypeView;

    open spec fn view(&self) -> MyTypeView {
        MyTypeView { num: self.num, name: self.name@ }
    }
}

impl PartialEq for MyType {
    fn eq(&self, other: &Self) -> (r: bool)
        ensures
            r == (self@ == other@),
    {
        let r = self.num == other.num && str_eq(self.name, other.name);
        proof {
            if self.num == other.num && self.name@ == other.name@ {
                assert(self@ == other@);
            }
        }
        r
    }
}

impl vstd::std_specs::cmp::PartialEqSpecImpl for MyType {
    open spec fn obeys_eq_spec() -> bool {
        true
    }

    open spec fn eq_spec(&self, other: &Self) -> bool {
        self.num == other.num && self.name@ == other.name@
    }
}

/// Five positions, each resolving to a [`MyType`]; the last one's payload
/// comes from the enum-level default.
#[derive(Debug)]
pub enum NumberCustom {
    Zero,
    First,
    Second,
    Third,
    Ten,
}

impl Indexed for NumberCustom {
    open spec fn table() -> Seq<NumberCustom> {
        seq![
            NumberCustom::Zero,
            NumberCustom::First,
            NumberCustom::Second,
            NumberCustom::Third,
            NumberCustom::Ten,
        ]
    }

    open spec fn discriminant_spec(self) -> int {
        match self {
            NumberCustom::Zero => 0,
            NumberCustom::First => 1,
            NumberCustom::Second => 2,
            NumberCustom::Third => 3,
            NumberCustom::Ten => 4,
        }
    }

    proof fn lemma_table_wf() {
    }

    fn variant_table() -> (t: Vec<NumberCustom>) {
        let mut t: Vec<NumberCustom> = Vec::new();
        t.push(NumberCustom::Zero);
        t.push(NumberCustom::First);
        t.push(NumberCustom::Second);
        t.push(NumberCustom::Third);
        t.push(NumberCustom::Ten);
        proof {
            assert(t@ =~= Self::table());
        }
        t
    }

    fn discriminant(&self) -> (d: usize) {
        match self {
            NumberCustom::Zero => 0,
            NumberCustom::First => 1,
            NumberCustom::Second => 2,
            NumberCustom::Third => 3,
            NumberCustom::Ten => 4,
        }
    }
}

impl Valued for NumberCustom {
    type Value = MyType;

    open spec fn values() -> Seq<MyTypeView> {
        seq![
            MyTypeView { num: 0, name: "Zero"@ },
            MyTypeView { num: 1, name: "First"@ },
            MyTypeView { num: 2, name: "Second"@ },
            MyTypeView { num: 3, name: "Third"@ },
            MyTypeView { num: 10, name: "Ten"@ },
        ]
    }

    proof fn lemma_values_wf() {
    }

    fn value_eq(a: &MyType, b: &MyType) -> (r: bool) {
        let r = a.num == b.num && str_eq(a.name, b.name);
        proof {
            if a.num == b.num && a.name@ == b.name@ {
                assert(a@ == b@);
            }
        }
        r
    }

    fn value_table() -> (t: Vec<MyType>) {
        let mut t: Vec<MyType> = Vec::new();
        t.push(MyType { num: 0, name: "Zero" });
        t.push(MyType { num: 1, name: "First" });
        t.push(MyType { num: 2, name: "Second" });
        t.push(MyType { num: 3, name: "Third" });
        t.push(MyType { num: 10, name: "Ten" });
        proof {
            assert forall|i: int| 0 <= i < t@.len() implies (#[trigger] t@[i])@
                == Self::values()[i] by {
                assert(t@[0]@ == Self::values()[0]);
                assert(t@[1]@ == Self::values()[1]);
                assert(t@[2]@ == Self::values()[2]);
                assert(t@[3]@ == Self::values()[3]);
                assert(t@[4]@ == Self::values()[4]);
            }
        }
        t
    }
}

/// Four positions carrying fields, each resolving to its position number as
/// a `u8`. The table entries materialize the fields from the written
/// initializer lists where one was given, and from each field type's
/// universal default elsewhere.
#[derive(Debug, PartialEq, Eq, Structural)]
pub enum NumberValueConstr {
    Zero(u16, u16),
    First(u8, u16),
    Second { a: u8, b: u16 },
    Third { c: u8, d: u16 },
}

impl Indexed for NumberValueConstr {
    open spec fn table() -> Seq<NumberValueConstr> {
        seq![
            NumberValueConstr::Zero(2u16, 3u16),
            NumberValueConstr::First(0u8, 0u16),
            NumberValueConstr::Second { a: 0u8, b: 0u16 },
            NumberValueConstr::Third { c: 5u8, d: 7u16 },
        ]
    }

    open spec fn discriminant_spec(self) -> int {
        match self {
            NumberValueConstr::Zero(..) => 0,
            NumberValueConstr::First(..) => 1,
            NumberValueConstr::Second { .. } => 2,
            NumberValueConstr::Third { .. } => 3,
        }
    }

    proof fn lemma_table_wf() {
    }

    fn variant_table() -> (t: Vec<NumberValueConstr>) {
        let mut t: Vec<NumberValueConstr> = Vec::new();
        t.push(NumberValueConstr::Zero(2, 3));
        t.push(NumberValueConstr::First(0, 0));
        t.push(NumberValueConstr::Second { a: 0, b: 0 });
        t.push(NumberValueConstr::Third { c: 5, d: 7 });
        proof {
            assert(t@ =~= Self::table());
        }
        t
    }

    fn discriminant(&self) -> (d: usize) {
        match self {
            NumberValueConstr::Zero(..) => 0,
            NumberValueConstr::First(..) => 1,
            NumberValueConstr::Second { .. } => 2,
            NumberValueConstr::Third { .. } => 3,
        }
    }
}

impl Valued for NumberValueConstr {
    type Value = u8;

    open spec fn values() -> Seq<u8> {
        seq![0u8, 1u8, 2u8, 3u8]
    }

    proof fn lemma_values_wf() {
    }

    fn value_eq(a: &u8, b: &u8) -> (r: bool) {
        *a == *b
    }

    fn value_table() -> (t: Vec<u8>) {
        let mut t: Vec<u8> = Vec::new();
        t.push(0);
        t.push(1);
        t.push(2);
        t.push(3);
        proof {
            assert(t@ =~= Self::values());
            assert forall|i: int| 0 <= i < t@.len() implies (#[trigger] t@[i])@
                == Self::values()[i] by {
                assert(t@[i] == Self::values()[i]);
            }
        }
        t
    }
}


/// Two positions sharing one payload, to show the reverse lookup's
/// tie-break: the shared payload always resolves to the variant with the
/// smaller discriminant.
#[derive(Debug, PartialEq, Eq, Structural)]
pub enum TwinValue {
    First,
    Second,
}

impl Indexed for TwinValue {
    open spec fn table() -> Seq<TwinValue> {
        seq![TwinValue::First, TwinValue::Second]
    }

    open spec fn discriminant_spec(self) -> int {
        match self {
            TwinValue::First => 0,
            TwinValue::Second => 1,
        }
    }

    proof fn lemma_table_wf() {
    }

    fn variant_table() -> (t: Vec<TwinValue>) {
        let mut t: Vec<TwinValue> = Vec::new();
        t.push(TwinValue::First);
        t.push(TwinValue::Second);
        proof {
            assert(t@ =~= Self::table());
        }
        t
    }

    fn discriminant(&self) -> (d: usize) {
        match self {
            TwinValue::First => 0,
            TwinValue::Second => 1,
        }
    }
}

impl Valued for TwinValue {
    type Value = u8;

    open spec fn values() -> Seq<u8> {
        seq![7u8, 7u8]
    }

    proof fn lemma_values_wf() {
    }

    fn value_eq(a: &u8, b: &u8) -> (r: bool) {
        *a == *b
    }

    fn value_table() -> (t: Vec<u8>) {
        let mut t: Vec<u8> = Vec::new();
        t.push(7);
        t.push(7);
        proof {
            assert(t@ =~= Self::values());
            assert forall|i: int| 0 <= i < t@.len() implies (#[trigger] t@[i])@
                == Self::values()[i] by {
                assert(t@[i] == Self::values()[i]);
            }
        }
        t
    }
}


impl Clone for Number {
    /// Duplication by the discriminant round trip, the way the
    /// clone-by-discriminant generation rule writes it.
    fn clone(&self) -> (r: Self)
        ensures
            r == *self,
    {
        let r = crate::valued_enum::clone_by_discriminant(self);
        proof {
            match self {
                Number::Zero => assert(Self::table()[0] == Number::Zero),
                Number::First => assert(Self::table()[1] == Number::First),
                Number::Second => assert(Self::table()[2] == Number::Second),
                Number::Third => assert(Self::table()[3] == Number::Third),
            }
        }
        r
    }
}

impl Clone for NumberValue {
    fn clone(&self) -> (r: Self)
        ensures
            r == *self,
    {
        match self {
            NumberValue::Zero => NumberValue::Zero,
            NumberValue::First => NumberValue::First,
            NumberValue::Second => NumberValue::Second,
            NumberValue::Third => NumberValue::Third,
        }
    }
}

impl Clone for NumberValueDefaulted {
    fn clone(&self) -> (r: Self)
        ensures
            r == *self,
    {
        match self {
            NumberValueDefaulted::Zero => NumberValueDefaulted::Zero,
            NumberValueDefaulted::First => NumberValueDefaulted::First,
            NumberValueDefaulted::Second => NumberValueDefaulted::Second,
            NumberValueDefaulted::Third => NumberValueDefaulted::Third,
        }
    }
}

impl Clone for NumberCustom {
    fn clone(&self) -> (r: Self)
        ensures
            r == *self,
    {
        match self {
            NumberCustom::Zero => NumberCustom::Zero,
            NumberCustom::First => NumberCustom::First,
            NumberCustom::Second => NumberCustom::Second,
            NumberCustom::Third => NumberCustom::Third,
            NumberCustom::Ten => NumberCustom::Ten,
        }
    }
}

impl Clone for NumberValueConstr {
    fn clone(&self) -> (r: Self)
        ensures
            r == *self,
    {
        match self {
            NumberValueConstr::Zero(a, b) => NumberValueConstr::Zero(*a, *b),
            NumberValueConstr::First(a, b) => NumberValueConstr::First(*a, *b),
            NumberValueConstr::Second { a, b } => NumberValueConstr::Second { a: *a, b: *b },
            NumberValueConstr::Third { c, d } => NumberValueConstr::Third { c: *c, d: *d },
        }
    }
}

impl Clone for TwinValue {
    fn clone(&self) -> (r: Self)
        ensures
            r == *self,
    {
        match self {
            TwinValue::First => TwinValue::First,
            TwinValue::Second => TwinValue::Second,
        }
    }
}

} // verus!
