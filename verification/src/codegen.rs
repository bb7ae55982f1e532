//! The generation rules of the library: from a declarative description of an
//! enum — its name, attributes, variants, per-variant payload expressions and
//! field lists — to a generation plan holding the two tables and the
//! requested optional members, or a descriptive error.
//!
//! The description is plain data: token streams are sequences of
//! [`TokenDesc`], attributes carry a path and their argument tokens. A
//! front end that reads real source text hands its findings over in this
//! form and renders the resulting [`GenPlan`] back out.

use vstd::prelude::*;
use vstd::pervasive::unreached;
use vstd::string::StringExecFns;
use crate::utils::str_eq;

verus! {

/// One token of a description: an identifier, punctuation, a literal, or a
/// parenthesized group kept as raw text.
#[derive(Debug, PartialEq, Eq)]
pub enum TokenDesc {
    Ident(String),
    Punct(char),
    Literal(String),
    Group(String),
}

/// What a [`TokenDesc`] holds, with text as character sequences.
pub enum TokenView {
    Ident(Seq<char>),
    Punct(char),
    Literal(Seq<char>),
    Group(Seq<char>),
}

impl View for TokenDesc {
    type V = TokenView;

    open spec fn view(&self) -> TokenView {
        match self {
            TokenDesc::Ident(s) => TokenView::Ident(s@),
            TokenDesc::Punct(c) => TokenView::Punct(*c),
            TokenDesc::Literal(s) => TokenView::Literal(s@),
            TokenDesc::Group(s) => TokenView::Group(s@),
        }
    }
}

/// The views of a token sequence.
pub open spec fn tokens_view(tokens: Seq<TokenDesc>) -> Seq<TokenView> {
    tokens.map_values(|t: TokenDesc| t@)
}

/// An attribute of a description: its path segments and its argument tokens.
#[derive(Debug, PartialEq, Eq)]
pub struct AttrDesc {
    pub path: Vec<String>,
    pub args: Vec<TokenDesc>,
}

/// What an [`AttrDesc`] holds.
pub struct AttrView {
    pub path: Seq<Seq<char>>,
    pub args: Seq<TokenView>,
}

impl View for AttrDesc {
    type V = AttrView;

    open spec fn view(&self) -> AttrView {
        AttrView { path: self.path.deep_view(), args: tokens_view(self.args@) }
    }
}

/// The views of an attribute sequence.
pub open spec fn attrs_view(attrs: Seq<AttrDesc>) -> Seq<AttrView> {
    attrs.map_values(|a: AttrDesc| a@)
}

/// A field of a variant: named, or positional when nameless.
#[derive(Debug, PartialEq, Eq)]
pub struct FieldDesc {
    pub name: Option<String>,
}

impl View for FieldDesc {
    type V = Option<Seq<char>>;

    open spec fn view(&self) -> Option<Seq<char>> {
        self.name.deep_view()
    }
}

/// The views of a field sequence.
pub open spec fn fields_view(fields: Seq<FieldDesc>) -> Seq<Option<Seq<char>>> {
    fields.map_values(|f: FieldDesc| f@)
}

/// A variant of a description: its name, its attributes, and its fields.
#[derive(Debug, PartialEq, Eq)]
pub struct VariantDesc {
    pub name: String,
    pub attrs: Vec<AttrDesc>,
    pub fields: Vec<FieldDesc>,
}

/// What a [`VariantDesc`] holds.
pub struct VariantView {
    pub name: Seq<char>,
    pub attrs: Seq<AttrView>,
    pub fields: Seq<Option<Seq<char>>>,
}

impl View for VariantDesc {
    type V = VariantView;

    open spec fn view(&self) -> VariantView {
        VariantView {
            name: self.name@,
            attrs: attrs_view(self.attrs@),
            fields: fields_view(self.fields@),
        }
    }
}

/// The views of a variant sequence.
pub open spec fn variants_view(variants: Seq<VariantDesc>) -> Seq<VariantView> {
    variants.map_values(|v: VariantDesc| v@)
}

/// Whether the attribute's path is exactly the one given name.
pub open spec fn attr_is_ident(a: AttrView, name: Seq<char>) -> bool {
    a.path.len() == 1 && a.path[0] == name
}

/// Whether the attribute's path ends in the given name.
pub open spec fn attr_last_is(a: AttrView, name: Seq<char>) -> bool {
    a.path.len() > 0 && a.path[a.path.len() - 1] == name
}

/// Position of the first attribute whose path is exactly `name`, or `-1`.
pub open spec fn find_attr_index(attrs: Seq<AttrView>, name: Seq<char>) -> int
    decreases attrs.len(),
{
    if attrs.len() == 0 {
        -1
    } else if attr_is_ident(attrs[0], name) {
        0
    } else {
        let rest = find_attr_index(attrs.drop_first(), name);
        if rest < 0 {
            -1
        } else {
            rest + 1
        }
    }
}

/// Position of the first attribute whose path ends in `name`, or `-1`.
pub open spec fn find_attr_last_index(attrs: Seq<AttrView>, name: Seq<char>) -> int
    decreases attrs.len(),
{
    if attrs.len() == 0 {
        -1
    } else if attr_last_is(attrs[0], name) {
        0
    } else {
        let rest = find_attr_last_index(attrs.drop_first(), name);
        if rest < 0 {
            -1
        } else {
            rest + 1
        }
    }
}

/// How many attributes have a path ending in `name`.
pub open spec fn count_attr_last(attrs: Seq<AttrView>, name: Seq<char>) -> int
    decreases attrs.len(),
{
    if attrs.len() == 0 {
        0
    } else {
        (if attr_last_is(attrs[0], name) {
            1int
        } else {
            0int
        }) + count_attr_last(attrs.drop_first(), name)
    }
}

/// What the first-match searches find: a position inside the sequence whose
/// attribute matches, with no earlier match, or `-1` exactly when nothing
/// matches; and the count is non-negative, zero exactly when nothing
/// matches, and one or more exactly when a first match exists.
pub proof fn lemma_attr_search(attrs: Seq<AttrView>, name: Seq<char>)
    ensures
        -1 <= find_attr_index(attrs, name) < attrs.len(),
        find_attr_index(attrs, name) >= 0 ==> attr_is_ident(
            attrs[find_attr_index(attrs, name)],
            name,
        ),
        forall|j: int| 0 <= j < find_attr_index(attrs, name) ==> !attr_is_ident(attrs[j], name),
        find_attr_index(attrs, name) == -1 ==> forall|j: int|
            0 <= j < attrs.len() ==> !attr_is_ident(attrs[j], name),
        -1 <= find_attr_last_index(attrs, name) < attrs.len(),
        find_attr_last_index(attrs, name) >= 0 ==> attr_last_is(
            attrs[find_attr_last_index(attrs, name)],
            name,
        ),
        forall|j: int|
            0 <= j < find_attr_last_index(attrs, name) ==> !attr_last_is(attrs[j], name),
        find_attr_last_index(attrs, name) == -1 ==> forall|j: int|
            0 <= j < attrs.len() ==> !attr_last_is(attrs[j], name),
        count_attr_last(attrs, name) >= 0,
        count_attr_last(attrs, name) == 0 <==> find_attr_last_index(attrs, name) == -1,
    decreases attrs.len(),
{
    if attrs.len() > 0 {
        lemma_attr_search(attrs.drop_first(), name);
        assert forall|j: int|
            0 <= j < attrs.len() && (attr_is_ident(attrs[j], name) || attr_last_is(
                attrs[j],
                name,
            )) implies true by {}
        assert forall|j: int| 1 <= j < attrs.len() implies attrs.drop_first()[j - 1] == attrs[j]
            by {}
    }
}

/// Compares a description string with a literal name.
fn name_is(s: &String, name: &str) -> (r: bool)
    ensures
        r == (s@ == name@),
{
    str_eq(s.as_str(), name)
}

/// Gives the position of the first attribute whose path is exactly `name`,
/// as [`find_attr_index`] describes, or nothing when no attribute matches.
pub fn find_attribute(attrs: &Vec<AttrDesc>, name: &str) -> (r: Option<usize>)
    ensures
        ({
            let idx = find_attr_index(attrs_view(attrs@), name@);
            &&& idx >= 0 ==> r == Some(idx as usize)
            &&& idx < 0 ==> r is None
            &&& r matches Some(i) ==> i == idx
        }),
{
    proof {
        lemma_attr_search(attrs_view(attrs@), name@);
    }
    let ghost idx = find_attr_index(attrs_view(attrs@), name@);
    let mut i: usize = 0;
    while i < attrs.len()
        invariant
            0 <= i <= attrs@.len(),
            idx == find_attr_index(attrs_view(attrs@), name@),
            -1 <= idx < attrs@.len(),
            idx >= 0 ==> attr_is_ident(attrs_view(attrs@)[idx], name@),
            forall|j: int| 0 <= j < idx ==> !attr_is_ident(attrs_view(attrs@)[j], name@),
            idx == -1 ==> forall|j: int|
                0 <= j < attrs@.len() ==> !attr_is_ident(attrs_view(attrs@)[j], name@),
            forall|j: int| 0 <= j < i ==> !attr_is_ident(attrs_view(attrs@)[j], name@),
        decreases attrs@.len() - i,
    {
        let attr = &attrs[i];
        if attr.path.len() == 1 && name_is(&attr.path[0], name) {
            proof {
                assert(attr_is_ident(attrs_view(attrs@)[i as int], name@));
                if idx != i {
                    assert(!attr_is_ident(attrs_view(attrs@)[idx], name@));
                }
            }
            return Some(i);
        }
        proof {
            assert(attrs_view(attrs@)[i as int].path == attrs@[i as int].path.deep_view());
            assert(!attr_is_ident(attrs_view(attrs@)[i as int], name@));
        }
        i += 1;
    }
    None
}

/// Gives the position of the first attribute whose path ends in `name`, as
/// [`find_attr_last_index`] describes, or nothing when no attribute matches.
pub fn find_attribute_last_in_path(attrs: &Vec<AttrDesc>, name: &str) -> (r: Option<usize>)
    ensures
        ({
            let idx = find_attr_last_index(attrs_view(attrs@), name@);
            &&& idx >= 0 ==> r == Some(idx as usize)
            &&& idx < 0 ==> r is None
            &&& r matches Some(i) ==> i == idx
        }),
{
    proof {
        lemma_attr_search(attrs_view(attrs@), name@);
    }
    let ghost idx = find_attr_last_index(attrs_view(attrs@), name@);
    let mut i: usize = 0;
    while i < attrs.len()
        invariant
            0 <= i <= attrs@.len(),
            idx == find_attr_last_index(attrs_view(attrs@), name@),
            -1 <= idx < attrs@.len(),
            idx >= 0 ==> attr_last_is(attrs_view(attrs@)[idx], name@),
            forall|j: int| 0 <= j < idx ==> !attr_last_is(attrs_view(attrs@)[j], name@),
            idx == -1 ==> forall|j: int|
                0 <= j < attrs@.len() ==> !attr_last_is(attrs_view(attrs@)[j], name@),
            forall|j: int| 0 <= j < i ==> !attr_last_is(attrs_view(attrs@)[j], name@),
        decreases attrs@.len() - i,
    {
        let attr = &attrs[i];
        let n = attr.path.len();
        if n > 0 && name_is(&attr.path[n - 1], name) {
            proof {
                assert(attr_last_is(attrs_view(attrs@)[i as int], name@));
                if idx != i {
                    assert(!attr_last_is(attrs_view(attrs@)[idx], name@));
                }
            }
            return Some(i);
        }
        proof {
            assert(attrs_view(attrs@)[i as int].path == attrs@[i as int].path.deep_view());
            assert(!attr_last_is(attrs_view(attrs@)[i as int], name@));
        }
        i += 1;
    }
    None
}


/// Clones one description token.
impl Clone for TokenDesc {
    fn clone(&self) -> (r: Self)
        ensures
            r@ == self@,
    {
        match self {
            TokenDesc::Ident(s) => TokenDesc::Ident(s.clone()),
            TokenDesc::Punct(c) => TokenDesc::Punct(*c),
            TokenDesc::Literal(s) => TokenDesc::Literal(s.clone()),
            TokenDesc::Group(s) => TokenDesc::Group(s.clone()),
        }
    }
}

/// Clones a token sequence, keeping its contents.
pub fn clone_tokens(tokens: &Vec<TokenDesc>) -> (r: Vec<TokenDesc>)
    ensures
        tokens_view(r@) == tokens_view(tokens@),
{
    let mut r: Vec<TokenDesc> = Vec::new();
    let mut i: usize = 0;
    while i < tokens.len()
        invariant
            0 <= i <= tokens@.len(),
            r@.len() == i,
            forall|j: int| 0 <= j < i ==> (#[trigger] r@[j])@ == tokens@[j]@,
        decreases tokens@.len() - i,
    {
        r.push(tokens[i].clone());
        i += 1;
    }
    proof {
        assert(tokens_view(r@) =~= tokens_view(tokens@));
    }
    r
}

/// Clones a field list, keeping its contents.
pub fn clone_fields(fields: &Vec<FieldDesc>) -> (r: Vec<FieldDesc>)
    ensures
        fields_view(r@) == fields_view(fields@),
{
    let mut r: Vec<FieldDesc> = Vec::new();
    let mut i: usize = 0;
    while i < fields.len()
        invariant
            0 <= i <= fields@.len(),
            r@.len() == i,
            forall|j: int| 0 <= j < i ==> (#[trigger] r@[j])@ == fields@[j]@,
        decreases fields@.len() - i,
    {
        let name = match &fields[i].name {
            Some(s) => Some(s.clone()),
            None => None,
        };
        r.push(FieldDesc { name });
        i += 1;
    }
    proof {
        assert(fields_view(r@) =~= fields_view(fields@));
    }
    r
}

/// A step of walking a sequence from the front: dropping the first element
/// of the tail starting at `i` gives the tail starting at `i + 1`.
pub proof fn lemma_skip_step<A>(s: Seq<A>, i: int)
    requires
        0 <= i < s.len(),
    ensures
        s.skip(i).len() == s.len() - i,
        s.skip(i)[0] == s[i],
        s.skip(i).drop_first() =~= s.skip(i + 1),
{
}

/// The feature names carried by a feature-list token sequence: its
/// identifiers in order, with punctuation skipped; nothing when any other
/// token appears.
pub open spec fn features_of(tokens: Seq<TokenView>) -> Option<Seq<Seq<char>>>
    decreases tokens.len(),
{
    if tokens.len() == 0 {
        Some(Seq::empty())
    } else {
        match tokens[0] {
            TokenView::Ident(name) => match features_of(tokens.drop_first()) {
                Some(rest) => Some(seq![name] + rest),
                None => None,
            },
            TokenView::Punct(_) => features_of(tokens.drop_first()),
            _ => None,
        }
    }
}

/// The requested feature list, still to be checked against the feature
/// catalogue.
#[derive(Debug, PartialEq, Eq)]
pub struct Features {
    pub idents: Vec<String>,
}

impl Features {
    /// Parses a feature-list token sequence: collects the identifiers as
    /// [`features_of`] describes, and fails on any token that is neither an
    /// identifier nor punctuation.
    pub fn parse(tokens: &Vec<TokenDesc>) -> (r: Result<Features, GenError>)
        ensures
            ({
                let fo = features_of(tokens_view(tokens@));
                &&& fo is None ==> r == Err::<Features, GenError>(GenError::NotAFeature)
                &&& fo matches Some(names) ==> r matches Ok(f) && f.idents.deep_view() == names
            }),
    {
        let ghost tv = tokens_view(tokens@);
        let mut idents: Vec<String> = Vec::new();
        let mut i: usize = 0;
        proof {
            assert(tv.skip(0) =~= tv);
            assert(idents.deep_view() =~= Seq::<Seq<char>>::empty());
            if let Some(rest) = features_of(tv) {
                assert(idents.deep_view() + rest =~= rest);
            }
        }
        while i < tokens.len()
            invariant
                0 <= i <= tokens@.len(),
                tv == tokens_view(tokens@),
                tv.len() == tokens@.len(),
                features_of(tv) == match features_of(tv.skip(i as int)) {
                    Some(rest) => Some(idents.deep_view() + rest),
                    None => None::<Seq<Seq<char>>>,
                },
            decreases tokens@.len() - i,
        {
            proof {
                lemma_skip_step(tv, i as int);
                assert(tv[i as int] == tokens@[i as int]@);
            }
            let ghost old_d = idents.deep_view();
            match &tokens[i] {
                TokenDesc::Ident(s) => {
                    idents.push(s.clone());
                    proof {
                        assert(idents.deep_view() =~= old_d.push(s@));
                        if let Some(rest) = features_of(tv.skip(i + 1)) {
                            assert(old_d + (seq![s@] + rest) =~= old_d.push(s@) + rest);
                        }
                    }
                },
                TokenDesc::Punct(_) => {
                },
                TokenDesc::Literal(_) => {
                    proof {
                        assert(features_of(tv.skip(i as int)) is None);
                    }
                    return Err(GenError::NotAFeature);
                },
                TokenDesc::Group(_) => {
                    proof {
                        assert(features_of(tv.skip(i as int)) is None);
                    }
                    return Err(GenError::NotAFeature);
                },
            }
            i += 1;
        }
        proof {
            assert(tv.skip(i as int) =~= Seq::<TokenView>::empty());
            assert(idents.deep_view() + Seq::<Seq<char>>::empty() =~= idents.deep_view());
        }
        Ok(Features { idents })
    }
}

/// The payload type named by the description, kept as its tokens.
#[derive(Debug, PartialEq, Eq)]
pub struct ValuedAsAttribute {
    pub type_of_value: Vec<TokenDesc>,
}

impl ValuedAsAttribute {
    /// Parses the payload type from the argument tokens of the declaring
    /// attribute: the tokens themselves, which must not be empty.
    pub fn parse(args: &Vec<TokenDesc>) -> (r: Result<ValuedAsAttribute, GenError>)
        ensures
            args@.len() == 0 ==> r == Err::<ValuedAsAttribute, GenError>(
                GenError::MalformedPayloadType,
            ),
            args@.len() > 0 ==> (r matches Ok(v) && tokens_view(v.type_of_value@)
                == tokens_view(args@)),
    {
        if args.len() == 0 {
            Err(GenError::MalformedPayloadType)
        } else {
            Ok(ValuedAsAttribute { type_of_value: clone_tokens(args) })
        }
    }
}

/// A failure of the generation rules, each descriptive of its cause.
#[derive(Debug, PartialEq, Eq)]
pub enum GenError {
    /// The description is of a struct or union, which carry no variants.
    NotAnEnum,
    /// No payload type declaration was found on the named enum.
    MissingPayloadType { enum_name: String },
    /// More than one payload type declaration was found on the named enum.
    MultiplePayloadTypes { enum_name: String },
    /// A payload type declaration was found, but holds no type.
    MalformedPayloadType,
    /// The feature list holds a token that names no feature.
    NotAFeature,
    /// The named variant has no payload expression and no enum-level
    /// default stands in.
    MissingValue { variant_name: String },
}


/// How the constant table entry of one variant is built: from explicitly
/// written initializer tokens, or from one universal default per field.
#[derive(Debug, PartialEq, Eq)]
pub enum InitList {
    /// The written field-initializer tokens, used as given.
    Given(Vec<TokenDesc>),
    /// One universal-default value per field, in declared field order.
    Defaults(Vec<FieldDesc>),
}

/// What an [`InitList`] holds.
pub enum InitListView {
    Given(Seq<TokenView>),
    Defaults(Seq<Option<Seq<char>>>),
}

impl View for InitList {
    type V = InitListView;

    open spec fn view(&self) -> InitListView {
        match self {
            InitList::Given(tokens) => InitListView::Given(tokens_view(tokens@)),
            InitList::Defaults(fields) => InitListView::Defaults(fields_view(fields@)),
        }
    }
}

/// One variant with everything resolved: its payload expression, whether
/// its fields are named, and how its table entry is built.
#[derive(Debug, PartialEq, Eq)]
pub struct ResolvedVariant {
    pub name: String,
    pub value: Vec<TokenDesc>,
    pub named_fields: bool,
    pub initializer: Option<InitList>,
}

/// What a [`ResolvedVariant`] holds.
pub struct ResolvedVariantView {
    pub name: Seq<char>,
    pub value: Seq<TokenView>,
    pub named_fields: bool,
    pub initializer: Option<InitListView>,
}

impl View for ResolvedVariant {
    type V = ResolvedVariantView;

    open spec fn view(&self) -> ResolvedVariantView {
        ResolvedVariantView {
            name: self.name@,
            value: tokens_view(self.value@),
            named_fields: self.named_fields,
            initializer: match &self.initializer {
                Some(il) => Some(il@),
                None => None,
            },
        }
    }
}

/// The full output of the generation rules: the payload type, the feature
/// list, and every variant resolved, all in declaration order.
#[derive(Debug, PartialEq, Eq)]
pub struct GenPlan {
    pub enum_name: String,
    pub payload_type: Vec<TokenDesc>,
    pub features: Vec<String>,
    pub variants: Vec<ResolvedVariant>,
}

/// What a [`GenPlan`] holds.
pub struct GenPlanView {
    pub enum_name: Seq<char>,
    pub payload_type: Seq<TokenView>,
    pub features: Seq<Seq<char>>,
    pub variants: Seq<ResolvedVariantView>,
}

impl View for GenPlan {
    type V = GenPlanView;

    open spec fn view(&self) -> GenPlanView {
        GenPlanView {
            enum_name: self.enum_name@,
            payload_type: tokens_view(self.payload_type@),
            features: self.features.deep_view(),
            variants: self.variants@.map_values(|rv: ResolvedVariant| rv@),
        }
    }
}

/// The argument tokens of the variant's payload attribute, when it has one.
pub open spec fn variant_value_attr(v: VariantView) -> Option<Seq<TokenView>> {
    let i = find_attr_index(v.attrs, "value"@);
    if i >= 0 {
        Some(v.attrs[i].args)
    } else {
        None
    }
}

/// The argument tokens of the variant's field-initializer attribute, when
/// it has one.
pub open spec fn variant_init_attr(v: VariantView) -> Option<Seq<TokenView>> {
    let i = find_attr_index(v.attrs, "variant_initialize_uses"@);
    if i >= 0 {
        Some(v.attrs[i].args)
    } else {
        None
    }
}

/// The payload expression a variant resolves to: its own written value when
/// one is given, and the enum-level default otherwise. Nothing when it has
/// neither.
pub open spec fn resolved_payload(
    value_attr: Option<Seq<TokenView>>,
    default: Option<Seq<TokenView>>,
) -> Option<Seq<TokenView>> {
    if value_attr is Some {
        value_attr
    } else {
        default
    }
}

/// Whether the variant's first field carries a name.
pub open spec fn first_field_is_named(v: VariantView) -> bool {
    v.fields.len() > 0 && v.fields[0] is Some
}

/// The enum-level default payload tokens, when declared.
pub open spec fn spec_enum_default(attrs: Seq<AttrView>) -> Option<Seq<TokenView>> {
    let i = find_attr_index(attrs, "unvalued_default"@);
    if i >= 0 {
        Some(attrs[i].args)
    } else {
        None
    }
}

/// The requested feature names: empty without a feature-list attribute, the
/// parsed identifiers with one, and nothing when that list is malformed.
pub open spec fn spec_features(attrs: Seq<AttrView>) -> Option<Seq<Seq<char>>> {
    let i = find_attr_index(attrs, "enum_valued_features"@);
    if i >= 0 {
        features_of(attrs[i].args)
    } else {
        Some(Seq::empty())
    }
}

/// Position of the first variant left without a payload expression under
/// the given enum-level default, or `-1` when every variant has one.
pub open spec fn first_unvalued_index(
    variants: Seq<VariantView>,
    default: Option<Seq<TokenView>>,
) -> int
    decreases variants.len(),
{
    if variants.len() == 0 {
        -1
    } else if resolved_payload(variant_value_attr(variants[0]), default) is None {
        0
    } else {
        let rest = first_unvalued_index(variants.drop_first(), default);
        if rest < 0 {
            -1
        } else {
            rest + 1
        }
    }
}

/// What [`first_unvalued_index`] finds: the position of a variant without a
/// payload, with every earlier variant having one, or `-1` exactly when all
/// variants have one.
pub proof fn lemma_first_unvalued_index(
    variants: Seq<VariantView>,
    default: Option<Seq<TokenView>>,
)
    ensures
        -1 <= first_unvalued_index(variants, default) < variants.len(),
        first_unvalued_index(variants, default) >= 0 ==> resolved_payload(
            variant_value_attr(variants[first_unvalued_index(variants, default)]),
            default,
        ) is None,
        forall|j: int|
            0 <= j < first_unvalued_index(variants, default) ==> resolved_payload(
                variant_value_attr(variants[j]),
                default,
            ) is Some,
        first_unvalued_index(variants, default) == -1 ==> forall|j: int|
            0 <= j < variants.len() ==> resolved_payload(
                variant_value_attr(variants[j]),
                default,
            ) is Some,
    decreases variants.len(),
{
    if variants.len() > 0 && resolved_payload(variant_value_attr(variants[0]), default) is Some {
        lemma_first_unvalued_index(variants.drop_first(), default);
        assert forall|j: int| 1 <= j < variants.len() implies variants.drop_first()[j - 1]
            == variants[j] by {}
    }
}

/// One resolved variant agreeing with its description: same name, the
/// payload that [`resolved_payload`] picks, the named-fields flag from the
/// first field, and the table-entry initializer: the written tokens where
/// given, one universal default per field where fields exist without them,
/// and nothing for a field-less variant.
pub open spec fn variant_resolution_ok(
    v: VariantView,
    default: Option<Seq<TokenView>>,
    rv: ResolvedVariantView,
) -> bool {
    &&& rv.name == v.name
    &&& Some(rv.value) == resolved_payload(variant_value_attr(v), default)
    &&& rv.named_fields == first_field_is_named(v)
    &&& match variant_init_attr(v) {
        Some(tokens) => rv.initializer == Some(InitListView::Given(tokens)),
        None => if v.fields.len() > 0 {
            rv.initializer == Some(InitListView::Defaults(v.fields))
        } else {
            rv.initializer is None
        },
    }
}

/// A generation plan agreeing with the whole description: name and payload
/// type carried over, the features as requested, and every variant resolved
/// in declaration order.
pub open spec fn plan_matches(
    plan: GenPlanView,
    enum_name: Seq<char>,
    attrs: Seq<AttrView>,
    variants: Seq<VariantView>,
) -> bool {
    &&& plan.enum_name == enum_name
    &&& plan.payload_type == attrs[find_attr_last_index(attrs, "enum_valued_as"@)].args
    &&& Some(plan.features) == spec_features(attrs)
    &&& plan.variants.len() == variants.len()
    &&& forall|k: int|
        0 <= k < variants.len() ==> variant_resolution_ok(
            variants[k],
            spec_enum_default(attrs),
            #[trigger] plan.variants[k],
        )
}

/// Everything [`derive_enum`] promises: which error comes back on which
/// description, in the order the checks run, and a matching plan otherwise.
pub open spec fn derive_enum_post(
    enum_name: Seq<char>,
    attrs: Seq<AttrView>,
    variants: Seq<VariantView>,
    r: Result<GenPlan, GenError>,
) -> bool {
    let n_payload = count_attr_last(attrs, "enum_valued_as"@);
    let p_idx = find_attr_last_index(attrs, "enum_valued_as"@);
    let missing = first_unvalued_index(variants, spec_enum_default(attrs));
    &&& (n_payload == 0 ==> (r matches Err(GenError::MissingPayloadType { enum_name: e })
        && e@ == enum_name))
    &&& (n_payload > 1 ==> (r matches Err(GenError::MultiplePayloadTypes { enum_name: e })
        && e@ == enum_name))
    &&& (n_payload == 1 && attrs[p_idx].args.len() == 0 ==> r == Err::<GenPlan, GenError>(
        GenError::MalformedPayloadType,
    ))
    &&& (n_payload == 1 && attrs[p_idx].args.len() > 0 && spec_features(attrs) is None ==> r
        == Err::<GenPlan, GenError>(GenError::NotAFeature))
    &&& (n_payload == 1 && attrs[p_idx].args.len() > 0 && spec_features(attrs) is Some
        && missing >= 0 ==> (r matches Err(GenError::MissingValue { variant_name: vn })
        && vn@ == variants[missing].name))
    &&& (n_payload == 1 && attrs[p_idx].args.len() > 0 && spec_features(attrs) is Some
        && missing < 0 ==> (r matches Ok(plan) && plan_matches(
        plan@,
        enum_name,
        attrs,
        variants,
    )))
}

/// Counts the attributes whose path ends in `name`.
fn count_attributes_last_in_path(attrs: &Vec<AttrDesc>, name: &str) -> (r: usize)
    ensures
        r == count_attr_last(attrs_view(attrs@), name@),
{
    let ghost av = attrs_view(attrs@);
    let mut count: usize = 0;
    let mut i: usize = 0;
    proof {
        assert(av.skip(0) =~= av);
        lemma_count_skip_bound(av, name@, 0);
    }
    while i < attrs.len()
        invariant
            0 <= i <= attrs@.len(),
            av == attrs_view(attrs@),
            av.len() == attrs@.len(),
            count + count_attr_last(av.skip(i as int), name@) == count_attr_last(av, name@),
            count <= i,
            0 <= count_attr_last(av.skip(i as int), name@),
        decreases attrs@.len() - i,
    {
        proof {
            lemma_skip_step(av, i as int);
            assert(av[i as int] == attrs@[i as int]@);
            lemma_count_skip_bound(av, name@, i + 1);
        }
        let attr = &attrs[i];
        let n = attr.path.len();
        if n > 0 && name_is(&attr.path[n - 1], name) {
            proof {
                assert(attr_last_is(av[i as int], name@));
            }
            count += 1;
        } else {
            proof {
                assert(av[i as int].path == attrs@[i as int].path.deep_view());
                assert(!attr_last_is(av[i as int], name@));
            }
        }
        i += 1;
    }
    proof {
        assert(av.skip(i as int) =~= Seq::<AttrView>::empty());
    }
    count
}

/// The count over any tail of the sequence is non-negative.
proof fn lemma_count_skip_bound(attrs: Seq<AttrView>, name: Seq<char>, i: int)
    requires
        0 <= i <= attrs.len(),
    ensures
        0 <= count_attr_last(attrs.skip(i), name),
{
    lemma_attr_search(attrs.skip(i), name);
}


/// Transforms an enum description into a generation plan: validates that
/// exactly one payload type is declared, resolves every variant's payload
/// expression (its own written value first, the enum-level default
/// otherwise), resolves the field initializers of field-carrying variants,
/// and collects the requested features — or reports the first failure, as
/// [`derive_enum_post`] describes.
pub fn derive_enum(
    enum_name: &String,
    attrs: &Vec<AttrDesc>,
    variants: &Vec<VariantDesc>,
) -> (r: Result<GenPlan, GenError>)
    ensures
        derive_enum_post(enum_name@, attrs_view(attrs@), variants_view(variants@), r),
{
    let ghost av = attrs_view(attrs@);
    let ghost vs = variants_view(variants@);
    proof {
        lemma_attr_search(av, "enum_valued_as"@);
        assert(av.len() == attrs@.len());
        assert(vs.len() == variants@.len());
    }
    let n_payload = count_attributes_last_in_path(attrs, "enum_valued_as");
    if n_payload == 0 {
        return Err(GenError::MissingPayloadType { enum_name: enum_name.clone() });
    }
    if n_payload > 1 {
        return Err(GenError::MultiplePayloadTypes { enum_name: enum_name.clone() });
    }
    let p_idx = match find_attribute_last_in_path(attrs, "enum_valued_as") {
        Some(i) => i,
        None => {
            proof {
                assert(false);
            }
            unreached()
        },
    };
    proof {
        assert(av[p_idx as int] == attrs@[p_idx as int]@);
        assert(av[p_idx as int].args == tokens_view(attrs@[p_idx as int].args@));
        assert(av[p_idx as int].args.len() == attrs@[p_idx as int].args@.len());
    }
    let valued_as = match ValuedAsAttribute::parse(&attrs[p_idx].args) {
        Ok(v) => v,
        Err(e) => {
            proof {
                assert(attrs@[p_idx as int].args@.len() == 0);
                assert(av[p_idx as int].args.len() == 0);
            }
            return Err(e);
        },
    };
    proof {
        assert(av[p_idx as int].args.len() > 0);
        lemma_attr_search(av, "unvalued_default"@);
        lemma_attr_search(av, "enum_valued_features"@);
    }
    let default_idx = find_attribute(attrs, "unvalued_default");
    let features: Vec<String>;
    match find_attribute(attrs, "enum_valued_features") {
        Some(fi) => {
            proof {
                assert(av[fi as int] == attrs@[fi as int]@);
                assert(av[fi as int].args == tokens_view(attrs@[fi as int].args@));
                assert(spec_features(av) == features_of(av[fi as int].args));
            }
            match Features::parse(&attrs[fi].args) {
                Ok(f) => {
                    proof {
                        assert(Some(f.idents.deep_view()) == spec_features(av));
                    }
                    features = f.idents;
                },
                Err(e) => {
                    proof {
                        assert(spec_features(av) is None);
                    }
                    return Err(e);
                },
            }
        },
        None => {
            let empty: Vec<String> = Vec::new();
            proof {
                assert(empty.deep_view() =~= Seq::<Seq<char>>::empty());
                assert(Some(empty.deep_view()) == spec_features(av));
            }
            features = empty;
        },
    };
    let ghost default_spec = spec_enum_default(av);
    let ghost missing = first_unvalued_index(vs, default_spec);
    proof {
        lemma_first_unvalued_index(vs, default_spec);
        assert(Some(features.deep_view()) == spec_features(av));
        if let Some(di) = default_idx {
            assert(di < attrs@.len());
            assert(av[di as int] == attrs@[di as int]@);
            assert(default_spec == Some(av[di as int].args));
        } else {
            assert(default_spec is None);
        }
    }
    let mut resolved: Vec<ResolvedVariant> = Vec::new();
    let mut k: usize = 0;
    while k < variants.len()
        invariant
            0 <= k <= variants@.len(),
            av == attrs_view(attrs@),
            av.len() == attrs@.len(),
            vs == variants_view(variants@),
            vs.len() == variants@.len(),
            count_attr_last(av, "enum_valued_as"@) == 1,
            av[find_attr_last_index(av, "enum_valued_as"@)].args.len() > 0,
            Some(features.deep_view()) == spec_features(av),
            tokens_view(valued_as.type_of_value@) == av[find_attr_last_index(
                av,
                "enum_valued_as"@,
            )].args,
            default_spec == spec_enum_default(av),
            missing == first_unvalued_index(vs, default_spec),
            -1 <= missing < vs.len(),
            missing >= 0 ==> resolved_payload(
                variant_value_attr(vs[missing]),
                default_spec,
            ) is None,
            missing == -1 ==> forall|j: int|
                0 <= j < vs.len() ==> resolved_payload(
                    variant_value_attr(vs[j]),
                    default_spec,
                ) is Some,
            forall|j: int|
                0 <= j < missing ==> resolved_payload(
                    variant_value_attr(vs[j]),
                    default_spec,
                ) is Some,
            forall|j: int|
                0 <= j < k ==> resolved_payload(
                    variant_value_attr(vs[j]),
                    default_spec,
                ) is Some,
            resolved@.len() == k,
            forall|j: int|
                0 <= j < k ==> variant_resolution_ok(
                    vs[j],
                    default_spec,
                    (#[trigger] resolved@[j])@,
                ),
            match default_idx {
                Some(di) => di < attrs@.len() && default_spec == Some(av[di as int].args),
                None => default_spec is None,
            },
        decreases variants@.len() - k,
    {
        let v = &variants[k];
        proof {
            assert(vs[k as int] == variants@[k as int]@);
            assert(vs[k as int].attrs == attrs_view(v.attrs@));
            assert(vs[k as int].fields == fields_view(v.fields@));
            lemma_attr_search(attrs_view(v.attrs@), "value"@);
            lemma_attr_search(attrs_view(v.attrs@), "variant_initialize_uses"@);
        }
        let value_tokens: Vec<TokenDesc>;
        match find_attribute(&v.attrs, "value") {
            Some(ai) => {
                proof {
                    assert(vs[k as int].attrs[ai as int] == v.attrs@[ai as int]@);
                    assert(vs[k as int].attrs[ai as int].args == tokens_view(
                        v.attrs@[ai as int].args@,
                    ));
                }
                value_tokens = clone_tokens(&v.attrs[ai].args);
                proof {
                    assert(Some(tokens_view(value_tokens@)) == resolved_payload(
                        variant_value_attr(vs[k as int]),
                        default_spec,
                    ));
                }
            },
            None => {
                match default_idx {
                    Some(di) => {
                        value_tokens = clone_tokens(&attrs[di].args);
                        proof {
                            assert(av[di as int].args == tokens_view(attrs@[di as int].args@));
                            assert(Some(tokens_view(value_tokens@)) == resolved_payload(
                                variant_value_attr(vs[k as int]),
                                default_spec,
                            ));
                        }
                    },
                    None => {
                        proof {
                            assert(resolved_payload(
                                variant_value_attr(vs[k as int]),
                                default_spec,
                            ) is None);
                            if missing == -1 {
                                assert(false);
                            }
                            if missing < k {
                                assert(resolved_payload(
                                    variant_value_attr(vs[missing]),
                                    default_spec,
                                ) is Some);
                                assert(false);
                            }
                            if missing > k {
                                assert(resolved_payload(
                                    variant_value_attr(vs[k as int]),
                                    default_spec,
                                ) is Some);
                                assert(false);
                            }
                            assert(missing == k);
                        }
                        return Err(GenError::MissingValue { variant_name: v.name.clone() });
                    },
                }
            },
        };
        let initializer: Option<InitList>;
        match find_attribute(&v.attrs, "variant_initialize_uses") {
            Some(ai) => {
                proof {
                    assert(vs[k as int].attrs[ai as int] == v.attrs@[ai as int]@);
                    assert(vs[k as int].attrs[ai as int].args == tokens_view(
                        v.attrs@[ai as int].args@,
                    ));
                }
                initializer = Some(InitList::Given(clone_tokens(&v.attrs[ai].args)));
                proof {
                    assert(initializer matches Some(il) && il@ == InitListView::Given(
                        variant_init_attr(vs[k as int])->0,
                    ));
                }
            },
            None => {
                if v.fields.len() > 0 {
                    initializer = Some(InitList::Defaults(clone_fields(&v.fields)));
                    proof {
                        assert(initializer matches Some(il) && il@ == InitListView::Defaults(
                            vs[k as int].fields,
                        ));
                    }
                } else {
                    initializer = None;
                }
            },
        };
        let named_fields = v.fields.len() > 0 && v.fields[0].name.is_some();
        proof {
            if v.fields@.len() > 0 {
                assert(vs[k as int].fields[0] == v.fields@[0]@);
            }
            assert(named_fields == first_field_is_named(vs[k as int]));
        }
        let rv = ResolvedVariant {
            name: v.name.clone(),
            value: value_tokens,
            named_fields,
            initializer,
        };
        proof {
            assert(variant_resolution_ok(vs[k as int], default_spec, rv@));
        }
        resolved.push(rv);
        k += 1;
    }
    proof {
        if missing >= 0 {
            assert(resolved_payload(variant_value_attr(vs[missing]), default_spec) is Some);
            assert(false);
        }
    }
    let plan = GenPlan {
        enum_name: enum_name.clone(),
        payload_type: valued_as.type_of_value,
        features,
        variants: resolved,
    };
    proof {
        assert forall|j: int| 0 <= j < vs.len() implies variant_resolution_ok(
            vs[j],
            spec_enum_default(av),
            #[trigger] plan@.variants[j],
        ) by {
            assert(plan@.variants[j] == plan.variants@[j]@);
        }
        assert(plan_matches(plan@, enum_name@, av, vs));
    }
    Ok(plan)
}

/// The body of a description: an enum's variants, or a struct or union.
#[derive(Debug, PartialEq, Eq)]
pub enum DataDesc {
    Enum(Vec<VariantDesc>),
    Struct,
    Union,
}

/// A whole description as handed to the generation entry point: the type's
/// name, its attributes, and its body.
#[derive(Debug, PartialEq, Eq)]
pub struct DeriveDesc {
    pub name: String,
    pub attrs: Vec<AttrDesc>,
    pub data: DataDesc,
}

/// The generation entry point: hands an enum description to
/// [`derive_enum`], and rejects structs and unions, which carry no
/// variants.
pub fn derive_macro_describe(input: &DeriveDesc) -> (r: Result<GenPlan, GenError>)
    ensures
        input.data matches DataDesc::Enum(vs) ==> derive_enum_post(
            input.name@,
            attrs_view(input.attrs@),
            variants_view(vs@),
            r,
        ),
        !(input.data is Enum) ==> r == Err::<GenPlan, GenError>(GenError::NotAnEnum),
{
    match &input.data {
        DataDesc::Enum(variants) => derive_enum(&input.name, &input.attrs, variants),
        DataDesc::Struct => Err(GenError::NotAnEnum),
        DataDesc::Union => Err(GenError::NotAnEnum),
    }
}

/// Prepares an enum item for the lookup implementations by putting the
/// machine-word tag layout attribute in front of its tokens.
pub fn enum_valued_as(item: Vec<TokenDesc>) -> (r: Vec<TokenDesc>)
    ensures
        tokens_view(r@) == seq![
            TokenView::Punct('#'),
            TokenView::Group("repr(usize)"@),
        ] + tokens_view(item@),
{
    let mut item = item;
    let ghost item0 = item@;
    let mut r: Vec<TokenDesc> = Vec::new();
    r.push(TokenDesc::Punct('#'));
    r.push(TokenDesc::Group("repr(usize)".to_owned()));
    r.append(&mut item);
    proof {
        assert(tokens_view(r@) =~= seq![
            TokenView::Punct('#'),
            TokenView::Group("repr(usize)"@),
        ] + tokens_view(item0));
    }
    r
}

/// Takes the argument tokens out of an attribute.
pub fn extract_token_stream_of_attribute(attr: &AttrDesc) -> (r: &Vec<TokenDesc>)
    ensures
        tokens_view(r@) == attr@.args,
{
    &attr.args
}

/// Law: a variant without a written payload expression resolves to exactly
/// the enum-level default, and the default has no effect on a variant with
/// a written payload: its resolution is the same under any two defaults.
pub proof fn lemma_default_substitution(
    value_attr: Option<Seq<TokenView>>,
    d1: Option<Seq<TokenView>>,
    d2: Option<Seq<TokenView>>,
)
    ensures
        value_attr is None ==> resolved_payload(value_attr, d1) == d1,
        value_attr is Some ==> resolved_payload(value_attr, d1) == resolved_payload(
            value_attr,
            d2,
        ),
{
}

/// Law: a field-carrying variant without a written field-initializer list
/// materializes its table entry from one universal default per field, in
/// declared field order.
pub proof fn lemma_field_default_synthesis(
    v: VariantView,
    default: Option<Seq<TokenView>>,
    rv: ResolvedVariantView,
)
    requires
        variant_resolution_ok(v, default, rv),
        variant_init_attr(v) is None,
        v.fields.len() > 0,
    ensures
        rv.initializer == Some(InitListView::Defaults(v.fields)),
{
}


impl GenError {
    /// The diagnostic text of this failure, naming the offending enum or
    /// variant where one is known.
    pub fn message(&self) -> (m: String)
        ensures
            match self {
                GenError::NotAnEnum => m@ == "the valued-enum rules target enums, not structs or unions"@,
                GenError::MissingPayloadType { enum_name } => m@
                    == "could not find the payload type declaration of enum "@ + enum_name@,
                GenError::MultiplePayloadTypes { enum_name } => m@
                    == "found more than one payload type declaration on enum "@ + enum_name@,
                GenError::MalformedPayloadType => m@
                    == "the payload type declaration must hold one and just one type"@,
                GenError::NotAFeature => m@ == "not a feature or a punctuation sign"@,
                GenError::MissingValue { variant_name } => m@
                    == "could not find a value for variant "@ + variant_name@,
            },
    {
        match self {
            GenError::NotAnEnum => "the valued-enum rules target enums, not structs or unions".to_owned(),
            GenError::MissingPayloadType { enum_name } => "could not find the payload type declaration of enum ".to_owned().concat(
                enum_name.as_str(),
            ),
            GenError::MultiplePayloadTypes { enum_name } => "found more than one payload type declaration on enum ".to_owned().concat(
                enum_name.as_str(),
            ),
            GenError::MalformedPayloadType => "the payload type declaration must hold one and just one type".to_owned(),
            GenError::NotAFeature => "not a feature or a punctuation sign".to_owned(),
            GenError::MissingValue { variant_name } => "could not find a value for variant ".to_owned().concat(
                variant_name.as_str(),
            ),
        }
    }
}

/// Diagnostics hook of the generation rules; deliberately silent.
pub fn print_info(name: &str, info: &str) {
    let _ = name;
    let _ = info;
}


/// The feature catalogue: every optional generated capability a description
/// may request.
#[derive(Clone, Copy, Debug, PartialEq, Eq, Structural)]
pub enum Feature {
    /// Convenience methods forwarding to the discriminant and value lookups.
    Delegators,
    /// Convenience methods forwarding to the reverse lookup, split out
    /// because it needs payload equality.
    ValueToVariantDelegators,
    /// Coercion of a variant to a reference to its payload.
    DerefToValue,
    /// Duplication by the discriminant round trip through the variant table.
    CloneByDiscriminant,
    /// Structured-data encoding of a variant as its discriminant alone.
    Serialize,
    /// Structured-data decoding of a variant from its discriminant alone.
    Deserialize,
    /// Binary encoding of a variant as its discriminant alone.
    NanoSerBin,
    /// Binary decoding of a variant from its discriminant alone.
    NanoDeBin,
    /// Text encoding of a variant as its discriminant alone.
    NanoSerJson,
    /// Text decoding of a variant from its discriminant alone.
    NanoDeJson,
}

/// The catalogue entry a feature name stands for, or nothing for a name
/// outside the catalogue. Duplication goes under its trait's plain name.
pub open spec fn spec_feature_of(name: Seq<char>) -> Option<Feature> {
    if name == "Delegators"@ {
        Some(Feature::Delegators)
    } else if name == "ValueToVariantDelegators"@ {
        Some(Feature::ValueToVariantDelegators)
    } else if name == "DerefToValue"@ {
        Some(Feature::DerefToValue)
    } else if name == "Clone"@ {
        Some(Feature::CloneByDiscriminant)
    } else if name == "Serialize"@ {
        Some(Feature::Serialize)
    } else if name == "Deserialize"@ {
        Some(Feature::Deserialize)
    } else if name == "NanoSerBin"@ {
        Some(Feature::NanoSerBin)
    } else if name == "NanoDeBin"@ {
        Some(Feature::NanoDeBin)
    } else if name == "NanoSerJson"@ {
        Some(Feature::NanoSerJson)
    } else if name == "NanoDeJson"@ {
        Some(Feature::NanoDeJson)
    } else {
        None
    }
}

/// Looks a feature name up in the catalogue.
pub fn feature_of(name: &str) -> (r: Option<Feature>)
    ensures
        r == spec_feature_of(name@),
{
    if str_eq(name, "Delegators") {
        Some(Feature::Delegators)
    } else if str_eq(name, "ValueToVariantDelegators") {
        Some(Feature::ValueToVariantDelegators)
    } else if str_eq(name, "DerefToValue") {
        Some(Feature::DerefToValue)
    } else if str_eq(name, "Clone") {
        Some(Feature::CloneByDiscriminant)
    } else if str_eq(name, "Serialize") {
        Some(Feature::Serialize)
    } else if str_eq(name, "Deserialize") {
        Some(Feature::Deserialize)
    } else if str_eq(name, "NanoSerBin") {
        Some(Feature::NanoSerBin)
    } else if str_eq(name, "NanoDeBin") {
        Some(Feature::NanoDeBin)
    } else if str_eq(name, "NanoSerJson") {
        Some(Feature::NanoSerJson)
    } else if str_eq(name, "NanoDeJson") {
        Some(Feature::NanoDeJson)
    } else {
        None
    }
}

/// Looks every requested feature name up in the catalogue, in the set's
/// order: each entry of the result classifies the name at its position.
pub fn classify_features(names: &Vec<String>) -> (r: Vec<Option<Feature>>)
    ensures
        r@.len() == names@.len(),
        forall|i: int| 0 <= i < names@.len() ==> r@[i] == spec_feature_of(names@[i]@),
{
    let mut r: Vec<Option<Feature>> = Vec::new();
    let mut i: usize = 0;
    while i < names.len()
        invariant
            0 <= i <= names@.len(),
            r@.len() == i,
            forall|j: int| 0 <= j < i ==> r@[j] == spec_feature_of(names@[j]@),
        decreases names@.len() - i,
    {
        r.push(feature_of(names[i].as_str()));
        i += 1;
    }
    r
}

} // verus!
