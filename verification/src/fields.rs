//! Fields of an endpoint and their classification into roles.

use vstd::prelude::*;
use vstd::string::*;
use crate::select::{
    lemma_positions_complete, lemma_positions_increasing, lemma_positions_none,
    lemma_positions_sound, lemma_positions_take, positions,
};
use crate::text::same_text;
use crate::value::ValueType;

verus! {

/// The role a field plays in a request.
#[derive(Clone, Copy, Debug, PartialEq, Eq, Structural)]
pub enum FieldRole {
    /// The value is substituted positionally into the URI template.
    PathParam,
    /// The value is always sent as a payload parameter.
    EssentialPayloadParam,
    /// The value is sent as a payload parameter only when present.
    OptionalPayloadParam,
}

/// The two ways in which a catalog declares the roles of its fields.
#[derive(Clone, Copy, Debug, PartialEq, Eq, Structural)]
pub enum Dialect {
    /// A binary split: a field is required or optional, and nothing else is
    /// said. Required fields are essential payload parameters, and the URI
    /// template refers to them too.
    Legacy,
    /// A three-way split: required fields carry an explicit role tag.
    Extended,
}

/// A field as the catalog declares it, before classification.
#[derive(Debug)]
pub struct RawField {
    /// The field's identifier.
    pub name: String,
    /// The type of the field's value, inside the optional wrapper if any.
    pub value_type: ValueType,
    /// Whether the value is wrapped as optional.
    pub optional: bool,
    /// The role tag the field carries, if any.
    pub tag: Option<String>,
}

/// The mathematical content of a `RawField`.
pub struct RawFieldView {
    pub name: Seq<char>,
    pub value_type: ValueType,
    pub optional: bool,
    pub tag: Option<Seq<char>>,
}

impl View for RawField {
    type V = RawFieldView;

    open spec fn view(&self) -> RawFieldView {
        RawFieldView {
            name: self.name@,
            value_type: self.value_type,
            optional: self.optional,
            tag: match self.tag {
                Some(tag) => Some(tag@),
                None => None,
            },
        }
    }
}

/// The views of a sequence of raw fields.
pub open spec fn raw_views(fields: Seq<RawField>) -> Seq<RawFieldView> {
    fields.map_values(|f: RawField| f@)
}

/// A classified field.
#[derive(Debug)]
pub struct FieldSpec {
    /// The field's identifier.
    pub name: String,
    /// The type of the field's value.
    pub value_type: ValueType,
    /// The field's role.
    pub role: FieldRole,
    /// The field's position in the full field list.
    pub declaration_order: usize,
}

/// The mathematical content of a `FieldSpec`.
pub struct FieldSpecView {
    pub name: Seq<char>,
    pub value_type: ValueType,
    pub role: FieldRole,
    pub declaration_order: int,
}

impl View for FieldSpec {
    type V = FieldSpecView;

    open spec fn view(&self) -> FieldSpecView {
        FieldSpecView {
            name: self.name@,
            value_type: self.value_type,
            role: self.role,
            declaration_order: self.declaration_order as int,
        }
    }
}

impl Clone for FieldSpec {
    fn clone(&self) -> (copy: Self)
        ensures
            copy == *self,
    {
        FieldSpec {
            name: self.name.clone(),
            value_type: self.value_type,
            role: self.role,
            declaration_order: self.declaration_order,
        }
    }
}

/// The views of a sequence of classified fields.
pub open spec fn field_views(fields: Seq<FieldSpec>) -> Seq<FieldSpecView> {
    fields.map_values(|f: FieldSpec| f@)
}

/// Why a field cannot be classified.
#[derive(Clone, Copy, Debug, PartialEq, Eq, Structural)]
pub enum Mismatch {
    /// The field carries a role tag that the dialect does not know.
    UnrecognizedTag,
    /// The field is tagged as a path parameter but wrapped as optional.
    OptionalPathParam,
    /// The field is tagged as an essential payload parameter but wrapped as
    /// optional.
    OptionalEssentialParam,
    /// The field is required but carries no role tag, in the dialect that
    /// asks for one.
    UntaggedRequired,
}

/// A field that cannot be classified.
#[derive(Clone, Copy, Debug, PartialEq, Eq, Structural)]
pub struct ClassificationError {
    /// The position of the field in the declaration.
    pub field: usize,
    /// What is wrong with it.
    pub mismatch: Mismatch,
}

/// The role of a declared field, or why it has none.
///
/// In the extended dialect a tag names the role of a required field, and a
/// field without a tag is an optional payload parameter, so it must be
/// wrapped as optional. In the legacy dialect there are no tags: a required
/// field is an essential payload parameter, an optional one an optional
/// payload parameter.
pub open spec fn role_of(field: RawFieldView, dialect: Dialect) -> Result<FieldRole, Mismatch> {
    match field.tag {
        Some(tag) => {
            if dialect == Dialect::Legacy {
                Err(Mismatch::UnrecognizedTag)
            } else if tag == "path_param"@ {
                if field.optional {
                    Err(Mismatch::OptionalPathParam)
                } else {
                    Ok(FieldRole::PathParam)
                }
            } else if tag == "payload_ess_param"@ {
                if field.optional {
                    Err(Mismatch::OptionalEssentialParam)
                } else {
                    Ok(FieldRole::EssentialPayloadParam)
                }
            } else {
                Err(Mismatch::UnrecognizedTag)
            }
        },
        None => {
            if field.optional {
                Ok(FieldRole::OptionalPayloadParam)
            } else if dialect == Dialect::Legacy {
                Ok(FieldRole::EssentialPayloadParam)
            } else {
                Err(Mismatch::UntaggedRequired)
            }
        },
    }
}

/// Whether every one of `fields` has a role.
pub open spec fn all_classified(fields: Seq<RawFieldView>, dialect: Dialect) -> bool {
    forall|i: int| 0 <= i < fields.len() ==> (#[trigger] role_of(fields[i], dialect)) is Ok
}

/// Whether `error` describes the first of `fields` that has no role.
pub open spec fn first_mismatch(
    fields: Seq<RawFieldView>,
    dialect: Dialect,
    error: ClassificationError,
) -> bool {
    &&& error.field < fields.len()
    &&& role_of(fields[error.field as int], dialect) == Err::<FieldRole, Mismatch>(error.mismatch)
    &&& forall|i: int| 0 <= i < error.field ==> (#[trigger] role_of(fields[i], dialect)) is Ok
}

/// The classified form of `fields`: each keeps its name and type, gets its
/// role, and records its position in the declaration.
pub open spec fn classified(fields: Seq<RawFieldView>, dialect: Dialect) -> Seq<FieldSpecView> {
    Seq::new(
        fields.len(),
        |i: int|
            FieldSpecView {
                name: fields[i].name,
                value_type: fields[i].value_type,
                role: role_of(fields[i], dialect)->Ok_0,
                declaration_order: i,
            },
    )
}

/// For each of `fields`, whether it has the role `role`.
pub open spec fn role_mask(fields: Seq<FieldSpecView>, role: FieldRole) -> Seq<bool> {
    Seq::new(fields.len(), |i: int| fields[i].role == role)
}

/// The fields at the given positions.
pub open spec fn picked(fields: Seq<FieldSpecView>, at: Seq<int>) -> Seq<FieldSpecView> {
    at.map_values(|i: int| fields[i])
}

/// The bucket of a role: the fields with that role, in declaration order.
pub open spec fn bucket(fields: Seq<FieldSpecView>, role: FieldRole) -> Seq<FieldSpecView> {
    picked(fields, positions(role_mask(fields, role)))
}

/// The role of one declared field, or why it has none.
pub fn classify_field(field: &RawField, dialect: Dialect) -> (role: Result<FieldRole, Mismatch>)
    ensures
        role == role_of(field@, dialect),
{
    match &field.tag {
        Some(tag) => {
            if dialect == Dialect::Legacy {
                Err(Mismatch::UnrecognizedTag)
            } else if same_text(tag.as_str(), "path_param") {
                if field.optional {
                    Err(Mismatch::OptionalPathParam)
                } else {
                    Ok(FieldRole::PathParam)
                }
            } else if same_text(tag.as_str(), "payload_ess_param") {
                if field.optional {
                    Err(Mismatch::OptionalEssentialParam)
                } else {
                    Ok(FieldRole::EssentialPayloadParam)
                }
            } else {
                Err(Mismatch::UnrecognizedTag)
            }
        },
        None => {
            if field.optional {
                Ok(FieldRole::OptionalPayloadParam)
            } else if dialect == Dialect::Legacy {
                Ok(FieldRole::EssentialPayloadParam)
            } else {
                Err(Mismatch::UntaggedRequired)
            }
        },
    }
}

/// Gives every declared field its role. Fails on the first field that has
/// none.
pub fn assign_roles(fields: &Vec<RawField>, dialect: Dialect) -> (out: Result<
    Vec<FieldSpec>,
    ClassificationError,
>)
    ensures
        out is Ok <==> all_classified(raw_views(fields@), dialect),
        out matches Ok(specs) ==> field_views(specs@) == classified(raw_views(fields@), dialect),
        out matches Err(error) ==> first_mismatch(raw_views(fields@), dialect, error),
{
    let ghost raw = raw_views(fields@);
    let mut specs: Vec<FieldSpec> = Vec::new();
    let mut i: usize = 0;
    while i < fields.len()
        invariant
            raw == raw_views(fields@),
            i <= fields.len(),
            specs@.len() == i,
            forall|j: int| 0 <= j < i ==> (#[trigger] role_of(raw[j], dialect)) is Ok,
            forall|j: int| 0 <= j < i ==> (#[trigger] specs@[j])@ == classified(raw, dialect)[j],
        decreases fields.len() - i,
    {
        let field = &fields[i];
        assert(raw[i as int] == field@);
        match classify_field(field, dialect) {
            Ok(role) => {
                specs.push(
                    FieldSpec {
                        name: field.name.clone(),
                        value_type: field.value_type,
                        role,
                        declaration_order: i,
                    },
                );
            },
            Err(mismatch) => {
                return Err(ClassificationError { field: i, mismatch });
            },
        }
        i = i + 1;
    }
    assert(field_views(specs@) =~= classified(raw, dialect));
    Ok(specs)
}

/// The three buckets of a classified field list.
#[derive(Debug)]
pub struct Buckets {
    /// The path parameters, in declaration order.
    pub path: Vec<FieldSpec>,
    /// The essential payload parameters, in declaration order.
    pub essential: Vec<FieldSpec>,
    /// The optional payload parameters, in declaration order.
    pub optional: Vec<FieldSpec>,
}

/// The fields of `fields` that have the role `role`, in declaration order.
pub fn select_role(fields: &Vec<FieldSpec>, role: FieldRole) -> (out: Vec<FieldSpec>)
    ensures
        field_views(out@) == bucket(field_views(fields@), role),
{
    let ghost all = field_views(fields@);
    let ghost mask = role_mask(all, role);
    let mut out: Vec<FieldSpec> = Vec::new();
    let mut i: usize = 0;
    assert(mask.take(0) =~= Seq::<bool>::empty());
    while i < fields.len()
        invariant
            all == field_views(fields@),
            mask == role_mask(all, role),
            i <= fields.len(),
            field_views(out@) == picked(all, positions(mask.take(i as int))),
        decreases fields.len() - i,
    {
        proof {
            lemma_positions_take(mask, i as int);
        }
        let ghost before = field_views(out@);
        if fields[i].role == role {
            out.push(fields[i].clone());
            assert(field_views(out@) =~= before.push(all[i as int]));
            assert(picked(all, positions(mask.take(i as int)).push(i as int)) =~= picked(
                all,
                positions(mask.take(i as int)),
            ).push(all[i as int]));
        }
        i = i + 1;
    }
    assert(mask.take(fields.len() as int) =~= mask);
    out
}

/// Splits a classified field list into its three buckets.
pub fn partition(fields: &Vec<FieldSpec>) -> (buckets: Buckets)
    ensures
        field_views(buckets.path@) == bucket(field_views(fields@), FieldRole::PathParam),
        field_views(buckets.essential@) == bucket(
            field_views(fields@),
            FieldRole::EssentialPayloadParam,
        ),
        field_views(buckets.optional@) == bucket(
            field_views(fields@),
            FieldRole::OptionalPayloadParam,
        ),
{
    Buckets {
        path: select_role(fields, FieldRole::PathParam),
        essential: select_role(fields, FieldRole::EssentialPayloadParam),
        optional: select_role(fields, FieldRole::OptionalPayloadParam),
    }
}

/// Classifies the declared fields into the three buckets, each in
/// declaration order. Fails on the first field that has no role.
pub fn classify(fields: &Vec<RawField>, dialect: Dialect) -> (out: Result<
    Buckets,
    ClassificationError,
>)
    ensures
        out is Ok <==> all_classified(raw_views(fields@), dialect),
        out matches Ok(buckets) ==> {
            let specs = classified(raw_views(fields@), dialect);
            &&& field_views(buckets.path@) == bucket(specs, FieldRole::PathParam)
            &&& field_views(buckets.essential@) == bucket(specs, FieldRole::EssentialPayloadParam)
            &&& field_views(buckets.optional@) == bucket(specs, FieldRole::OptionalPayloadParam)
        },
        out matches Err(error) ==> first_mismatch(raw_views(fields@), dialect, error),
{
    match assign_roles(fields, dialect) {
        Ok(specs) => Ok(partition(&specs)),
        Err(error) => Err(error),
    }
}

/// Whether every field records its own position in the declaration.
pub open spec fn in_declaration_order(fields: Seq<FieldSpecView>) -> bool {
    forall|i: int| 0 <= i < fields.len() ==> (#[trigger] fields[i]).declaration_order == i
}

/// Classified fields record their positions in the declaration.
pub proof fn lemma_classified_in_order(fields: Seq<RawFieldView>, dialect: Dialect)
    ensures
        in_declaration_order(classified(fields, dialect)),
        classified(fields, dialect).len() == fields.len(),
{
}

/// The legacy dialect has no path parameters: its required fields are
/// essential payload parameters.
pub proof fn lemma_legacy_has_no_path(fields: Seq<RawFieldView>)
    requires
        all_classified(fields, Dialect::Legacy),
    ensures
        bucket(classified(fields, Dialect::Legacy), FieldRole::PathParam) == Seq::<
            FieldSpecView,
        >::empty(),
{
    let specs = classified(fields, Dialect::Legacy);
    let mask = role_mask(specs, FieldRole::PathParam);
    assert forall|i: int| 0 <= i < mask.len() implies !mask[i] by {
        assert(role_of(fields[i], Dialect::Legacy) is Ok);
    }
    lemma_positions_none(mask);
    assert(bucket(specs, FieldRole::PathParam) =~= Seq::<FieldSpecView>::empty());
}

/// Every member of a bucket is one of the fields, and has the bucket's role.
pub proof fn lemma_bucket_member(fields: Seq<FieldSpecView>, role: FieldRole, j: int)
    requires
        0 <= j < bucket(fields, role).len(),
    ensures
        0 <= positions(role_mask(fields, role))[j] < fields.len(),
        bucket(fields, role)[j] == fields[positions(role_mask(fields, role))[j]],
        bucket(fields, role)[j].role == role,
{
    lemma_positions_sound(role_mask(fields, role), j);
}

/// Every field is in the bucket of its role.
pub proof fn lemma_bucket_complete(fields: Seq<FieldSpecView>, i: int)
    requires
        0 <= i < fields.len(),
    ensures
        bucket(fields, fields[i].role).contains(fields[i]),
{
    let mask = role_mask(fields, fields[i].role);
    lemma_positions_complete(mask, i);
    let j = choose|j: int| 0 <= j < positions(mask).len() && positions(mask)[j] == i;
    assert(bucket(fields, fields[i].role)[j] == fields[i]);
}

/// A bucket keeps declaration order: an earlier member was declared
/// earlier. So no field is in a bucket twice.
pub proof fn lemma_bucket_ordered(fields: Seq<FieldSpecView>, role: FieldRole, j: int, k: int)
    requires
        in_declaration_order(fields),
        0 <= j < k < bucket(fields, role).len(),
    ensures
        bucket(fields, role)[j].declaration_order < bucket(fields, role)[k].declaration_order,
{
    let mask = role_mask(fields, role);
    lemma_positions_sound(mask, j);
    lemma_positions_sound(mask, k);
    lemma_positions_increasing(mask, j, k);
}

/// The buckets of two roles are disjoint.
pub proof fn lemma_buckets_disjoint(
    fields: Seq<FieldSpecView>,
    first: FieldRole,
    second: FieldRole,
    j: int,
    k: int,
)
    requires
        first != second,
        0 <= j < bucket(fields, first).len(),
        0 <= k < bucket(fields, second).len(),
    ensures
        bucket(fields, first)[j] != bucket(fields, second)[k],
{
    lemma_bucket_member(fields, first, j);
    lemma_bucket_member(fields, second, k);
}

/// The three buckets together hold as many fields as there are.
pub proof fn lemma_buckets_cover(fields: Seq<FieldSpecView>)
    ensures
        bucket(fields, FieldRole::PathParam).len() + bucket(
            fields,
            FieldRole::EssentialPayloadParam,
        ).len() + bucket(fields, FieldRole::OptionalPayloadParam).len() == fields.len(),
    decreases fields.len(),
{
    if fields.len() > 0 {
        let shorter = fields.drop_last();
        lemma_buckets_cover(shorter);
        assert(role_mask(fields, FieldRole::PathParam).drop_last() =~= role_mask(
            shorter,
            FieldRole::PathParam,
        ));
        assert(role_mask(fields, FieldRole::EssentialPayloadParam).drop_last() =~= role_mask(
            shorter,
            FieldRole::EssentialPayloadParam,
        ));
        assert(role_mask(fields, FieldRole::OptionalPayloadParam).drop_last() =~= role_mask(
            shorter,
            FieldRole::OptionalPayloadParam,
        ));
    }
}

} // verus!
