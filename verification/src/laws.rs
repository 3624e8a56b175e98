//! What holds of every request, stated over the models of `request` and
//! `template`.

use vstd::prelude::*;
use crate::fields::{role_mask, FieldRole};
use crate::request::{field_names, first_named, lemma_first_named, RequestView};
use crate::endpoint::RequestTypeView;
use crate::select::{
    lemma_positions_complete, lemma_positions_increasing, lemma_positions_len,
    lemma_positions_rank, lemma_positions_sound, positions,
};
use crate::value::ValueView;

verus! {

/// The constructor stores each argument in the field of its parameter: the
/// `k`-th argument is held by the `k`-th of the path parameters and
/// essential payload parameters.
pub proof fn lemma_constructor_stores(kind: RequestTypeView, args: Seq<ValueView>, k: int)
    requires
        kind.wf(),
        kind.accepts(args),
        0 <= k < args.len(),
    ensures
        0 <= kind.constructor_positions()[k] < kind.schema.fields.len(),
        kind.constructed(args).slots[kind.constructor_positions()[k]] == Some(args[k]),
{
    let fields = kind.schema.fields;
    let path_mask = role_mask(fields, FieldRole::PathParam);
    let essential_mask = role_mask(fields, FieldRole::EssentialPayloadParam);
    let paths = positions(path_mask).len() as int;
    if k < paths {
        lemma_positions_sound(path_mask, k);
        let i = positions(path_mask)[k];
        lemma_positions_rank(path_mask, i);
        let r = positions(path_mask.take(i)).len() as int;
        if r < k {
            lemma_positions_increasing(path_mask, r, k);
        } else if k < r {
            lemma_positions_increasing(path_mask, k, r);
        }
    } else {
        lemma_positions_sound(essential_mask, k - paths);
        let i = positions(essential_mask)[k - paths];
        lemma_positions_rank(essential_mask, i);
        let r = positions(essential_mask.take(i)).len() as int;
        if r < k - paths {
            lemma_positions_increasing(essential_mask, r, k - paths);
        } else if k - paths < r {
            lemma_positions_increasing(essential_mask, k - paths, r);
        }
    }
}

/// The constructor leaves every optional payload parameter absent.
pub proof fn lemma_constructor_defaults(kind: RequestTypeView, args: Seq<ValueView>, i: int)
    requires
        0 <= i < kind.schema.fields.len(),
        kind.schema.fields[i].role == FieldRole::OptionalPayloadParam,
    ensures
        kind.constructed(args).slots[i] is None,
{
}

/// What the constructor makes of fitting arguments is a valid request.
pub proof fn lemma_constructed_wf(kind: RequestTypeView, args: Seq<ValueView>)
    requires
        kind.wf(),
        kind.accepts(args),
    ensures
        kind.constructed(args).wf(),
{
    let fields = kind.schema.fields;
    let path_mask = role_mask(fields, FieldRole::PathParam);
    let essential_mask = role_mask(fields, FieldRole::EssentialPayloadParam);
    let paths = positions(path_mask).len() as int;
    let made = kind.constructed(args);
    assert forall|i: int| 0 <= i < fields.len() implies ((#[trigger] made.slots[i]) matches Some(
        value,
    ) ==> value.type_of() == fields[i].value_type) by {
        if fields[i].role == FieldRole::PathParam {
            lemma_positions_rank(path_mask, i);
            let r = kind.rank(FieldRole::PathParam, i);
            assert(kind.constructor_positions()[r] == i);
            assert(kind.parameters()[r] == fields[i]);
        } else if fields[i].role == FieldRole::EssentialPayloadParam {
            lemma_positions_rank(essential_mask, i);
            let r = kind.rank(FieldRole::EssentialPayloadParam, i);
            assert(kind.constructor_positions()[paths + r] == i);
            assert(kind.parameters()[paths + r] == fields[i]);
        }
    }
}

/// A setter changes only its own field: every other field holds what it
/// held before, and the request is of the same type.
pub proof fn lemma_set_isolated(request: RequestView, name: Seq<char>, value: ValueView, j: int)
    requires
        request.wf(),
        0 <= j < request.slots.len(),
        first_named(field_names(request.kind.schema.fields), name) != Some(j),
    ensures
        request.with(name, value).kind == request.kind,
        request.with(name, value).slots.len() == request.slots.len(),
        request.with(name, value).slots[j] == request.slots[j],
{
    lemma_first_named(field_names(request.kind.schema.fields), name);
}

/// A setter stores its value: where a field is called `name` and `value`
/// has its type, the field then holds `value`.
pub proof fn lemma_set_stores(request: RequestView, name: Seq<char>, value: ValueView)
    requires
        request.wf(),
        first_named(field_names(request.kind.schema.fields), name) is Some,
        value.type_of() == request.kind.schema.fields[first_named(
            field_names(request.kind.schema.fields),
            name,
        )->0].value_type,
    ensures
        request.with(name, value).slots[first_named(
            field_names(request.kind.schema.fields),
            name,
        )->0] == Some(value),
{
    lemma_first_named(field_names(request.kind.schema.fields), name);
}

/// Setting a field twice to the same value is setting it once.
pub proof fn lemma_set_idempotent(request: RequestView, name: Seq<char>, value: ValueView)
    requires
        request.wf(),
    ensures
        request.with(name, value).with(name, value) == request.with(name, value),
{
    lemma_first_named(field_names(request.kind.schema.fields), name);
    let once = request.with(name, value);
    let twice = once.with(name, value);
    assert(twice.slots =~= once.slots);
}

/// A setter keeps a valid request valid.
pub proof fn lemma_set_wf(request: RequestView, name: Seq<char>, value: ValueView)
    requires
        request.wf(),
    ensures
        request.with(name, value).wf(),
{
    lemma_first_named(field_names(request.kind.schema.fields), name);
}

/// The number of essential payload parameters of a request.
pub open spec fn essential_count(request: RequestView) -> int {
    positions(role_mask(request.kind.schema.fields, FieldRole::EssentialPayloadParam)).len() as int
}

/// Every payload parameter comes from a field that holds a value: the first
/// ones from the essential payload parameters, the others from optional
/// payload parameters that are present. An absent field never appears.
pub proof fn lemma_payload_sound(request: RequestView, j: int)
    requires
        request.wf(),
        0 <= j < request.payload().len(),
    ensures
        ({
            let i = request.payload_positions()[j];
            let fields = request.kind.schema.fields;
            &&& 0 <= i < fields.len()
            &&& request.payload()[j] == request.entry(i)
            &&& request.slots[i] is Some
            &&& j < essential_count(request) ==> fields[i].role == FieldRole::EssentialPayloadParam
            &&& j >= essential_count(request) ==> fields[i].role == FieldRole::OptionalPayloadParam
        }),
{
    let fields = request.kind.schema.fields;
    let essential_mask = role_mask(fields, FieldRole::EssentialPayloadParam);
    let e = essential_count(request);
    if j < e {
        lemma_positions_sound(essential_mask, j);
    } else {
        lemma_positions_sound(request.present_mask(), j - e);
    }
}

/// Every essential payload parameter appears in the payload.
pub proof fn lemma_payload_has_essential(request: RequestView, i: int)
    requires
        request.wf(),
        0 <= i < request.kind.schema.fields.len(),
        request.kind.schema.fields[i].role == FieldRole::EssentialPayloadParam,
    ensures
        exists|j: int|
            0 <= j < essential_count(request) && #[trigger] request.payload_positions()[j] == i
                && request.payload()[j] == request.entry(i),
{
    let essential_mask = role_mask(request.kind.schema.fields, FieldRole::EssentialPayloadParam);
    lemma_positions_complete(essential_mask, i);
    let j = choose|j: int|
        0 <= j < positions(essential_mask).len() && positions(essential_mask)[j] == i;
    assert(request.payload_positions()[j] == i);
}

/// Every optional payload parameter that is present appears in the payload,
/// after the essential ones.
pub proof fn lemma_payload_has_present(request: RequestView, i: int)
    requires
        request.wf(),
        0 <= i < request.kind.schema.fields.len(),
        request.kind.schema.fields[i].role == FieldRole::OptionalPayloadParam,
        request.slots[i] is Some,
    ensures
        exists|j: int|
            essential_count(request) <= j < request.payload().len()
                && #[trigger] request.payload_positions()[j] == i && request.payload()[j]
                == request.entry(i),
{
    let mask = request.present_mask();
    lemma_positions_complete(mask, i);
    let k = choose|k: int| 0 <= k < positions(mask).len() && positions(mask)[k] == i;
    let j = essential_count(request) + k;
    assert(request.payload_positions()[j] == i);
}

/// The payload keeps declaration order: among the essential payload
/// parameters, and among the optional ones, an earlier payload parameter
/// comes from an earlier field. So no field appears twice.
pub proof fn lemma_payload_ordered(request: RequestView, j: int, k: int)
    requires
        request.wf(),
        0 <= j < k < request.payload().len(),
        j < essential_count(request) <==> k < essential_count(request),
    ensures
        request.payload_positions()[j] < request.payload_positions()[k],
{
    let essential_mask = role_mask(request.kind.schema.fields, FieldRole::EssentialPayloadParam);
    let e = essential_count(request);
    if k < e {
        lemma_positions_increasing(essential_mask, j, k);
    } else {
        lemma_positions_increasing(request.present_mask(), j - e, k - e);
    }
}

/// The payload has one parameter for each essential payload parameter and
/// one for each optional payload parameter that is present, and no more
/// than there are fields.
pub proof fn lemma_payload_len(request: RequestView)
    requires
        request.wf(),
    ensures
        request.payload().len() == essential_count(request) + positions(
            request.present_mask(),
        ).len(),
        essential_count(request) <= request.kind.schema.fields.len(),
        positions(request.present_mask()).len() <= request.kind.schema.fields.len(),
{
    lemma_positions_len(role_mask(request.kind.schema.fields, FieldRole::EssentialPayloadParam));
    lemma_positions_len(request.present_mask());
}

} // verus!
