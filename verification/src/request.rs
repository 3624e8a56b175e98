//! Requests: the values of a generated request type.

use vstd::prelude::*;
use vstd::string::*;
use crate::endpoint::{count_role, RequestType, RequestTypeView};
use crate::fields::{
    field_views, picked, role_mask, select_role, Dialect, FieldRole, FieldSpec, FieldSpecView,
};
use crate::naming::wire_name_of;
use crate::select::{lemma_positions_rank, lemma_positions_take, positions};
use crate::template::{fill, filled};
use crate::text::{same_text, texts};
use crate::value::{slot_view, slot_views, value_views, Value, ValueView};

verus! {

/// The prefix of every request's URL.
pub const BASE_URI: &'static str = "https://api.github.com";

/// The prefix of every request's URL.
pub open spec fn base_uri() -> Seq<char> {
    BASE_URI@
}

/// The names of `fields`, in declaration order.
pub open spec fn field_names(fields: Seq<FieldSpecView>) -> Seq<Seq<char>> {
    Seq::new(fields.len(), |i: int| fields[i].name)
}

/// The position of the first of `names` that equals `name`, if any does.
pub open spec fn first_named(names: Seq<Seq<char>>, name: Seq<char>) -> Option<int>
    decreases names.len(),
{
    if names.len() == 0 {
        None
    } else {
        match first_named(names.drop_last(), name) {
            Some(i) => Some(i),
            None => if names.last() == name {
                Some(names.len() - 1)
            } else {
                None
            },
        }
    }
}

/// A position found among the first names is the position found among all.
pub proof fn lemma_first_named_prefix(names: Seq<Seq<char>>, name: Seq<char>, j: int)
    requires
        0 <= j <= names.len(),
        first_named(names.take(j), name) is Some,
    ensures
        first_named(names, name) == first_named(names.take(j), name),
    decreases names.len(),
{
    if j == names.len() {
        assert(names.take(j) =~= names);
    } else {
        assert(names.drop_last().take(j) =~= names.take(j));
        lemma_first_named_prefix(names.drop_last(), name, j);
    }
}

/// What `first_named` finds: a position that holds `name`, before which no
/// position does.
pub proof fn lemma_first_named(names: Seq<Seq<char>>, name: Seq<char>)
    ensures
        match first_named(names, name) {
            Some(i) => 0 <= i < names.len() && names[i] == name && forall|j: int|
                0 <= j < i ==> #[trigger] names[j] != name,
            None => forall|j: int| 0 <= j < names.len() ==> #[trigger] names[j] != name,
        },
    decreases names.len(),
{
    if names.len() > 0 {
        let shorter = names.drop_last();
        lemma_first_named(shorter, name);
        assert(forall|j: int| 0 <= j < shorter.len() ==> shorter[j] == #[trigger] names[j]);
    }
}

impl RequestTypeView {
    /// The positions of the fields that the constructor takes: the path
    /// parameters, then the essential payload parameters, each in
    /// declaration order.
    pub open spec fn constructor_positions(self) -> Seq<int> {
        positions(role_mask(self.schema.fields, FieldRole::PathParam)) + positions(
            role_mask(self.schema.fields, FieldRole::EssentialPayloadParam),
        )
    }

    /// The fields that the constructor takes, in the order of its arguments.
    pub open spec fn parameters(self) -> Seq<FieldSpecView> {
        picked(self.schema.fields, self.constructor_positions())
    }

    /// Whether `args` are arguments for the constructor: one value of the
    /// right type for each parameter.
    pub open spec fn accepts(self, args: Seq<ValueView>) -> bool {
        &&& args.len() == self.parameters().len()
        &&& forall|k: int|
            0 <= k < args.len() ==> (#[trigger] args[k]).type_of()
                == self.parameters()[k].value_type
    }

    /// How many fields before position `i` have the role `role`.
    pub open spec fn rank(self, role: FieldRole, i: int) -> int {
        positions(role_mask(self.schema.fields, role).take(i)).len() as int
    }

    /// The values that the constructor stores for `args`: each path
    /// parameter and each essential payload parameter gets its argument,
    /// every optional payload parameter is absent.
    pub open spec fn initial_slots(self, args: Seq<ValueView>) -> Seq<Option<ValueView>> {
        let fields = self.schema.fields;
        let paths = positions(role_mask(fields, FieldRole::PathParam)).len() as int;
        Seq::new(
            fields.len(),
            |i: int|
                match fields[i].role {
                    FieldRole::PathParam => Some(args[self.rank(FieldRole::PathParam, i)]),
                    FieldRole::EssentialPayloadParam => Some(
                        args[paths + self.rank(FieldRole::EssentialPayloadParam, i)],
                    ),
                    FieldRole::OptionalPayloadParam => None,
                },
        )
    }

    /// The request that the constructor makes of `args`.
    pub open spec fn constructed(self, args: Seq<ValueView>) -> RequestView {
        RequestView { kind: self, slots: self.initial_slots(args) }
    }
}

/// The mathematical content of a `GeneratedRequest`: its type, and for each
/// field, in declaration order, the value it holds, if any.
pub struct RequestView {
    pub kind: RequestTypeView,
    pub slots: Seq<Option<ValueView>>,
}

impl RequestView {
    /// Whether the request is valid: there is one slot for each field, every
    /// path parameter and essential payload parameter holds a value, and
    /// every value has the type of its field.
    pub open spec fn wf(self) -> bool {
        let fields = self.kind.schema.fields;
        &&& self.kind.wf()
        &&& self.slots.len() == fields.len()
        &&& forall|i: int|
            0 <= i < fields.len() && (#[trigger] fields[i]).role
                != FieldRole::OptionalPayloadParam ==> self.slots[i] is Some
        &&& forall|i: int|
            0 <= i < fields.len() ==> ((#[trigger] self.slots[i]) matches Some(value)
                ==> value.type_of() == fields[i].value_type)
    }

    /// The request after the setter of the field `name` was given `value`:
    /// the field holds the value, every other field is as before. Where no
    /// field is called `name`, or `value` has not the field's type, nothing
    /// changes.
    pub open spec fn with(self, name: Seq<char>, value: ValueView) -> RequestView {
        let fields = self.kind.schema.fields;
        match first_named(field_names(fields), name) {
            Some(i) => if value.type_of() == fields[i].value_type {
                RequestView { kind: self.kind, slots: self.slots.update(i, Some(value)) }
            } else {
                self
            },
            None => self,
        }
    }

    /// The value that the field called `name` holds, if there is such a
    /// field and it holds one.
    pub open spec fn held(self, name: Seq<char>) -> Option<ValueView> {
        match first_named(field_names(self.kind.schema.fields), name) {
            Some(i) => self.slots[i],
            None => None,
        }
    }

    /// The string forms of the values at the given positions.
    pub open spec fn slot_texts(self, at: Seq<int>) -> Seq<Seq<char>> {
        at.map_values(|i: int| self.slots[i]->0.text())
    }

    /// The arguments of the URI template: the string forms of the fields
    /// that fill it, in declaration order.
    pub open spec fn uri_args(self) -> Seq<Seq<char>> {
        self.slot_texts(self.kind.schema.uri_positions())
    }

    /// The request's URL: the base URI, then the URI template with each
    /// placeholder replaced by the corresponding argument.
    pub open spec fn uri(self) -> Seq<char> {
        base_uri() + filled(self.kind.schema.uri_template, self.uri_args())
    }

    /// For each field, whether it is an optional payload parameter that is
    /// present.
    pub open spec fn present_mask(self) -> Seq<bool> {
        Seq::new(
            self.kind.schema.fields.len(),
            |i: int|
                self.kind.schema.fields[i].role == FieldRole::OptionalPayloadParam
                    && self.slots[i] is Some,
        )
    }

    /// The positions of the fields that make up the payload: the essential
    /// payload parameters, then the optional ones that are present, each in
    /// declaration order.
    pub open spec fn payload_positions(self) -> Seq<int> {
        positions(role_mask(self.kind.schema.fields, FieldRole::EssentialPayloadParam))
            + positions(self.present_mask())
    }

    /// The payload parameter of the field at position `i`: its wire name and
    /// the string form of its value.
    pub open spec fn entry(self, i: int) -> (Seq<char>, Seq<char>) {
        (wire_name_of(self.kind.schema.fields[i].name), self.slots[i]->0.text())
    }

    /// The payload parameters at the given positions.
    pub open spec fn entries(self, at: Seq<int>) -> Seq<(Seq<char>, Seq<char>)> {
        at.map_values(|i: int| self.entry(i))
    }

    /// The request's payload parameters.
    pub open spec fn payload(self) -> Seq<(Seq<char>, Seq<char>)> {
        self.entries(self.payload_positions())
    }
}

/// The view of a borrowed value that may be absent.
pub open spec fn opt_value_view(value: Option<&Value>) -> Option<ValueView> {
    match value {
        Some(v) => Some(v@),
        None => None,
    }
}

/// The views of a list of payload parameters.
pub open spec fn pair_views(pairs: Seq<(String, String)>) -> Seq<(Seq<char>, Seq<char>)> {
    pairs.map_values(|pair: (String, String)| (pair.0@, pair.1@))
}

impl RequestType {
    /// The fields that the constructor takes, in the order of its arguments:
    /// the path parameters, then the essential payload parameters.
    pub fn parameters(&self) -> (params: Vec<FieldSpec>)
        ensures
            field_views(params@) == self@.parameters(),
    {
        let mut params = select_role(&self.schema.fields, FieldRole::PathParam);
        let essential = select_role(&self.schema.fields, FieldRole::EssentialPayloadParam);
        let ghost paths = field_views(params@);
        let mut k: usize = 0;
        while k < essential.len()
            invariant
                k <= essential.len(),
                field_views(params@) == paths + field_views(essential@).take(k as int),
            decreases essential.len() - k,
        {
            let ghost before = field_views(params@);
            params.push(essential[k].clone());
            assert(field_views(params@) =~= before.push(essential@[k as int]@));
            assert(field_views(essential@).take(k + 1) =~= field_views(essential@).take(
                k as int,
            ).push(essential@[k as int]@));
            k = k + 1;
        }
        assert(field_views(essential@).take(essential.len() as int) =~= field_views(essential@));
        assert(self@.parameters() =~= paths + field_views(essential@));
        params
    }

    /// Whether `args` are arguments for the constructor.
    pub fn accepts(&self, args: &Vec<Value>) -> (fit: bool)
        ensures
            fit == self@.accepts(value_views(args@)),
    {
        let params = self.parameters();
        if args.len() != params.len() {
            return false;
        }
        let mut k: usize = 0;
        while k < args.len()
            invariant
                k <= args.len(),
                args.len() == params.len(),
                field_views(params@) == self@.parameters(),
                forall|j: int|
                    0 <= j < k ==> (#[trigger] value_views(args@)[j]).type_of()
                        == self@.parameters()[j].value_type,
            decreases args.len() - k,
        {
            assert(value_views(args@)[k as int] == args@[k as int]@);
            assert(field_views(params@)[k as int] == params@[k as int]@);
            if args[k].value_type() != params[k].value_type {
                return false;
            }
            k = k + 1;
        }
        true
    }

    /// The position of the field called `name`, if there is one.
    pub fn field_index(&self, name: &str) -> (index: Option<usize>)
        ensures
            match index {
                Some(i) => first_named(field_names(self@.schema.fields), name@) == Some(i as int),
                None => first_named(field_names(self@.schema.fields), name@) is None,
            },
    {
        let ghost names = field_names(self@.schema.fields);
        let mut i: usize = 0;
        assert(names.take(0) =~= Seq::<Seq<char>>::empty());
        while i < self.schema.fields.len()
            invariant
                names == field_names(self@.schema.fields),
                i <= self.schema.fields.len(),
                first_named(names.take(i as int), name@) is None,
            decreases self.schema.fields.len() - i,
        {
            proof {
                assert(names.take(i + 1).drop_last() =~= names.take(i as int));
                assert(names.take(i + 1).last() == self.schema.fields@[i as int].name@);
            }
            if same_text(self.schema.fields[i].name.as_str(), name) {
                proof {
                    lemma_first_named_prefix(names, name@, i + 1);
                }
                return Some(i);
            }
            i = i + 1;
        }
        assert(names.take(self.schema.fields.len() as int) =~= names);
        None
    }

    /// The convenience function of this request type: it takes what the
    /// constructor takes and hands it to the constructor.
    pub fn request(&self, args: Vec<Value>) -> (out: Option<GeneratedRequest<'_>>)
        ensures
            out is Some <==> self@.accepts(value_views(args@)),
            out matches Some(request) ==> request@ == self@.constructed(value_views(args@)),
    {
        GeneratedRequest::new(self, args)
    }
}

/// A request: a value of a generated request type. Path parameters and
/// essential payload parameters hold a value, optional payload parameters
/// hold one or are absent.
#[derive(Debug)]
pub struct GeneratedRequest<'a> {
    pub(crate) kind: &'a RequestType,
    pub(crate) slots: Vec<Option<Value>>,
}

impl<'a> View for GeneratedRequest<'a> {
    type V = RequestView;

    open(crate) spec fn view(&self) -> RequestView {
        RequestView { kind: self.kind@, slots: slot_views(self.slots@) }
    }
}

impl<'a> GeneratedRequest<'a> {
    #[verifier::type_invariant]
    pub open(crate) spec fn valid(self) -> bool {
        self@.wf()
    }

    /// The constructor: takes one value for each path parameter, then one
    /// for each essential payload parameter, each in declaration order.
    /// Every optional payload parameter starts absent. There is a request
    /// exactly when the arguments fit the parameters.
    pub fn new(kind: &'a RequestType, args: Vec<Value>) -> (out: Option<GeneratedRequest<'a>>)
        ensures
            out is Some <==> kind@.accepts(value_views(args@)),
            out matches Some(request) ==> request@ == kind@.constructed(value_views(args@)),
    {
        if !kind.accepts(&args) {
            return None;
        }
        proof {
            use_type_invariant(kind);
        }
        let fields = &kind.schema.fields;
        let ghost all = field_views(fields@);
        let ghost given = value_views(args@);
        let ghost path_mask = role_mask(all, FieldRole::PathParam);
        let ghost essential_mask = role_mask(all, FieldRole::EssentialPayloadParam);
        let ghost target = kind@.initial_slots(given);
        let paths = count_role(fields, FieldRole::PathParam);
        let mut slots: Vec<Option<Value>> = Vec::new();
        let mut p: usize = 0;
        let mut e: usize = 0;
        let mut i: usize = 0;
        assert(path_mask.take(0) =~= Seq::<bool>::empty());
        assert(essential_mask.take(0) =~= Seq::<bool>::empty());
        assert(given.len() == args@.len());
        assert(kind@.parameters().len() == paths + positions(essential_mask).len());
        while i < fields.len()
            invariant
                fields == &kind.schema.fields,
                all == field_views(fields@),
                all == kind@.schema.fields,
                given == value_views(args@),
                path_mask == role_mask(all, FieldRole::PathParam),
                essential_mask == role_mask(all, FieldRole::EssentialPayloadParam),
                target == kind@.initial_slots(given),
                kind@.accepts(given),
                paths == positions(path_mask).len(),
                args@.len() == paths + positions(essential_mask).len(),
                i <= fields.len(),
                p <= i,
                e <= i,
                p == positions(path_mask.take(i as int)).len(),
                e == positions(essential_mask.take(i as int)).len(),
                slots@.len() == i,
                forall|j: int| 0 <= j < i ==> slot_view(#[trigger] slots@[j]) == target[j],
                forall|j: int|
                    0 <= j < i ==> ((#[trigger] slots@[j]) matches Some(value) ==> value@.type_of()
                        == all[j].value_type),
            decreases fields.len() - i,
        {
            proof {
                lemma_positions_take(path_mask, i as int);
                lemma_positions_take(essential_mask, i as int);
                assert(all[i as int] == fields@[i as int]@);
            }
            match fields[i].role {
                FieldRole::PathParam => {
                    proof {
                        lemma_positions_rank(path_mask, i as int);
                        assert(kind@.constructor_positions()[p as int] == i);
                        assert(kind@.parameters()[p as int] == all[i as int]);
                        assert(given[p as int] == args@[p as int]@);
                    }
                    slots.push(Some(args[p].clone()));
                    p = p + 1;
                },
                FieldRole::EssentialPayloadParam => {
                    proof {
                        lemma_positions_rank(essential_mask, i as int);
                        assert(paths + e < args.len());
                        assert(kind@.constructor_positions()[paths + e] == i);
                        assert(kind@.parameters()[paths + e] == all[i as int]);
                        assert(given[paths + e] == args@[paths + e]@);
                    }
                    slots.push(Some(args[paths + e].clone()));
                    e = e + 1;
                },
                FieldRole::OptionalPayloadParam => {
                    slots.push(None);
                },
            }
            i = i + 1;
        }
        assert(slot_views(slots@) =~= target);
        Some(GeneratedRequest { kind, slots })
    }

    /// The type of this request.
    pub fn request_type(&self) -> (kind: &'a RequestType)
        ensures
            kind@ == self@.kind,
    {
        self.kind
    }

    /// The value that the field at position `i` holds, if any.
    pub fn value_at(&self, i: usize) -> (value: Option<&Value>)
        ensures
            i < self@.slots.len() ==> opt_value_view(value) == self@.slots[i as int],
            i >= self@.slots.len() ==> value is None,
    {
        if i < self.slots.len() {
            assert(self@.slots[i as int] == slot_view(self.slots@[i as int]));
            self.slots[i].as_ref()
        } else {
            None
        }
    }

    /// The value that the field called `name` holds. There is none where no
    /// field is called so, or where the field is absent.
    pub fn get(&self, name: &str) -> (value: Option<&Value>)
        ensures
            opt_value_view(value) == self@.held(name@),
    {
        proof {
            use_type_invariant(self);
            lemma_first_named(field_names(self@.kind.schema.fields), name@);
        }
        match self.kind.field_index(name) {
            Some(i) => self.value_at(i),
            None => None,
        }
    }

    /// The setter of the field `name`: the field then holds `value`, and
    /// every other field is as before. Where no field is called `name`, or
    /// `value` has not the field's type, the request stays as it is.
    pub fn set(self, name: &str, value: Value) -> (out: GeneratedRequest<'a>)
        ensures
            out@ == self@.with(name@, value@),
    {
        proof {
            use_type_invariant(&self);
        }
        let GeneratedRequest { kind, slots } = self;
        match kind.field_index(name) {
            Some(i) => {
                proof {
                    lemma_first_named(field_names(kind@.schema.fields), name@);
                    assert(kind@.schema.fields[i as int] == kind.schema.fields@[i as int]@);
                }
                if value.value_type() == kind.schema.fields[i].value_type {
                    let ghost before = slot_views(slots@);
                    let ghost stored = value@;
                    let mut slots = slots;
                    slots.set(i, Some(value));
                    assert(slot_views(slots@) =~= before.update(i as int, Some(stored)));
                    GeneratedRequest { kind, slots }
                } else {
                    GeneratedRequest { kind, slots }
                }
            },
            None => GeneratedRequest { kind, slots },
        }
    }

    /// The request's target URL: the base URI, then the URI template with
    /// each placeholder replaced by the string form of the corresponding
    /// field, in declaration order.
    pub fn api(&self) -> (uri: String)
        ensures
            uri@ == self@.uri(),
    {
        proof {
            use_type_invariant(self);
            use_type_invariant(self.kind);
        }
        let fields = &self.kind.schema.fields;
        let role = match self.kind.schema.dialect {
            Dialect::Legacy => FieldRole::EssentialPayloadParam,
            Dialect::Extended => FieldRole::PathParam,
        };
        let ghost all = field_views(fields@);
        let ghost mask = role_mask(all, role);
        let mut args: Vec<String> = Vec::new();
        let mut i: usize = 0;
        assert(mask.take(0) =~= Seq::<bool>::empty());
        while i < fields.len()
            invariant
                fields == &self.kind.schema.fields,
                all == field_views(fields@),
                mask == role_mask(all, role),
                role != FieldRole::OptionalPayloadParam,
                self@.wf(),
                i <= fields.len(),
                texts(args@) == self@.slot_texts(positions(mask.take(i as int))),
            decreases fields.len() - i,
        {
            proof {
                lemma_positions_take(mask, i as int);
                assert(all[i as int] == fields@[i as int]@);
                assert(self@.slots[i as int] == slot_view(self.slots@[i as int]));
            }
            if fields[i].role == role {
                let ghost before = texts(args@);
                match &self.slots[i] {
                    Some(value) => {
                        args.push(value.to_text());
                    },
                    None => {},
                }
                assert(texts(args@) =~= before.push(self@.slots[i as int]->0.text()));
                assert(self@.slot_texts(positions(mask.take(i as int)).push(i as int))
                    =~= self@.slot_texts(positions(mask.take(i as int))).push(
                    self@.slots[i as int]->0.text(),
                ));
            }
            i = i + 1;
        }
        assert(mask.take(fields.len() as int) =~= mask);
        let path = fill(self.kind.schema.uri_template.as_str(), &args);
        let mut uri = String::from_str(BASE_URI);
        uri.append(path.unwrap().as_str());
        uri
    }

    /// The request's payload parameters: every essential payload parameter,
    /// then every optional payload parameter that is present, each in
    /// declaration order, each as its wire name and the string form of its
    /// value.
    pub fn payload_params(&self) -> (params: Vec<(String, String)>)
        ensures
            pair_views(params@) == self@.payload(),
    {
        proof {
            use_type_invariant(self);
            use_type_invariant(self.kind);
        }
        let fields = &self.kind.schema.fields;
        let ghost all = field_views(fields@);
        let ghost essential_mask = role_mask(all, FieldRole::EssentialPayloadParam);
        let ghost present_mask = self@.present_mask();
        let mut params: Vec<(String, String)> = Vec::new();
        let mut i: usize = 0;
        assert(essential_mask.take(0) =~= Seq::<bool>::empty());
        assert(texts(self.kind.wire_names@).len() == self.kind.wire_names@.len());
        while i < fields.len()
            invariant
                fields == &self.kind.schema.fields,
                all == field_views(fields@),
                essential_mask == role_mask(all, FieldRole::EssentialPayloadParam),
                self@.wf(),
                texts(self.kind.wire_names@) == self.kind@.wire_names(),
                self.kind.wire_names@.len() == fields.len(),
                i <= fields.len(),
                pair_views(params@) == self@.entries(positions(essential_mask.take(i as int))),
            decreases fields.len() - i,
        {
            proof {
                lemma_positions_take(essential_mask, i as int);
                assert(all[i as int] == fields@[i as int]@);
                assert(self@.slots[i as int] == slot_view(self.slots@[i as int]));
                assert(texts(self.kind.wire_names@)[i as int] == self.kind.wire_names@[i as int]@);
            }
            if fields[i].role == FieldRole::EssentialPayloadParam {
                let ghost before = pair_views(params@);
                match &self.slots[i] {
                    Some(value) => {
                        params.push((self.kind.wire_names[i].clone(), value.to_text()));
                    },
                    None => {},
                }
                assert(pair_views(params@) =~= before.push(self@.entry(i as int)));
                assert(self@.entries(positions(essential_mask.take(i as int)).push(i as int))
                    =~= self@.entries(positions(essential_mask.take(i as int))).push(
                    self@.entry(i as int),
                ));
            }
            i = i + 1;
        }
        assert(essential_mask.take(fields.len() as int) =~= essential_mask);
        let ghost essentials = positions(essential_mask);
        let mut i: usize = 0;
        assert(present_mask.take(0) =~= Seq::<bool>::empty());
        assert(essentials + Seq::<int>::empty() =~= essentials);
        while i < fields.len()
            invariant
                fields == &self.kind.schema.fields,
                all == field_views(fields@),
                present_mask == self@.present_mask(),
                self@.wf(),
                texts(self.kind.wire_names@) == self.kind@.wire_names(),
                self.kind.wire_names@.len() == fields.len(),
                i <= fields.len(),
                pair_views(params@) == self@.entries(
                    essentials + positions(present_mask.take(i as int)),
                ),
            decreases fields.len() - i,
        {
            proof {
                lemma_positions_take(present_mask, i as int);
                assert(all[i as int] == fields@[i as int]@);
                assert(self@.slots[i as int] == slot_view(self.slots@[i as int]));
                assert(texts(self.kind.wire_names@)[i as int] == self.kind.wire_names@[i as int]@);
            }
            if fields[i].role == FieldRole::OptionalPayloadParam {
                let ghost before = pair_views(params@);
                match &self.slots[i] {
                    Some(value) => {
                        params.push((self.kind.wire_names[i].clone(), value.to_text()));
                        assert(pair_views(params@) =~= before.push(self@.entry(i as int)));
                        assert(self@.entries(
                            essentials + positions(present_mask.take(i as int)).push(i as int),
                        ) =~= self@.entries(
                            essentials + positions(present_mask.take(i as int)),
                        ).push(self@.entry(i as int)));
                    },
                    None => {},
                }
            }
            i = i + 1;
        }
        assert(present_mask.take(fields.len() as int) =~= present_mask);
        params
    }
}

} // verus!
