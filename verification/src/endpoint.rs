//! Validated endpoints and the request types generated from them.

use vstd::prelude::*;
use vstd::string::*;
use crate::fields::{
    all_classified, assign_roles, bucket, classified, field_views, first_mismatch, partition,
    raw_views, role_mask, Buckets, ClassificationError, Dialect, FieldRole, FieldSpec,
    FieldSpecView, RawField,
};
use crate::method::Method;
use crate::naming::{
    case_converted, doc_reference, doc_reference_text, function_name, wire_name, wire_name_of,
    CaseStyle,
};
use crate::schema::{
    complete, fails_with, metadata_of, parse_properties, EndpointClass, Metadata, RawProperty,
    SchemaError,
};
use crate::select::{lemma_positions_take, positions};
use crate::template::{count_placeholders, placeholder_count};
use crate::text::texts;

verus! {

/// The URI template does not have one placeholder for each field that it is
/// to be filled with.
#[derive(Clone, Copy, Debug, PartialEq, Eq, Structural)]
pub struct TemplateError {
    /// The number of placeholders in the template.
    pub placeholders: usize,
    /// The number of fields that the template is to be filled with.
    pub arguments: usize,
}

/// Why no request type can be generated from a declaration.
#[derive(Clone, Copy, Debug, PartialEq, Eq, Structural)]
pub enum GenerationError {
    /// The metadata cannot be read.
    Schema(SchemaError),
    /// A field cannot be classified.
    Classification(ClassificationError),
    /// The URI template does not fit the fields.
    Template(TemplateError),
}

/// The mathematical content of an `EndpointSchema`.
pub struct SchemaView {
    pub category: Seq<char>,
    pub http_method: Option<Method>,
    pub accept_header: Seq<char>,
    pub uri_template: Seq<char>,
    pub dialect: Dialect,
    pub fields: Seq<FieldSpecView>,
}

/// The role of the fields that fill the URI template: the path parameters,
/// or, in the legacy dialect, the essential payload parameters.
pub open spec fn uri_role(dialect: Dialect) -> FieldRole {
    if dialect == Dialect::Legacy {
        FieldRole::EssentialPayloadParam
    } else {
        FieldRole::PathParam
    }
}

impl SchemaView {
    /// The positions of the fields that fill the URI template, in
    /// declaration order.
    pub open spec fn uri_positions(self) -> Seq<int> {
        positions(role_mask(self.fields, uri_role(self.dialect)))
    }

    /// Whether the schema is valid: every field records its own position,
    /// the legacy dialect has no path parameters, and the URI template has
    /// exactly one placeholder for each field that fills it.
    pub open spec fn wf(self) -> bool {
        &&& forall|i: int|
            0 <= i < self.fields.len() ==> (#[trigger] self.fields[i]).declaration_order == i
        &&& self.dialect == Dialect::Legacy ==> forall|i: int|
            0 <= i < self.fields.len() ==> (#[trigger] self.fields[i]).role != FieldRole::PathParam
        &&& placeholder_count(self.uri_template) == self.uri_positions().len()
    }
}

/// A validated endpoint: its metadata and its classified fields, in
/// declaration order.
#[derive(Debug)]
pub struct EndpointSchema {
    pub(crate) category: String,
    pub(crate) http_method: Option<Method>,
    pub(crate) accept_header: String,
    pub(crate) uri_template: String,
    pub(crate) dialect: Dialect,
    pub(crate) fields: Vec<FieldSpec>,
}

impl View for EndpointSchema {
    type V = SchemaView;

    open(crate) spec fn view(&self) -> SchemaView {
        SchemaView {
            category: self.category@,
            http_method: self.http_method,
            accept_header: self.accept_header@,
            uri_template: self.uri_template@,
            dialect: self.dialect,
            fields: field_views(self.fields@),
        }
    }
}

/// The number of `fields` that have the role `role`.
pub fn count_role(fields: &Vec<FieldSpec>, role: FieldRole) -> (count: usize)
    ensures
        count == positions(role_mask(field_views(fields@), role)).len(),
{
    let ghost mask = role_mask(field_views(fields@), role);
    let mut count: usize = 0;
    let mut i: usize = 0;
    assert(mask.take(0) =~= Seq::<bool>::empty());
    while i < fields.len()
        invariant
            mask == role_mask(field_views(fields@), role),
            i <= fields.len(),
            count <= i,
            count == positions(mask.take(i as int)).len(),
        decreases fields.len() - i,
    {
        proof {
            lemma_positions_take(mask, i as int);
        }
        if fields[i].role == role {
            count = count + 1;
        }
        i = i + 1;
    }
    assert(mask.take(fields.len() as int) =~= mask);
    count
}

impl EndpointSchema {
    #[verifier::type_invariant]
    pub open(crate) spec fn valid(self) -> bool {
        self@.wf()
    }

    /// The grouping tag of the endpoint.
    pub fn category(&self) -> (category: &str)
        ensures
            category@ == self@.category,
    {
        self.category.as_str()
    }

    /// The HTTP method, where one is declared.
    pub fn http_method(&self) -> (method: Option<Method>)
        ensures
            method == self@.http_method,
    {
        self.http_method
    }

    /// The value of the accept header.
    pub fn accept_header(&self) -> (accept: &str)
        ensures
            accept@ == self@.accept_header,
    {
        self.accept_header.as_str()
    }

    /// The URI template.
    pub fn uri_template(&self) -> (template: &str)
        ensures
            template@ == self@.uri_template,
    {
        self.uri_template.as_str()
    }

    /// The dialect that the endpoint was declared in.
    pub fn dialect(&self) -> (dialect: Dialect)
        ensures
            dialect == self@.dialect,
    {
        self.dialect
    }

    /// The classified fields, in declaration order.
    pub fn fields(&self) -> (fields: &Vec<FieldSpec>)
        ensures
            field_views(fields@) == self@.fields,
            self@.wf(),
    {
        proof {
            use_type_invariant(self);
        }
        &self.fields
    }

    /// The three buckets of the endpoint's fields.
    pub fn buckets(&self) -> (buckets: Buckets)
        ensures
            field_views(buckets.path@) == bucket(self@.fields, FieldRole::PathParam),
            field_views(buckets.essential@) == bucket(
                self@.fields,
                FieldRole::EssentialPayloadParam,
            ),
            field_views(buckets.optional@) == bucket(
                self@.fields,
                FieldRole::OptionalPayloadParam,
            ),
    {
        partition(&self.fields)
    }

    /// Builds the schema of an endpoint from its metadata and its declared
    /// fields. Fails on the first field that cannot be classified; if all
    /// can, fails where the URI template does not have one placeholder for
    /// each field that fills it.
    pub fn build(meta: Metadata, fields: &Vec<RawField>, dialect: Dialect) -> (out: Result<
        EndpointSchema,
        GenerationError,
    >)
        ensures
            match out {
                Ok(schema) => {
                    &&& all_classified(raw_views(fields@), dialect)
                    &&& schema@ == (SchemaView {
                        category: meta@.category,
                        http_method: meta@.method,
                        accept_header: meta@.accept,
                        uri_template: meta@.uri,
                        dialect,
                        fields: classified(raw_views(fields@), dialect),
                    })
                    &&& schema@.wf()
                },
                Err(GenerationError::Classification(error)) => first_mismatch(
                    raw_views(fields@),
                    dialect,
                    error,
                ),
                Err(GenerationError::Template(error)) => {
                    &&& all_classified(raw_views(fields@), dialect)
                    &&& error.placeholders == placeholder_count(meta@.uri)
                    &&& error.arguments == positions(
                        role_mask(classified(raw_views(fields@), dialect), uri_role(dialect)),
                    ).len()
                    &&& error.placeholders != error.arguments
                },
                Err(GenerationError::Schema(_)) => false,
            },
    {
        let specs = match assign_roles(fields, dialect) {
            Ok(specs) => specs,
            Err(error) => {
                return Err(GenerationError::Classification(error));
            },
        };
        let role = match dialect {
            Dialect::Legacy => FieldRole::EssentialPayloadParam,
            Dialect::Extended => FieldRole::PathParam,
        };
        let placeholders = count_placeholders(meta.uri.as_str());
        let arguments = count_role(&specs, role);
        if placeholders != arguments {
            return Err(GenerationError::Template(TemplateError { placeholders, arguments }));
        }
        Ok(
            EndpointSchema {
                category: meta.category,
                http_method: meta.method,
                accept_header: meta.accept,
                uri_template: meta.uri,
                dialect,
                fields: specs,
            },
        )
    }
}

/// The mathematical content of a `RequestType`.
pub struct RequestTypeView {
    pub name: Seq<char>,
    pub doc_reference: Seq<char>,
    pub function_name: Seq<char>,
    pub schema: SchemaView,
}

impl RequestTypeView {
    /// The name under which each field travels on the wire.
    pub open spec fn wire_names(self) -> Seq<Seq<char>> {
        Seq::new(self.schema.fields.len(), |i: int| wire_name_of(self.schema.fields[i].name))
    }

    /// Whether the type is valid: its schema is, and its documentation
    /// reference and its convenience function are named after it.
    pub open spec fn wf(self) -> bool {
        &&& self.schema.wf()
        &&& self.doc_reference == doc_reference_text(
            self.schema.category,
            case_converted(self.name, CaseStyle::Kebab),
        )
        &&& self.function_name == case_converted(self.name, CaseStyle::Snake)
    }
}

/// A generated request type: a validated endpoint together with the names
/// derived for it.
#[derive(Debug)]
pub struct RequestType {
    pub(crate) name: String,
    pub(crate) doc_reference: String,
    pub(crate) function_name: String,
    pub(crate) schema: EndpointSchema,
    pub(crate) wire_names: Vec<String>,
}

impl View for RequestType {
    type V = RequestTypeView;

    open(crate) spec fn view(&self) -> RequestTypeView {
        RequestTypeView {
            name: self.name@,
            doc_reference: self.doc_reference@,
            function_name: self.function_name@,
            schema: self.schema@,
        }
    }
}

/// The request type that a declaration gives, where it gives one.
pub open spec fn generated(
    api_name: Seq<char>,
    props: Seq<RawProperty>,
    fields: Seq<RawField>,
    dialect: Dialect,
) -> RequestTypeView {
    let meta = metadata_of(props);
    RequestTypeView {
        name: api_name,
        doc_reference: doc_reference_text(
            meta.category,
            case_converted(api_name, CaseStyle::Kebab),
        ),
        function_name: case_converted(api_name, CaseStyle::Snake),
        schema: SchemaView {
            category: meta.category,
            http_method: meta.method,
            accept_header: meta.accept,
            uri_template: meta.uri,
            dialect,
            fields: classified(raw_views(fields), dialect),
        },
    }
}

/// Whether the URI template that `props` declare has one placeholder for
/// each of `fields` that fills it.
pub open spec fn template_fits(
    props: Seq<RawProperty>,
    fields: Seq<RawField>,
    dialect: Dialect,
) -> bool {
    placeholder_count(metadata_of(props).uri) == positions(
        role_mask(classified(raw_views(fields), dialect), uri_role(dialect)),
    ).len()
}

impl RequestType {
    #[verifier::type_invariant]
    pub open(crate) spec fn valid(self) -> bool {
        &&& self@.wf()
        &&& texts(self.wire_names@) == self@.wire_names()
    }

    /// The name of the request type.
    pub fn name(&self) -> (name: &str)
        ensures
            name@ == self@.name,
    {
        self.name.as_str()
    }

    /// The reference line of the type's documentation: the category and the
    /// type's name in kebab case make up the address.
    pub fn doc_reference(&self) -> (line: &str)
        ensures
            line@ == self@.doc_reference,
            line@ == doc_reference_text(
                self@.schema.category,
                case_converted(self@.name, CaseStyle::Kebab),
            ),
    {
        proof {
            use_type_invariant(self);
        }
        self.doc_reference.as_str()
    }

    /// The name of the type's convenience function: the type's name in snake
    /// case.
    pub fn function_name(&self) -> (name: &str)
        ensures
            name@ == self@.function_name,
            name@ == case_converted(self@.name, CaseStyle::Snake),
    {
        proof {
            use_type_invariant(self);
        }
        self.function_name.as_str()
    }

    /// The validated endpoint that the type was generated from.
    pub fn schema(&self) -> (schema: &EndpointSchema)
        ensures
            schema@ == self@.schema,
    {
        &self.schema
    }

    /// The names under which the fields travel on the wire, in declaration
    /// order.
    pub fn wire_names(&self) -> (names: &Vec<String>)
        ensures
            texts(names@) == self@.wire_names(),
    {
        proof {
            use_type_invariant(self);
        }
        &self.wire_names
    }

    /// Derives the names of the request type `api_name` for a validated
    /// endpoint.
    pub fn emit(api_name: &str, schema: EndpointSchema) -> (out: RequestType)
        ensures
            out@ == (RequestTypeView {
                name: api_name@,
                doc_reference: doc_reference_text(
                    schema@.category,
                    case_converted(api_name@, CaseStyle::Kebab),
                ),
                function_name: case_converted(api_name@, CaseStyle::Snake),
                schema: schema@,
            }),
            out@.wf(),
    {
        proof {
            use_type_invariant(&schema);
        }
        let mut wire_names: Vec<String> = Vec::new();
        let mut i: usize = 0;
        while i < schema.fields.len()
            invariant
                i <= schema.fields.len(),
                wire_names@.len() == i,
                forall|j: int|
                    0 <= j < i ==> (#[trigger] wire_names@[j])@ == wire_name_of(
                        schema.fields@[j].name@,
                    ),
            decreases schema.fields.len() - i,
        {
            wire_names.push(wire_name(schema.fields[i].name.as_str()));
            i = i + 1;
        }
        let name = String::from_str(api_name);
        let doc_reference = doc_reference(schema.category.as_str(), api_name);
        let function_name = function_name(api_name);
        assert(texts(wire_names@) =~= Seq::new(
            schema@.fields.len(),
            |i: int| wire_name_of(schema@.fields[i].name),
        ));
        RequestType { name, doc_reference, function_name, schema, wire_names }
    }
}

/// Generates the request type `api_name` from the declaration of an endpoint:
/// its metadata properties and its fields, in the given dialect.
///
/// The metadata is read first, then the fields are classified, then the URI
/// template is held against the fields that fill it. The first stage that
/// fails gives the error.
pub fn generate(
    api_name: &str,
    props: &Vec<RawProperty>,
    fields: &Vec<RawField>,
    class: EndpointClass,
    dialect: Dialect,
) -> (out: Result<RequestType, GenerationError>)
    ensures
        out is Ok <==> {
            &&& complete(props@, class)
            &&& all_classified(raw_views(fields@), dialect)
            &&& template_fits(props@, fields@, dialect)
        },
        match out {
            Ok(request_type) => request_type@ == generated(api_name@, props@, fields@, dialect)
                && request_type@.wf(),
            Err(GenerationError::Schema(error)) => fails_with(props@, class, error),
            Err(GenerationError::Classification(error)) => complete(props@, class)
                && first_mismatch(raw_views(fields@), dialect, error),
            Err(GenerationError::Template(error)) => {
                &&& complete(props@, class)
                &&& all_classified(raw_views(fields@), dialect)
                &&& error.placeholders == placeholder_count(metadata_of(props@).uri)
                &&& error.arguments == positions(
                    role_mask(classified(raw_views(fields@), dialect), uri_role(dialect)),
                ).len()
                &&& error.placeholders != error.arguments
            },
        },
{
    let meta = match parse_properties(props, class) {
        Ok(meta) => meta,
        Err(error) => {
            return Err(GenerationError::Schema(error));
        },
    };
    match EndpointSchema::build(meta, fields, dialect) {
        Ok(schema) => Ok(RequestType::emit(api_name, schema)),
        Err(error) => Err(error),
    }
}

} // verus!
