//! Endpoint metadata: reading the properties of a declaration.

use vstd::prelude::*;
use vstd::string::*;
use crate::method::Method;
use crate::naming::{case_converted, CaseStyle};
use crate::text::{opt_view, same_text};

verus! {

/// The value of a metadata property as the catalog gives it.
#[derive(Debug)]
pub enum MetaValue {
    /// A string.
    Text(String),
    /// An integer.
    Integer(i64),
    /// A boolean.
    Flag(bool),
    /// The key stands alone, without a value.
    Missing,
}

/// A metadata property as the catalog gives it.
#[derive(Debug)]
pub struct RawProperty {
    /// The property's key.
    pub key: String,
    /// The property's value.
    pub value: MetaValue,
}

/// The keys of the metadata properties.
#[derive(Clone, Copy, Debug, PartialEq, Eq, Structural)]
pub enum PropertyKey {
    /// The grouping tag of the endpoint, used for documentation.
    Category,
    /// The HTTP method.
    Method,
    /// The value of the accept header.
    Accept,
    /// The URI template.
    Uri,
}

/// Why a single property cannot be read.
#[derive(Clone, Copy, Debug, PartialEq, Eq, Structural)]
pub enum PropertyError {
    /// The value is not a string.
    NonStringValue,
    /// The key is none of the known ones.
    UnrecognizedKey,
}

/// The key that `text` spells, if any.
pub open spec fn key_named(text: Seq<char>) -> Option<PropertyKey> {
    if text == "category"@ {
        Some(PropertyKey::Category)
    } else if text == "method"@ {
        Some(PropertyKey::Method)
    } else if text == "accept"@ {
        Some(PropertyKey::Accept)
    } else if text == "uri"@ {
        Some(PropertyKey::Uri)
    } else {
        None
    }
}

/// What a property reads as: its key and its string value. The value is
/// looked at first, then the key.
pub open spec fn parsed(raw: RawProperty) -> Result<(PropertyKey, Seq<char>), PropertyError> {
    match raw.value {
        MetaValue::Text(value) => match key_named(raw.key@) {
            Some(key) => Ok((key, value@)),
            None => Err(PropertyError::UnrecognizedKey),
        },
        _ => Err(PropertyError::NonStringValue),
    }
}

/// A metadata property with a known key and a string value.
#[derive(Debug)]
pub enum ApiProperty {
    Category(String),
    Method(String),
    Accept(String),
    Uri(String),
}

impl ApiProperty {
    /// The key of this property.
    pub open spec fn key(self) -> PropertyKey {
        match self {
            ApiProperty::Category(_) => PropertyKey::Category,
            ApiProperty::Method(_) => PropertyKey::Method,
            ApiProperty::Accept(_) => PropertyKey::Accept,
            ApiProperty::Uri(_) => PropertyKey::Uri,
        }
    }

    /// The value of this property.
    pub open spec fn value(self) -> Seq<char> {
        match self {
            ApiProperty::Category(value) => value@,
            ApiProperty::Method(value) => value@,
            ApiProperty::Accept(value) => value@,
            ApiProperty::Uri(value) => value@,
        }
    }

    /// Reads one property.
    pub fn parse(raw: &RawProperty) -> (out: Result<ApiProperty, PropertyError>)
        ensures
            out matches Ok(property) ==> parsed(*raw) == Ok::<
                (PropertyKey, Seq<char>),
                PropertyError,
            >((property.key(), property.value())),
            out matches Err(error) ==> parsed(*raw) == Err::<
                (PropertyKey, Seq<char>),
                PropertyError,
            >(error),
    {
        match &raw.value {
            MetaValue::Text(value) => {
                let key = raw.key.as_str();
                if same_text(key, "category") {
                    Ok(ApiProperty::Category(value.clone()))
                } else if same_text(key, "method") {
                    Ok(ApiProperty::Method(value.clone()))
                } else if same_text(key, "accept") {
                    Ok(ApiProperty::Accept(value.clone()))
                } else if same_text(key, "uri") {
                    Ok(ApiProperty::Uri(value.clone()))
                } else {
                    Err(PropertyError::UnrecognizedKey)
                }
            },
            _ => Err(PropertyError::NonStringValue),
        }
    }
}

/// The capability that an endpoint is generated for.
#[derive(Clone, Copy, Debug, PartialEq, Eq, Structural)]
pub enum EndpointClass {
    /// The endpoint has a URL and an accept header.
    Api,
    /// The endpoint has an HTTP method and payload parameters as well.
    ApiExt,
}

/// Why the metadata of an endpoint cannot be read.
#[derive(Clone, Copy, Debug, PartialEq, Eq, Structural)]
pub enum SchemaError {
    /// A required key is missing.
    MissingKey(PropertyKey),
    /// The property at this position has a key that is not known.
    UnrecognizedKey(usize),
    /// The property at this position has a value that is not a string.
    NonStringValue(usize),
    /// The declared method is no HTTP method.
    UnknownMethod,
}

/// The validated metadata of an endpoint.
#[derive(Debug)]
pub struct Metadata {
    /// The grouping tag of the endpoint.
    pub category: String,
    /// The HTTP method, where one is declared.
    pub method: Option<Method>,
    /// The value of the accept header.
    pub accept: String,
    /// The URI template.
    pub uri: String,
}

/// The mathematical content of `Metadata`.
pub struct MetadataView {
    pub category: Seq<char>,
    pub method: Option<Method>,
    pub accept: Seq<char>,
    pub uri: Seq<char>,
}

impl View for Metadata {
    type V = MetadataView;

    open spec fn view(&self) -> MetadataView {
        MetadataView {
            category: self.category@,
            method: self.method,
            accept: self.accept@,
            uri: self.uri@,
        }
    }
}

/// The value that `props` give to `key`: that of the last property with
/// this key.
pub open spec fn last_value(props: Seq<RawProperty>, key: PropertyKey) -> Option<Seq<char>>
    decreases props.len(),
{
    if props.len() == 0 {
        None
    } else {
        match parsed(props.last()) {
            Ok((k, value)) => if k == key {
                Some(value)
            } else {
                last_value(props.drop_last(), key)
            },
            Err(_) => last_value(props.drop_last(), key),
        }
    }
}

/// Whether the property at position `i` is the first that cannot be read.
pub open spec fn first_unreadable(props: Seq<RawProperty>, i: int) -> bool {
    &&& 0 <= i < props.len()
    &&& parsed(props[i]) is Err
    &&& forall|j: int| 0 <= j < i ==> (#[trigger] parsed(props[j])) is Ok
}

/// Whether every property can be read.
pub open spec fn all_readable(props: Seq<RawProperty>) -> bool {
    forall|j: int| 0 <= j < props.len() ==> (#[trigger] parsed(props[j])) is Ok
}

/// The first required key that `props` do not give, in the order category,
/// method, accept, uri. The method is required of an `ApiExt` endpoint only.
pub open spec fn first_missing(props: Seq<RawProperty>, class: EndpointClass) -> Option<
    PropertyKey,
> {
    if last_value(props, PropertyKey::Category) is None {
        Some(PropertyKey::Category)
    } else if class == EndpointClass::ApiExt && last_value(props, PropertyKey::Method) is None {
        Some(PropertyKey::Method)
    } else if last_value(props, PropertyKey::Accept) is None {
        Some(PropertyKey::Accept)
    } else if last_value(props, PropertyKey::Uri) is None {
        Some(PropertyKey::Uri)
    } else {
        None
    }
}

/// The method that `props` declare, read in any letter case.
pub open spec fn declared_method(props: Seq<RawProperty>) -> Option<Method> {
    match last_value(props, PropertyKey::Method) {
        Some(text) => Method::named(case_converted(text, CaseStyle::Pascal)),
        None => None,
    }
}

/// The metadata that readable and complete `props` give.
pub open spec fn metadata_of(props: Seq<RawProperty>) -> MetadataView {
    MetadataView {
        category: last_value(props, PropertyKey::Category)->0,
        method: declared_method(props),
        accept: last_value(props, PropertyKey::Accept)->0,
        uri: last_value(props, PropertyKey::Uri)->0,
    }
}

/// Whether `props` give the whole metadata of an endpoint of class `class`:
/// every property can be read, no required key is missing, and a declared
/// method names an HTTP method.
pub open spec fn complete(props: Seq<RawProperty>, class: EndpointClass) -> bool {
    &&& all_readable(props)
    &&& first_missing(props, class) is None
    &&& last_value(props, PropertyKey::Method) is Some ==> declared_method(props) is Some
}

/// Whether reading `props` for an endpoint of class `class` fails with
/// `error`.
///
/// The first property that cannot be read decides. If all can be read, the
/// first required key that is missing decides. If none is missing, a
/// declared method that names no HTTP method is an error.
pub open spec fn fails_with(
    props: Seq<RawProperty>,
    class: EndpointClass,
    error: SchemaError,
) -> bool {
    match error {
        SchemaError::NonStringValue(i) => first_unreadable(props, i as int) && parsed(
            props[i as int],
        ) == Err::<(PropertyKey, Seq<char>), PropertyError>(PropertyError::NonStringValue),
        SchemaError::UnrecognizedKey(i) => first_unreadable(props, i as int) && parsed(
            props[i as int],
        ) == Err::<(PropertyKey, Seq<char>), PropertyError>(PropertyError::UnrecognizedKey),
        SchemaError::MissingKey(key) => all_readable(props) && first_missing(props, class) == Some(
            key,
        ),
        SchemaError::UnknownMethod => {
            &&& all_readable(props)
            &&& first_missing(props, class) is None
            &&& last_value(props, PropertyKey::Method) is Some
            &&& declared_method(props) is None
        },
    }
}

/// Reads the metadata of an endpoint of class `class` from its properties.
/// Where a key occurs more than once, its last value counts.
pub fn parse_properties(props: &Vec<RawProperty>, class: EndpointClass) -> (out: Result<
    Metadata,
    SchemaError,
>)
    ensures
        out is Ok <==> complete(props@, class),
        out matches Ok(meta) ==> meta@ == metadata_of(props@),
        out matches Err(error) ==> fails_with(props@, class, error),
{
    let mut category: Option<String> = None;
    let mut method: Option<String> = None;
    let mut accept: Option<String> = None;
    let mut uri: Option<String> = None;
    let ghost all = props@;
    let mut i: usize = 0;
    assert(all.take(0) =~= Seq::<RawProperty>::empty());
    while i < props.len()
        invariant
            all == props@,
            i <= props.len(),
            forall|j: int| 0 <= j < i ==> (#[trigger] parsed(all[j])) is Ok,
            opt_view(category) == last_value(all.take(i as int), PropertyKey::Category),
            opt_view(method) == last_value(all.take(i as int), PropertyKey::Method),
            opt_view(accept) == last_value(all.take(i as int), PropertyKey::Accept),
            opt_view(uri) == last_value(all.take(i as int), PropertyKey::Uri),
        decreases props.len() - i,
    {
        proof {
            assert(all.take(i + 1).drop_last() =~= all.take(i as int));
            assert(all.take(i + 1).last() == all[i as int]);
        }
        match ApiProperty::parse(&props[i]) {
            Ok(ApiProperty::Category(value)) => {
                category = Some(value);
            },
            Ok(ApiProperty::Method(value)) => {
                method = Some(value);
            },
            Ok(ApiProperty::Accept(value)) => {
                accept = Some(value);
            },
            Ok(ApiProperty::Uri(value)) => {
                uri = Some(value);
            },
            Err(PropertyError::NonStringValue) => {
                return Err(SchemaError::NonStringValue(i));
            },
            Err(PropertyError::UnrecognizedKey) => {
                return Err(SchemaError::UnrecognizedKey(i));
            },
        }
        i = i + 1;
    }
    assert(all.take(props.len() as int) =~= all);
    let category = match category {
        Some(value) => value,
        None => {
            return Err(SchemaError::MissingKey(PropertyKey::Category));
        },
    };
    if class == EndpointClass::ApiExt && method.is_none() {
        return Err(SchemaError::MissingKey(PropertyKey::Method));
    }
    let accept = match accept {
        Some(value) => value,
        None => {
            return Err(SchemaError::MissingKey(PropertyKey::Accept));
        },
    };
    let uri = match uri {
        Some(value) => value,
        None => {
            return Err(SchemaError::MissingKey(PropertyKey::Uri));
        },
    };
    let method = match method {
        Some(text) => match Method::parse(text.as_str()) {
            Some(method) => Some(method),
            None => {
                return Err(SchemaError::UnknownMethod);
            },
        },
        None => None,
    };
    Ok(Metadata { category, method, accept, uri })
}

} // verus!
