//! GitHub REST API collections.

use vstd::prelude::*;
use vstd::string::*;
use crate::select::{
    lemma_positions_complete, lemma_positions_increasing, lemma_positions_sound,
    lemma_positions_take, positions,
};
use crate::template::{fill, filled, placeholder_count};
use crate::text::{opt_view, texts};
use crate::value::{bool_text, bool_to_text, decimal, decimal_text};

pub use crate::method::Method;

pub mod commits;
pub mod issues;
pub mod repos;

verus! {

/// Abstraction of GitHub REST API.
pub trait Api {
    /// GitHub REST APIs' base prefix.
    const BASE_URI: &'static str = "https://api.github.com";

    /// Request's header `Accept`'s value.
    const ACCEPT: &'static str;

    /// The request's URI template. A type that says nothing has an empty
    /// one.
    open spec fn uri_template(&self) -> Seq<char> {
        Seq::empty()
    }

    /// The string forms of the request's path parameters, in declaration
    /// order. A type that says nothing has none.
    open spec fn path_args(&self) -> Seq<Seq<char>> {
        Seq::empty()
    }

    /// Request's target URI/URL: the base URI, then the URI template with
    /// each placeholder replaced by the corresponding path parameter.
    fn api(&self) -> (uri: String)
        ensures
            uri@ == Self::BASE_URI@ + filled(self.uri_template(), self.path_args()),
    ;
}

/// For each optional parameter, whether it is present.
pub open spec fn presence(optional: Seq<(Seq<char>, Option<Seq<char>>)>) -> Seq<bool> {
    Seq::new(optional.len(), |i: int| optional[i].1 is Some)
}

/// The optional parameters at the given positions, with their values.
pub open spec fn present_at(optional: Seq<(Seq<char>, Option<Seq<char>>)>, at: Seq<int>) -> Seq<
    (Seq<char>, Seq<char>),
> {
    at.map_values(|i: int| (optional[i].0, optional[i].1->0))
}

/// The payload of a request: every essential parameter, then every optional
/// parameter that is present, each in declaration order.
pub open spec fn payload_of(
    essential: Seq<(Seq<char>, Seq<char>)>,
    optional: Seq<(Seq<char>, Option<Seq<char>>)>,
) -> Seq<(Seq<char>, Seq<char>)> {
    essential + present_at(optional, positions(presence(optional)))
}

/// The payload starts with the essential parameters, as they are.
pub proof fn lemma_payload_essential(
    essential: Seq<(Seq<char>, Seq<char>)>,
    optional: Seq<(Seq<char>, Option<Seq<char>>)>,
    j: int,
)
    requires
        0 <= j < essential.len(),
    ensures
        j < payload_of(essential, optional).len(),
        payload_of(essential, optional)[j] == essential[j],
{
}

/// What follows the essential parameters in the payload comes from an
/// optional parameter that is present, and carries its name and value. An
/// absent parameter never appears.
pub proof fn lemma_payload_present(
    essential: Seq<(Seq<char>, Seq<char>)>,
    optional: Seq<(Seq<char>, Option<Seq<char>>)>,
    j: int,
)
    requires
        essential.len() <= j < payload_of(essential, optional).len(),
    ensures
        ({
            let i = positions(presence(optional))[j - essential.len()];
            &&& 0 <= i < optional.len()
            &&& optional[i].1 is Some
            &&& payload_of(essential, optional)[j] == (optional[i].0, optional[i].1->0)
        }),
{
    lemma_positions_sound(presence(optional), j - essential.len());
}

/// Every optional parameter that is present appears in the payload, after
/// the essential parameters.
pub proof fn lemma_payload_has_present(
    essential: Seq<(Seq<char>, Seq<char>)>,
    optional: Seq<(Seq<char>, Option<Seq<char>>)>,
    i: int,
)
    requires
        0 <= i < optional.len(),
        optional[i].1 is Some,
    ensures
        exists|j: int|
            essential.len() <= j < payload_of(essential, optional).len() && #[trigger] payload_of(
                essential,
                optional,
            )[j] == (optional[i].0, optional[i].1->0),
{
    let mask = presence(optional);
    lemma_positions_complete(mask, i);
    let k = choose|k: int| 0 <= k < positions(mask).len() && positions(mask)[k] == i;
    assert(payload_of(essential, optional)[essential.len() + k] == (
        optional[i].0,
        optional[i].1->0,
    ));
}

/// The optional parameters keep their declaration order in the payload, and
/// none appears twice.
pub proof fn lemma_payload_ordered(
    essential: Seq<(Seq<char>, Seq<char>)>,
    optional: Seq<(Seq<char>, Option<Seq<char>>)>,
    j: int,
    k: int,
)
    requires
        essential.len() <= j < k < payload_of(essential, optional).len(),
    ensures
        positions(presence(optional))[j - essential.len()] < positions(presence(optional))[k
            - essential.len()],
{
    lemma_positions_increasing(presence(optional), j - essential.len(), k - essential.len());
}

/// The views of a list of payload parameters.
pub open spec fn param_views(params: Seq<(&'static str, String)>) -> Seq<(Seq<char>, Seq<char>)> {
    params.map_values(|param: (&'static str, String)| (param.0@, param.1@))
}

/// The views of a list of optional payload parameters.
pub open spec fn optional_views(params: Seq<(&'static str, Option<String>)>) -> Seq<
    (Seq<char>, Option<Seq<char>>),
> {
    params.map_values(
        |param: (&'static str, Option<String>)|
            (
                param.0@,
                match param.1 {
                    Some(value) => Some(value@),
                    None => None,
                },
            ),
    )
}

/// Extended GitHub REST API.
pub trait ApiExt: Api {
    /// HTTP method.
    const METHOD: Method;

    /// The request's essential payload parameters, in declaration order:
    /// the wire name and the string form of each. A type that says nothing
    /// has none.
    open spec fn essential_params(&self) -> Seq<(Seq<char>, Seq<char>)> {
        Seq::empty()
    }

    /// The request's optional payload parameters, in declaration order: the
    /// wire name of each and the string form of its value, where present.
    /// A type that says nothing has none.
    open spec fn optional_params(&self) -> Seq<(Seq<char>, Option<Seq<char>>)> {
        Seq::empty()
    }

    /// Request's payload parameters.
    ///
    /// Can be one of:
    /// - Body parameters
    /// - Query parameters
    fn payload_params(&self) -> (params: Vec<(&'static str, String)>)
        ensures
            param_views(params@) == payload_of(self.essential_params(), self.optional_params()),
    ;
}

/// The URL of a request: the base URI, then `template` filled with `args`.
pub fn materialize(base: &str, template: &str, args: &Vec<String>) -> (uri: String)
    requires
        placeholder_count(template@) == args@.len(),
    ensures
        uri@ == base@ + filled(template@, texts(args@)),
{
    let path = fill(template, args);
    let mut uri = String::from_str(base);
    uri.append(path.unwrap().as_str());
    uri
}

/// The payload of a request: the essential parameters, then the optional
/// parameters that are present.
pub fn project(
    essential: Vec<(&'static str, String)>,
    optional: &Vec<(&'static str, Option<String>)>,
) -> (params: Vec<(&'static str, String)>)
    ensures
        param_views(params@) == payload_of(param_views(essential@), optional_views(optional@)),
{
    let ghost all = optional_views(optional@);
    let ghost mask = presence(all);
    let ghost first = param_views(essential@);
    let mut params = essential;
    let mut i: usize = 0;
    assert(mask.take(0) =~= Seq::<bool>::empty());
    assert(first + present_at(all, Seq::<int>::empty()) =~= first);
    while i < optional.len()
        invariant
            i <= optional.len(),
            all == optional_views(optional@),
            mask == presence(all),
            param_views(params@) == first + present_at(all, positions(mask.take(i as int))),
        decreases optional.len() - i,
    {
        proof {
            lemma_positions_take(mask, i as int);
        }
        let ghost before = param_views(params@);
        match &optional[i].1 {
            Some(value) => {
                params.push((optional[i].0, value.clone()));
                assert(param_views(params@) =~= before.push((all[i as int].0, all[i as int].1->0)));
                assert(first + present_at(all, positions(mask.take(i as int)).push(i as int))
                    =~= (first + present_at(all, positions(mask.take(i as int)))).push(
                    (all[i as int].0, all[i as int].1->0),
                ));
            },
            None => {},
        }
        i = i + 1;
    }
    assert(mask.take(optional.len() as int) =~= mask);
    params
}

/// The string form of a string that may be absent.
pub open spec fn opt_text(value: Option<&str>) -> Option<Seq<char>> {
    match value {
        Some(text) => Some(text@),
        None => None,
    }
}

/// The string form of an 8-bit integer that may be absent.
pub open spec fn opt_u8(value: Option<u8>) -> Option<Seq<char>> {
    match value {
        Some(n) => Some(decimal(n as nat)),
        None => None,
    }
}

/// The string form of a 16-bit integer that may be absent.
pub open spec fn opt_u16(value: Option<u16>) -> Option<Seq<char>> {
    match value {
        Some(n) => Some(decimal(n as nat)),
        None => None,
    }
}

/// The string form of a 32-bit integer that may be absent.
pub open spec fn opt_u32(value: Option<u32>) -> Option<Seq<char>> {
    match value {
        Some(n) => Some(decimal(n as nat)),
        None => None,
    }
}

/// The string form of a boolean that may be absent.
pub open spec fn opt_bool(value: Option<bool>) -> Option<Seq<char>> {
    match value {
        Some(b) => Some(bool_text(b)),
        None => None,
    }
}

/// The string form of a string that may be absent.
pub fn text_opt(value: Option<&str>) -> (text: Option<String>)
    ensures
        opt_view(text) == opt_text(value),
{
    match value {
        Some(v) => Some(String::from_str(v)),
        None => None,
    }
}

/// The string form of an 8-bit integer that may be absent.
pub fn u8_opt(value: Option<u8>) -> (text: Option<String>)
    ensures
        opt_view(text) == opt_u8(value),
{
    match value {
        Some(n) => Some(decimal_text(n as u32)),
        None => None,
    }
}

/// The string form of a 16-bit integer that may be absent.
pub fn u16_opt(value: Option<u16>) -> (text: Option<String>)
    ensures
        opt_view(text) == opt_u16(value),
{
    match value {
        Some(n) => Some(decimal_text(n as u32)),
        None => None,
    }
}

/// The string form of a 32-bit integer that may be absent.
pub fn u32_opt(value: Option<u32>) -> (text: Option<String>)
    ensures
        opt_view(text) == opt_u32(value),
{
    match value {
        Some(n) => Some(decimal_text(n)),
        None => None,
    }
}

/// The string form of a boolean that may be absent.
pub fn bool_opt(value: Option<bool>) -> (text: Option<String>)
    ensures
        opt_view(text) == opt_bool(value),
{
    match value {
        Some(b) => Some(bool_to_text(b)),
        None => None,
    }
}

} // verus!
