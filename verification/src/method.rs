//! HTTP methods.

use vstd::prelude::*;
use vstd::string::*;
use crate::naming::{case_converted, convert_case, CaseStyle};
use crate::text::same_text;

verus! {

/// HTTP methods.
#[derive(Clone, Copy, Debug, PartialEq, Eq, Structural)]
pub enum Method {
    /// HTTP DELETE method.
    Delete,
    /// HTTP GET method.
    Get,
    /// HTTP PATCH method.
    Patch,
    /// HTTP POST method.
    Post,
    /// HTTP PUT method.
    Put,
}

impl Method {
    /// The method whose variant is called `name`, if there is one.
    pub open spec fn named(name: Seq<char>) -> Option<Method> {
        if name == "Delete"@ {
            Some(Method::Delete)
        } else if name == "Get"@ {
            Some(Method::Get)
        } else if name == "Patch"@ {
            Some(Method::Patch)
        } else if name == "Post"@ {
            Some(Method::Post)
        } else if name == "Put"@ {
            Some(Method::Put)
        } else {
            None
        }
    }

    /// The method whose variant is called `name`, if there is one.
    pub fn from_name(name: &str) -> (method: Option<Method>)
        ensures
            method == Method::named(name@),
    {
        if same_text(name, "Delete") {
            Some(Method::Delete)
        } else if same_text(name, "Get") {
            Some(Method::Get)
        } else if same_text(name, "Patch") {
            Some(Method::Patch)
        } else if same_text(name, "Post") {
            Some(Method::Post)
        } else if same_text(name, "Put") {
            Some(Method::Put)
        } else {
            None
        }
    }

    /// Reads a method as an endpoint declares it, in any letter case: the
    /// text is brought into Pascal case and must then name a variant.
    pub fn parse(text: &str) -> (method: Option<Method>)
        ensures
            method == Method::named(case_converted(text@, CaseStyle::Pascal)),
    {
        let name = convert_case(text, CaseStyle::Pascal);
        Method::from_name(name.as_str())
    }

    /// The name of this method's variant.
    pub open spec fn name_of(self) -> Seq<char> {
        match self {
            Method::Delete => "Delete"@,
            Method::Get => "Get"@,
            Method::Patch => "Patch"@,
            Method::Post => "Post"@,
            Method::Put => "Put"@,
        }
    }

    /// The name of this method's variant.
    pub fn name(&self) -> (name: &'static str)
        ensures
            name@ == self.name_of(),
    {
        match self {
            Method::Delete => "Delete",
            Method::Get => "Get",
            Method::Patch => "Patch",
            Method::Post => "Post",
            Method::Put => "Put",
        }
    }
}

} // verus!
