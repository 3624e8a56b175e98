//! GitHub API reference: https://docs.github.com/en/rest/reference/repos#list-releases

use vstd::prelude::*;
use vstd::string::*;
use crate::api::{opt_text, opt_u32, u32_opt};
use crate::method::Method;
use crate::request::base_uri;
use crate::text::opt_view;
use crate::util::{expanded, part_views, query_string, query_views, uri, with_queries};

verus! {

/// Lists the releases of a repository.
#[derive(Clone, Debug, Default)]
pub struct ListReleases {
    /// owner	string	path
    pub owner: String,
    /// repo	string	path
    pub repo: String,
    /// per_page	integer	query
    /// Results per page.
    pub per_page: Option<u32>,
    /// page	integer	query
    /// Page number of the results to fetch.
    pub page: Option<u32>,
}

impl ListReleases {
    /// The HTTP method of the request.
    pub const HTTP_METHOD: Method = Method::Get;

    /// The path of the request, with the names of the fields that fill it.
    pub const PATH: &'static str = "/repos/{owner}/{repo}/releases";

    /// Request's header `Accept`'s value.
    pub const ACCEPT: &'static str = "application/vnd.github.v3+json";

    /// The fields that fill the path, by name.
    pub open spec fn path_parts(self) -> Seq<(Seq<char>, Seq<char>)> {
        seq![("owner"@, self.owner@), ("repo"@, self.repo@)]
    }

    /// The fields that make up the query string, by name.
    pub open spec fn query_parts(self) -> Seq<(Seq<char>, Option<Seq<char>>)> {
        seq![("per_page"@, opt_u32(self.per_page)), ("page"@, opt_u32(self.page))]
    }

    /// The request's URL: the base URI, then the path with each named
    /// placeholder replaced by its field, then the query string of the
    /// fields that are present.
    pub fn build_uri(&self) -> (url: String)
        ensures
            url@ == with_queries(
                base_uri() + expanded(Self::PATH@, self.path_parts()),
                query_string(self.query_parts()),
            ),
    {
        let per_page = u32_opt(self.per_page);
        let page = u32_opt(self.page);
        let mut parts: Vec<(&str, &str)> = Vec::new();
        parts.push(("owner", self.owner.as_str()));
        parts.push(("repo", self.repo.as_str()));
        let mut items: Vec<(&str, Option<&str>)> = Vec::new();
        items.push(("per_page", borrowed(&per_page)));
        items.push(("page", borrowed(&page)));
        assert(part_views(parts@) =~= self.path_parts());
        assert(query_views(items@) =~= self.query_parts());
        uri(Self::PATH, &parts, &items)
    }

    /// The request has no body.
    pub fn build_body(&self) {
    }
}

/// A borrowed view of a string that may be absent.
fn borrowed(text: &Option<String>) -> (out: Option<&str>)
    ensures
        opt_text(out) == opt_view(*text),
{
    match text {
        Some(value) => Some(value.as_str()),
        None => None,
    }
}

} // verus!
