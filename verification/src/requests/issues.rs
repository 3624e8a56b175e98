//! GitHub API reference: https://docs.github.com/en/rest/reference/issues#create-an-issue-comment

use vstd::prelude::*;
use vstd::string::*;
use vstd::utf8::encode_utf8;
use crate::method::Method;
use crate::request::base_uri;
use crate::requests::{body_frame, comment_body, json_encoded, BodyError};
use crate::util::{api, expanded, part_views};

verus! {

/// Creates a comment on an issue.
#[derive(Clone, Debug, Default)]
pub struct CreateAnIssueComment {
    /// owner	string	path
    pub owner: String,
    /// repo	string	path
    pub repo: String,
    /// integer	path
    /// issue_number parameter
    pub issue_number: String,
    /// body	string	body
    /// Required. The contents of the comment.
    pub body: String,
}

impl CreateAnIssueComment {
    /// The HTTP method of the request.
    pub const HTTP_METHOD: Method = Method::Post;

    /// The path of the request, with the names of the fields that fill it.
    pub const PATH: &'static str = "/repos/{owner}/{repo}/issues/{issue_number}/comments";

    /// Request's header `Accept`'s value.
    pub const ACCEPT: &'static str = "application/vnd.github.v3+json";

    /// The fields that fill the path, by name.
    pub open spec fn path_parts(self) -> Seq<(Seq<char>, Seq<char>)> {
        seq![
            ("owner"@, self.owner@),
            ("repo"@, self.repo@),
            ("issue_number"@, self.issue_number@),
        ]
    }

    /// The request's URL: the base URI, then the path with each named
    /// placeholder replaced by its field.
    pub fn build_uri(&self) -> (uri: String)
        ensures
            uri@ == base_uri() + expanded(Self::PATH@, self.path_parts()),
    {
        let mut parts: Vec<(&str, &str)> = Vec::new();
        parts.push(("owner", self.owner.as_str()));
        parts.push(("repo", self.repo.as_str()));
        parts.push(("issue_number", self.issue_number.as_str()));
        assert(part_views(parts@) =~= self.path_parts());
        api(Self::PATH, &parts)
    }

    /// The request's body: a JSON object with the one member `body`. There
    /// is one exactly when the comment can be written as JSON.
    pub fn build_body(&self) -> (out: Result<Vec<u8>, BodyError>)
        ensures
            out is Ok <==> json_encoded(self.body@) is Some,
            out matches Ok(bytes) ==> bytes@ == encode_utf8(
                body_frame(json_encoded(self.body@)->0),
            ),
            out matches Err(error) ==> error == BodyError::Encoding,
    {
        comment_body(self.body.as_str())
    }
}

} // verus!
