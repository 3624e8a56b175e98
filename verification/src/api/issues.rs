//! Issues related methods.
//!
//! GitHub reference(s):
//! - <https://docs.github.com/en/rest/issues/issues>

use vstd::prelude::*;
use vstd::string::*;
use crate::api::{
    bool_opt, materialize, opt_bool, opt_text, opt_u16, opt_u8, optional_views, param_views,
    project, text_opt, u16_opt, u8_opt, Api, ApiExt, Method,
};
use crate::template::{count_from, placeholder_count};
use crate::text::texts;
use crate::value::{decimal, decimal_text};

verus! {

/// GitHub reference(s):
///  - <https://docs.github.com/en/rest/issues/issues#list-issues-assigned-to-the-authenticated-user>
#[derive(Debug, Clone, PartialEq, Eq)]
pub struct ListIssuesAssignedToTheAuthenticatedUser<'a> {
    pub filter: Option<&'a str>,
    pub state: Option<&'a str>,
    pub labels: Option<&'a str>,
    pub sort: Option<&'a str>,
    pub direction: Option<&'a str>,
    pub since: Option<&'a str>,
    pub collab: Option<bool>,
    pub orgs: Option<bool>,
    pub owned: Option<bool>,
    pub pulls: Option<bool>,
    pub per_page: Option<u8>,
    pub page: Option<u16>,
}

impl<'a> ListIssuesAssignedToTheAuthenticatedUser<'a> {
    /// What `new` builds: the given values, and every optional parameter
    /// absent.
    pub open spec fn initial() -> Self {
        ListIssuesAssignedToTheAuthenticatedUser {
            filter: None,
            state: None,
            labels: None,
            sort: None,
            direction: None,
            since: None,
            collab: None,
            orgs: None,
            owned: None,
            pulls: None,
            per_page: None,
            page: None,
        }
    }

    /// Build a [`ListIssuesAssignedToTheAuthenticatedUser`] instance.
    pub fn new() -> (request: Self)
        ensures
            request == Self::initial(),
    {
        ListIssuesAssignedToTheAuthenticatedUser {
            filter: None,
            state: None,
            labels: None,
            sort: None,
            direction: None,
            since: None,
            collab: None,
            orgs: None,
            owned: None,
            pulls: None,
            per_page: None,
            page: None,
        }
    }

    /// Set a new [`filter`](ListIssuesAssignedToTheAuthenticatedUser#structfield.filter).
    pub fn filter(self, filter: &'a str) -> (request: Self)
        ensures
            request == (ListIssuesAssignedToTheAuthenticatedUser { filter: Some(filter), ..self }),
    {
        ListIssuesAssignedToTheAuthenticatedUser { filter: Some(filter), ..self }
    }

    /// Set a new [`state`](ListIssuesAssignedToTheAuthenticatedUser#structfield.state).
    pub fn state(self, state: &'a str) -> (request: Self)
        ensures
            request == (ListIssuesAssignedToTheAuthenticatedUser { state: Some(state), ..self }),
    {
        ListIssuesAssignedToTheAuthenticatedUser { state: Some(state), ..self }
    }

    /// Set a new [`labels`](ListIssuesAssignedToTheAuthenticatedUser#structfield.labels).
    pub fn labels(self, labels: &'a str) -> (request: Self)
        ensures
            request == (ListIssuesAssignedToTheAuthenticatedUser { labels: Some(labels), ..self }),
    {
        ListIssuesAssignedToTheAuthenticatedUser { labels: Some(labels), ..self }
    }

    /// Set a new [`sort`](ListIssuesAssignedToTheAuthenticatedUser#structfield.sort).
    pub fn sort(self, sort: &'a str) -> (request: Self)
        ensures
            request == (ListIssuesAssignedToTheAuthenticatedUser { sort: Some(sort), ..self }),
    {
        ListIssuesAssignedToTheAuthenticatedUser { sort: Some(sort), ..self }
    }

    /// Set a new [`direction`](ListIssuesAssignedToTheAuthenticatedUser#structfield.direction).
    pub fn direction(self, direction: &'a str) -> (request: Self)
        ensures
            request == (ListIssuesAssignedToTheAuthenticatedUser {
                direction: Some(direction),
                ..self
            }),
    {
        ListIssuesAssignedToTheAuthenticatedUser { direction: Some(direction), ..self }
    }

    /// Set a new [`since`](ListIssuesAssignedToTheAuthenticatedUser#structfield.since).
    pub fn since(self, since: &'a str) -> (request: Self)
        ensures
            request == (ListIssuesAssignedToTheAuthenticatedUser { since: Some(since), ..self }),
    {
        ListIssuesAssignedToTheAuthenticatedUser { since: Some(since), ..self }
    }

    /// Set a new [`collab`](ListIssuesAssignedToTheAuthenticatedUser#structfield.collab).
    pub fn collab(self, collab: bool) -> (request: Self)
        ensures
            request == (ListIssuesAssignedToTheAuthenticatedUser { collab: Some(collab), ..self }),
    {
        ListIssuesAssignedToTheAuthenticatedUser { collab: Some(collab), ..self }
    }

    /// Set a new [`orgs`](ListIssuesAssignedToTheAuthenticatedUser#structfield.orgs).
    pub fn orgs(self, orgs: bool) -> (request: Self)
        ensures
            request == (ListIssuesAssignedToTheAuthenticatedUser { orgs: Some(orgs), ..self }),
    {
        ListIssuesAssignedToTheAuthenticatedUser { orgs: Some(orgs), ..self }
    }

    /// Set a new [`owned`](ListIssuesAssignedToTheAuthenticatedUser#structfield.owned).
    pub fn owned(self, owned: bool) -> (request: Self)
        ensures
            request == (ListIssuesAssignedToTheAuthenticatedUser { owned: Some(owned), ..self }),
    {
        ListIssuesAssignedToTheAuthenticatedUser { owned: Some(owned), ..self }
    }

    /// Set a new [`pulls`](ListIssuesAssignedToTheAuthenticatedUser#structfield.pulls).
    pub fn pulls(self, pulls: bool) -> (request: Self)
        ensures
            request == (ListIssuesAssignedToTheAuthenticatedUser { pulls: Some(pulls), ..self }),
    {
        ListIssuesAssignedToTheAuthenticatedUser { pulls: Some(pulls), ..self }
    }

    /// Set a new [`per_page`](ListIssuesAssignedToTheAuthenticatedUser#structfield.per_page).
    pub fn per_page(self, per_page: u8) -> (request: Self)
        ensures
            request == (ListIssuesAssignedToTheAuthenticatedUser {
                per_page: Some(per_page),
                ..self
            }),
    {
        ListIssuesAssignedToTheAuthenticatedUser { per_page: Some(per_page), ..self }
    }

    /// Set a new [`page`](ListIssuesAssignedToTheAuthenticatedUser#structfield.page).
    pub fn page(self, page: u16) -> (request: Self)
        ensures
            request == (ListIssuesAssignedToTheAuthenticatedUser { page: Some(page), ..self }),
    {
        ListIssuesAssignedToTheAuthenticatedUser { page: Some(page), ..self }
    }

    /// The URI template has one placeholder for each path parameter.
    pub proof fn lemma_template_fits(&self)
        ensures
            placeholder_count(self.uri_template()) == self.path_args().len(),
    {
        reveal_strlit("/issues");
        reveal_with_fuel(count_from, 8);
    }
}

impl<'a> Api for ListIssuesAssignedToTheAuthenticatedUser<'a> {
    const ACCEPT: &'static str = "application/vnd.github+json";

    open spec fn uri_template(&self) -> Seq<char> {
        "/issues"@
    }

    open spec fn path_args(&self) -> Seq<Seq<char>> {
        Seq::empty()
    }

    fn api(&self) -> (uri: String) {
        let args: Vec<String> = Vec::new();
        proof {
            self.lemma_template_fits();
            assert(texts(args@) =~= self.path_args());
        }
        materialize(Self::BASE_URI, "/issues", &args)
    }
}

impl<'a> ApiExt for ListIssuesAssignedToTheAuthenticatedUser<'a> {
    const METHOD: Method = Method::Get;

    open spec fn essential_params(&self) -> Seq<(Seq<char>, Seq<char>)> {
        Seq::empty()
    }

    open spec fn optional_params(&self) -> Seq<(Seq<char>, Option<Seq<char>>)> {
        seq![
            ("filter"@, opt_text(self.filter)),
            ("state"@, opt_text(self.state)),
            ("labels"@, opt_text(self.labels)),
            ("sort"@, opt_text(self.sort)),
            ("direction"@, opt_text(self.direction)),
            ("since"@, opt_text(self.since)),
            ("collab"@, opt_bool(self.collab)),
            ("orgs"@, opt_bool(self.orgs)),
            ("owned"@, opt_bool(self.owned)),
            ("pulls"@, opt_bool(self.pulls)),
            ("per_page"@, opt_u8(self.per_page)),
            ("page"@, opt_u16(self.page)),
        ]
    }

    fn payload_params(&self) -> (params: Vec<(&'static str, String)>) {
        let essential: Vec<(&'static str, String)> = Vec::new();
        let mut optional: Vec<(&'static str, Option<String>)> = Vec::new();
        optional.push(("filter", text_opt(self.filter)));
        optional.push(("state", text_opt(self.state)));
        optional.push(("labels", text_opt(self.labels)));
        optional.push(("sort", text_opt(self.sort)));
        optional.push(("direction", text_opt(self.direction)));
        optional.push(("since", text_opt(self.since)));
        optional.push(("collab", bool_opt(self.collab)));
        optional.push(("orgs", bool_opt(self.orgs)));
        optional.push(("owned", bool_opt(self.owned)));
        optional.push(("pulls", bool_opt(self.pulls)));
        optional.push(("per_page", u8_opt(self.per_page)));
        optional.push(("page", u16_opt(self.page)));
        proof {
            assert(param_views(essential@) =~= self.essential_params());
            assert(optional_views(optional@) =~= self.optional_params());
        }
        project(essential, &optional)
    }
}

/// Build a [`ListIssuesAssignedToTheAuthenticatedUser`] instance.
pub fn list_issues_assigned_to_the_authenticated_user<'a>(
) -> (request: ListIssuesAssignedToTheAuthenticatedUser<'a>)
    ensures
        request == ListIssuesAssignedToTheAuthenticatedUser::initial(),
{
    ListIssuesAssignedToTheAuthenticatedUser::new()
}

/// GitHub reference(s):
///  - <https://docs.github.com/en/rest/issues/issues#list-organization-issues-assigned-to-the-authenticated-user>
#[derive(Debug, Clone, PartialEq, Eq)]
pub struct ListOrganizationIssuesAssignedToTheAuthenticatedUser<'a> {
    pub org: &'a str,
    pub filter: Option<&'a str>,
    pub state: Option<&'a str>,
    pub labels: Option<&'a str>,
    pub sort: Option<&'a str>,
    pub direction: Option<&'a str>,
    pub since: Option<&'a str>,
    pub per_page: Option<u8>,
    pub page: Option<u16>,
}

impl<'a> ListOrganizationIssuesAssignedToTheAuthenticatedUser<'a> {
    /// What `new` builds: the given values, and every optional parameter
    /// absent.
    pub open spec fn initial(org: &'a str) -> Self {
        ListOrganizationIssuesAssignedToTheAuthenticatedUser {
            org,
            filter: None,
            state: None,
            labels: None,
            sort: None,
            direction: None,
            since: None,
            per_page: None,
            page: None,
        }
    }

    /// Build a [`ListOrganizationIssuesAssignedToTheAuthenticatedUser`] instance.
    pub fn new(org: &'a str) -> (request: Self)
        ensures
            request == Self::initial(org),
    {
        ListOrganizationIssuesAssignedToTheAuthenticatedUser {
            org,
            filter: None,
            state: None,
            labels: None,
            sort: None,
            direction: None,
            since: None,
            per_page: None,
            page: None,
        }
    }

    /// Set a new [`org`](ListOrganizationIssuesAssignedToTheAuthenticatedUser#structfield.org).
    pub fn org(self, org: &'a str) -> (request: Self)
        ensures
            request == (ListOrganizationIssuesAssignedToTheAuthenticatedUser { org, ..self }),
    {
        ListOrganizationIssuesAssignedToTheAuthenticatedUser { org, ..self }
    }

    /// Set a new [`filter`](ListOrganizationIssuesAssignedToTheAuthenticatedUser#structfield.filter).
    pub fn filter(self, filter: &'a str) -> (request: Self)
        ensures
            request == (ListOrganizationIssuesAssignedToTheAuthenticatedUser {
                filter: Some(filter),
                ..self
            }),
    {
        ListOrganizationIssuesAssignedToTheAuthenticatedUser { filter: Some(filter), ..self }
    }

    /// Set a new [`state`](ListOrganizationIssuesAssignedToTheAuthenticatedUser#structfield.state).
    pub fn state(self, state: &'a str) -> (request: Self)
        ensures
            request == (ListOrganizationIssuesAssignedToTheAuthenticatedUser {
                state: Some(state),
                ..self
            }),
    {
        ListOrganizationIssuesAssignedToTheAuthenticatedUser { state: Some(state), ..self }
    }

    /// Set a new [`labels`](ListOrganizationIssuesAssignedToTheAuthenticatedUser#structfield.labels).
    pub fn labels(self, labels: &'a str) -> (request: Self)
        ensures
            request == (ListOrganizationIssuesAssignedToTheAuthenticatedUser {
                labels: Some(labels),
                ..self
            }),
    {
        ListOrganizationIssuesAssignedToTheAuthenticatedUser { labels: Some(labels), ..self }
    }

    /// Set a new [`sort`](ListOrganizationIssuesAssignedToTheAuthenticatedUser#structfield.sort).
    pub fn sort(self, sort: &'a str) -> (request: Self)
        ensures
            request == (ListOrganizationIssuesAssignedToTheAuthenticatedUser {
                sort: Some(sort),
                ..self
            }),
    {
        ListOrganizationIssuesAssignedToTheAuthenticatedUser { sort: Some(sort), ..self }
    }

    /// Set a new [`direction`](ListOrganizationIssuesAssignedToTheAuthenticatedUser#structfield.direction).
    pub fn direction(self, direction: &'a str) -> (request: Self)
        ensures
            request == (ListOrganizationIssuesAssignedToTheAuthenticatedUser {
                direction: Some(direction),
                ..self
            }),
    {
        ListOrganizationIssuesAssignedToTheAuthenticatedUser { direction: Some(direction), ..self }
    }

    /// Set a new [`since`](ListOrganizationIssuesAssignedToTheAuthenticatedUser#structfield.since).
    pub fn since(self, since: &'a str) -> (request: Self)
        ensures
            request == (ListOrganizationIssuesAssignedToTheAuthenticatedUser {
                since: Some(since),
                ..self
            }),
    {
        ListOrganizationIssuesAssignedToTheAuthenticatedUser { since: Some(since), ..self }
    }

    /// Set a new [`per_page`](ListOrganizationIssuesAssignedToTheAuthenticatedUser#structfield.per_page).
    pub fn per_page(self, per_page: u8) -> (request: Self)
        ensures
            request == (ListOrganizationIssuesAssignedToTheAuthenticatedUser {
                per_page: Some(per_page),
                ..self
            }),
    {
        ListOrganizationIssuesAssignedToTheAuthenticatedUser { per_page: Some(per_page), ..self }
    }

    /// Set a new [`page`](ListOrganizationIssuesAssignedToTheAuthenticatedUser#structfield.page).
    pub fn page(self, page: u16) -> (request: Self)
        ensures
            request == (ListOrganizationIssuesAssignedToTheAuthenticatedUser {
                page: Some(page),
                ..self
            }),
    {
        ListOrganizationIssuesAssignedToTheAuthenticatedUser { page: Some(page), ..self }
    }

    /// The URI template has one placeholder for each path parameter.
    pub proof fn lemma_template_fits(&self)
        ensures
            placeholder_count(self.uri_template()) == self.path_args().len(),
    {
        reveal_strlit("/orgs/{}/issues");
        reveal_with_fuel(count_from, 16);
    }
}

impl<'a> Api for ListOrganizationIssuesAssignedToTheAuthenticatedUser<'a> {
    const ACCEPT: &'static str = "application/vnd.github+json";

    open spec fn uri_template(&self) -> Seq<char> {
        "/orgs/{}/issues"@
    }

    open spec fn path_args(&self) -> Seq<Seq<char>> {
        seq![self.org@]
    }

    fn api(&self) -> (uri: String) {
        let mut args: Vec<String> = Vec::new();
        args.push(String::from_str(self.org));
        proof {
            self.lemma_template_fits();
            assert(texts(args@) =~= self.path_args());
        }
        materialize(Self::BASE_URI, "/orgs/{}/issues", &args)
    }
}

impl<'a> ApiExt for ListOrganizationIssuesAssignedToTheAuthenticatedUser<'a> {
    const METHOD: Method = Method::Get;

    open spec fn essential_params(&self) -> Seq<(Seq<char>, Seq<char>)> {
        Seq::empty()
    }

    open spec fn optional_params(&self) -> Seq<(Seq<char>, Option<Seq<char>>)> {
        seq![
            ("filter"@, opt_text(self.filter)),
            ("state"@, opt_text(self.state)),
            ("labels"@, opt_text(self.labels)),
            ("sort"@, opt_text(self.sort)),
            ("direction"@, opt_text(self.direction)),
            ("since"@, opt_text(self.since)),
            ("per_page"@, opt_u8(self.per_page)),
            ("page"@, opt_u16(self.page)),
        ]
    }

    fn payload_params(&self) -> (params: Vec<(&'static str, String)>) {
        let essential: Vec<(&'static str, String)> = Vec::new();
        let mut optional: Vec<(&'static str, Option<String>)> = Vec::new();
        optional.push(("filter", text_opt(self.filter)));
        optional.push(("state", text_opt(self.state)));
        optional.push(("labels", text_opt(self.labels)));
        optional.push(("sort", text_opt(self.sort)));
        optional.push(("direction", text_opt(self.direction)));
        optional.push(("since", text_opt(self.since)));
        optional.push(("per_page", u8_opt(self.per_page)));
        optional.push(("page", u16_opt(self.page)));
        proof {
            assert(param_views(essential@) =~= self.essential_params());
            assert(optional_views(optional@) =~= self.optional_params());
        }
        project(essential, &optional)
    }
}

/// Build a [`ListOrganizationIssuesAssignedToTheAuthenticatedUser`] instance.
pub fn list_organization_issues_assigned_to_the_authenticated_user<'a>(
    org: &'a str,
) -> (request: ListOrganizationIssuesAssignedToTheAuthenticatedUser<'a>)
    ensures
        request == ListOrganizationIssuesAssignedToTheAuthenticatedUser::initial(org),
{
    ListOrganizationIssuesAssignedToTheAuthenticatedUser::new(org)
}

/// GitHub reference(s):
///  - <https://docs.github.com/en/rest/issues/issues#list-repository-issues>
#[derive(Debug, Clone, PartialEq, Eq)]
pub struct ListRepositoryIssues<'a> {
    pub owner: &'a str,
    pub repo: &'a str,
    pub milestone: Option<&'a str>,
    pub state: Option<&'a str>,
    pub assignee: Option<&'a str>,
    pub creator: Option<&'a str>,
    pub mentioned: Option<&'a str>,
    pub labels: Option<&'a str>,
    pub sort: Option<&'a str>,
    pub direction: Option<&'a str>,
    pub since: Option<&'a str>,
    pub per_page: Option<u8>,
    pub page: Option<u16>,
}

impl<'a> ListRepositoryIssues<'a> {
    /// What `new` builds: the given values, and every optional parameter
    /// absent.
    pub open spec fn initial(owner: &'a str, repo: &'a str) -> Self {
        ListRepositoryIssues {
            owner,
            repo,
            milestone: None,
            state: None,
            assignee: None,
            creator: None,
            mentioned: None,
            labels: None,
            sort: None,
            direction: None,
            since: None,
            per_page: None,
            page: None,
        }
    }

    /// Build a [`ListRepositoryIssues`] instance.
    pub fn new(owner: &'a str, repo: &'a str) -> (request: Self)
        ensures
            request == Self::initial(owner, repo),
    {
        ListRepositoryIssues {
            owner,
            repo,
            milestone: None,
            state: None,
            assignee: None,
            creator: None,
            mentioned: None,
            labels: None,
            sort: None,
            direction: None,
            since: None,
            per_page: None,
            page: None,
        }
    }

    /// Set a new [`owner`](ListRepositoryIssues#structfield.owner).
    pub fn owner(self, owner: &'a str) -> (request: Self)
        ensures
            request == (ListRepositoryIssues { owner, ..self }),
    {
        ListRepositoryIssues { owner, ..self }
    }

    /// Set a new [`repo`](ListRepositoryIssues#structfield.repo).
    pub fn repo(self, repo: &'a str) -> (request: Self)
        ensures
            request == (ListRepositoryIssues { repo, ..self }),
    {
        ListRepositoryIssues { repo, ..self }
    }

    /// Set a new [`milestone`](ListRepositoryIssues#structfield.milestone).
    pub fn milestone(self, milestone: &'a str) -> (request: Self)
        ensures
            request == (ListRepositoryIssues { milestone: Some(milestone), ..self }),
    {
        ListRepositoryIssues { milestone: Some(milestone), ..self }
    }

    /// Set a new [`state`](ListRepositoryIssues#structfield.state).
    pub fn state(self, state: &'a str) -> (request: Self)
        ensures
            request == (ListRepositoryIssues { state: Some(state), ..self }),
    {
        ListRepositoryIssues { state: Some(state), ..self }
    }

    /// Set a new [`assignee`](ListRepositoryIssues#structfield.assignee).
    pub fn assignee(self, assignee: &'a str) -> (request: Self)
        ensures
            request == (ListRepositoryIssues { assignee: Some(assignee), ..self }),
    {
        ListRepositoryIssues { assignee: Some(assignee), ..self }
    }

    /// Set a new [`creator`](ListRepositoryIssues#structfield.creator).
    pub fn creator(self, creator: &'a str) -> (request: Self)
        ensures
            request == (ListRepositoryIssues { creator: Some(creator), ..self }),
    {
        ListRepositoryIssues { creator: Some(creator), ..self }
    }

    /// Set a new [`mentioned`](ListRepositoryIssues#structfield.mentioned).
    pub fn mentioned(self, mentioned: &'a str) -> (request: Self)
        ensures
            request == (ListRepositoryIssues { mentioned: Some(mentioned), ..self }),
    {
        ListRepositoryIssues { mentioned: Some(mentioned), ..self }
    }

    /// Set a new [`labels`](ListRepositoryIssues#structfield.labels).
    pub fn labels(self, labels: &'a str) -> (request: Self)
        ensures
            request == (ListRepositoryIssues { labels: Some(labels), ..self }),
    {
        ListRepositoryIssues { labels: Some(labels), ..self }
    }

    /// Set a new [`sort`](ListRepositoryIssues#structfield.sort).
    pub fn sort(self, sort: &'a str) -> (request: Self)
        ensures
            request == (ListRepositoryIssues { sort: Some(sort), ..self }),
    {
        ListRepositoryIssues { sort: Some(sort), ..self }
    }

    /// Set a new [`direction`](ListRepositoryIssues#structfield.direction).
    pub fn direction(self, direction: &'a str) -> (request: Self)
        ensures
            request == (ListRepositoryIssues { direction: Some(direction), ..self }),
    {
        ListRepositoryIssues { direction: Some(direction), ..self }
    }

    /// Set a new [`since`](ListRepositoryIssues#structfield.since).
    pub fn since(self, since: &'a str) -> (request: Self)
        ensures
            request == (ListRepositoryIssues { since: Some(since), ..self }),
    {
        ListRepositoryIssues { since: Some(since), ..self }
    }

    /// Set a new [`per_page`](ListRepositoryIssues#structfield.per_page).
    pub fn per_page(self, per_page: u8) -> (request: Self)
        ensures
            request == (ListRepositoryIssues { per_page: Some(per_page), ..self }),
    {
        ListRepositoryIssues { per_page: Some(per_page), ..self }
    }

    /// Set a new [`page`](ListRepositoryIssues#structfield.page).
    pub fn page(self, page: u16) -> (request: Self)
        ensures
            request == (ListRepositoryIssues { page: Some(page), ..self }),
    {
        ListRepositoryIssues { page: Some(page), ..self }
    }

    /// The URI template has one placeholder for each path parameter.
    pub proof fn lemma_template_fits(&self)
        ensures
            placeholder_count(self.uri_template()) == self.path_args().len(),
    {
        reveal_strlit("/repos/{}/{}/issues");
        reveal_with_fuel(count_from, 20);
    }
}

impl<'a> Api for ListRepositoryIssues<'a> {
    const ACCEPT: &'static str = "application/vnd.github+json";

    open spec fn uri_template(&self) -> Seq<char> {
        "/repos/{}/{}/issues"@
    }

    open spec fn path_args(&self) -> Seq<Seq<char>> {
        seq![self.owner@, self.repo@]
    }

    fn api(&self) -> (uri: String) {
        let mut args: Vec<String> = Vec::new();
        args.push(String::from_str(self.owner));
        args.push(String::from_str(self.repo));
        proof {
            self.lemma_template_fits();
            assert(texts(args@) =~= self.path_args());
        }
        materialize(Self::BASE_URI, "/repos/{}/{}/issues", &args)
    }
}

impl<'a> ApiExt for ListRepositoryIssues<'a> {
    const METHOD: Method = Method::Get;

    open spec fn essential_params(&self) -> Seq<(Seq<char>, Seq<char>)> {
        Seq::empty()
    }

    open spec fn optional_params(&self) -> Seq<(Seq<char>, Option<Seq<char>>)> {
        seq![
            ("milestone"@, opt_text(self.milestone)),
            ("state"@, opt_text(self.state)),
            ("assignee"@, opt_text(self.assignee)),
            ("creator"@, opt_text(self.creator)),
            ("mentioned"@, opt_text(self.mentioned)),
            ("labels"@, opt_text(self.labels)),
            ("sort"@, opt_text(self.sort)),
            ("direction"@, opt_text(self.direction)),
            ("since"@, opt_text(self.since)),
            ("per_page"@, opt_u8(self.per_page)),
            ("page"@, opt_u16(self.page)),
        ]
    }

    fn payload_params(&self) -> (params: Vec<(&'static str, String)>) {
        let essential: Vec<(&'static str, String)> = Vec::new();
        let mut optional: Vec<(&'static str, Option<String>)> = Vec::new();
        optional.push(("milestone", text_opt(self.milestone)));
        optional.push(("state", text_opt(self.state)));
        optional.push(("assignee", text_opt(self.assignee)));
        optional.push(("creator", text_opt(self.creator)));
        optional.push(("mentioned", text_opt(self.mentioned)));
        optional.push(("labels", text_opt(self.labels)));
        optional.push(("sort", text_opt(self.sort)));
        optional.push(("direction", text_opt(self.direction)));
        optional.push(("since", text_opt(self.since)));
        optional.push(("per_page", u8_opt(self.per_page)));
        optional.push(("page", u16_opt(self.page)));
        proof {
            assert(param_views(essential@) =~= self.essential_params());
            assert(optional_views(optional@) =~= self.optional_params());
        }
        project(essential, &optional)
    }
}

/// Build a [`ListRepositoryIssues`] instance.
pub fn list_repository_issues<'a>(
    owner: &'a str,
    repo: &'a str,
) -> (request: ListRepositoryIssues<'a>)
    ensures
        request == ListRepositoryIssues::initial(owner, repo),
{
    ListRepositoryIssues::new(owner, repo)
}

/// GitHub reference(s):
///  - <https://docs.github.com/en/rest/issues/issues#create-an-issue>
#[derive(Debug, Clone, PartialEq, Eq)]
pub struct CreateAnIssue<'a> {
    pub owner: &'a str,
    pub repo: &'a str,
    pub title: &'a str,
    pub body: Option<&'a str>,
    pub milestone: Option<&'a str>,
    pub labels: Option<&'a str>,
    pub assignees: Option<&'a str>,
}

impl<'a> CreateAnIssue<'a> {
    /// What `new` builds: the given values, and every optional parameter
    /// absent.
    pub open spec fn initial(owner: &'a str, repo: &'a str, title: &'a str) -> Self {
        CreateAnIssue {
            owner,
            repo,
            title,
            body: None,
            milestone: None,
            labels: None,
            assignees: None,
        }
    }

    /// Build a [`CreateAnIssue`] instance.
    pub fn new(owner: &'a str, repo: &'a str, title: &'a str) -> (request: Self)
        ensures
            request == Self::initial(owner, repo, title),
    {
        CreateAnIssue {
            owner,
            repo,
            title,
            body: None,
            milestone: None,
            labels: None,
            assignees: None,
        }
    }

    /// Set a new [`owner`](CreateAnIssue#structfield.owner).
    pub fn owner(self, owner: &'a str) -> (request: Self)
        ensures
            request == (CreateAnIssue { owner, ..self }),
    {
        CreateAnIssue { owner, ..self }
    }

    /// Set a new [`repo`](CreateAnIssue#structfield.repo).
    pub fn repo(self, repo: &'a str) -> (request: Self)
        ensures
            request == (CreateAnIssue { repo, ..self }),
    {
        CreateAnIssue { repo, ..self }
    }

    /// Set a new [`title`](CreateAnIssue#structfield.title).
    pub fn title(self, title: &'a str) -> (request: Self)
        ensures
            request == (CreateAnIssue { title, ..self }),
    {
        CreateAnIssue { title, ..self }
    }

    /// Set a new [`body`](CreateAnIssue#structfield.body).
    pub fn body(self, body: &'a str) -> (request: Self)
        ensures
            request == (CreateAnIssue { body: Some(body), ..self }),
    {
        CreateAnIssue { body: Some(body), ..self }
    }

    /// Set a new [`milestone`](CreateAnIssue#structfield.milestone).
    pub fn milestone(self, milestone: &'a str) -> (request: Self)
        ensures
            request == (CreateAnIssue { milestone: Some(milestone), ..self }),
    {
        CreateAnIssue { milestone: Some(milestone), ..self }
    }

    /// Set a new [`labels`](CreateAnIssue#structfield.labels).
    pub fn labels(self, labels: &'a str) -> (request: Self)
        ensures
            request == (CreateAnIssue { labels: Some(labels), ..self }),
    {
        CreateAnIssue { labels: Some(labels), ..self }
    }

    /// Set a new [`assignees`](CreateAnIssue#structfield.assignees).
    pub fn assignees(self, assignees: &'a str) -> (request: Self)
        ensures
            request == (CreateAnIssue { assignees: Some(assignees), ..self }),
    {
        CreateAnIssue { assignees: Some(assignees), ..self }
    }

    /// The URI template has one placeholder for each path parameter.
    pub proof fn lemma_template_fits(&self)
        ensures
            placeholder_count(self.uri_template()) == self.path_args().len(),
    {
        reveal_strlit("/repos/{}/{}/issues");
        reveal_with_fuel(count_from, 20);
    }
}

impl<'a> Api for CreateAnIssue<'a> {
    const ACCEPT: &'static str = "application/vnd.github+json";

    open spec fn uri_template(&self) -> Seq<char> {
        "/repos/{}/{}/issues"@
    }

    open spec fn path_args(&self) -> Seq<Seq<char>> {
        seq![self.owner@, self.repo@]
    }

    fn api(&self) -> (uri: String) {
        let mut args: Vec<String> = Vec::new();
        args.push(String::from_str(self.owner));
        args.push(String::from_str(self.repo));
        proof {
            self.lemma_template_fits();
            assert(texts(args@) =~= self.path_args());
        }
        materialize(Self::BASE_URI, "/repos/{}/{}/issues", &args)
    }
}

impl<'a> ApiExt for CreateAnIssue<'a> {
    const METHOD: Method = Method::Post;

    open spec fn essential_params(&self) -> Seq<(Seq<char>, Seq<char>)> {
        seq![("title"@, self.title@)]
    }

    open spec fn optional_params(&self) -> Seq<(Seq<char>, Option<Seq<char>>)> {
        seq![
            ("body"@, opt_text(self.body)),
            ("milestone"@, opt_text(self.milestone)),
            ("labels"@, opt_text(self.labels)),
            ("assignees"@, opt_text(self.assignees)),
        ]
    }

    fn payload_params(&self) -> (params: Vec<(&'static str, String)>) {
        let mut essential: Vec<(&'static str, String)> = Vec::new();
        essential.push(("title", String::from_str(self.title)));
        let mut optional: Vec<(&'static str, Option<String>)> = Vec::new();
        optional.push(("body", text_opt(self.body)));
        optional.push(("milestone", text_opt(self.milestone)));
        optional.push(("labels", text_opt(self.labels)));
        optional.push(("assignees", text_opt(self.assignees)));
        proof {
            assert(param_views(essential@) =~= self.essential_params());
            assert(optional_views(optional@) =~= self.optional_params());
        }
        project(essential, &optional)
    }
}

/// Build a [`CreateAnIssue`] instance.
pub fn create_an_issue<'a>(
    owner: &'a str,
    repo: &'a str,
    title: &'a str,
) -> (request: CreateAnIssue<'a>)
    ensures
        request == CreateAnIssue::initial(owner, repo, title),
{
    CreateAnIssue::new(owner, repo, title)
}

/// GitHub reference(s):
///  - <https://docs.github.com/en/rest/issues/issues#get-an-issue>
#[derive(Debug, Clone, PartialEq, Eq)]
pub struct GetAnIssue<'a> {
    pub owner: &'a str,
    pub repo: &'a str,
    pub issue_number: u32,
}

impl<'a> GetAnIssue<'a> {
    /// What `new` builds: the given values, and every optional parameter
    /// absent.
    pub open spec fn initial(owner: &'a str, repo: &'a str, issue_number: u32) -> Self {
        GetAnIssue {
            owner,
            repo,
            issue_number,
        }
    }

    /// Build a [`GetAnIssue`] instance.
    pub fn new(owner: &'a str, repo: &'a str, issue_number: u32) -> (request: Self)
        ensures
            request == Self::initial(owner, repo, issue_number),
    {
        GetAnIssue {
            owner,
            repo,
            issue_number,
        }
    }

    /// Set a new [`owner`](GetAnIssue#structfield.owner).
    pub fn owner(self, owner: &'a str) -> (request: Self)
        ensures
            request == (GetAnIssue { owner, ..self }),
    {
        GetAnIssue { owner, ..self }
    }

    /// Set a new [`repo`](GetAnIssue#structfield.repo).
    pub fn repo(self, repo: &'a str) -> (request: Self)
        ensures
            request == (GetAnIssue { repo, ..self }),
    {
        GetAnIssue { repo, ..self }
    }

    /// Set a new [`issue_number`](GetAnIssue#structfield.issue_number).
    pub fn issue_number(self, issue_number: u32) -> (request: Self)
        ensures
            request == (GetAnIssue { issue_number, ..self }),
    {
        GetAnIssue { issue_number, ..self }
    }

    /// The URI template has one placeholder for each path parameter.
    pub proof fn lemma_template_fits(&self)
        ensures
            placeholder_count(self.uri_template()) == self.path_args().len(),
    {
        reveal_strlit("/repos/{}/{}/issues/{}");
        reveal_with_fuel(count_from, 23);
    }
}

impl<'a> Api for GetAnIssue<'a> {
    const ACCEPT: &'static str = "application/vnd.github+json";

    open spec fn uri_template(&self) -> Seq<char> {
        "/repos/{}/{}/issues/{}"@
    }

    open spec fn path_args(&self) -> Seq<Seq<char>> {
        seq![self.owner@, self.repo@, decimal(self.issue_number as nat)]
    }

    fn api(&self) -> (uri: String) {
        let mut args: Vec<String> = Vec::new();
        args.push(String::from_str(self.owner));
        args.push(String::from_str(self.repo));
        args.push(decimal_text(self.issue_number));
        proof {
            self.lemma_template_fits();
            assert(texts(args@) =~= self.path_args());
        }
        materialize(Self::BASE_URI, "/repos/{}/{}/issues/{}", &args)
    }
}

impl<'a> ApiExt for GetAnIssue<'a> {
    const METHOD: Method = Method::Get;

    open spec fn essential_params(&self) -> Seq<(Seq<char>, Seq<char>)> {
        Seq::empty()
    }

    open spec fn optional_params(&self) -> Seq<(Seq<char>, Option<Seq<char>>)> {
        Seq::empty()
    }

    fn payload_params(&self) -> (params: Vec<(&'static str, String)>) {
        let essential: Vec<(&'static str, String)> = Vec::new();
        let optional: Vec<(&'static str, Option<String>)> = Vec::new();
        proof {
            assert(param_views(essential@) =~= self.essential_params());
            assert(optional_views(optional@) =~= self.optional_params());
        }
        project(essential, &optional)
    }
}

/// Build a [`GetAnIssue`] instance.
pub fn get_an_issue<'a>(
    owner: &'a str,
    repo: &'a str,
    issue_number: u32,
) -> (request: GetAnIssue<'a>)
    ensures
        request == GetAnIssue::initial(owner, repo, issue_number),
{
    GetAnIssue::new(owner, repo, issue_number)
}

/// GitHub reference(s):
///  - <https://docs.github.com/en/rest/issues/issues#update-an-issue>
#[derive(Debug, Clone, PartialEq, Eq)]
pub struct UpdateAnIssue<'a> {
    pub owner: &'a str,
    pub repo: &'a str,
    pub issue_number: u32,
    pub title: Option<&'a str>,
    pub body: Option<&'a str>,
    pub state: Option<&'a str>,
    pub state_reason: Option<&'a str>,
    pub milestone: Option<&'a str>,
    pub labels: Option<&'a str>,
    pub assignees: Option<&'a str>,
}

impl<'a> UpdateAnIssue<'a> {
    /// What `new` builds: the given values, and every optional parameter
    /// absent.
    pub open spec fn initial(owner: &'a str, repo: &'a str, issue_number: u32) -> Self {
        UpdateAnIssue {
            owner,
            repo,
            issue_number,
            title: None,
            body: None,
            state: None,
            state_reason: None,
            milestone: None,
            labels: None,
            assignees: None,
        }
    }

    /// Build a [`UpdateAnIssue`] instance.
    pub fn new(owner: &'a str, repo: &'a str, issue_number: u32) -> (request: Self)
        ensures
            request == Self::initial(owner, repo, issue_number),
    {
        UpdateAnIssue {
            owner,
            repo,
            issue_number,
            title: None,
            body: None,
            state: None,
            state_reason: None,
            milestone: None,
            labels: None,
            assignees: None,
        }
    }

    /// Set a new [`owner`](UpdateAnIssue#structfield.owner).
    pub fn owner(self, owner: &'a str) -> (request: Self)
        ensures
            request == (UpdateAnIssue { owner, ..self }),
    {
        UpdateAnIssue { owner, ..self }
    }

    /// Set a new [`repo`](UpdateAnIssue#structfield.repo).
    pub fn repo(self, repo: &'a str) -> (request: Self)
        ensures
            request == (UpdateAnIssue { repo, ..self }),
    {
        UpdateAnIssue { repo, ..self }
    }

    /// Set a new [`issue_number`](UpdateAnIssue#structfield.issue_number).
    pub fn issue_number(self, issue_number: u32) -> (request: Self)
        ensures
            request == (UpdateAnIssue { issue_number, ..self }),
    {
        UpdateAnIssue { issue_number, ..self }
    }

    /// Set a new [`title`](UpdateAnIssue#structfield.title).
    pub fn title(self, title: &'a str) -> (request: Self)
        ensures
            request == (UpdateAnIssue { title: Some(title), ..self }),
    {
        UpdateAnIssue { title: Some(title), ..self }
    }

    /// Set a new [`body`](UpdateAnIssue#structfield.body).
    pub fn body(self, body: &'a str) -> (request: Self)
        ensures
            request == (UpdateAnIssue { body: Some(body), ..self }),
    {
        UpdateAnIssue { body: Some(body), ..self }
    }

    /// Set a new [`state`](UpdateAnIssue#structfield.state).
    pub fn state(self, state: &'a str) -> (request: Self)
        ensures
            request == (UpdateAnIssue { state: Some(state), ..self }),
    {
        UpdateAnIssue { state: Some(state), ..self }
    }

    /// Set a new [`state_reason`](UpdateAnIssue#structfield.state_reason).
    pub fn state_reason(self, state_reason: &'a str) -> (request: Self)
        ensures
            request == (UpdateAnIssue { state_reason: Some(state_reason), ..self }),
    {
        UpdateAnIssue { state_reason: Some(state_reason), ..self }
    }

    /// Set a new [`milestone`](UpdateAnIssue#structfield.milestone).
    pub fn milestone(self, milestone: &'a str) -> (request: Self)
        ensures
            request == (UpdateAnIssue { milestone: Some(milestone), ..self }),
    {
        UpdateAnIssue { milestone: Some(milestone), ..self }
    }

    /// Set a new [`labels`](UpdateAnIssue#structfield.labels).
    pub fn labels(self, labels: &'a str) -> (request: Self)
        ensures
            request == (UpdateAnIssue { labels: Some(labels), ..self }),
    {
        UpdateAnIssue { labels: Some(labels), ..self }
    }

    /// Set a new [`assignees`](UpdateAnIssue#structfield.assignees).
    pub fn assignees(self, assignees: &'a str) -> (request: Self)
        ensures
            request == (UpdateAnIssue { assignees: Some(assignees), ..self }),
    {
        UpdateAnIssue { assignees: Some(assignees), ..self }
    }

    /// The URI template has one placeholder for each path parameter.
    pub proof fn lemma_template_fits(&self)
        ensures
            placeholder_count(self.uri_template()) == self.path_args().len(),
    {
        reveal_strlit("/repos/{}/{}/issues/{}");
        reveal_with_fuel(count_from, 23);
    }
}

impl<'a> Api for UpdateAnIssue<'a> {
    const ACCEPT: &'static str = "application/vnd.github+json";

    open spec fn uri_template(&self) -> Seq<char> {
        "/repos/{}/{}/issues/{}"@
    }

    open spec fn path_args(&self) -> Seq<Seq<char>> {
        seq![self.owner@, self.repo@, decimal(self.issue_number as nat)]
    }

    fn api(&self) -> (uri: String) {
        let mut args: Vec<String> = Vec::new();
        args.push(String::from_str(self.owner));
        args.push(String::from_str(self.repo));
        args.push(decimal_text(self.issue_number));
        proof {
            self.lemma_template_fits();
            assert(texts(args@) =~= self.path_args());
        }
        materialize(Self::BASE_URI, "/repos/{}/{}/issues/{}", &args)
    }
}

impl<'a> ApiExt for UpdateAnIssue<'a> {
    const METHOD: Method = Method::Patch;

    open spec fn essential_params(&self) -> Seq<(Seq<char>, Seq<char>)> {
        Seq::empty()
    }

    open spec fn optional_params(&self) -> Seq<(Seq<char>, Option<Seq<char>>)> {
        seq![
            ("title"@, opt_text(self.title)),
            ("body"@, opt_text(self.body)),
            ("state"@, opt_text(self.state)),
            ("state_reason"@, opt_text(self.state_reason)),
            ("milestone"@, opt_text(self.milestone)),
            ("labels"@, opt_text(self.labels)),
            ("assignees"@, opt_text(self.assignees)),
        ]
    }

    fn payload_params(&self) -> (params: Vec<(&'static str, String)>) {
        let essential: Vec<(&'static str, String)> = Vec::new();
        let mut optional: Vec<(&'static str, Option<String>)> = Vec::new();
        optional.push(("title", text_opt(self.title)));
        optional.push(("body", text_opt(self.body)));
        optional.push(("state", text_opt(self.state)));
        optional.push(("state_reason", text_opt(self.state_reason)));
        optional.push(("milestone", text_opt(self.milestone)));
        optional.push(("labels", text_opt(self.labels)));
        optional.push(("assignees", text_opt(self.assignees)));
        proof {
            assert(param_views(essential@) =~= self.essential_params());
            assert(optional_views(optional@) =~= self.optional_params());
        }
        project(essential, &optional)
    }
}

/// Build a [`UpdateAnIssue`] instance.
pub fn update_an_issue<'a>(
    owner: &'a str,
    repo: &'a str,
    issue_number: u32,
) -> (request: UpdateAnIssue<'a>)
    ensures
        request == UpdateAnIssue::initial(owner, repo, issue_number),
{
    UpdateAnIssue::new(owner, repo, issue_number)
}

/// GitHub reference(s):
///  - <https://docs.github.com/en/rest/issues/issues#lock-an-issue>
#[derive(Debug, Clone, PartialEq, Eq)]
pub struct LockAnIssue<'a> {
    pub owner: &'a str,
    pub repo: &'a str,
    pub issue_number: u32,
    pub lock_reason: Option<&'a str>,
}

impl<'a> LockAnIssue<'a> {
    /// What `new` builds: the given values, and every optional parameter
    /// absent.
    pub open spec fn initial(owner: &'a str, repo: &'a str, issue_number: u32) -> Self {
        LockAnIssue {
            owner,
            repo,
            issue_number,
            lock_reason: None,
        }
    }

    /// Build a [`LockAnIssue`] instance.
    pub fn new(owner: &'a str, repo: &'a str, issue_number: u32) -> (request: Self)
        ensures
            request == Self::initial(owner, repo, issue_number),
    {
        LockAnIssue {
            owner,
            repo,
            issue_number,
            lock_reason: None,
        }
    }

    /// Set a new [`owner`](LockAnIssue#structfield.owner).
    pub fn owner(self, owner: &'a str) -> (request: Self)
        ensures
            request == (LockAnIssue { owner, ..self }),
    {
        LockAnIssue { owner, ..self }
    }

    /// Set a new [`repo`](LockAnIssue#structfield.repo).
    pub fn repo(self, repo: &'a str) -> (request: Self)
        ensures
            request == (LockAnIssue { repo, ..self }),
    {
        LockAnIssue { repo, ..self }
    }

    /// Set a new [`issue_number`](LockAnIssue#structfield.issue_number).
    pub fn issue_number(self, issue_number: u32) -> (request: Self)
        ensures
            request == (LockAnIssue { issue_number, ..self }),
    {
        LockAnIssue { issue_number, ..self }
    }

    /// Set a new [`lock_reason`](LockAnIssue#structfield.lock_reason).
    pub fn lock_reason(self, lock_reason: &'a str) -> (request: Self)
        ensures
            request == (LockAnIssue { lock_reason: Some(lock_reason), ..self }),
    {
        LockAnIssue { lock_reason: Some(lock_reason), ..self }
    }

    /// The URI template has one placeholder for each path parameter.
    pub proof fn lemma_template_fits(&self)
        ensures
            placeholder_count(self.uri_template()) == self.path_args().len(),
    {
        reveal_strlit("/repos/{}/{}/issues/{}/lock");
        reveal_with_fuel(count_from, 28);
    }
}

impl<'a> Api for LockAnIssue<'a> {
    const ACCEPT: &'static str = "application/vnd.github+json";

    open spec fn uri_template(&self) -> Seq<char> {
        "/repos/{}/{}/issues/{}/lock"@
    }

    open spec fn path_args(&self) -> Seq<Seq<char>> {
        seq![self.owner@, self.repo@, decimal(self.issue_number as nat)]
    }

    fn api(&self) -> (uri: String) {
        let mut args: Vec<String> = Vec::new();
        args.push(String::from_str(self.owner));
        args.push(String::from_str(self.repo));
        args.push(decimal_text(self.issue_number));
        proof {
            self.lemma_template_fits();
            assert(texts(args@) =~= self.path_args());
        }
        materialize(Self::BASE_URI, "/repos/{}/{}/issues/{}/lock", &args)
    }
}

impl<'a> ApiExt for LockAnIssue<'a> {
    const METHOD: Method = Method::Put;

    open spec fn essential_params(&self) -> Seq<(Seq<char>, Seq<char>)> {
        Seq::empty()
    }

    open spec fn optional_params(&self) -> Seq<(Seq<char>, Option<Seq<char>>)> {
        seq![
            ("lock_reason"@, opt_text(self.lock_reason)),
        ]
    }

    fn payload_params(&self) -> (params: Vec<(&'static str, String)>) {
        let essential: Vec<(&'static str, String)> = Vec::new();
        let mut optional: Vec<(&'static str, Option<String>)> = Vec::new();
        optional.push(("lock_reason", text_opt(self.lock_reason)));
        proof {
            assert(param_views(essential@) =~= self.essential_params());
            assert(optional_views(optional@) =~= self.optional_params());
        }
        project(essential, &optional)
    }
}

/// Build a [`LockAnIssue`] instance.
pub fn lock_an_issue<'a>(
    owner: &'a str,
    repo: &'a str,
    issue_number: u32,
) -> (request: LockAnIssue<'a>)
    ensures
        request == LockAnIssue::initial(owner, repo, issue_number),
{
    LockAnIssue::new(owner, repo, issue_number)
}

/// GitHub reference(s):
///  - <https://docs.github.com/en/rest/issues/issues#unlock-an-issue>
#[derive(Debug, Clone, PartialEq, Eq)]
pub struct UnlockAnIssue<'a> {
    pub owner: &'a str,
    pub repo: &'a str,
    pub issue_number: u32,
}

impl<'a> UnlockAnIssue<'a> {
    /// What `new` builds: the given values, and every optional parameter
    /// absent.
    pub open spec fn initial(owner: &'a str, repo: &'a str, issue_number: u32) -> Self {
        UnlockAnIssue {
            owner,
            repo,
            issue_number,
        }
    }

    /// Build a [`UnlockAnIssue`] instance.
    pub fn new(owner: &'a str, repo: &'a str, issue_number: u32) -> (request: Self)
        ensures
            request == Self::initial(owner, repo, issue_number),
    {
        UnlockAnIssue {
            owner,
            repo,
            issue_number,
        }
    }

    /// Set a new [`owner`](UnlockAnIssue#structfield.owner).
    pub fn owner(self, owner: &'a str) -> (request: Self)
        ensures
            request == (UnlockAnIssue { owner, ..self }),
    {
        UnlockAnIssue { owner, ..self }
    }

    /// Set a new [`repo`](UnlockAnIssue#structfield.repo).
    pub fn repo(self, repo: &'a str) -> (request: Self)
        ensures
            request == (UnlockAnIssue { repo, ..self }),
    {
        UnlockAnIssue { repo, ..self }
    }

    /// Set a new [`issue_number`](UnlockAnIssue#structfield.issue_number).
    pub fn issue_number(self, issue_number: u32) -> (request: Self)
        ensures
            request == (UnlockAnIssue { issue_number, ..self }),
    {
        UnlockAnIssue { issue_number, ..self }
    }

    /// The URI template has one placeholder for each path parameter.
    pub proof fn lemma_template_fits(&self)
        ensures
            placeholder_count(self.uri_template()) == self.path_args().len(),
    {
        reveal_strlit("/repos/{}/{}/issues/{}/lock");
        reveal_with_fuel(count_from, 28);
    }
}

impl<'a> Api for UnlockAnIssue<'a> {
    const ACCEPT: &'static str = "application/vnd.github+json";

    open spec fn uri_template(&self) -> Seq<char> {
        "/repos/{}/{}/issues/{}/lock"@
    }

    open spec fn path_args(&self) -> Seq<Seq<char>> {
        seq![self.owner@, self.repo@, decimal(self.issue_number as nat)]
    }

    fn api(&self) -> (uri: String) {
        let mut args: Vec<String> = Vec::new();
        args.push(String::from_str(self.owner));
        args.push(String::from_str(self.repo));
        args.push(decimal_text(self.issue_number));
        proof {
            self.lemma_template_fits();
            assert(texts(args@) =~= self.path_args());
        }
        materialize(Self::BASE_URI, "/repos/{}/{}/issues/{}/lock", &args)
    }
}

impl<'a> ApiExt for UnlockAnIssue<'a> {
    const METHOD: Method = Method::Delete;

    open spec fn essential_params(&self) -> Seq<(Seq<char>, Seq<char>)> {
        Seq::empty()
    }

    open spec fn optional_params(&self) -> Seq<(Seq<char>, Option<Seq<char>>)> {
        Seq::empty()
    }

    fn payload_params(&self) -> (params: Vec<(&'static str, String)>) {
        let essential: Vec<(&'static str, String)> = Vec::new();
        let optional: Vec<(&'static str, Option<String>)> = Vec::new();
        proof {
            assert(param_views(essential@) =~= self.essential_params());
            assert(optional_views(optional@) =~= self.optional_params());
        }
        project(essential, &optional)
    }
}

/// Build a [`UnlockAnIssue`] instance.
pub fn unlock_an_issue<'a>(
    owner: &'a str,
    repo: &'a str,
    issue_number: u32,
) -> (request: UnlockAnIssue<'a>)
    ensures
        request == UnlockAnIssue::initial(owner, repo, issue_number),
{
    UnlockAnIssue::new(owner, repo, issue_number)
}

/// GitHub reference(s):
///  - <https://docs.github.com/en/rest/issues/issues#list-user-account-issues-assigned-to-the-authenticated-user>
#[derive(Debug, Clone, PartialEq, Eq)]
pub struct ListUserAccountIssuesAssignedToTheAuthenticatedUser<'a> {
    pub filter: Option<&'a str>,
    pub state: Option<&'a str>,
    pub labels: Option<&'a str>,
    pub sort: Option<&'a str>,
    pub direction: Option<&'a str>,
    pub since: Option<&'a str>,
    pub per_page: Option<u8>,
    pub page: Option<u16>,
}

impl<'a> ListUserAccountIssuesAssignedToTheAuthenticatedUser<'a> {
    /// What `new` builds: the given values, and every optional parameter
    /// absent.
    pub open spec fn initial() -> Self {
        ListUserAccountIssuesAssignedToTheAuthenticatedUser {
            filter: None,
            state: None,
            labels: None,
            sort: None,
            direction: None,
            since: None,
            per_page: None,
            page: None,
        }
    }

    /// Build a [`ListUserAccountIssuesAssignedToTheAuthenticatedUser`] instance.
    pub fn new() -> (request: Self)
        ensures
            request == Self::initial(),
    {
        ListUserAccountIssuesAssignedToTheAuthenticatedUser {
            filter: None,
            state: None,
            labels: None,
            sort: None,
            direction: None,
            since: None,
            per_page: None,
            page: None,
        }
    }

    /// Set a new [`filter`](ListUserAccountIssuesAssignedToTheAuthenticatedUser#structfield.filter).
    pub fn filter(self, filter: &'a str) -> (request: Self)
        ensures
            request == (ListUserAccountIssuesAssignedToTheAuthenticatedUser {
                filter: Some(filter),
                ..self
            }),
    {
        ListUserAccountIssuesAssignedToTheAuthenticatedUser { filter: Some(filter), ..self }
    }

    /// Set a new [`state`](ListUserAccountIssuesAssignedToTheAuthenticatedUser#structfield.state).
    pub fn state(self, state: &'a str) -> (request: Self)
        ensures
            request == (ListUserAccountIssuesAssignedToTheAuthenticatedUser {
                state: Some(state),
                ..self
            }),
    {
        ListUserAccountIssuesAssignedToTheAuthenticatedUser { state: Some(state), ..self }
    }

    /// Set a new [`labels`](ListUserAccountIssuesAssignedToTheAuthenticatedUser#structfield.labels).
    pub fn labels(self, labels: &'a str) -> (request: Self)
        ensures
            request == (ListUserAccountIssuesAssignedToTheAuthenticatedUser {
                labels: Some(labels),
                ..self
            }),
    {
        ListUserAccountIssuesAssignedToTheAuthenticatedUser { labels: Some(labels), ..self }
    }

    /// Set a new [`sort`](ListUserAccountIssuesAssignedToTheAuthenticatedUser#structfield.sort).
    pub fn sort(self, sort: &'a str) -> (request: Self)
        ensures
            request == (ListUserAccountIssuesAssignedToTheAuthenticatedUser {
                sort: Some(sort),
                ..self
            }),
    {
        ListUserAccountIssuesAssignedToTheAuthenticatedUser { sort: Some(sort), ..self }
    }

    /// Set a new [`direction`](ListUserAccountIssuesAssignedToTheAuthenticatedUser#structfield.direction).
    pub fn direction(self, direction: &'a str) -> (request: Self)
        ensures
            request == (ListUserAccountIssuesAssignedToTheAuthenticatedUser {
                direction: Some(direction),
                ..self
            }),
    {
        ListUserAccountIssuesAssignedToTheAuthenticatedUser { direction: Some(direction), ..self }
    }

    /// Set a new [`since`](ListUserAccountIssuesAssignedToTheAuthenticatedUser#structfield.since).
    pub fn since(self, since: &'a str) -> (request: Self)
        ensures
            request == (ListUserAccountIssuesAssignedToTheAuthenticatedUser {
                since: Some(since),
                ..self
            }),
    {
        ListUserAccountIssuesAssignedToTheAuthenticatedUser { since: Some(since), ..self }
    }

    /// Set a new [`per_page`](ListUserAccountIssuesAssignedToTheAuthenticatedUser#structfield.per_page).
    pub fn per_page(self, per_page: u8) -> (request: Self)
        ensures
            request == (ListUserAccountIssuesAssignedToTheAuthenticatedUser {
                per_page: Some(per_page),
                ..self
            }),
    {
        ListUserAccountIssuesAssignedToTheAuthenticatedUser { per_page: Some(per_page), ..self }
    }

    /// Set a new [`page`](ListUserAccountIssuesAssignedToTheAuthenticatedUser#structfield.page).
    pub fn page(self, page: u16) -> (request: Self)
        ensures
            request == (ListUserAccountIssuesAssignedToTheAuthenticatedUser {
                page: Some(page),
                ..self
            }),
    {
        ListUserAccountIssuesAssignedToTheAuthenticatedUser { page: Some(page), ..self }
    }

    /// The URI template has one placeholder for each path parameter.
    pub proof fn lemma_template_fits(&self)
        ensures
            placeholder_count(self.uri_template()) == self.path_args().len(),
    {
        reveal_strlit("/user/issues");
        reveal_with_fuel(count_from, 13);
    }
}

impl<'a> Api for ListUserAccountIssuesAssignedToTheAuthenticatedUser<'a> {
    const ACCEPT: &'static str = "application/vnd.github+json";

    open spec fn uri_template(&self) -> Seq<char> {
        "/user/issues"@
    }

    open spec fn path_args(&self) -> Seq<Seq<char>> {
        Seq::empty()
    }

    fn api(&self) -> (uri: String) {
        let args: Vec<String> = Vec::new();
        proof {
            self.lemma_template_fits();
            assert(texts(args@) =~= self.path_args());
        }
        materialize(Self::BASE_URI, "/user/issues", &args)
    }
}

impl<'a> ApiExt for ListUserAccountIssuesAssignedToTheAuthenticatedUser<'a> {
    const METHOD: Method = Method::Get;

    open spec fn essential_params(&self) -> Seq<(Seq<char>, Seq<char>)> {
        Seq::empty()
    }

    open spec fn optional_params(&self) -> Seq<(Seq<char>, Option<Seq<char>>)> {
        seq![
            ("filter"@, opt_text(self.filter)),
            ("state"@, opt_text(self.state)),
            ("labels"@, opt_text(self.labels)),
            ("sort"@, opt_text(self.sort)),
            ("direction"@, opt_text(self.direction)),
            ("since"@, opt_text(self.since)),
            ("per_page"@, opt_u8(self.per_page)),
            ("page"@, opt_u16(self.page)),
        ]
    }

    fn payload_params(&self) -> (params: Vec<(&'static str, String)>) {
        let essential: Vec<(&'static str, String)> = Vec::new();
        let mut optional: Vec<(&'static str, Option<String>)> = Vec::new();
        optional.push(("filter", text_opt(self.filter)));
        optional.push(("state", text_opt(self.state)));
        optional.push(("labels", text_opt(self.labels)));
        optional.push(("sort", text_opt(self.sort)));
        optional.push(("direction", text_opt(self.direction)));
        optional.push(("since", text_opt(self.since)));
        optional.push(("per_page", u8_opt(self.per_page)));
        optional.push(("page", u16_opt(self.page)));
        proof {
            assert(param_views(essential@) =~= self.essential_params());
            assert(optional_views(optional@) =~= self.optional_params());
        }
        project(essential, &optional)
    }
}

/// Build a [`ListUserAccountIssuesAssignedToTheAuthenticatedUser`] instance.
pub fn list_user_account_issues_assigned_to_the_authenticated_user<'a>(
) -> (request: ListUserAccountIssuesAssignedToTheAuthenticatedUser<'a>)
    ensures
        request == ListUserAccountIssuesAssignedToTheAuthenticatedUser::initial(),
{
    ListUserAccountIssuesAssignedToTheAuthenticatedUser::new()
}

} // verus!
