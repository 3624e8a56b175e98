//! Commits related methods.
//!
//! GitHub reference(s):
//! - <https://docs.github.com/en/rest/commits/commits>

use vstd::prelude::*;
use vstd::string::*;
use crate::api::{
    materialize, opt_text, opt_u16, opt_u8, optional_views, param_views, project, text_opt, u16_opt,
    u8_opt, Api, ApiExt, Method,
};
use crate::template::{count_from, placeholder_count};
use crate::text::texts;

verus! {

/// GitHub reference(s):
///  - <https://docs.github.com/en/rest/commits/commits#list-commits>
#[derive(Debug, Clone, PartialEq, Eq)]
pub struct ListCommits<'a> {
    pub owner: &'a str,
    pub repo: &'a str,
    pub sha: Option<&'a str>,
    pub path: Option<&'a str>,
    pub author: Option<&'a str>,
    pub since: Option<&'a str>,
    pub until: Option<&'a str>,
    pub per_page: Option<u8>,
    pub page: Option<u16>,
}

impl<'a> ListCommits<'a> {
    /// What `new` builds: the given values, and every optional parameter
    /// absent.
    pub open spec fn initial(owner: &'a str, repo: &'a str) -> Self {
        ListCommits {
            owner,
            repo,
            sha: None,
            path: None,
            author: None,
            since: None,
            until: None,
            per_page: None,
            page: None,
        }
    }

    /// Build a [`ListCommits`] instance.
    pub fn new(owner: &'a str, repo: &'a str) -> (request: Self)
        ensures
            request == Self::initial(owner, repo),
    {
        ListCommits {
            owner,
            repo,
            sha: None,
            path: None,
            author: None,
            since: None,
            until: None,
            per_page: None,
            page: None,
        }
    }

    /// Set a new [`owner`](ListCommits#structfield.owner).
    pub fn owner(self, owner: &'a str) -> (request: Self)
        ensures
            request == (ListCommits { owner, ..self }),
    {
        ListCommits { owner, ..self }
    }

    /// Set a new [`repo`](ListCommits#structfield.repo).
    pub fn repo(self, repo: &'a str) -> (request: Self)
        ensures
            request == (ListCommits { repo, ..self }),
    {
        ListCommits { repo, ..self }
    }

    /// Set a new [`sha`](ListCommits#structfield.sha).
    pub fn sha(self, sha: &'a str) -> (request: Self)
        ensures
            request == (ListCommits { sha: Some(sha), ..self }),
    {
        ListCommits { sha: Some(sha), ..self }
    }

    /// Set a new [`path`](ListCommits#structfield.path).
    pub fn path(self, path: &'a str) -> (request: Self)
        ensures
            request == (ListCommits { path: Some(path), ..self }),
    {
        ListCommits { path: Some(path), ..self }
    }

    /// Set a new [`author`](ListCommits#structfield.author).
    pub fn author(self, author: &'a str) -> (request: Self)
        ensures
            request == (ListCommits { author: Some(author), ..self }),
    {
        ListCommits { author: Some(author), ..self }
    }

    /// Set a new [`since`](ListCommits#structfield.since).
    pub fn since(self, since: &'a str) -> (request: Self)
        ensures
            request == (ListCommits { since: Some(since), ..self }),
    {
        ListCommits { since: Some(since), ..self }
    }

    /// Set a new [`until`](ListCommits#structfield.until).
    pub fn until(self, until: &'a str) -> (request: Self)
        ensures
            request == (ListCommits { until: Some(until), ..self }),
    {
        ListCommits { until: Some(until), ..self }
    }

    /// Set a new [`per_page`](ListCommits#structfield.per_page).
    pub fn per_page(self, per_page: u8) -> (request: Self)
        ensures
            request == (ListCommits { per_page: Some(per_page), ..self }),
    {
        ListCommits { per_page: Some(per_page), ..self }
    }

    /// Set a new [`page`](ListCommits#structfield.page).
    pub fn page(self, page: u16) -> (request: Self)
        ensures
            request == (ListCommits { page: Some(page), ..self }),
    {
        ListCommits { page: Some(page), ..self }
    }

    /// The URI template has one placeholder for each path parameter.
    pub proof fn lemma_template_fits(&self)
        ensures
            placeholder_count(self.uri_template()) == self.path_args().len(),
    {
        reveal_strlit("/repos/{}/{}/commits");
        reveal_with_fuel(count_from, 21);
    }
}

impl<'a> Api for ListCommits<'a> {
    const ACCEPT: &'static str = "application/vnd.github+json";

    open spec fn uri_template(&self) -> Seq<char> {
        "/repos/{}/{}/commits"@
    }

    open spec fn path_args(&self) -> Seq<Seq<char>> {
        seq![self.owner@, self.repo@]
    }

    fn api(&self) -> (uri: String) {
        let mut args: Vec<String> = Vec::new();
        args.push(String::from_str(self.owner));
        args.push(String::from_str(self.repo));
        proof {
            self.lemma_template_fits();
            assert(texts(args@) =~= self.path_args());
        }
        materialize(Self::BASE_URI, "/repos/{}/{}/commits", &args)
    }
}

impl<'a> ApiExt for ListCommits<'a> {
    const METHOD: Method = Method::Get;

    open spec fn essential_params(&self) -> Seq<(Seq<char>, Seq<char>)> {
        Seq::empty()
    }

    open spec fn optional_params(&self) -> Seq<(Seq<char>, Option<Seq<char>>)> {
        seq![
            ("sha"@, opt_text(self.sha)),
            ("path"@, opt_text(self.path)),
            ("author"@, opt_text(self.author)),
            ("since"@, opt_text(self.since)),
            ("until"@, opt_text(self.until)),
            ("per_page"@, opt_u8(self.per_page)),
            ("page"@, opt_u16(self.page)),
        ]
    }

    fn payload_params(&self) -> (params: Vec<(&'static str, String)>) {
        let essential: Vec<(&'static str, String)> = Vec::new();
        let mut optional: Vec<(&'static str, Option<String>)> = Vec::new();
        optional.push(("sha", text_opt(self.sha)));
        optional.push(("path", text_opt(self.path)));
        optional.push(("author", text_opt(self.author)));
        optional.push(("since", text_opt(self.since)));
        optional.push(("until", text_opt(self.until)));
        optional.push(("per_page", u8_opt(self.per_page)));
        optional.push(("page", u16_opt(self.page)));
        proof {
            assert(param_views(essential@) =~= self.essential_params());
            assert(optional_views(optional@) =~= self.optional_params());
        }
        project(essential, &optional)
    }
}

/// Build a [`ListCommits`] instance.
pub fn list_commits<'a>(owner: &'a str, repo: &'a str) -> (request: ListCommits<'a>)
    ensures
        request == ListCommits::initial(owner, repo),
{
    ListCommits::new(owner, repo)
}

/// GitHub reference(s):
///  - <https://docs.github.com/en/rest/commits/commits#list-branches-for-head-commit>
#[derive(Debug, Clone, PartialEq, Eq)]
pub struct ListBranchesForHeadCommit<'a> {
    pub owner: &'a str,
    pub repo: &'a str,
    pub commit_sha: &'a str,
}

impl<'a> ListBranchesForHeadCommit<'a> {
    /// What `new` builds: the given values, and every optional parameter
    /// absent.
    pub open spec fn initial(owner: &'a str, repo: &'a str, commit_sha: &'a str) -> Self {
        ListBranchesForHeadCommit {
            owner,
            repo,
            commit_sha,
        }
    }

    /// Build a [`ListBranchesForHeadCommit`] instance.
    pub fn new(owner: &'a str, repo: &'a str, commit_sha: &'a str) -> (request: Self)
        ensures
            request == Self::initial(owner, repo, commit_sha),
    {
        ListBranchesForHeadCommit {
            owner,
            repo,
            commit_sha,
        }
    }

    /// Set a new [`owner`](ListBranchesForHeadCommit#structfield.owner).
    pub fn owner(self, owner: &'a str) -> (request: Self)
        ensures
            request == (ListBranchesForHeadCommit { owner, ..self }),
    {
        ListBranchesForHeadCommit { owner, ..self }
    }

    /// Set a new [`repo`](ListBranchesForHeadCommit#structfield.repo).
    pub fn repo(self, repo: &'a str) -> (request: Self)
        ensures
            request == (ListBranchesForHeadCommit { repo, ..self }),
    {
        ListBranchesForHeadCommit { repo, ..self }
    }

    /// Set a new [`commit_sha`](ListBranchesForHeadCommit#structfield.commit_sha).
    pub fn commit_sha(self, commit_sha: &'a str) -> (request: Self)
        ensures
            request == (ListBranchesForHeadCommit { commit_sha, ..self }),
    {
        ListBranchesForHeadCommit { commit_sha, ..self }
    }

    /// The URI template has one placeholder for each path parameter.
    pub proof fn lemma_template_fits(&self)
        ensures
            placeholder_count(self.uri_template()) == self.path_args().len(),
    {
        reveal_strlit("/repos/{}/{}/commits/{}/branches-where-head");
        reveal_with_fuel(count_from, 44);
    }
}

impl<'a> Api for ListBranchesForHeadCommit<'a> {
    const ACCEPT: &'static str = "application/vnd.github+json";

    open spec fn uri_template(&self) -> Seq<char> {
        "/repos/{}/{}/commits/{}/branches-where-head"@
    }

    open spec fn path_args(&self) -> Seq<Seq<char>> {
        seq![self.owner@, self.repo@, self.commit_sha@]
    }

    fn api(&self) -> (uri: String) {
        let mut args: Vec<String> = Vec::new();
        args.push(String::from_str(self.owner));
        args.push(String::from_str(self.repo));
        args.push(String::from_str(self.commit_sha));
        proof {
            self.lemma_template_fits();
            assert(texts(args@) =~= self.path_args());
        }
        materialize(Self::BASE_URI, "/repos/{}/{}/commits/{}/branches-where-head", &args)
    }
}

impl<'a> ApiExt for ListBranchesForHeadCommit<'a> {
    const METHOD: Method = Method::Get;

    open spec fn essential_params(&self) -> Seq<(Seq<char>, Seq<char>)> {
        Seq::empty()
    }

    open spec fn optional_params(&self) -> Seq<(Seq<char>, Option<Seq<char>>)> {
        Seq::empty()
    }

    fn payload_params(&self) -> (params: Vec<(&'static str, String)>) {
        let essential: Vec<(&'static str, String)> = Vec::new();
        let optional: Vec<(&'static str, Option<String>)> = Vec::new();
        proof {
            assert(param_views(essential@) =~= self.essential_params());
            assert(optional_views(optional@) =~= self.optional_params());
        }
        project(essential, &optional)
    }
}

/// Build a [`ListBranchesForHeadCommit`] instance.
pub fn list_branches_for_head_commit<'a>(
    owner: &'a str,
    repo: &'a str,
    commit_sha: &'a str,
) -> (request: ListBranchesForHeadCommit<'a>)
    ensures
        request == ListBranchesForHeadCommit::initial(owner, repo, commit_sha),
{
    ListBranchesForHeadCommit::new(owner, repo, commit_sha)
}

/// GitHub reference(s):
///  - <https://docs.github.com/en/rest/commits/commits#list-pull-requests-associated-with-a-commit>
#[derive(Debug, Clone, PartialEq, Eq)]
pub struct ListPullRequestsAssociatedWithACommit<'a> {
    pub owner: &'a str,
    pub repo: &'a str,
    pub commit_sha: &'a str,
    pub per_page: Option<u8>,
    pub page: Option<u16>,
}

impl<'a> ListPullRequestsAssociatedWithACommit<'a> {
    /// What `new` builds: the given values, and every optional parameter
    /// absent.
    pub open spec fn initial(owner: &'a str, repo: &'a str, commit_sha: &'a str) -> Self {
        ListPullRequestsAssociatedWithACommit {
            owner,
            repo,
            commit_sha,
            per_page: None,
            page: None,
        }
    }

    /// Build a [`ListPullRequestsAssociatedWithACommit`] instance.
    pub fn new(owner: &'a str, repo: &'a str, commit_sha: &'a str) -> (request: Self)
        ensures
            request == Self::initial(owner, repo, commit_sha),
    {
        ListPullRequestsAssociatedWithACommit {
            owner,
            repo,
            commit_sha,
            per_page: None,
            page: None,
        }
    }

    /// Set a new [`owner`](ListPullRequestsAssociatedWithACommit#structfield.owner).
    pub fn owner(self, owner: &'a str) -> (request: Self)
        ensures
            request == (ListPullRequestsAssociatedWithACommit { owner, ..self }),
    {
        ListPullRequestsAssociatedWithACommit { owner, ..self }
    }

    /// Set a new [`repo`](ListPullRequestsAssociatedWithACommit#structfield.repo).
    pub fn repo(self, repo: &'a str) -> (request: Self)
        ensures
            request == (ListPullRequestsAssociatedWithACommit { repo, ..self }),
    {
        ListPullRequestsAssociatedWithACommit { repo, ..self }
    }

    /// Set a new [`commit_sha`](ListPullRequestsAssociatedWithACommit#structfield.commit_sha).
    pub fn commit_sha(self, commit_sha: &'a str) -> (request: Self)
        ensures
            request == (ListPullRequestsAssociatedWithACommit { commit_sha, ..self }),
    {
        ListPullRequestsAssociatedWithACommit { commit_sha, ..self }
    }

    /// Set a new [`per_page`](ListPullRequestsAssociatedWithACommit#structfield.per_page).
    pub fn per_page(self, per_page: u8) -> (request: Self)
        ensures
            request == (ListPullRequestsAssociatedWithACommit { per_page: Some(per_page), ..self }),
    {
        ListPullRequestsAssociatedWithACommit { per_page: Some(per_page), ..self }
    }

    /// Set a new [`page`](ListPullRequestsAssociatedWithACommit#structfield.page).
    pub fn page(self, page: u16) -> (request: Self)
        ensures
            request == (ListPullRequestsAssociatedWithACommit { page: Some(page), ..self }),
    {
        ListPullRequestsAssociatedWithACommit { page: Some(page), ..self }
    }

    /// The URI template has one placeholder for each path parameter.
    pub proof fn lemma_template_fits(&self)
        ensures
            placeholder_count(self.uri_template()) == self.path_args().len(),
    {
        reveal_strlit("/repos/{}/{}/commits/{}/pulls");
        reveal_with_fuel(count_from, 30);
    }
}

impl<'a> Api for ListPullRequestsAssociatedWithACommit<'a> {
    const ACCEPT: &'static str = "application/vnd.github+json";

    open spec fn uri_template(&self) -> Seq<char> {
        "/repos/{}/{}/commits/{}/pulls"@
    }

    open spec fn path_args(&self) -> Seq<Seq<char>> {
        seq![self.owner@, self.repo@, self.commit_sha@]
    }

    fn api(&self) -> (uri: String) {
        let mut args: Vec<String> = Vec::new();
        args.push(String::from_str(self.owner));
        args.push(String::from_str(self.repo));
        args.push(String::from_str(self.commit_sha));
        proof {
            self.lemma_template_fits();
            assert(texts(args@) =~= self.path_args());
        }
        materialize(Self::BASE_URI, "/repos/{}/{}/commits/{}/pulls", &args)
    }
}

impl<'a> ApiExt for ListPullRequestsAssociatedWithACommit<'a> {
    const METHOD: Method = Method::Get;

    open spec fn essential_params(&self) -> Seq<(Seq<char>, Seq<char>)> {
        Seq::empty()
    }

    open spec fn optional_params(&self) -> Seq<(Seq<char>, Option<Seq<char>>)> {
        seq![
            ("per_page"@, opt_u8(self.per_page)),
            ("page"@, opt_u16(self.page)),
        ]
    }

    fn payload_params(&self) -> (params: Vec<(&'static str, String)>) {
        let essential: Vec<(&'static str, String)> = Vec::new();
        let mut optional: Vec<(&'static str, Option<String>)> = Vec::new();
        optional.push(("per_page", u8_opt(self.per_page)));
        optional.push(("page", u16_opt(self.page)));
        proof {
            assert(param_views(essential@) =~= self.essential_params());
            assert(optional_views(optional@) =~= self.optional_params());
        }
        project(essential, &optional)
    }
}

/// Build a [`ListPullRequestsAssociatedWithACommit`] instance.
pub fn list_pull_requests_associated_with_a_commit<'a>(
    owner: &'a str,
    repo: &'a str,
    commit_sha: &'a str,
) -> (request: ListPullRequestsAssociatedWithACommit<'a>)
    ensures
        request == ListPullRequestsAssociatedWithACommit::initial(owner, repo, commit_sha),
{
    ListPullRequestsAssociatedWithACommit::new(owner, repo, commit_sha)
}

/// GitHub reference(s):
///  - <https://docs.github.com/en/rest/commits/commits#get-a-commit>
#[derive(Debug, Clone, PartialEq, Eq)]
pub struct GetACommit<'a> {
    pub owner: &'a str,
    pub repo: &'a str,
    pub ref_: &'a str,
    pub per_page: Option<u8>,
    pub page: Option<u16>,
}

impl<'a> GetACommit<'a> {
    /// What `new` builds: the given values, and every optional parameter
    /// absent.
    pub open spec fn initial(owner: &'a str, repo: &'a str, ref_: &'a str) -> Self {
        GetACommit {
            owner,
            repo,
            ref_,
            per_page: None,
            page: None,
        }
    }

    /// Build a [`GetACommit`] instance.
    pub fn new(owner: &'a str, repo: &'a str, ref_: &'a str) -> (request: Self)
        ensures
            request == Self::initial(owner, repo, ref_),
    {
        GetACommit {
            owner,
            repo,
            ref_,
            per_page: None,
            page: None,
        }
    }

    /// Set a new [`owner`](GetACommit#structfield.owner).
    pub fn owner(self, owner: &'a str) -> (request: Self)
        ensures
            request == (GetACommit { owner, ..self }),
    {
        GetACommit { owner, ..self }
    }

    /// Set a new [`repo`](GetACommit#structfield.repo).
    pub fn repo(self, repo: &'a str) -> (request: Self)
        ensures
            request == (GetACommit { repo, ..self }),
    {
        GetACommit { repo, ..self }
    }

    /// Set a new [`ref_`](GetACommit#structfield.ref_).
    pub fn ref_(self, ref_: &'a str) -> (request: Self)
        ensures
            request == (GetACommit { ref_, ..self }),
    {
        GetACommit { ref_, ..self }
    }

    /// Set a new [`per_page`](GetACommit#structfield.per_page).
    pub fn per_page(self, per_page: u8) -> (request: Self)
        ensures
            request == (GetACommit { per_page: Some(per_page), ..self }),
    {
        GetACommit { per_page: Some(per_page), ..self }
    }

    /// Set a new [`page`](GetACommit#structfield.page).
    pub fn page(self, page: u16) -> (request: Self)
        ensures
            request == (GetACommit { page: Some(page), ..self }),
    {
        GetACommit { page: Some(page), ..self }
    }

    /// The URI template has one placeholder for each path parameter.
    pub proof fn lemma_template_fits(&self)
        ensures
            placeholder_count(self.uri_template()) == self.path_args().len(),
    {
        reveal_strlit("/repos/{}/{}/commits/{}");
        reveal_with_fuel(count_from, 24);
    }
}

impl<'a> Api for GetACommit<'a> {
    const ACCEPT: &'static str = "application/vnd.github+json";

    open spec fn uri_template(&self) -> Seq<char> {
        "/repos/{}/{}/commits/{}"@
    }

    open spec fn path_args(&self) -> Seq<Seq<char>> {
        seq![self.owner@, self.repo@, self.ref_@]
    }

    fn api(&self) -> (uri: String) {
        let mut args: Vec<String> = Vec::new();
        args.push(String::from_str(self.owner));
        args.push(String::from_str(self.repo));
        args.push(String::from_str(self.ref_));
        proof {
            self.lemma_template_fits();
            assert(texts(args@) =~= self.path_args());
        }
        materialize(Self::BASE_URI, "/repos/{}/{}/commits/{}", &args)
    }
}

impl<'a> ApiExt for GetACommit<'a> {
    const METHOD: Method = Method::Get;

    open spec fn essential_params(&self) -> Seq<(Seq<char>, Seq<char>)> {
        Seq::empty()
    }

    open spec fn optional_params(&self) -> Seq<(Seq<char>, Option<Seq<char>>)> {
        seq![
            ("per_page"@, opt_u8(self.per_page)),
            ("page"@, opt_u16(self.page)),
        ]
    }

    fn payload_params(&self) -> (params: Vec<(&'static str, String)>) {
        let essential: Vec<(&'static str, String)> = Vec::new();
        let mut optional: Vec<(&'static str, Option<String>)> = Vec::new();
        optional.push(("per_page", u8_opt(self.per_page)));
        optional.push(("page", u16_opt(self.page)));
        proof {
            assert(param_views(essential@) =~= self.essential_params());
            assert(optional_views(optional@) =~= self.optional_params());
        }
        project(essential, &optional)
    }
}

/// Build a [`GetACommit`] instance.
pub fn get_a_commit<'a>(owner: &'a str, repo: &'a str, ref_: &'a str) -> (request: GetACommit<'a>)
    ensures
        request == GetACommit::initial(owner, repo, ref_),
{
    GetACommit::new(owner, repo, ref_)
}

/// GitHub reference(s):
///  - <https://docs.github.com/en/rest/commits/commits#compare-two-commits>
#[derive(Debug, Clone, PartialEq, Eq)]
pub struct CompareTwoCommits<'a> {
    pub owner: &'a str,
    pub repo: &'a str,
    pub basehead: &'a str,
    pub per_page: Option<u8>,
    pub page: Option<u16>,
}

impl<'a> CompareTwoCommits<'a> {
    /// What `new` builds: the given values, and every optional parameter
    /// absent.
    pub open spec fn initial(owner: &'a str, repo: &'a str, basehead: &'a str) -> Self {
        CompareTwoCommits {
            owner,
            repo,
            basehead,
            per_page: None,
            page: None,
        }
    }

    /// Build a [`CompareTwoCommits`] instance.
    pub fn new(owner: &'a str, repo: &'a str, basehead: &'a str) -> (request: Self)
        ensures
            request == Self::initial(owner, repo, basehead),
    {
        CompareTwoCommits {
            owner,
            repo,
            basehead,
            per_page: None,
            page: None,
        }
    }

    /// Set a new [`owner`](CompareTwoCommits#structfield.owner).
    pub fn owner(self, owner: &'a str) -> (request: Self)
        ensures
            request == (CompareTwoCommits { owner, ..self }),
    {
        CompareTwoCommits { owner, ..self }
    }

    /// Set a new [`repo`](CompareTwoCommits#structfield.repo).
    pub fn repo(self, repo: &'a str) -> (request: Self)
        ensures
            request == (CompareTwoCommits { repo, ..self }),
    {
        CompareTwoCommits { repo, ..self }
    }

    /// Set a new [`basehead`](CompareTwoCommits#structfield.basehead).
    pub fn basehead(self, basehead: &'a str) -> (request: Self)
        ensures
            request == (CompareTwoCommits { basehead, ..self }),
    {
        CompareTwoCommits { basehead, ..self }
    }

    /// Set a new [`per_page`](CompareTwoCommits#structfield.per_page).
    pub fn per_page(self, per_page: u8) -> (request: Self)
        ensures
            request == (CompareTwoCommits { per_page: Some(per_page), ..self }),
    {
        CompareTwoCommits { per_page: Some(per_page), ..self }
    }

    /// Set a new [`page`](CompareTwoCommits#structfield.page).
    pub fn page(self, page: u16) -> (request: Self)
        ensures
            request == (CompareTwoCommits { page: Some(page), ..self }),
    {
        CompareTwoCommits { page: Some(page), ..self }
    }

    /// The URI template has one placeholder for each path parameter.
    pub proof fn lemma_template_fits(&self)
        ensures
            placeholder_count(self.uri_template()) == self.path_args().len(),
    {
        reveal_strlit("/repos/{}/{}/compare/{}");
        reveal_with_fuel(count_from, 24);
    }
}

impl<'a> Api for CompareTwoCommits<'a> {
    const ACCEPT: &'static str = "application/vnd.github+json";

    open spec fn uri_template(&self) -> Seq<char> {
        "/repos/{}/{}/compare/{}"@
    }

    open spec fn path_args(&self) -> Seq<Seq<char>> {
        seq![self.owner@, self.repo@, self.basehead@]
    }

    fn api(&self) -> (uri: String) {
        let mut args: Vec<String> = Vec::new();
        args.push(String::from_str(self.owner));
        args.push(String::from_str(self.repo));
        args.push(String::from_str(self.basehead));
        proof {
            self.lemma_template_fits();
            assert(texts(args@) =~= self.path_args());
        }
        materialize(Self::BASE_URI, "/repos/{}/{}/compare/{}", &args)
    }
}

impl<'a> ApiExt for CompareTwoCommits<'a> {
    const METHOD: Method = Method::Get;

    open spec fn essential_params(&self) -> Seq<(Seq<char>, Seq<char>)> {
        Seq::empty()
    }

    open spec fn optional_params(&self) -> Seq<(Seq<char>, Option<Seq<char>>)> {
        seq![
            ("per_page"@, opt_u8(self.per_page)),
            ("page"@, opt_u16(self.page)),
        ]
    }

    fn payload_params(&self) -> (params: Vec<(&'static str, String)>) {
        let essential: Vec<(&'static str, String)> = Vec::new();
        let mut optional: Vec<(&'static str, Option<String>)> = Vec::new();
        optional.push(("per_page", u8_opt(self.per_page)));
        optional.push(("page", u16_opt(self.page)));
        proof {
            assert(param_views(essential@) =~= self.essential_params());
            assert(optional_views(optional@) =~= self.optional_params());
        }
        project(essential, &optional)
    }
}

/// Build a [`CompareTwoCommits`] instance.
pub fn compare_two_commits<'a>(
    owner: &'a str,
    repo: &'a str,
    basehead: &'a str,
) -> (request: CompareTwoCommits<'a>)
    ensures
        request == CompareTwoCommits::initial(owner, repo, basehead),
{
    CompareTwoCommits::new(owner, repo, basehead)
}

} // verus!
