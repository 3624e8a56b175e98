//! Commits related methods.
//!
//! GitHub reference(s):
//! - <https://docs.github.com/en/rest/repos>

use vstd::prelude::*;
use vstd::string::*;
use crate::api::{
    bool_opt, materialize, opt_bool, opt_text, opt_u16, opt_u32, opt_u8, optional_views,
    param_views, project, text_opt, u16_opt, u32_opt, u8_opt, Api, ApiExt, Method,
};
use crate::template::{count_from, placeholder_count};
use crate::text::texts;

verus! {

/// GitHub reference(s):
///  - <https://docs.github.com/en/rest/repos/repos#list-organization-repositories>
#[derive(Debug, Clone, PartialEq, Eq)]
pub struct ListOrganizationRepositories<'a> {
    pub org: &'a str,
    pub type_: Option<&'a str>,
    pub sort: Option<&'a str>,
    pub direction: Option<&'a str>,
    pub per_page: Option<u8>,
    pub page: Option<u16>,
}

impl<'a> ListOrganizationRepositories<'a> {
    /// What `new` builds: the given values, and every optional parameter
    /// absent.
    pub open spec fn initial(org: &'a str) -> Self {
        ListOrganizationRepositories {
            org,
            type_: None,
            sort: None,
            direction: None,
            per_page: None,
            page: None,
        }
    }

    /// Build a [`ListOrganizationRepositories`] instance.
    pub fn new(org: &'a str) -> (request: Self)
        ensures
            request == Self::initial(org),
    {
        ListOrganizationRepositories {
            org,
            type_: None,
            sort: None,
            direction: None,
            per_page: None,
            page: None,
        }
    }

    /// Set a new [`org`](ListOrganizationRepositories#structfield.org).
    pub fn org(self, org: &'a str) -> (request: Self)
        ensures
            request == (ListOrganizationRepositories { org, ..self }),
    {
        ListOrganizationRepositories { org, ..self }
    }

    /// Set a new [`type_`](ListOrganizationRepositories#structfield.type_).
    pub fn type_(self, type_: &'a str) -> (request: Self)
        ensures
            request == (ListOrganizationRepositories { type_: Some(type_), ..self }),
    {
        ListOrganizationRepositories { type_: Some(type_), ..self }
    }

    /// Set a new [`sort`](ListOrganizationRepositories#structfield.sort).
    pub fn sort(self, sort: &'a str) -> (request: Self)
        ensures
            request == (ListOrganizationRepositories { sort: Some(sort), ..self }),
    {
        ListOrganizationRepositories { sort: Some(sort), ..self }
    }

    /// Set a new [`direction`](ListOrganizationRepositories#structfield.direction).
    pub fn direction(self, direction: &'a str) -> (request: Self)
        ensures
            request == (ListOrganizationRepositories { direction: Some(direction), ..self }),
    {
        ListOrganizationRepositories { direction: Some(direction), ..self }
    }

    /// Set a new [`per_page`](ListOrganizationRepositories#structfield.per_page).
    pub fn per_page(self, per_page: u8) -> (request: Self)
        ensures
            request == (ListOrganizationRepositories { per_page: Some(per_page), ..self }),
    {
        ListOrganizationRepositories { per_page: Some(per_page), ..self }
    }

    /// Set a new [`page`](ListOrganizationRepositories#structfield.page).
    pub fn page(self, page: u16) -> (request: Self)
        ensures
            request == (ListOrganizationRepositories { page: Some(page), ..self }),
    {
        ListOrganizationRepositories { page: Some(page), ..self }
    }

    /// The URI template has one placeholder for each path parameter.
    pub proof fn lemma_template_fits(&self)
        ensures
            placeholder_count(self.uri_template()) == self.path_args().len(),
    {
        reveal_strlit("/orgs/{}/repos");
        reveal_with_fuel(count_from, 15);
    }
}

impl<'a> Api for ListOrganizationRepositories<'a> {
    const ACCEPT: &'static str = "application/vnd.github+json";

    open spec fn uri_template(&self) -> Seq<char> {
        "/orgs/{}/repos"@
    }

    open spec fn path_args(&self) -> Seq<Seq<char>> {
        seq![self.org@]
    }

    fn api(&self) -> (uri: String) {
        let mut args: Vec<String> = Vec::new();
        args.push(String::from_str(self.org));
        proof {
            self.lemma_template_fits();
            assert(texts(args@) =~= self.path_args());
        }
        materialize(Self::BASE_URI, "/orgs/{}/repos", &args)
    }
}

impl<'a> ApiExt for ListOrganizationRepositories<'a> {
    const METHOD: Method = Method::Get;

    open spec fn essential_params(&self) -> Seq<(Seq<char>, Seq<char>)> {
        Seq::empty()
    }

    open spec fn optional_params(&self) -> Seq<(Seq<char>, Option<Seq<char>>)> {
        seq![
            ("type"@, opt_text(self.type_)),
            ("sort"@, opt_text(self.sort)),
            ("direction"@, opt_text(self.direction)),
            ("per_page"@, opt_u8(self.per_page)),
            ("page"@, opt_u16(self.page)),
        ]
    }

    fn payload_params(&self) -> (params: Vec<(&'static str, String)>) {
        let essential: Vec<(&'static str, String)> = Vec::new();
        let mut optional: Vec<(&'static str, Option<String>)> = Vec::new();
        optional.push(("type", text_opt(self.type_)));
        optional.push(("sort", text_opt(self.sort)));
        optional.push(("direction", text_opt(self.direction)));
        optional.push(("per_page", u8_opt(self.per_page)));
        optional.push(("page", u16_opt(self.page)));
        proof {
            assert(param_views(essential@) =~= self.essential_params());
            assert(optional_views(optional@) =~= self.optional_params());
        }
        project(essential, &optional)
    }
}

/// Build a [`ListOrganizationRepositories`] instance.
pub fn list_organization_repositories<'a>(
    org: &'a str,
) -> (request: ListOrganizationRepositories<'a>)
    ensures
        request == ListOrganizationRepositories::initial(org),
{
    ListOrganizationRepositories::new(org)
}

/// GitHub reference(s):
///  - <https://docs.github.com/en/rest/repos/repos#create-an-organization-repository>
#[derive(Debug, Clone, PartialEq, Eq)]
pub struct CreateAnOrganizationRepository<'a> {
    pub org: &'a str,
    pub name: &'a str,
    pub description: Option<&'a str>,
    pub homepage: Option<&'a str>,
    pub private: Option<bool>,
    pub visibility: Option<&'a str>,
    pub has_issues: Option<bool>,
    pub has_projects: Option<bool>,
    pub has_wiki: Option<bool>,
    pub has_downloads: Option<bool>,
    pub is_template: Option<bool>,
    pub team_id: Option<u8>,
    pub auto_init: Option<bool>,
    pub gitignore_template: Option<&'a str>,
    pub license_template: Option<&'a str>,
    pub allow_squash_merge: Option<bool>,
    pub allow_rebase_merge: Option<bool>,
    pub allow_auto_merge: Option<bool>,
    pub delete_branch_on_merge: Option<bool>,
    pub use_squash_pr_title_as_default: Option<bool>,
    pub squash_merge_commit_title: Option<&'a str>,
    pub squash_merge_commit_message: Option<&'a str>,
    pub merge_commit_title: Option<&'a str>,
    pub merge_commit_message: Option<&'a str>,
}

impl<'a> CreateAnOrganizationRepository<'a> {
    /// What `new` builds: the given values, and every optional parameter
    /// absent.
    pub open spec fn initial(org: &'a str, name: &'a str) -> Self {
        CreateAnOrganizationRepository {
            org,
            name,
            description: None,
            homepage: None,
            private: None,
            visibility: None,
            has_issues: None,
            has_projects: None,
            has_wiki: None,
            has_downloads: None,
            is_template: None,
            team_id: None,
            auto_init: None,
            gitignore_template: None,
            license_template: None,
            allow_squash_merge: None,
            allow_rebase_merge: None,
            allow_auto_merge: None,
            delete_branch_on_merge: None,
            use_squash_pr_title_as_default: None,
            squash_merge_commit_title: None,
            squash_merge_commit_message: None,
            merge_commit_title: None,
            merge_commit_message: None,
        }
    }

    /// Build a [`CreateAnOrganizationRepository`] instance.
    pub fn new(org: &'a str, name: &'a str) -> (request: Self)
        ensures
            request == Self::initial(org, name),
    {
        CreateAnOrganizationRepository {
            org,
            name,
            description: None,
            homepage: None,
            private: None,
            visibility: None,
            has_issues: None,
            has_projects: None,
            has_wiki: None,
            has_downloads: None,
            is_template: None,
            team_id: None,
            auto_init: None,
            gitignore_template: None,
            license_template: None,
            allow_squash_merge: None,
            allow_rebase_merge: None,
            allow_auto_merge: None,
            delete_branch_on_merge: None,
            use_squash_pr_title_as_default: None,
            squash_merge_commit_title: None,
            squash_merge_commit_message: None,
            merge_commit_title: None,
            merge_commit_message: None,
        }
    }

    /// Set a new [`org`](CreateAnOrganizationRepository#structfield.org).
    pub fn org(self, org: &'a str) -> (request: Self)
        ensures
            request == (CreateAnOrganizationRepository { org, ..self }),
    {
        CreateAnOrganizationRepository { org, ..self }
    }

    /// Set a new [`name`](CreateAnOrganizationRepository#structfield.name).
    pub fn name(self, name: &'a str) -> (request: Self)
        ensures
            request == (CreateAnOrganizationRepository { name, ..self }),
    {
        CreateAnOrganizationRepository { name, ..self }
    }

    /// Set a new [`description`](CreateAnOrganizationRepository#structfield.description).
    pub fn description(self, description: &'a str) -> (request: Self)
        ensures
            request == (CreateAnOrganizationRepository { description: Some(description), ..self }),
    {
        CreateAnOrganizationRepository { description: Some(description), ..self }
    }

    /// Set a new [`homepage`](CreateAnOrganizationRepository#structfield.homepage).
    pub fn homepage(self, homepage: &'a str) -> (request: Self)
        ensures
            request == (CreateAnOrganizationRepository { homepage: Some(homepage), ..self }),
    {
        CreateAnOrganizationRepository { homepage: Some(homepage), ..self }
    }

    /// Set a new [`private`](CreateAnOrganizationRepository#structfield.private).
    pub fn private(self, private: bool) -> (request: Self)
        ensures
            request == (CreateAnOrganizationRepository { private: Some(private), ..self }),
    {
        CreateAnOrganizationRepository { private: Some(private), ..self }
    }

    /// Set a new [`visibility`](CreateAnOrganizationRepository#structfield.visibility).
    pub fn visibility(self, visibility: &'a str) -> (request: Self)
        ensures
            request == (CreateAnOrganizationRepository { visibility: Some(visibility), ..self }),
    {
        CreateAnOrganizationRepository { visibility: Some(visibility), ..self }
    }

    /// Set a new [`has_issues`](CreateAnOrganizationRepository#structfield.has_issues).
    pub fn has_issues(self, has_issues: bool) -> (request: Self)
        ensures
            request == (CreateAnOrganizationRepository { has_issues: Some(has_issues), ..self }),
    {
        CreateAnOrganizationRepository { has_issues: Some(has_issues), ..self }
    }

    /// Set a new [`has_projects`](CreateAnOrganizationRepository#structfield.has_projects).
    pub fn has_projects(self, has_projects: bool) -> (request: Self)
        ensures
            request == (CreateAnOrganizationRepository {
                has_projects: Some(has_projects),
                ..self
            }),
    {
        CreateAnOrganizationRepository { has_projects: Some(has_projects), ..self }
    }

    /// Set a new [`has_wiki`](CreateAnOrganizationRepository#structfield.has_wiki).
    pub fn has_wiki(self, has_wiki: bool) -> (request: Self)
        ensures
            request == (CreateAnOrganizationRepository { has_wiki: Some(has_wiki), ..self }),
    {
        CreateAnOrganizationRepository { has_wiki: Some(has_wiki), ..self }
    }

    /// Set a new [`has_downloads`](CreateAnOrganizationRepository#structfield.has_downloads).
    pub fn has_downloads(self, has_downloads: bool) -> (request: Self)
        ensures
            request == (CreateAnOrganizationRepository {
                has_downloads: Some(has_downloads),
                ..self
            }),
    {
        CreateAnOrganizationRepository { has_downloads: Some(has_downloads), ..self }
    }

    /// Set a new [`is_template`](CreateAnOrganizationRepository#structfield.is_template).
    pub fn is_template(self, is_template: bool) -> (request: Self)
        ensures
            request == (CreateAnOrganizationRepository { is_template: Some(is_template), ..self }),
    {
        CreateAnOrganizationRepository { is_template: Some(is_template), ..self }
    }

    /// Set a new [`team_id`](CreateAnOrganizationRepository#structfield.team_id).
    pub fn team_id(self, team_id: u8) -> (request: Self)
        ensures
            request == (CreateAnOrganizationRepository { team_id: Some(team_id), ..self }),
    {
        CreateAnOrganizationRepository { team_id: Some(team_id), ..self }
    }

    /// Set a new [`auto_init`](CreateAnOrganizationRepository#structfield.auto_init).
    pub fn auto_init(self, auto_init: bool) -> (request: Self)
        ensures
            request == (CreateAnOrganizationRepository { auto_init: Some(auto_init), ..self }),
    {
        CreateAnOrganizationRepository { auto_init: Some(auto_init), ..self }
    }

    /// Set a new [`gitignore_template`](CreateAnOrganizationRepository#structfield.gitignore_template).
    pub fn gitignore_template(self, gitignore_template: &'a str) -> (request: Self)
        ensures
            request == (CreateAnOrganizationRepository {
                gitignore_template: Some(gitignore_template),
                ..self
            }),
    {
        CreateAnOrganizationRepository { gitignore_template: Some(gitignore_template), ..self }
    }

    /// Set a new [`license_template`](CreateAnOrganizationRepository#structfield.license_template).
    pub fn license_template(self, license_template: &'a str) -> (request: Self)
        ensures
            request == (CreateAnOrganizationRepository {
                license_template: Some(license_template),
                ..self
            }),
    {
        CreateAnOrganizationRepository { license_template: Some(license_template), ..self }
    }

    /// Set a new [`allow_squash_merge`](CreateAnOrganizationRepository#structfield.allow_squash_merge).
    pub fn allow_squash_merge(self, allow_squash_merge: bool) -> (request: Self)
        ensures
            request == (CreateAnOrganizationRepository {
                allow_squash_merge: Some(allow_squash_merge),
                ..self
            }),
    {
        CreateAnOrganizationRepository { allow_squash_merge: Some(allow_squash_merge), ..self }
    }

    /// Set a new [`allow_rebase_merge`](CreateAnOrganizationRepository#structfield.allow_rebase_merge).
    pub fn allow_rebase_merge(self, allow_rebase_merge: bool) -> (request: Self)
        ensures
            request == (CreateAnOrganizationRepository {
                allow_rebase_merge: Some(allow_rebase_merge),
                ..self
            }),
    {
        CreateAnOrganizationRepository { allow_rebase_merge: Some(allow_rebase_merge), ..self }
    }

    /// Set a new [`allow_auto_merge`](CreateAnOrganizationRepository#structfield.allow_auto_merge).
    pub fn allow_auto_merge(self, allow_auto_merge: bool) -> (request: Self)
        ensures
            request == (CreateAnOrganizationRepository {
                allow_auto_merge: Some(allow_auto_merge),
                ..self
            }),
    {
        CreateAnOrganizationRepository { allow_auto_merge: Some(allow_auto_merge), ..self }
    }

    /// Set a new [`delete_branch_on_merge`](CreateAnOrganizationRepository#structfield.delete_branch_on_merge).
    pub fn delete_branch_on_merge(self, delete_branch_on_merge: bool) -> (request: Self)
        ensures
            request == (CreateAnOrganizationRepository {
                delete_branch_on_merge: Some(delete_branch_on_merge),
                ..self
            }),
    {
        CreateAnOrganizationRepository {
            delete_branch_on_merge: Some(delete_branch_on_merge),
            ..self
        }
    }

    /// Set a new [`use_squash_pr_title_as_default`](CreateAnOrganizationRepository#structfield.use_squash_pr_title_as_default).
    pub fn use_squash_pr_title_as_default(
        self,
        use_squash_pr_title_as_default: bool,
    ) -> (request: Self)
        ensures
            request == (CreateAnOrganizationRepository {
                use_squash_pr_title_as_default: Some(use_squash_pr_title_as_default),
                ..self
            }),
    {
        CreateAnOrganizationRepository {
            use_squash_pr_title_as_default: Some(use_squash_pr_title_as_default),
            ..self
        }
    }

    /// Set a new [`squash_merge_commit_title`](CreateAnOrganizationRepository#structfield.squash_merge_commit_title).
    pub fn squash_merge_commit_title(self, squash_merge_commit_title: &'a str) -> (request: Self)
        ensures
            request == (CreateAnOrganizationRepository {
                squash_merge_commit_title: Some(squash_merge_commit_title),
                ..self
            }),
    {
        CreateAnOrganizationRepository {
            squash_merge_commit_title: Some(squash_merge_commit_title),
            ..self
        }
    }

    /// Set a new [`squash_merge_commit_message`](CreateAnOrganizationRepository#structfield.squash_merge_commit_message).
    pub fn squash_merge_commit_message(
        self,
        squash_merge_commit_message: &'a str,
    ) -> (request: Self)
        ensures
            request == (CreateAnOrganizationRepository {
                squash_merge_commit_message: Some(squash_merge_commit_message),
                ..self
            }),
    {
        CreateAnOrganizationRepository {
            squash_merge_commit_message: Some(squash_merge_commit_message),
            ..self
        }
    }

    /// Set a new [`merge_commit_title`](CreateAnOrganizationRepository#structfield.merge_commit_title).
    pub fn merge_commit_title(self, merge_commit_title: &'a str) -> (request: Self)
        ensures
            request == (CreateAnOrganizationRepository {
                merge_commit_title: Some(merge_commit_title),
                ..self
            }),
    {
        CreateAnOrganizationRepository { merge_commit_title: Some(merge_commit_title), ..self }
    }

    /// Set a new [`merge_commit_message`](CreateAnOrganizationRepository#structfield.merge_commit_message).
    pub fn merge_commit_message(self, merge_commit_message: &'a str) -> (request: Self)
        ensures
            request == (CreateAnOrganizationRepository {
                merge_commit_message: Some(merge_commit_message),
                ..self
            }),
    {
        CreateAnOrganizationRepository { merge_commit_message: Some(merge_commit_message), ..self }
    }

    /// The URI template has one placeholder for each path parameter.
    pub proof fn lemma_template_fits(&self)
        ensures
            placeholder_count(self.uri_template()) == self.path_args().len(),
    {
        reveal_strlit("/orgs/{}/repos");
        reveal_with_fuel(count_from, 15);
    }
}

impl<'a> Api for CreateAnOrganizationRepository<'a> {
    const ACCEPT: &'static str = "application/vnd.github+json";

    open spec fn uri_template(&self) -> Seq<char> {
        "/orgs/{}/repos"@
    }

    open spec fn path_args(&self) -> Seq<Seq<char>> {
        seq![self.org@]
    }

    fn api(&self) -> (uri: String) {
        let mut args: Vec<String> = Vec::new();
        args.push(String::from_str(self.org));
        proof {
            self.lemma_template_fits();
            assert(texts(args@) =~= self.path_args());
        }
        materialize(Self::BASE_URI, "/orgs/{}/repos", &args)
    }
}

impl<'a> ApiExt for CreateAnOrganizationRepository<'a> {
    const METHOD: Method = Method::Post;

    open spec fn essential_params(&self) -> Seq<(Seq<char>, Seq<char>)> {
        seq![("name"@, self.name@)]
    }

    open spec fn optional_params(&self) -> Seq<(Seq<char>, Option<Seq<char>>)> {
        seq![
            ("description"@, opt_text(self.description)),
            ("homepage"@, opt_text(self.homepage)),
            ("private"@, opt_bool(self.private)),
            ("visibility"@, opt_text(self.visibility)),
            ("has_issues"@, opt_bool(self.has_issues)),
            ("has_projects"@, opt_bool(self.has_projects)),
            ("has_wiki"@, opt_bool(self.has_wiki)),
            ("has_downloads"@, opt_bool(self.has_downloads)),
            ("is_template"@, opt_bool(self.is_template)),
            ("team_id"@, opt_u8(self.team_id)),
            ("auto_init"@, opt_bool(self.auto_init)),
            ("gitignore_template"@, opt_text(self.gitignore_template)),
            ("license_template"@, opt_text(self.license_template)),
            ("allow_squash_merge"@, opt_bool(self.allow_squash_merge)),
            ("allow_rebase_merge"@, opt_bool(self.allow_rebase_merge)),
            ("allow_auto_merge"@, opt_bool(self.allow_auto_merge)),
            ("delete_branch_on_merge"@, opt_bool(self.delete_branch_on_merge)),
            ("use_squash_pr_title_as_default"@, opt_bool(self.use_squash_pr_title_as_default)),
            ("squash_merge_commit_title"@, opt_text(self.squash_merge_commit_title)),
            ("squash_merge_commit_message"@, opt_text(self.squash_merge_commit_message)),
            ("merge_commit_title"@, opt_text(self.merge_commit_title)),
            ("merge_commit_message"@, opt_text(self.merge_commit_message)),
        ]
    }

    fn payload_params(&self) -> (params: Vec<(&'static str, String)>) {
        let mut essential: Vec<(&'static str, String)> = Vec::new();
        essential.push(("name", String::from_str(self.name)));
        let mut optional: Vec<(&'static str, Option<String>)> = Vec::new();
        optional.push(("description", text_opt(self.description)));
        optional.push(("homepage", text_opt(self.homepage)));
        optional.push(("private", bool_opt(self.private)));
        optional.push(("visibility", text_opt(self.visibility)));
        optional.push(("has_issues", bool_opt(self.has_issues)));
        optional.push(("has_projects", bool_opt(self.has_projects)));
        optional.push(("has_wiki", bool_opt(self.has_wiki)));
        optional.push(("has_downloads", bool_opt(self.has_downloads)));
        optional.push(("is_template", bool_opt(self.is_template)));
        optional.push(("team_id", u8_opt(self.team_id)));
        optional.push(("auto_init", bool_opt(self.auto_init)));
        optional.push(("gitignore_template", text_opt(self.gitignore_template)));
        optional.push(("license_template", text_opt(self.license_template)));
        optional.push(("allow_squash_merge", bool_opt(self.allow_squash_merge)));
        optional.push(("allow_rebase_merge", bool_opt(self.allow_rebase_merge)));
        optional.push(("allow_auto_merge", bool_opt(self.allow_auto_merge)));
        optional.push(("delete_branch_on_merge", bool_opt(self.delete_branch_on_merge)));
        optional.push(
            ("use_squash_pr_title_as_default", bool_opt(self.use_squash_pr_title_as_default)),
        );
        optional.push(("squash_merge_commit_title", text_opt(self.squash_merge_commit_title)));
        optional.push(("squash_merge_commit_message", text_opt(self.squash_merge_commit_message)));
        optional.push(("merge_commit_title", text_opt(self.merge_commit_title)));
        optional.push(("merge_commit_message", text_opt(self.merge_commit_message)));
        proof {
            assert(param_views(essential@) =~= self.essential_params());
            assert(optional_views(optional@) =~= self.optional_params());
        }
        project(essential, &optional)
    }
}

/// Build a [`CreateAnOrganizationRepository`] instance.
pub fn create_an_organization_repository<'a>(
    org: &'a str,
    name: &'a str,
) -> (request: CreateAnOrganizationRepository<'a>)
    ensures
        request == CreateAnOrganizationRepository::initial(org, name),
{
    CreateAnOrganizationRepository::new(org, name)
}

/// GitHub reference(s):
///  - <https://docs.github.com/en/rest/repos/repos#get-a-repository>
#[derive(Debug, Clone, PartialEq, Eq)]
pub struct GetARepository<'a> {
    pub owner: &'a str,
    pub repo: &'a str,
}

impl<'a> GetARepository<'a> {
    /// What `new` builds: the given values, and every optional parameter
    /// absent.
    pub open spec fn initial(owner: &'a str, repo: &'a str) -> Self {
        GetARepository {
            owner,
            repo,
        }
    }

    /// Build a [`GetARepository`] instance.
    pub fn new(owner: &'a str, repo: &'a str) -> (request: Self)
        ensures
            request == Self::initial(owner, repo),
    {
        GetARepository {
            owner,
            repo,
        }
    }

    /// Set a new [`owner`](GetARepository#structfield.owner).
    pub fn owner(self, owner: &'a str) -> (request: Self)
        ensures
            request == (GetARepository { owner, ..self }),
    {
        GetARepository { owner, ..self }
    }

    /// Set a new [`repo`](GetARepository#structfield.repo).
    pub fn repo(self, repo: &'a str) -> (request: Self)
        ensures
            request == (GetARepository { repo, ..self }),
    {
        GetARepository { repo, ..self }
    }

    /// The URI template has one placeholder for each path parameter.
    pub proof fn lemma_template_fits(&self)
        ensures
            placeholder_count(self.uri_template()) == self.path_args().len(),
    {
        reveal_strlit("/repos/{}/{}");
        reveal_with_fuel(count_from, 13);
    }
}

impl<'a> Api for GetARepository<'a> {
    const ACCEPT: &'static str = "application/vnd.github+json";

    open spec fn uri_template(&self) -> Seq<char> {
        "/repos/{}/{}"@
    }

    open spec fn path_args(&self) -> Seq<Seq<char>> {
        seq![self.owner@, self.repo@]
    }

    fn api(&self) -> (uri: String) {
        let mut args: Vec<String> = Vec::new();
        args.push(String::from_str(self.owner));
        args.push(String::from_str(self.repo));
        proof {
            self.lemma_template_fits();
            assert(texts(args@) =~= self.path_args());
        }
        materialize(Self::BASE_URI, "/repos/{}/{}", &args)
    }
}

impl<'a> ApiExt for GetARepository<'a> {
    const METHOD: Method = Method::Get;

    open spec fn essential_params(&self) -> Seq<(Seq<char>, Seq<char>)> {
        Seq::empty()
    }

    open spec fn optional_params(&self) -> Seq<(Seq<char>, Option<Seq<char>>)> {
        Seq::empty()
    }

    fn payload_params(&self) -> (params: Vec<(&'static str, String)>) {
        let essential: Vec<(&'static str, String)> = Vec::new();
        let optional: Vec<(&'static str, Option<String>)> = Vec::new();
        proof {
            assert(param_views(essential@) =~= self.essential_params());
            assert(optional_views(optional@) =~= self.optional_params());
        }
        project(essential, &optional)
    }
}

/// Build a [`GetARepository`] instance.
pub fn get_a_repository<'a>(owner: &'a str, repo: &'a str) -> (request: GetARepository<'a>)
    ensures
        request == GetARepository::initial(owner, repo),
{
    GetARepository::new(owner, repo)
}

/// GitHub reference(s):
///  - <https://docs.github.com/en/rest/repos/repos#update-a-repository>
#[derive(Debug, Clone, PartialEq, Eq)]
pub struct UpdateARepository<'a> {
    pub owner: &'a str,
    pub repo: &'a str,
    pub name: Option<&'a str>,
    pub description: Option<&'a str>,
    pub homepage: Option<&'a str>,
    pub private: Option<bool>,
    pub visibility: Option<&'a str>,
    pub security_and_analysis: Option<&'a str>,
    pub has_issues: Option<bool>,
    pub has_projects: Option<bool>,
    pub has_wiki: Option<bool>,
    pub is_template: Option<bool>,
    pub default_branch: Option<&'a str>,
    pub allow_squash_merge: Option<bool>,
    pub allow_merge_commit: Option<bool>,
    pub allow_rebase_merge: Option<bool>,
    pub allow_auto_merge: Option<bool>,
    pub delete_branch_on_merge: Option<bool>,
    pub allow_update_branch: Option<bool>,
    pub use_squash_pr_title_as_default: Option<bool>,
    pub squash_merge_commit_title: Option<&'a str>,
    pub squash_merge_commit_message: Option<&'a str>,
    pub merge_commit_title: Option<&'a str>,
    pub merge_commit_message: Option<&'a str>,
    pub archived: Option<bool>,
    pub allow_forking: Option<bool>,
    pub web_commit_signoff_required: Option<bool>,
}

impl<'a> UpdateARepository<'a> {
    /// What `new` builds: the given values, and every optional parameter
    /// absent.
    pub open spec fn initial(owner: &'a str, repo: &'a str) -> Self {
        UpdateARepository {
            owner,
            repo,
            name: None,
            description: None,
            homepage: None,
            private: None,
            visibility: None,
            security_and_analysis: None,
            has_issues: None,
            has_projects: None,
            has_wiki: None,
            is_template: None,
            default_branch: None,
            allow_squash_merge: None,
            allow_merge_commit: None,
            allow_rebase_merge: None,
            allow_auto_merge: None,
            delete_branch_on_merge: None,
            allow_update_branch: None,
            use_squash_pr_title_as_default: None,
            squash_merge_commit_title: None,
            squash_merge_commit_message: None,
            merge_commit_title: None,
            merge_commit_message: None,
            archived: None,
            allow_forking: None,
            web_commit_signoff_required: None,
        }
    }

    /// Build a [`UpdateARepository`] instance.
    pub fn new(owner: &'a str, repo: &'a str) -> (request: Self)
        ensures
            request == Self::initial(owner, repo),
    {
        UpdateARepository {
            owner,
            repo,
            name: None,
            description: None,
            homepage: None,
            private: None,
            visibility: None,
            security_and_analysis: None,
            has_issues: None,
            has_projects: None,
            has_wiki: None,
            is_template: None,
            default_branch: None,
            allow_squash_merge: None,
            allow_merge_commit: None,
            allow_rebase_merge: None,
            allow_auto_merge: None,
            delete_branch_on_merge: None,
            allow_update_branch: None,
            use_squash_pr_title_as_default: None,
            squash_merge_commit_title: None,
            squash_merge_commit_message: None,
            merge_commit_title: None,
            merge_commit_message: None,
            archived: None,
            allow_forking: None,
            web_commit_signoff_required: None,
        }
    }

    /// Set a new [`owner`](UpdateARepository#structfield.owner).
    pub fn owner(self, owner: &'a str) -> (request: Self)
        ensures
            request == (UpdateARepository { owner, ..self }),
    {
        UpdateARepository { owner, ..self }
    }

    /// Set a new [`repo`](UpdateARepository#structfield.repo).
    pub fn repo(self, repo: &'a str) -> (request: Self)
        ensures
            request == (UpdateARepository { repo, ..self }),
    {
        UpdateARepository { repo, ..self }
    }

    /// Set a new [`name`](UpdateARepository#structfield.name).
    pub fn name(self, name: &'a str) -> (request: Self)
        ensures
            request == (UpdateARepository { name: Some(name), ..self }),
    {
        UpdateARepository { name: Some(name), ..self }
    }

    /// Set a new [`description`](UpdateARepository#structfield.description).
    pub fn description(self, description: &'a str) -> (request: Self)
        ensures
            request == (UpdateARepository { description: Some(description), ..self }),
    {
        UpdateARepository { description: Some(description), ..self }
    }

    /// Set a new [`homepage`](UpdateARepository#structfield.homepage).
    pub fn homepage(self, homepage: &'a str) -> (request: Self)
        ensures
            request == (UpdateARepository { homepage: Some(homepage), ..self }),
    {
        UpdateARepository { homepage: Some(homepage), ..self }
    }

    /// Set a new [`private`](UpdateARepository#structfield.private).
    pub fn private(self, private: bool) -> (request: Self)
        ensures
            request == (UpdateARepository { private: Some(private), ..self }),
    {
        UpdateARepository { private: Some(private), ..self }
    }

    /// Set a new [`visibility`](UpdateARepository#structfield.visibility).
    pub fn visibility(self, visibility: &'a str) -> (request: Self)
        ensures
            request == (UpdateARepository { visibility: Some(visibility), ..self }),
    {
        UpdateARepository { visibility: Some(visibility), ..self }
    }

    /// Set a new [`security_and_analysis`](UpdateARepository#structfield.security_and_analysis).
    pub fn security_and_analysis(self, security_and_analysis: &'a str) -> (request: Self)
        ensures
            request == (UpdateARepository {
                security_and_analysis: Some(security_and_analysis),
                ..self
            }),
    {
        UpdateARepository { security_and_analysis: Some(security_and_analysis), ..self }
    }

    /// Set a new [`has_issues`](UpdateARepository#structfield.has_issues).
    pub fn has_issues(self, has_issues: bool) -> (request: Self)
        ensures
            request == (UpdateARepository { has_issues: Some(has_issues), ..self }),
    {
        UpdateARepository { has_issues: Some(has_issues), ..self }
    }

    /// Set a new [`has_projects`](UpdateARepository#structfield.has_projects).
    pub fn has_projects(self, has_projects: bool) -> (request: Self)
        ensures
            request == (UpdateARepository { has_projects: Some(has_projects), ..self }),
    {
        UpdateARepository { has_projects: Some(has_projects), ..self }
    }

    /// Set a new [`has_wiki`](UpdateARepository#structfield.has_wiki).
    pub fn has_wiki(self, has_wiki: bool) -> (request: Self)
        ensures
            request == (UpdateARepository { has_wiki: Some(has_wiki), ..self }),
    {
        UpdateARepository { has_wiki: Some(has_wiki), ..self }
    }

    /// Set a new [`is_template`](UpdateARepository#structfield.is_template).
    pub fn is_template(self, is_template: bool) -> (request: Self)
        ensures
            request == (UpdateARepository { is_template: Some(is_template), ..self }),
    {
        UpdateARepository { is_template: Some(is_template), ..self }
    }

    /// Set a new [`default_branch`](UpdateARepository#structfield.default_branch).
    pub fn default_branch(self, default_branch: &'a str) -> (request: Self)
        ensures
            request == (UpdateARepository { default_branch: Some(default_branch), ..self }),
    {
        UpdateARepository { default_branch: Some(default_branch), ..self }
    }

    /// Set a new [`allow_squash_merge`](UpdateARepository#structfield.allow_squash_merge).
    pub fn allow_squash_merge(self, allow_squash_merge: bool) -> (request: Self)
        ensures
            request == (UpdateARepository { allow_squash_merge: Some(allow_squash_merge), ..self }),
    {
        UpdateARepository { allow_squash_merge: Some(allow_squash_merge), ..self }
    }

    /// Set a new [`allow_merge_commit`](UpdateARepository#structfield.allow_merge_commit).
    pub fn allow_merge_commit(self, allow_merge_commit: bool) -> (request: Self)
        ensures
            request == (UpdateARepository { allow_merge_commit: Some(allow_merge_commit), ..self }),
    {
        UpdateARepository { allow_merge_commit: Some(allow_merge_commit), ..self }
    }

    /// Set a new [`allow_rebase_merge`](UpdateARepository#structfield.allow_rebase_merge).
    pub fn allow_rebase_merge(self, allow_rebase_merge: bool) -> (request: Self)
        ensures
            request == (UpdateARepository { allow_rebase_merge: Some(allow_rebase_merge), ..self }),
    {
        UpdateARepository { allow_rebase_merge: Some(allow_rebase_merge), ..self }
    }

    /// Set a new [`allow_auto_merge`](UpdateARepository#structfield.allow_auto_merge).
    pub fn allow_auto_merge(self, allow_auto_merge: bool) -> (request: Self)
        ensures
            request == (UpdateARepository { allow_auto_merge: Some(allow_auto_merge), ..self }),
    {
        UpdateARepository { allow_auto_merge: Some(allow_auto_merge), ..self }
    }

    /// Set a new [`delete_branch_on_merge`](UpdateARepository#structfield.delete_branch_on_merge).
    pub fn delete_branch_on_merge(self, delete_branch_on_merge: bool) -> (request: Self)
        ensures
            request == (UpdateARepository {
                delete_branch_on_merge: Some(delete_branch_on_merge),
                ..self
            }),
    {
        UpdateARepository { delete_branch_on_merge: Some(delete_branch_on_merge), ..self }
    }

    /// Set a new [`allow_update_branch`](UpdateARepository#structfield.allow_update_branch).
    pub fn allow_update_branch(self, allow_update_branch: bool) -> (request: Self)
        ensures
            request == (UpdateARepository {
                allow_update_branch: Some(allow_update_branch),
                ..self
            }),
    {
        UpdateARepository { allow_update_branch: Some(allow_update_branch), ..self }
    }

    /// Set a new [`use_squash_pr_title_as_default`](UpdateARepository#structfield.use_squash_pr_title_as_default).
    pub fn use_squash_pr_title_as_default(
        self,
        use_squash_pr_title_as_default: bool,
    ) -> (request: Self)
        ensures
            request == (UpdateARepository {
                use_squash_pr_title_as_default: Some(use_squash_pr_title_as_default),
                ..self
            }),
    {
        UpdateARepository {
            use_squash_pr_title_as_default: Some(use_squash_pr_title_as_default),
            ..self
        }
    }

    /// Set a new [`squash_merge_commit_title`](UpdateARepository#structfield.squash_merge_commit_title).
    pub fn squash_merge_commit_title(self, squash_merge_commit_title: &'a str) -> (request: Self)
        ensures
            request == (UpdateARepository {
                squash_merge_commit_title: Some(squash_merge_commit_title),
                ..self
            }),
    {
        UpdateARepository { squash_merge_commit_title: Some(squash_merge_commit_title), ..self }
    }

    /// Set a new [`squash_merge_commit_message`](UpdateARepository#structfield.squash_merge_commit_message).
    pub fn squash_merge_commit_message(
        self,
        squash_merge_commit_message: &'a str,
    ) -> (request: Self)
        ensures
            request == (UpdateARepository {
                squash_merge_commit_message: Some(squash_merge_commit_message),
                ..self
            }),
    {
        UpdateARepository { squash_merge_commit_message: Some(squash_merge_commit_message), ..self }
    }

    /// Set a new [`merge_commit_title`](UpdateARepository#structfield.merge_commit_title).
    pub fn merge_commit_title(self, merge_commit_title: &'a str) -> (request: Self)
        ensures
            request == (UpdateARepository { merge_commit_title: Some(merge_commit_title), ..self }),
    {
        UpdateARepository { merge_commit_title: Some(merge_commit_title), ..self }
    }

    /// Set a new [`merge_commit_message`](UpdateARepository#structfield.merge_commit_message).
    pub fn merge_commit_message(self, merge_commit_message: &'a str) -> (request: Self)
        ensures
            request == (UpdateARepository {
                merge_commit_message: Some(merge_commit_message),
                ..self
            }),
    {
        UpdateARepository { merge_commit_message: Some(merge_commit_message), ..self }
    }

    /// Set a new [`archived`](UpdateARepository#structfield.archived).
    pub fn archived(self, archived: bool) -> (request: Self)
        ensures
            request == (UpdateARepository { archived: Some(archived), ..self }),
    {
        UpdateARepository { archived: Some(archived), ..self }
    }

    /// Set a new [`allow_forking`](UpdateARepository#structfield.allow_forking).
    pub fn allow_forking(self, allow_forking: bool) -> (request: Self)
        ensures
            request == (UpdateARepository { allow_forking: Some(allow_forking), ..self }),
    {
        UpdateARepository { allow_forking: Some(allow_forking), ..self }
    }

    /// Set a new [`web_commit_signoff_required`](UpdateARepository#structfield.web_commit_signoff_required).
    pub fn web_commit_signoff_required(self, web_commit_signoff_required: bool) -> (request: Self)
        ensures
            request == (UpdateARepository {
                web_commit_signoff_required: Some(web_commit_signoff_required),
                ..self
            }),
    {
        UpdateARepository { web_commit_signoff_required: Some(web_commit_signoff_required), ..self }
    }

    /// The URI template has one placeholder for each path parameter.
    pub proof fn lemma_template_fits(&self)
        ensures
            placeholder_count(self.uri_template()) == self.path_args().len(),
    {
        reveal_strlit("/repos/{}/{}");
        reveal_with_fuel(count_from, 13);
    }
}

impl<'a> Api for UpdateARepository<'a> {
    const ACCEPT: &'static str = "application/vnd.github+json";

    open spec fn uri_template(&self) -> Seq<char> {
        "/repos/{}/{}"@
    }

    open spec fn path_args(&self) -> Seq<Seq<char>> {
        seq![self.owner@, self.repo@]
    }

    fn api(&self) -> (uri: String) {
        let mut args: Vec<String> = Vec::new();
        args.push(String::from_str(self.owner));
        args.push(String::from_str(self.repo));
        proof {
            self.lemma_template_fits();
            assert(texts(args@) =~= self.path_args());
        }
        materialize(Self::BASE_URI, "/repos/{}/{}", &args)
    }
}

impl<'a> ApiExt for UpdateARepository<'a> {
    const METHOD: Method = Method::Patch;

    open spec fn essential_params(&self) -> Seq<(Seq<char>, Seq<char>)> {
        Seq::empty()
    }

    open spec fn optional_params(&self) -> Seq<(Seq<char>, Option<Seq<char>>)> {
        seq![
            ("name"@, opt_text(self.name)),
            ("description"@, opt_text(self.description)),
            ("homepage"@, opt_text(self.homepage)),
            ("private"@, opt_bool(self.private)),
            ("visibility"@, opt_text(self.visibility)),
            ("security_and_analysis"@, opt_text(self.security_and_analysis)),
            ("has_issues"@, opt_bool(self.has_issues)),
            ("has_projects"@, opt_bool(self.has_projects)),
            ("has_wiki"@, opt_bool(self.has_wiki)),
            ("is_template"@, opt_bool(self.is_template)),
            ("default_branch"@, opt_text(self.default_branch)),
            ("allow_squash_merge"@, opt_bool(self.allow_squash_merge)),
            ("allow_merge_commit"@, opt_bool(self.allow_merge_commit)),
            ("allow_rebase_merge"@, opt_bool(self.allow_rebase_merge)),
            ("allow_auto_merge"@, opt_bool(self.allow_auto_merge)),
            ("delete_branch_on_merge"@, opt_bool(self.delete_branch_on_merge)),
            ("allow_update_branch"@, opt_bool(self.allow_update_branch)),
            ("use_squash_pr_title_as_default"@, opt_bool(self.use_squash_pr_title_as_default)),
            ("squash_merge_commit_title"@, opt_text(self.squash_merge_commit_title)),
            ("squash_merge_commit_message"@, opt_text(self.squash_merge_commit_message)),
            ("merge_commit_title"@, opt_text(self.merge_commit_title)),
            ("merge_commit_message"@, opt_text(self.merge_commit_message)),
            ("archived"@, opt_bool(self.archived)),
            ("allow_forking"@, opt_bool(self.allow_forking)),
            ("web_commit_signoff_required"@, opt_bool(self.web_commit_signoff_required)),
        ]
    }

    fn payload_params(&self) -> (params: Vec<(&'static str, String)>) {
        let essential: Vec<(&'static str, String)> = Vec::new();
        let mut optional: Vec<(&'static str, Option<String>)> = Vec::new();
        optional.push(("name", text_opt(self.name)));
        optional.push(("description", text_opt(self.description)));
        optional.push(("homepage", text_opt(self.homepage)));
        optional.push(("private", bool_opt(self.private)));
        optional.push(("visibility", text_opt(self.visibility)));
        optional.push(("security_and_analysis", text_opt(self.security_and_analysis)));
        optional.push(("has_issues", bool_opt(self.has_issues)));
        optional.push(("has_projects", bool_opt(self.has_projects)));
        optional.push(("has_wiki", bool_opt(self.has_wiki)));
        optional.push(("is_template", bool_opt(self.is_template)));
        optional.push(("default_branch", text_opt(self.default_branch)));
        optional.push(("allow_squash_merge", bool_opt(self.allow_squash_merge)));
        optional.push(("allow_merge_commit", bool_opt(self.allow_merge_commit)));
        optional.push(("allow_rebase_merge", bool_opt(self.allow_rebase_merge)));
        optional.push(("allow_auto_merge", bool_opt(self.allow_auto_merge)));
        optional.push(("delete_branch_on_merge", bool_opt(self.delete_branch_on_merge)));
        optional.push(("allow_update_branch", bool_opt(self.allow_update_branch)));
        optional.push(
            ("use_squash_pr_title_as_default", bool_opt(self.use_squash_pr_title_as_default)),
        );
        optional.push(("squash_merge_commit_title", text_opt(self.squash_merge_commit_title)));
        optional.push(("squash_merge_commit_message", text_opt(self.squash_merge_commit_message)));
        optional.push(("merge_commit_title", text_opt(self.merge_commit_title)));
        optional.push(("merge_commit_message", text_opt(self.merge_commit_message)));
        optional.push(("archived", bool_opt(self.archived)));
        optional.push(("allow_forking", bool_opt(self.allow_forking)));
        optional.push(("web_commit_signoff_required", bool_opt(self.web_commit_signoff_required)));
        proof {
            assert(param_views(essential@) =~= self.essential_params());
            assert(optional_views(optional@) =~= self.optional_params());
        }
        project(essential, &optional)
    }
}

/// Build a [`UpdateARepository`] instance.
pub fn update_a_repository<'a>(owner: &'a str, repo: &'a str) -> (request: UpdateARepository<'a>)
    ensures
        request == UpdateARepository::initial(owner, repo),
{
    UpdateARepository::new(owner, repo)
}

/// GitHub reference(s):
///  - <https://docs.github.com/en/rest/repos/repos#delete-a-repository>
#[derive(Debug, Clone, PartialEq, Eq)]
pub struct DeleteARepository<'a> {
    pub owner: &'a str,
    pub repo: &'a str,
}

impl<'a> DeleteARepository<'a> {
    /// What `new` builds: the given values, and every optional parameter
    /// absent.
    pub open spec fn initial(owner: &'a str, repo: &'a str) -> Self {
        DeleteARepository {
            owner,
            repo,
        }
    }

    /// Build a [`DeleteARepository`] instance.
    pub fn new(owner: &'a str, repo: &'a str) -> (request: Self)
        ensures
            request == Self::initial(owner, repo),
    {
        DeleteARepository {
            owner,
            repo,
        }
    }

    /// Set a new [`owner`](DeleteARepository#structfield.owner).
    pub fn owner(self, owner: &'a str) -> (request: Self)
        ensures
            request == (DeleteARepository { owner, ..self }),
    {
        DeleteARepository { owner, ..self }
    }

    /// Set a new [`repo`](DeleteARepository#structfield.repo).
    pub fn repo(self, repo: &'a str) -> (request: Self)
        ensures
            request == (DeleteARepository { repo, ..self }),
    {
        DeleteARepository { repo, ..self }
    }

    /// The URI template has one placeholder for each path parameter.
    pub proof fn lemma_template_fits(&self)
        ensures
            placeholder_count(self.uri_template()) == self.path_args().len(),
    {
        reveal_strlit("/repos/{}/{}");
        reveal_with_fuel(count_from, 13);
    }
}

impl<'a> Api for DeleteARepository<'a> {
    const ACCEPT: &'static str = "application/vnd.github+json";

    open spec fn uri_template(&self) -> Seq<char> {
        "/repos/{}/{}"@
    }

    open spec fn path_args(&self) -> Seq<Seq<char>> {
        seq![self.owner@, self.repo@]
    }

    fn api(&self) -> (uri: String) {
        let mut args: Vec<String> = Vec::new();
        args.push(String::from_str(self.owner));
        args.push(String::from_str(self.repo));
        proof {
            self.lemma_template_fits();
            assert(texts(args@) =~= self.path_args());
        }
        materialize(Self::BASE_URI, "/repos/{}/{}", &args)
    }
}

impl<'a> ApiExt for DeleteARepository<'a> {
    const METHOD: Method = Method::Delete;

    open spec fn essential_params(&self) -> Seq<(Seq<char>, Seq<char>)> {
        Seq::empty()
    }

    open spec fn optional_params(&self) -> Seq<(Seq<char>, Option<Seq<char>>)> {
        Seq::empty()
    }

    fn payload_params(&self) -> (params: Vec<(&'static str, String)>) {
        let essential: Vec<(&'static str, String)> = Vec::new();
        let optional: Vec<(&'static str, Option<String>)> = Vec::new();
        proof {
            assert(param_views(essential@) =~= self.essential_params());
            assert(optional_views(optional@) =~= self.optional_params());
        }
        project(essential, &optional)
    }
}

/// Build a [`DeleteARepository`] instance.
pub fn delete_a_repository<'a>(owner: &'a str, repo: &'a str) -> (request: DeleteARepository<'a>)
    ensures
        request == DeleteARepository::initial(owner, repo),
{
    DeleteARepository::new(owner, repo)
}

/// GitHub reference(s):
///  - <https://docs.github.com/en/rest/repos/repos#enable-automated-security-fixes>
#[derive(Debug, Clone, PartialEq, Eq)]
pub struct EnableAutomatedSecurityFixes<'a> {
    pub owner: &'a str,
    pub repo: &'a str,
}

impl<'a> EnableAutomatedSecurityFixes<'a> {
    /// What `new` builds: the given values, and every optional parameter
    /// absent.
    pub open spec fn initial(owner: &'a str, repo: &'a str) -> Self {
        EnableAutomatedSecurityFixes {
            owner,
            repo,
        }
    }

    /// Build a [`EnableAutomatedSecurityFixes`] instance.
    pub fn new(owner: &'a str, repo: &'a str) -> (request: Self)
        ensures
            request == Self::initial(owner, repo),
    {
        EnableAutomatedSecurityFixes {
            owner,
            repo,
        }
    }

    /// Set a new [`owner`](EnableAutomatedSecurityFixes#structfield.owner).
    pub fn owner(self, owner: &'a str) -> (request: Self)
        ensures
            request == (EnableAutomatedSecurityFixes { owner, ..self }),
    {
        EnableAutomatedSecurityFixes { owner, ..self }
    }

    /// Set a new [`repo`](EnableAutomatedSecurityFixes#structfield.repo).
    pub fn repo(self, repo: &'a str) -> (request: Self)
        ensures
            request == (EnableAutomatedSecurityFixes { repo, ..self }),
    {
        EnableAutomatedSecurityFixes { repo, ..self }
    }

    /// The URI template has one placeholder for each path parameter.
    pub proof fn lemma_template_fits(&self)
        ensures
            placeholder_count(self.uri_template()) == self.path_args().len(),
    {
        reveal_strlit("/repos/{}/{}/automated-security-fixes");
        reveal_with_fuel(count_from, 38);
    }
}

impl<'a> Api for EnableAutomatedSecurityFixes<'a> {
    const ACCEPT: &'static str = "application/vnd.github+json";

    open spec fn uri_template(&self) -> Seq<char> {
        "/repos/{}/{}/automated-security-fixes"@
    }

    open spec fn path_args(&self) -> Seq<Seq<char>> {
        seq![self.owner@, self.repo@]
    }

    fn api(&self) -> (uri: String) {
        let mut args: Vec<String> = Vec::new();
        args.push(String::from_str(self.owner));
        args.push(String::from_str(self.repo));
        proof {
            self.lemma_template_fits();
            assert(texts(args@) =~= self.path_args());
        }
        materialize(Self::BASE_URI, "/repos/{}/{}/automated-security-fixes", &args)
    }
}

impl<'a> ApiExt for EnableAutomatedSecurityFixes<'a> {
    const METHOD: Method = Method::Put;

    open spec fn essential_params(&self) -> Seq<(Seq<char>, Seq<char>)> {
        Seq::empty()
    }

    open spec fn optional_params(&self) -> Seq<(Seq<char>, Option<Seq<char>>)> {
        Seq::empty()
    }

    fn payload_params(&self) -> (params: Vec<(&'static str, String)>) {
        let essential: Vec<(&'static str, String)> = Vec::new();
        let optional: Vec<(&'static str, Option<String>)> = Vec::new();
        proof {
            assert(param_views(essential@) =~= self.essential_params());
            assert(optional_views(optional@) =~= self.optional_params());
        }
        project(essential, &optional)
    }
}

/// Build a [`EnableAutomatedSecurityFixes`] instance.
pub fn enable_automated_security_fixes<'a>(
    owner: &'a str,
    repo: &'a str,
) -> (request: EnableAutomatedSecurityFixes<'a>)
    ensures
        request == EnableAutomatedSecurityFixes::initial(owner, repo),
{
    EnableAutomatedSecurityFixes::new(owner, repo)
}

/// GitHub reference(s):
///  - <https://docs.github.com/en/rest/repos/repos#delete-automated-security-fixes>
#[derive(Debug, Clone, PartialEq, Eq)]
pub struct DeleteAutomatedSecurityFixes<'a> {
    pub owner: &'a str,
    pub repo: &'a str,
}

impl<'a> DeleteAutomatedSecurityFixes<'a> {
    /// What `new` builds: the given values, and every optional parameter
    /// absent.
    pub open spec fn initial(owner: &'a str, repo: &'a str) -> Self {
        DeleteAutomatedSecurityFixes {
            owner,
            repo,
        }
    }

    /// Build a [`DeleteAutomatedSecurityFixes`] instance.
    pub fn new(owner: &'a str, repo: &'a str) -> (request: Self)
        ensures
            request == Self::initial(owner, repo),
    {
        DeleteAutomatedSecurityFixes {
            owner,
            repo,
        }
    }

    /// Set a new [`owner`](DeleteAutomatedSecurityFixes#structfield.owner).
    pub fn owner(self, owner: &'a str) -> (request: Self)
        ensures
            request == (DeleteAutomatedSecurityFixes { owner, ..self }),
    {
        DeleteAutomatedSecurityFixes { owner, ..self }
    }

    /// Set a new [`repo`](DeleteAutomatedSecurityFixes#structfield.repo).
    pub fn repo(self, repo: &'a str) -> (request: Self)
        ensures
            request == (DeleteAutomatedSecurityFixes { repo, ..self }),
    {
        DeleteAutomatedSecurityFixes { repo, ..self }
    }

    /// The URI template has one placeholder for each path parameter.
    pub proof fn lemma_template_fits(&self)
        ensures
            placeholder_count(self.uri_template()) == self.path_args().len(),
    {
        reveal_strlit("/repos/{}/{}/automated-security-fixes");
        reveal_with_fuel(count_from, 38);
    }
}

impl<'a> Api for DeleteAutomatedSecurityFixes<'a> {
    const ACCEPT: &'static str = "application/vnd.github+json";

    open spec fn uri_template(&self) -> Seq<char> {
        "/repos/{}/{}/automated-security-fixes"@
    }

    open spec fn path_args(&self) -> Seq<Seq<char>> {
        seq![self.owner@, self.repo@]
    }

    fn api(&self) -> (uri: String) {
        let mut args: Vec<String> = Vec::new();
        args.push(String::from_str(self.owner));
        args.push(String::from_str(self.repo));
        proof {
            self.lemma_template_fits();
            assert(texts(args@) =~= self.path_args());
        }
        materialize(Self::BASE_URI, "/repos/{}/{}/automated-security-fixes", &args)
    }
}

impl<'a> ApiExt for DeleteAutomatedSecurityFixes<'a> {
    const METHOD: Method = Method::Delete;

    open spec fn essential_params(&self) -> Seq<(Seq<char>, Seq<char>)> {
        Seq::empty()
    }

    open spec fn optional_params(&self) -> Seq<(Seq<char>, Option<Seq<char>>)> {
        Seq::empty()
    }

    fn payload_params(&self) -> (params: Vec<(&'static str, String)>) {
        let essential: Vec<(&'static str, String)> = Vec::new();
        let optional: Vec<(&'static str, Option<String>)> = Vec::new();
        proof {
            assert(param_views(essential@) =~= self.essential_params());
            assert(optional_views(optional@) =~= self.optional_params());
        }
        project(essential, &optional)
    }
}

/// Build a [`DeleteAutomatedSecurityFixes`] instance.
pub fn delete_automated_security_fixes<'a>(
    owner: &'a str,
    repo: &'a str,
) -> (request: DeleteAutomatedSecurityFixes<'a>)
    ensures
        request == DeleteAutomatedSecurityFixes::initial(owner, repo),
{
    DeleteAutomatedSecurityFixes::new(owner, repo)
}

/// GitHub reference(s):
///  - <https://docs.github.com/en/rest/repos/repos#list-codeowners-error>
#[derive(Debug, Clone, PartialEq, Eq)]
pub struct ListCodeownersError<'a> {
    pub owner: &'a str,
    pub repo: &'a str,
    pub ref_: Option<&'a str>,
}

impl<'a> ListCodeownersError<'a> {
    /// What `new` builds: the given values, and every optional parameter
    /// absent.
    pub open spec fn initial(owner: &'a str, repo: &'a str) -> Self {
        ListCodeownersError {
            owner,
            repo,
            ref_: None,
        }
    }

    /// Build a [`ListCodeownersError`] instance.
    pub fn new(owner: &'a str, repo: &'a str) -> (request: Self)
        ensures
            request == Self::initial(owner, repo),
    {
        ListCodeownersError {
            owner,
            repo,
            ref_: None,
        }
    }

    /// Set a new [`owner`](ListCodeownersError#structfield.owner).
    pub fn owner(self, owner: &'a str) -> (request: Self)
        ensures
            request == (ListCodeownersError { owner, ..self }),
    {
        ListCodeownersError { owner, ..self }
    }

    /// Set a new [`repo`](ListCodeownersError#structfield.repo).
    pub fn repo(self, repo: &'a str) -> (request: Self)
        ensures
            request == (ListCodeownersError { repo, ..self }),
    {
        ListCodeownersError { repo, ..self }
    }

    /// Set a new [`ref_`](ListCodeownersError#structfield.ref_).
    pub fn ref_(self, ref_: &'a str) -> (request: Self)
        ensures
            request == (ListCodeownersError { ref_: Some(ref_), ..self }),
    {
        ListCodeownersError { ref_: Some(ref_), ..self }
    }

    /// The URI template has one placeholder for each path parameter.
    pub proof fn lemma_template_fits(&self)
        ensures
            placeholder_count(self.uri_template()) == self.path_args().len(),
    {
        reveal_strlit("/repos/{}/{}/codeowners/errors");
        reveal_with_fuel(count_from, 31);
    }
}

impl<'a> Api for ListCodeownersError<'a> {
    const ACCEPT: &'static str = "application/vnd.github+json";

    open spec fn uri_template(&self) -> Seq<char> {
        "/repos/{}/{}/codeowners/errors"@
    }

    open spec fn path_args(&self) -> Seq<Seq<char>> {
        seq![self.owner@, self.repo@]
    }

    fn api(&self) -> (uri: String) {
        let mut args: Vec<String> = Vec::new();
        args.push(String::from_str(self.owner));
        args.push(String::from_str(self.repo));
        proof {
            self.lemma_template_fits();
            assert(texts(args@) =~= self.path_args());
        }
        materialize(Self::BASE_URI, "/repos/{}/{}/codeowners/errors", &args)
    }
}

impl<'a> ApiExt for ListCodeownersError<'a> {
    const METHOD: Method = Method::Get;

    open spec fn essential_params(&self) -> Seq<(Seq<char>, Seq<char>)> {
        Seq::empty()
    }

    open spec fn optional_params(&self) -> Seq<(Seq<char>, Option<Seq<char>>)> {
        seq![
            ("ref"@, opt_text(self.ref_)),
        ]
    }

    fn payload_params(&self) -> (params: Vec<(&'static str, String)>) {
        let essential: Vec<(&'static str, String)> = Vec::new();
        let mut optional: Vec<(&'static str, Option<String>)> = Vec::new();
        optional.push(("ref", text_opt(self.ref_)));
        proof {
            assert(param_views(essential@) =~= self.essential_params());
            assert(optional_views(optional@) =~= self.optional_params());
        }
        project(essential, &optional)
    }
}

/// Build a [`ListCodeownersError`] instance.
pub fn list_codeowners_error<'a>(
    owner: &'a str,
    repo: &'a str,
) -> (request: ListCodeownersError<'a>)
    ensures
        request == ListCodeownersError::initial(owner, repo),
{
    ListCodeownersError::new(owner, repo)
}

/// GitHub reference(s):
///  - <https://docs.github.com/en/rest/repos/repos#list-repository-contributors>
#[derive(Debug, Clone, PartialEq, Eq)]
pub struct ListRepositoryContributors<'a> {
    pub owner: &'a str,
    pub repo: &'a str,
    pub anon: Option<bool>,
    pub per_page: Option<u8>,
    pub page: Option<u16>,
}

impl<'a> ListRepositoryContributors<'a> {
    /// What `new` builds: the given values, and every optional parameter
    /// absent.
    pub open spec fn initial(owner: &'a str, repo: &'a str) -> Self {
        ListRepositoryContributors {
            owner,
            repo,
            anon: None,
            per_page: None,
            page: None,
        }
    }

    /// Build a [`ListRepositoryContributors`] instance.
    pub fn new(owner: &'a str, repo: &'a str) -> (request: Self)
        ensures
            request == Self::initial(owner, repo),
    {
        ListRepositoryContributors {
            owner,
            repo,
            anon: None,
            per_page: None,
            page: None,
        }
    }

    /// Set a new [`owner`](ListRepositoryContributors#structfield.owner).
    pub fn owner(self, owner: &'a str) -> (request: Self)
        ensures
            request == (ListRepositoryContributors { owner, ..self }),
    {
        ListRepositoryContributors { owner, ..self }
    }

    /// Set a new [`repo`](ListRepositoryContributors#structfield.repo).
    pub fn repo(self, repo: &'a str) -> (request: Self)
        ensures
            request == (ListRepositoryContributors { repo, ..self }),
    {
        ListRepositoryContributors { repo, ..self }
    }

    /// Set a new [`anon`](ListRepositoryContributors#structfield.anon).
    pub fn anon(self, anon: bool) -> (request: Self)
        ensures
            request == (ListRepositoryContributors { anon: Some(anon), ..self }),
    {
        ListRepositoryContributors { anon: Some(anon), ..self }
    }

    /// Set a new [`per_page`](ListRepositoryContributors#structfield.per_page).
    pub fn per_page(self, per_page: u8) -> (request: Self)
        ensures
            request == (ListRepositoryContributors { per_page: Some(per_page), ..self }),
    {
        ListRepositoryContributors { per_page: Some(per_page), ..self }
    }

    /// Set a new [`page`](ListRepositoryContributors#structfield.page).
    pub fn page(self, page: u16) -> (request: Self)
        ensures
            request == (ListRepositoryContributors { page: Some(page), ..self }),
    {
        ListRepositoryContributors { page: Some(page), ..self }
    }

    /// The URI template has one placeholder for each path parameter.
    pub proof fn lemma_template_fits(&self)
        ensures
            placeholder_count(self.uri_template()) == self.path_args().len(),
    {
        reveal_strlit("/repos/{}/{}/contributors");
        reveal_with_fuel(count_from, 26);
    }
}

impl<'a> Api for ListRepositoryContributors<'a> {
    const ACCEPT: &'static str = "application/vnd.github+json";

    open spec fn uri_template(&self) -> Seq<char> {
        "/repos/{}/{}/contributors"@
    }

    open spec fn path_args(&self) -> Seq<Seq<char>> {
        seq![self.owner@, self.repo@]
    }

    fn api(&self) -> (uri: String) {
        let mut args: Vec<String> = Vec::new();
        args.push(String::from_str(self.owner));
        args.push(String::from_str(self.repo));
        proof {
            self.lemma_template_fits();
            assert(texts(args@) =~= self.path_args());
        }
        materialize(Self::BASE_URI, "/repos/{}/{}/contributors", &args)
    }
}

impl<'a> ApiExt for ListRepositoryContributors<'a> {
    const METHOD: Method = Method::Get;

    open spec fn essential_params(&self) -> Seq<(Seq<char>, Seq<char>)> {
        Seq::empty()
    }

    open spec fn optional_params(&self) -> Seq<(Seq<char>, Option<Seq<char>>)> {
        seq![
            ("anon"@, opt_bool(self.anon)),
            ("per_page"@, opt_u8(self.per_page)),
            ("page"@, opt_u16(self.page)),
        ]
    }

    fn payload_params(&self) -> (params: Vec<(&'static str, String)>) {
        let essential: Vec<(&'static str, String)> = Vec::new();
        let mut optional: Vec<(&'static str, Option<String>)> = Vec::new();
        optional.push(("anon", bool_opt(self.anon)));
        optional.push(("per_page", u8_opt(self.per_page)));
        optional.push(("page", u16_opt(self.page)));
        proof {
            assert(param_views(essential@) =~= self.essential_params());
            assert(optional_views(optional@) =~= self.optional_params());
        }
        project(essential, &optional)
    }
}

/// Build a [`ListRepositoryContributors`] instance.
pub fn list_repository_contributors<'a>(
    owner: &'a str,
    repo: &'a str,
) -> (request: ListRepositoryContributors<'a>)
    ensures
        request == ListRepositoryContributors::initial(owner, repo),
{
    ListRepositoryContributors::new(owner, repo)
}

/// GitHub reference(s):
///  - <https://docs.github.com/en/rest/repos/repos#create-a-repository-dispatch-event>
#[derive(Debug, Clone, PartialEq, Eq)]
pub struct CreateARepositoryDispatchEvent<'a> {
    pub owner: &'a str,
    pub repo: &'a str,
    pub event_type: &'a str,
    pub client_payload: Option<&'a str>,
}

impl<'a> CreateARepositoryDispatchEvent<'a> {
    /// What `new` builds: the given values, and every optional parameter
    /// absent.
    pub open spec fn initial(owner: &'a str, repo: &'a str, event_type: &'a str) -> Self {
        CreateARepositoryDispatchEvent {
            owner,
            repo,
            event_type,
            client_payload: None,
        }
    }

    /// Build a [`CreateARepositoryDispatchEvent`] instance.
    pub fn new(owner: &'a str, repo: &'a str, event_type: &'a str) -> (request: Self)
        ensures
            request == Self::initial(owner, repo, event_type),
    {
        CreateARepositoryDispatchEvent {
            owner,
            repo,
            event_type,
            client_payload: None,
        }
    }

    /// Set a new [`owner`](CreateARepositoryDispatchEvent#structfield.owner).
    pub fn owner(self, owner: &'a str) -> (request: Self)
        ensures
            request == (CreateARepositoryDispatchEvent { owner, ..self }),
    {
        CreateARepositoryDispatchEvent { owner, ..self }
    }

    /// Set a new [`repo`](CreateARepositoryDispatchEvent#structfield.repo).
    pub fn repo(self, repo: &'a str) -> (request: Self)
        ensures
            request == (CreateARepositoryDispatchEvent { repo, ..self }),
    {
        CreateARepositoryDispatchEvent { repo, ..self }
    }

    /// Set a new [`event_type`](CreateARepositoryDispatchEvent#structfield.event_type).
    pub fn event_type(self, event_type: &'a str) -> (request: Self)
        ensures
            request == (CreateARepositoryDispatchEvent { event_type, ..self }),
    {
        CreateARepositoryDispatchEvent { event_type, ..self }
    }

    /// Set a new [`client_payload`](CreateARepositoryDispatchEvent#structfield.client_payload).
    pub fn client_payload(self, client_payload: &'a str) -> (request: Self)
        ensures
            request == (CreateARepositoryDispatchEvent {
                client_payload: Some(client_payload),
                ..self
            }),
    {
        CreateARepositoryDispatchEvent { client_payload: Some(client_payload), ..self }
    }

    /// The URI template has one placeholder for each path parameter.
    pub proof fn lemma_template_fits(&self)
        ensures
            placeholder_count(self.uri_template()) == self.path_args().len(),
    {
        reveal_strlit("/repos/{}/{}/dispatches");
        reveal_with_fuel(count_from, 24);
    }
}

impl<'a> Api for CreateARepositoryDispatchEvent<'a> {
    const ACCEPT: &'static str = "application/vnd.github+json";

    open spec fn uri_template(&self) -> Seq<char> {
        "/repos/{}/{}/dispatches"@
    }

    open spec fn path_args(&self) -> Seq<Seq<char>> {
        seq![self.owner@, self.repo@]
    }

    fn api(&self) -> (uri: String) {
        let mut args: Vec<String> = Vec::new();
        args.push(String::from_str(self.owner));
        args.push(String::from_str(self.repo));
        proof {
            self.lemma_template_fits();
            assert(texts(args@) =~= self.path_args());
        }
        materialize(Self::BASE_URI, "/repos/{}/{}/dispatches", &args)
    }
}

impl<'a> ApiExt for CreateARepositoryDispatchEvent<'a> {
    const METHOD: Method = Method::Post;

    open spec fn essential_params(&self) -> Seq<(Seq<char>, Seq<char>)> {
        seq![("event_type"@, self.event_type@)]
    }

    open spec fn optional_params(&self) -> Seq<(Seq<char>, Option<Seq<char>>)> {
        seq![
            ("client_payload"@, opt_text(self.client_payload)),
        ]
    }

    fn payload_params(&self) -> (params: Vec<(&'static str, String)>) {
        let mut essential: Vec<(&'static str, String)> = Vec::new();
        essential.push(("event_type", String::from_str(self.event_type)));
        let mut optional: Vec<(&'static str, Option<String>)> = Vec::new();
        optional.push(("client_payload", text_opt(self.client_payload)));
        proof {
            assert(param_views(essential@) =~= self.essential_params());
            assert(optional_views(optional@) =~= self.optional_params());
        }
        project(essential, &optional)
    }
}

/// Build a [`CreateARepositoryDispatchEvent`] instance.
pub fn create_a_repository_dispatch_event<'a>(
    owner: &'a str,
    repo: &'a str,
    event_type: &'a str,
) -> (request: CreateARepositoryDispatchEvent<'a>)
    ensures
        request == CreateARepositoryDispatchEvent::initial(owner, repo, event_type),
{
    CreateARepositoryDispatchEvent::new(owner, repo, event_type)
}

/// GitHub reference(s):
///  - <https://docs.github.com/en/rest/repos/repos#list-repository-languages>
#[derive(Debug, Clone, PartialEq, Eq)]
pub struct ListRepositoryLanguages<'a> {
    pub owner: &'a str,
    pub repo: &'a str,
}

impl<'a> ListRepositoryLanguages<'a> {
    /// What `new` builds: the given values, and every optional parameter
    /// absent.
    pub open spec fn initial(owner: &'a str, repo: &'a str) -> Self {
        ListRepositoryLanguages {
            owner,
            repo,
        }
    }

    /// Build a [`ListRepositoryLanguages`] instance.
    pub fn new(owner: &'a str, repo: &'a str) -> (request: Self)
        ensures
            request == Self::initial(owner, repo),
    {
        ListRepositoryLanguages {
            owner,
            repo,
        }
    }

    /// Set a new [`owner`](ListRepositoryLanguages#structfield.owner).
    pub fn owner(self, owner: &'a str) -> (request: Self)
        ensures
            request == (ListRepositoryLanguages { owner, ..self }),
    {
        ListRepositoryLanguages { owner, ..self }
    }

    /// Set a new [`repo`](ListRepositoryLanguages#structfield.repo).
    pub fn repo(self, repo: &'a str) -> (request: Self)
        ensures
            request == (ListRepositoryLanguages { repo, ..self }),
    {
        ListRepositoryLanguages { repo, ..self }
    }

    /// The URI template has one placeholder for each path parameter.
    pub proof fn lemma_template_fits(&self)
        ensures
            placeholder_count(self.uri_template()) == self.path_args().len(),
    {
        reveal_strlit("/repos/{}/{}/languages");
        reveal_with_fuel(count_from, 23);
    }
}

impl<'a> Api for ListRepositoryLanguages<'a> {
    const ACCEPT: &'static str = "application/vnd.github+json";

    open spec fn uri_template(&self) -> Seq<char> {
        "/repos/{}/{}/languages"@
    }

    open spec fn path_args(&self) -> Seq<Seq<char>> {
        seq![self.owner@, self.repo@]
    }

    fn api(&self) -> (uri: String) {
        let mut args: Vec<String> = Vec::new();
        args.push(String::from_str(self.owner));
        args.push(String::from_str(self.repo));
        proof {
            self.lemma_template_fits();
            assert(texts(args@) =~= self.path_args());
        }
        materialize(Self::BASE_URI, "/repos/{}/{}/languages", &args)
    }
}

impl<'a> ApiExt for ListRepositoryLanguages<'a> {
    const METHOD: Method = Method::Get;

    open spec fn essential_params(&self) -> Seq<(Seq<char>, Seq<char>)> {
        Seq::empty()
    }

    open spec fn optional_params(&self) -> Seq<(Seq<char>, Option<Seq<char>>)> {
        Seq::empty()
    }

    fn payload_params(&self) -> (params: Vec<(&'static str, String)>) {
        let essential: Vec<(&'static str, String)> = Vec::new();
        let optional: Vec<(&'static str, Option<String>)> = Vec::new();
        proof {
            assert(param_views(essential@) =~= self.essential_params());
            assert(optional_views(optional@) =~= self.optional_params());
        }
        project(essential, &optional)
    }
}

/// Build a [`ListRepositoryLanguages`] instance.
pub fn list_repository_languages<'a>(
    owner: &'a str,
    repo: &'a str,
) -> (request: ListRepositoryLanguages<'a>)
    ensures
        request == ListRepositoryLanguages::initial(owner, repo),
{
    ListRepositoryLanguages::new(owner, repo)
}

/// GitHub reference(s):
///  - <https://docs.github.com/en/rest/repos/repos#list-repository-tags>
#[derive(Debug, Clone, PartialEq, Eq)]
pub struct ListRepositoryTags<'a> {
    pub owner: &'a str,
    pub repo: &'a str,
}

impl<'a> ListRepositoryTags<'a> {
    /// What `new` builds: the given values, and every optional parameter
    /// absent.
    pub open spec fn initial(owner: &'a str, repo: &'a str) -> Self {
        ListRepositoryTags {
            owner,
            repo,
        }
    }

    /// Build a [`ListRepositoryTags`] instance.
    pub fn new(owner: &'a str, repo: &'a str) -> (request: Self)
        ensures
            request == Self::initial(owner, repo),
    {
        ListRepositoryTags {
            owner,
            repo,
        }
    }

    /// Set a new [`owner`](ListRepositoryTags#structfield.owner).
    pub fn owner(self, owner: &'a str) -> (request: Self)
        ensures
            request == (ListRepositoryTags { owner, ..self }),
    {
        ListRepositoryTags { owner, ..self }
    }

    /// Set a new [`repo`](ListRepositoryTags#structfield.repo).
    pub fn repo(self, repo: &'a str) -> (request: Self)
        ensures
            request == (ListRepositoryTags { repo, ..self }),
    {
        ListRepositoryTags { repo, ..self }
    }

    /// The URI template has one placeholder for each path parameter.
    pub proof fn lemma_template_fits(&self)
        ensures
            placeholder_count(self.uri_template()) == self.path_args().len(),
    {
        reveal_strlit("/repos/{}/{}/tags");
        reveal_with_fuel(count_from, 18);
    }
}

impl<'a> Api for ListRepositoryTags<'a> {
    const ACCEPT: &'static str = "application/vnd.github+json";

    open spec fn uri_template(&self) -> Seq<char> {
        "/repos/{}/{}/tags"@
    }

    open spec fn path_args(&self) -> Seq<Seq<char>> {
        seq![self.owner@, self.repo@]
    }

    fn api(&self) -> (uri: String) {
        let mut args: Vec<String> = Vec::new();
        args.push(String::from_str(self.owner));
        args.push(String::from_str(self.repo));
        proof {
            self.lemma_template_fits();
            assert(texts(args@) =~= self.path_args());
        }
        materialize(Self::BASE_URI, "/repos/{}/{}/tags", &args)
    }
}

impl<'a> ApiExt for ListRepositoryTags<'a> {
    const METHOD: Method = Method::Get;

    open spec fn essential_params(&self) -> Seq<(Seq<char>, Seq<char>)> {
        Seq::empty()
    }

    open spec fn optional_params(&self) -> Seq<(Seq<char>, Option<Seq<char>>)> {
        Seq::empty()
    }

    fn payload_params(&self) -> (params: Vec<(&'static str, String)>) {
        let essential: Vec<(&'static str, String)> = Vec::new();
        let optional: Vec<(&'static str, Option<String>)> = Vec::new();
        proof {
            assert(param_views(essential@) =~= self.essential_params());
            assert(optional_views(optional@) =~= self.optional_params());
        }
        project(essential, &optional)
    }
}

/// Build a [`ListRepositoryTags`] instance.
pub fn list_repository_tags<'a>(owner: &'a str, repo: &'a str) -> (request: ListRepositoryTags<'a>)
    ensures
        request == ListRepositoryTags::initial(owner, repo),
{
    ListRepositoryTags::new(owner, repo)
}

/// GitHub reference(s):
///  - <https://docs.github.com/en/rest/repos/repos#list-repository-teams>
#[derive(Debug, Clone, PartialEq, Eq)]
pub struct ListRepositoryTeams<'a> {
    pub owner: &'a str,
    pub repo: &'a str,
    pub per_page: Option<u8>,
    pub page: Option<u16>,
}

impl<'a> ListRepositoryTeams<'a> {
    /// What `new` builds: the given values, and every optional parameter
    /// absent.
    pub open spec fn initial(owner: &'a str, repo: &'a str) -> Self {
        ListRepositoryTeams {
            owner,
            repo,
            per_page: None,
            page: None,
        }
    }

    /// Build a [`ListRepositoryTeams`] instance.
    pub fn new(owner: &'a str, repo: &'a str) -> (request: Self)
        ensures
            request == Self::initial(owner, repo),
    {
        ListRepositoryTeams {
            owner,
            repo,
            per_page: None,
            page: None,
        }
    }

    /// Set a new [`owner`](ListRepositoryTeams#structfield.owner).
    pub fn owner(self, owner: &'a str) -> (request: Self)
        ensures
            request == (ListRepositoryTeams { owner, ..self }),
    {
        ListRepositoryTeams { owner, ..self }
    }

    /// Set a new [`repo`](ListRepositoryTeams#structfield.repo).
    pub fn repo(self, repo: &'a str) -> (request: Self)
        ensures
            request == (ListRepositoryTeams { repo, ..self }),
    {
        ListRepositoryTeams { repo, ..self }
    }

    /// Set a new [`per_page`](ListRepositoryTeams#structfield.per_page).
    pub fn per_page(self, per_page: u8) -> (request: Self)
        ensures
            request == (ListRepositoryTeams { per_page: Some(per_page), ..self }),
    {
        ListRepositoryTeams { per_page: Some(per_page), ..self }
    }

    /// Set a new [`page`](ListRepositoryTeams#structfield.page).
    pub fn page(self, page: u16) -> (request: Self)
        ensures
            request == (ListRepositoryTeams { page: Some(page), ..self }),
    {
        ListRepositoryTeams { page: Some(page), ..self }
    }

    /// The URI template has one placeholder for each path parameter.
    pub proof fn lemma_template_fits(&self)
        ensures
            placeholder_count(self.uri_template()) == self.path_args().len(),
    {
        reveal_strlit("/repos/{}/{}/teams");
        reveal_with_fuel(count_from, 19);
    }
}

impl<'a> Api for ListRepositoryTeams<'a> {
    const ACCEPT: &'static str = "application/vnd.github+json";

    open spec fn uri_template(&self) -> Seq<char> {
        "/repos/{}/{}/teams"@
    }

    open spec fn path_args(&self) -> Seq<Seq<char>> {
        seq![self.owner@, self.repo@]
    }

    fn api(&self) -> (uri: String) {
        let mut args: Vec<String> = Vec::new();
        args.push(String::from_str(self.owner));
        args.push(String::from_str(self.repo));
        proof {
            self.lemma_template_fits();
            assert(texts(args@) =~= self.path_args());
        }
        materialize(Self::BASE_URI, "/repos/{}/{}/teams", &args)
    }
}

impl<'a> ApiExt for ListRepositoryTeams<'a> {
    const METHOD: Method = Method::Get;

    open spec fn essential_params(&self) -> Seq<(Seq<char>, Seq<char>)> {
        Seq::empty()
    }

    open spec fn optional_params(&self) -> Seq<(Seq<char>, Option<Seq<char>>)> {
        seq![
            ("per_page"@, opt_u8(self.per_page)),
            ("page"@, opt_u16(self.page)),
        ]
    }

    fn payload_params(&self) -> (params: Vec<(&'static str, String)>) {
        let essential: Vec<(&'static str, String)> = Vec::new();
        let mut optional: Vec<(&'static str, Option<String>)> = Vec::new();
        optional.push(("per_page", u8_opt(self.per_page)));
        optional.push(("page", u16_opt(self.page)));
        proof {
            assert(param_views(essential@) =~= self.essential_params());
            assert(optional_views(optional@) =~= self.optional_params());
        }
        project(essential, &optional)
    }
}

/// Build a [`ListRepositoryTeams`] instance.
pub fn list_repository_teams<'a>(
    owner: &'a str,
    repo: &'a str,
) -> (request: ListRepositoryTeams<'a>)
    ensures
        request == ListRepositoryTeams::initial(owner, repo),
{
    ListRepositoryTeams::new(owner, repo)
}

/// GitHub reference(s):
///  - <https://docs.github.com/en/rest/repos/repos#get-all-repository-topics>
#[derive(Debug, Clone, PartialEq, Eq)]
pub struct GetAllRepositoryTopics<'a> {
    pub owner: &'a str,
    pub repo: &'a str,
    pub per_page: Option<u8>,
    pub page: Option<u16>,
}

impl<'a> GetAllRepositoryTopics<'a> {
    /// What `new` builds: the given values, and every optional parameter
    /// absent.
    pub open spec fn initial(owner: &'a str, repo: &'a str) -> Self {
        GetAllRepositoryTopics {
            owner,
            repo,
            per_page: None,
            page: None,
        }
    }

    /// Build a [`GetAllRepositoryTopics`] instance.
    pub fn new(owner: &'a str, repo: &'a str) -> (request: Self)
        ensures
            request == Self::initial(owner, repo),
    {
        GetAllRepositoryTopics {
            owner,
            repo,
            per_page: None,
            page: None,
        }
    }

    /// Set a new [`owner`](GetAllRepositoryTopics#structfield.owner).
    pub fn owner(self, owner: &'a str) -> (request: Self)
        ensures
            request == (GetAllRepositoryTopics { owner, ..self }),
    {
        GetAllRepositoryTopics { owner, ..self }
    }

    /// Set a new [`repo`](GetAllRepositoryTopics#structfield.repo).
    pub fn repo(self, repo: &'a str) -> (request: Self)
        ensures
            request == (GetAllRepositoryTopics { repo, ..self }),
    {
        GetAllRepositoryTopics { repo, ..self }
    }

    /// Set a new [`per_page`](GetAllRepositoryTopics#structfield.per_page).
    pub fn per_page(self, per_page: u8) -> (request: Self)
        ensures
            request == (GetAllRepositoryTopics { per_page: Some(per_page), ..self }),
    {
        GetAllRepositoryTopics { per_page: Some(per_page), ..self }
    }

    /// Set a new [`page`](GetAllRepositoryTopics#structfield.page).
    pub fn page(self, page: u16) -> (request: Self)
        ensures
            request == (GetAllRepositoryTopics { page: Some(page), ..self }),
    {
        GetAllRepositoryTopics { page: Some(page), ..self }
    }

    /// The URI template has one placeholder for each path parameter.
    pub proof fn lemma_template_fits(&self)
        ensures
            placeholder_count(self.uri_template()) == self.path_args().len(),
    {
        reveal_strlit("/repos/{}/{}/topics");
        reveal_with_fuel(count_from, 20);
    }
}

impl<'a> Api for GetAllRepositoryTopics<'a> {
    const ACCEPT: &'static str = "application/vnd.github+json";

    open spec fn uri_template(&self) -> Seq<char> {
        "/repos/{}/{}/topics"@
    }

    open spec fn path_args(&self) -> Seq<Seq<char>> {
        seq![self.owner@, self.repo@]
    }

    fn api(&self) -> (uri: String) {
        let mut args: Vec<String> = Vec::new();
        args.push(String::from_str(self.owner));
        args.push(String::from_str(self.repo));
        proof {
            self.lemma_template_fits();
            assert(texts(args@) =~= self.path_args());
        }
        materialize(Self::BASE_URI, "/repos/{}/{}/topics", &args)
    }
}

impl<'a> ApiExt for GetAllRepositoryTopics<'a> {
    const METHOD: Method = Method::Get;

    open spec fn essential_params(&self) -> Seq<(Seq<char>, Seq<char>)> {
        Seq::empty()
    }

    open spec fn optional_params(&self) -> Seq<(Seq<char>, Option<Seq<char>>)> {
        seq![
            ("per_page"@, opt_u8(self.per_page)),
            ("page"@, opt_u16(self.page)),
        ]
    }

    fn payload_params(&self) -> (params: Vec<(&'static str, String)>) {
        let essential: Vec<(&'static str, String)> = Vec::new();
        let mut optional: Vec<(&'static str, Option<String>)> = Vec::new();
        optional.push(("per_page", u8_opt(self.per_page)));
        optional.push(("page", u16_opt(self.page)));
        proof {
            assert(param_views(essential@) =~= self.essential_params());
            assert(optional_views(optional@) =~= self.optional_params());
        }
        project(essential, &optional)
    }
}

/// Build a [`GetAllRepositoryTopics`] instance.
pub fn get_all_repository_topics<'a>(
    owner: &'a str,
    repo: &'a str,
) -> (request: GetAllRepositoryTopics<'a>)
    ensures
        request == GetAllRepositoryTopics::initial(owner, repo),
{
    GetAllRepositoryTopics::new(owner, repo)
}

/// GitHub reference(s):
///  - <https://docs.github.com/en/rest/repos/repos#replace-all-repository-topics>
#[derive(Debug, Clone, PartialEq, Eq)]
pub struct ReplaceAllRepositoryTopics<'a> {
    pub owner: &'a str,
    pub repo: &'a str,
    pub names: &'a str,
}

impl<'a> ReplaceAllRepositoryTopics<'a> {
    /// What `new` builds: the given values, and every optional parameter
    /// absent.
    pub open spec fn initial(owner: &'a str, repo: &'a str, names: &'a str) -> Self {
        ReplaceAllRepositoryTopics {
            owner,
            repo,
            names,
        }
    }

    /// Build a [`ReplaceAllRepositoryTopics`] instance.
    pub fn new(owner: &'a str, repo: &'a str, names: &'a str) -> (request: Self)
        ensures
            request == Self::initial(owner, repo, names),
    {
        ReplaceAllRepositoryTopics {
            owner,
            repo,
            names,
        }
    }

    /// Set a new [`owner`](ReplaceAllRepositoryTopics#structfield.owner).
    pub fn owner(self, owner: &'a str) -> (request: Self)
        ensures
            request == (ReplaceAllRepositoryTopics { owner, ..self }),
    {
        ReplaceAllRepositoryTopics { owner, ..self }
    }

    /// Set a new [`repo`](ReplaceAllRepositoryTopics#structfield.repo).
    pub fn repo(self, repo: &'a str) -> (request: Self)
        ensures
            request == (ReplaceAllRepositoryTopics { repo, ..self }),
    {
        ReplaceAllRepositoryTopics { repo, ..self }
    }

    /// Set a new [`names`](ReplaceAllRepositoryTopics#structfield.names).
    pub fn names(self, names: &'a str) -> (request: Self)
        ensures
            request == (ReplaceAllRepositoryTopics { names, ..self }),
    {
        ReplaceAllRepositoryTopics { names, ..self }
    }

    /// The URI template has one placeholder for each path parameter.
    pub proof fn lemma_template_fits(&self)
        ensures
            placeholder_count(self.uri_template()) == self.path_args().len(),
    {
        reveal_strlit("/repos/{}/{}/topics");
        reveal_with_fuel(count_from, 20);
    }
}

impl<'a> Api for ReplaceAllRepositoryTopics<'a> {
    const ACCEPT: &'static str = "application/vnd.github+json";

    open spec fn uri_template(&self) -> Seq<char> {
        "/repos/{}/{}/topics"@
    }

    open spec fn path_args(&self) -> Seq<Seq<char>> {
        seq![self.owner@, self.repo@]
    }

    fn api(&self) -> (uri: String) {
        let mut args: Vec<String> = Vec::new();
        args.push(String::from_str(self.owner));
        args.push(String::from_str(self.repo));
        proof {
            self.lemma_template_fits();
            assert(texts(args@) =~= self.path_args());
        }
        materialize(Self::BASE_URI, "/repos/{}/{}/topics", &args)
    }
}

impl<'a> ApiExt for ReplaceAllRepositoryTopics<'a> {
    const METHOD: Method = Method::Put;

    open spec fn essential_params(&self) -> Seq<(Seq<char>, Seq<char>)> {
        seq![("names"@, self.names@)]
    }

    open spec fn optional_params(&self) -> Seq<(Seq<char>, Option<Seq<char>>)> {
        Seq::empty()
    }

    fn payload_params(&self) -> (params: Vec<(&'static str, String)>) {
        let mut essential: Vec<(&'static str, String)> = Vec::new();
        essential.push(("names", String::from_str(self.names)));
        let optional: Vec<(&'static str, Option<String>)> = Vec::new();
        proof {
            assert(param_views(essential@) =~= self.essential_params());
            assert(optional_views(optional@) =~= self.optional_params());
        }
        project(essential, &optional)
    }
}

/// Build a [`ReplaceAllRepositoryTopics`] instance.
pub fn replace_all_repository_topics<'a>(
    owner: &'a str,
    repo: &'a str,
    names: &'a str,
) -> (request: ReplaceAllRepositoryTopics<'a>)
    ensures
        request == ReplaceAllRepositoryTopics::initial(owner, repo, names),
{
    ReplaceAllRepositoryTopics::new(owner, repo, names)
}

/// GitHub reference(s):
///  - <https://docs.github.com/en/rest/repos/repos#transfer-a-repository>
#[derive(Debug, Clone, PartialEq, Eq)]
pub struct TransferARepository<'a> {
    pub owner: &'a str,
    pub repo: &'a str,
    pub new_owner: &'a str,
}

impl<'a> TransferARepository<'a> {
    /// What `new` builds: the given values, and every optional parameter
    /// absent.
    pub open spec fn initial(owner: &'a str, repo: &'a str, new_owner: &'a str) -> Self {
        TransferARepository {
            owner,
            repo,
            new_owner,
        }
    }

    /// Build a [`TransferARepository`] instance.
    pub fn new(owner: &'a str, repo: &'a str, new_owner: &'a str) -> (request: Self)
        ensures
            request == Self::initial(owner, repo, new_owner),
    {
        TransferARepository {
            owner,
            repo,
            new_owner,
        }
    }

    /// Set a new [`owner`](TransferARepository#structfield.owner).
    pub fn owner(self, owner: &'a str) -> (request: Self)
        ensures
            request == (TransferARepository { owner, ..self }),
    {
        TransferARepository { owner, ..self }
    }

    /// Set a new [`repo`](TransferARepository#structfield.repo).
    pub fn repo(self, repo: &'a str) -> (request: Self)
        ensures
            request == (TransferARepository { repo, ..self }),
    {
        TransferARepository { repo, ..self }
    }

    /// Set a new [`new_owner`](TransferARepository#structfield.new_owner).
    pub fn new_owner(self, new_owner: &'a str) -> (request: Self)
        ensures
            request == (TransferARepository { new_owner, ..self }),
    {
        TransferARepository { new_owner, ..self }
    }

    /// The URI template has one placeholder for each path parameter.
    pub proof fn lemma_template_fits(&self)
        ensures
            placeholder_count(self.uri_template()) == self.path_args().len(),
    {
        reveal_strlit("/repos/{}/{}/transfer");
        reveal_with_fuel(count_from, 22);
    }
}

impl<'a> Api for TransferARepository<'a> {
    const ACCEPT: &'static str = "application/vnd.github+json";

    open spec fn uri_template(&self) -> Seq<char> {
        "/repos/{}/{}/transfer"@
    }

    open spec fn path_args(&self) -> Seq<Seq<char>> {
        seq![self.owner@, self.repo@]
    }

    fn api(&self) -> (uri: String) {
        let mut args: Vec<String> = Vec::new();
        args.push(String::from_str(self.owner));
        args.push(String::from_str(self.repo));
        proof {
            self.lemma_template_fits();
            assert(texts(args@) =~= self.path_args());
        }
        materialize(Self::BASE_URI, "/repos/{}/{}/transfer", &args)
    }
}

impl<'a> ApiExt for TransferARepository<'a> {
    const METHOD: Method = Method::Post;

    open spec fn essential_params(&self) -> Seq<(Seq<char>, Seq<char>)> {
        seq![("new_owner"@, self.new_owner@)]
    }

    open spec fn optional_params(&self) -> Seq<(Seq<char>, Option<Seq<char>>)> {
        Seq::empty()
    }

    fn payload_params(&self) -> (params: Vec<(&'static str, String)>) {
        let mut essential: Vec<(&'static str, String)> = Vec::new();
        essential.push(("new_owner", String::from_str(self.new_owner)));
        let optional: Vec<(&'static str, Option<String>)> = Vec::new();
        proof {
            assert(param_views(essential@) =~= self.essential_params());
            assert(optional_views(optional@) =~= self.optional_params());
        }
        project(essential, &optional)
    }
}

/// Build a [`TransferARepository`] instance.
pub fn transfer_a_repository<'a>(
    owner: &'a str,
    repo: &'a str,
    new_owner: &'a str,
) -> (request: TransferARepository<'a>)
    ensures
        request == TransferARepository::initial(owner, repo, new_owner),
{
    TransferARepository::new(owner, repo, new_owner)
}

/// GitHub reference(s):
///  - <https://docs.github.com/en/rest/repos/repos#check-if-vulnerability-alerts-are-enabled-for-a-repository>
#[derive(Debug, Clone, PartialEq, Eq)]
pub struct CheckIfVulnerabilityAlertsAreEnabledForARepository<'a> {
    pub owner: &'a str,
    pub repo: &'a str,
}

impl<'a> CheckIfVulnerabilityAlertsAreEnabledForARepository<'a> {
    /// What `new` builds: the given values, and every optional parameter
    /// absent.
    pub open spec fn initial(owner: &'a str, repo: &'a str) -> Self {
        CheckIfVulnerabilityAlertsAreEnabledForARepository {
            owner,
            repo,
        }
    }

    /// Build a [`CheckIfVulnerabilityAlertsAreEnabledForARepository`] instance.
    pub fn new(owner: &'a str, repo: &'a str) -> (request: Self)
        ensures
            request == Self::initial(owner, repo),
    {
        CheckIfVulnerabilityAlertsAreEnabledForARepository {
            owner,
            repo,
        }
    }

    /// Set a new [`owner`](CheckIfVulnerabilityAlertsAreEnabledForARepository#structfield.owner).
    pub fn owner(self, owner: &'a str) -> (request: Self)
        ensures
            request == (CheckIfVulnerabilityAlertsAreEnabledForARepository { owner, ..self }),
    {
        CheckIfVulnerabilityAlertsAreEnabledForARepository { owner, ..self }
    }

    /// Set a new [`repo`](CheckIfVulnerabilityAlertsAreEnabledForARepository#structfield.repo).
    pub fn repo(self, repo: &'a str) -> (request: Self)
        ensures
            request == (CheckIfVulnerabilityAlertsAreEnabledForARepository { repo, ..self }),
    {
        CheckIfVulnerabilityAlertsAreEnabledForARepository { repo, ..self }
    }

    /// The URI template has one placeholder for each path parameter.
    pub proof fn lemma_template_fits(&self)
        ensures
            placeholder_count(self.uri_template()) == self.path_args().len(),
    {
        reveal_strlit("/repos/{}/{}/vulnerability-alerts");
        reveal_with_fuel(count_from, 34);
    }
}

impl<'a> Api for CheckIfVulnerabilityAlertsAreEnabledForARepository<'a> {
    const ACCEPT: &'static str = "application/vnd.github+json";

    open spec fn uri_template(&self) -> Seq<char> {
        "/repos/{}/{}/vulnerability-alerts"@
    }

    open spec fn path_args(&self) -> Seq<Seq<char>> {
        seq![self.owner@, self.repo@]
    }

    fn api(&self) -> (uri: String) {
        let mut args: Vec<String> = Vec::new();
        args.push(String::from_str(self.owner));
        args.push(String::from_str(self.repo));
        proof {
            self.lemma_template_fits();
            assert(texts(args@) =~= self.path_args());
        }
        materialize(Self::BASE_URI, "/repos/{}/{}/vulnerability-alerts", &args)
    }
}

impl<'a> ApiExt for CheckIfVulnerabilityAlertsAreEnabledForARepository<'a> {
    const METHOD: Method = Method::Get;

    open spec fn essential_params(&self) -> Seq<(Seq<char>, Seq<char>)> {
        Seq::empty()
    }

    open spec fn optional_params(&self) -> Seq<(Seq<char>, Option<Seq<char>>)> {
        Seq::empty()
    }

    fn payload_params(&self) -> (params: Vec<(&'static str, String)>) {
        let essential: Vec<(&'static str, String)> = Vec::new();
        let optional: Vec<(&'static str, Option<String>)> = Vec::new();
        proof {
            assert(param_views(essential@) =~= self.essential_params());
            assert(optional_views(optional@) =~= self.optional_params());
        }
        project(essential, &optional)
    }
}

/// Build a [`CheckIfVulnerabilityAlertsAreEnabledForARepository`] instance.
pub fn check_if_vulnerability_alerts_are_enabled_for_a_repository<'a>(
    owner: &'a str,
    repo: &'a str,
) -> (request: CheckIfVulnerabilityAlertsAreEnabledForARepository<'a>)
    ensures
        request == CheckIfVulnerabilityAlertsAreEnabledForARepository::initial(owner, repo),
{
    CheckIfVulnerabilityAlertsAreEnabledForARepository::new(owner, repo)
}

/// GitHub reference(s):
///  - <https://docs.github.com/en/rest/repos/repos#enable-vulnerability-alerts>
#[derive(Debug, Clone, PartialEq, Eq)]
pub struct EnableVulnerabilityAlerts<'a> {
    pub owner: &'a str,
    pub repo: &'a str,
}

impl<'a> EnableVulnerabilityAlerts<'a> {
    /// What `new` builds: the given values, and every optional parameter
    /// absent.
    pub open spec fn initial(owner: &'a str, repo: &'a str) -> Self {
        EnableVulnerabilityAlerts {
            owner,
            repo,
        }
    }

    /// Build a [`EnableVulnerabilityAlerts`] instance.
    pub fn new(owner: &'a str, repo: &'a str) -> (request: Self)
        ensures
            request == Self::initial(owner, repo),
    {
        EnableVulnerabilityAlerts {
            owner,
            repo,
        }
    }

    /// Set a new [`owner`](EnableVulnerabilityAlerts#structfield.owner).
    pub fn owner(self, owner: &'a str) -> (request: Self)
        ensures
            request == (EnableVulnerabilityAlerts { owner, ..self }),
    {
        EnableVulnerabilityAlerts { owner, ..self }
    }

    /// Set a new [`repo`](EnableVulnerabilityAlerts#structfield.repo).
    pub fn repo(self, repo: &'a str) -> (request: Self)
        ensures
            request == (EnableVulnerabilityAlerts { repo, ..self }),
    {
        EnableVulnerabilityAlerts { repo, ..self }
    }

    /// The URI template has one placeholder for each path parameter.
    pub proof fn lemma_template_fits(&self)
        ensures
            placeholder_count(self.uri_template()) == self.path_args().len(),
    {
        reveal_strlit("/repos/{}/{}/vulnerability-alerts");
        reveal_with_fuel(count_from, 34);
    }
}

impl<'a> Api for EnableVulnerabilityAlerts<'a> {
    const ACCEPT: &'static str = "application/vnd.github+json";

    open spec fn uri_template(&self) -> Seq<char> {
        "/repos/{}/{}/vulnerability-alerts"@
    }

    open spec fn path_args(&self) -> Seq<Seq<char>> {
        seq![self.owner@, self.repo@]
    }

    fn api(&self) -> (uri: String) {
        let mut args: Vec<String> = Vec::new();
        args.push(String::from_str(self.owner));
        args.push(String::from_str(self.repo));
        proof {
            self.lemma_template_fits();
            assert(texts(args@) =~= self.path_args());
        }
        materialize(Self::BASE_URI, "/repos/{}/{}/vulnerability-alerts", &args)
    }
}

impl<'a> ApiExt for EnableVulnerabilityAlerts<'a> {
    const METHOD: Method = Method::Put;

    open spec fn essential_params(&self) -> Seq<(Seq<char>, Seq<char>)> {
        Seq::empty()
    }

    open spec fn optional_params(&self) -> Seq<(Seq<char>, Option<Seq<char>>)> {
        Seq::empty()
    }

    fn payload_params(&self) -> (params: Vec<(&'static str, String)>) {
        let essential: Vec<(&'static str, String)> = Vec::new();
        let optional: Vec<(&'static str, Option<String>)> = Vec::new();
        proof {
            assert(param_views(essential@) =~= self.essential_params());
            assert(optional_views(optional@) =~= self.optional_params());
        }
        project(essential, &optional)
    }
}

/// Build a [`EnableVulnerabilityAlerts`] instance.
pub fn enable_vulnerability_alerts<'a>(
    owner: &'a str,
    repo: &'a str,
) -> (request: EnableVulnerabilityAlerts<'a>)
    ensures
        request == EnableVulnerabilityAlerts::initial(owner, repo),
{
    EnableVulnerabilityAlerts::new(owner, repo)
}

/// GitHub reference(s):
///  - <https://docs.github.com/en/rest/repos/repos#disable-vulnerability-alerts>
#[derive(Debug, Clone, PartialEq, Eq)]
pub struct DisableVulnerabilityAlerts<'a> {
    pub owner: &'a str,
    pub repo: &'a str,
}

impl<'a> DisableVulnerabilityAlerts<'a> {
    /// What `new` builds: the given values, and every optional parameter
    /// absent.
    pub open spec fn initial(owner: &'a str, repo: &'a str) -> Self {
        DisableVulnerabilityAlerts {
            owner,
            repo,
        }
    }

    /// Build a [`DisableVulnerabilityAlerts`] instance.
    pub fn new(owner: &'a str, repo: &'a str) -> (request: Self)
        ensures
            request == Self::initial(owner, repo),
    {
        DisableVulnerabilityAlerts {
            owner,
            repo,
        }
    }

    /// Set a new [`owner`](DisableVulnerabilityAlerts#structfield.owner).
    pub fn owner(self, owner: &'a str) -> (request: Self)
        ensures
            request == (DisableVulnerabilityAlerts { owner, ..self }),
    {
        DisableVulnerabilityAlerts { owner, ..self }
    }

    /// Set a new [`repo`](DisableVulnerabilityAlerts#structfield.repo).
    pub fn repo(self, repo: &'a str) -> (request: Self)
        ensures
            request == (DisableVulnerabilityAlerts { repo, ..self }),
    {
        DisableVulnerabilityAlerts { repo, ..self }
    }

    /// The URI template has one placeholder for each path parameter.
    pub proof fn lemma_template_fits(&self)
        ensures
            placeholder_count(self.uri_template()) == self.path_args().len(),
    {
        reveal_strlit("/repos/{}/{}/vulnerability-alerts");
        reveal_with_fuel(count_from, 34);
    }
}

impl<'a> Api for DisableVulnerabilityAlerts<'a> {
    const ACCEPT: &'static str = "application/vnd.github+json";

    open spec fn uri_template(&self) -> Seq<char> {
        "/repos/{}/{}/vulnerability-alerts"@
    }

    open spec fn path_args(&self) -> Seq<Seq<char>> {
        seq![self.owner@, self.repo@]
    }

    fn api(&self) -> (uri: String) {
        let mut args: Vec<String> = Vec::new();
        args.push(String::from_str(self.owner));
        args.push(String::from_str(self.repo));
        proof {
            self.lemma_template_fits();
            assert(texts(args@) =~= self.path_args());
        }
        materialize(Self::BASE_URI, "/repos/{}/{}/vulnerability-alerts", &args)
    }
}

impl<'a> ApiExt for DisableVulnerabilityAlerts<'a> {
    const METHOD: Method = Method::Delete;

    open spec fn essential_params(&self) -> Seq<(Seq<char>, Seq<char>)> {
        Seq::empty()
    }

    open spec fn optional_params(&self) -> Seq<(Seq<char>, Option<Seq<char>>)> {
        Seq::empty()
    }

    fn payload_params(&self) -> (params: Vec<(&'static str, String)>) {
        let essential: Vec<(&'static str, String)> = Vec::new();
        let optional: Vec<(&'static str, Option<String>)> = Vec::new();
        proof {
            assert(param_views(essential@) =~= self.essential_params());
            assert(optional_views(optional@) =~= self.optional_params());
        }
        project(essential, &optional)
    }
}

/// Build a [`DisableVulnerabilityAlerts`] instance.
pub fn disable_vulnerability_alerts<'a>(
    owner: &'a str,
    repo: &'a str,
) -> (request: DisableVulnerabilityAlerts<'a>)
    ensures
        request == DisableVulnerabilityAlerts::initial(owner, repo),
{
    DisableVulnerabilityAlerts::new(owner, repo)
}

/// GitHub reference(s):
///  - <https://docs.github.com/en/rest/repos/repos#create-a-repository-using-a-template>
#[derive(Debug, Clone, PartialEq, Eq)]
pub struct CreateARepositoryUsingATemplate<'a> {
    pub template_owner: &'a str,
    pub template_repo: &'a str,
    pub name: &'a str,
    pub owner: Option<&'a str>,
    pub description: Option<&'a str>,
    pub include_all_branches: Option<bool>,
    pub private: Option<bool>,
}

impl<'a> CreateARepositoryUsingATemplate<'a> {
    /// What `new` builds: the given values, and every optional parameter
    /// absent.
    pub open spec fn initial(
        template_owner: &'a str,
        template_repo: &'a str,
        name: &'a str,
    ) -> Self {
        CreateARepositoryUsingATemplate {
            template_owner,
            template_repo,
            name,
            owner: None,
            description: None,
            include_all_branches: None,
            private: None,
        }
    }

    /// Build a [`CreateARepositoryUsingATemplate`] instance.
    pub fn new(template_owner: &'a str, template_repo: &'a str, name: &'a str) -> (request: Self)
        ensures
            request == Self::initial(template_owner, template_repo, name),
    {
        CreateARepositoryUsingATemplate {
            template_owner,
            template_repo,
            name,
            owner: None,
            description: None,
            include_all_branches: None,
            private: None,
        }
    }

    /// Set a new [`template_owner`](CreateARepositoryUsingATemplate#structfield.template_owner).
    pub fn template_owner(self, template_owner: &'a str) -> (request: Self)
        ensures
            request == (CreateARepositoryUsingATemplate { template_owner, ..self }),
    {
        CreateARepositoryUsingATemplate { template_owner, ..self }
    }

    /// Set a new [`template_repo`](CreateARepositoryUsingATemplate#structfield.template_repo).
    pub fn template_repo(self, template_repo: &'a str) -> (request: Self)
        ensures
            request == (CreateARepositoryUsingATemplate { template_repo, ..self }),
    {
        CreateARepositoryUsingATemplate { template_repo, ..self }
    }

    /// Set a new [`name`](CreateARepositoryUsingATemplate#structfield.name).
    pub fn name(self, name: &'a str) -> (request: Self)
        ensures
            request == (CreateARepositoryUsingATemplate { name, ..self }),
    {
        CreateARepositoryUsingATemplate { name, ..self }
    }

    /// Set a new [`owner`](CreateARepositoryUsingATemplate#structfield.owner).
    pub fn owner(self, owner: &'a str) -> (request: Self)
        ensures
            request == (CreateARepositoryUsingATemplate { owner: Some(owner), ..self }),
    {
        CreateARepositoryUsingATemplate { owner: Some(owner), ..self }
    }

    /// Set a new [`description`](CreateARepositoryUsingATemplate#structfield.description).
    pub fn description(self, description: &'a str) -> (request: Self)
        ensures
            request == (CreateARepositoryUsingATemplate { description: Some(description), ..self }),
    {
        CreateARepositoryUsingATemplate { description: Some(description), ..self }
    }

    /// Set a new [`include_all_branches`](CreateARepositoryUsingATemplate#structfield.include_all_branches).
    pub fn include_all_branches(self, include_all_branches: bool) -> (request: Self)
        ensures
            request == (CreateARepositoryUsingATemplate {
                include_all_branches: Some(include_all_branches),
                ..self
            }),
    {
        CreateARepositoryUsingATemplate { include_all_branches: Some(include_all_branches), ..self }
    }

    /// Set a new [`private`](CreateARepositoryUsingATemplate#structfield.private).
    pub fn private(self, private: bool) -> (request: Self)
        ensures
            request == (CreateARepositoryUsingATemplate { private: Some(private), ..self }),
    {
        CreateARepositoryUsingATemplate { private: Some(private), ..self }
    }

    /// The URI template has one placeholder for each path parameter.
    pub proof fn lemma_template_fits(&self)
        ensures
            placeholder_count(self.uri_template()) == self.path_args().len(),
    {
        reveal_strlit("/repos/{}/{}/generate");
        reveal_with_fuel(count_from, 22);
    }
}

impl<'a> Api for CreateARepositoryUsingATemplate<'a> {
    const ACCEPT: &'static str = "application/vnd.github+json";

    open spec fn uri_template(&self) -> Seq<char> {
        "/repos/{}/{}/generate"@
    }

    open spec fn path_args(&self) -> Seq<Seq<char>> {
        seq![self.template_owner@, self.template_repo@]
    }

    fn api(&self) -> (uri: String) {
        let mut args: Vec<String> = Vec::new();
        args.push(String::from_str(self.template_owner));
        args.push(String::from_str(self.template_repo));
        proof {
            self.lemma_template_fits();
            assert(texts(args@) =~= self.path_args());
        }
        materialize(Self::BASE_URI, "/repos/{}/{}/generate", &args)
    }
}

impl<'a> ApiExt for CreateARepositoryUsingATemplate<'a> {
    const METHOD: Method = Method::Post;

    open spec fn essential_params(&self) -> Seq<(Seq<char>, Seq<char>)> {
        seq![("name"@, self.name@)]
    }

    open spec fn optional_params(&self) -> Seq<(Seq<char>, Option<Seq<char>>)> {
        seq![
            ("owner"@, opt_text(self.owner)),
            ("description"@, opt_text(self.description)),
            ("include_all_branches"@, opt_bool(self.include_all_branches)),
            ("private"@, opt_bool(self.private)),
        ]
    }

    fn payload_params(&self) -> (params: Vec<(&'static str, String)>) {
        let mut essential: Vec<(&'static str, String)> = Vec::new();
        essential.push(("name", String::from_str(self.name)));
        let mut optional: Vec<(&'static str, Option<String>)> = Vec::new();
        optional.push(("owner", text_opt(self.owner)));
        optional.push(("description", text_opt(self.description)));
        optional.push(("include_all_branches", bool_opt(self.include_all_branches)));
        optional.push(("private", bool_opt(self.private)));
        proof {
            assert(param_views(essential@) =~= self.essential_params());
            assert(optional_views(optional@) =~= self.optional_params());
        }
        project(essential, &optional)
    }
}

/// Build a [`CreateARepositoryUsingATemplate`] instance.
pub fn create_a_repository_using_a_template<'a>(
    template_owner: &'a str,
    template_repo: &'a str,
    name: &'a str,
) -> (request: CreateARepositoryUsingATemplate<'a>)
    ensures
        request == CreateARepositoryUsingATemplate::initial(template_owner, template_repo, name),
{
    CreateARepositoryUsingATemplate::new(template_owner, template_repo, name)
}

/// GitHub reference(s):
///  - <https://docs.github.com/en/rest/repos/repos#list-public-repositories>
#[derive(Debug, Clone, PartialEq, Eq)]
pub struct ListPublicRepositories {
    pub since: Option<u32>,
}

impl ListPublicRepositories {
    /// What `new` builds: the given values, and every optional parameter
    /// absent.
    pub open spec fn initial() -> Self {
        ListPublicRepositories {
            since: None,
        }
    }

    /// Build a [`ListPublicRepositories`] instance.
    pub fn new() -> (request: Self)
        ensures
            request == Self::initial(),
    {
        ListPublicRepositories {
            since: None,
        }
    }

    /// Set a new [`since`](ListPublicRepositories#structfield.since).
    pub fn since(self, since: u32) -> (request: Self)
        ensures
            request == (ListPublicRepositories { since: Some(since), ..self }),
    {
        ListPublicRepositories { since: Some(since), ..self }
    }

    /// The URI template has one placeholder for each path parameter.
    pub proof fn lemma_template_fits(&self)
        ensures
            placeholder_count(self.uri_template()) == self.path_args().len(),
    {
        reveal_strlit("/repositories");
        reveal_with_fuel(count_from, 14);
    }
}

impl Api for ListPublicRepositories {
    const ACCEPT: &'static str = "application/vnd.github+json";

    open spec fn uri_template(&self) -> Seq<char> {
        "/repositories"@
    }

    open spec fn path_args(&self) -> Seq<Seq<char>> {
        Seq::empty()
    }

    fn api(&self) -> (uri: String) {
        let args: Vec<String> = Vec::new();
        proof {
            self.lemma_template_fits();
            assert(texts(args@) =~= self.path_args());
        }
        materialize(Self::BASE_URI, "/repositories", &args)
    }
}

impl ApiExt for ListPublicRepositories {
    const METHOD: Method = Method::Get;

    open spec fn essential_params(&self) -> Seq<(Seq<char>, Seq<char>)> {
        Seq::empty()
    }

    open spec fn optional_params(&self) -> Seq<(Seq<char>, Option<Seq<char>>)> {
        seq![
            ("since"@, opt_u32(self.since)),
        ]
    }

    fn payload_params(&self) -> (params: Vec<(&'static str, String)>) {
        let essential: Vec<(&'static str, String)> = Vec::new();
        let mut optional: Vec<(&'static str, Option<String>)> = Vec::new();
        optional.push(("since", u32_opt(self.since)));
        proof {
            assert(param_views(essential@) =~= self.essential_params());
            assert(optional_views(optional@) =~= self.optional_params());
        }
        project(essential, &optional)
    }
}

/// Build a [`ListPublicRepositories`] instance.
pub fn list_public_repositories() -> (request: ListPublicRepositories)
    ensures
        request == ListPublicRepositories::initial(),
{
    ListPublicRepositories::new()
}

/// GitHub reference(s):
///  - <https://docs.github.com/en/rest/repos/repos#list-repositories-for-the-authenticated-user>
#[derive(Debug, Clone, PartialEq, Eq)]
pub struct ListRepositoriesForTheAuthenticatedUser<'a> {
    pub visibility: Option<&'a str>,
    pub affiliation: Option<&'a str>,
    pub type_: Option<&'a str>,
    pub sort: Option<&'a str>,
    pub direction: Option<&'a str>,
    pub per_page: Option<u8>,
    pub page: Option<u16>,
    pub since: Option<&'a str>,
    pub before: Option<&'a str>,
}

impl<'a> ListRepositoriesForTheAuthenticatedUser<'a> {
    /// What `new` builds: the given values, and every optional parameter
    /// absent.
    pub open spec fn initial() -> Self {
        ListRepositoriesForTheAuthenticatedUser {
            visibility: None,
            affiliation: None,
            type_: None,
            sort: None,
            direction: None,
            per_page: None,
            page: None,
            since: None,
            before: None,
        }
    }

    /// Build a [`ListRepositoriesForTheAuthenticatedUser`] instance.
    pub fn new() -> (request: Self)
        ensures
            request == Self::initial(),
    {
        ListRepositoriesForTheAuthenticatedUser {
            visibility: None,
            affiliation: None,
            type_: None,
            sort: None,
            direction: None,
            per_page: None,
            page: None,
            since: None,
            before: None,
        }
    }

    /// Set a new [`visibility`](ListRepositoriesForTheAuthenticatedUser#structfield.visibility).
    pub fn visibility(self, visibility: &'a str) -> (request: Self)
        ensures
            request == (ListRepositoriesForTheAuthenticatedUser {
                visibility: Some(visibility),
                ..self
            }),
    {
        ListRepositoriesForTheAuthenticatedUser { visibility: Some(visibility), ..self }
    }

    /// Set a new [`affiliation`](ListRepositoriesForTheAuthenticatedUser#structfield.affiliation).
    pub fn affiliation(self, affiliation: &'a str) -> (request: Self)
        ensures
            request == (ListRepositoriesForTheAuthenticatedUser {
                affiliation: Some(affiliation),
                ..self
            }),
    {
        ListRepositoriesForTheAuthenticatedUser { affiliation: Some(affiliation), ..self }
    }

    /// Set a new [`type_`](ListRepositoriesForTheAuthenticatedUser#structfield.type_).
    pub fn type_(self, type_: &'a str) -> (request: Self)
        ensures
            request == (ListRepositoriesForTheAuthenticatedUser { type_: Some(type_), ..self }),
    {
        ListRepositoriesForTheAuthenticatedUser { type_: Some(type_), ..self }
    }

    /// Set a new [`sort`](ListRepositoriesForTheAuthenticatedUser#structfield.sort).
    pub fn sort(self, sort: &'a str) -> (request: Self)
        ensures
            request == (ListRepositoriesForTheAuthenticatedUser { sort: Some(sort), ..self }),
    {
        ListRepositoriesForTheAuthenticatedUser { sort: Some(sort), ..self }
    }

    /// Set a new [`direction`](ListRepositoriesForTheAuthenticatedUser#structfield.direction).
    pub fn direction(self, direction: &'a str) -> (request: Self)
        ensures
            request == (ListRepositoriesForTheAuthenticatedUser {
                direction: Some(direction),
                ..self
            }),
    {
        ListRepositoriesForTheAuthenticatedUser { direction: Some(direction), ..self }
    }

    /// Set a new [`per_page`](ListRepositoriesForTheAuthenticatedUser#structfield.per_page).
    pub fn per_page(self, per_page: u8) -> (request: Self)
        ensures
            request == (ListRepositoriesForTheAuthenticatedUser {
                per_page: Some(per_page),
                ..self
            }),
    {
        ListRepositoriesForTheAuthenticatedUser { per_page: Some(per_page), ..self }
    }

    /// Set a new [`page`](ListRepositoriesForTheAuthenticatedUser#structfield.page).
    pub fn page(self, page: u16) -> (request: Self)
        ensures
            request == (ListRepositoriesForTheAuthenticatedUser { page: Some(page), ..self }),
    {
        ListRepositoriesForTheAuthenticatedUser { page: Some(page), ..self }
    }

    /// Set a new [`since`](ListRepositoriesForTheAuthenticatedUser#structfield.since).
    pub fn since(self, since: &'a str) -> (request: Self)
        ensures
            request == (ListRepositoriesForTheAuthenticatedUser { since: Some(since), ..self }),
    {
        ListRepositoriesForTheAuthenticatedUser { since: Some(since), ..self }
    }

    /// Set a new [`before`](ListRepositoriesForTheAuthenticatedUser#structfield.before).
    pub fn before(self, before: &'a str) -> (request: Self)
        ensures
            request == (ListRepositoriesForTheAuthenticatedUser { before: Some(before), ..self }),
    {
        ListRepositoriesForTheAuthenticatedUser { before: Some(before), ..self }
    }

    /// The URI template has one placeholder for each path parameter.
    pub proof fn lemma_template_fits(&self)
        ensures
            placeholder_count(self.uri_template()) == self.path_args().len(),
    {
        reveal_strlit("/user/repos");
        reveal_with_fuel(count_from, 12);
    }
}

impl<'a> Api for ListRepositoriesForTheAuthenticatedUser<'a> {
    const ACCEPT: &'static str = "application/vnd.github+json";

    open spec fn uri_template(&self) -> Seq<char> {
        "/user/repos"@
    }

    open spec fn path_args(&self) -> Seq<Seq<char>> {
        Seq::empty()
    }

    fn api(&self) -> (uri: String) {
        let args: Vec<String> = Vec::new();
        proof {
            self.lemma_template_fits();
            assert(texts(args@) =~= self.path_args());
        }
        materialize(Self::BASE_URI, "/user/repos", &args)
    }
}

impl<'a> ApiExt for ListRepositoriesForTheAuthenticatedUser<'a> {
    const METHOD: Method = Method::Get;

    open spec fn essential_params(&self) -> Seq<(Seq<char>, Seq<char>)> {
        Seq::empty()
    }

    open spec fn optional_params(&self) -> Seq<(Seq<char>, Option<Seq<char>>)> {
        seq![
            ("visibility"@, opt_text(self.visibility)),
            ("affiliation"@, opt_text(self.affiliation)),
            ("type"@, opt_text(self.type_)),
            ("sort"@, opt_text(self.sort)),
            ("direction"@, opt_text(self.direction)),
            ("per_page"@, opt_u8(self.per_page)),
            ("page"@, opt_u16(self.page)),
            ("since"@, opt_text(self.since)),
            ("before"@, opt_text(self.before)),
        ]
    }

    fn payload_params(&self) -> (params: Vec<(&'static str, String)>) {
        let essential: Vec<(&'static str, String)> = Vec::new();
        let mut optional: Vec<(&'static str, Option<String>)> = Vec::new();
        optional.push(("visibility", text_opt(self.visibility)));
        optional.push(("affiliation", text_opt(self.affiliation)));
        optional.push(("type", text_opt(self.type_)));
        optional.push(("sort", text_opt(self.sort)));
        optional.push(("direction", text_opt(self.direction)));
        optional.push(("per_page", u8_opt(self.per_page)));
        optional.push(("page", u16_opt(self.page)));
        optional.push(("since", text_opt(self.since)));
        optional.push(("before", text_opt(self.before)));
        proof {
            assert(param_views(essential@) =~= self.essential_params());
            assert(optional_views(optional@) =~= self.optional_params());
        }
        project(essential, &optional)
    }
}

/// Build a [`ListRepositoriesForTheAuthenticatedUser`] instance.
pub fn list_repositories_for_the_authenticated_user<'a>(
) -> (request: ListRepositoriesForTheAuthenticatedUser<'a>)
    ensures
        request == ListRepositoriesForTheAuthenticatedUser::initial(),
{
    ListRepositoriesForTheAuthenticatedUser::new()
}

/// GitHub reference(s):
///  - <https://docs.github.com/en/rest/repos/repos#create-a-repository-for-the-authenticated-user>
#[derive(Debug, Clone, PartialEq, Eq)]
pub struct CreateARepositoryForTheAuthenticatedUser<'a> {
    pub name: &'a str,
    pub description: Option<&'a str>,
    pub homepage: Option<&'a str>,
    pub private: Option<bool>,
    pub has_issues: Option<bool>,
    pub has_projects: Option<bool>,
    pub has_wiki: Option<bool>,
    pub has_discussions: Option<bool>,
    pub team_id: Option<u8>,
    pub auto_init: Option<bool>,
    pub gitignore_template: Option<&'a str>,
    pub license_template: Option<&'a str>,
    pub allow_squash_merge: Option<bool>,
    pub allow_merge_commit: Option<bool>,
    pub allow_rebase_merge: Option<bool>,
    pub allow_auto_merge: Option<bool>,
    pub delete_branch_on_merge: Option<bool>,
    pub squash_merge_commit_title: Option<&'a str>,
    pub squash_merge_commit_message: Option<&'a str>,
    pub merge_commit_title: Option<&'a str>,
    pub merge_commit_message: Option<&'a str>,
    pub has_downloads: Option<bool>,
    pub is_template: Option<bool>,
}

impl<'a> CreateARepositoryForTheAuthenticatedUser<'a> {
    /// What `new` builds: the given values, and every optional parameter
    /// absent.
    pub open spec fn initial(name: &'a str) -> Self {
        CreateARepositoryForTheAuthenticatedUser {
            name,
            description: None,
            homepage: None,
            private: None,
            has_issues: None,
            has_projects: None,
            has_wiki: None,
            has_discussions: None,
            team_id: None,
            auto_init: None,
            gitignore_template: None,
            license_template: None,
            allow_squash_merge: None,
            allow_merge_commit: None,
            allow_rebase_merge: None,
            allow_auto_merge: None,
            delete_branch_on_merge: None,
            squash_merge_commit_title: None,
            squash_merge_commit_message: None,
            merge_commit_title: None,
            merge_commit_message: None,
            has_downloads: None,
            is_template: None,
        }
    }

    /// Build a [`CreateARepositoryForTheAuthenticatedUser`] instance.
    pub fn new(name: &'a str) -> (request: Self)
        ensures
            request == Self::initial(name),
    {
        CreateARepositoryForTheAuthenticatedUser {
            name,
            description: None,
            homepage: None,
            private: None,
            has_issues: None,
            has_projects: None,
            has_wiki: None,
            has_discussions: None,
            team_id: None,
            auto_init: None,
            gitignore_template: None,
            license_template: None,
            allow_squash_merge: None,
            allow_merge_commit: None,
            allow_rebase_merge: None,
            allow_auto_merge: None,
            delete_branch_on_merge: None,
            squash_merge_commit_title: None,
            squash_merge_commit_message: None,
            merge_commit_title: None,
            merge_commit_message: None,
            has_downloads: None,
            is_template: None,
        }
    }

    /// Set a new [`name`](CreateARepositoryForTheAuthenticatedUser#structfield.name).
    pub fn name(self, name: &'a str) -> (request: Self)
        ensures
            request == (CreateARepositoryForTheAuthenticatedUser { name, ..self }),
    {
        CreateARepositoryForTheAuthenticatedUser { name, ..self }
    }

    /// Set a new [`description`](CreateARepositoryForTheAuthenticatedUser#structfield.description).
    pub fn description(self, description: &'a str) -> (request: Self)
        ensures
            request == (CreateARepositoryForTheAuthenticatedUser {
                description: Some(description),
                ..self
            }),
    {
        CreateARepositoryForTheAuthenticatedUser { description: Some(description), ..self }
    }

    /// Set a new [`homepage`](CreateARepositoryForTheAuthenticatedUser#structfield.homepage).
    pub fn homepage(self, homepage: &'a str) -> (request: Self)
        ensures
            request == (CreateARepositoryForTheAuthenticatedUser {
                homepage: Some(homepage),
                ..self
            }),
    {
        CreateARepositoryForTheAuthenticatedUser { homepage: Some(homepage), ..self }
    }

    /// Set a new [`private`](CreateARepositoryForTheAuthenticatedUser#structfield.private).
    pub fn private(self, private: bool) -> (request: Self)
        ensures
            request == (CreateARepositoryForTheAuthenticatedUser {
                private: Some(private),
                ..self
            }),
    {
        CreateARepositoryForTheAuthenticatedUser { private: Some(private), ..self }
    }

    /// Set a new [`has_issues`](CreateARepositoryForTheAuthenticatedUser#structfield.has_issues).
    pub fn has_issues(self, has_issues: bool) -> (request: Self)
        ensures
            request == (CreateARepositoryForTheAuthenticatedUser {
                has_issues: Some(has_issues),
                ..self
            }),
    {
        CreateARepositoryForTheAuthenticatedUser { has_issues: Some(has_issues), ..self }
    }

    /// Set a new [`has_projects`](CreateARepositoryForTheAuthenticatedUser#structfield.has_projects).
    pub fn has_projects(self, has_projects: bool) -> (request: Self)
        ensures
            request == (CreateARepositoryForTheAuthenticatedUser {
                has_projects: Some(has_projects),
                ..self
            }),
    {
        CreateARepositoryForTheAuthenticatedUser { has_projects: Some(has_projects), ..self }
    }

    /// Set a new [`has_wiki`](CreateARepositoryForTheAuthenticatedUser#structfield.has_wiki).
    pub fn has_wiki(self, has_wiki: bool) -> (request: Self)
        ensures
            request == (CreateARepositoryForTheAuthenticatedUser {
                has_wiki: Some(has_wiki),
                ..self
            }),
    {
        CreateARepositoryForTheAuthenticatedUser { has_wiki: Some(has_wiki), ..self }
    }

    /// Set a new [`has_discussions`](CreateARepositoryForTheAuthenticatedUser#structfield.has_discussions).
    pub fn has_discussions(self, has_discussions: bool) -> (request: Self)
        ensures
            request == (CreateARepositoryForTheAuthenticatedUser {
                has_discussions: Some(has_discussions),
                ..self
            }),
    {
        CreateARepositoryForTheAuthenticatedUser { has_discussions: Some(has_discussions), ..self }
    }

    /// Set a new [`team_id`](CreateARepositoryForTheAuthenticatedUser#structfield.team_id).
    pub fn team_id(self, team_id: u8) -> (request: Self)
        ensures
            request == (CreateARepositoryForTheAuthenticatedUser {
                team_id: Some(team_id),
                ..self
            }),
    {
        CreateARepositoryForTheAuthenticatedUser { team_id: Some(team_id), ..self }
    }

    /// Set a new [`auto_init`](CreateARepositoryForTheAuthenticatedUser#structfield.auto_init).
    pub fn auto_init(self, auto_init: bool) -> (request: Self)
        ensures
            request == (CreateARepositoryForTheAuthenticatedUser {
                auto_init: Some(auto_init),
                ..self
            }),
    {
        CreateARepositoryForTheAuthenticatedUser { auto_init: Some(auto_init), ..self }
    }

    /// Set a new [`gitignore_template`](CreateARepositoryForTheAuthenticatedUser#structfield.gitignore_template).
    pub fn gitignore_template(self, gitignore_template: &'a str) -> (request: Self)
        ensures
            request == (CreateARepositoryForTheAuthenticatedUser {
                gitignore_template: Some(gitignore_template),
                ..self
            }),
    {
        CreateARepositoryForTheAuthenticatedUser {
            gitignore_template: Some(gitignore_template),
            ..self
        }
    }

    /// Set a new [`license_template`](CreateARepositoryForTheAuthenticatedUser#structfield.license_template).
    pub fn license_template(self, license_template: &'a str) -> (request: Self)
        ensures
            request == (CreateARepositoryForTheAuthenticatedUser {
                license_template: Some(license_template),
                ..self
            }),
    {
        CreateARepositoryForTheAuthenticatedUser {
            license_template: Some(license_template),
            ..self
        }
    }

    /// Set a new [`allow_squash_merge`](CreateARepositoryForTheAuthenticatedUser#structfield.allow_squash_merge).
    pub fn allow_squash_merge(self, allow_squash_merge: bool) -> (request: Self)
        ensures
            request == (CreateARepositoryForTheAuthenticatedUser {
                allow_squash_merge: Some(allow_squash_merge),
                ..self
            }),
    {
        CreateARepositoryForTheAuthenticatedUser {
            allow_squash_merge: Some(allow_squash_merge),
            ..self
        }
    }

    /// Set a new [`allow_merge_commit`](CreateARepositoryForTheAuthenticatedUser#structfield.allow_merge_commit).
    pub fn allow_merge_commit(self, allow_merge_commit: bool) -> (request: Self)
        ensures
            request == (CreateARepositoryForTheAuthenticatedUser {
                allow_merge_commit: Some(allow_merge_commit),
                ..self
            }),
    {
        CreateARepositoryForTheAuthenticatedUser {
            allow_merge_commit: Some(allow_merge_commit),
            ..self
        }
    }

    /// Set a new [`allow_rebase_merge`](CreateARepositoryForTheAuthenticatedUser#structfield.allow_rebase_merge).
    pub fn allow_rebase_merge(self, allow_rebase_merge: bool) -> (request: Self)
        ensures
            request == (CreateARepositoryForTheAuthenticatedUser {
                allow_rebase_merge: Some(allow_rebase_merge),
                ..self
            }),
    {
        CreateARepositoryForTheAuthenticatedUser {
            allow_rebase_merge: Some(allow_rebase_merge),
            ..self
        }
    }

    /// Set a new [`allow_auto_merge`](CreateARepositoryForTheAuthenticatedUser#structfield.allow_auto_merge).
    pub fn allow_auto_merge(self, allow_auto_merge: bool) -> (request: Self)
        ensures
            request == (CreateARepositoryForTheAuthenticatedUser {
                allow_auto_merge: Some(allow_auto_merge),
                ..self
            }),
    {
        CreateARepositoryForTheAuthenticatedUser {
            allow_auto_merge: Some(allow_auto_merge),
            ..self
        }
    }

    /// Set a new [`delete_branch_on_merge`](CreateARepositoryForTheAuthenticatedUser#structfield.delete_branch_on_merge).
    pub fn delete_branch_on_merge(self, delete_branch_on_merge: bool) -> (request: Self)
        ensures
            request == (CreateARepositoryForTheAuthenticatedUser {
                delete_branch_on_merge: Some(delete_branch_on_merge),
                ..self
            }),
    {
        CreateARepositoryForTheAuthenticatedUser {
            delete_branch_on_merge: Some(delete_branch_on_merge),
            ..self
        }
    }

    /// Set a new [`squash_merge_commit_title`](CreateARepositoryForTheAuthenticatedUser#structfield.squash_merge_commit_title).
    pub fn squash_merge_commit_title(self, squash_merge_commit_title: &'a str) -> (request: Self)
        ensures
            request == (CreateARepositoryForTheAuthenticatedUser {
                squash_merge_commit_title: Some(squash_merge_commit_title),
                ..self
            }),
    {
        CreateARepositoryForTheAuthenticatedUser {
            squash_merge_commit_title: Some(squash_merge_commit_title),
            ..self
        }
    }

    /// Set a new [`squash_merge_commit_message`](CreateARepositoryForTheAuthenticatedUser#structfield.squash_merge_commit_message).
    pub fn squash_merge_commit_message(
        self,
        squash_merge_commit_message: &'a str,
    ) -> (request: Self)
        ensures
            request == (CreateARepositoryForTheAuthenticatedUser {
                squash_merge_commit_message: Some(squash_merge_commit_message),
                ..self
            }),
    {
        CreateARepositoryForTheAuthenticatedUser {
            squash_merge_commit_message: Some(squash_merge_commit_message),
            ..self
        }
    }

    /// Set a new [`merge_commit_title`](CreateARepositoryForTheAuthenticatedUser#structfield.merge_commit_title).
    pub fn merge_commit_title(self, merge_commit_title: &'a str) -> (request: Self)
        ensures
            request == (CreateARepositoryForTheAuthenticatedUser {
                merge_commit_title: Some(merge_commit_title),
                ..self
            }),
    {
        CreateARepositoryForTheAuthenticatedUser {
            merge_commit_title: Some(merge_commit_title),
            ..self
        }
    }

    /// Set a new [`merge_commit_message`](CreateARepositoryForTheAuthenticatedUser#structfield.merge_commit_message).
    pub fn merge_commit_message(self, merge_commit_message: &'a str) -> (request: Self)
        ensures
            request == (CreateARepositoryForTheAuthenticatedUser {
                merge_commit_message: Some(merge_commit_message),
                ..self
            }),
    {
        CreateARepositoryForTheAuthenticatedUser {
            merge_commit_message: Some(merge_commit_message),
            ..self
        }
    }

    /// Set a new [`has_downloads`](CreateARepositoryForTheAuthenticatedUser#structfield.has_downloads).
    pub fn has_downloads(self, has_downloads: bool) -> (request: Self)
        ensures
            request == (CreateARepositoryForTheAuthenticatedUser {
                has_downloads: Some(has_downloads),
                ..self
            }),
    {
        CreateARepositoryForTheAuthenticatedUser { has_downloads: Some(has_downloads), ..self }
    }

    /// Set a new [`is_template`](CreateARepositoryForTheAuthenticatedUser#structfield.is_template).
    pub fn is_template(self, is_template: bool) -> (request: Self)
        ensures
            request == (CreateARepositoryForTheAuthenticatedUser {
                is_template: Some(is_template),
                ..self
            }),
    {
        CreateARepositoryForTheAuthenticatedUser { is_template: Some(is_template), ..self }
    }

    /// The URI template has one placeholder for each path parameter.
    pub proof fn lemma_template_fits(&self)
        ensures
            placeholder_count(self.uri_template()) == self.path_args().len(),
    {
        reveal_strlit("/user/repos");
        reveal_with_fuel(count_from, 12);
    }
}

impl<'a> Api for CreateARepositoryForTheAuthenticatedUser<'a> {
    const ACCEPT: &'static str = "application/vnd.github+json";

    open spec fn uri_template(&self) -> Seq<char> {
        "/user/repos"@
    }

    open spec fn path_args(&self) -> Seq<Seq<char>> {
        Seq::empty()
    }

    fn api(&self) -> (uri: String) {
        let args: Vec<String> = Vec::new();
        proof {
            self.lemma_template_fits();
            assert(texts(args@) =~= self.path_args());
        }
        materialize(Self::BASE_URI, "/user/repos", &args)
    }
}

impl<'a> ApiExt for CreateARepositoryForTheAuthenticatedUser<'a> {
    const METHOD: Method = Method::Post;

    open spec fn essential_params(&self) -> Seq<(Seq<char>, Seq<char>)> {
        seq![("name"@, self.name@)]
    }

    open spec fn optional_params(&self) -> Seq<(Seq<char>, Option<Seq<char>>)> {
        seq![
            ("description"@, opt_text(self.description)),
            ("homepage"@, opt_text(self.homepage)),
            ("private"@, opt_bool(self.private)),
            ("has_issues"@, opt_bool(self.has_issues)),
            ("has_projects"@, opt_bool(self.has_projects)),
            ("has_wiki"@, opt_bool(self.has_wiki)),
            ("has_discussions"@, opt_bool(self.has_discussions)),
            ("team_id"@, opt_u8(self.team_id)),
            ("auto_init"@, opt_bool(self.auto_init)),
            ("gitignore_template"@, opt_text(self.gitignore_template)),
            ("license_template"@, opt_text(self.license_template)),
            ("allow_squash_merge"@, opt_bool(self.allow_squash_merge)),
            ("allow_merge_commit"@, opt_bool(self.allow_merge_commit)),
            ("allow_rebase_merge"@, opt_bool(self.allow_rebase_merge)),
            ("allow_auto_merge"@, opt_bool(self.allow_auto_merge)),
            ("delete_branch_on_merge"@, opt_bool(self.delete_branch_on_merge)),
            ("squash_merge_commit_title"@, opt_text(self.squash_merge_commit_title)),
            ("squash_merge_commit_message"@, opt_text(self.squash_merge_commit_message)),
            ("merge_commit_title"@, opt_text(self.merge_commit_title)),
            ("merge_commit_message"@, opt_text(self.merge_commit_message)),
            ("has_downloads"@, opt_bool(self.has_downloads)),
            ("is_template"@, opt_bool(self.is_template)),
        ]
    }

    fn payload_params(&self) -> (params: Vec<(&'static str, String)>) {
        let mut essential: Vec<(&'static str, String)> = Vec::new();
        essential.push(("name", String::from_str(self.name)));
        let mut optional: Vec<(&'static str, Option<String>)> = Vec::new();
        optional.push(("description", text_opt(self.description)));
        optional.push(("homepage", text_opt(self.homepage)));
        optional.push(("private", bool_opt(self.private)));
        optional.push(("has_issues", bool_opt(self.has_issues)));
        optional.push(("has_projects", bool_opt(self.has_projects)));
        optional.push(("has_wiki", bool_opt(self.has_wiki)));
        optional.push(("has_discussions", bool_opt(self.has_discussions)));
        optional.push(("team_id", u8_opt(self.team_id)));
        optional.push(("auto_init", bool_opt(self.auto_init)));
        optional.push(("gitignore_template", text_opt(self.gitignore_template)));
        optional.push(("license_template", text_opt(self.license_template)));
        optional.push(("allow_squash_merge", bool_opt(self.allow_squash_merge)));
        optional.push(("allow_merge_commit", bool_opt(self.allow_merge_commit)));
        optional.push(("allow_rebase_merge", bool_opt(self.allow_rebase_merge)));
        optional.push(("allow_auto_merge", bool_opt(self.allow_auto_merge)));
        optional.push(("delete_branch_on_merge", bool_opt(self.delete_branch_on_merge)));
        optional.push(("squash_merge_commit_title", text_opt(self.squash_merge_commit_title)));
        optional.push(("squash_merge_commit_message", text_opt(self.squash_merge_commit_message)));
        optional.push(("merge_commit_title", text_opt(self.merge_commit_title)));
        optional.push(("merge_commit_message", text_opt(self.merge_commit_message)));
        optional.push(("has_downloads", bool_opt(self.has_downloads)));
        optional.push(("is_template", bool_opt(self.is_template)));
        proof {
            assert(param_views(essential@) =~= self.essential_params());
            assert(optional_views(optional@) =~= self.optional_params());
        }
        project(essential, &optional)
    }
}

/// Build a [`CreateARepositoryForTheAuthenticatedUser`] instance.
pub fn create_a_repository_for_the_authenticated_user<'a>(
    name: &'a str,
) -> (request: CreateARepositoryForTheAuthenticatedUser<'a>)
    ensures
        request == CreateARepositoryForTheAuthenticatedUser::initial(name),
{
    CreateARepositoryForTheAuthenticatedUser::new(name)
}

/// GitHub reference(s):
///  - <https://docs.github.com/en/rest/repos/repos#list-repositories-for-a-user>
#[derive(Debug, Clone, PartialEq, Eq)]
pub struct ListRepositoriesForAUser<'a> {
    pub username: &'a str,
    pub type_: Option<&'a str>,
    pub sort: Option<&'a str>,
    pub direction: Option<&'a str>,
    pub per_page: Option<u8>,
    pub page: Option<u16>,
}

impl<'a> ListRepositoriesForAUser<'a> {
    /// What `new` builds: the given values, and every optional parameter
    /// absent.
    pub open spec fn initial(username: &'a str) -> Self {
        ListRepositoriesForAUser {
            username,
            type_: None,
            sort: None,
            direction: None,
            per_page: None,
            page: None,
        }
    }

    /// Build a [`ListRepositoriesForAUser`] instance.
    pub fn new(username: &'a str) -> (request: Self)
        ensures
            request == Self::initial(username),
    {
        ListRepositoriesForAUser {
            username,
            type_: None,
            sort: None,
            direction: None,
            per_page: None,
            page: None,
        }
    }

    /// Set a new [`username`](ListRepositoriesForAUser#structfield.username).
    pub fn username(self, username: &'a str) -> (request: Self)
        ensures
            request == (ListRepositoriesForAUser { username, ..self }),
    {
        ListRepositoriesForAUser { username, ..self }
    }

    /// Set a new [`type_`](ListRepositoriesForAUser#structfield.type_).
    pub fn type_(self, type_: &'a str) -> (request: Self)
        ensures
            request == (ListRepositoriesForAUser { type_: Some(type_), ..self }),
    {
        ListRepositoriesForAUser { type_: Some(type_), ..self }
    }

    /// Set a new [`sort`](ListRepositoriesForAUser#structfield.sort).
    pub fn sort(self, sort: &'a str) -> (request: Self)
        ensures
            request == (ListRepositoriesForAUser { sort: Some(sort), ..self }),
    {
        ListRepositoriesForAUser { sort: Some(sort), ..self }
    }

    /// Set a new [`direction`](ListRepositoriesForAUser#structfield.direction).
    pub fn direction(self, direction: &'a str) -> (request: Self)
        ensures
            request == (ListRepositoriesForAUser { direction: Some(direction), ..self }),
    {
        ListRepositoriesForAUser { direction: Some(direction), ..self }
    }

    /// Set a new [`per_page`](ListRepositoriesForAUser#structfield.per_page).
    pub fn per_page(self, per_page: u8) -> (request: Self)
        ensures
            request == (ListRepositoriesForAUser { per_page: Some(per_page), ..self }),
    {
        ListRepositoriesForAUser { per_page: Some(per_page), ..self }
    }

    /// Set a new [`page`](ListRepositoriesForAUser#structfield.page).
    pub fn page(self, page: u16) -> (request: Self)
        ensures
            request == (ListRepositoriesForAUser { page: Some(page), ..self }),
    {
        ListRepositoriesForAUser { page: Some(page), ..self }
    }

    /// The URI template has one placeholder for each path parameter.
    pub proof fn lemma_template_fits(&self)
        ensures
            placeholder_count(self.uri_template()) == self.path_args().len(),
    {
        reveal_strlit("/users/{}/repos");
        reveal_with_fuel(count_from, 16);
    }
}

impl<'a> Api for ListRepositoriesForAUser<'a> {
    const ACCEPT: &'static str = "application/vnd.github+json";

    open spec fn uri_template(&self) -> Seq<char> {
        "/users/{}/repos"@
    }

    open spec fn path_args(&self) -> Seq<Seq<char>> {
        seq![self.username@]
    }

    fn api(&self) -> (uri: String) {
        let mut args: Vec<String> = Vec::new();
        args.push(String::from_str(self.username));
        proof {
            self.lemma_template_fits();
            assert(texts(args@) =~= self.path_args());
        }
        materialize(Self::BASE_URI, "/users/{}/repos", &args)
    }
}

impl<'a> ApiExt for ListRepositoriesForAUser<'a> {
    const METHOD: Method = Method::Get;

    open spec fn essential_params(&self) -> Seq<(Seq<char>, Seq<char>)> {
        Seq::empty()
    }

    open spec fn optional_params(&self) -> Seq<(Seq<char>, Option<Seq<char>>)> {
        seq![
            ("type"@, opt_text(self.type_)),
            ("sort"@, opt_text(self.sort)),
            ("direction"@, opt_text(self.direction)),
            ("per_page"@, opt_u8(self.per_page)),
            ("page"@, opt_u16(self.page)),
        ]
    }

    fn payload_params(&self) -> (params: Vec<(&'static str, String)>) {
        let essential: Vec<(&'static str, String)> = Vec::new();
        let mut optional: Vec<(&'static str, Option<String>)> = Vec::new();
        optional.push(("type", text_opt(self.type_)));
        optional.push(("sort", text_opt(self.sort)));
        optional.push(("direction", text_opt(self.direction)));
        optional.push(("per_page", u8_opt(self.per_page)));
        optional.push(("page", u16_opt(self.page)));
        proof {
            assert(param_views(essential@) =~= self.essential_params());
            assert(optional_views(optional@) =~= self.optional_params());
        }
        project(essential, &optional)
    }
}

/// Build a [`ListRepositoriesForAUser`] instance.
pub fn list_repositories_for_a_user<'a>(
    username: &'a str,
) -> (request: ListRepositoriesForAUser<'a>)
    ensures
        request == ListRepositoriesForAUser::initial(username),
{
    ListRepositoriesForAUser::new(username)
}

} // verus!
