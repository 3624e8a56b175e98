use githuber::api::commits::{
    compare_two_commits, get_a_commit, list_branches_for_head_commit, list_commits,
    list_pull_requests_associated_with_a_commit, CompareTwoCommits, GetACommit,
    ListBranchesForHeadCommit, ListCommits, ListPullRequestsAssociatedWithACommit,
};
use githuber::api::{Api, ApiExt, Method};

fn no_params() -> Vec<(&'static str, String)> {
    Vec::new()
}

#[test]
fn list_commits_builds_the_documented_url() {
    let request = list_commits("hack-ink", "githuber");
    assert_eq!(request.api(), "https://api.github.com/repos/hack-ink/githuber/commits");
    assert_eq!(request.payload_params(), no_params());
}

#[test]
fn list_commits_sends_what_was_set() {
    let request = list_commits("hack-ink", "githuber").per_page(10);
    assert_eq!(request.payload_params(), vec![("per_page", "10".to_string())]);
}

#[test]
fn list_commits_keeps_declaration_order_in_the_payload() {
    let request = ListCommits::new("hack-ink", "githuber")
        .page(3)
        .until("2022-12-31")
        .sha("main")
        .per_page(100);
    assert_eq!(
        request.payload_params(),
        vec![
            ("sha", "main".to_string()),
            ("until", "2022-12-31".to_string()),
            ("per_page", "100".to_string()),
            ("page", "3".to_string()),
        ]
    );
}

#[test]
fn a_setter_changes_its_own_field_only() {
    let before = ListCommits::new("hack-ink", "githuber").sha("main").page(2);
    let after = before.clone().author("someone");
    assert_eq!(after.owner, before.owner);
    assert_eq!(after.repo, before.repo);
    assert_eq!(after.sha, before.sha);
    assert_eq!(after.path, before.path);
    assert_eq!(after.author, Some("someone"));
    assert_eq!(after.since, before.since);
    assert_eq!(after.until, before.until);
    assert_eq!(after.per_page, before.per_page);
    assert_eq!(after.page, before.page);
    assert_eq!(after.clone().author("someone"), after);
}

#[test]
fn a_path_setter_replaces_the_value() {
    let request = ListCommits::new("hack-ink", "githuber").owner("rust-lang").repo("rust");
    assert_eq!(request.api(), "https://api.github.com/repos/rust-lang/rust/commits");
}

#[test]
fn the_convenience_functions_build_what_new_builds() {
    assert_eq!(list_commits("a", "b"), ListCommits::new("a", "b"));
    assert_eq!(
        list_branches_for_head_commit("a", "b", "c"),
        ListBranchesForHeadCommit::new("a", "b", "c")
    );
    assert_eq!(
        list_pull_requests_associated_with_a_commit("a", "b", "c"),
        ListPullRequestsAssociatedWithACommit::new("a", "b", "c")
    );
    assert_eq!(get_a_commit("a", "b", "c"), GetACommit::new("a", "b", "c"));
    assert_eq!(compare_two_commits("a", "b", "c"), CompareTwoCommits::new("a", "b", "c"));
}

#[test]
fn commit_requests_target_their_urls() {
    assert_eq!(
        list_branches_for_head_commit("hack-ink", "githuber", "main").api(),
        "https://api.github.com/repos/hack-ink/githuber/commits/main/branches-where-head"
    );
    assert_eq!(
        list_pull_requests_associated_with_a_commit("hack-ink", "githuber", "main").api(),
        "https://api.github.com/repos/hack-ink/githuber/commits/main/pulls"
    );
    assert_eq!(
        get_a_commit("hack-ink", "githuber", "main").api(),
        "https://api.github.com/repos/hack-ink/githuber/commits/main"
    );
    assert_eq!(
        compare_two_commits("hack-ink", "githuber", "main...archived").api(),
        "https://api.github.com/repos/hack-ink/githuber/compare/main...archived"
    );
}

#[test]
fn commit_requests_carry_their_constants() {
    assert_eq!(<ListCommits as Api>::BASE_URI, "https://api.github.com");
    assert_eq!(<ListCommits as Api>::ACCEPT, "application/vnd.github+json");
    assert!(matches!(<ListCommits as ApiExt>::METHOD, Method::Get));
}

#[test]
fn path_parameters_are_substituted_as_they_are() {
    let request = get_a_commit("hack ink", "{}", "a/b?c=d");
    assert_eq!(request.api(), "https://api.github.com/repos/hack ink/{}/commits/a/b?c=d");
}

#[test]
fn list_commits_should_work() {
    let request = list_commits("hack-ink", "githuber");
    assert_eq!(request.api(), "https://api.github.com/repos/hack-ink/githuber/commits");
    assert_eq!(request.payload_params(), no_params());
}

#[test]
fn list_branches_for_head_commit_should_work() {
    let request = list_branches_for_head_commit("hack-ink", "githuber", "main");
    assert_eq!(
        request.api(),
        "https://api.github.com/repos/hack-ink/githuber/commits/main/branches-where-head"
    );
    assert_eq!(request.payload_params(), no_params());
}

#[test]
fn list_pull_requests_associated_with_a_commit_should_work() {
    let request = list_pull_requests_associated_with_a_commit("hack-ink", "githuber", "main");
    assert_eq!(
        request.api(),
        "https://api.github.com/repos/hack-ink/githuber/commits/main/pulls"
    );
    assert_eq!(request.payload_params(), no_params());
}

#[test]
fn get_a_commit_should_work() {
    let request = get_a_commit("hack-ink", "githuber", "main");
    assert_eq!(request.api(), "https://api.github.com/repos/hack-ink/githuber/commits/main");
    assert_eq!(request.payload_params(), no_params());
}

#[test]
fn compare_two_commits_should_work() {
    let request = compare_two_commits("hack-ink", "githuber", "main...archived");
    assert_eq!(
        request.api(),
        "https://api.github.com/repos/hack-ink/githuber/compare/main...archived"
    );
    assert_eq!(request.payload_params(), no_params());
}
