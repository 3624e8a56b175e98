use githuber::api::issues::{
    create_an_issue, get_an_issue, list_issues_assigned_to_the_authenticated_user,
    list_organization_issues_assigned_to_the_authenticated_user, list_repository_issues,
    list_user_account_issues_assigned_to_the_authenticated_user, lock_an_issue, unlock_an_issue,
    update_an_issue, CreateAnIssue, GetAnIssue, LockAnIssue, UnlockAnIssue, UpdateAnIssue,
};
use githuber::api::{Api, ApiExt, Method};

#[test]
fn issue_requests_target_their_urls() {
    assert_eq!(
        list_issues_assigned_to_the_authenticated_user().api(),
        "https://api.github.com/issues"
    );
    assert_eq!(
        list_organization_issues_assigned_to_the_authenticated_user("hack-ink").api(),
        "https://api.github.com/orgs/hack-ink/issues"
    );
    assert_eq!(
        list_repository_issues("hack-ink", "githuber").api(),
        "https://api.github.com/repos/hack-ink/githuber/issues"
    );
    assert_eq!(
        create_an_issue("hack-ink", "githuber", "title").api(),
        "https://api.github.com/repos/hack-ink/githuber/issues"
    );
    assert_eq!(
        get_an_issue("hack-ink", "githuber", 7).api(),
        "https://api.github.com/repos/hack-ink/githuber/issues/7"
    );
    assert_eq!(
        update_an_issue("hack-ink", "githuber", 4294967295).api(),
        "https://api.github.com/repos/hack-ink/githuber/issues/4294967295"
    );
    assert_eq!(
        lock_an_issue("hack-ink", "githuber", 120).api(),
        "https://api.github.com/repos/hack-ink/githuber/issues/120/lock"
    );
    assert_eq!(
        unlock_an_issue("hack-ink", "githuber", 0).api(),
        "https://api.github.com/repos/hack-ink/githuber/issues/0/lock"
    );
    assert_eq!(
        list_user_account_issues_assigned_to_the_authenticated_user().api(),
        "https://api.github.com/user/issues"
    );
}

#[test]
fn issue_requests_carry_their_methods() {
    assert!(matches!(<CreateAnIssue as ApiExt>::METHOD, Method::Post));
    assert!(matches!(<GetAnIssue as ApiExt>::METHOD, Method::Get));
    assert!(matches!(<UpdateAnIssue as ApiExt>::METHOD, Method::Patch));
    assert!(matches!(<LockAnIssue as ApiExt>::METHOD, Method::Put));
    assert!(matches!(<UnlockAnIssue as ApiExt>::METHOD, Method::Delete));
}

#[test]
fn an_essential_parameter_is_always_sent() {
    let request = create_an_issue("hack-ink", "githuber", "A title");
    assert_eq!(request.payload_params(), vec![("title", "A title".to_string())]);
    let request = request.labels("bug").body("It broke.");
    assert_eq!(
        request.payload_params(),
        vec![
            ("title", "A title".to_string()),
            ("body", "It broke.".to_string()),
            ("labels", "bug".to_string()),
        ]
    );
}

#[test]
fn booleans_and_integers_are_sent_in_their_string_forms() {
    let request = list_issues_assigned_to_the_authenticated_user()
        .collab(true)
        .orgs(false)
        .per_page(255)
        .page(65535);
    assert_eq!(
        request.payload_params(),
        vec![
            ("collab", "true".to_string()),
            ("orgs", "false".to_string()),
            ("per_page", "255".to_string()),
            ("page", "65535".to_string()),
        ]
    );
}

#[test]
fn the_list_repository_issues_request_is_built_from_its_path() {
    let request = list_repository_issues("hack-ink", "githuber");
    assert_eq!(request.owner, "hack-ink");
    assert_eq!(request.repo, "githuber");
    assert_eq!(request.milestone, None);
    assert_eq!(request.payload_params(), Vec::<(&'static str, String)>::new());
}

#[test]
fn list_repository_issues_should_work() {
    let request = list_repository_issues("hack-ink", "githuber");
    assert_eq!(request.api(), "https://api.github.com/repos/hack-ink/githuber/issues");
    assert_eq!(request.payload_params(), Vec::<(&'static str, String)>::new());
}
