use githuber::api::repos::{
    create_a_repository_for_the_authenticated_user, create_a_repository_using_a_template,
    create_an_organization_repository, get_a_repository, list_codeowners_error,
    list_organization_repositories, list_public_repositories, list_repositories_for_a_user,
    replace_all_repository_topics, transfer_a_repository, CreateARepositoryForTheAuthenticatedUser,
    DeleteARepository, ListOrganizationRepositories, TransferARepository,
};
use githuber::api::{Api, ApiExt, Method};

#[test]
fn an_absent_optional_parameter_is_not_sent() {
    let request = create_a_repository_for_the_authenticated_user("x");
    assert_eq!(request.payload_params(), vec![("name", "x".to_string())]);
    let request = request.private(true);
    assert_eq!(
        request.payload_params(),
        vec![("name", "x".to_string()), ("private", "true".to_string())]
    );
}

#[test]
fn essential_parameters_come_before_optional_ones() {
    let request = create_a_repository_using_a_template("hack-ink", "template", "copy")
        .owner("someone")
        .private(false);
    assert_eq!(request.api(), "https://api.github.com/repos/hack-ink/template/generate");
    assert_eq!(
        request.payload_params(),
        vec![
            ("name", "copy".to_string()),
            ("owner", "someone".to_string()),
            ("private", "false".to_string()),
        ]
    );
}

#[test]
fn a_reserved_word_travels_without_its_escape() {
    let request = list_organization_repositories("hack-ink").type_("public").sort("pushed");
    assert_eq!(request.api(), "https://api.github.com/orgs/hack-ink/repos");
    assert_eq!(
        request.payload_params(),
        vec![("type", "public".to_string()), ("sort", "pushed".to_string())]
    );
    let request = list_codeowners_error("hack-ink", "githuber").ref_("main");
    assert_eq!(request.payload_params(), vec![("ref", "main".to_string())]);
}

#[test]
fn repository_requests_target_their_urls() {
    assert_eq!(
        get_a_repository("hack-ink", "githuber").api(),
        "https://api.github.com/repos/hack-ink/githuber"
    );
    assert_eq!(list_public_repositories().api(), "https://api.github.com/repositories");
    assert_eq!(
        list_repositories_for_a_user("octocat").api(),
        "https://api.github.com/users/octocat/repos"
    );
    assert_eq!(
        create_an_organization_repository("hack-ink", "new").api(),
        "https://api.github.com/orgs/hack-ink/repos"
    );
    assert_eq!(
        replace_all_repository_topics("hack-ink", "githuber", "rust").api(),
        "https://api.github.com/repos/hack-ink/githuber/topics"
    );
}

#[test]
fn a_request_without_a_lifetime_sends_its_integer() {
    let request = list_public_repositories().since(364);
    assert_eq!(request.payload_params(), vec![("since", "364".to_string())]);
}

#[test]
fn the_transfer_request_sends_the_new_owner() {
    let request = transfer_a_repository("hack-ink", "githuber", "someone");
    assert_eq!(request, TransferARepository::new("hack-ink", "githuber", "someone"));
    assert_eq!(request.api(), "https://api.github.com/repos/hack-ink/githuber/transfer");
    assert_eq!(request.payload_params(), vec![("new_owner", "someone".to_string())]);
}

#[test]
fn the_organization_repository_request_sends_all_that_is_set() {
    let request = create_an_organization_repository("hack-ink", "new")
        .merge_commit_message("PR_BODY")
        .team_id(9)
        .description("A description.")
        .has_wiki(false);
    assert_eq!(
        request.payload_params(),
        vec![
            ("name", "new".to_string()),
            ("description", "A description.".to_string()),
            ("has_wiki", "false".to_string()),
            ("team_id", "9".to_string()),
            ("merge_commit_message", "PR_BODY".to_string()),
        ]
    );
}

#[test]
fn repository_requests_carry_their_constants() {
    assert!(matches!(<DeleteARepository as ApiExt>::METHOD, Method::Delete));
    assert!(matches!(<CreateARepositoryForTheAuthenticatedUser as ApiExt>::METHOD, Method::Post));
    assert!(matches!(<ListOrganizationRepositories as ApiExt>::METHOD, Method::Get));
    assert_eq!(<DeleteARepository as Api>::ACCEPT, "application/vnd.github+json");
}

#[test]
fn list_organization_repositories_should_work() {
    let request = list_organization_repositories("hack-ink");
    assert_eq!(request.api(), "https://api.github.com/orgs/hack-ink/repos");
    assert_eq!(request.payload_params(), Vec::<(&'static str, String)>::new());
}
