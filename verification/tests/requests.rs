use githuber::method::Method;
use githuber::requests::issues::CreateAnIssueComment;
use githuber::requests::releases::ListReleases;
use githuber::requests::{body_of, comment_body, frame_body, BodyError};
use isahc::http::Uri;

fn comment(body: &str) -> CreateAnIssueComment {
    CreateAnIssueComment {
        owner: "AurevoirXavier".to_string(),
        repo: "TEST".to_string(),
        issue_number: "3".to_string(),
        body: body.to_string(),
    }
}

#[test]
fn the_comment_request_targets_the_issue() {
    let request = comment("TEST");
    assert_eq!(
        request.build_uri(),
        "https://api.github.com/repos/AurevoirXavier/TEST/issues/3/comments"
    );
    let uri: Uri = request.build_uri().parse().unwrap();
    assert_eq!(uri.path(), "/repos/AurevoirXavier/TEST/issues/3/comments");
    assert_eq!(CreateAnIssueComment::HTTP_METHOD, Method::Post);
    assert_eq!(CreateAnIssueComment::ACCEPT, "application/vnd.github.v3+json");
    assert_eq!(
        CreateAnIssueComment::PATH,
        "/repos/{owner}/{repo}/issues/{issue_number}/comments"
    );
}

#[test]
fn the_comment_body_is_a_json_object() {
    assert_eq!(comment("TEST").build_body().unwrap(), b"{\"body\":\"TEST\"}".to_vec());
    assert_eq!(
        comment("a \"quoted\"\nline").build_body().unwrap(),
        b"{\"body\":\"a \\\"quoted\\\"\\nline\"}".to_vec()
    );
    assert_eq!(comment("").build_body().unwrap(), b"{\"body\":\"\"}".to_vec());
    let parsed: serde_json::Value =
        serde_json::from_slice(&comment("ü \\ x").build_body().unwrap()).unwrap();
    assert_eq!(parsed["body"], "ü \\ x");
    assert_eq!(comment_body("x").unwrap(), b"{\"body\":\"x\"}".to_vec());
}

#[test]
fn a_body_is_framed_as_it_is_given() {
    assert_eq!(frame_body("\"x\""), b"{\"body\":\"x\"}".to_vec());
    assert_eq!(frame_body("1"), b"{\"body\":1}".to_vec());
    assert_eq!(frame_body(""), b"{\"body\":}".to_vec());
}

#[test]
fn the_releases_request_sends_its_pages_as_queries() {
    let request = ListReleases {
        owner: "l2ust".to_string(),
        repo: "githuber".to_string(),
        per_page: None,
        page: None,
    };
    assert_eq!(request.build_uri(), "https://api.github.com/repos/l2ust/githuber/releases");
    request.build_body();
    let request = ListReleases { page: Some(2), ..request };
    assert_eq!(
        request.build_uri(),
        "https://api.github.com/repos/l2ust/githuber/releases?page=2"
    );
    let request = ListReleases { per_page: Some(100), ..request };
    assert_eq!(
        request.build_uri(),
        "https://api.github.com/repos/l2ust/githuber/releases?per_page=100&page=2"
    );
    assert_eq!(ListReleases::HTTP_METHOD, Method::Get);
    assert_eq!(ListReleases::PATH, "/repos/{owner}/{repo}/releases");
}

#[test]
fn a_default_request_has_empty_fields() {
    let request = ListReleases::default();
    assert_eq!(request.build_uri(), "https://api.github.com/repos///releases");
    let request = CreateAnIssueComment::default();
    assert_eq!(request.build_uri(), "https://api.github.com/repos///issues//comments");
}

#[test]
fn create_an_issue_comment_should_work() {
    let request = comment("TEST");
    let uri: Uri = request.build_uri().parse().unwrap();
    assert_eq!(uri, "https://api.github.com/repos/AurevoirXavier/TEST/issues/3/comments");
    assert_eq!(request.build_body().unwrap(), b"{\"body\":\"TEST\"}".to_vec());
}

#[test]
fn list_releases_should_work() {
    let request = ListReleases {
        owner: "l2ust".to_string(),
        repo: "githuber".to_string(),
        ..Default::default()
    };
    let uri: Uri = request.build_uri().parse().unwrap();
    assert_eq!(uri, "https://api.github.com/repos/l2ust/githuber/releases");
}

#[test]
fn a_value_that_was_not_encoded_gives_no_body() {
    let error = serde_json::from_str::<u8>("x").unwrap_err();
    assert_eq!(body_of(Err(error)), Err(BodyError::Encoding));
    assert_eq!(body_of(Ok("\"x\"".to_string())), Ok(b"{\"body\":\"x\"}".to_vec()));
}
