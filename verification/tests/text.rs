use githuber::method::Method;
use githuber::naming::{
    compose_doc_reference, convert_case, doc_anchor, doc_reference, function_name, wire_name,
    CaseStyle,
};
use githuber::template::{count_placeholders, fill};
use githuber::text::{chars_of, same_text};
use githuber::value::{bool_to_text, decimal_text, Value, ValueType};

fn strings(items: &[&str]) -> Vec<String> {
    items.iter().map(|s| s.to_string()).collect()
}

#[test]
fn placeholders_are_counted_from_left_to_right() {
    assert_eq!(count_placeholders(""), 0);
    assert_eq!(count_placeholders("/repos"), 0);
    assert_eq!(count_placeholders("{}"), 1);
    assert_eq!(count_placeholders("/repos/{}/{}/commits"), 2);
    assert_eq!(count_placeholders("{}{}{}"), 3);
    assert_eq!(count_placeholders("{{}}"), 1);
    assert_eq!(count_placeholders("}{"), 0);
    assert_eq!(count_placeholders("{ }"), 0);
    assert_eq!(count_placeholders("/é/{}/ü{}"), 2);
}

#[test]
fn a_template_is_filled_in_order() {
    assert_eq!(
        fill("/repos/{}/{}/commits", &strings(&["hack-ink", "githuber"])),
        Some("/repos/hack-ink/githuber/commits".to_string())
    );
    assert_eq!(fill("{}{}", &strings(&["a", "b"])), Some("ab".to_string()));
    assert_eq!(fill("{{}}", &strings(&["x"])), Some("{x}".to_string()));
    assert_eq!(fill("plain", &strings(&[])), Some("plain".to_string()));
    assert_eq!(fill("", &strings(&[])), Some("".to_string()));
    assert_eq!(fill("/{}/", &strings(&["{}"])), Some("/{}/".to_string()));
    assert_eq!(fill("/é/{}", &strings(&["ü"])), Some("/é/ü".to_string()));
}

#[test]
fn a_template_is_not_filled_with_the_wrong_number_of_arguments() {
    assert_eq!(fill("/repos/{}/{}", &strings(&["a"])), None);
    assert_eq!(fill("/repos/{}", &strings(&["a", "b"])), None);
    assert_eq!(fill("/repos", &strings(&["a"])), None);
    assert_eq!(fill("{}", &strings(&[])), None);
}

#[test]
fn integers_are_written_in_decimal() {
    assert_eq!(decimal_text(0), "0");
    assert_eq!(decimal_text(7), "7");
    assert_eq!(decimal_text(10), "10");
    assert_eq!(decimal_text(109), "109");
    assert_eq!(decimal_text(65535), "65535");
    assert_eq!(decimal_text(4294967295), "4294967295");
    for n in [0u32, 1, 9, 10, 11, 99, 100, 1000, 12345, 4000000000] {
        assert_eq!(decimal_text(n), n.to_string());
    }
}

#[test]
fn booleans_are_written_as_words() {
    assert_eq!(bool_to_text(true), "true");
    assert_eq!(bool_to_text(false), "false");
}

#[test]
fn values_have_their_types_and_string_forms() {
    let values = vec![
        (Value::Text("hack-ink".to_string()), ValueType::Text, "hack-ink"),
        (Value::U8(255), ValueType::U8, "255"),
        (Value::U16(65535), ValueType::U16, "65535"),
        (Value::U32(123456), ValueType::U32, "123456"),
        (Value::Bool(false), ValueType::Bool, "false"),
    ];
    for (value, value_type, text) in values {
        assert_eq!(value.value_type(), value_type);
        assert_eq!(value.to_text(), text);
        assert_eq!(value.clone().to_text(), text);
    }
}

#[test]
fn names_are_converted_by_their_word_boundaries() {
    assert_eq!(convert_case("ListCommits", CaseStyle::Kebab), "list-commits");
    assert_eq!(convert_case("ListCommits", CaseStyle::Snake), "list_commits");
    assert_eq!(convert_case("GET", CaseStyle::Pascal), "Get");
    assert_eq!(convert_case("delete", CaseStyle::Pascal), "Delete");
    assert_eq!(
        doc_anchor("ListPullRequestsAssociatedWithACommit"),
        "list-pull-requests-associated-with-a-commit"
    );
    assert_eq!(function_name("GetACommit"), "get_a_commit");
    assert_eq!(
        function_name("CreateARepositoryForTheAuthenticatedUser"),
        "create_a_repository_for_the_authenticated_user"
    );
}

#[test]
fn the_documentation_reference_is_composed_of_category_and_anchor() {
    assert_eq!(
        compose_doc_reference("repos", "get-a-repository"),
        " - <https://docs.github.com/en/rest/repos/repos#get-a-repository>"
    );
    assert_eq!(
        doc_reference("issues", "CreateAnIssue"),
        " - <https://docs.github.com/en/rest/issues/issues#create-an-issue>"
    );
    assert_eq!(compose_doc_reference("", ""), " - <https://docs.github.com/en/rest//#>");
}

#[test]
fn the_wire_name_drops_the_escape_prefix() {
    assert_eq!(wire_name("owner"), "owner");
    assert_eq!(wire_name("r#type"), "type");
    assert_eq!(wire_name("r#ref"), "ref");
    assert_eq!(wire_name("r#r#x"), "x");
    assert_eq!(wire_name("r#"), "");
    assert_eq!(wire_name("r"), "r");
    assert_eq!(wire_name("ar#b"), "ar#b");
    assert_eq!(wire_name(""), "");
    for name in ["owner", "r#type", "r#r#x", "rr#", "#r"] {
        assert_eq!(wire_name(name), name.trim_start_matches("r#"));
    }
}

#[test]
fn methods_are_read_in_any_letter_case() {
    assert_eq!(Method::parse("GET"), Some(Method::Get));
    assert_eq!(Method::parse("POST"), Some(Method::Post));
    assert_eq!(Method::parse("PUT"), Some(Method::Put));
    assert_eq!(Method::parse("PATCH"), Some(Method::Patch));
    assert_eq!(Method::parse("DELETE"), Some(Method::Delete));
    assert_eq!(Method::parse("get"), Some(Method::Get));
    assert_eq!(Method::parse("Delete"), Some(Method::Delete));
    assert_eq!(Method::parse("HEAD"), None);
    assert_eq!(Method::parse(""), None);
}

#[test]
fn methods_are_named_after_their_variants() {
    assert_eq!(Method::from_name("Get"), Some(Method::Get));
    assert_eq!(Method::from_name("GET"), None);
    for method in [Method::Delete, Method::Get, Method::Patch, Method::Post, Method::Put] {
        assert_eq!(Method::from_name(method.name()), Some(method));
    }
    assert_eq!(Method::Patch.name(), "Patch");
}

#[test]
fn texts_are_compared_by_their_characters() {
    assert!(same_text("", ""));
    assert!(same_text("path_param", "path_param"));
    assert!(!same_text("path_param", "path_params"));
    assert!(!same_text("a", "b"));
    assert_eq!(chars_of("aé{}"), vec!['a', 'é', '{', '}']);
}
