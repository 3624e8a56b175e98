use githuber::endpoint::{generate, EndpointSchema, GenerationError, RequestType, TemplateError};
use githuber::fields::{
    assign_roles, classify, classify_field, partition, ClassificationError, Dialect, FieldRole,
    Mismatch, RawField,
};
use githuber::method::Method;
use githuber::request::GeneratedRequest;
use githuber::schema::{
    parse_properties, ApiProperty, EndpointClass, MetaValue, PropertyError, PropertyKey,
    RawProperty, SchemaError,
};
use githuber::value::{Value, ValueType};

fn text(key: &str, value: &str) -> RawProperty {
    RawProperty { key: key.to_string(), value: MetaValue::Text(value.to_string()) }
}

fn properties(method: &str, uri: &str) -> Vec<RawProperty> {
    vec![
        text("category", "commits"),
        text("method", method),
        text("accept", "application/vnd.github+json"),
        text("uri", uri),
    ]
}

fn field(name: &str, value_type: ValueType, optional: bool, tag: Option<&str>) -> RawField {
    RawField { name: name.to_string(), value_type, optional, tag: tag.map(|t| t.to_string()) }
}

fn commit_fields() -> Vec<RawField> {
    vec![
        field("owner", ValueType::Text, false, Some("path_param")),
        field("repo", ValueType::Text, false, Some("path_param")),
        field("sha", ValueType::Text, true, None),
        field("per_page", ValueType::U8, true, None),
    ]
}

fn list_commits() -> RequestType {
    generate(
        "ListCommits",
        &properties("GET", "/repos/{}/{}/commits"),
        &commit_fields(),
        EndpointClass::ApiExt,
        Dialect::Extended,
    )
    .unwrap()
}

fn s(text: &str) -> Value {
    Value::Text(text.to_string())
}

fn pairs(items: &[(&str, &str)]) -> Vec<(String, String)> {
    items.iter().map(|(a, b)| (a.to_string(), b.to_string())).collect()
}

#[test]
fn a_generated_request_targets_the_documented_url() {
    let kind = list_commits();
    let request = GeneratedRequest::new(&kind, vec![s("hack-ink"), s("githuber")]).unwrap();
    assert_eq!(request.api(), "https://api.github.com/repos/hack-ink/githuber/commits");
    assert_eq!(request.payload_params(), pairs(&[]));
}

#[test]
fn a_generated_request_sends_what_was_set() {
    let kind = list_commits();
    let request = GeneratedRequest::new(&kind, vec![s("hack-ink"), s("githuber")])
        .unwrap()
        .set("per_page", Value::U8(10));
    assert_eq!(request.payload_params(), pairs(&[("per_page", "10")]));
}

#[test]
fn a_generated_request_sends_essential_before_optional() {
    let kind = generate(
        "CreateARepositoryForTheAuthenticatedUser",
        &vec![
            text("category", "repos"),
            text("method", "POST"),
            text("accept", "application/vnd.github+json"),
            text("uri", "/user/repos"),
        ],
        &vec![
            field("private", ValueType::Bool, true, None),
            field("name", ValueType::Text, false, Some("payload_ess_param")),
        ],
        EndpointClass::ApiExt,
        Dialect::Extended,
    )
    .unwrap();
    let request = GeneratedRequest::new(&kind, vec![s("x")]).unwrap();
    assert_eq!(request.api(), "https://api.github.com/user/repos");
    assert_eq!(request.payload_params(), pairs(&[("name", "x")]));
    let request = request.set("private", Value::Bool(true));
    assert_eq!(request.payload_params(), pairs(&[("name", "x"), ("private", "true")]));
}

#[test]
fn the_generated_names_are_derived_from_the_type_name() {
    let kind = list_commits();
    assert_eq!(kind.name(), "ListCommits");
    assert_eq!(kind.function_name(), "list_commits");
    assert_eq!(
        kind.doc_reference(),
        " - <https://docs.github.com/en/rest/commits/commits#list-commits>"
    );
    assert_eq!(kind.schema().category(), "commits");
    assert_eq!(kind.schema().http_method(), Some(Method::Get));
    assert_eq!(kind.schema().accept_header(), "application/vnd.github+json");
    assert_eq!(kind.schema().uri_template(), "/repos/{}/{}/commits");
    assert_eq!(kind.schema().dialect(), Dialect::Extended);
    assert_eq!(kind.wire_names(), &vec!["owner", "repo", "sha", "per_page"]);
}

#[test]
fn the_fields_of_a_schema_record_their_roles_and_positions() {
    let kind = list_commits();
    let fields = kind.schema().fields();
    assert_eq!(fields.len(), 4);
    assert_eq!(fields[0].name, "owner");
    assert_eq!(fields[0].role, FieldRole::PathParam);
    assert_eq!(fields[1].role, FieldRole::PathParam);
    assert_eq!(fields[2].role, FieldRole::OptionalPayloadParam);
    assert_eq!(fields[3].name, "per_page");
    assert_eq!(fields[3].value_type, ValueType::U8);
    for (i, f) in fields.iter().enumerate() {
        assert_eq!(f.declaration_order, i);
    }
    let buckets = kind.schema().buckets();
    assert_eq!(buckets.path.len(), 2);
    assert_eq!(buckets.essential.len(), 0);
    assert_eq!(buckets.optional.len(), 2);
}

#[test]
fn the_constructor_takes_path_then_essential_parameters() {
    let kind = generate(
        "CreateARepositoryUsingATemplate",
        &vec![
            text("category", "repos"),
            text("method", "POST"),
            text("accept", "application/vnd.github+json"),
            text("uri", "/repos/{}/{}/generate"),
        ],
        &vec![
            field("name", ValueType::Text, false, Some("payload_ess_param")),
            field("template_owner", ValueType::Text, false, Some("path_param")),
            field("owner", ValueType::Text, true, None),
            field("template_repo", ValueType::Text, false, Some("path_param")),
        ],
        EndpointClass::ApiExt,
        Dialect::Extended,
    )
    .unwrap();
    let parameters = kind.parameters();
    let names: Vec<&str> = parameters.iter().map(|f| f.name.as_str()).collect();
    assert_eq!(names, vec!["template_owner", "template_repo", "name"]);
    let request = GeneratedRequest::new(&kind, vec![s("hack-ink"), s("template"), s("copy")])
        .unwrap();
    assert_eq!(request.api(), "https://api.github.com/repos/hack-ink/template/generate");
    assert_eq!(request.payload_params(), pairs(&[("name", "copy")]));
    assert_eq!(request.get("owner"), None);
    assert!(matches!(request.get("name"), Some(Value::Text(t)) if t == "copy"));
    assert!(matches!(request.value_at(1), Some(Value::Text(t)) if t == "hack-ink"));
    assert!(request.value_at(4).is_none());
}

#[test]
fn the_constructor_refuses_arguments_that_do_not_fit() {
    let kind = list_commits();
    assert!(GeneratedRequest::new(&kind, vec![s("hack-ink")]).is_none());
    assert!(GeneratedRequest::new(&kind, vec![s("a"), s("b"), s("c")]).is_none());
    assert!(GeneratedRequest::new(&kind, vec![s("a"), Value::U8(1)]).is_none());
    assert!(!kind.accepts(&vec![]));
    assert!(kind.accepts(&vec![s("a"), s("b")]));
}

#[test]
fn the_convenience_function_builds_what_the_constructor_builds() {
    let kind = list_commits();
    let built = GeneratedRequest::new(&kind, vec![s("hack-ink"), s("githuber")]).unwrap();
    let called = kind.request(vec![s("hack-ink"), s("githuber")]).unwrap();
    assert_eq!(called.api(), built.api());
    assert_eq!(called.payload_params(), built.payload_params());
    for i in 0..4 {
        assert_eq!(
            called.value_at(i).map(|v| v.to_text()),
            built.value_at(i).map(|v| v.to_text())
        );
    }
    assert!(kind.request(vec![s("hack-ink")]).is_none());
}

#[test]
fn a_generated_setter_changes_its_own_field_only() {
    let kind = list_commits();
    let request = GeneratedRequest::new(&kind, vec![s("hack-ink"), s("githuber")])
        .unwrap()
        .set("sha", s("main"));
    let before: Vec<Option<String>> =
        (0..4).map(|i| request.value_at(i).map(|v| v.to_text())).collect();
    let request = request.set("per_page", Value::U8(30));
    let after: Vec<Option<String>> =
        (0..4).map(|i| request.value_at(i).map(|v| v.to_text())).collect();
    assert_eq!(after[0], before[0]);
    assert_eq!(after[1], before[1]);
    assert_eq!(after[2], before[2]);
    assert_eq!(before[3], None);
    assert_eq!(after[3], Some("30".to_string()));
    let request = request.set("per_page", Value::U8(30));
    let again: Vec<Option<String>> =
        (0..4).map(|i| request.value_at(i).map(|v| v.to_text())).collect();
    assert_eq!(again, after);
}

#[test]
fn a_generated_setter_replaces_a_path_parameter() {
    let kind = list_commits();
    let request = GeneratedRequest::new(&kind, vec![s("hack-ink"), s("githuber")])
        .unwrap()
        .set("owner", s("rust-lang"));
    assert_eq!(request.api(), "https://api.github.com/repos/rust-lang/githuber/commits");
}

#[test]
fn a_generated_setter_leaves_the_request_alone_where_it_does_not_apply() {
    let kind = list_commits();
    let request = GeneratedRequest::new(&kind, vec![s("hack-ink"), s("githuber")])
        .unwrap()
        .set("missing", s("x"))
        .set("per_page", s("ten"));
    assert_eq!(request.api(), "https://api.github.com/repos/hack-ink/githuber/commits");
    assert_eq!(request.payload_params(), pairs(&[]));
    assert_eq!(kind.field_index("per_page"), Some(3));
    assert_eq!(kind.field_index("missing"), None);
}

#[test]
fn a_reserved_word_is_sent_under_its_wire_name() {
    let kind = generate(
        "ListOrganizationRepositories",
        &vec![
            text("category", "repos"),
            text("method", "GET"),
            text("accept", "application/vnd.github+json"),
            text("uri", "/orgs/{}/repos"),
        ],
        &vec![
            field("org", ValueType::Text, false, Some("path_param")),
            field("r#type", ValueType::Text, true, None),
        ],
        EndpointClass::ApiExt,
        Dialect::Extended,
    )
    .unwrap();
    let request =
        GeneratedRequest::new(&kind, vec![s("hack-ink")]).unwrap().set("r#type", s("public"));
    assert_eq!(request.payload_params(), pairs(&[("type", "public")]));
}

#[test]
fn the_legacy_dialect_fills_the_template_with_the_required_fields() {
    let kind = generate(
        "ListReleases",
        &vec![
            text("category", "releases"),
            text("method", "get"),
            text("accept", "application/vnd.github.v3+json"),
            text("uri", "/repos/{}/{}/releases"),
        ],
        &vec![
            field("owner", ValueType::Text, false, None),
            field("repo", ValueType::Text, false, None),
            field("per_page", ValueType::U32, true, None),
            field("page", ValueType::U32, true, None),
        ],
        EndpointClass::ApiExt,
        Dialect::Legacy,
    )
    .unwrap();
    assert_eq!(kind.schema().http_method(), Some(Method::Get));
    assert_eq!(kind.schema().buckets().path.len(), 0);
    assert_eq!(kind.schema().buckets().essential.len(), 2);
    let request = GeneratedRequest::new(&kind, vec![s("l2ust"), s("githuber")])
        .unwrap()
        .set("page", Value::U32(2));
    assert_eq!(request.api(), "https://api.github.com/repos/l2ust/githuber/releases");
    assert_eq!(
        request.payload_params(),
        pairs(&[("owner", "l2ust"), ("repo", "githuber"), ("page", "2")])
    );
}

#[test]
fn the_last_value_of_a_repeated_key_counts() {
    let mut props = properties("GET", "/repos/{}/{}/commits");
    props.push(text("uri", "/repositories/{}/{}"));
    props.push(text("category", "repos"));
    let meta = parse_properties(&props, EndpointClass::ApiExt).unwrap();
    assert_eq!(meta.category, "repos");
    assert_eq!(meta.uri, "/repositories/{}/{}");
    assert_eq!(meta.accept, "application/vnd.github+json");
    assert_eq!(meta.method, Some(Method::Get));
}

#[test]
fn a_missing_key_is_reported() {
    let all = properties("GET", "/x");
    let without = |key: &str| -> Vec<RawProperty> {
        properties("GET", "/x").into_iter().filter(|p| p.key != key).collect()
    };
    assert!(parse_properties(&all, EndpointClass::ApiExt).is_ok());
    assert_eq!(
        parse_properties(&without("category"), EndpointClass::ApiExt).unwrap_err(),
        SchemaError::MissingKey(PropertyKey::Category)
    );
    assert_eq!(
        parse_properties(&without("method"), EndpointClass::ApiExt).unwrap_err(),
        SchemaError::MissingKey(PropertyKey::Method)
    );
    assert_eq!(
        parse_properties(&without("accept"), EndpointClass::ApiExt).unwrap_err(),
        SchemaError::MissingKey(PropertyKey::Accept)
    );
    assert_eq!(
        parse_properties(&without("uri"), EndpointClass::ApiExt).unwrap_err(),
        SchemaError::MissingKey(PropertyKey::Uri)
    );
    assert_eq!(
        parse_properties(&vec![], EndpointClass::Api).unwrap_err(),
        SchemaError::MissingKey(PropertyKey::Category)
    );
}

#[test]
fn the_method_is_required_of_an_extended_endpoint_only() {
    let props: Vec<RawProperty> =
        properties("GET", "/x").into_iter().filter(|p| p.key != "method").collect();
    let meta = parse_properties(&props, EndpointClass::Api).unwrap();
    assert_eq!(meta.method, None);
    assert_eq!(
        parse_properties(&props, EndpointClass::ApiExt).unwrap_err(),
        SchemaError::MissingKey(PropertyKey::Method)
    );
}

#[test]
fn an_unreadable_property_is_reported_with_its_position() {
    let mut props = properties("GET", "/x");
    props.insert(2, text("colour", "red"));
    assert_eq!(
        parse_properties(&props, EndpointClass::ApiExt).unwrap_err(),
        SchemaError::UnrecognizedKey(2)
    );
    let mut props = properties("GET", "/x");
    props[3] = RawProperty { key: "uri".to_string(), value: MetaValue::Integer(7) };
    props.push(text("colour", "red"));
    assert_eq!(
        parse_properties(&props, EndpointClass::ApiExt).unwrap_err(),
        SchemaError::NonStringValue(3)
    );
    let props = vec![RawProperty { key: "colour".to_string(), value: MetaValue::Flag(true) }];
    assert_eq!(
        parse_properties(&props, EndpointClass::ApiExt).unwrap_err(),
        SchemaError::NonStringValue(0)
    );
    let props = vec![RawProperty { key: "uri".to_string(), value: MetaValue::Missing }];
    assert_eq!(
        parse_properties(&props, EndpointClass::ApiExt).unwrap_err(),
        SchemaError::NonStringValue(0)
    );
}

#[test]
fn an_unknown_method_is_reported() {
    assert_eq!(
        parse_properties(&properties("FETCH", "/x"), EndpointClass::ApiExt).unwrap_err(),
        SchemaError::UnknownMethod
    );
    assert_eq!(
        parse_properties(&properties("FETCH", "/x"), EndpointClass::Api).unwrap_err(),
        SchemaError::UnknownMethod
    );
}

#[test]
fn a_single_property_is_read_by_its_key() {
    assert!(matches!(ApiProperty::parse(&text("category", "a")), Ok(ApiProperty::Category(v)) if v == "a"));
    assert!(matches!(ApiProperty::parse(&text("method", "b")), Ok(ApiProperty::Method(v)) if v == "b"));
    assert!(matches!(ApiProperty::parse(&text("accept", "c")), Ok(ApiProperty::Accept(v)) if v == "c"));
    assert!(matches!(ApiProperty::parse(&text("uri", "d")), Ok(ApiProperty::Uri(v)) if v == "d"));
    assert_eq!(
        ApiProperty::parse(&text("Category", "a")).unwrap_err(),
        PropertyError::UnrecognizedKey
    );
    assert_eq!(
        ApiProperty::parse(&RawProperty { key: "uri".to_string(), value: MetaValue::Flag(false) })
            .unwrap_err(),
        PropertyError::NonStringValue
    );
}

#[test]
fn fields_are_classified_by_tag_and_wrapper() {
    let ext = Dialect::Extended;
    let leg = Dialect::Legacy;
    let t = ValueType::Text;
    assert_eq!(classify_field(&field("a", t, false, Some("path_param")), ext), Ok(FieldRole::PathParam));
    assert_eq!(
        classify_field(&field("a", t, false, Some("payload_ess_param")), ext),
        Ok(FieldRole::EssentialPayloadParam)
    );
    assert_eq!(classify_field(&field("a", t, true, None), ext), Ok(FieldRole::OptionalPayloadParam));
    assert_eq!(
        classify_field(&field("a", t, true, Some("path_param")), ext),
        Err(Mismatch::OptionalPathParam)
    );
    assert_eq!(
        classify_field(&field("a", t, true, Some("payload_ess_param")), ext),
        Err(Mismatch::OptionalEssentialParam)
    );
    assert_eq!(
        classify_field(&field("a", t, false, Some("query_param")), ext),
        Err(Mismatch::UnrecognizedTag)
    );
    assert_eq!(classify_field(&field("a", t, false, None), ext), Err(Mismatch::UntaggedRequired));
    assert_eq!(classify_field(&field("a", t, false, None), leg), Ok(FieldRole::EssentialPayloadParam));
    assert_eq!(classify_field(&field("a", t, true, None), leg), Ok(FieldRole::OptionalPayloadParam));
    assert_eq!(
        classify_field(&field("a", t, false, Some("path_param")), leg),
        Err(Mismatch::UnrecognizedTag)
    );
}

#[test]
fn the_buckets_keep_declaration_order() {
    let fields = vec![
        field("first_essential", ValueType::Text, false, Some("payload_ess_param")),
        field("first_optional", ValueType::Bool, true, None),
        field("first_path", ValueType::Text, false, Some("path_param")),
        field("second_optional", ValueType::U16, true, None),
        field("second_path", ValueType::U32, false, Some("path_param")),
        field("second_essential", ValueType::Text, false, Some("payload_ess_param")),
    ];
    let buckets = classify(&fields, Dialect::Extended).unwrap();
    let names = |b: &Vec<githuber::fields::FieldSpec>| -> Vec<(String, usize)> {
        b.iter().map(|f| (f.name.clone(), f.declaration_order)).collect()
    };
    assert_eq!(names(&buckets.path), vec![("first_path".to_string(), 2), ("second_path".to_string(), 4)]);
    assert_eq!(names(&buckets.essential), vec![("first_essential".to_string(), 0), ("second_essential".to_string(), 5)]);
    assert_eq!(names(&buckets.optional), vec![("first_optional".to_string(), 1), ("second_optional".to_string(), 3)]);
    assert_eq!(buckets.path[1].value_type, ValueType::U32);
    let specs = assign_roles(&fields, Dialect::Extended).unwrap();
    assert_eq!(specs.len(), 6);
    let again = partition(&specs);
    assert_eq!(names(&again.path), names(&buckets.path));
    assert_eq!(
        buckets.path.len() + buckets.essential.len() + buckets.optional.len(),
        fields.len()
    );
}

#[test]
fn the_first_field_without_a_role_is_reported() {
    let fields = vec![
        field("a", ValueType::Text, false, Some("path_param")),
        field("b", ValueType::Text, true, Some("path_param")),
        field("c", ValueType::Text, false, Some("nonsense")),
    ];
    assert_eq!(
        classify(&fields, Dialect::Extended).unwrap_err(),
        ClassificationError { field: 1, mismatch: Mismatch::OptionalPathParam }
    );
    assert_eq!(
        assign_roles(&fields, Dialect::Legacy).unwrap_err(),
        ClassificationError { field: 0, mismatch: Mismatch::UnrecognizedTag }
    );
}

#[test]
fn generation_reports_the_first_stage_that_fails() {
    let bad_fields = vec![field("a", ValueType::Text, false, None)];
    assert_eq!(
        generate(
            "X",
            &vec![text("nonsense", "x")],
            &bad_fields,
            EndpointClass::ApiExt,
            Dialect::Extended
        )
        .unwrap_err(),
        GenerationError::Schema(SchemaError::UnrecognizedKey(0))
    );
    assert_eq!(
        generate(
            "X",
            &properties("GET", "/repos/{}"),
            &bad_fields,
            EndpointClass::ApiExt,
            Dialect::Extended
        )
        .unwrap_err(),
        GenerationError::Classification(ClassificationError {
            field: 0,
            mismatch: Mismatch::UntaggedRequired
        })
    );
    assert_eq!(
        generate(
            "X",
            &properties("GET", "/repos/{}/{}/{}"),
            &commit_fields(),
            EndpointClass::ApiExt,
            Dialect::Extended
        )
        .unwrap_err(),
        GenerationError::Template(TemplateError { placeholders: 3, arguments: 2 })
    );
    assert_eq!(
        generate(
            "X",
            &properties("GET", "/repos"),
            &commit_fields(),
            EndpointClass::ApiExt,
            Dialect::Extended
        )
        .unwrap_err(),
        GenerationError::Template(TemplateError { placeholders: 0, arguments: 2 })
    );
}

#[test]
fn a_schema_is_built_from_metadata_and_fields() {
    let meta = parse_properties(&properties("PATCH", "/repos/{}/{}"), EndpointClass::ApiExt)
        .unwrap();
    let schema = EndpointSchema::build(meta, &commit_fields(), Dialect::Extended).unwrap();
    assert_eq!(schema.http_method(), Some(Method::Patch));
    assert_eq!(schema.uri_template(), "/repos/{}/{}");
    let kind = RequestType::emit("UpdateARepository", schema);
    assert_eq!(kind.function_name(), "update_a_repository");
    assert_eq!(
        kind.doc_reference(),
        " - <https://docs.github.com/en/rest/commits/commits#update-a-repository>"
    );
}
