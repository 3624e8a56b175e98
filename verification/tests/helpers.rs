use githuber::api::{bool_opt, materialize, project, text_opt, u16_opt, u32_opt, u8_opt};
use githuber::endpoint::count_role;
use githuber::fields::{select_role, FieldRole, FieldSpec};
use githuber::prelude::{Api, ApiExt, Method};
use githuber::request::BASE_URI;
use githuber::value::ValueType;

fn spec(name: &str, role: FieldRole, declaration_order: usize) -> FieldSpec {
    FieldSpec { name: name.to_string(), value_type: ValueType::Text, role, declaration_order }
}

#[test]
fn a_url_is_the_base_followed_by_the_filled_template() {
    assert_eq!(BASE_URI, "https://api.github.com");
    assert_eq!(
        materialize(BASE_URI, "/orgs/{}/repos", &vec!["hack-ink".to_string()]),
        "https://api.github.com/orgs/hack-ink/repos"
    );
    assert_eq!(materialize("", "/user", &vec![]), "/user");
    assert_eq!(
        materialize("http://localhost", "/{}/{}", &vec!["a".to_string(), "b".to_string()]),
        "http://localhost/a/b"
    );
}

#[test]
fn the_payload_is_the_essential_then_the_present_optional_parameters() {
    let essential = vec![("name", "x".to_string()), ("title", "y".to_string())];
    let optional = vec![
        ("a", None),
        ("b", Some("1".to_string())),
        ("c", None),
        ("d", Some("2".to_string())),
    ];
    assert_eq!(
        project(essential.clone(), &optional),
        vec![
            ("name", "x".to_string()),
            ("title", "y".to_string()),
            ("b", "1".to_string()),
            ("d", "2".to_string()),
        ]
    );
    assert_eq!(project(vec![], &vec![("a", None)]), vec![]);
    assert_eq!(project(essential.clone(), &vec![]), essential);
}

#[test]
fn optional_values_keep_their_absence() {
    assert_eq!(text_opt(None), None);
    assert_eq!(text_opt(Some("main")), Some("main".to_string()));
    assert_eq!(u8_opt(None), None);
    assert_eq!(u8_opt(Some(100)), Some("100".to_string()));
    assert_eq!(u16_opt(Some(1000)), Some("1000".to_string()));
    assert_eq!(u16_opt(None), None);
    assert_eq!(u32_opt(Some(100000)), Some("100000".to_string()));
    assert_eq!(u32_opt(None), None);
    assert_eq!(bool_opt(Some(true)), Some("true".to_string()));
    assert_eq!(bool_opt(None), None);
}

#[test]
fn fields_are_selected_and_counted_by_role() {
    let fields = vec![
        spec("a", FieldRole::OptionalPayloadParam, 0),
        spec("b", FieldRole::PathParam, 1),
        spec("c", FieldRole::OptionalPayloadParam, 2),
    ];
    assert_eq!(count_role(&fields, FieldRole::PathParam), 1);
    assert_eq!(count_role(&fields, FieldRole::EssentialPayloadParam), 0);
    assert_eq!(count_role(&fields, FieldRole::OptionalPayloadParam), 2);
    let selected = select_role(&fields, FieldRole::OptionalPayloadParam);
    let names: Vec<&str> = selected.iter().map(|f| f.name.as_str()).collect();
    assert_eq!(names, vec!["a", "c"]);
    assert!(select_role(&fields, FieldRole::EssentialPayloadParam).is_empty());
}

struct Ping;

impl Api for Ping {
    const ACCEPT: &'static str = "text/plain";

    fn api(&self) -> String {
        materialize(Self::BASE_URI, "/zen", &vec![])
    }
}

impl ApiExt for Ping {
    const METHOD: Method = Method::Get;

    fn payload_params(&self) -> Vec<(&'static str, String)> {
        project(vec![], &vec![])
    }
}

#[test]
fn the_prelude_brings_the_capabilities() {
    assert_eq!(Ping.api(), "https://api.github.com/zen");
    assert_eq!(Ping.payload_params(), vec![]);
    assert_eq!(<Ping as Api>::ACCEPT, "text/plain");
    assert_eq!(<Ping as ApiExt>::METHOD, Method::Get);
}
