use githuber::util::{api, queries, replace_all, trim_separators, uri};
use isahc::http::Uri;

#[derive(Clone, Debug, Default)]
pub struct Api {
    pub a: String,
    pub b: String,
    pub c: String,
    pub d: Option<String>,
    pub e: Option<String>,
    pub f: Option<String>,
}

impl Api {
    const PATH: &'static str = "/{a}/{b}/{c}";

    fn parts(&self) -> Vec<(&str, &str)> {
        vec![("a", self.a.as_str()), ("b", self.b.as_str()), ("c", self.c.as_str())]
    }

    fn present(&self) -> Vec<(&str, Option<&str>)> {
        vec![("d", self.d.as_deref()), ("e", self.e.as_deref()), ("f", self.f.as_deref())]
    }

    fn api(&self) -> Uri {
        api(Self::PATH, &self.parts()).parse().unwrap()
    }

    fn queries(&self) -> String {
        queries(&self.present())
    }

    fn uri(&self) -> String {
        uri(Self::PATH, &self.parts(), &self.present())
    }
}

#[test]
fn api_should_work() {
    assert_eq!(
        Api {
            a: "path_segment_a".into(),
            b: "path_segment_b".into(),
            c: "path_segment_c".into(),
            ..Default::default()
        }
        .api(),
        "https://api.github.com/path_segment_a/path_segment_b/path_segment_c"
    );
}

#[test]
fn queries_should_work() {
    assert_eq!(
        Api {
            d: Some("query_d".into()),
            e: Some("query_e".into()),
            f: Some("query_f".into()),
            ..Default::default()
        }
        .queries(),
        "d=query_d&e=query_e&f=query_f".to_string()
    );
}

#[test]
fn uri_should_work() {
    assert_eq!(
        Api {
            a: "path_segment_a".into(),
            b: "path_segment_b".into(),
            c: "path_segment_c".into(),
            d: Some("query_d".into()),
            e: Some("query_e".into()),
            f: Some("query_f".into()),
        }
        .uri(),
        "https://api.github.com/path_segment_a/path_segment_b/path_segment_c?d=query_d&e=query_e&f=query_f"
    );
}

#[test]
fn every_occurrence_of_a_pattern_is_replaced() {
    assert_eq!(replace_all("/{a}/{a}", "{a}", "x"), "/x/x");
    assert_eq!(replace_all("aaa", "aa", "b"), "ba");
    assert_eq!(replace_all("abc", "", "x"), "abc");
    assert_eq!(replace_all("", "a", "x"), "");
    assert_eq!(replace_all("abc", "abcd", "x"), "abc");
    assert_eq!(replace_all("ébé", "é", "e"), "ebe");
    for (text, pattern, to) in [("/{a}/{b}", "{b}", "{a}"), ("xyzxyz", "yz", ""), ("aaaa", "a", "aa")]
    {
        assert_eq!(replace_all(text, pattern, to), text.replace(pattern, to));
    }
}

#[test]
fn parts_replace_their_placeholders_one_after_the_other() {
    assert_eq!(api("/{a}/{b}", &vec![("a", "{b}"), ("b", "x")]), "https://api.github.com/x/x");
    assert_eq!(api("/{a}/{b}", &vec![("b", "{a}"), ("a", "x")]), "https://api.github.com/x/x");
    assert_eq!(api("/{a}", &vec![]), "https://api.github.com/{a}");
    assert_eq!(api("/{ref}", &vec![("r#ref", "main")]), "https://api.github.com/main");
    assert_eq!(api("/{a}/{a}", &vec![("a", "x")]), "https://api.github.com/x/x");
}

#[test]
fn absent_queries_are_left_out() {
    assert_eq!(queries(&vec![]), "");
    assert_eq!(queries(&vec![("d", None), ("e", None)]), "");
    assert_eq!(queries(&vec![("d", None), ("e", Some("x")), ("f", None)]), "e=x");
    assert_eq!(queries(&vec![("r#ref", Some("main"))]), "ref=main");
}

#[test]
fn separators_at_the_end_are_trimmed() {
    assert_eq!(trim_separators("a=b&"), "a=b");
    assert_eq!(trim_separators("a=b&&&"), "a=b");
    assert_eq!(trim_separators("&a&b"), "&a&b");
    assert_eq!(trim_separators("&&"), "");
    assert_eq!(trim_separators(""), "");
    assert_eq!(queries(&vec![("d", Some("x&&"))]), "d=x");
}

#[test]
fn a_url_without_queries_has_no_question_mark() {
    assert_eq!(uri("/{a}", &vec![("a", "x")], &vec![("d", None)]), "https://api.github.com/x");
    assert_eq!(
        uri("/{a}", &vec![("a", "x")], &vec![("d", Some("y"))]),
        "https://api.github.com/x?d=y"
    );
}
