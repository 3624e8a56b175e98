//! Derived names: documentation anchors, convenience function names and the
//! names under which fields travel on the wire.

use vstd::prelude::*;
use vstd::string::*;
use convert_case::{Case, Casing};
use crate::text::chars_of;

verus! {

/// The letter cases that derived names use.
#[derive(Clone, Copy, Debug, PartialEq, Eq, Structural)]
pub enum CaseStyle {
    /// Lower-case words joined by hyphens.
    Kebab,
    /// Capitalised words joined without a delimiter.
    Pascal,
    /// Lower-case words joined by underscores.
    Snake,
}

/// What `convert_case` makes of `text` in the given style.
pub uninterp spec fn case_converted(text: Seq<char>, style: CaseStyle) -> Seq<char>;

/// Calls `convert_case::Casing::to_case` on `text` with the case that `style`
/// stands for. The conversion splits the text at the crate's default word
/// boundaries, changes the case of each word and joins the words again; it
/// reads nothing but its two arguments. The contract only names that result.
#[verifier::external_body]
fn to_case(text: &str, style: CaseStyle) -> (converted: String)
    ensures
        converted@ == case_converted(text@, style),
{
    match style {
        CaseStyle::Kebab => text.to_case(Case::Kebab),
        CaseStyle::Pascal => text.to_case(Case::Pascal),
        CaseStyle::Snake => text.to_case(Case::Snake),
    }
}

/// `text` converted to the given case style.
pub fn convert_case(text: &str, style: CaseStyle) -> (converted: String)
    ensures
        converted@ == case_converted(text@, style),
{
    to_case(text, style)
}

/// Whether `name` starts with the escape prefix `r#` of a reserved word.
pub open spec fn has_escape_prefix(name: Seq<char>) -> bool {
    name.len() >= 2 && name[0] == 'r' && name[1] == '#'
}

/// `name` without any escape prefix at its start.
pub open spec fn wire_name_of(name: Seq<char>) -> Seq<char>
    decreases name.len(),
{
    if has_escape_prefix(name) {
        wire_name_of(name.skip(2))
    } else {
        name
    }
}

/// The name under which the field `name` travels on the wire: the identifier
/// with any reserved-word escape prefix stripped.
pub fn wire_name(name: &str) -> (wire: String)
    ensures
        wire@ == wire_name_of(name@),
{
    let chars = chars_of(name);
    let n = chars.len();
    let ghost t = name@;
    let mut i: usize = 0;
    assert(t.skip(0) =~= t);
    while n - i >= 2 && chars[i] == 'r' && chars[i + 1] == '#'
        invariant
            chars@ == t,
            n == t.len(),
            i <= n,
            wire_name_of(t.skip(i as int)) == wire_name_of(t),
        decreases n - i,
    {
        assert(t.skip(i as int).skip(2) =~= t.skip(i + 2));
        i = i + 2;
    }
    String::from_str(name.substring_char(i, n))
}

/// The reference line of an endpoint's documentation, from its category and
/// its anchor.
pub open spec fn doc_reference_text(category: Seq<char>, anchor: Seq<char>) -> Seq<char> {
    " - <https://docs.github.com/en/rest/"@ + category + "/"@ + category + "#"@ + anchor + ">"@
}

/// Puts the reference line of an endpoint's documentation together.
pub fn compose_doc_reference(category: &str, anchor: &str) -> (line: String)
    ensures
        line@ == doc_reference_text(category@, anchor@),
{
    let mut line = String::from_str(" - <https://docs.github.com/en/rest/");
    line.append(category);
    line.append("/");
    line.append(category);
    line.append("#");
    line.append(anchor);
    line.append(">");
    line
}

/// The documentation anchor of the type `api_name`: its name in kebab case.
pub fn doc_anchor(api_name: &str) -> (anchor: String)
    ensures
        anchor@ == case_converted(api_name@, CaseStyle::Kebab),
{
    to_case(api_name, CaseStyle::Kebab)
}

/// The reference line of the documentation for the type `api_name` in
/// `category`.
pub fn doc_reference(category: &str, api_name: &str) -> (line: String)
    ensures
        line@ == doc_reference_text(category@, case_converted(api_name@, CaseStyle::Kebab)),
{
    let anchor = doc_anchor(api_name);
    compose_doc_reference(category, anchor.as_str())
}

/// The name of the convenience function for the type `api_name`: its name
/// in snake case.
pub fn function_name(api_name: &str) -> (name: String)
    ensures
        name@ == case_converted(api_name@, CaseStyle::Snake),
{
    to_case(api_name, CaseStyle::Snake)
}

} // verus!
