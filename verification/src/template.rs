//! The boundary to the `tera` template engine: what the library takes from it
//! on trust.

use vstd::prelude::*;
use vstd::string::StringSliceAdditionalSpecFns;
use crate::plain::is_plain;

verus! {

/// `tera::Context`, the variables that a template is rendered with. Opaque:
/// what it holds is spoken of through `context_entries`.
#[verifier::external_type_specification]
#[verifier::external_body]
pub struct ExContext(tera::Context);

/// `tera::Error`, the reason why a template could not be parsed or rendered.
#[verifier::external_type_specification]
#[verifier::external_body]
pub struct ExTemplateError(tera::Error);

/// Variables by name, each with the text that is its value.
pub type Entries = Map<Seq<char>, Seq<char>>;

/// The variables of a context whose values are all texts.
pub uninterp spec fn context_entries(context: tera::Context) -> Entries;

/// Makes an empty context with `tera::Context::new`.
///
/// Trusted: the new context holds no variable.
#[verifier::external_body]
pub(crate) fn new_context() -> (r: tera::Context)
    ensures
        context_entries(r) == Entries::empty(),
{
    tera::Context::new()
}

/// Sets a variable to a text with `tera::Context::insert`.
///
/// Trusted: afterwards the context maps the name to the text, in place of
/// what it may have mapped it to before, and holds its other variables as
/// they were. A text always serialises, so the call does not panic.
#[verifier::external_body]
pub(crate) fn insert_text(context: &mut tera::Context, name: &str, text: &str)
    ensures
        context_entries(*final(context)) == context_entries(*old(context)).insert(name@, text@),
{
    context.insert(name, text)
}

/// What rendering a plain template with the given variables gives: the
/// text with every placeholder replaced by the value of its variable, or
/// nothing where the engine rejects the template or the substitution.
pub uninterp spec fn template_rendering(template: Seq<char>, entries: Entries) -> Option<Seq<char>>;

/// Renders a template once with `tera::Tera::one_off`, without escaping.
///
/// The engine panics on some expressions, so the template must be plain:
/// with placeholders alone there is nothing for it to evaluate.
///
/// Trusted: on a plain template, whether the engine renders, and the text
/// that it then gives, are a function of the template and of the variables
/// alone, named by `template_rendering`.
#[verifier::external_body]
pub(crate) fn render_one_off(template: &str, context: &tera::Context) -> (r: Result<String, tera::Error>)
    requires
        is_plain(template.spec_bytes()),
    ensures
        r is Ok <==> template_rendering(template@, context_entries(*context)) is Some,
        r matches Ok(text) ==> template_rendering(template@, context_entries(*context)) == Some(text@),
{
    tera::Tera::one_off(template, context, false)
}

/// Reads bytes as UTF-8 text with `std::str::from_utf8`.
///
/// Trusted: the bytes are accepted exactly when they are valid UTF-8, and
/// the text then consists of those very bytes.
#[verifier::external_body]
pub(crate) fn text_of_utf8(bytes: &[u8]) -> (r: Option<&str>)
    ensures
        r is Some <==> vstd::utf8::valid_utf8(bytes@),
        r matches Some(text) ==> text.spec_bytes() == bytes@,
{
    std::str::from_utf8(bytes).ok()
}

} // verus!
