//! Template rendering, done by the `handlebars` crate.

use vstd::prelude::*;
use vstd::string::*;

verus! {

/// The text that a template renders to against a context of named fields,
/// or `None` where rendering fails (bad syntax, a field that the context
/// lacks).
pub uninterp spec fn rendered(template: Seq<char>, context: Seq<(Seq<char>, Seq<char>)>) -> Option<
    Seq<char>,
>;

/// The error of `handlebars` for a template that does not render.
#[verifier::external_type_specification]
#[verifier::external_body]
pub struct ExRenderError(handlebars::RenderError);

/// Whether the byte `b` may stand between the opening braces of a tag and
/// the sign that tells the tag's kind: white space, `~` or `#`.
pub open spec fn is_filler(b: u8) -> bool {
    b == 32 || b == 9 || b == 10 || b == 13 || b == 126 || b == 35
}

/// Whether the byte `b` is `>` or `*`: the sign of a partial and the sign of
/// a decorator, the tag by which an inline partial is defined.
pub open spec fn is_partial_mark(b: u8) -> bool {
    b == 62 || b == 42
}

/// Whether, from position `from` on, `text` holds fillers only and then the
/// sign of a partial or a decorator.
pub open spec fn leads_to_mark(text: Seq<u8>, from: int) -> bool
    decreases text.len() - from,
{
    if from < 0 || from >= text.len() {
        false
    } else if is_partial_mark(text[from]) {
        true
    } else if is_filler(text[from]) {
        leads_to_mark(text, from + 1)
    } else {
        false
    }
}

/// Whether two opening braces stand at position `at` of `text`, followed
/// after fillers by the sign of a partial or a decorator.
pub open spec fn opens_partial(text: Seq<u8>, at: int) -> bool {
    &&& 0 <= at
    &&& at + 1 < text.len()
    &&& text[at] == 123
    &&& text[at + 1] == 123
    &&& leads_to_mark(text, at + 2)
}

/// Whether a template, taken by its UTF-8 bytes, may call a partial or
/// define one inline. Such a template is not rendered: a partial that
/// includes itself never finishes.
pub open spec fn uses_partials(template: Seq<char>) -> bool {
    exists|at: int| opens_partial(vstd::utf8::encode_utf8(template), at)
}

/// A context's fields as plain text: each field's name with its value.
pub open spec fn context_view(context: Seq<(String, String)>) -> Seq<(Seq<char>, Seq<char>)> {
    Seq::new(context.len(), |i: int| (context[i].0@, context[i].1@))
}

/// Calls `Handlebars::render_template` on a fresh registry in strict mode,
/// with the context's fields as a map from name to value. Nothing is proved
/// of the engine: the contract only gives its outcome a name, `rendered`, as
/// a function of the template and the fields. Of two fields with one name
/// the later one counts. A template that may call or define a partial is
/// left out: the engine does not guard an inline partial against including
/// itself.
#[verifier::external_body]
pub(crate) fn render_template(template: &str, context: &Vec<(String, String)>) -> (r: Result<
    String,
    handlebars::RenderError,
>)
    requires
        !uses_partials(template@),
    ensures
        match r {
            Ok(text) => rendered(template@, context_view(context@)) == Some(text@),
            Err(_) => rendered(template@, context_view(context@)) is None,
        },
{
    let fields: std::collections::BTreeMap<String, String> = context.iter().cloned().collect();
    let mut registry = handlebars::Handlebars::new();
    registry.set_strict_mode(true);
    registry.render_template(template, &fields)
}

/// Calls `to_string` on an error of `handlebars`, which gives the message
/// that its `Display` writes. Nothing is claimed of the text.
#[verifier::external_body]
pub(crate) fn render_error_text(error: &handlebars::RenderError) -> (r: String) {
    error.to_string()
}

fn leads(text: &[u8], from: usize) -> (r: bool)
    ensures
        r == leads_to_mark(text@, from as int),
{
    let mut at: usize = from;
    while at < text.len()
        invariant
            from <= at,
            leads_to_mark(text@, from as int) == leads_to_mark(text@, at as int),
        decreases text.len() - at,
    {
        let b: u8 = text[at];
        if b == 62 || b == 42 {
            return true;
        }
        if !(b == 32 || b == 9 || b == 10 || b == 13 || b == 126 || b == 35) {
            return false;
        }
        at += 1;
    }
    false
}

/// Says whether a template may call a partial or define one inline.
pub fn has_partials(template: &str) -> (r: bool)
    ensures
        r == uses_partials(template@),
{
    let text = template.as_bytes();
    let mut at: usize = 0;
    while at < text.len()
        invariant
            text@ == vstd::utf8::encode_utf8(template@),
            forall|k: int| 0 <= k < at ==> !opens_partial(text@, k),
        decreases text.len() - at,
    {
        if text[at] == 123 && at + 1 < text.len() && text[at + 1] == 123 && leads(text, at + 2) {
            assert(opens_partial(text@, at as int));
            return true;
        }
        at += 1;
    }
    false
}

} // verus!
