use vstd::prelude::*;

use rocket_dyn_templates::Template;

use crate::page::{pairs_view, Page, TemplateContext};

verus! {

#[verifier::external_type_specification]
#[verifier::external_body]
pub struct ExTemplate(Template);

/// The template response that names template `name` with the values `context`.
pub uninterp spec fn rendered(name: Seq<char>, context: TemplateContext) -> Template;

/// Relies on `rocket_dyn_templates::Template::render`, which records the
/// template name and the serialized context and renders nothing yet: the
/// response depends on the name and the values alone.
#[verifier::external_body]
fn render_template(name: &'static str, context: Vec<(String, String)>) -> (r: Template)
    ensures
        r == rendered(name@, pairs_view(context@)),
{
    Template::render(name, context.into_iter().collect::<std::collections::BTreeMap<String, String>>())
}

/// The template response for a render call.
pub fn render(page: &Page) -> (r: Template)
    ensures
        r == rendered(page@.0, page@.1),
{
    render_template(page.template_name(), page.context())
}

} // verus!
