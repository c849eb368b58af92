//! Rendering templates with Tera, and the three renderings of a rule: its
//! AST class, its editor component, and the root editor component.
use vstd::prelude::*;
use crate::describe::{self, type_of};
use crate::ids::{self, node_to_ids};
use crate::jsx::{self, node_to_jsx};
use crate::rendered;
use crate::templates::{self, Template, template_text};
use crate::text::{self, upper};
use crate::tree::{Expression, ExpressionV};

verus! {

/// The values a template is rendered with: named strings and named lists
/// of strings.
pub struct TemplateContext {
    pub values: Vec<(String, String)>,
    pub lists: Vec<(String, Vec<String>)>,
}

/// The mathematical value of a [`TemplateContext`].
pub struct ContextV {
    pub values: Seq<(Seq<char>, Seq<char>)>,
    pub lists: Seq<(Seq<char>, Seq<Seq<char>>)>,
}

impl View for TemplateContext {
    type V = ContextV;

    open spec fn view(&self) -> ContextV {
        ContextV {
            values: self.values@.map_values(|p: (String, String)| (p.0@, p.1@)),
            lists: self.lists@.map_values(|p: (String, Vec<String>)| (p.0@, text::strings_view(p.1@))),
        }
    }
}

/// Why a rendering failed.
#[derive(Clone, Copy, Debug, PartialEq, Eq, Structural)]
pub enum RenderError {
    /// Tera refused the template or could not render it with the context.
    Template,
}

/// `tera::Error`, carried opaque.
#[verifier::external_type_specification]
#[verifier::external_body]
pub struct ExTeraError(tera::Error);

/// What `tera::Tera::one_off` renders from a template and a context (with
/// autoescaping off), or `None` where it fails.
pub uninterp spec fn tera_one_off_output(template: Seq<char>, context: ContextV) -> Option<Seq<char>>;

/// Builds a `tera::Context` holding each value and list under its name (in
/// order, a later name replacing an earlier one) and calls
/// `tera::Tera::one_off(template, &context, false)`.  Claimed: `Ok(s)`
/// exactly when `tera_one_off_output` of the template and the context is
/// `Some(s@)`, so that the outcome is a function of the template and the
/// context alone.  The `requires` admits only the library's own templates
/// (see [`templates::Template`]).  These call no function (in particular
/// not `get_env`, the one registered function that reads the process; this
/// crate builds Tera without its `builtins` feature, so `now` and
/// `get_random` are not registered) and hold no number literal (Tera panics
/// when rendering a float literal too large for `f64`); they only print
/// values and loop over lists, with the values of the context being strings
/// and lists of strings.
///
/// Also claimed: for a context of the shape the library gives each template
/// (see [`rendered::library_rendering`]) the rendering succeeds with the text
/// written out there.  That text follows Tera's documented rules for these
/// templates: `{{ x }}` prints the string `x` as it is (autoescaping is off:
/// `Tera::default()` escapes only templates named `.html`, `.htm` or `.xml`,
/// and this one is named `__tera_one_off`), `{% for x in xs %}` repeats its
/// body for each item, a `-` inside a tag's braces removes the whitespace
/// on that side of the tag, and `{% raw %}` prints its content unread.  The
/// text of an error is not stated, nor running out of stack.
#[verifier::external_body]
fn tera_one_off(template: &str, context: &TemplateContext) -> (res: Result<String, tera::Error>)
    requires
        templates::is_library_template(template@),
    ensures
        match res {
            Ok(s) => tera_one_off_output(template@, context@) == Some(s@),
            Err(_) => tera_one_off_output(template@, context@) is None,
        },
        forall|t: Template|
            #[trigger] templates::template_view(t) == template@ && rendered::library_rendering(t, context@) is Some
                ==> (res is Ok && res->Ok_0@ == rendered::library_rendering(t, context@)->Some_0),
{
    let mut ctx = tera::Context::new();
    for (key, value) in context.values.iter() {
        ctx.insert(key.as_str(), value);
    }
    for (key, list) in context.lists.iter() {
        ctx.insert(key.as_str(), list);
    }
    tera::Tera::one_off(template, &ctx, false)
}

/// The text of a rendering's outcome.
pub open spec fn result_view(r: Result<String, RenderError>) -> Result<Seq<char>, RenderError> {
    match r {
        Ok(s) => Ok(s@),
        Err(e) => Err(e),
    }
}

/// The outcome of rendering a template with a context: what Tera renders.
pub open spec fn render_outcome(template: Seq<char>, context: ContextV) -> Result<Seq<char>, RenderError> {
    match tera_one_off_output(template, context) {
        Some(s) => Ok(s),
        None => Err(RenderError::Template),
    }
}

/// Renders one of the library's templates with a context (see
/// [`render_outcome`]); with a context of the library's shape, the text
/// written out in [`rendered::library_rendering`].
pub fn render_template(template: Template, context: &TemplateContext) -> (res: Result<String, RenderError>)
    ensures
        result_view(res) == render_outcome(templates::template_view(template), context@),
        rendered::library_rendering(template, context@) matches Some(out) ==> result_view(res) == Ok::<
            Seq<char>,
            RenderError,
        >(out),
{
    match tera_one_off(template_text(template), context) {
        Ok(s) => Ok(s),
        Err(_) => Err(RenderError::Template),
    }
}

/// The context of a rule's AST class: its name and the type of its value.
pub open spec fn ast_context(e: ExpressionV) -> ContextV {
    ContextV {
        values: seq![("name"@, e.lhs), ("type"@, describe::type_text(e.rhs))],
        lists: Seq::empty(),
    }
}

/// The AST class of a rule.
pub open spec fn ast_class(e: ExpressionV) -> Seq<char> {
    rendered::ast_class_text(e.lhs, describe::type_text(e.rhs))
}

/// Renders the AST class of a rule (see [`ast_class`]).
pub fn expression_to_ast(expression: &Expression) -> (res: String)
    requires
        describe::sequences_nonempty(expression.rhs@),
    ensures
        res@ == ast_class(expression@),
{
    let mut values: Vec<(String, String)> = Vec::new();
    values.push((String::from_str("name"), expression.lhs.clone()));
    values.push((String::from_str("type"), type_of(&expression.rhs)));
    let context = TemplateContext { values, lists: Vec::new() };
    assert(context@.values =~= ast_context(expression@).values);
    assert(context@.lists =~= ast_context(expression@).lists);
    assert(rendered::has_lists(context@, Seq::empty()));
    match render_template(Template::Ast, &context) {
        Ok(s) => s,
        Err(_) => vstd::pervasive::unreached(),
    }
}

/// What a rule needs for its component and AST class to be written: no
/// sequence the type looks into is empty, and the JSX stays within `i32`.
pub open spec fn supported(e: ExpressionV) -> bool {
    describe::sequences_nonempty(e.rhs) && jsx::jsx_fits(e.rhs, 0)
}

/// The context of a rule's editor component: its capitalised name, its
/// name, the ids of its choices, and its JSX.
pub open spec fn component_context(e: ExpressionV) -> ContextV {
    ContextV {
        values: seq![
            ("name"@, text::upper_text(e.lhs)),
            ("astname"@, e.lhs),
            ("jsx"@, jsx::component_jsx(e.rhs, e.lhs)),
        ],
        lists: seq![("selects"@, ids::ids_of(e.rhs, seq![0i32], true))],
    }
}

fn component_context_of(expression: &Expression) -> (res: TemplateContext)
    requires
        jsx::jsx_fits(expression.rhs@, 0),
    ensures
        res@ == component_context(expression@),
        rendered::has_values(res@, seq!["name"@, "astname"@, "jsx"@]),
        rendered::has_lists(res@, seq!["selects"@]),
{
    let mut values: Vec<(String, String)> = Vec::new();
    values.push((String::from_str("name"), upper(expression.lhs.as_str())));
    values.push((String::from_str("astname"), expression.lhs.clone()));
    values.push((String::from_str("jsx"), node_to_jsx(&expression.rhs, expression.lhs.as_str())));
    let mut lists: Vec<(String, Vec<String>)> = Vec::new();
    lists.push((String::from_str("selects"), node_to_ids(&expression.rhs, true)));
    let context = TemplateContext { values, lists };
    assert(context@.values =~= component_context(expression@).values);
    assert(context@.lists =~= component_context(expression@).lists);
    assert(rendered::has_values(context@, seq!["name"@, "astname"@, "jsx"@]));
    assert(rendered::has_lists(context@, seq!["selects"@]));
    context
}

/// The editor component of a rule other than the first.
pub open spec fn component(e: ExpressionV) -> Seq<char> {
    let c = component_context(e);
    rendered::component_text(c.values[0].1, c.values[1].1, c.lists[0].1, c.values[2].1)
}

/// The root editor component, of the first rule.
pub open spec fn top_component(e: ExpressionV) -> Seq<char> {
    let c = component_context(e);
    rendered::top_component_text(c.values[0].1, c.values[1].1, c.lists[0].1, c.values[2].1)
}

/// Renders the editor component of a rule (see [`component`]).
pub fn expression_to_component(expression: &Expression) -> (res: String)
    requires
        jsx::jsx_fits(expression.rhs@, 0),
    ensures
        res@ == component(expression@),
{
    let context = component_context_of(expression);
    match render_template(Template::Component, &context) {
        Ok(s) => s,
        Err(_) => vstd::pervasive::unreached(),
    }
}

/// Renders the root editor component (see [`top_component`]).
pub fn expression_to_top_component(expression: &Expression) -> (res: String)
    requires
        jsx::jsx_fits(expression.rhs@, 0),
    ensures
        res@ == top_component(expression@),
{
    let context = component_context_of(expression);
    match render_template(Template::TopComponent, &context) {
        Ok(s) => s,
        Err(_) => vstd::pervasive::unreached(),
    }
}

} // verus!
