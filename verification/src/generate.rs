//! The two generated files of a grammar: the editor components and the AST
//! classes.
use vstd::prelude::*;
use crate::describe::sequences_nonempty_check;
use crate::jsx::jsx_fits_check;
use crate::parse::{self, GrammarError, parse_grammar};
use crate::render::{
    self,
    TemplateContext,
    expression_to_ast,
    expression_to_component,
    expression_to_top_component,
    render_template,
};
use crate::rendered;
use crate::templates::Template;
use crate::text;
use crate::tree::{Expression, ExpressionV, Grammar, GrammarV};

verus! {

/// The contents of the two generated files.
pub struct GeneratedFiles {
    /// `components.tsx`: the editor components.
    pub components: String,
    /// `ast.ts`: the AST classes.
    pub ast: String,
}

/// The component of rule `i`: the root component for the first rule, an
/// ordinary one for the others.
pub open spec fn rule_component(es: Seq<ExpressionV>, i: int) -> Seq<char> {
    if i == 0 {
        render::top_component(es[i])
    } else {
        render::component(es[i])
    }
}

/// The components of the rules, in order.
pub open spec fn rule_components(es: Seq<ExpressionV>) -> Seq<Seq<char>> {
    Seq::new(es.len(), |i: int| rule_component(es, i))
}

/// The AST classes of the rules, in order.
pub open spec fn rule_asts(es: Seq<ExpressionV>) -> Seq<Seq<char>> {
    Seq::new(es.len(), |i: int| render::ast_class(es[i]))
}

/// The names of the rules.
pub open spec fn rule_names(es: Seq<ExpressionV>) -> Seq<Seq<char>> {
    es.map_values(|e: ExpressionV| e.lhs)
}

/// The components file of a grammar.
pub open spec fn components_file(g: GrammarV) -> Seq<char> {
    rendered::component_file_text(rule_names(g.expressions), rule_components(g.expressions))
}

/// The AST file of a grammar.
pub open spec fn ast_file(g: GrammarV) -> Seq<char> {
    rendered::ast_file_text(rule_asts(g.expressions))
}

/// Every rule of the grammar can be rendered (see [`render::supported`]).
pub open spec fn grammar_supported(g: GrammarV) -> bool {
    forall|i: int| 0 <= i < g.expressions.len() ==> render::supported(#[trigger] g.expressions[i])
}

/// Whether a rule can be rendered (see [`render::supported`]).
pub fn is_supported(expression: &Expression) -> (b: bool)
    ensures
        b == render::supported(expression@),
{
    sequences_nonempty_check(&expression.rhs) && jsx_fits_check(&expression.rhs, 0)
}

/// Whether every rule of the grammar can be rendered.
pub fn grammar_supported_check(grammar: &Grammar) -> (b: bool)
    ensures
        b == grammar_supported(grammar@),
{
    for i in 0..grammar.expressions.len()
        invariant
            forall|k: int| 0 <= k < i ==> render::supported(#[trigger] grammar@.expressions[k]),
    {
        if !is_supported(&grammar.expressions[i]) {
            assert(!render::supported(grammar@.expressions[i as int]));
            return false;
        }
    }
    true
}

/// Renders the two files of a grammar (see [`components_file`] and
/// [`ast_file`]).
pub fn generate(grammar: &Grammar) -> (res: GeneratedFiles)
    requires
        grammar_supported(grammar@),
    ensures
        res.components@ == components_file(grammar@),
        res.ast@ == ast_file(grammar@),
{
    let mut ast_nodes: Vec<String> = Vec::new();
    let mut components: Vec<String> = Vec::new();
    let mut names: Vec<String> = Vec::new();
    let ghost es = grammar@.expressions;
    let mut first = true;
    assert(text::strings_view(components@) =~= rule_components(es).take(0));
    assert(text::strings_view(ast_nodes@) =~= rule_asts(es).take(0));
    assert(text::strings_view(names@) =~= rule_names(es.take(0)));
    for i in 0..grammar.expressions.len()
        invariant
            es == grammar@.expressions,
            es.len() == grammar.expressions@.len(),
            grammar_supported(grammar@),
            first == (i == 0),
            text::strings_view(components@) == rule_components(es).take(i as int),
            text::strings_view(ast_nodes@) == rule_asts(es).take(i as int),
            text::strings_view(names@) == rule_names(es.take(i as int)),
    {
        let item = &grammar.expressions[i];
        assert(item@ == es[i as int]);
        assert(render::supported(es[i as int]));
        let component = if first {
            first = false;
            expression_to_top_component(item)
        } else {
            expression_to_component(item)
        };
        let ast = expression_to_ast(item);
        let ghost before = (text::strings_view(components@), text::strings_view(ast_nodes@));
        components.push(component);
        ast_nodes.push(ast);
        names.push(item.lhs.clone());
        assert(text::strings_view(components@) =~= before.0.push(components@.last()@));
        assert(text::strings_view(ast_nodes@) =~= before.1.push(ast_nodes@.last()@));
        assert(rule_components(es).take(i + 1) =~= rule_components(es).take(i as int).push(rule_component(es, i as int)));
        assert(rule_asts(es).take(i + 1) =~= rule_asts(es).take(i as int).push(render::ast_class(es[i as int])));
        assert(rule_names(es.take(i + 1)) =~= rule_names(es.take(i as int)).push(es[i as int].lhs));
        assert(text::strings_view(names@) =~= text::strings_view(names@.drop_last()).push(names@.last()@));
    }
    assert(es.take(es.len() as int) =~= es);
    assert(rule_components(es).take(es.len() as int) =~= rule_components(es));
    assert(rule_asts(es).take(es.len() as int) =~= rule_asts(es));
    let mut component_lists: Vec<(String, Vec<String>)> = Vec::new();
    component_lists.push((String::from_str("names"), names));
    component_lists.push((String::from_str("components"), components));
    let component_context = TemplateContext { values: Vec::new(), lists: component_lists };
    let mut ast_lists: Vec<(String, Vec<String>)> = Vec::new();
    ast_lists.push((String::from_str("astNodes"), ast_nodes));
    let ast_context = TemplateContext { values: Vec::new(), lists: ast_lists };
    assert(component_context@.values =~= Seq::empty());
    assert(rendered::has_lists(component_context@, seq!["names"@, "components"@]));
    assert(ast_context@.values =~= Seq::empty());
    assert(rendered::has_lists(ast_context@, seq!["astNodes"@]));
    let components_file = match render_template(Template::ComponentFile, &component_context) {
        Ok(c) => c,
        Err(_) => vstd::pervasive::unreached(),
    };
    let ast_file = match render_template(Template::AstFile, &ast_context) {
        Ok(a) => a,
        Err(_) => vstd::pervasive::unreached(),
    };
    GeneratedFiles { components: components_file, ast: ast_file }
}

/// Why the files of a grammar source could not be generated.
#[derive(Clone, Copy, Debug, PartialEq, Eq, Structural)]
pub enum GenerateError {
    /// The source is not a grammar.
    Grammar(GrammarError),
    /// A rule cannot be rendered (see [`render::supported`]).
    Unsupported,
}

/// Reads a grammar from EBNF source and renders its two files.
pub fn generate_from_source(source: &str) -> (res: Result<GeneratedFiles, GenerateError>)
    ensures
        match res {
            Ok(files) => !parse::ends_in_backslash(source@) && (parse::ebnf_grammar(source@) matches Some(g)
                && grammar_supported(g) && files.components@ == components_file(g) && files.ast@ == ast_file(g)),
            Err(GenerateError::Grammar(GrammarError::Syntax)) => !parse::ends_in_backslash(source@)
                && parse::ebnf_grammar(source@) is None,
            Err(GenerateError::Grammar(GrammarError::TrailingBackslash)) => parse::ends_in_backslash(
                source@,
            ),
            Err(GenerateError::Unsupported) => !parse::ends_in_backslash(source@) && (parse::ebnf_grammar(source@) matches Some(g)
                && !grammar_supported(g)),
        },
{
    let grammar = match parse_grammar(source) {
        Ok(g) => g,
        Err(e) => {
            return Err(GenerateError::Grammar(e));
        },
    };
    if !grammar_supported_check(&grammar) {
        return Err(GenerateError::Unsupported);
    }
    Ok(generate(&grammar))
}

} // verus!
