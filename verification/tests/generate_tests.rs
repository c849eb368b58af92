use ebnf_jsx::generate::{generate, generate_from_source, grammar_supported_check, is_supported, GenerateError};
use ebnf_jsx::parse::{parse_grammar, GrammarError};
use ebnf_jsx::render::{expression_to_ast, expression_to_component, expression_to_top_component, render_template, RenderError, TemplateContext};
use ebnf_jsx::templates::{Template, AST_TEMPLATE};
use ebnf_jsx::tree::{Expression, Grammar, Node, RegexExtKind, SymbolKind};

const SOURCE: &str = r"
    program     ::= expr*;
    expr        ::= const | binary;
    binary      ::= '(' expr binaryOp expr ')';
    binaryOp    ::= '+' | '*' | '-' | '/';
    const       ::= #'[0-9]+';
";

fn context(values: &[(&str, &str)]) -> TemplateContext {
    TemplateContext {
        values: values.iter().map(|(k, v)| (k.to_string(), v.to_string())).collect(),
        lists: vec![],
    }
}

#[test]
fn parse_grammar_reads_rules_in_order() {
    let g = parse_grammar(SOURCE).unwrap();
    let names: Vec<&str> = g.expressions.iter().map(|e| e.lhs.as_str()).collect();
    assert_eq!(names, vec!["program", "expr", "binary", "binaryOp", "const"]);
    match &g.expressions[0].rhs {
        Node::RegexExt(inner, RegexExtKind::Repeat0) => match &**inner {
            Node::Terminal(t) => assert_eq!(t, "expr"),
            other => panic!("unexpected {:?}", other),
        },
        other => panic!("unexpected {:?}", other),
    }
    match &g.expressions[1].rhs {
        Node::Symbol(_, SymbolKind::Alternation, _) => {},
        other => panic!("unexpected {:?}", other),
    }
    match &g.expressions[2].rhs {
        Node::Multiple(v) => assert_eq!(v.len(), 5),
        other => panic!("unexpected {:?}", other),
    }
    match &g.expressions[4].rhs {
        Node::RegexString(r) => assert_eq!(r, "[0-9]+"),
        other => panic!("unexpected {:?}", other),
    }
}

#[test]
fn parse_grammar_refuses_trailing_backslash() {
    assert_eq!(parse_grammar("a ::= (\\").err(), Some(GrammarError::TrailingBackslash));
    assert_eq!(parse_grammar("a ::= 'x';\\").err(), Some(GrammarError::TrailingBackslash));
    assert_eq!(
        generate_from_source("a ::= (\\").err(),
        Some(GenerateError::Grammar(GrammarError::TrailingBackslash))
    );
}

#[test]
fn parse_grammar_accepts_inner_backslash() {
    let g = parse_grammar("a ::= '\\t' | (b);").unwrap();
    assert_eq!(g.expressions.len(), 1);
}

#[test]
fn parse_grammar_refuses_non_grammar() {
    assert_eq!(parse_grammar("not a grammar").err(), Some(GrammarError::Syntax));
}

#[test]
fn render_template_substitutes() {
    let ctx = context(&[("name", "expr"), ("type", "T|[]")]);
    let expected = AST_TEMPLATE.replace("{{name}}", "expr").replace("{{type}}", "T|[]");
    assert_eq!(render_template(Template::Ast, &ctx).unwrap(), expected);
    let ctx = TemplateContext {
        values: vec![],
        lists: vec![("names".to_string(), vec!["a".to_string(), "b".to_string()])],
    };
    let out = render_template(Template::Visitor, &ctx).unwrap();
    assert!(out.contains("abstract visita_node (node : a_node) : void;"));
    assert!(out.contains("abstract visitb_node (node : b_node) : void;"));
}

#[test]
fn render_template_reports_tera_failure() {
    assert_eq!(render_template(Template::Ast, &context(&[])).err(), Some(RenderError::Template));
    assert_eq!(render_template(Template::AstFile, &context(&[])).err(), Some(RenderError::Template));
}

#[test]
fn ast_class_of_rule() {
    let e = Expression { lhs: "const".to_string(), rhs: Node::RegexString("[0-9]+".to_string()) };
    let expected = AST_TEMPLATE.replace("{{name}}", "const").replace("{{type}}", "string|[]");
    assert_eq!(expression_to_ast(&e), expected);
}

#[test]
fn components_of_rule() {
    let e = Expression {
        lhs: "binaryOp".to_string(),
        rhs: Node::Symbol(
            Box::new(Node::String("+".to_string())),
            SymbolKind::Alternation,
            Box::new(Node::String("-".to_string())),
        ),
    };
    let c = expression_to_component(&e);
    assert!(c.contains("const BinaryOp: React.FC<ComponentInput> = (props) => {"));
    assert!(c.contains("const [select0, setSelect0] = useState(-1);"));
    assert!(c.contains("let expr: binaryOp_node = new binaryOp_node(props.parent);"));
    assert!(c.contains("new SelectInput([\"+\", \"-\"],["));
    let top = expression_to_top_component(&e);
    assert!(top.contains("export function BinaryOp(props: any){"));
    assert!(top.contains("const [select0, setSelect0] = useState(-1);"));
    assert!(top.contains("const [expr, setExpr] = useState(new binaryOp_node(undefined));"));
}

#[test]
fn generate_from_source_writes_both_files() {
    let files = generate_from_source(SOURCE).unwrap();
    assert!(files.components.contains("import { \nprogram_node,expr_node,binary_node,binaryOp_node,const_node,} from './ast';")
        || files.components.contains("program_node,expr_node,binary_node,binaryOp_node,const_node,"));
    assert!(files.components.contains("export function Program(props: any){"));
    assert!(files.components.contains("const Expr: React.FC<ComponentInput> = (props) => {"));
    assert!(files.components.contains("const Const: React.FC<ComponentInput> = (props) => {"));
    assert!(!files.components.contains("export function Expr("));
    assert!(files.ast.contains("export abstract class AST_node{"));
    assert!(files.ast.contains("export class program_node extends AST_node {"));
    assert!(files.ast.contains("child: expr_node[]|[] = [];"));
    assert!(files.ast.contains("child: [string,expr_node,binaryOp_node,expr_node,string]|[] = [];"));
    assert!(files.ast.contains("child: string|string|string|string|[] = [];"));
}

#[test]
fn generate_from_source_reports_bad_grammar() {
    assert_eq!(
        generate_from_source("expr ::= ").err(),
        Some(GenerateError::Grammar(GrammarError::Syntax))
    );
}

#[test]
fn generate_matches_generate_from_source() {
    let g = parse_grammar(SOURCE).unwrap();
    assert!(grammar_supported_check(&g));
    let a = generate(&g);
    let b = generate_from_source(SOURCE).unwrap();
    assert_eq!(a.components, b.components);
    assert_eq!(a.ast, b.ast);
}

#[test]
fn empty_sequence_is_unsupported() {
    let e = Expression { lhs: "r".to_string(), rhs: Node::Multiple(vec![]) };
    assert!(!is_supported(&e));
    let g = Grammar { expressions: vec![e] };
    assert!(!grammar_supported_check(&g));
    let ok = Expression { lhs: "r".to_string(), rhs: Node::Optional(Box::new(Node::Multiple(vec![]))) };
    assert!(is_supported(&ok));
}

#[test]
fn ast_class_depends_on_name_and_type_only() {
    let e1 = Expression { lhs: "r".to_string(), rhs: Node::String("a".to_string()) };
    let e2 = Expression { lhs: "r".to_string(), rhs: Node::RegexString("[a-z]".to_string()) };
    assert_eq!(expression_to_ast(&e1), expression_to_ast(&e2));
}

#[test]
fn generated_files_are_assembled_from_rules() {
    let g = parse_grammar(SOURCE).unwrap();
    let files = generate(&g);
    let asts: String = g.expressions.iter().map(|e| "\n".to_string() + &expression_to_ast(e)).collect();
    assert_eq!(files.ast, ebnf_jsx::rendered::AST_FILE_HEAD.to_string() + &asts + "\n");
    let names: String = g.expressions.iter().map(|e| e.lhs.clone() + "_node,").collect();
    let comps: String = g.expressions.iter().enumerate().map(|(i, e)| {
        "\n".to_string() + &if i == 0 { expression_to_top_component(e) } else { expression_to_component(e) }
    }).collect();
    assert_eq!(
        files.components,
        ebnf_jsx::rendered::COMPONENT_FILE_HEAD.to_string() + &names + ebnf_jsx::rendered::COMPONENT_FILE_MIDDLE + &comps + "\n    "
    );
}
