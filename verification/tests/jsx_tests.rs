use ebnf_jsx::ids::node_to_ids;
use ebnf_jsx::jsx::{jsx_fits_check, node_to_jsx};
use ebnf_jsx::tree::{Node, RegexExtKind, SymbolKind};

fn s(x: &str) -> Node {
    Node::String(x.to_string())
}

fn t(x: &str) -> Node {
    Node::Terminal(x.to_string())
}

fn alt(l: Node, r: Node) -> Node {
    Node::Symbol(Box::new(l), SymbolKind::Alternation, Box::new(r))
}

fn wrap(name: &str, inner: &str) -> String {
    format!("<div className=\"{}\">\n{}\n</div>", name, inner)
}

#[test]
fn jsx_of_string() {
    assert_eq!(node_to_jsx(&s("x"), "r"), wrap("r", "<Default {...new ComponentInput(expr,[],'x')}/>"));
}

#[test]
fn jsx_of_pattern_and_terminal() {
    assert_eq!(
        node_to_jsx(&Node::RegexString("[0-9]+".to_string()), "const"),
        wrap("const", "<TextInput {...new ComponentInput(expr,[])}/>")
    );
    assert_eq!(node_to_jsx(&t("expr"), "e"), wrap("e", "<Expr {...new ComponentInput(expr,[])}/>"));
}

#[test]
fn jsx_of_repetition() {
    let n = Node::RegexExt(Box::new(t("expr")), RegexExtKind::Repeat0);
    let inner = "<Variatic {...new VariaticInput((n0:number)=>{\nreturn <div>\n".to_string()
        + "<Expr {...new ComponentInput(expr,[n0, ])}/>"
        + "\n</div>\n},0)}\n/>\n";
    assert_eq!(node_to_jsx(&n, "program"), wrap("program", &inner));
}

#[test]
fn jsx_of_nested_repetition_counts_levels() {
    let n = Node::RegexExt(
        Box::new(Node::RegexExt(Box::new(t("a")), RegexExtKind::Repeat0)),
        RegexExtKind::Repeat1,
    );
    let inner_most = "<A {...new ComponentInput(expr,[n0, n1, ])}/>";
    let level1 = "<Variatic {...new VariaticInput((n1:number)=>{\nreturn <div>\n".to_string()
        + inner_most
        + "\n</div>\n},0)}\n/>\n";
    let level0 = "<Variatic {...new VariaticInput((n0:number)=>{\nreturn <div>\n".to_string()
        + &level1
        + "\n</div>\n},1)}\n/>\n";
    assert_eq!(node_to_jsx(&n, "r"), wrap("r", &level0));
}

#[test]
fn jsx_of_sequence() {
    let n = Node::Multiple(vec![s("("), t("expr")]);
    let inner = "<div className=\"multiple\">\n".to_string()
        + "\n<Default {...new ComponentInput(expr,[0, ],'(')}/>"
        + "\n<Expr {...new ComponentInput(expr,[1, ])}/>"
        + "\n</div>";
    assert_eq!(node_to_jsx(&n, "binary"), wrap("binary", &inner));
}

#[test]
fn jsx_of_choice() {
    let n = alt(t("const"), t("binary"));
    let inner = "<Select\n{...\nnew SelectInput([\"<const>\", \"<binary>\"],[\n".to_string()
        + "<Const {...new ComponentInput(expr,[])}/>"
        + "\n"
        + ",<Binary {...new ComponentInput(expr,[])}/>\n"
        + "],select0,setSelect0)\n}\n/>";
    assert_eq!(node_to_jsx(&n, "expr"), wrap("expr", &inner));
}

#[test]
fn jsx_of_nested_choice_names_enclosing_setter() {
    let n = alt(s("a"), Node::Group(Box::new(alt(s("b"), s("c")))));
    let nested = "<Select\n{...\nnew SelectInput([\"b\", \"c\"],[\n".to_string()
        + "<Default {...new ComponentInput(expr,[],'b')}/>\n"
        + ",<Default {...new ComponentInput(expr,[],'c')}/>\n"
        + "],select0_1,setSelect0_1,setSelect0)\n}\n/>";
    let inner = "<Select\n{...\nnew SelectInput([\"a\", \"(b|c)\"],[\n".to_string()
        + "<Default {...new ComponentInput(expr,[],'a')}/>\n"
        + ","
        + &nested
        + "\n],select0,setSelect0)\n}\n/>";
    assert_eq!(node_to_jsx(&n, "r"), wrap("r", &inner));
}

#[test]
fn jsx_of_optional_and_unknown() {
    assert_eq!(node_to_jsx(&Node::Optional(Box::new(s("x"))), "r"), wrap("r", "<Default {...new ComponentInput(expr,[],'x')}/>"));
    assert_eq!(node_to_jsx(&Node::Unknown, "r"), wrap("r", ""));
}

#[test]
fn jsx_fits_ordinary_trees() {
    let n = alt(s("a"), Node::RegexExt(Box::new(Node::Multiple(vec![s("b"), t("c")])), RegexExtKind::Optional));
    assert!(jsx_fits_check(&n, 0));
    assert!(!jsx_fits_check(&Node::RegexExt(Box::new(s("x")), RegexExtKind::Repeat0), i32::MAX));
    assert!(jsx_fits_check(&s("x"), i32::MAX));
}

#[test]
fn jsx_ignores_symbol_and_repetition_kinds() {
    let c = || Node::Symbol(Box::new(s("a")), SymbolKind::Concatenation, Box::new(t("b")));
    let a = || Node::Symbol(Box::new(s("a")), SymbolKind::Alternation, Box::new(t("b")));
    assert_eq!(node_to_jsx(&c(), "r"), node_to_jsx(&a(), "r"));
    let o = Node::RegexExt(Box::new(t("x")), RegexExtKind::Optional);
    let z = Node::RegexExt(Box::new(t("x")), RegexExtKind::Repeat0);
    assert_eq!(node_to_jsx(&o, "r"), node_to_jsx(&z, "r"));
}

#[test]
fn listed_ids_name_choices_in_jsx() {
    let n = alt(
        alt(s("x"), s("y")),
        alt(s("a"), Node::Optional(Box::new(alt(s("b"), Node::RegexExt(Box::new(alt(s("c"), s("d"))), RegexExtKind::Repeat0))))),
    );
    let jsx = node_to_jsx(&n, "r");
    let ids = node_to_ids(&n, true);
    assert_eq!(ids, vec!["0", "0_0", "0_2", "0_2_1"]);
    for id in ids {
        assert!(jsx.contains(&format!("],select{},setSelect{}", id, id)));
    }
}
