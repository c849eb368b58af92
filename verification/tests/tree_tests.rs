use ebnf_jsx::describe::{longest_multiple, node_to_string, type_of, undefinded};
use ebnf_jsx::ids::node_to_ids;
use ebnf_jsx::tree::{alternation_to_list, Node, RegexExtKind, SymbolKind};

fn s(x: &str) -> Node {
    Node::String(x.to_string())
}

fn t(x: &str) -> Node {
    Node::Terminal(x.to_string())
}

fn alt(l: Node, r: Node) -> Node {
    Node::Symbol(Box::new(l), SymbolKind::Alternation, Box::new(r))
}

fn cat(l: Node, r: Node) -> Node {
    Node::Symbol(Box::new(l), SymbolKind::Concatenation, Box::new(r))
}

fn binary_op() -> Node {
    alt(s("+"), alt(s("*"), alt(s("-"), s("/"))))
}

#[test]
fn alternation_to_list_flattens_right_spine() {
    let n = binary_op();
    let v = alternation_to_list(&n).unwrap();
    let texts: Vec<String> = v.iter().map(|n| node_to_string(n)).collect();
    assert_eq!(texts, vec!["+", "*", "-", "/"]);
}

#[test]
fn alternation_to_list_does_not_enter_left_operand() {
    let n = alt(alt(s("a"), s("b")), s("c"));
    let v = alternation_to_list(&n).unwrap();
    assert_eq!(v.len(), 2);
    assert_eq!(node_to_string(v[0]), "a|b");
}

#[test]
fn alternation_to_list_refuses_other_nodes() {
    assert_eq!(alternation_to_list(&s("x")).err(), Some(0));
    assert_eq!(alternation_to_list(&Node::Multiple(vec![s("a"), s("b")])).err(), Some(0));
}

#[test]
fn alternation_to_list_ignores_symbol_kind() {
    let n = cat(s("a"), cat(s("b"), s("c")));
    assert_eq!(alternation_to_list(&n).unwrap().len(), 3);
}

#[test]
fn node_to_string_of_each_kind() {
    assert_eq!(node_to_string(&s("(")), "(");
    assert_eq!(node_to_string(&Node::RegexString("[0-9]+".to_string())), "[0-9]+");
    assert_eq!(node_to_string(&t("expr")), "<expr>");
    assert_eq!(node_to_string(&Node::Multiple(vec![s("("), t("expr")])), " ( <expr>");
    assert_eq!(node_to_string(&Node::RegexExt(Box::new(t("expr")), RegexExtKind::Repeat0)), "<expr>[]");
    assert_eq!(node_to_string(&binary_op()), "+|*|-|/");
    assert_eq!(node_to_string(&Node::Group(Box::new(t("a")))), "(<a>)");
    assert_eq!(node_to_string(&Node::Optional(Box::new(t("a")))), "");
    assert_eq!(node_to_string(&Node::Repeat(Box::new(t("a")))), "<a>");
    assert_eq!(node_to_string(&Node::Unknown), "");
}

#[test]
fn text_of_choice_joins_alternatives() {
    let n = alt(t("const"), t("binary"));
    let parts: Vec<String> = alternation_to_list(&n).unwrap().iter().map(|n| node_to_string(n)).collect();
    assert_eq!(node_to_string(&n), parts.join("|"));
}

#[test]
fn type_of_each_kind() {
    assert_eq!(type_of(&s("x")), "string|[]");
    assert_eq!(type_of(&Node::RegexString("x".to_string())), "string|[]");
    assert_eq!(type_of(&t("expr")), "expr_node|[]");
    assert_eq!(
        type_of(&Node::Multiple(vec![s("("), t("expr"), t("binaryOp"), t("expr"), s(")")])),
        "[string,expr_node,binaryOp_node,expr_node,string]|[]"
    );
    assert_eq!(type_of(&Node::RegexExt(Box::new(t("expr")), RegexExtKind::Repeat0)), "expr_node[]|[]");
    assert_eq!(type_of(&alt(t("const"), t("binary"))), "const_node|binary_node|[]");
    assert_eq!(type_of(&Node::Group(Box::new(t("a")))), "(a_node)|[]");
    assert_eq!(type_of(&Node::Optional(Box::new(Node::Multiple(vec![])))), "|[]");
    assert_eq!(type_of(&Node::Repeat(Box::new(t("a")))), "a_node|[]");
    assert_eq!(type_of(&Node::Unknown), "|[]");
}

#[test]
fn type_of_choice_joins_alternative_types() {
    let n = binary_op();
    let parts: Vec<String> = alternation_to_list(&n).unwrap().iter().map(|n| {
        let t = type_of(n);
        t[..t.len() - 3].to_string()
    }).collect();
    assert_eq!(type_of(&n), parts.join("|") + "|[]");
}

#[test]
fn longest_multiple_counts_top_sequences() {
    assert_eq!(longest_multiple(&s("x")), 0);
    let seq3 = Node::Multiple(vec![s("a"), Node::Multiple(vec![s("b"), s("c"), s("d"), s("e")]), s("f")]);
    assert_eq!(longest_multiple(&seq3), 3);
    let n = alt(Node::Multiple(vec![s("a"), s("b")]), Node::Group(Box::new(seq3)));
    assert_eq!(longest_multiple(&n), 3);
    assert_eq!(longest_multiple(&Node::Multiple(vec![])), 0);
}

#[test]
fn undefinded_placeholders() {
    assert_eq!(undefinded(&t("a")), "undefined");
    assert_eq!(undefinded(&Node::Multiple(vec![s("a")])), "[undefined]");
    assert_eq!(undefinded(&Node::Multiple(vec![s("a"), s("b"), s("c")])), "[undefined,undefined,undefined]");
}

#[test]
fn node_to_ids_of_choice() {
    assert_eq!(node_to_ids(&binary_op(), true), vec!["0"]);
    let n = alt(t("const"), Node::Group(Box::new(alt(s("a"), alt(s("b"), alt(s("c"), s("d")))))));
    assert_eq!(node_to_ids(&n, true), vec!["0", "0_1"]);
    let n = alt(alt(s("x"), s("y")), alt(s("a"), Node::Optional(Box::new(alt(s("b"), s("c"))))));
    assert_eq!(node_to_ids(&n, true), vec!["0", "0_0", "0_2"]);
}

#[test]
fn node_to_ids_does_not_enter_sequences() {
    let n = Node::Multiple(vec![alt(s("a"), s("b")), s("c")]);
    assert_eq!(node_to_ids(&n, true), Vec::<String>::new());
    let n = Node::RegexExt(Box::new(alt(s("a"), s("b"))), RegexExtKind::Repeat1);
    assert_eq!(node_to_ids(&n, true), vec!["0"]);
}

#[test]
fn node_to_ids_without_select_is_empty() {
    assert_eq!(node_to_ids(&binary_op(), false), Vec::<String>::new());
    let n = alt(t("const"), Node::Group(Box::new(alt(s("a"), s("b")))));
    assert_eq!(node_to_ids(&n, false), Vec::<String>::new());
}

#[test]
fn sequence_text_concatenates() {
    let a = vec![s("("), t("expr")];
    let b = vec![t("op"), s(")")];
    let joined: Vec<Node> = vec![s("("), t("expr"), t("op"), s(")")];
    assert_eq!(
        node_to_string(&Node::Multiple(joined)),
        node_to_string(&Node::Multiple(a)) + &node_to_string(&Node::Multiple(b))
    );
    assert_eq!(node_to_string(&Node::Multiple(vec![])), "");
    assert_eq!(node_to_string(&Node::Multiple(vec![t("e")])), " <e>");
}
