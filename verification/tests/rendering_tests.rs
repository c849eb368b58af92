use ebnf_jsx::render::{render_template, TemplateContext};
use ebnf_jsx::rendered::{COMPONENT_FILE_HEAD, COMPONENT_FILE_MIDDLE};
use ebnf_jsx::templates::Template;

fn strings(v: &[&str]) -> Vec<String> {
    v.iter().map(|s| s.to_string()).collect()
}

fn ctx(values: &[(&str, &str)], lists: &[(&str, &[&str])]) -> TemplateContext {
    TemplateContext {
        values: values.iter().map(|(k, v)| (k.to_string(), v.to_string())).collect(),
        lists: lists.iter().map(|(k, v)| (k.to_string(), strings(v))).collect(),
    }
}

fn select_lines(selects: &[&str]) -> String {
    selects.iter().map(|s| format!("\n  const [select{}, setSelect{}] = useState(-1);", s, s)).collect()
}

#[test]
fn ast_class_text() {
    let out = render_template(Template::Ast, &ctx(&[("name", "r"), ("type", "T")], &[])).unwrap();
    let expected = "\nexport class ".to_string() + "r" + "_node extends AST_node {\n  constructor(parent: AST_node|undefined){\n      super(parent);\n  }\n  //accept = (v : Visitor) => { v.visit" + "r" + "_node(this); }\n  child: " + "T" + " = [];\n}\n";
    assert_eq!(out, expected);
}

#[test]
fn component_text() {
    for selects in [&[][..], &["0"][..], &["0", "0_1"][..]] {
        let out = render_template(
            Template::Component,
            &ctx(&[("name", "R"), ("astname", "r"), ("jsx", "<J/>")], &[("selects", selects)]),
        ).unwrap();
        let expected = "\nconst ".to_string() + "R" + ": React.FC<ComponentInput> = (props) => {" + &select_lines(selects)
            + "\n  let expr: " + "r" + "_node = new " + "r" + "_node(props.parent);\n  props.setCurrent(expr);\n  return " + "<J/>" + ";\n}\n";
        assert_eq!(out, expected);
    }
}

#[test]
fn top_component_text() {
    for selects in [&[][..], &["0", "0_1"][..]] {
        let out = render_template(
            Template::TopComponent,
            &ctx(&[("name", "R"), ("astname", "r"), ("jsx", "<J/>")], &[("selects", selects)]),
        ).unwrap();
        let expected = "\nexport function ".to_string() + "R" + "(props: any){" + &select_lines(selects)
            + "\n  const focus = useFocusRoot();\n  const [, updateState] = React.useState({});\n  const [expr, setExpr] = useState(new "
            + "r" + "_node(undefined));\n  props.set(expr);\n  update = React.useCallback(() => {updateState({}); setExpr(expr)}, []);\n\n  return <div onKeyDown={(e)=>{if (!e.ctrlKey) return;if(e.key === 'ArrowLeft') {rotate(-1, false);} else if (e.key === 'ArrowRight') {rotate(1,false);}}}>\n  "
            + "<J/>" + "\n  </div>;\n}\n";
        assert_eq!(out, expected);
    }
}

#[test]
fn ast_file_text() {
    for asts in [&[][..], &["A", "B"][..]] {
        let out = render_template(Template::AstFile, &ctx(&[], &[("astNodes", asts)])).unwrap();
        let body: String = asts.iter().map(|a| format!("\n{}", a)).collect();
        let expected = "\nexport abstract class AST_node{\n    constructor(parent: AST_node | undefined){\n        this.parent = parent;\n    }\n    abstract child: any;\n    parent?: AST_node;\n}\n".to_string() + &body + "\n";
        assert_eq!(out, expected);
    }
}

#[test]
fn visitor_text() {
    for names in [&[][..], &["a", "b"][..]] {
        let out = render_template(Template::Visitor, &ctx(&[], &[("names", names)])).unwrap();
        let body: String = names.iter().map(|n| format!("\n  abstract visit{}_node (node : {}_node) : void;", n, n)).collect();
        let expected = "\nexport abstract class Visitor {\n  ".to_string() + &body + "\n}\n";
        assert_eq!(out, expected);
    }
}

#[test]
fn component_file_text() {
    let out = render_template(
        Template::ComponentFile,
        &ctx(&[], &[("names", &["a", "b"]), ("components", &["C1", "C2"])]),
    ).unwrap();
    assert!(out.starts_with("\nimport React, { useState } from 'react';\nimport { useRef } from 'react';\nimport { useEffect } from 'react';\nimport { AST_node } from './ast';\nimport {a_node,b_node,} from './ast';\n\nimport './ast.css'\n"));
    assert!(out.contains("style={{width: width}} \n    onChange="));
    assert!(out.ends_with("  </div>\n}\n\n\n\nC1\nC2\n    "));
    let expected = COMPONENT_FILE_HEAD.to_string() + "a_node,b_node," + COMPONENT_FILE_MIDDLE + "\nC1\nC2" + "\n    ";
    assert_eq!(out, expected);
}
