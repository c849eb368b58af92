//! The text Tera renders from each of the library's templates, for a
//! context of the shape the library gives it.
use vstd::prelude::*;
use crate::render::ContextV;
use crate::templates::Template;

verus! {

/// Each select id's state declaration, one per line.
pub open spec fn select_lines(selects: Seq<Seq<char>>) -> Seq<char>
    decreases selects.len(),
{
    if selects.len() == 0 {
        Seq::empty()
    } else {
        let s = selects.last();
        select_lines(selects.drop_last()) + "\n  const [select"@ + s + ", setSelect"@ + s + "] = useState(-1);"@
    }
}

/// Each item on a line of its own, each preceded by a newline.
pub open spec fn newline_items(items: Seq<Seq<char>>) -> Seq<char>
    decreases items.len(),
{
    if items.len() == 0 {
        Seq::empty()
    } else {
        newline_items(items.drop_last()) + "\n"@ + items.last()
    }
}

/// Each name as an imported AST class, `<name>_node,`.
pub open spec fn node_imports(names: Seq<Seq<char>>) -> Seq<char>
    decreases names.len(),
{
    if names.len() == 0 {
        Seq::empty()
    } else {
        node_imports(names.drop_last()) + names.last() + "_node,"@
    }
}

/// Each name's abstract visit method, one per line.
pub open spec fn visitor_lines(names: Seq<Seq<char>>) -> Seq<char>
    decreases names.len(),
{
    if names.len() == 0 {
        Seq::empty()
    } else {
        let n = names.last();
        visitor_lines(names.drop_last()) + "\n  abstract visit"@ + n + "_node (node : "@ + n + "_node) : void;"@
    }
}

/// The AST class of a rule with the given name and value type.
pub open spec fn ast_class_text(name: Seq<char>, ty: Seq<char>) -> Seq<char> {
    "\nexport class "@ + name + "_node extends AST_node {\n  constructor(parent: AST_node|undefined){\n      super(parent);\n  }\n  //accept = (v : Visitor) => { v.visit"@
        + name + "_node(this); }\n  child: "@ + ty + " = [];\n}\n"@
}

/// The editor component of a rule other than the first.
pub open spec fn component_text(name: Seq<char>, astname: Seq<char>, selects: Seq<Seq<char>>, jsx: Seq<char>) -> Seq<char> {
    "\nconst "@ + name + ": React.FC<ComponentInput> = (props) => {"@ + select_lines(selects) + "\n  let expr: "@
        + astname + "_node = new "@ + astname + "_node(props.parent);\n  props.setCurrent(expr);\n  return "@ + jsx
        + ";\n}\n"@
}

/// The exported root editor component, of the first rule.
pub open spec fn top_component_text(name: Seq<char>, astname: Seq<char>, selects: Seq<Seq<char>>, jsx: Seq<char>) -> Seq<char> {
    "\nexport function "@ + name + "(props: any){"@ + select_lines(selects)
        + "\n  const focus = useFocusRoot();\n  const [, updateState] = React.useState({});\n  const [expr, setExpr] = useState(new "@
        + astname
        + "_node(undefined));\n  props.set(expr);\n  update = React.useCallback(() => {updateState({}); setExpr(expr)}, []);\n\n  return <div onKeyDown={(e)=>{if (!e.ctrlKey) return;if(e.key === 'ArrowLeft') {rotate(-1, false);} else if (e.key === 'ArrowRight') {rotate(1,false);}}}>\n  "@
        + jsx + "\n  </div>;\n}\n"@
}

/// The file of AST classes.
pub open spec fn ast_file_text(asts: Seq<Seq<char>>) -> Seq<char> {
    AST_FILE_HEAD@ + newline_items(asts) + "\n"@
}

/// The components file: imports of every rule's AST class, the shared
/// input components, then every rule's component.
pub open spec fn component_file_text(names: Seq<Seq<char>>, components: Seq<Seq<char>>) -> Seq<char> {
    COMPONENT_FILE_HEAD@ + node_imports(names) + COMPONENT_FILE_MIDDLE@ + newline_items(components) + "\n    "@
}

/// The abstract visitor over the named AST classes.
pub open spec fn visitor_text(names: Seq<Seq<char>>) -> Seq<char> {
    "\nexport abstract class Visitor {\n  "@ + visitor_lines(names) + "\n}\n"@
}

/// The text before the AST classes in the AST file.
pub const AST_FILE_HEAD: &'static str = "\nexport abstract class AST_node{\n    constructor(parent: AST_node | undefined){\n        this.parent = parent;\n    }\n    abstract child: any;\n    parent?: AST_node;\n}\n";

/// The text before the imported AST classes in the components file.
pub const COMPONENT_FILE_HEAD: &'static str = "\nimport React, { useState } from 'react';\nimport { useRef } from 'react';\nimport { useEffect } from 'react';\nimport { AST_node } from './ast';\nimport {";

/// The text between the imported AST classes and the components in the
/// components file.
pub const COMPONENT_FILE_MIDDLE: &'static str = "} from './ast';\n\nimport './ast.css'\nimport { peak_focus, rotate, set_rotation, useFocus, useFocusRoot } from './focus';\nimport { getTextWidth, Select, SelectInput } from './select';\nexport let update = ()=>{}\n\n\nclass ComponentInput {\n  constructor(parent: AST_node, nth: number[], current?: any){\n    this.parent = parent;\n    this.setCurrent = (n: any)=>{\n      if (current !== undefined){\n        n = current;\n      }\n      if (nth.length===0){\n        parent.child=n;\n      }\n      else{\n        let ref = parent.child;\n        for (let i in nth.slice(0,-1)){\n          ref = parent.child[i]\n        }\n        ref[nth[nth.length-1]] = n;\n      }\n    };\n    this.current = current;\n  }\n  parent: AST_node; \n  setCurrent: (n: any)=>void;\n  current?: any;\n  children?: React.ReactNode;\n}\n\nconst TextInput: React.FC<ComponentInput> = (props) => {\n  const [val, setVal] = useState('');\n  props.setCurrent(val);\n  let width = getTextWidth(val.toLowerCase()) + 30;\n  const [focus,ref] = useFocus();\n  return <input className='input' ref={ref} style={{width: width}} \n    onChange={(e) => {props.setCurrent(e.target.value);update();}}\n    defaultValue={val}\n  />\n}\nconst Default: React.FC<ComponentInput> = (props) => {\n  if (props.current){\n    props.setCurrent(props.current);\n  }\n  return <div>\n    {props.current}\n  </div>\n}\n\nclass VariaticInput {\n  constructor(getNth: (n: number)=>JSX.Element, min: number){\n    this.min = min;\n    this.getNth = getNth;\n  }\n  min: number;\n  getNth: (n: number)=>JSX.Element;\n}\n\nconst Variatic: React.FC<VariaticInput> = (props) => {\n  const [n, setN] = useState(props.min);\n  function doit(amount: number){\n    set_rotation(f.current);\n    setN(n+amount);\n    update();\n  }\n  function increase(){\n    doit(1);\n  }\n  function decrease(){\n    if (n > props.min){\n      doit(-1);\n    }\n  }\n  let f = useRef(0);\n  useEffect(()=>{\n    f.current = peak_focus();\n  }, [])\n  return <div>\n    {Array.from(Array(n).keys()).map(props.getNth)}\n    <div>\n      <div onClick={increase}>add</div>\n      <div onClick={decrease}>remove</div>\n    </div>\n  </div>\n}\n\n\n";

/// The context holds exactly the named strings, in order, and no lists.
pub open spec fn has_values(context: ContextV, names: Seq<Seq<char>>) -> bool {
    &&& context.values.len() == names.len()
    &&& forall|i: int| 0 <= i < names.len() ==> #[trigger] context.values[i].0 == names[i]
}

/// The context holds exactly the named lists, in order.
pub open spec fn has_lists(context: ContextV, names: Seq<Seq<char>>) -> bool {
    &&& context.lists.len() == names.len()
    &&& forall|i: int| 0 <= i < names.len() ==> #[trigger] context.lists[i].0 == names[i]
}

/// What a template renders to from a context of the shape the library
/// gives it (its values and lists under exactly the names the template
/// uses, in the library's order); `None` for any other context.
pub open spec fn library_rendering(t: Template, context: ContextV) -> Option<Seq<char>> {
    match t {
        Template::Ast => if has_values(context, seq!["name"@, "type"@]) && has_lists(context, Seq::empty()) {
            Some(ast_class_text(context.values[0].1, context.values[1].1))
        } else {
            None
        },
        Template::Component => if has_values(context, seq!["name"@, "astname"@, "jsx"@]) && has_lists(
            context,
            seq!["selects"@],
        ) {
            Some(component_text(context.values[0].1, context.values[1].1, context.lists[0].1, context.values[2].1))
        } else {
            None
        },
        Template::TopComponent => if has_values(context, seq!["name"@, "astname"@, "jsx"@]) && has_lists(
            context,
            seq!["selects"@],
        ) {
            Some(top_component_text(context.values[0].1, context.values[1].1, context.lists[0].1, context.values[2].1))
        } else {
            None
        },
        Template::AstFile => if has_values(context, Seq::empty()) && has_lists(context, seq!["astNodes"@]) {
            Some(ast_file_text(context.lists[0].1))
        } else {
            None
        },
        Template::ComponentFile => if has_values(context, Seq::empty()) && has_lists(
            context,
            seq!["names"@, "components"@],
        ) {
            Some(component_file_text(context.lists[0].1, context.lists[1].1))
        } else {
            None
        },
        Template::Visitor => if has_values(context, Seq::empty()) && has_lists(context, seq!["names"@]) {
            Some(visitor_text(context.lists[0].1))
        } else {
            None
        },
    }
}

} // verus!
