//! The text of the templates the generated files are rendered from.
use vstd::prelude::*;

verus! {

/// The file of AST classes: a base class, then each rule's class.
pub const AST_FILE_TEMPLATE: &'static str = r"
export abstract class AST_node{
    constructor(parent: AST_node | undefined){
        this.parent = parent;
    }
    abstract child: any;
    parent?: AST_node;
}
{% for astNode in astNodes %}
{{astNode}}
{%- endfor %}
";

/// The components file: imports, the shared input components, then each rule's component.
pub const COMPONENT_FILE_TEMPLATE: &'static str = r"
import React, { useState } from 'react';
import { useRef } from 'react';
import { useEffect } from 'react';
import { AST_node } from './ast';
import { 
{%- for name in names -%}
{{name}}_node,
{%- endfor -%}
} from './ast';

import './ast.css'
import { peak_focus, rotate, set_rotation, useFocus, useFocusRoot } from './focus';
import { getTextWidth, Select, SelectInput } from './select';
export let update = ()=>{}


class ComponentInput {
  constructor(parent: AST_node, nth: number[], current?: any){
    this.parent = parent;
    this.setCurrent = (n: any)=>{
      if (current !== undefined){
        n = current;
      }
      if (nth.length===0){
        parent.child=n;
      }
      else{
        let ref = parent.child;
        for (let i in nth.slice(0,-1)){
          ref = parent.child[i]
        }
        ref[nth[nth.length-1]] = n;
      }
    };
    this.current = current;
  }
  parent: AST_node; 
  setCurrent: (n: any)=>void;
  current?: any;
  children?: React.ReactNode;
}

const TextInput: React.FC<ComponentInput> = (props) => {
  const [val, setVal] = useState('');
  props.setCurrent(val);
  let width = getTextWidth(val.toLowerCase()) + 30;
  const [focus,ref] = useFocus();
  return <input className='input' ref={ref} style={% raw %}{{width: width}} {% endraw %}
    onChange={(e) => {props.setCurrent(e.target.value);update();}}
    defaultValue={val}
  />
}
const Default: React.FC<ComponentInput> = (props) => {
  if (props.current){
    props.setCurrent(props.current);
  }
  return <div>
    {props.current}
  </div>
}

class VariaticInput {
  constructor(getNth: (n: number)=>JSX.Element, min: number){
    this.min = min;
    this.getNth = getNth;
  }
  min: number;
  getNth: (n: number)=>JSX.Element;
}

const Variatic: React.FC<VariaticInput> = (props) => {
  const [n, setN] = useState(props.min);
  function doit(amount: number){
    set_rotation(f.current);
    setN(n+amount);
    update();
  }
  function increase(){
    doit(1);
  }
  function decrease(){
    if (n > props.min){
      doit(-1);
    }
  }
  let f = useRef(0);
  useEffect(()=>{
    f.current = peak_focus();
  }, [])
  return <div>
    {Array.from(Array(n).keys()).map(props.getNth)}
    <div>
      <div onClick={increase}>add</div>
      <div onClick={decrease}>remove</div>
    </div>
  </div>
}


{% for component in components %}
{{component}}
{%- endfor %}
    ";

/// The editor component of a rule other than the first.
pub const COMPONENT_TEMPLATE: &'static str = r"
const {{name}}: React.FC<ComponentInput> = (props) => {
  {%- for select in selects%}
  const [select{{select}}, setSelect{{select}}] = useState(-1);
  {%- endfor %}
  let expr: {{astname}}_node = new {{astname}}_node(props.parent);
  props.setCurrent(expr);
  return {{jsx}};
}
";

/// The exported editor component of the first rule, the root of the editor.
pub const TOP_COMPONENT_TEMPLATE: &'static str = r"
export function {{name}}(props: any){
  {%- for select in selects%}
  const [select{{select}}, setSelect{{select}}] = useState(-1);
  {%- endfor %}
  const focus = useFocusRoot();
  const [, updateState] = React.useState({});
  const [expr, setExpr] = useState(new {{astname}}_node(undefined));
  props.set(expr);
  update = React.useCallback(() => {updateState({}); setExpr(expr)}, []);

  return <div onKeyDown={(e)=>{if (!e.ctrlKey) return;if(e.key === 'ArrowLeft') {rotate(-1, false);} else if (e.key === 'ArrowRight') {rotate(1,false);}}}>
  {{jsx}}
  </div>;
}
";

/// The AST class of one rule.
pub const AST_TEMPLATE: &'static str = r"
export class {{name}}_node extends AST_node {
  constructor(parent: AST_node|undefined){
      super(parent);
  }
  //accept = (v : Visitor) => { v.visit{{name}}_node(this); }
  child: {{type}} = [];
}
";

/// An abstract visitor over the AST classes.
pub const VISITOR_TEMPLATE: &'static str = r"
export abstract class Visitor {
  {% for name in names %}
  abstract visit{{name}}_node (node : {{name}}_node) : void;
  {%- endfor %}
}
";

/// One of the library's templates.
#[derive(Clone, Copy, Debug, PartialEq, Eq, Structural)]
pub enum Template {
    /// [`AST_FILE_TEMPLATE`].
    AstFile,
    /// [`COMPONENT_FILE_TEMPLATE`].
    ComponentFile,
    /// [`COMPONENT_TEMPLATE`].
    Component,
    /// [`TOP_COMPONENT_TEMPLATE`].
    TopComponent,
    /// [`AST_TEMPLATE`].
    Ast,
    /// [`VISITOR_TEMPLATE`].
    Visitor,
}

/// The text of a template.
pub open spec fn template_view(t: Template) -> Seq<char> {
    match t {
        Template::AstFile => AST_FILE_TEMPLATE@,
        Template::ComponentFile => COMPONENT_FILE_TEMPLATE@,
        Template::Component => COMPONENT_TEMPLATE@,
        Template::TopComponent => TOP_COMPONENT_TEMPLATE@,
        Template::Ast => AST_TEMPLATE@,
        Template::Visitor => VISITOR_TEMPLATE@,
    }
}

/// The text is one of the library's templates.
pub open spec fn is_library_template(text: Seq<char>) -> bool {
    exists|t: Template| #[trigger] template_view(t) == text
}

/// The text of a template.
pub fn template_text(t: Template) -> (s: &'static str)
    ensures
        s@ == template_view(t),
        is_library_template(s@),
{
    assert(template_view(t) == template_view(t));
    match t {
        Template::AstFile => AST_FILE_TEMPLATE,
        Template::ComponentFile => COMPONENT_FILE_TEMPLATE,
        Template::Component => COMPONENT_TEMPLATE,
        Template::TopComponent => TOP_COMPONENT_TEMPLATE,
        Template::Ast => AST_TEMPLATE,
        Template::Visitor => VISITOR_TEMPLATE,
    }
}

} // verus!
