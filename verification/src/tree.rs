//! The grammar tree: the executable types, their mathematical views, and the
//! structural measures the rest of the library reasons with.
use vstd::prelude::*;

verus! {

/// The repetition suffix of a grammar item (`*`, `+`, `?`).
#[derive(Clone, Copy, Debug, PartialEq, Eq, Structural)]
pub enum RegexExtKind {
    Repeat0,
    Repeat1,
    Optional,
}

/// The operator joining two grammar items (`,` or `|`).
#[derive(Clone, Copy, Debug, PartialEq, Eq, Structural)]
pub enum SymbolKind {
    Concatenation,
    Alternation,
}

/// One node of the right-hand side of a grammar rule.
#[derive(Debug)]
pub enum Node {
    String(String),
    RegexString(String),
    Terminal(String),
    Multiple(Vec<Node>),
    RegexExt(Box<Node>, RegexExtKind),
    Symbol(Box<Node>, SymbolKind, Box<Node>),
    Group(Box<Node>),
    Optional(Box<Node>),
    Repeat(Box<Node>),
    Unknown,
}

/// One grammar rule `lhs ::= rhs;`.
#[derive(Debug)]
pub struct Expression {
    pub lhs: String,
    pub rhs: Node,
}

/// A whole grammar: its rules in source order.
#[derive(Debug)]
pub struct Grammar {
    pub expressions: Vec<Expression>,
}

/// The mathematical value of a [`Node`]: text as character sequences.
pub enum NodeV {
    String(Seq<char>),
    RegexString(Seq<char>),
    Terminal(Seq<char>),
    Multiple(Seq<NodeV>),
    RegexExt(Box<NodeV>, RegexExtKind),
    Symbol(Box<NodeV>, SymbolKind, Box<NodeV>),
    Group(Box<NodeV>),
    Optional(Box<NodeV>),
    Repeat(Box<NodeV>),
    Unknown,
}

/// The mathematical value of an [`Expression`].
pub struct ExpressionV {
    pub lhs: Seq<char>,
    pub rhs: NodeV,
}

/// The mathematical value of a [`Grammar`].
pub struct GrammarV {
    pub expressions: Seq<ExpressionV>,
}

pub open spec fn node_view(n: Node) -> NodeV
    decreases n,
{
    match n {
        Node::String(s) => NodeV::String(s@),
        Node::RegexString(s) => NodeV::RegexString(s@),
        Node::Terminal(s) => NodeV::Terminal(s@),
        Node::Multiple(v) => NodeV::Multiple(nodes_view(v@)),
        Node::RegexExt(c, k) => NodeV::RegexExt(Box::new(node_view(*c)), k),
        Node::Symbol(l, k, r) => NodeV::Symbol(Box::new(node_view(*l)), k, Box::new(node_view(*r))),
        Node::Group(c) => NodeV::Group(Box::new(node_view(*c))),
        Node::Optional(c) => NodeV::Optional(Box::new(node_view(*c))),
        Node::Repeat(c) => NodeV::Repeat(Box::new(node_view(*c))),
        Node::Unknown => NodeV::Unknown,
    }
}

pub open spec fn nodes_view(s: Seq<Node>) -> Seq<NodeV>
    decreases s,
{
    if s.len() == 0 {
        Seq::empty()
    } else {
        nodes_view(s.subrange(0, s.len() - 1)).push(node_view(s[s.len() - 1]))
    }
}

impl View for Node {
    type V = NodeV;

    open spec fn view(&self) -> NodeV {
        node_view(*self)
    }
}

impl View for Expression {
    type V = ExpressionV;

    open spec fn view(&self) -> ExpressionV {
        ExpressionV { lhs: self.lhs@, rhs: self.rhs@ }
    }
}

impl View for Grammar {
    type V = GrammarV;

    open spec fn view(&self) -> GrammarV {
        GrammarV { expressions: self.expressions@.map_values(|e: Expression| e@) }
    }
}

/// The view of a sequence of nodes is taken node by node.
pub proof fn lemma_nodes_view(s: Seq<Node>)
    ensures
        #[trigger] nodes_view(s).len() == s.len(),
        forall|i: int| 0 <= i < s.len() ==> #[trigger] nodes_view(s)[i] == node_view(s[i]),
    decreases s.len(),
{
    if s.len() > 0 {
        lemma_nodes_view(s.subrange(0, s.len() - 1));
    }
}

/// The number of nodes in a tree.
pub open spec fn size(n: NodeV) -> nat
    decreases n,
{
    match n {
        NodeV::Multiple(s) => 1 + sizes(s),
        NodeV::RegexExt(c, _) => 1 + size(*c),
        NodeV::Symbol(l, _, r) => 1 + size(*l) + size(*r),
        NodeV::Group(c) => 1 + size(*c),
        NodeV::Optional(c) => 1 + size(*c),
        NodeV::Repeat(c) => 1 + size(*c),
        _ => 1,
    }
}

/// The number of nodes in a forest.
pub open spec fn sizes(s: Seq<NodeV>) -> nat
    decreases s,
{
    if s.len() == 0 {
        0
    } else {
        sizes(s.subrange(0, s.len() - 1)) + size(s[s.len() - 1])
    }
}

/// Every child of a `Multiple` node is smaller than the node.
pub proof fn lemma_sizes_member(s: Seq<NodeV>, i: int)
    requires
        0 <= i < s.len(),
    ensures
        size(s[i]) <= sizes(s),
    decreases s.len(),
{
    if i < s.len() - 1 {
        lemma_sizes_member(s.subrange(0, s.len() - 1), i);
    }
}

/// A child of a `Multiple` node is smaller than the node.
pub proof fn lemma_multiple_child(v: Seq<Node>, i: int)
    requires
        0 <= i < v.len(),
    ensures
        nodes_view(v).len() == v.len(),
        nodes_view(v)[i] == node_view(v[i]),
        size(node_view(v[i])) < size(NodeV::Multiple(nodes_view(v))),
{
    lemma_nodes_view(v);
    lemma_sizes_member(nodes_view(v), i);
}

/// The alternatives of a right-nested `Symbol` chain, in order: the left
/// operand of each link, then the final right operand.  Any other node is a
/// chain of one.
pub open spec fn chain(n: NodeV) -> Seq<NodeV>
    decreases n,
{
    match n {
        NodeV::Symbol(l, _, r) => seq![*l] + chain(*r),
        _ => seq![n],
    }
}

/// Every member of a chain is no larger than the chain's node, and strictly
/// smaller when the node is a `Symbol`.
pub proof fn lemma_chain_smaller(n: NodeV)
    ensures
        chain(n).len() >= 1,
        forall|i: int| 0 <= i < chain(n).len() ==> size(#[trigger] chain(n)[i]) <= size(n),
        n is Symbol ==> forall|i: int| 0 <= i < chain(n).len() ==> size(#[trigger] chain(n)[i]) < size(n),
        !(n is Symbol) ==> chain(n) == seq![n],
    decreases n,
{
    match n {
        NodeV::Symbol(l, _, r) => {
            lemma_chain_smaller(*r);
            assert forall|i: int| 0 <= i < chain(n).len() implies size(#[trigger] chain(n)[i]) < size(n) by {
                if i > 0 {
                    assert(chain(n)[i] == chain(*r)[i - 1]);
                }
            }
        },
        _ => {},
    }
}


/// The views of a vector of node references.
pub open spec fn refs_view(s: Seq<&Node>) -> Seq<NodeV> {
    s.map_values(|n: &Node| n@)
}

/// Flattens a `Symbol` chain into its list of alternatives: the left operand
/// of the node, then the left operand of each `Symbol` down the right spine,
/// then the last right operand.  Any node other than a `Symbol` is refused
/// with `Err(0)`.  The kind of the symbols plays no part.
pub fn alternation_to_list(node: &Node) -> (res: Result<Vec<&Node>, i32>)
    ensures
        match res {
            Ok(v) => node@ is Symbol && refs_view(v@) == chain(node@),
            Err(e) => !(node@ is Symbol) && e == 0,
        },
{
    match node {
        Node::Symbol(l, _, r) => {
            let mut ret: Vec<&Node> = Vec::new();
            ret.push(&**l);
            let mut looking: &Node = &**r;
            assert(refs_view(ret@) =~= seq![node_view(**l)]);
            loop
                invariant_except_break
                    refs_view(ret@) + chain(looking@) == chain(node@),
                ensures
                    refs_view(ret@) == chain(node@),
                decreases size(looking@),
            {
                match looking {
                    Node::Symbol(l2, _, r2) => {
                        let ghost prev = ret@;
                        ret.push(&**l2);
                        assert(refs_view(ret@) =~= refs_view(prev).push(node_view(**l2)));
                        assert(chain(looking@) =~= seq![node_view(**l2)] + chain(node_view(**r2)));
                        assert(refs_view(ret@) + chain(node_view(**r2)) =~= refs_view(prev) + chain(looking@));
                        looking = &**r2;
                    },
                    _ => {
                        let ghost prev = ret@;
                        ret.push(looking);
                        assert(chain(looking@) == seq![looking@]);
                        assert(refs_view(ret@) =~= refs_view(prev) + chain(looking@));
                        break ;
                    },
                }
            }
            Ok(ret)
        },
        _ => Err(0),
    }
}

} // verus!
