//! Short descriptions of a grammar node: its text, its TypeScript type, the
//! length of its longest sequence, and an `undefined` placeholder of that
//! length.
use vstd::prelude::*;
use crate::tree::{self, Node, NodeV};

verus! {

/// The text of a node as it labels a choice: strings as written,
/// terminals in angle brackets, sequences space-separated (with a leading
/// space), repetitions suffixed `[]`, alternatives joined by `|`, groups
/// parenthesised; optional and unknown nodes give nothing.
pub open spec fn node_text(n: NodeV) -> Seq<char>
    decreases n,
{
    match n {
        NodeV::String(s) => s,
        NodeV::RegexString(s) => s,
        NodeV::Terminal(s) => seq!['<'] + s + seq!['>'],
        NodeV::Multiple(nodes) => spaced_texts(nodes),
        NodeV::RegexExt(c, _) => node_text(*c) + seq!['[', ']'],
        NodeV::Symbol(l, _, r) => node_text(*l) + seq!['|'] + node_text(*r),
        NodeV::Group(c) => seq!['('] + node_text(*c) + seq![')'],
        NodeV::Optional(_) => Seq::empty(),
        NodeV::Repeat(c) => node_text(*c),
        NodeV::Unknown => Seq::empty(),
    }
}

/// Each node's text preceded by a space, all run together.
pub open spec fn spaced_texts(nodes: Seq<NodeV>) -> Seq<char>
    decreases nodes,
{
    if nodes.len() == 0 {
        Seq::empty()
    } else {
        spaced_texts(nodes.subrange(0, nodes.len() - 1)) + seq![' '] + node_text(nodes[nodes.len() - 1])
    }
}

/// Writes the text of a node (see [`node_text`]).
pub fn node_to_string(node: &Node) -> (res: String)
    ensures
        res@ == node_text(node@),
    decreases tree::size(node@),
{
    proof {
        reveal_strlit("<");
        reveal_strlit(">");
        reveal_strlit("[]");
        reveal_strlit("|");
        reveal_strlit("(");
        reveal_strlit(")");
    }
    match node {
        Node::String(s) => s.clone(),
        Node::RegexString(s) => s.clone(),
        Node::Terminal(s) => {
            let mut res = String::new();
            res.append("<");
            res.append(s.as_str());
            res.append(">");
            res
        },
        Node::Multiple(nodes) => {
            let mut acc = String::new();
            proof {
                tree::lemma_nodes_view(nodes@);
            }
            for i in 0..nodes.len()
                invariant
                    node@ == NodeV::Multiple(tree::nodes_view(nodes@)),
                    tree::nodes_view(nodes@).len() == nodes@.len(),
                    acc@ == spaced_texts(tree::nodes_view(nodes@).take(i as int)),
            {
                proof {
                    tree::lemma_multiple_child(nodes@, i as int);
                    reveal_strlit(" ");
                }
                let ghost before = acc@;
                let t = node_to_string(&nodes[i]);
                acc.append(" ");
                acc.append(t.as_str());
                let ghost taken = tree::nodes_view(nodes@).take(i + 1);
                assert(taken.subrange(0, taken.len() - 1) =~= tree::nodes_view(nodes@).take(i as int));
                assert(acc@ =~= before + seq![' '] + node_text(taken[taken.len() - 1]));
            }
            assert(tree::nodes_view(nodes@).take(nodes.len() as int) =~= tree::nodes_view(nodes@));
            acc
        },
        Node::RegexExt(c, _) => {
            let mut res = node_to_string(c);
            res.append("[]");
            res
        },
        Node::Symbol(l, _, r) => {
            let mut res = node_to_string(l);
            res.append("|");
            let t = node_to_string(r);
            res.append(t.as_str());
            res
        },
        Node::Group(c) => {
            let mut res = String::new();
            res.append("(");
            let t = node_to_string(c);
            res.append(t.as_str());
            res.append(")");
            res
        },
        Node::Optional(_) => String::new(),
        Node::Repeat(c) => node_to_string(c),
        Node::Unknown => String::new(),
    }
}


/// The TypeScript type of a node's value: `string` for strings and
/// patterns, `<name>_node` for a terminal, a tuple type for a sequence,
/// `[]` after a repetition, a union for a symbol, a parenthesised type for a
/// group; optional and unknown nodes give nothing.
pub open spec fn node_type(n: NodeV) -> Seq<char>
    decreases n,
{
    match n {
        NodeV::String(_) => "string"@,
        NodeV::RegexString(_) => "string"@,
        NodeV::Terminal(s) => s + "_node"@,
        NodeV::Multiple(nodes) => seq!['['] + comma_types(nodes) + seq![']'],
        NodeV::RegexExt(c, _) => node_type(*c) + seq!['[', ']'],
        NodeV::Symbol(l, _, r) => node_type(*l) + seq!['|'] + node_type(*r),
        NodeV::Group(c) => seq!['('] + node_type(*c) + seq![')'],
        NodeV::Optional(_) => Seq::empty(),
        NodeV::Repeat(c) => node_type(*c),
        NodeV::Unknown => Seq::empty(),
    }
}

/// The types of the nodes separated by commas.
pub open spec fn comma_types(nodes: Seq<NodeV>) -> Seq<char>
    decreases nodes,
{
    if nodes.len() == 0 {
        Seq::empty()
    } else if nodes.len() == 1 {
        node_type(nodes[0])
    } else {
        comma_types(nodes.subrange(0, nodes.len() - 1)) + seq![','] + node_type(nodes[nodes.len() - 1])
    }
}

/// Every sequence that [`node_type`] looks into has at least one item
/// (it does not look under an optional node).
pub open spec fn sequences_nonempty(n: NodeV) -> bool
    decreases n,
{
    match n {
        NodeV::Multiple(nodes) => nodes.len() > 0 && all_sequences_nonempty(nodes),
        NodeV::RegexExt(c, _) => sequences_nonempty(*c),
        NodeV::Symbol(l, _, r) => sequences_nonempty(*l) && sequences_nonempty(*r),
        NodeV::Group(c) => sequences_nonempty(*c),
        NodeV::Repeat(c) => sequences_nonempty(*c),
        _ => true,
    }
}

/// [`sequences_nonempty`] of every node.
pub open spec fn all_sequences_nonempty(nodes: Seq<NodeV>) -> bool
    decreases nodes,
{
    if nodes.len() == 0 {
        true
    } else {
        all_sequences_nonempty(nodes.subrange(0, nodes.len() - 1)) && sequences_nonempty(nodes[nodes.len() - 1])
    }
}

proof fn lemma_all_sequences_nonempty(nodes: Seq<NodeV>, i: int)
    requires
        all_sequences_nonempty(nodes),
        0 <= i < nodes.len(),
    ensures
        sequences_nonempty(nodes[i]),
    decreases nodes.len(),
{
    if i < nodes.len() - 1 {
        lemma_all_sequences_nonempty(nodes.subrange(0, nodes.len() - 1), i);
    }
}

/// Whether [`sequences_nonempty`] holds of a node.
pub fn sequences_nonempty_check(node: &Node) -> (b: bool)
    ensures
        b == sequences_nonempty(node@),
    decreases tree::size(node@),
{
    match node {
        Node::Multiple(nodes) => {
            proof {
                tree::lemma_nodes_view(nodes@);
            }
            if nodes.len() == 0 {
                return false;
            }
            for i in 0..nodes.len()
                invariant
                    node@ == NodeV::Multiple(tree::nodes_view(nodes@)),
                    tree::nodes_view(nodes@).len() == nodes@.len(),
                    all_sequences_nonempty(tree::nodes_view(nodes@).take(i as int)),
            {
                proof {
                    tree::lemma_multiple_child(nodes@, i as int);
                }
                let ghost taken = tree::nodes_view(nodes@).take(i + 1);
                assert(taken.subrange(0, taken.len() - 1) =~= tree::nodes_view(nodes@).take(i as int));
                if !sequences_nonempty_check(&nodes[i]) {
                    proof {
                        if all_sequences_nonempty(tree::nodes_view(nodes@)) {
                            lemma_all_sequences_nonempty(tree::nodes_view(nodes@), i as int);
                        }
                    }
                    return false;
                }
            }
            assert(tree::nodes_view(nodes@).take(nodes.len() as int) =~= tree::nodes_view(nodes@));
            true
        },
        Node::RegexExt(c, _) => sequences_nonempty_check(c),
        Node::Symbol(l, _, r) => sequences_nonempty_check(l) && sequences_nonempty_check(r),
        Node::Group(c) => sequences_nonempty_check(c),
        Node::Repeat(c) => sequences_nonempty_check(c),
        _ => true,
    }
}

/// Writes the TypeScript type of a node (see [`node_type`]).
fn node_to_type(node: &Node) -> (res: String)
    requires
        sequences_nonempty(node@),
    ensures
        res@ == node_type(node@),
    decreases tree::size(node@),
{
    proof {
        reveal_strlit("[");
        reveal_strlit("]");
        reveal_strlit("[]");
        reveal_strlit("|");
        reveal_strlit("(");
        reveal_strlit(")");
    }
    match node {
        Node::String(_) => String::from_str("string"),
        Node::RegexString(_) => String::from_str("string"),
        Node::Terminal(s) => {
            let mut res = s.clone();
            res.append("_node");
            res
        },
        Node::Multiple(nodes) => {
            proof {
                tree::lemma_nodes_view(nodes@);
                tree::lemma_multiple_child(nodes@, 0);
                lemma_all_sequences_nonempty(tree::nodes_view(nodes@), 0);
            }
            let mut res = String::new();
            res.append("[");
            let first = node_to_type(&nodes[0]);
            res.append(first.as_str());
            let ghost start = res@;
            assert(tree::nodes_view(nodes@).take(1) =~= seq![tree::nodes_view(nodes@)[0]]);
            assert(comma_types(tree::nodes_view(nodes@).take(1)) == node_type(tree::nodes_view(nodes@)[0]));
            for i in 1..nodes.len()
                invariant
                    node@ == NodeV::Multiple(tree::nodes_view(nodes@)),
                    sequences_nonempty(node@),
                    tree::nodes_view(nodes@).len() == nodes@.len(),
                    res@ == seq!['['] + comma_types(tree::nodes_view(nodes@).take(i as int)),
            {
                proof {
                    tree::lemma_multiple_child(nodes@, i as int);
                    lemma_all_sequences_nonempty(tree::nodes_view(nodes@), i as int);
                    reveal_strlit(",");
                }
                let ghost before = res@;
                let t = node_to_type(&nodes[i]);
                res.append(",");
                res.append(t.as_str());
                let ghost taken = tree::nodes_view(nodes@).take(i + 1);
                assert(taken.subrange(0, taken.len() - 1) =~= tree::nodes_view(nodes@).take(i as int));
                assert(res@ =~= before + seq![','] + node_type(taken[taken.len() - 1]));
            }
            assert(tree::nodes_view(nodes@).take(nodes.len() as int) =~= tree::nodes_view(nodes@));
            res.append("]");
            res
        },
        Node::RegexExt(c, _) => {
            let mut res = node_to_type(c);
            res.append("[]");
            res
        },
        Node::Symbol(l, _, r) => {
            let mut res = node_to_type(l);
            res.append("|");
            let t = node_to_type(r);
            res.append(t.as_str());
            res
        },
        Node::Group(c) => {
            let mut res = String::new();
            res.append("(");
            let t = node_to_type(c);
            res.append(t.as_str());
            res.append(")");
            res
        },
        Node::Optional(_) => String::new(),
        Node::Repeat(c) => node_to_type(c),
        Node::Unknown => String::new(),
    }
}

/// The type of an AST node's `child` field: the node's type, or an empty
/// array.
pub open spec fn type_text(n: NodeV) -> Seq<char> {
    node_type(n) + "|"@ + "[]"@
}

/// Writes the TypeScript type of a node's value, allowing the empty array
/// a fresh AST node starts with.
pub fn type_of(node: &Node) -> (res: String)
    requires
        sequences_nonempty(node@),
    ensures
        res@ == type_text(node@),
{
    let mut res = node_to_type(node);
    res.append("|");
    res.append("[]");
    res
}


/// The length of the longest sequence met on the way down from the node,
/// without entering a sequence: a sequence counts its own length only.
pub open spec fn longest(n: NodeV) -> nat
    decreases n,
{
    match n {
        NodeV::Multiple(nodes) => nodes.len(),
        NodeV::RegexExt(c, _) => longest(*c),
        NodeV::Symbol(l, _, r) => if longest(*l) >= longest(*r) {
            longest(*l)
        } else {
            longest(*r)
        },
        NodeV::Group(c) => longest(*c),
        NodeV::Optional(c) => longest(*c),
        NodeV::Repeat(c) => longest(*c),
        _ => 0,
    }
}

/// The longest suffix of `nodes` that starts at `start` or later, measured
/// as a sequence: the larger of the suffix's length and that of the suffix
/// one shorter.
fn longest_suffix(nodes: &Vec<Node>, start: usize) -> (res: usize)
    requires
        start <= nodes.len(),
    ensures
        res == nodes.len() - start,
    decreases nodes.len() - start,
{
    if nodes.len() - start == 0 {
        return 0;
    }
    let rest = longest_suffix(nodes, start + 1);
    let here = nodes.len() - start;
    if here >= rest {
        here
    } else {
        rest
    }
}

/// The length of the longest sequence met on the way down from the node
/// (see [`longest`]).
pub fn longest_multiple(node: &Node) -> (res: usize)
    ensures
        res == longest(node@),
    decreases tree::size(node@),
{
    match node {
        Node::String(_) => 0,
        Node::RegexString(_) => 0,
        Node::Terminal(_) => 0,
        Node::Multiple(nodes) => {
            proof {
                tree::lemma_nodes_view(nodes@);
            }
            longest_suffix(nodes, 0)
        },
        Node::RegexExt(c, _) => longest_multiple(c),
        Node::Symbol(l, _, r) => {
            let a = longest_multiple(l);
            let b = longest_multiple(r);
            if a >= b {
                a
            } else {
                b
            }
        },
        Node::Group(c) => longest_multiple(c),
        Node::Optional(c) => longest_multiple(c),
        Node::Repeat(c) => longest_multiple(c),
        Node::Unknown => 0,
    }
}

/// The text repeated `k` times.
pub open spec fn repeat_text(s: Seq<char>, k: nat) -> Seq<char>
    decreases k,
{
    if k == 0 {
        Seq::empty()
    } else {
        repeat_text(s, (k - 1) as nat) + s
    }
}

/// How many `undefined,` items precede the last one: the longest sequence
/// length as an `i32`, less one, and at least zero.
pub open spec fn undefined_prefix_count(n: NodeV) -> nat {
    let lm = longest(n) as i32;
    if lm - 1 >= 0 {
        (lm - 1) as nat
    } else {
        0
    }
}

/// The placeholder for a node's value: `undefined` when it holds no
/// sequence, else an array literal of `undefined`s as long as its longest
/// sequence.
pub open spec fn undefined_text(n: NodeV) -> Seq<char> {
    if longest(n) == 0 {
        "undefined"@
    } else {
        "["@ + repeat_text("undefined,"@, undefined_prefix_count(n)) + "undefined]"@
    }
}

/// Writes the placeholder value for a node (see [`undefined_text`]).
pub fn undefinded(node: &Node) -> (res: String)
    requires
        longest(node@) as i32 != i32::MIN,
    ensures
        res@ == undefined_text(node@),
{
    let lm = longest_multiple(node);
    if lm == 0 {
        return String::from_str("undefined");
    }
    let less = lm as i32 - 1;
    let count: usize = if less >= 0 {
        less as usize
    } else {
        0
    };
    let mut res = String::from_str("[");
    let mut k: usize = 0;
    while k < count
        invariant
            k <= count,
            res@ == "["@ + repeat_text("undefined,"@, k as nat),
        decreases count - k,
    {
        res.append("undefined,");
        k = k + 1;
    }
    res.append("undefined]");
    res
}

} // verus!
