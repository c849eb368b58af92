//! The JSX body of a rule's editor component.
use vstd::prelude::*;
use crate::describe::{self, node_to_string};
use crate::text::{self, append_decimal, append_nat_decimal, as_strs, extended, extended_strings, ids_text, list_to_str, upper};
use crate::tree::{self, Node, NodeV, RegexExtKind, alternation_to_list};

verus! {

/// Where JSX generation stays within `i32`: every repetition nesting can
/// count one more variadic level, and no alternative chain is so long that
/// numbering its alternatives overflows.
pub open spec fn jsx_fits(n: NodeV, lv: i32) -> bool
    decreases tree::size(n), 1nat, 0nat,
{
    match n {
        NodeV::Multiple(nodes) => sequence_fits(n, nodes.len(), lv),
        NodeV::RegexExt(c, _) => lv < i32::MAX && jsx_fits(*c, (lv + 1) as i32),
        NodeV::Symbol(_, _, _) => tree::chain(n).len() <= 0x8000_0000 && alternatives_fit(
            n,
            tree::chain(n).len(),
            lv,
        ),
        NodeV::Group(c) => jsx_fits(*c, lv),
        NodeV::Optional(c) => jsx_fits(*c, lv),
        NodeV::Repeat(c) => jsx_fits(*c, lv),
        _ => true,
    }
}

/// [`jsx_fits`] of the first `j` items of the sequence `n`.
pub open spec fn sequence_fits(n: NodeV, j: nat, lv: i32) -> bool
    decreases tree::size(n), 0nat, j,
{
    if !(n is Multiple) || j == 0 || j > n->Multiple_0.len() {
        true
    } else {
        proof {
            tree::lemma_sizes_member(n->Multiple_0, j - 1);
        }
        sequence_fits(n, (j - 1) as nat, lv) && jsx_fits(n->Multiple_0[j - 1], lv)
    }
}

/// [`jsx_fits`] of the first `j` alternatives of the chain `n`.
pub open spec fn alternatives_fit(n: NodeV, j: nat, lv: i32) -> bool
    decreases tree::size(n), 0nat, j,
{
    if !(n is Symbol) || j == 0 || j > tree::chain(n).len() {
        true
    } else {
        proof {
            tree::lemma_chain_smaller(n);
        }
        alternatives_fit(n, (j - 1) as nat, lv) && jsx_fits(tree::chain(n)[j - 1], lv)
    }
}

/// The names of the alternatives, each as `, "name"`.
pub open spec fn quoted_names(alts: Seq<NodeV>) -> Seq<char>
    decreases alts.len(),
{
    if alts.len() == 0 {
        Seq::empty()
    } else {
        quoted_names(alts.drop_last()) + ", \""@ + describe::node_text(alts.last()) + "\""@
    }
}

/// The extra argument naming the enclosing choice's setter, if any.
pub open spec fn select_ending(last_select: Seq<char>) -> Seq<char> {
    if last_select.len() != 0 {
        ",setSelect"@ + last_select
    } else {
        Seq::empty()
    }
}

/// The minimum count of a repetition: one for `+`, else zero.
pub open spec fn repeat_minimum(kind: RegexExtKind) -> int {
    if kind == RegexExtKind::Repeat1 {
        1
    } else {
        0
    }
}

/// The JSX for a node.  `mult` is the index path into the AST value,
/// `last_select` the id of the enclosing choice (empty at the top), `ids`
/// the path to the node, `lv` the number of enclosing repetitions.
pub open spec fn jsx(n: NodeV, mult: Seq<Seq<char>>, last_select: Seq<char>, ids: Seq<i32>, lv: i32) -> Seq<char>
    decreases tree::size(n), 1nat, 0nat,
{
    match n {
        NodeV::String(s) => "<Default {...new ComponentInput(expr,"@ + text::list_text(mult) + ",'"@ + s
            + "')}/>"@,
        NodeV::RegexString(_) => "<TextInput {...new ComponentInput(expr,"@ + text::list_text(mult)
            + ")}/>"@,
        NodeV::Terminal(s) => "<"@ + text::upper_text(s) + " {...new ComponentInput(expr,"@
            + text::list_text(mult) + ")}/>"@,
        NodeV::Multiple(nodes) => "<div className=\"multiple\">\n"@ + sequence_jsx(
            n,
            nodes.len(),
            mult,
            last_select,
            ids,
            lv,
        ) + "\n</div>"@,
        NodeV::RegexExt(c, kind) => "<Variatic {...new VariaticInput((n"@ + text::decimal(lv as int)
            + ":number)=>{\nreturn <div>\n"@ + jsx(
            *c,
            mult.push("n"@ + text::decimal(lv as int)),
            last_select,
            ids,
            (lv + 1) as i32,
        ) + "\n</div>\n},"@ + text::decimal(repeat_minimum(kind)) + ")}\n/>\n"@,
        NodeV::Symbol(_, _, _) => {
            let v = tree::chain(n);
            let id = text::join_ids(ids);
            proof {
                tree::lemma_chain_smaller(n);
            }
            "<Select\n{...\nnew SelectInput([\""@ + describe::node_text(v[0]) + "\""@ + quoted_names(
                v.subrange(1, v.len() as int),
            ) + "],[\n"@ + jsx(v[0], mult, id, ids.push(0), lv) + "\n"@ + alternatives_jsx(
                n,
                v.len(),
                mult,
                id,
                ids,
                lv,
            ) + "],"@ + "select"@ + id + ",setSelect"@ + id + select_ending(last_select)
                + ")\n}\n/>"@
        },
        NodeV::Group(c) => jsx(*c, mult, last_select, ids, lv),
        NodeV::Optional(c) => jsx(*c, mult, last_select, ids, lv),
        NodeV::Repeat(c) => jsx(*c, mult, last_select, ids, lv),
        NodeV::Unknown => Seq::empty(),
    }
}

/// The JSX of the first `j` items of the sequence `n`, each preceded by a
/// newline; item `i` extends the index path by `i` and the node path by `i`.
pub open spec fn sequence_jsx(
    n: NodeV,
    j: nat,
    mult: Seq<Seq<char>>,
    last_select: Seq<char>,
    ids: Seq<i32>,
    lv: i32,
) -> Seq<char>
    decreases tree::size(n), 0nat, j,
{
    if !(n is Multiple) || j == 0 || j > n->Multiple_0.len() {
        Seq::empty()
    } else {
        proof {
            tree::lemma_sizes_member(n->Multiple_0, j - 1);
        }
        sequence_jsx(n, (j - 1) as nat, mult, last_select, ids, lv) + "\n"@ + jsx(
            n->Multiple_0[j - 1],
            mult.push(text::nat_decimal((j - 1) as nat)),
            last_select,
            ids.push((j - 1) as i32),
            lv,
        )
    }
}

/// The JSX of alternatives `1 .. j` of the chain `n` (the first is written
/// apart), each preceded by a comma and followed by a newline; alternative
/// `k` extends the node path by `k`.
pub open spec fn alternatives_jsx(
    n: NodeV,
    j: nat,
    mult: Seq<Seq<char>>,
    select: Seq<char>,
    ids: Seq<i32>,
    lv: i32,
) -> Seq<char>
    decreases tree::size(n), 0nat, j,
{
    if !(n is Symbol) || j <= 1 || j > tree::chain(n).len() {
        Seq::empty()
    } else {
        proof {
            tree::lemma_chain_smaller(n);
        }
        alternatives_jsx(n, (j - 1) as nat, mult, select, ids, lv) + ","@ + jsx(
            tree::chain(n)[j - 1],
            mult,
            select,
            ids.push(((j - 2) as i32 + 1) as i32),
            lv,
        ) + "\n"@
    }
}


/// Each of the first `j` alternatives of a fitting chain fits.
pub proof fn lemma_alternatives_fit(n: NodeV, j: nat, lv: i32, k: int)
    requires
        n is Symbol,
        alternatives_fit(n, j, lv),
        j <= tree::chain(n).len(),
        0 <= k < j,
    ensures
        jsx_fits(tree::chain(n)[k], lv),
    decreases j,
{
    if k < j - 1 {
        lemma_alternatives_fit(n, (j - 1) as nat, lv, k);
    }
}

proof fn lemma_sequence_fits(n: NodeV, j: nat, lv: i32, k: int)
    requires
        n is Multiple,
        sequence_fits(n, j, lv),
        j <= n->Multiple_0.len(),
        0 <= k < j,
    ensures
        jsx_fits(n->Multiple_0[k], lv),
    decreases j,
{
    if k < j - 1 {
        lemma_sequence_fits(n, (j - 1) as nat, lv, k);
    }
}

/// Whether [`jsx_fits`] holds of a node at repetition depth `lv`.
pub fn jsx_fits_check(node: &Node, lv: i32) -> (b: bool)
    ensures
        b == jsx_fits(node@, lv),
    decreases tree::size(node@),
{
    match node {
        Node::Multiple(nodes) => {
            proof {
                tree::lemma_nodes_view(nodes@);
            }
            for i in 0..nodes.len()
                invariant
                    node@ == NodeV::Multiple(tree::nodes_view(nodes@)),
                    tree::nodes_view(nodes@).len() == nodes@.len(),
                    sequence_fits(node@, i as nat, lv),
            {
                proof {
                    tree::lemma_multiple_child(nodes@, i as int);
                }
                if !jsx_fits_check(&nodes[i], lv) {
                    proof {
                        if sequence_fits(node@, nodes@.len(), lv) {
                            lemma_sequence_fits(node@, nodes@.len(), lv, i as int);
                        }
                    }
                    return false;
                }
            }
            true
        },
        Node::RegexExt(c, _) => lv < i32::MAX && jsx_fits_check(c, lv + 1),
        Node::Symbol(_, _, _) => {
            let v = match alternation_to_list(node) {
                Ok(v) => v,
                Err(_) => {
                    return true;
                },
            };
            let ghost alts = tree::chain(node@);
            proof {
                tree::lemma_chain_smaller(node@);
            }
            if v.len() > 0x8000_0000 {
                return false;
            }
            for i in 0..v.len()
                invariant
                    node@ is Symbol,
                    alts == tree::chain(node@),
                    tree::refs_view(v@) == alts,
                    v@.len() == alts.len(),
                    forall|k: int| 0 <= k < alts.len() ==> tree::size(#[trigger] alts[k]) < tree::size(node@),
                    alternatives_fit(node@, i as nat, lv),
            {
                assert(v@[i as int]@ == alts[i as int]);
                if !jsx_fits_check(v[i], lv) {
                    proof {
                        if alternatives_fit(node@, alts.len(), lv) {
                            lemma_alternatives_fit(node@, alts.len(), lv, i as int);
                        }
                    }
                    return false;
                }
            }
            true
        },
        Node::Group(c) => jsx_fits_check(c, lv),
        Node::Optional(c) => jsx_fits_check(c, lv),
        Node::Repeat(c) => jsx_fits_check(c, lv),
        _ => true,
    }
}

/// The text of the index path, as `list_to_str` writes it.
fn index_list(mult_index: &Vec<String>) -> (res: String)
    ensures
        res@ == text::list_text(text::strings_view(mult_index@)),
{
    let refs = as_strs(mult_index);
    list_to_str(&refs)
}

fn node_to_jsx_helper(
    node: &Node,
    mult_index: &Vec<String>,
    last_select: &str,
    ids: &Vec<i32>,
    last_variatic: i32,
) -> (res: String)
    requires
        jsx_fits(node@, last_variatic),
    ensures
        res@ == jsx(node@, text::strings_view(mult_index@), last_select@, ids@, last_variatic),
    decreases tree::size(node@),
{
    let id = ids_text(ids);
    let ghost mult = text::strings_view(mult_index@);
    match node {
        Node::String(s) => {
            let list = index_list(mult_index);
            let mut res = String::from_str("<Default {...new ComponentInput(expr,");
            res.append(list.as_str());
            res.append(",'");
            res.append(s.as_str());
            res.append("')}/>");
            res
        },
        Node::RegexString(_) => {
            let list = index_list(mult_index);
            let mut res = String::from_str("<TextInput {...new ComponentInput(expr,");
            res.append(list.as_str());
            res.append(")}/>");
            res
        },
        Node::Terminal(s) => {
            let list = index_list(mult_index);
            let up = upper(s.as_str());
            let mut res = String::from_str("<");
            res.append(up.as_str());
            res.append(" {...new ComponentInput(expr,");
            res.append(list.as_str());
            res.append(")}/>");
            res
        },
        Node::Multiple(nodes) => {
            proof {
                tree::lemma_nodes_view(nodes@);
            }
            let mut acc = String::new();
            for i in 0..nodes.len()
                invariant
                    node@ == NodeV::Multiple(tree::nodes_view(nodes@)),
                    tree::nodes_view(nodes@).len() == nodes@.len(),
                    jsx_fits(node@, last_variatic),
                    mult == text::strings_view(mult_index@),
                    acc@ == sequence_jsx(node@, i as nat, mult, last_select@, ids@, last_variatic),
            {
                proof {
                    tree::lemma_multiple_child(nodes@, i as int);
                    lemma_sequence_fits(node@, nodes@.len(), last_variatic, i as int);
                }
                let mut num = String::new();
                append_nat_decimal(&mut num, i as u64);
                let m = extended_strings(mult_index, num);
                let next = extended(ids, i as i32);
                let t = node_to_jsx_helper(&nodes[i], &m, last_select, &next, last_variatic);
                let ghost before = acc@;
                acc.append("\n");
                acc.append(t.as_str());
                assert(acc@ =~= before + "\n"@ + t@);
            }
            let mut res = String::from_str("<div className=\"multiple\">\n");
            res.append(acc.as_str());
            res.append("\n</div>");
            res
        },
        Node::RegexExt(n, kind) => {
            let min: i32 = match kind {
                RegexExtKind::Repeat1 => 1,
                _ => 0,
            };
            let mut last = String::from_str("n");
            append_decimal(&mut last, last_variatic as i64);
            let adding = extended_strings(mult_index, last);
            let inner = node_to_jsx_helper(n, &adding, last_select, ids, last_variatic + 1);
            let mut res = String::from_str("<Variatic {...new VariaticInput((n");
            append_decimal(&mut res, last_variatic as i64);
            res.append(":number)=>{\nreturn <div>\n");
            res.append(inner.as_str());
            res.append("\n</div>\n},");
            append_decimal(&mut res, min as i64);
            res.append(")}\n/>\n");
            res
        },
        Node::Symbol(_, _, _) => {
            let v = match alternation_to_list(node) {
                Ok(v) => v,
                Err(_) => {
                    return String::new();
                },
            };
            let ghost alts = tree::chain(node@);
            proof {
                tree::lemma_chain_smaller(node@);
            }
            assert(v@[0]@ == alts[0]);
            let mut ending = String::new();
            if !last_select.is_empty() {
                ending.append(",setSelect");
                ending.append(last_select);
            }
            let mut names = String::new();
            for i in 1..v.len()
                invariant
                    tree::refs_view(v@) == alts,
                    v@.len() == alts.len(),
                    names@ == quoted_names(alts.subrange(1, i as int)),
            {
                let ghost before = names@;
                let t = node_to_string(v[i]);
                names.append(", \"");
                names.append(t.as_str());
                names.append("\"");
                assert(alts.subrange(1, i + 1).drop_last() =~= alts.subrange(1, i as int));
                assert(v@[i as int]@ == alts[i as int]);
                assert(names@ =~= before + ", \""@ + describe::node_text(alts[i as int]) + "\""@);
            }
            let first_name = node_to_string(v[0]);
            proof {
                lemma_alternatives_fit(node@, alts.len(), last_variatic, 0);
            }
            let first_ids = extended(ids, 0);
            let first = node_to_jsx_helper(v[0], mult_index, id.as_str(), &first_ids, last_variatic);
            let mut rest = String::new();
            for i in 1..v.len()
                invariant
                    node@ is Symbol,
                    alts == tree::chain(node@),
                    tree::refs_view(v@) == alts,
                    v@.len() == alts.len(),
                    alts.len() <= 0x8000_0000,
                    alternatives_fit(node@, alts.len(), last_variatic),
                    forall|k: int| 0 <= k < alts.len() ==> tree::size(#[trigger] alts[k]) < tree::size(node@),
                    mult == text::strings_view(mult_index@),
                    rest@ == alternatives_jsx(node@, i as nat, mult, id@, ids@, last_variatic),
            {
                proof {
                    lemma_alternatives_fit(node@, alts.len(), last_variatic, i as int);
                }
                assert(v@[i as int]@ == alts[i as int]);
                let next = extended(ids, (i - 1) as i32 + 1);
                let t = node_to_jsx_helper(v[i], mult_index, id.as_str(), &next, last_variatic);
                let ghost before = rest@;
                rest.append(",");
                rest.append(t.as_str());
                rest.append("\n");
                assert(rest@ =~= before + ","@ + t@ + "\n"@);
            }
            let mut res = String::from_str("<Select\n{...\nnew SelectInput([\"");
            res.append(first_name.as_str());
            res.append("\"");
            res.append(names.as_str());
            res.append("],[\n");
            res.append(first.as_str());
            res.append("\n");
            res.append(rest.as_str());
            res.append("],");
            res.append("select");
            res.append(id.as_str());
            res.append(",setSelect");
            res.append(id.as_str());
            res.append(ending.as_str());
            res.append(")\n}\n/>");
            assert(alts.subrange(1, alts.len() as int) =~= alts.subrange(1, v.len() as int));
            res
        },
        Node::Group(n) => node_to_jsx_helper(n, mult_index, last_select, ids, last_variatic),
        Node::Optional(n) => node_to_jsx_helper(n, mult_index, last_select, ids, last_variatic),
        Node::Repeat(n) => node_to_jsx_helper(n, mult_index, last_select, ids, last_variatic),
        Node::Unknown => String::new(),
    }
}

/// The JSX text of a rule's component: the node's JSX (see [`jsx`]) inside a
/// `div` whose class is the rule's name.
pub open spec fn component_jsx(n: NodeV, name: Seq<char>) -> Seq<char> {
    "<div className=\""@ + name + "\">\n"@ + jsx(n, Seq::empty(), Seq::empty(), seq![0i32], 0) + "\n</div>"@
}

/// Writes the JSX body of a rule's component.
pub fn node_to_jsx(node: &Node, name: &str) -> (res: String)
    requires
        jsx_fits(node@, 0),
    ensures
        res@ == component_jsx(node@, name@),
{
    let mult_index: Vec<String> = Vec::new();
    let mut ids: Vec<i32> = Vec::new();
    ids.push(0);
    assert(text::strings_view(mult_index@) =~= Seq::empty());
    assert(ids@ =~= seq![0i32]);
    proof {
        reveal_strlit("");
    }
    assert(""@ =~= Seq::<char>::empty());
    let inner = node_to_jsx_helper(node, &mult_index, "", &ids, 0);
    let mut res = String::from_str("<div className=\"");
    res.append(name);
    res.append("\">\n");
    res.append(inner.as_str());
    res.append("\n</div>");
    res
}

} // verus!
