//! The ids of the choice points of a rule: one per `Symbol` chain, named by
//! its path of alternative positions.
use vstd::prelude::*;
use crate::text::{self, ids_text, extended};
use crate::tree::{self, Node, NodeV, alternation_to_list};

verus! {

/// The choice ids found under a node, in visiting order.  `ids` is the path
/// to the node.  A `Symbol` chain contributes its own id (only when
/// `select` holds) and then the ids under each alternative, the `j`-th
/// alternative at path `ids + [j]`.  Repetitions, groups, optional and
/// repeated nodes are looked through; sequences are not entered (their ids
/// are never produced); leaves contribute nothing.
pub open spec fn ids_of(n: NodeV, ids: Seq<i32>, select: bool) -> Seq<Seq<char>>
    decreases tree::size(n), 1nat, 0nat,
{
    match n {
        NodeV::RegexExt(c, _) => ids_of(*c, ids, select),
        NodeV::Symbol(_, _, _) => (if select {
            seq![text::join_ids(ids)]
        } else {
            Seq::empty()
        }) + alternative_ids(n, tree::chain(n).len(), ids, select),
        NodeV::Group(c) => ids_of(*c, ids, select),
        NodeV::Optional(c) => ids_of(*c, ids, select),
        NodeV::Repeat(c) => ids_of(*c, ids, select),
        _ => Seq::empty(),
    }
}

/// The ids under the first `j` alternatives of the `Symbol` chain `n`.
pub open spec fn alternative_ids(n: NodeV, j: nat, ids: Seq<i32>, select: bool) -> Seq<Seq<char>>
    decreases tree::size(n), 0nat, j,
{
    if !(n is Symbol) || j == 0 || j > tree::chain(n).len() {
        Seq::empty()
    } else {
        proof {
            tree::lemma_chain_smaller(n);
        }
        alternative_ids(n, (j - 1) as nat, ids, select) + ids_of(
            tree::chain(n)[j - 1],
            ids.push((j - 1) as i32),
            select,
        )
    }
}

fn node_ids_helper(node: &Node, ids: &Vec<i32>, ret: &mut Vec<String>, select: bool)
    ensures
        text::strings_view(final(ret)@) == text::strings_view(old(ret)@) + ids_of(node@, ids@, select),
    decreases tree::size(node@),
{
    let id = ids_text(ids);
    match node {
        Node::String(_) => {},
        Node::RegexString(_) => {},
        Node::Terminal(_) => {},
        Node::Multiple(_) => {},
        Node::RegexExt(n, _) => {
            node_ids_helper(n, ids, ret, select);
        },
        Node::Symbol(_, _, _) => {
            let v = match alternation_to_list(node) {
                Ok(v) => v,
                Err(_) => {
                    return ;
                },
            };
            let ghost start = text::strings_view(ret@);
            if select {
                ret.push(id);
            }
            let ghost head = if select {
                seq![text::join_ids(ids@)]
            } else {
                Seq::<Seq<char>>::empty()
            };
            assert(text::strings_view(ret@) =~= text::strings_view(old(ret)@) + head);
            proof {
                tree::lemma_chain_smaller(node@);
            }
            for i in 0..v.len()
                invariant
                    node@ is Symbol,
                    tree::refs_view(v@) == tree::chain(node@),
                    v@.len() == tree::chain(node@).len(),
                    forall|k: int| 0 <= k < tree::chain(node@).len() ==> tree::size(#[trigger] tree::chain(node@)[k]) < tree::size(node@),
                    text::strings_view(ret@) == text::strings_view(old(ret)@) + head + alternative_ids(node@, i as nat, ids@, select),
            {
                let next = extended(ids, i as i32);
                let ghost before = text::strings_view(ret@);
                assert(v@[i as int]@ == tree::chain(node@)[i as int]);
                node_ids_helper(v[i], &next, ret, select);
                assert(text::strings_view(ret@) =~= before + ids_of(tree::chain(node@)[i as int], ids@.push(i as i32), select));
            }
        },
        Node::Group(n) => {
            node_ids_helper(n, ids, ret, select);
        },
        Node::Optional(n) => {
            node_ids_helper(n, ids, ret, select);
        },
        Node::Repeat(n) => {
            node_ids_helper(n, ids, ret, select);
        },
        Node::Unknown => {},
    }
}

/// The ids of the choice points of a rule's right-hand side, starting from
/// the path `[0]` (see [`ids_of`]).  With `select` false nothing is listed.
pub fn node_to_ids(node: &Node, select: bool) -> (res: Vec<String>)
    ensures
        text::strings_view(res@) == ids_of(node@, seq![0i32], select),
{
    let mut ret: Vec<String> = Vec::new();
    let mut start: Vec<i32> = Vec::new();
    start.push(0);
    node_ids_helper(node, &start, &mut ret, select);
    assert(text::strings_view(ret@) =~= ids_of(node@, seq![0i32], select));
    ret
}

} // verus!
