//! Properties that hold of every grammar node, across the functions of the
//! library.
use vstd::prelude::*;
use crate::describe;
use crate::ids;
use crate::jsx;
use crate::render;
use crate::text;
use crate::tree::{self, ExpressionV, NodeV, RegexExtKind, SymbolKind};

verus! {

/// The parts joined by the separator.
pub open spec fn joined(parts: Seq<Seq<char>>, sep: Seq<char>) -> Seq<char>
    decreases parts.len(),
{
    if parts.len() == 0 {
        Seq::empty()
    } else if parts.len() == 1 {
        parts[0]
    } else {
        parts[0] + sep + joined(parts.subrange(1, parts.len() as int), sep)
    }
}

/// The texts of the nodes.
pub open spec fn texts(alts: Seq<NodeV>) -> Seq<Seq<char>> {
    alts.map_values(|n: NodeV| describe::node_text(n))
}

/// The types of the nodes.
pub open spec fn types(alts: Seq<NodeV>) -> Seq<Seq<char>> {
    alts.map_values(|n: NodeV| describe::node_type(n))
}

/// Without `select`, `node_to_ids` lists nothing, whatever the node.
pub proof fn law_ids_need_select(n: NodeV, path: Seq<i32>)
    ensures
        ids::ids_of(n, path, false) == Seq::<Seq<char>>::empty(),
    decreases tree::size(n), 1nat, 0nat,
{
    match n {
        NodeV::RegexExt(c, _) => law_ids_need_select(*c, path),
        NodeV::Symbol(_, _, _) => {
            lemma_alternative_ids_need_select(n, tree::chain(n).len(), path);
        },
        NodeV::Group(c) => law_ids_need_select(*c, path),
        NodeV::Optional(c) => law_ids_need_select(*c, path),
        NodeV::Repeat(c) => law_ids_need_select(*c, path),
        _ => {},
    }
}

proof fn lemma_alternative_ids_need_select(n: NodeV, j: nat, path: Seq<i32>)
    ensures
        ids::alternative_ids(n, j, path, false) == Seq::<Seq<char>>::empty(),
    decreases tree::size(n), 0nat, j,
{
    if n is Symbol && j > 0 && j <= tree::chain(n).len() {
        tree::lemma_chain_smaller(n);
        lemma_alternative_ids_need_select(n, (j - 1) as nat, path);
        law_ids_need_select(tree::chain(n)[j - 1], path.push((j - 1) as i32));
        assert(ids::alternative_ids(n, j, path, false) =~= Seq::<Seq<char>>::empty());
    }
}

proof fn lemma_joined_front(first: Seq<char>, rest: Seq<Seq<char>>, sep: Seq<char>)
    requires
        rest.len() > 0,
    ensures
        joined(seq![first] + rest, sep) == first + sep + joined(rest, sep),
{
    assert((seq![first] + rest).subrange(1, rest.len() + 1int) =~= rest);
}

/// The alternatives of a node as `alternation_to_list` lists them: a
/// `Symbol` has at least two, the first is its left operand, and the last
/// is never a `Symbol`; any other node stands alone.
pub proof fn law_alternatives_shape(n: NodeV)
    ensures
        n is Symbol ==> tree::chain(n).len() >= 2 && tree::chain(n)[0] == *n->Symbol_0,
        !(tree::chain(n).last() is Symbol),
        !(n is Symbol) ==> tree::chain(n) == seq![n],
    decreases n,
{
    match n {
        NodeV::Symbol(l, _, r) => {
            law_alternatives_shape(*r);
            tree::lemma_chain_smaller(*r);
            assert(tree::chain(n).last() == tree::chain(*r).last());
        },
        _ => {},
    }
}

/// The text of a choice is the texts of its alternatives joined by `|`:
/// `node_to_string` of a node equals the `node_to_string`s of the entries of
/// `alternation_to_list` joined by `|` (a node that is no `Symbol` being
/// its own single alternative).
pub proof fn law_text_joins_alternatives(n: NodeV)
    ensures
        describe::node_text(n) == joined(texts(tree::chain(n)), "|"@),
    decreases n,
{
    reveal_strlit("|");
    match n {
        NodeV::Symbol(l, _, r) => {
            law_text_joins_alternatives(*r);
            tree::lemma_chain_smaller(*r);
            assert(texts(tree::chain(n)) =~= seq![describe::node_text(*l)] + texts(tree::chain(*r)));
            lemma_joined_front(describe::node_text(*l), texts(tree::chain(*r)), "|"@);
        },
        _ => {
            assert(texts(tree::chain(n)) =~= seq![describe::node_text(n)]);
        },
    }
}

/// The type of a choice is the union of the types of its alternatives:
/// the TypeScript type of a node equals the types of the entries of
/// `alternation_to_list` joined by `|`.
pub proof fn law_type_joins_alternatives(n: NodeV)
    ensures
        describe::node_type(n) == joined(types(tree::chain(n)), "|"@),
    decreases n,
{
    reveal_strlit("|");
    match n {
        NodeV::Symbol(l, _, r) => {
            law_type_joins_alternatives(*r);
            tree::lemma_chain_smaller(*r);
            assert(types(tree::chain(n)) =~= seq![describe::node_type(*l)] + types(tree::chain(*r)));
            lemma_joined_front(describe::node_type(*l), types(tree::chain(*r)), "|"@);
        },
        _ => {
            assert(types(tree::chain(n)) =~= seq![describe::node_type(n)]);
        },
    }
}

/// The placeholder of a node holding a sequence is an array literal with
/// one `undefined` per item of its longest sequence (for lengths that fit
/// in an `i32`).
pub proof fn law_undefined_length(n: NodeV)
    requires
        0 < describe::longest(n) <= i32::MAX,
    ensures
        describe::undefined_text(n) == "["@ + describe::repeat_text(
            "undefined,"@,
            (describe::longest(n) - 1) as nat,
        ) + "undefined]"@,
{
    let lm = describe::longest(n);
    assert((lm as i32) as int == lm);
}

/// Capitalising a text whose first character is ASCII a second time
/// changes nothing.
pub proof fn law_upper_idempotent(s: Seq<char>)
    requires
        s.len() > 0,
        (s[0] as u32) < 128,
    ensures
        text::upper_text(text::upper_text(s)) == text::upper_text(s),
{
    let u = text::upper_text(s);
    if 'a' <= s[0] <= 'z' {
        let c = ((s[0] as u32) - 32) as char;
        assert(u[0] == c);
        assert('A' as u32 <= c as u32 <= 'Z' as u32);
        assert(u.subrange(1, u.len() as int) =~= s.subrange(1, s.len() as int));
        assert(text::upper_text(u) =~= u);
    } else {
        assert(u =~= s);
    }
}

/// The text of a sequence is the texts of its parts run together: the text
/// of the sequence `a + b` is that of `a` followed by that of `b`; an empty
/// sequence has no text, and a sequence of one node is a space and the
/// node's text.
pub proof fn law_sequence_text_concatenates(a: Seq<NodeV>, b: Seq<NodeV>, n: NodeV)
    ensures
        describe::node_text(NodeV::Multiple(a + b)) == describe::node_text(NodeV::Multiple(a))
            + describe::node_text(NodeV::Multiple(b)),
        describe::node_text(NodeV::Multiple(Seq::empty())) == Seq::<char>::empty(),
        describe::node_text(NodeV::Multiple(seq![n])) == seq![' '] + describe::node_text(n),
    decreases b.len(),
{
    assert(seq![n].subrange(0, 0) =~= Seq::<NodeV>::empty());
    assert(describe::spaced_texts(Seq::<NodeV>::empty()) =~= Seq::<char>::empty());
    assert(describe::spaced_texts(seq![n]) =~= describe::spaced_texts(Seq::<NodeV>::empty()) + seq![' ']
        + describe::node_text(n));
    if b.len() == 0 {
        assert(a + b =~= a);
        assert(b =~= Seq::<NodeV>::empty());
    } else {
        let b0 = b.subrange(0, b.len() - 1);
        law_sequence_text_concatenates(a, b0, n);
        assert((a + b).subrange(0, (a + b).len() - 1) =~= a + b0);
        assert((a + b)[(a + b).len() - 1] == b[b.len() - 1]);
        let last = describe::node_text(b[b.len() - 1]);
        assert(describe::spaced_texts(a + b) == describe::spaced_texts(a + b0) + seq![' '] + last);
        assert(describe::spaced_texts(b) == describe::spaced_texts(b0) + seq![' '] + last);
        assert(describe::spaced_texts(a + b) =~= describe::spaced_texts(a) + describe::spaced_texts(b));
    }
}

/// A rule's AST class depends on its right-hand side only through the
/// rhs's type: two rules with the same name and the same type get the same
/// class.
pub proof fn law_ast_depends_on_name_and_type(e1: ExpressionV, e2: ExpressionV)
    requires
        e1.lhs == e2.lhs,
        describe::type_text(e1.rhs) == describe::type_text(e2.rhs),
    ensures
        render::ast_class(e1) == render::ast_class(e2),
{
}

proof fn lemma_alternatives_jsx_same_chain(
    n1: NodeV,
    n2: NodeV,
    j: nat,
    mult: Seq<Seq<char>>,
    select: Seq<char>,
    path: Seq<i32>,
    lv: i32,
)
    requires
        n1 is Symbol,
        n2 is Symbol,
        tree::chain(n1) == tree::chain(n2),
    ensures
        jsx::alternatives_jsx(n1, j, mult, select, path, lv) == jsx::alternatives_jsx(n2, j, mult, select, path, lv),
    decreases j,
{
    if j > 1 {
        lemma_alternatives_jsx_same_chain(n1, n2, (j - 1) as nat, mult, select, path, lv);
    }
}

/// The JSX of a rule does not depend on whether its symbols concatenate or
/// alternate (both become a choice), nor on whether a repetition is `?` or
/// `*` (both have minimum count zero).
pub proof fn law_jsx_ignores_kinds(
    l: NodeV,
    r: NodeV,
    c: NodeV,
    mult: Seq<Seq<char>>,
    last_select: Seq<char>,
    path: Seq<i32>,
    lv: i32,
    name: Seq<char>,
)
    ensures
        jsx::jsx(NodeV::Symbol(Box::new(l), SymbolKind::Concatenation, Box::new(r)), mult, last_select, path, lv)
            == jsx::jsx(NodeV::Symbol(Box::new(l), SymbolKind::Alternation, Box::new(r)), mult, last_select, path, lv),
        jsx::jsx(NodeV::RegexExt(Box::new(c), RegexExtKind::Optional), mult, last_select, path, lv)
            == jsx::jsx(NodeV::RegexExt(Box::new(c), RegexExtKind::Repeat0), mult, last_select, path, lv),
        jsx::component_jsx(NodeV::Symbol(Box::new(l), SymbolKind::Concatenation, Box::new(r)), name)
            == jsx::component_jsx(NodeV::Symbol(Box::new(l), SymbolKind::Alternation, Box::new(r)), name),
        jsx::component_jsx(NodeV::RegexExt(Box::new(c), RegexExtKind::Optional), name)
            == jsx::component_jsx(NodeV::RegexExt(Box::new(c), RegexExtKind::Repeat0), name),
{
    let n1 = NodeV::Symbol(Box::new(l), SymbolKind::Concatenation, Box::new(r));
    let n2 = NodeV::Symbol(Box::new(l), SymbolKind::Alternation, Box::new(r));
    assert(tree::chain(n1) == tree::chain(n2));
    let len = tree::chain(n1).len();
    lemma_alternatives_jsx_same_chain(n1, n2, len, mult, text::join_ids(path), path, lv);
    lemma_alternatives_jsx_same_chain(n1, n2, len, Seq::empty(), text::join_ids(seq![0i32]), seq![0i32], 0);
}

/// `w` occurs in `t` as a contiguous run of characters.
pub open spec fn occurs_in(w: Seq<char>, t: Seq<char>) -> bool {
    exists|i: int| 0 <= i && i + w.len() <= t.len() && #[trigger] t.subrange(i, i + w.len()) == w
}

/// The text by which the JSX of a choice names its state: `],select`, the
/// id, `,setSelect`, the id.
pub open spec fn select_marker(id: Seq<char>) -> Seq<char> {
    "],select"@ + id + ",setSelect"@ + id
}

proof fn lemma_occurs_in_context(w: Seq<char>, a: Seq<char>, t: Seq<char>, b: Seq<char>)
    requires
        occurs_in(w, t),
    ensures
        occurs_in(w, a + t + b),
{
    let i = choose|i: int| 0 <= i && i + w.len() <= t.len() && #[trigger] t.subrange(i, i + w.len()) == w;
    let j: int = i + a.len();
    assert((a + t + b).subrange(j, j + w.len()) =~= t.subrange(i, i + w.len()));
}

proof fn lemma_occurs_itself(w: Seq<char>)
    ensures
        occurs_in(w, w),
{
    let i: int = 0;
    assert(w.subrange(i, i + w.len()) =~= w);
}

/// Every id `ids_of` lists for a node occurs as a choice's marker in the
/// node's JSX, when both start from the same path.
proof fn lemma_ids_in_jsx(n: NodeV, mult: Seq<Seq<char>>, last_select: Seq<char>, path: Seq<i32>, lv: i32)
    requires
        jsx::jsx_fits(n, lv),
    ensures
        forall|k: int|
            0 <= k < ids::ids_of(n, path, true).len() ==> occurs_in(
                select_marker(#[trigger] ids::ids_of(n, path, true)[k]),
                jsx::jsx(n, mult, last_select, path, lv),
            ),
    decreases tree::size(n), 1nat, 0nat,
{
    let ids_here = ids::ids_of(n, path, true);
    let text_here = jsx::jsx(n, mult, last_select, path, lv);
    match n {
        NodeV::RegexExt(c, kind) => {
            let d = text::decimal(lv as int);
            let mult2 = mult.push("n"@ + d);
            let lv2 = (lv + 1) as i32;
            lemma_ids_in_jsx(*c, mult2, last_select, path, lv2);
            let inner = jsx::jsx(*c, mult2, last_select, path, lv2);
            let a = "<Variatic {...new VariaticInput((n"@ + d + ":number)=>{\nreturn <div>\n"@;
            let b = "\n</div>\n},"@ + text::decimal(jsx::repeat_minimum(kind)) + ")}\n/>\n"@;
            assert(text_here =~= a + inner + b);
            assert(ids_here == ids::ids_of(*c, path, true));
            assert forall|k: int| 0 <= k < ids::ids_of(n, path, true).len() implies occurs_in(
                select_marker(#[trigger] ids::ids_of(n, path, true)[k]),
                jsx::jsx(n, mult, last_select, path, lv),
            ) by {
                assert(ids_here[k] == ids::ids_of(*c, path, true)[k]);
                lemma_occurs_in_context(select_marker(ids_here[k]), a, inner, b);
            }
        },
        NodeV::Symbol(_, _, _) => {
            let v = tree::chain(n);
            let id = text::join_ids(path);
            tree::lemma_chain_smaller(n);
            let first = jsx::jsx(v[0], mult, id, path.push(0), lv);
            let alts = jsx::alternatives_jsx(n, v.len(), mult, id, path, lv);
            let head = "<Select\n{...\nnew SelectInput([\""@ + describe::node_text(v[0]) + "\""@
                + jsx::quoted_names(v.subrange(1, v.len() as int)) + "],[\n"@;
            let tail = jsx::select_ending(last_select) + ")\n}\n/>"@;
            let body = first + "\n"@ + alts;
            reveal_strlit("],");
            reveal_strlit("select");
            reveal_strlit("],select");
            assert("],"@ + "select"@ =~= "],select"@);
            assert(text_here =~= (head + body) + select_marker(id) + tail);
            lemma_alt_ids_in_jsx(n, v.len(), mult, id, path, lv);
            let rest = ids::alternative_ids(n, v.len(), path, true);
            assert(ids_here =~= seq![id] + rest);
            assert forall|k: int| 0 <= k < ids_here.len() implies occurs_in(
                select_marker(#[trigger] ids_here[k]),
                text_here,
            ) by {
                if k == 0 {
                    lemma_occurs_itself(select_marker(id));
                    lemma_occurs_in_context(select_marker(id), head + body, select_marker(id), tail);
                } else {
                    assert(ids_here[k] == rest[k - 1]);
                    lemma_occurs_in_context(select_marker(rest[k - 1]), head, body, select_marker(id) + tail);
                    assert(head + body + (select_marker(id) + tail) =~= text_here);
                }
            }
        },
        NodeV::Group(c) => {
            lemma_ids_in_jsx(*c, mult, last_select, path, lv);
            assert(ids_here == ids::ids_of(*c, path, true));
            assert(text_here == jsx::jsx(*c, mult, last_select, path, lv));
        },
        NodeV::Optional(c) => {
            lemma_ids_in_jsx(*c, mult, last_select, path, lv);
            assert(ids_here == ids::ids_of(*c, path, true));
            assert(text_here == jsx::jsx(*c, mult, last_select, path, lv));
        },
        NodeV::Repeat(c) => {
            lemma_ids_in_jsx(*c, mult, last_select, path, lv);
            assert(ids_here == ids::ids_of(*c, path, true));
            assert(text_here == jsx::jsx(*c, mult, last_select, path, lv));
        },
        _ => {
            assert(ids_here.len() == 0);
        },
    }
}

/// The ids under the first `j` alternatives of a chain occur in the JSX of
/// its first alternative followed by that of alternatives `1 .. j`.
proof fn lemma_alt_ids_in_jsx(n: NodeV, j: nat, mult: Seq<Seq<char>>, select: Seq<char>, path: Seq<i32>, lv: i32)
    requires
        n is Symbol,
        jsx::jsx_fits(n, lv),
        1 <= j <= tree::chain(n).len(),
    ensures
        forall|k: int|
            0 <= k < ids::alternative_ids(n, j, path, true).len() ==> occurs_in(
                select_marker(#[trigger] ids::alternative_ids(n, j, path, true)[k]),
                jsx::jsx(tree::chain(n)[0], mult, select, path.push(0), lv) + "\n"@
                    + jsx::alternatives_jsx(n, j, mult, select, path, lv),
            ),
    decreases tree::size(n), 0nat, j,
{
    let v = tree::chain(n);
    tree::lemma_chain_smaller(n);
    jsx::lemma_alternatives_fit(n, v.len(), lv, (j - 1) as int);
    let first = jsx::jsx(v[0], mult, select, path.push(0), lv);
    let target = first + "\n"@ + jsx::alternatives_jsx(n, j, mult, select, path, lv);
    let all = ids::alternative_ids(n, j, path, true);
    let before = ids::alternative_ids(n, (j - 1) as nat, path, true);
    let p = path.push((j - 1) as i32);
    let last = ids::ids_of(v[j - 1], p, true);
    assert(all == before + last);
    if j == 1 {
        assert(before =~= Seq::<Seq<char>>::empty());
        assert(p == path.push(0));
        lemma_ids_in_jsx(v[0], mult, select, p, lv);
        assert(jsx::alternatives_jsx(n, j, mult, select, path, lv) =~= Seq::<char>::empty());
        assert forall|k: int| 0 <= k < all.len() implies occurs_in(select_marker(#[trigger] all[k]), target) by {
            assert(all[k] == last[k]);
            lemma_occurs_in_context(select_marker(last[k]), Seq::empty(), first, "\n"@);
            assert(Seq::<char>::empty() + first + "\n"@ =~= target);
        }
    } else {
        lemma_alt_ids_in_jsx(n, (j - 1) as nat, mult, select, path, lv);
        let prev = first + "\n"@ + jsx::alternatives_jsx(n, (j - 1) as nat, mult, select, path, lv);
        assert(((j - 2) as i32 + 1) as i32 == (j - 1) as i32);
        lemma_ids_in_jsx(v[j - 1], mult, select, p, lv);
        let piece = jsx::jsx(v[j - 1], mult, select, p, lv);
        assert(target =~= prev + (","@ + piece) + "\n"@);
        assert forall|k: int| 0 <= k < all.len() implies occurs_in(select_marker(#[trigger] all[k]), target) by {
            if k < before.len() {
                assert(all[k] == before[k]);
                lemma_occurs_in_context(select_marker(before[k]), Seq::empty(), prev, (","@ + piece) + "\n"@);
                assert(Seq::<char>::empty() + prev + ((","@ + piece) + "\n"@) =~= target);
            } else {
                assert(all[k] == last[k - before.len()]);
                lemma_occurs_in_context(select_marker(last[k - before.len()]), prev + ","@, piece, "\n"@);
                assert(prev + ","@ + piece + "\n"@ =~= target);
            }
        }
    }
}

/// Every id that `node_to_ids` lists (with `select`) names a choice in the
/// rule's JSX: `],select<id>,setSelect<id>` occurs in what `node_to_jsx`
/// writes for the same node, whatever the rule's name.
pub proof fn law_listed_ids_name_choices_in_jsx(n: NodeV, name: Seq<char>, k: int)
    requires
        jsx::jsx_fits(n, 0),
        0 <= k < ids::ids_of(n, seq![0i32], true).len(),
    ensures
        occurs_in(select_marker(ids::ids_of(n, seq![0i32], true)[k]), jsx::component_jsx(n, name)),
{
    lemma_ids_in_jsx(n, Seq::empty(), Seq::empty(), seq![0i32], 0);
    let inner = jsx::jsx(n, Seq::empty(), Seq::empty(), seq![0i32], 0);
    let a = "<div className=\""@ + name + "\">\n"@;
    lemma_occurs_in_context(select_marker(ids::ids_of(n, seq![0i32], true)[k]), a, inner, "\n</div>"@);
    assert(jsx::component_jsx(n, name) =~= a + inner + "\n</div>"@);
}

/// A repetition is described through its item whatever its suffix (`*`,
/// `+` or `?`): its label is the item's label followed by `[]`, its type is
/// an array of the item's type, and its longest sequence is the item's.
/// Groups, optional and repeated nodes are likewise looked through by
/// `longest_multiple`.
pub proof fn law_repetition_descriptions(c: NodeV, k: RegexExtKind)
    ensures
        describe::node_text(NodeV::RegexExt(Box::new(c), k)) == describe::node_text(c) + "[]"@,
        describe::node_type(NodeV::RegexExt(Box::new(c), k)) == describe::node_type(c) + "[]"@,
        describe::type_text(NodeV::RegexExt(Box::new(c), k)) == describe::node_type(c) + "[]|[]"@,
        describe::longest(NodeV::RegexExt(Box::new(c), k)) == describe::longest(c),
        describe::longest(NodeV::Group(Box::new(c))) == describe::longest(c),
        describe::longest(NodeV::Optional(Box::new(c))) == describe::longest(c),
        describe::longest(NodeV::Repeat(Box::new(c))) == describe::longest(c),
{
    reveal_strlit("[]");
    reveal_strlit("|");
    reveal_strlit("[]|[]");
    assert(describe::node_text(NodeV::RegexExt(Box::new(c), k)) =~= describe::node_text(c) + "[]"@);
    assert(describe::node_type(NodeV::RegexExt(Box::new(c), k)) =~= describe::node_type(c) + "[]"@);
    assert(describe::type_text(NodeV::RegexExt(Box::new(c), k)) =~= describe::node_type(c) + "[]|[]"@);
}

proof fn lemma_alternatives_fit_from_each(n: NodeV, j: nat, lv: i32)
    requires
        n is Symbol,
        j <= tree::chain(n).len(),
        forall|i: int| 0 <= i < j ==> jsx::jsx_fits(#[trigger] tree::chain(n)[i], lv),
    ensures
        jsx::alternatives_fit(n, j, lv),
    decreases j,
{
    if j > 0 {
        lemma_alternatives_fit_from_each(n, (j - 1) as nat, lv);
    }
}

/// A choice fits (its JSX can be written) as soon as each of its
/// alternatives fits and it has at most 2^31 of them: the only limit on the
/// number of alternatives is the `i32` numbering of their ids.
pub proof fn law_choice_fits_when_alternatives_fit(n: NodeV, lv: i32)
    requires
        n is Symbol,
        tree::chain(n).len() <= 0x8000_0000,
        forall|i: int| 0 <= i < tree::chain(n).len() ==> jsx::jsx_fits(#[trigger] tree::chain(n)[i], lv),
    ensures
        jsx::jsx_fits(n, lv),
{
    lemma_alternatives_fit_from_each(n, tree::chain(n).len(), lv);
}

/// The node is a string, a pattern or a terminal.
pub open spec fn is_leaf(n: NodeV) -> bool {
    n is String || n is RegexString || n is Terminal
}

proof fn lemma_leaf_choice_sequences_nonempty(n: NodeV)
    requires
        forall|i: int| 0 <= i < tree::chain(n).len() ==> is_leaf(#[trigger] tree::chain(n)[i]),
    ensures
        describe::sequences_nonempty(n),
    decreases n,
{
    tree::lemma_chain_smaller(n);
    match n {
        NodeV::Symbol(l, _, r) => {
            tree::lemma_chain_smaller(*r);
            assert(tree::chain(n)[0] == *l);
            assert forall|i: int| 0 <= i < tree::chain(*r).len() implies is_leaf(#[trigger] tree::chain(*r)[i]) by {
                assert(tree::chain(n)[i + 1] == tree::chain(*r)[i]);
            }
            lemma_leaf_choice_sequences_nonempty(*r);
            assert(is_leaf(tree::chain(n)[0]));
            assert(describe::sequences_nonempty(*l));
        },
        _ => {
            assert(tree::chain(n)[0] == n);
            assert(is_leaf(tree::chain(n)[0]));
        },
    }
}

/// A rule that is a choice among strings, patterns and terminals can always
/// be rendered, however many alternatives it has (up to 2^31).
pub proof fn law_choice_of_leaves_supported(e: ExpressionV)
    requires
        e.rhs is Symbol,
        tree::chain(e.rhs).len() <= 0x8000_0000,
        forall|i: int| 0 <= i < tree::chain(e.rhs).len() ==> is_leaf(#[trigger] tree::chain(e.rhs)[i]),
    ensures
        render::supported(e),
{
    lemma_leaf_choice_sequences_nonempty(e.rhs);
    assert forall|i: int| 0 <= i < tree::chain(e.rhs).len() implies jsx::jsx_fits(#[trigger] tree::chain(e.rhs)[i], 0) by {
        assert(is_leaf(tree::chain(e.rhs)[i]));
    }
    law_choice_fits_when_alternatives_fit(e.rhs, 0);
}

/// Each alternative's label in double quotes.
pub open spec fn quoted_labels(alts: Seq<NodeV>) -> Seq<Seq<char>> {
    alts.map_values(|a: NodeV| "\""@ + describe::node_text(a) + "\""@)
}

/// The start of a choice's JSX: a `Select` whose `SelectInput` lists the
/// quoted label of every alternative, separated by `, `, then opens the
/// list of the alternatives' JSX.
pub open spec fn select_header(alts: Seq<NodeV>) -> Seq<char> {
    "<Select\n{...\nnew SelectInput(["@ + joined(quoted_labels(alts), ", "@) + "],[\n"@
}

proof fn lemma_joined_back(parts: Seq<Seq<char>>, x: Seq<char>, sep: Seq<char>)
    requires
        parts.len() > 0,
    ensures
        joined(parts.push(x), sep) == joined(parts, sep) + sep + x,
    decreases parts.len(),
{
    let whole = parts.push(x);
    if parts.len() == 1 {
        assert(whole.subrange(1, whole.len() as int) =~= seq![x]);
        assert(joined(seq![x], sep) == x);
    } else {
        let rest = parts.subrange(1, parts.len() as int);
        lemma_joined_back(rest, x, sep);
        assert(whole.subrange(1, whole.len() as int) =~= rest.push(x));
        assert(joined(whole, sep) =~= joined(parts, sep) + sep + x);
    }
}

proof fn lemma_labels_joined(alts: Seq<NodeV>)
    requires
        alts.len() > 0,
    ensures
        "\""@ + describe::node_text(alts[0]) + "\""@ + jsx::quoted_names(alts.subrange(1, alts.len() as int))
            == joined(quoted_labels(alts), ", "@),
    decreases alts.len(),
{
    reveal_strlit(", \"");
    reveal_strlit(", ");
    reveal_strlit("\"");
    let q = quoted_labels(alts);
    if alts.len() == 1 {
        assert(alts.subrange(1, 1) =~= Seq::<NodeV>::empty());
        assert(q =~= seq![q[0]]);
        assert("\""@ + describe::node_text(alts[0]) + "\""@ + jsx::quoted_names(Seq::<NodeV>::empty())
            =~= q[0]);
    } else {
        let front = alts.drop_last();
        lemma_labels_joined(front);
        let x = alts.last();
        assert(alts.subrange(1, alts.len() as int).drop_last() =~= front.subrange(1, front.len() as int));
        assert(alts.subrange(1, alts.len() as int).last() == x);
        assert(q =~= quoted_labels(front).push("\""@ + describe::node_text(x) + "\""@));
        lemma_joined_back(quoted_labels(front), "\""@ + describe::node_text(x) + "\""@, ", "@);
        assert(", \""@ =~= ", "@ + "\""@);
        assert("\""@ + describe::node_text(alts[0]) + "\""@ + jsx::quoted_names(alts.subrange(1, alts.len() as int))
            =~= joined(q, ", "@));
    }
}

/// The JSX of a choice starts with a `Select` that lists one quoted label
/// per alternative of `alternation_to_list`, in order: the labels are the
/// `node_to_string`s of the alternatives, quoted and separated by `, `.
pub proof fn law_select_lists_every_label(
    n: NodeV,
    mult: Seq<Seq<char>>,
    last_select: Seq<char>,
    path: Seq<i32>,
    lv: i32,
)
    requires
        n is Symbol,
    ensures
        jsx::jsx(n, mult, last_select, path, lv).take(select_header(tree::chain(n)).len() as int)
            == select_header(tree::chain(n)),
        quoted_labels(tree::chain(n)).len() == tree::chain(n).len(),
{
    let v = tree::chain(n);
    tree::lemma_chain_smaller(n);
    lemma_labels_joined(v);
    reveal_strlit("<Select\n{...\nnew SelectInput([\"");
    reveal_strlit("<Select\n{...\nnew SelectInput([");
    reveal_strlit("\"");
    let labels = "\""@ + describe::node_text(v[0]) + "\""@ + jsx::quoted_names(v.subrange(1, v.len() as int));
    let header = select_header(v);
    let text = jsx::jsx(n, mult, last_select, path, lv);
    let id = text::join_ids(path);
    let rest = jsx::jsx(v[0], mult, id, path.push(0), lv) + "\n"@ + jsx::alternatives_jsx(
        n,
        v.len(),
        mult,
        id,
        path,
        lv,
    ) + "],"@ + "select"@ + id + ",setSelect"@ + id + jsx::select_ending(last_select) + ")\n}\n/>"@;
    assert("<Select\n{...\nnew SelectInput([\""@ =~= "<Select\n{...\nnew SelectInput(["@ + "\""@);
    assert(header == "<Select\n{...\nnew SelectInput(["@ + labels + "],[\n"@);
    assert(text =~= header + rest);
    assert(text.take(header.len() as int) =~= header);
}

} // verus!
