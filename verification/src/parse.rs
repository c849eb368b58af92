//! Reading a grammar from EBNF source with the `ebnf` crate.
use vstd::prelude::*;
use crate::tree::{Expression, Grammar, GrammarV, Node, RegexExtKind, SymbolKind};
use ebnf::Node as EbnfNode;
use ebnf::RegexExtKind as EbnfRegexExtKind;
use ebnf::SymbolKind as EbnfSymbolKind;

verus! {

/// `ebnf::Node`, carried opaque.
#[verifier::external_type_specification]
#[verifier::external_body]
pub struct ExEbnfNode(EbnfNode);

/// `ebnf::RegexExtKind`, carried opaque.
#[verifier::external_type_specification]
#[verifier::external_body]
pub struct ExEbnfRegexExtKind(EbnfRegexExtKind);

/// `ebnf::SymbolKind`, carried opaque.
#[verifier::external_type_specification]
#[verifier::external_body]
pub struct ExEbnfSymbolKind(EbnfSymbolKind);

/// `nom::Err`, the error of `ebnf::get_grammar`, carried opaque.
#[verifier::external_type_specification]
#[verifier::external_body]
#[verifier::reject_recursive_types(E)]
pub struct ExNomErr<E>(nom::Err<E>);

/// `nom::error::VerboseError`, carried opaque.
#[verifier::external_type_specification]
#[verifier::external_body]
#[verifier::reject_recursive_types(I)]
pub struct ExVerboseError<I>(nom::error::VerboseError<I>);

/// Why a grammar could not be read.
#[derive(Clone, Copy, Debug, PartialEq, Eq, Structural)]
pub enum GrammarError {
    /// The source is not a grammar `ebnf::get_grammar` accepts.
    Syntax,
    /// The source ends in a backslash.  No such text is a grammar (the
    /// last rule would end in `;`), and on some of them `ebnf` panics, so
    /// they are refused without calling it.
    TrailingBackslash,
}

/// The text's last character is a backslash.
pub open spec fn ends_in_backslash(source: Seq<char>) -> bool {
    source.len() > 0 && source.last() == '\\'
}

/// The grammar `ebnf::get_grammar` reads from a source text, as values, or
/// `None` where it refuses the text.
pub uninterp spec fn ebnf_grammar(source: Seq<char>) -> Option<GrammarV>;

/// Moves an `ebnf` node into a [`Node`], variant for variant; part of the
/// conversion in [`get_grammar`], with no contract of its own.
#[verifier::external_body]
fn node_from_ebnf(node: EbnfNode) -> Node {
    match node {
        EbnfNode::String(s) => Node::String(s),
        EbnfNode::RegexString(s) => Node::RegexString(s),
        EbnfNode::Terminal(s) => Node::Terminal(s),
        EbnfNode::Multiple(v) => Node::Multiple(v.into_iter().map(node_from_ebnf).collect()),
        EbnfNode::RegexExt(n, k) => Node::RegexExt(boxed_from_ebnf(n), regex_kind_from_ebnf(k)),
        EbnfNode::Symbol(l, k, r) => Node::Symbol(boxed_from_ebnf(l), symbol_kind_from_ebnf(k), boxed_from_ebnf(r)),
        EbnfNode::Group(n) => Node::Group(boxed_from_ebnf(n)),
        EbnfNode::Optional(n) => Node::Optional(boxed_from_ebnf(n)),
        EbnfNode::Repeat(n) => Node::Repeat(boxed_from_ebnf(n)),
        EbnfNode::Unknown => Node::Unknown,
    }
}

/// Moves a boxed `ebnf` node into a boxed [`Node`]; part of the conversion
/// in [`get_grammar`], with no contract of its own.
#[verifier::external_body]
fn boxed_from_ebnf(node: Box<EbnfNode>) -> Box<Node> {
    Box::new(node_from_ebnf(*node))
}

/// Maps an `ebnf` repetition kind to the kind of the same name; part of the
/// conversion in [`get_grammar`], with no contract of its own.
#[verifier::external_body]
fn regex_kind_from_ebnf(kind: EbnfRegexExtKind) -> RegexExtKind {
    match kind {
        EbnfRegexExtKind::Repeat0 => RegexExtKind::Repeat0,
        EbnfRegexExtKind::Repeat1 => RegexExtKind::Repeat1,
        EbnfRegexExtKind::Optional => RegexExtKind::Optional,
    }
}

/// Maps an `ebnf` symbol kind to the kind of the same name; part of the
/// conversion in [`get_grammar`], with no contract of its own.
#[verifier::external_body]
fn symbol_kind_from_ebnf(kind: EbnfSymbolKind) -> SymbolKind {
    match kind {
        EbnfSymbolKind::Concatenation => SymbolKind::Concatenation,
        EbnfSymbolKind::Alternation => SymbolKind::Alternation,
    }
}

/// Calls `ebnf::get_grammar` on the source and moves the grammar it returns
/// into a [`Grammar`] (rules in order, each node variant to the variant of
/// the same name).  Claimed: the result is a function of the source text
/// alone, named [`ebnf_grammar`]; `Ok` exactly when that name gives a
/// grammar, and then its value.  Nothing is claimed of which texts
/// `ebnf` accepts or of the error, nor of running out of stack on very
/// deeply nested sources.
///
/// `ebnf` panics on some sources that end in a backslash: it reads the text
/// of a bracketed group with `parse_hyperlinks::take_until_unbalanced`,
/// which steps over a backslash together with the character after it and,
/// where the backslash is the text's last character, slices past its end.
/// The text it scans is either a suffix of the source, which ends where the
/// source ends, or the inside of an enclosing group, which ends before an
/// unescaped closing bracket (so in an even run of backslashes, paired the
/// same way by every scan).  The `requires` therefore leaves out every
/// source that ends in a backslash.
#[verifier::external_body]
fn get_grammar<'a>(source: &'a str) -> (res: Result<Grammar, nom::Err<nom::error::VerboseError<&'a str>>>)
    requires
        !ends_in_backslash(source@),
    ensures
        match res {
            Ok(g) => ebnf_grammar(source@) == Some(g@),
            Err(_) => ebnf_grammar(source@) is None,
        },
{
    ebnf::get_grammar(source).map(|g| Grammar {
        expressions: g.expressions.into_iter().map(|e| Expression { lhs: e.lhs, rhs: node_from_ebnf(e.rhs) }).collect(),
    })
}

/// Reads a grammar from EBNF source (see [`ebnf_grammar`]); a source that
/// ends in a backslash is refused before `ebnf` sees it.
pub fn parse_grammar(source: &str) -> (res: Result<Grammar, GrammarError>)
    ensures
        match res {
            Ok(g) => !ends_in_backslash(source@) && ebnf_grammar(source@) == Some(g@),
            Err(GrammarError::TrailingBackslash) => ends_in_backslash(source@),
            Err(GrammarError::Syntax) => !ends_in_backslash(source@) && ebnf_grammar(source@) is None,
        },
{
    let n = source.unicode_len();
    if n > 0 && source.get_char(n - 1) == '\\' {
        return Err(GrammarError::TrailingBackslash);
    }
    match get_grammar(source) {
        Ok(g) => Ok(g),
        Err(_) => Err(GrammarError::Syntax),
    }
}

} // verus!
