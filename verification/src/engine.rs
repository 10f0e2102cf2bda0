//! The parsing engine and the compiled grammars, as far as this library
//! relies on them. Nothing in this module is proved: each contract restates
//! what the source of the engine, or of a grammar, shows.
//!
//! The engine's values are opaque. What the library needs to know of one is
//! given a name here: the grammar that a language table, a parser or a tree
//! holds, and the tree that a parsed tree or a node handle stands for.
//!
//! The tree that the engine builds from a text is named by a relation,
//! `parses_to`, and not by a function. A grammar's
//! scanner may consult the process locale while it reads the text, so the
//! tree is not a function of the grammar and the text alone.

use crate::grammar::Grammar;
use crate::tree::SyntaxTree;
use vstd::prelude::*;

verus! {

/// `tree_sitter::Language`: the compiled table of a grammar.
#[verifier::external_type_specification]
#[verifier::external_body]
pub struct ExLanguage(tree_sitter::Language);

/// `tree_sitter::LanguageError`: the engine's refusal of a table.
#[verifier::external_type_specification]
#[verifier::external_body]
pub struct ExLanguageError(tree_sitter::LanguageError);

/// `tree_sitter::Parser`: the engine's working state for one parse at a time.
#[verifier::external_type_specification]
#[verifier::external_body]
pub struct ExParser(tree_sitter::Parser);

/// `tree_sitter::Tree`: a parsed tree, owned by the engine.
#[verifier::external_type_specification]
#[verifier::external_body]
pub struct ExTree(tree_sitter::Tree);

/// `tree_sitter::Node`: a handle on one node of a parsed tree.
#[verifier::external_type_specification]
#[verifier::external_body]
pub struct ExNode<'a>(tree_sitter::Node<'a>);

/// The oldest grammar format that the engine accepts, which it calls
/// `MIN_COMPATIBLE_LANGUAGE_VERSION`.
pub const OLDEST_ABI: usize = 13;

/// The newest grammar format that the engine accepts, which it calls
/// `LANGUAGE_VERSION`.
pub const NEWEST_ABI: usize = 14;

/// Whether the engine accepts a grammar table of the given format.
pub open spec fn abi_accepted(abi: nat) -> bool {
    OLDEST_ABI <= abi <= NEWEST_ABI
}

/// The grammar whose table a language value is; `None` for a table that
/// belongs to none of the registry's grammars.
pub uninterp spec fn language_grammar(language: tree_sitter::Language) -> Option<Grammar>;

/// The format number of a grammar's table: what the grammar's generated
/// source defines as `LANGUAGE_VERSION`, and `tree_sitter::Language::version`
/// reports.
pub open spec fn grammar_abi(grammar: Grammar) -> nat {
    match grammar {
        Grammar::Kotlin | Grammar::Csharp => 13,
        _ => 14,
    }
}

/// The engine accepts the table of every grammar of the registry.
pub proof fn lemma_every_table_is_accepted(grammar: Grammar)
    ensures
        abi_accepted(grammar_abi(grammar)),
{
}

/// The grammar whose table was last assigned to a parser, if any was.
pub uninterp spec fn parser_grammar(parser: tree_sitter::Parser) -> Option<Grammar>;

/// Whether a parser is without a timeout and without a cancellation flag,
/// the two settings on which the engine gives a parse up.
pub uninterp spec fn parser_unlimited(parser: tree_sitter::Parser) -> bool;

/// The grammar whose table a tree was built with, which
/// `tree_sitter::Tree::language` reports.
pub uninterp spec fn tree_grammar(tree: tree_sitter::Tree) -> Option<Grammar>;

/// Whether `tree` is a tree that `tree_sitter::Parser::parse` hands out for
/// `text` on a parser that holds the table of `grammar`. A relation: one
/// text may have more than one such tree, and nothing is claimed of which
/// trees are related to a text beyond those that the engine returned.
pub uninterp spec fn parses_to(grammar: Grammar, text: Seq<char>, tree: SyntaxTree) -> bool;

/// The root of a parsed tree, with everything below it.
pub uninterp spec fn tree_root(tree: tree_sitter::Tree) -> SyntaxTree;

/// The node that a handle of the engine stands for, with everything below it.
pub uninterp spec fn node_tree(node: tree_sitter::Node) -> SyntaxTree;

/// Calls `tree_sitter_typescript::language_typescript`, which hands out the
/// TypeScript table.
#[verifier::external_body]
pub(crate) fn typescript_table() -> (language: tree_sitter::Language)
    ensures
        language_grammar(language) == Some(Grammar::Typescript),
{
    tree_sitter_typescript::language_typescript()
}

/// Calls `tree_sitter_javascript::language`, which hands out the JavaScript
/// table.
#[verifier::external_body]
pub(crate) fn javascript_table() -> (language: tree_sitter::Language)
    ensures
        language_grammar(language) == Some(Grammar::Javascript),
{
    tree_sitter_javascript::language()
}

/// Calls `tree_sitter_python::language`, which hands out the Python table.
#[verifier::external_body]
pub(crate) fn python_table() -> (language: tree_sitter::Language)
    ensures
        language_grammar(language) == Some(Grammar::Python),
{
    tree_sitter_python::language()
}

/// Calls `tree_sitter_kotlin::language`, which hands out the Kotlin table.
#[verifier::external_body]
pub(crate) fn kotlin_table() -> (language: tree_sitter::Language)
    ensures
        language_grammar(language) == Some(Grammar::Kotlin),
{
    tree_sitter_kotlin::language()
}

/// Calls `tree_sitter_c::language`, which hands out the C table.
#[verifier::external_body]
pub(crate) fn c_table() -> (language: tree_sitter::Language)
    ensures
        language_grammar(language) == Some(Grammar::C),
{
    tree_sitter_c::language()
}

/// Calls `tree_sitter_cpp::language`, which hands out the C++ table.
#[verifier::external_body]
pub(crate) fn cpp_table() -> (language: tree_sitter::Language)
    ensures
        language_grammar(language) == Some(Grammar::Cpp),
{
    tree_sitter_cpp::language()
}

/// Calls `tree_sitter_rust::language`, which hands out the Rust table.
#[verifier::external_body]
pub(crate) fn rust_table() -> (language: tree_sitter::Language)
    ensures
        language_grammar(language) == Some(Grammar::Rust),
{
    tree_sitter_rust::language()
}

/// Calls `tree_sitter_php::language`, which hands out the PHP table.
#[verifier::external_body]
pub(crate) fn php_table() -> (language: tree_sitter::Language)
    ensures
        language_grammar(language) == Some(Grammar::Php),
{
    tree_sitter_php::language()
}

/// Calls `tree_sitter_java::language`, which hands out the Java table.
#[verifier::external_body]
pub(crate) fn java_table() -> (language: tree_sitter::Language)
    ensures
        language_grammar(language) == Some(Grammar::Java),
{
    tree_sitter_java::language()
}

/// Calls `tree_sitter_c_sharp::language`, which hands out the C# table.
#[verifier::external_body]
pub(crate) fn csharp_table() -> (language: tree_sitter::Language)
    ensures
        language_grammar(language) == Some(Grammar::Csharp),
{
    tree_sitter_c_sharp::language()
}

/// Calls `tree_sitter_dart::language`, which hands out the Dart table.
#[verifier::external_body]
pub(crate) fn dart_table() -> (language: tree_sitter::Language)
    ensures
        language_grammar(language) == Some(Grammar::Dart),
{
    tree_sitter_dart::language()
}

/// Calls `tree_sitter_ruby::language`, which hands out the Ruby table.
#[verifier::external_body]
pub(crate) fn ruby_table() -> (language: tree_sitter::Language)
    ensures
        language_grammar(language) == Some(Grammar::Ruby),
{
    tree_sitter_ruby::language()
}

/// Calls `tree_sitter_go::language`, which hands out the Go table.
#[verifier::external_body]
pub(crate) fn go_table() -> (language: tree_sitter::Language)
    ensures
        language_grammar(language) == Some(Grammar::Go),
{
    tree_sitter_go::language()
}

/// Calls `tree_sitter::Parser::new`. The engine makes a parser with the
/// timeout at zero and without a cancellation flag.
#[verifier::external_body]
pub(crate) fn new_parser() -> (parser: tree_sitter::Parser)
    ensures
        parser_unlimited(parser),
{
    tree_sitter::Parser::new()
}

/// Calls `tree_sitter::Parser::set_language`. The engine compares the
/// table's format number with the two bounds above: inside them it assigns
/// the table and returns `Ok`, outside them it returns `Err`. Either way it
/// touches neither the timeout nor the cancellation flag.
#[verifier::external_body]
pub(crate) fn assign_language(
    parser: &mut tree_sitter::Parser,
    language: tree_sitter::Language,
) -> (outcome: Result<(), tree_sitter::LanguageError>)
    ensures
        language_grammar(language) matches Some(grammar) ==> (outcome is Ok <==> abi_accepted(
            grammar_abi(grammar),
        )),
        outcome is Ok ==> parser_grammar(*final(parser)) == language_grammar(language),
        parser_unlimited(*final(parser)) == parser_unlimited(*old(parser)),
{
    parser.set_language(language)
}

/// Calls `tree_sitter::Parser::parse` on the whole text, without an earlier
/// tree. The engine returns no tree only where the parser holds no table,
/// the timeout ran out or the cancellation flag was raised; the tree it
/// returns keeps the parser's table. Of what the tree holds the contract
/// claims only that it is one that the engine hands out for this grammar and
/// this text.
#[verifier::external_body]
pub(crate) fn parse_text(
    parser: &mut tree_sitter::Parser,
    text: &str,
) -> (tree: Option<tree_sitter::Tree>)
    requires
        parser_grammar(*old(parser)) is Some,
        parser_unlimited(*old(parser)),
    ensures
        tree is Some,
        tree_grammar(tree->0) == parser_grammar(*old(parser)),
        parses_to(parser_grammar(*old(parser))->0, text@, tree_root(tree->0)),
{
    parser.parse(text, None)
}

/// Calls `tree_sitter::Tree::root_node`: the handle of the tree's root.
#[verifier::external_body]
pub(crate) fn root_of<'t>(tree: &'t tree_sitter::Tree) -> (node: tree_sitter::Node<'t>)
    ensures
        node_tree(node) == tree_root(*tree),
{
    tree.root_node()
}

/// Calls `tree_sitter::Node::kind`: the name of the node's grammar symbol.
#[verifier::external_body]
pub(crate) fn kind_of(node: &tree_sitter::Node) -> (kind: &'static str)
    ensures
        kind@ == node_tree(*node).kind,
{
    node.kind()
}

/// Calls `tree_sitter::Node::start_byte`: the byte offset at which the node
/// starts.
#[verifier::external_body]
pub(crate) fn start_of(node: &tree_sitter::Node) -> (start: usize)
    ensures
        start == node_tree(*node).start,
{
    node.start_byte()
}

/// Calls `tree_sitter::Node::end_byte`: the byte offset at which the node
/// ends.
#[verifier::external_body]
pub(crate) fn end_of(node: &tree_sitter::Node) -> (end: usize)
    ensures
        end == node_tree(*node).end,
{
    node.end_byte()
}

/// Calls `tree_sitter::Node::is_error`: whether the node's symbol is the
/// error symbol.
#[verifier::external_body]
pub(crate) fn is_error_node(node: &tree_sitter::Node) -> (flag: bool)
    ensures
        flag == node_tree(*node).is_error,
{
    node.is_error()
}

/// Calls `tree_sitter::Node::has_error`: the engine's own summary of the
/// errors in and below the node.
#[verifier::external_body]
pub(crate) fn holds_error(node: &tree_sitter::Node) -> (flag: bool)
    ensures
        flag == node_tree(*node).has_error,
{
    node.has_error()
}

/// Calls `tree_sitter::Node::child_count`: the number of the node's children.
#[verifier::external_body]
pub(crate) fn child_count(node: &tree_sitter::Node) -> (count: usize)
    ensures
        count == node_tree(*node).children.len(),
{
    node.child_count()
}

/// Calls `tree_sitter::Node::child` with an index below the number of
/// children. The contract claims that the engine then hands out a handle,
/// and that it is the handle of the child at that place.
#[verifier::external_body]
pub(crate) fn child_at<'t>(
    node: &tree_sitter::Node<'t>,
    index: usize,
) -> (child: Option<tree_sitter::Node<'t>>)
    requires
        index < node_tree(*node).children.len(),
    ensures
        child is Some,
        node_tree(child->0) == node_tree(*node).children[index as int],
{
    node.child(index)
}

} // verus!
