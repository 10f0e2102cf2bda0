//! The front end: from a source text and a language identifier to a
//! `Program`.

use crate::engine::{
    abi_accepted, assign_language, c_table, cpp_table, csharp_table, dart_table, go_table,
    grammar_abi, holds_error, java_table, javascript_table, kotlin_table, language_grammar,
    new_parser, parse_text, parses_to, php_table, python_table, root_of, ruby_table,
    rust_table, tree_grammar, tree_root, typescript_table,
};
use crate::grammar::{
    default_grammar, grammar_id, is_supported, lemma_unknown_resolves_as_default, resolve,
    resolve_spec, Grammar,
};
use crate::node::{
    has_flagged_node, leaves_bare, spans_inside, values_exact, Program, ProgramModel,
};
use crate::normalize::{
    lemma_flagged_node_sets_summary, normalize, reconstruct, same_shape, spans_in_text,
};
use crate::tree::{spans_fit, summary_covers, SyntaxTree};
use vstd::prelude::*;
use vstd::string::StringExecFns;

verus! {

/// Why a parse gave no `Program`.
#[derive(Clone, Copy, Debug, PartialEq, Eq, Structural)]
pub enum ParseError {
    /// The engine did not accept the grammar's table.
    GrammarLoad(Grammar),
    /// A node of the tree does not span whole characters of the text.
    SpanOutsideText,
}

/// The diagnostic of an error. That of a grammar that did not load names the
/// grammar's identifier.
pub open spec fn error_message(error: ParseError) -> Seq<char> {
    match error {
        ParseError::GrammarLoad(grammar) => "Error loading grammar: "@ + grammar_id(grammar),
        ParseError::SpanOutsideText => "A node does not span whole characters of the source"@,
    }
}

impl ParseError {
    /// The diagnostic of this error.
    pub fn message(&self) -> (text: String)
        ensures
            text@ == error_message(*self),
    {
        match self {
            ParseError::GrammarLoad(grammar) => {
                let mut text = "Error loading grammar: ".to_owned();
                text.append(grammar.id());
                text
            },
            ParseError::SpanOutsideText => {
                "A node does not span whole characters of the source".to_owned()
            },
        }
    }
}

/// The program that a concrete tree over a text stands for: the engine's own
/// error summary of the root beside the normalized root.
pub open spec fn program_outcome(tree: SyntaxTree, text: Seq<char>) -> Result<
    ProgramModel,
    ParseError,
> {
    if spans_fit(tree, text) {
        Ok(ProgramModel { has_error: tree.has_error, root: normalize(tree, text) })
    } else {
        Err(ParseError::SpanOutsideText)
    }
}

/// Whether `program` is the program of `tree` over `text`.
pub open spec fn is_program_of(program: ProgramModel, tree: SyntaxTree, text: Seq<char>) -> bool {
    program_outcome(tree, text) == Ok::<ProgramModel, ParseError>(program)
}

/// Whether `outcome` is a result of parsing `text` under `language_id`: the
/// program of a tree that the engine built from `text` with the grammar that
/// the identifier resolves to, or the error in its place; and the load error
/// where the engine does not accept that grammar's table.
pub open spec fn is_parse_of(
    outcome: Result<Program, ParseError>,
    text: Seq<char>,
    language_id: Seq<char>,
) -> bool {
    let grammar = resolve_spec(language_id);
    if abi_accepted(grammar_abi(grammar)) {
        exists|tree: tree_sitter::Tree|
            {
                &&& tree_grammar(tree) == Some(grammar)
                &&& parses_to(grammar, text, #[trigger] tree_root(tree))
                &&& outcome_model(outcome) == program_outcome(tree_root(tree), text)
            }
    } else {
        outcome == Err::<Program, ParseError>(ParseError::GrammarLoad(grammar))
    }
}

/// The value of a parse result.
pub open spec fn outcome_model(outcome: Result<Program, ParseError>) -> Result<
    ProgramModel,
    ParseError,
> {
    match outcome {
        Ok(program) => Ok(program@),
        Err(error) => Err(error),
    }
}

/// An identifier outside the supported set parses as the default grammar's
/// own identifier does: what is a result of parsing a text under the one is a
/// result of parsing it under the other.
pub proof fn lemma_unknown_language_parses_as_default(
    outcome: Result<Program, ParseError>,
    text: Seq<char>,
    language_id: Seq<char>,
)
    requires
        !is_supported(language_id),
    ensures
        is_parse_of(outcome, text, language_id) <==> is_parse_of(
            outcome,
            text,
            grammar_id(default_grammar()),
        ),
{
    lemma_unknown_resolves_as_default(language_id);
}

/// Building the program is repeatable: two results for the same tree over
/// the same text have the same value.
pub proof fn lemma_program_repeatable(
    tree: SyntaxTree,
    text: Seq<char>,
    first: Result<Program, ParseError>,
    second: Result<Program, ParseError>,
)
    requires
        outcome_model(first) == program_outcome(tree, text),
        outcome_model(second) == program_outcome(tree, text),
    ensures
        outcome_model(first) == outcome_model(second),
{
}

/// Where the engine's summary covers the flags of a tree, a program of that
/// tree with an error node anywhere has `has_error` set.
pub proof fn lemma_error_node_sets_has_error(
    program: ProgramModel,
    tree: SyntaxTree,
    text: Seq<char>,
)
    requires
        is_program_of(program, tree, text),
        summary_covers(tree),
        tree.is_error ==> tree.has_error,
        has_flagged_node(program.root),
    ensures
        program.has_error,
{
    lemma_flagged_node_sets_summary(tree, text);
}

/// Where the engine's summary covers the flags of every tree that it builds
/// from a text, a parsed program with an error node anywhere has `has_error`
/// set.
pub proof fn lemma_parsed_error_node_sets_has_error(
    program: Program,
    text: Seq<char>,
    language_id: Seq<char>,
)
    requires
        is_parse_of(Ok::<Program, ParseError>(program), text, language_id),
        forall|tree: SyntaxTree| #[trigger]
            parses_to(resolve_spec(language_id), text, tree) ==> summary_covers(tree) && (
            tree.is_error ==> tree.has_error),
        has_flagged_node(program@.root),
    ensures
        program.has_error,
{
    let grammar = resolve_spec(language_id);
    let tree = choose|tree: tree_sitter::Tree|
        {
            &&& tree_grammar(tree) == Some(grammar)
            &&& parses_to(grammar, text, #[trigger] tree_root(tree))
            &&& outcome_model(Ok::<Program, ParseError>(program)) == program_outcome(
                tree_root(tree),
                text,
            )
        };
    lemma_error_node_sets_has_error(program@, tree_root(tree), text);
}

/// The compiled table of a grammar.
pub fn table_of(grammar: Grammar) -> (language: tree_sitter::Language)
    ensures
        language_grammar(language) == Some(grammar),
{
    match grammar {
        Grammar::Typescript => typescript_table(),
        Grammar::Javascript => javascript_table(),
        Grammar::Python => python_table(),
        Grammar::Kotlin => kotlin_table(),
        Grammar::C => c_table(),
        Grammar::Cpp => cpp_table(),
        Grammar::Rust => rust_table(),
        Grammar::Php => php_table(),
        Grammar::Java => java_table(),
        Grammar::Csharp => csharp_table(),
        Grammar::Dart => dart_table(),
        Grammar::Ruby => ruby_table(),
        Grammar::Go => go_table(),
    }
}

/// Parses `code` under the grammar that `language_id` resolves to. Fails
/// exactly where the engine does not accept that grammar's table.
pub fn get_tree(code: &str, language_id: &str) -> (outcome: Result<tree_sitter::Tree, ParseError>)
    ensures
        outcome is Err <==> !abi_accepted(grammar_abi(resolve_spec(language_id@))),
        outcome matches Err(error) ==> error == ParseError::GrammarLoad(
            resolve_spec(language_id@),
        ),
        outcome matches Ok(tree) ==> {
            &&& tree_grammar(tree) == Some(resolve_spec(language_id@))
            &&& parses_to(resolve_spec(language_id@), code@, tree_root(tree))
        },
{
    let grammar = resolve(language_id);
    let mut parser = new_parser();
    match assign_language(&mut parser, table_of(grammar)) {
        Ok(_) => Ok(parse_text(&mut parser, code).unwrap()),
        Err(_) => Err(ParseError::GrammarLoad(grammar)),
    }
}

/// Builds the program of a tree that was parsed from `code`.
pub fn program_of(tree: &tree_sitter::Tree, code: &str) -> (outcome: Result<Program, ParseError>)
    ensures
        outcome_model(outcome) == program_outcome(tree_root(*tree), code@),
        outcome matches Ok(program) ==> {
            &&& program.has_error == tree_root(*tree).has_error
            &&& spans_inside(program@.root, code@)
            &&& values_exact(program@.root, code@)
            &&& same_shape(tree_root(*tree), program@.root)
            &&& leaves_bare(program@.root)
        },
{
    let root_node = root_of(tree);
    if spans_in_text(root_node, code) {
        let root = reconstruct(root_node, code);
        Ok(Program { has_error: holds_error(&root_node), root })
    } else {
        Err(ParseError::SpanOutsideText)
    }
}

/// Parses `code` as the language that `language_id` names and normalizes the
/// tree. An identifier outside the supported set selects the default grammar.
pub fn parse(code: &str, language_id: &str) -> (outcome: Result<Program, ParseError>)
    ensures
        is_parse_of(outcome, code@, language_id@),
        outcome matches Err(ParseError::GrammarLoad(grammar)) ==> {
            &&& grammar == resolve_spec(language_id@)
            &&& !abi_accepted(grammar_abi(grammar))
        },
        outcome matches Ok(program) ==> {
            &&& spans_inside(program@.root, code@)
            &&& values_exact(program@.root, code@)
            &&& leaves_bare(program@.root)
        },
{
    match get_tree(code, language_id) {
        Ok(tree) => {
            let outcome = program_of(&tree, code);
            assert(parses_to(resolve_spec(language_id@), code@, tree_root(tree)));
            outcome
        },
        Err(error) => Err(error),
    }
}

} // verus!
