//! The grammar registry: the closed set of supported languages and the
//! mapping from a language identifier to one of them.

use crate::text::same_text;
use vstd::prelude::*;

verus! {

/// A supported language.
#[derive(Clone, Copy, Debug, PartialEq, Eq, Structural)]
pub enum Grammar {
    Typescript,
    Javascript,
    Python,
    Kotlin,
    C,
    Cpp,
    Rust,
    Php,
    Java,
    Csharp,
    Dart,
    Ruby,
    Go,
}

/// The grammar that an unrecognized identifier resolves to.
pub open spec fn default_grammar() -> Grammar {
    Grammar::Typescript
}

/// The identifier that selects a grammar.
pub open spec fn grammar_id(grammar: Grammar) -> Seq<char> {
    match grammar {
        Grammar::Typescript => "typescript"@,
        Grammar::Javascript => "javascript"@,
        Grammar::Python => "python"@,
        Grammar::Kotlin => "kotlin"@,
        Grammar::C => "c"@,
        Grammar::Cpp => "cpp"@,
        Grammar::Rust => "rust"@,
        Grammar::Php => "php"@,
        Grammar::Java => "java"@,
        Grammar::Csharp => "csharp"@,
        Grammar::Dart => "dart"@,
        Grammar::Ruby => "ruby"@,
        Grammar::Go => "go"@,
    }
}

/// Whether an identifier selects a grammar. The match is exact: case matters.
pub open spec fn is_supported(language_id: Seq<char>) -> bool {
    exists|grammar: Grammar| grammar_id(grammar) == language_id
}

/// The grammar that an identifier resolves to: the one it selects, or the
/// default where it selects none.
pub open spec fn resolve_spec(language_id: Seq<char>) -> Grammar {
    if is_supported(language_id) {
        choose|grammar: Grammar| grammar_id(grammar) == language_id
    } else {
        default_grammar()
    }
}

/// No two grammars share an identifier.
pub proof fn lemma_ids_distinct(a: Grammar, b: Grammar)
    requires
        grammar_id(a) == grammar_id(b),
    ensures
        a == b,
{
    reveal_strlit("typescript");
    reveal_strlit("javascript");
    reveal_strlit("python");
    reveal_strlit("kotlin");
    reveal_strlit("c");
    reveal_strlit("cpp");
    reveal_strlit("rust");
    reveal_strlit("php");
    reveal_strlit("java");
    reveal_strlit("csharp");
    reveal_strlit("dart");
    reveal_strlit("ruby");
    reveal_strlit("go");
    let x = grammar_id(a);
    let y = grammar_id(b);
    assert(x.len() == y.len());
    assert(x[0] == y[0]);
    if x.len() > 2 {
        assert(x[2] == y[2]);
    }
}

/// Resolving the identifier of a grammar gives that grammar back.
pub proof fn lemma_resolve_own_id(grammar: Grammar)
    ensures
        is_supported(grammar_id(grammar)),
        resolve_spec(grammar_id(grammar)) == grammar,
{
    lemma_ids_distinct(resolve_spec(grammar_id(grammar)), grammar);
}

/// Every identifier outside the supported set resolves as the default
/// grammar's own identifier does.
pub proof fn lemma_unknown_resolves_as_default(language_id: Seq<char>)
    requires
        !is_supported(language_id),
    ensures
        resolve_spec(language_id) == default_grammar(),
        resolve_spec(language_id) == resolve_spec(grammar_id(default_grammar())),
{
    lemma_resolve_own_id(default_grammar());
}

impl Grammar {
    /// The identifier that selects this grammar.
    pub fn id(&self) -> (id: &'static str)
        ensures
            id@ == grammar_id(*self),
    {
        match self {
            Grammar::Typescript => "typescript",
            Grammar::Javascript => "javascript",
            Grammar::Python => "python",
            Grammar::Kotlin => "kotlin",
            Grammar::C => "c",
            Grammar::Cpp => "cpp",
            Grammar::Rust => "rust",
            Grammar::Php => "php",
            Grammar::Java => "java",
            Grammar::Csharp => "csharp",
            Grammar::Dart => "dart",
            Grammar::Ruby => "ruby",
            Grammar::Go => "go",
        }
    }
}

/// Whether `language_id` selects `grammar`.
fn selects(language_id: &str, grammar: Grammar) -> (hit: bool)
    ensures
        hit == (grammar_id(grammar) == language_id@),
        hit ==> resolve_spec(language_id@) == grammar,
{
    proof {
        if grammar_id(grammar) == language_id@ {
            lemma_resolve_own_id(grammar);
        }
    }
    same_text(language_id, grammar.id())
}

/// Resolves a language identifier to a grammar. Never fails: an identifier
/// outside the supported set resolves to the default grammar.
pub fn resolve(language_id: &str) -> (grammar: Grammar)
    ensures
        grammar == resolve_spec(language_id@),
        !is_supported(language_id@) ==> grammar == default_grammar(),
{
    if selects(language_id, Grammar::Typescript) {
        Grammar::Typescript
    } else if selects(language_id, Grammar::Javascript) {
        Grammar::Javascript
    } else if selects(language_id, Grammar::Python) {
        Grammar::Python
    } else if selects(language_id, Grammar::Kotlin) {
        Grammar::Kotlin
    } else if selects(language_id, Grammar::C) {
        Grammar::C
    } else if selects(language_id, Grammar::Cpp) {
        Grammar::Cpp
    } else if selects(language_id, Grammar::Rust) {
        Grammar::Rust
    } else if selects(language_id, Grammar::Php) {
        Grammar::Php
    } else if selects(language_id, Grammar::Java) {
        Grammar::Java
    } else if selects(language_id, Grammar::Csharp) {
        Grammar::Csharp
    } else if selects(language_id, Grammar::Dart) {
        Grammar::Dart
    } else if selects(language_id, Grammar::Ruby) {
        Grammar::Ruby
    } else if selects(language_id, Grammar::Go) {
        Grammar::Go
    } else {
        assert forall|grammar: Grammar| grammar_id(grammar) != language_id@ by {
            match grammar {
                Grammar::Typescript => {},
                Grammar::Javascript => {},
                Grammar::Python => {},
                Grammar::Kotlin => {},
                Grammar::C => {},
                Grammar::Cpp => {},
                Grammar::Rust => {},
                Grammar::Php => {},
                Grammar::Java => {},
                Grammar::Csharp => {},
                Grammar::Dart => {},
                Grammar::Ruby => {},
                Grammar::Go => {},
            }
        }
        Grammar::Typescript
    }
}

} // verus!
