use parser::grammar::{resolve, Grammar};
use parser::text::{same_text, span_in_text, span_of};

const ALL: [(Grammar, &str); 13] = [
    (Grammar::Typescript, "typescript"),
    (Grammar::Javascript, "javascript"),
    (Grammar::Python, "python"),
    (Grammar::Kotlin, "kotlin"),
    (Grammar::C, "c"),
    (Grammar::Cpp, "cpp"),
    (Grammar::Rust, "rust"),
    (Grammar::Php, "php"),
    (Grammar::Java, "java"),
    (Grammar::Csharp, "csharp"),
    (Grammar::Dart, "dart"),
    (Grammar::Ruby, "ruby"),
    (Grammar::Go, "go"),
];

#[test]
fn resolve_knows_every_supported_identifier() {
    for (grammar, id) in ALL {
        assert_eq!(resolve(id), grammar, "{}", id);
    }
}

#[test]
fn grammar_reports_its_identifier() {
    for (grammar, id) in ALL {
        assert_eq!(grammar.id(), id);
    }
}

#[test]
fn resolving_an_identifier_of_a_grammar_gives_it_back() {
    for (grammar, _) in ALL {
        assert_eq!(resolve(grammar.id()), grammar);
    }
}

#[test]
fn identifiers_are_pairwise_distinct() {
    for (i, (_, a)) in ALL.iter().enumerate() {
        for (j, (_, b)) in ALL.iter().enumerate() {
            assert_eq!(a == b, i == j);
        }
    }
}

#[test]
fn unknown_identifier_resolves_to_typescript() {
    for id in ["cobol", "", "ts", "js", "c++", "c#", "golang", "py", "typescript2", "typescrip"] {
        assert_eq!(resolve(id), Grammar::Typescript, "{:?}", id);
    }
}

#[test]
fn unknown_identifier_resolves_as_the_default_identifier() {
    assert_eq!(resolve("cobol"), resolve("typescript"));
    assert_eq!(resolve("fortran"), resolve("cobol"));
}

#[test]
fn resolve_is_case_sensitive() {
    assert_eq!(resolve("python"), Grammar::Python);
    assert_eq!(resolve("Python"), Grammar::Typescript);
    assert_eq!(resolve("PYTHON"), Grammar::Typescript);
    assert_eq!(resolve("Go"), Grammar::Typescript);
    assert_eq!(resolve("C"), Grammar::Typescript);
}

#[test]
fn resolve_does_not_trim_or_match_prefixes() {
    assert_eq!(resolve(" python"), Grammar::Typescript);
    assert_eq!(resolve("python "), Grammar::Typescript);
    assert_eq!(resolve("jav"), Grammar::Typescript);
    assert_eq!(resolve("javas"), Grammar::Typescript);
    assert_eq!(resolve("cp"), Grammar::Typescript);
    assert_eq!(resolve("cppp"), Grammar::Typescript);
    assert_eq!(resolve("java"), Grammar::Java);
    assert_eq!(resolve("javascript"), Grammar::Javascript);
    assert_eq!(resolve("c"), Grammar::C);
    assert_eq!(resolve("cpp"), Grammar::Cpp);
    assert_eq!(resolve("csharp"), Grammar::Csharp);
}

#[test]
fn same_text_compares_characters() {
    assert!(same_text("", ""));
    assert!(same_text("rust", "rust"));
    assert!(!same_text("rust", "ruby"));
    assert!(!same_text("c", "cpp"));
    assert!(!same_text("cpp", "c"));
    assert!(!same_text("", "c"));
    assert!(same_text("h\u{e9}llo", "h\u{e9}llo"));
    assert!(!same_text("h\u{e9}llo", "h\u{e8}llo"));
    assert!(!same_text("e\u{301}", "\u{e9}"));
}

#[test]
fn span_in_text_accepts_ranges_on_character_boundaries() {
    let text = "h\u{e9}llo";
    assert_eq!(text.len(), 6);
    assert!(span_in_text(text, 0, 0));
    assert!(span_in_text(text, 0, 6));
    assert!(span_in_text(text, 6, 6));
    assert!(span_in_text(text, 1, 3));
    assert!(span_in_text(text, 3, 6));
    assert!(span_in_text("", 0, 0));
}

#[test]
fn span_in_text_rejects_ranges_that_do_not_fit() {
    let text = "h\u{e9}llo";
    assert!(!span_in_text(text, 0, 7));
    assert!(!span_in_text(text, 7, 7));
    assert!(!span_in_text(text, 3, 1));
    assert!(!span_in_text(text, 2, 3));
    assert!(!span_in_text(text, 1, 2));
    assert!(!span_in_text(text, 2, 2));
    assert!(!span_in_text("", 0, 1));
    assert!(!span_in_text("\u{1F600}", 1, 4));
    assert!(!span_in_text("abc", usize::MAX, usize::MAX));
}

#[test]
fn span_of_takes_the_bytes_between_the_offsets() {
    let text = "h\u{e9}llo \u{2713}";
    assert_eq!(span_of(text, 0, text.len()), text);
    assert_eq!(span_of(text, 0, 0), "");
    assert_eq!(span_of(text, text.len(), text.len()), "");
    assert_eq!(span_of(text, 0, 1), "h");
    assert_eq!(span_of(text, 1, 3), "\u{e9}");
    assert_eq!(span_of(text, 3, 6), "llo");
    assert_eq!(span_of(text, 7, 10), "\u{2713}");
    assert_eq!(span_of("let x = 1", 4, 9), "x = 1");
}

#[test]
fn span_of_agrees_with_slicing_wherever_the_span_fits() {
    let text = "a\u{e9}\u{2713}\u{1F600}z";
    for start in 0..=text.len() {
        for end in 0..=text.len() {
            let fits = span_in_text(text, start, end);
            assert_eq!(fits, text.get(start..end).is_some(), "{}..{}", start, end);
            if fits {
                assert_eq!(span_of(text, start, end), &text[start..end]);
            }
        }
    }
}
