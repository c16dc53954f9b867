use typescript_validator::outcome::{
    parse_outcome_from_engine, semantic_outcome_from_engine, ParseOutcome, SemanticOutcome,
    ValidationResult,
};
use typescript_validator::pipeline::{assemble_verdict, assess_parse, assess_semantic,
    filter_context_artifacts, rejection_text};
use typescript_validator::text::{join_strings, str_contains};

fn owned(parts: &[&str]) -> Vec<String> {
    parts.iter().map(|p| p.to_string()).collect()
}

#[test]
fn contains_finds_substring() {
    assert!(str_contains("Cannot find name 'Foo'", "Cannot find"));
    assert!(str_contains("could not resolve module './a'", "module"));
    assert!(!str_contains("unexpected token", "module"));
    assert!(str_contains("anything", ""));
    assert!(!str_contains("ab", "abc"));
}

#[test]
fn join_empty_is_empty() {
    assert_eq!(join_strings(&owned(&[]), "; "), "");
}

#[test]
fn join_single_has_no_separator() {
    assert_eq!(join_strings(&owned(&["one"]), "; "), "one");
}

#[test]
fn join_many_uses_separator() {
    assert_eq!(join_strings(&owned(&["a", "b", "c"]), "; "), "a; b; c");
}

#[test]
fn filter_drops_cannot_find_and_module_messages() {
    let kept = filter_context_artifacts(&owned(&[
        "Cannot find name 'Foo'",
        "unexpected token",
        "could not resolve module './x'",
        "duplicate identifier",
    ]));
    assert_eq!(kept, owned(&["unexpected token", "duplicate identifier"]));
}

#[test]
fn filter_keeps_everything_unrelated() {
    let msgs = owned(&["alpha", "beta"]);
    assert_eq!(filter_context_artifacts(&msgs), msgs);
}

#[test]
fn rejection_text_labels_and_joins() {
    assert_eq!(
        rejection_text(&owned(&["a", "b"])),
        "TypeScript syntax error: a; b"
    );
}

#[test]
fn engine_report_panicked_without_diagnostics_is_fault() {
    let outcome = parse_outcome_from_engine(true, owned(&[]));
    assert!(matches!(outcome, ParseOutcome::Fault));
}

#[test]
fn engine_report_panicked_wins_over_partial_diagnostics() {
    let outcome = parse_outcome_from_engine(true, owned(&["partial diagnostic"]));
    assert!(matches!(outcome, ParseOutcome::Fault));
}

#[test]
fn engine_report_clean_parse_is_success() {
    let outcome = parse_outcome_from_engine(false, owned(&[]));
    assert!(matches!(outcome, ParseOutcome::Success));
}

#[test]
fn engine_report_diagnostics_are_syntax_errors() {
    let outcome = parse_outcome_from_engine(false, owned(&["bad"]));
    match outcome {
        ParseOutcome::SyntaxErrors(msgs) => assert_eq!(msgs, owned(&["bad"])),
        _ => panic!("expected syntax errors"),
    }
}

#[test]
fn parser_fault_rejects_with_fixed_message() {
    match assess_parse(&ParseOutcome::Fault) {
        Some(ValidationResult::Rejected(m)) => {
            assert_eq!(m, "TypeScript parser encountered an unrecoverable error");
        }
        _ => panic!("expected rejection"),
    }
}

#[test]
fn parser_syntax_errors_reject_with_joined_label() {
    let outcome = ParseOutcome::SyntaxErrors(owned(&["first", "second"]));
    match assess_parse(&outcome) {
        Some(ValidationResult::Rejected(m)) => {
            assert_eq!(m, "TypeScript syntax error: first; second");
        }
        _ => panic!("expected rejection"),
    }
}

#[test]
fn parser_success_defers_to_semantic_stage() {
    assert!(assess_parse(&ParseOutcome::Success).is_none());
}

#[test]
fn semantic_fault_is_benign() {
    match assess_semantic("interface A {}", &SemanticOutcome::Fault) {
        ValidationResult::Accepted(s) => assert_eq!(s, "interface A {}"),
        _ => panic!("expected acceptance"),
    }
}

#[test]
fn semantic_success_accepts_original() {
    match assess_semantic("5", &SemanticOutcome::Success) {
        ValidationResult::Accepted(s) => assert_eq!(s, "5"),
        _ => panic!("expected acceptance"),
    }
}

#[test]
fn semantic_artifacts_only_accepts() {
    let outcome = semantic_outcome_from_engine(owned(&[
        "Cannot find name 'External'",
        "could not resolve module './other'",
    ]));
    match assess_semantic("type A = External;", &outcome) {
        ValidationResult::Accepted(s) => assert_eq!(s, "type A = External;"),
        _ => panic!("expected acceptance"),
    }
}

#[test]
fn semantic_genuine_errors_reject_without_artifacts() {
    let outcome = semantic_outcome_from_engine(owned(&[
        "Cannot find name 'External'",
        "duplicate identifier 'A'",
        "something about a module",
    ]));
    match assess_semantic("whatever", &outcome) {
        ValidationResult::Rejected(m) => {
            assert_eq!(m, "TypeScript syntax error: duplicate identifier 'A'");
        }
        _ => panic!("expected rejection"),
    }
}

#[test]
fn assemble_syntax_errors_decide_without_semantic_stage() {
    let parse = ParseOutcome::SyntaxErrors(owned(&["first", "second"]));
    match assemble_verdict("{{{", &parse, &None) {
        ValidationResult::Rejected(m) => {
            assert_eq!(m, "TypeScript syntax error: first; second");
        }
        _ => panic!("expected rejection"),
    }
}

#[test]
fn assemble_parser_fault_decides_without_semantic_stage() {
    match assemble_verdict("whatever", &ParseOutcome::Fault, &None) {
        ValidationResult::Rejected(m) => {
            assert_eq!(m, "TypeScript parser encountered an unrecoverable error");
        }
        _ => panic!("expected rejection"),
    }
}

#[test]
fn assemble_semantic_fault_accepts_original() {
    match assemble_verdict("type A = Ext;", &ParseOutcome::Success, &Some(SemanticOutcome::Fault)) {
        ValidationResult::Accepted(s) => assert_eq!(s, "type A = Ext;"),
        _ => panic!("expected acceptance"),
    }
}

#[test]
fn assemble_artifact_diagnostics_accept_original() {
    let semantic = SemanticOutcome::SemanticErrors(owned(&["Cannot find name 'Ext'"]));
    match assemble_verdict("type A = Ext;", &ParseOutcome::Success, &Some(semantic)) {
        ValidationResult::Accepted(s) => assert_eq!(s, "type A = Ext;"),
        _ => panic!("expected acceptance"),
    }
}

#[test]
fn assemble_genuine_semantic_errors_reject() {
    let semantic = SemanticOutcome::SemanticErrors(owned(&["duplicate identifier 'A'"]));
    match assemble_verdict("type A = 1; type A = 2;", &ParseOutcome::Success, &Some(semantic)) {
        ValidationResult::Rejected(m) => {
            assert_eq!(m, "TypeScript syntax error: duplicate identifier 'A'");
        }
        _ => panic!("expected rejection"),
    }
}

#[test]
fn semantic_empty_report_is_success() {
    assert!(matches!(
        semantic_outcome_from_engine(owned(&[])),
        SemanticOutcome::Success
    ));
}
