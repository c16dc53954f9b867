//! Diagnostic filter and result assembler: turns the outcomes of the two
//! engine passes into the single accept/reject verdict of a validation call,
//! suppressing semantic diagnostics that are artifacts of validating an
//! isolated snippet outside its project context.

use vstd::prelude::*;
use vstd::string::StringExecFns;
use crate::outcome::ParseOutcome;
use crate::outcome::SemanticOutcome;
use crate::outcome::ValidationResult;
use crate::text::contains_seq;
use crate::text::has_prefix;
use crate::text::join_strings;
use crate::text::join_with;
use crate::text::str_contains;

verus! {

/// The fixed diagnostic for a catastrophic structural-parser failure.
pub open spec fn unrecoverable_message() -> Seq<char> {
    "TypeScript parser encountered an unrecoverable error"@
}

/// The fixed label put before every joined list of syntax diagnostics.
pub open spec fn syntax_error_label() -> Seq<char> {
    "TypeScript syntax error: "@
}

/// The delimiter between joined diagnostics.
pub open spec fn diagnostic_separator() -> Seq<char> {
    "; "@
}

/// A diagnostic that exists only because the snippet is validated outside
/// its original project: an unresolved reference or a module-resolution
/// complaint.
pub open spec fn is_context_artifact(m: Seq<char>) -> bool {
    contains_seq(m, "Cannot find"@) || contains_seq(m, "module"@)
}

/// The diagnostics that survive context-artifact filtering, in order.
pub open spec fn kept_messages(msgs: Seq<Seq<char>>) -> Seq<Seq<char>>
    decreases msgs.len(),
{
    if msgs.len() == 0 {
        Seq::empty()
    } else if is_context_artifact(msgs.last()) {
        kept_messages(msgs.drop_last())
    } else {
        kept_messages(msgs.drop_last()).push(msgs.last())
    }
}

/// The rejection diagnostic built from a list of genuine syntax complaints.
pub open spec fn rejection_message(msgs: Seq<Seq<char>>) -> Seq<char> {
    syntax_error_label() + join_with(msgs, diagnostic_separator())
}

/// The rejection the structural stage forces, if any: a fault uses the fixed
/// unrecoverable-error message whatever partial diagnostics exist; reported
/// syntax errors use their joined, labelled text; success defers.
pub open spec fn parse_rejection(outcome: ParseOutcome) -> Option<Seq<char>> {
    match outcome {
        ParseOutcome::Fault => Some(unrecoverable_message()),
        ParseOutcome::SyntaxErrors(e) => Some(rejection_message(e.deep_view())),
        ParseOutcome::Success => None,
    }
}

/// The rejection the semantic stage forces, if any: only diagnostics that
/// survive context-artifact filtering reject; a fault of this stage is
/// benign and accepts.
pub open spec fn semantic_rejection(outcome: SemanticOutcome) -> Option<Seq<char>> {
    match outcome {
        SemanticOutcome::SemanticErrors(e) => if kept_messages(e.deep_view()).len() > 0 {
            Some(rejection_message(kept_messages(e.deep_view())))
        } else {
            None
        },
        _ => None,
    }
}

/// The verdict of the whole pipeline: the structural stage's rejection if it
/// forces one, else the semantic stage's, else acceptance of the original
/// input.
pub open spec fn validation_verdict(
    input: Seq<char>,
    parse: ParseOutcome,
    semantic: SemanticOutcome,
) -> Result<Seq<char>, Seq<char>> {
    match parse_rejection(parse) {
        Some(m) => Err(m),
        None => match semantic_rejection(semantic) {
            Some(m) => Err(m),
            None => Ok(input),
        },
    }
}

/// Removes every context-artifact diagnostic, keeping the rest in order.
pub fn filter_context_artifacts(diagnostics: &Vec<String>) -> (r: Vec<String>)
    ensures
        r.deep_view() == kept_messages(diagnostics.deep_view()),
{
    let mut kept: Vec<String> = Vec::new();
    let mut i: usize = 0;
    proof {
        assert(diagnostics.deep_view().take(0) =~= Seq::<Seq<char>>::empty());
        assert(kept.deep_view() =~= Seq::<Seq<char>>::empty());
    }
    while i < diagnostics.len()
        invariant
            i <= diagnostics@.len(),
            kept.deep_view() == kept_messages(diagnostics.deep_view().take(i as int)),
        decreases diagnostics@.len() - i,
    {
        let ghost old_kept = kept.deep_view();
        let artifact = str_contains(diagnostics[i].as_str(), "Cannot find")
            || str_contains(diagnostics[i].as_str(), "module");
        if !artifact {
            kept.push(diagnostics[i].clone());
            proof {
                assert(kept.deep_view() =~= old_kept.push(diagnostics.deep_view()[i as int]));
            }
        }
        proof {
            let dv = diagnostics.deep_view();
            assert(dv.take(i + 1).drop_last() =~= dv.take(i as int));
            assert(dv.take(i + 1).last() == dv[i as int]);
        }
        i += 1;
    }
    proof {
        assert(diagnostics.deep_view().take(diagnostics@.len() as int) =~= diagnostics.deep_view());
    }
    kept
}

/// The labelled rejection diagnostic for a list of genuine complaints.
pub fn rejection_text(diagnostics: &Vec<String>) -> (r: String)
    ensures
        r@ == rejection_message(diagnostics.deep_view()),
{
    let mut r = String::from_str("TypeScript syntax error: ");
    let joined = join_strings(diagnostics, "; ");
    r.append(joined.as_str());
    r
}

/// Assesses the structural stage: a fault or reported syntax errors reject
/// at once with their message; success hands over to the semantic stage.
pub fn assess_parse(outcome: &ParseOutcome) -> (r: Option<ValidationResult>)
    ensures
        parse_rejection(*outcome) matches Some(m) ==> r matches Some(v) && !v.is_accepted()
            && v.text() == m,
        parse_rejection(*outcome) is None ==> r is None,
{
    match outcome {
        ParseOutcome::Fault => Some(
            ValidationResult::Rejected(
                String::from_str("TypeScript parser encountered an unrecoverable error"),
            ),
        ),
        ParseOutcome::SyntaxErrors(e) => Some(ValidationResult::Rejected(rejection_text(e))),
        ParseOutcome::Success => None,
    }
}

/// Assesses the semantic stage, given that the structural stage succeeded:
/// diagnostics that survive filtering reject with their joined, labelled
/// text; anything else — no diagnostics, only artifacts, or a benign fault —
/// accepts the original input unchanged.
pub fn assess_semantic(input: &str, outcome: &SemanticOutcome) -> (r: ValidationResult)
    ensures
        semantic_rejection(*outcome) matches Some(m) ==> !r.is_accepted() && r.text() == m,
        semantic_rejection(*outcome) is None ==> r.is_accepted() && r.text() == input@,
{
    match outcome {
        SemanticOutcome::SemanticErrors(e) => {
            let kept = filter_context_artifacts(e);
            if kept.len() > 0 {
                ValidationResult::Rejected(rejection_text(&kept))
            } else {
                ValidationResult::Accepted(String::from_str(input))
            }
        },
        _ => ValidationResult::Accepted(String::from_str(input)),
    }
}

/// `r` carries the verdict `v`: the accepted content on `Ok`, the rejection
/// diagnostic on `Err`.
pub open spec fn reflects_verdict(r: ValidationResult, v: Result<Seq<char>, Seq<char>>) -> bool {
    match v {
        Ok(c) => r.is_accepted() && r.text() == c,
        Err(m) => !r.is_accepted() && r.text() == m,
    }
}

/// Assembles the single outcome of a validation call from both stages'
/// outcomes. The semantic outcome is only at hand when the structural stage
/// succeeded; when it is absent the structural stage has already decided,
/// and the verdict is the same whatever the semantic stage would have said.
pub fn assemble_verdict(
    input: &str,
    parse: &ParseOutcome,
    semantic: &Option<SemanticOutcome>,
) -> (r: ValidationResult)
    requires
        parse is Success ==> semantic is Some,
    ensures
        semantic matches Some(s) ==> reflects_verdict(r, validation_verdict(input@, *parse, *s)),
        semantic is None ==> forall|s: SemanticOutcome|
            reflects_verdict(r, validation_verdict(input@, *parse, s)),
{
    match assess_parse(parse) {
        Some(verdict) => verdict,
        None => match semantic {
            Some(s) => assess_semantic(input, s),
            None => {
                proof {
                    assert(parse is Success);
                }
                vstd::pervasive::unreached()
            },
        },
    }
}

/// Acceptance is idempotent: two validations of the same input that both
/// accept yield the same outcome, and its content is the input both times.
pub proof fn lemma_acceptance_idempotent(
    input: Seq<char>,
    parse1: ParseOutcome,
    semantic1: SemanticOutcome,
    parse2: ParseOutcome,
    semantic2: SemanticOutcome,
)
    requires
        validation_verdict(input, parse1, semantic1) is Ok,
        validation_verdict(input, parse2, semantic2) is Ok,
    ensures
        validation_verdict(input, parse1, semantic1) == validation_verdict(
            input,
            parse2,
            semantic2,
        ),
        validation_verdict(input, parse1, semantic1) matches Ok(c) && c == input,
{
}

/// Round-trip identity: an accepting verdict carries the original input,
/// byte for byte, never the normalized form.
pub proof fn lemma_round_trip_identity(
    input: Seq<char>,
    parse: ParseOutcome,
    semantic: SemanticOutcome,
)
    requires
        validation_verdict(input, parse, semantic) is Ok,
    ensures
        validation_verdict(input, parse, semantic) matches Ok(c) && c == input,
{
}

/// Reported structural syntax errors short-circuit: the verdict rejects with
/// the labelled joined diagnostics, whatever the semantic stage would have
/// said.
pub proof fn lemma_syntax_errors_short_circuit(
    input: Seq<char>,
    parse: ParseOutcome,
    semantic1: SemanticOutcome,
    semantic2: SemanticOutcome,
)
    requires
        parse is SyntaxErrors,
    ensures
        validation_verdict(input, parse, semantic1) == validation_verdict(
            input,
            parse,
            semantic2,
        ),
        validation_verdict(input, parse, semantic1) matches Err(m) && has_prefix(
            m,
            syntax_error_label(),
        ),
{
    let m = rejection_message(parse.messages());
    assert(m.subrange(0, syntax_error_label().len() as int) =~= syntax_error_label());
}

/// A structural-parser fault rejects with the fixed unrecoverable-error
/// message, whatever the semantic stage would have said.
pub proof fn lemma_fault_fixed_message(
    input: Seq<char>,
    semantic1: SemanticOutcome,
    semantic2: SemanticOutcome,
)
    ensures
        validation_verdict(input, ParseOutcome::Fault, semantic1) == validation_verdict(
            input,
            ParseOutcome::Fault,
            semantic2,
        ),
        validation_verdict(input, ParseOutcome::Fault, semantic1) matches Err(m) && m
            == unrecoverable_message(),
{
}

/// No diagnostic that survives filtering contains a context-artifact
/// pattern; with `semantic_rejection` built only from the surviving
/// diagnostics, an unresolved-reference or module complaint never reaches a
/// rejection.
pub proof fn lemma_artifacts_never_surface(msgs: Seq<Seq<char>>)
    ensures
        forall|i: int|
            0 <= i < kept_messages(msgs).len() ==> !is_context_artifact(
                #[trigger] kept_messages(msgs)[i],
            ),
    decreases msgs.len(),
{
    if msgs.len() > 0 {
        lemma_artifacts_never_surface(msgs.drop_last());
        let rest = kept_messages(msgs.drop_last());
        assert forall|i: int| 0 <= i < kept_messages(msgs).len() implies !is_context_artifact(
            #[trigger] kept_messages(msgs)[i],
        ) by {
            if is_context_artifact(msgs.last()) {
                assert(kept_messages(msgs)[i] == rest[i]);
            } else {
                if i < rest.len() {
                    assert(kept_messages(msgs)[i] == rest[i]);
                } else {
                    assert(kept_messages(msgs)[i] == msgs.last());
                }
            }
        }
    }
}

} // verus!
