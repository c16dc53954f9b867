//! Tagged outcomes of the two engine passes and of the validation call.
//!
//! The engines themselves run outside this library, each behind a fault
//! barrier at its call site; the caller reports what happened as one of
//! these values. The syntax tree an engine builds stays with the caller and
//! is discarded at the end of the call, so no variant carries it.

use vstd::prelude::*;

verus! {

/// What the structural parse of the normalized source came to.
pub enum ParseOutcome {
    /// The engine built a tree and reported no syntax errors.
    Success,
    /// The engine reported structured syntax-error diagnostics.
    SyntaxErrors(Vec<String>),
    /// The engine failed catastrophically: it tripped the fault barrier or
    /// flagged its own return as unrecoverable.
    Fault,
}

impl ParseOutcome {
    /// The reported syntax-error messages; empty unless syntax errors were
    /// reported.
    pub open spec fn messages(self) -> Seq<Seq<char>> {
        match self {
            ParseOutcome::SyntaxErrors(v) => v.deep_view(),
            _ => Seq::empty(),
        }
    }
}

/// Classifies the structural parser's own report: the engine returned
/// normally, with its panicked flag and its diagnostic list. A tripped fault
/// barrier never reaches this point; the caller reports it as
/// `ParseOutcome::Fault` directly.
///
/// The panicked flag signals an unrecoverable engine condition and takes
/// priority: a panicked report is a fault whatever partial diagnostics it
/// carries. Only a report that returned normally surfaces its diagnostics
/// as syntax errors.
pub fn parse_outcome_from_engine(panicked: bool, diagnostics: Vec<String>) -> (r: ParseOutcome)
    ensures
        panicked ==> r is Fault,
        !panicked && diagnostics@.len() > 0 ==> r is SyntaxErrors && r.messages()
            == diagnostics.deep_view(),
        !panicked && diagnostics@.len() == 0 ==> r is Success,
{
    if panicked {
        ParseOutcome::Fault
    } else if diagnostics.len() > 0 {
        ParseOutcome::SyntaxErrors(diagnostics)
    } else {
        ParseOutcome::Success
    }
}

/// What the best-effort semantic pass over the parsed tree came to.
pub enum SemanticOutcome {
    /// The pass ran and reported nothing.
    Success,
    /// The pass ran and reported diagnostics, not yet filtered.
    SemanticErrors(Vec<String>),
    /// The pass tripped its fault barrier; benign, since structural parsing
    /// already succeeded.
    Fault,
}

impl SemanticOutcome {
    /// The reported semantic diagnostics; empty unless the pass reported
    /// some.
    pub open spec fn messages(self) -> Seq<Seq<char>> {
        match self {
            SemanticOutcome::SemanticErrors(v) => v.deep_view(),
            _ => Seq::empty(),
        }
    }
}

/// Classifies the semantic pass's own report; a tripped fault barrier is
/// reported by the caller as `SemanticOutcome::Fault` directly.
pub fn semantic_outcome_from_engine(diagnostics: Vec<String>) -> (r: SemanticOutcome)
    ensures
        diagnostics@.len() == 0 ==> r is Success,
        diagnostics@.len() > 0 ==> r is SemanticErrors && r.messages() == diagnostics.deep_view(),
{
    if diagnostics.len() == 0 {
        SemanticOutcome::Success
    } else {
        SemanticOutcome::SemanticErrors(diagnostics)
    }
}

/// The single outcome a validation call returns.
pub enum ValidationResult {
    /// The original input, unchanged.
    Accepted(String),
    /// One human-readable diagnostic.
    Rejected(String),
}

impl ValidationResult {
    /// Whether the input was accepted.
    pub open spec fn is_accepted(self) -> bool {
        self is Accepted
    }

    /// The carried text: the accepted input or the rejection diagnostic.
    pub open spec fn text(self) -> Seq<char> {
        match self {
            ValidationResult::Accepted(s) => s@,
            ValidationResult::Rejected(m) => m@,
        }
    }
}

} // verus!
