//! The definition validator: the non-fatal checks applied to a parsed
//! definition, each yielding one diagnostic without stopping the pipeline.

use vstd::prelude::*;

use crate::ast::{HookDefinition, HookDefinitionV, Span};
use crate::is_hook_name;

verus! {

/// The constraint a diagnostic reports as violated.
#[derive(Clone, Copy, PartialEq, Eq, Structural, Debug)]
pub enum DiagnosticKind {
    /// A concurrency-suspension modifier was written on the definition.
    AsyncNotAllowed,
    /// A constant-evaluation modifier was written on the definition.
    ConstNotAllowed,
    /// A foreign-calling-convention modifier was written on the definition.
    ForeignAbiNotAllowed,
    /// An unsafe-operations modifier was written on the definition.
    UnsafeNotAllowed,
    /// The name does not begin with the mandated `use_` prefix.
    MissingPrefix,
}

/// One reported defect: the source span of the offending construct and
/// the constraint it violates.
#[derive(Clone, Copy, PartialEq, Eq, Structural, Debug)]
pub struct Diagnostic {
    pub span: Span,
    pub kind: DiagnosticKind,
}

/// The message text reported for each kind of diagnostic.
pub open spec fn diagnostic_message(k: DiagnosticKind) -> Seq<char> {
    match k {
        DiagnosticKind::AsyncNotAllowed => "async functions can't be hooks"@,
        DiagnosticKind::ConstNotAllowed => "const functions can't be hooks"@,
        DiagnosticKind::ForeignAbiNotAllowed => (
        "functions with a foreign calling convention can't be hooks"@
        ),
        DiagnosticKind::UnsafeNotAllowed => "unsafe functions can't be hooks"@,
        DiagnosticKind::MissingPrefix => "hooks must have a name starting with `use_`"@,
    }
}

impl Diagnostic {
    /// The human-readable message of this diagnostic.
    pub fn message(&self) -> (r: String)
        ensures
            r@ == diagnostic_message(self.kind),
    {
        match self.kind {
            DiagnosticKind::AsyncNotAllowed => String::from_str("async functions can't be hooks"),
            DiagnosticKind::ConstNotAllowed => String::from_str("const functions can't be hooks"),
            DiagnosticKind::ForeignAbiNotAllowed => String::from_str(
                "functions with a foreign calling convention can't be hooks",
            ),
            DiagnosticKind::UnsafeNotAllowed => String::from_str(
                "unsafe functions can't be hooks",
            ),
            DiagnosticKind::MissingPrefix => String::from_str(
                "hooks must have a name starting with `use_`",
            ),
        }
    }
}

/// The exact sequence of diagnostics the validator reports for a
/// definition: one per disallowed modifier that was written, in a fixed
/// order, then one where the name misses the mandated prefix. Each
/// diagnostic carries the span of the offending construct.
pub open spec fn expected_diagnostics(d: HookDefinitionV) -> Seq<Diagnostic> {
    (match d.asyncness {
        Option::Some(s) => seq![Diagnostic { span: s, kind: DiagnosticKind::AsyncNotAllowed }],
        Option::None => Seq::<Diagnostic>::empty(),
    }) + (match d.constness {
        Option::Some(s) => seq![Diagnostic { span: s, kind: DiagnosticKind::ConstNotAllowed }],
        Option::None => Seq::<Diagnostic>::empty(),
    }) + (match d.abi {
        Option::Some(s) => seq![Diagnostic { span: s, kind: DiagnosticKind::ForeignAbiNotAllowed }],
        Option::None => Seq::<Diagnostic>::empty(),
    }) + (match d.unsafety {
        Option::Some(s) => seq![Diagnostic { span: s, kind: DiagnosticKind::UnsafeNotAllowed }],
        Option::None => Seq::<Diagnostic>::empty(),
    }) + (if is_hook_name(d.name) {
        Seq::<Diagnostic>::empty()
    } else {
        seq![Diagnostic { span: d.name_span, kind: DiagnosticKind::MissingPrefix }]
    })
}

/// How many of the validator's constraints a definition violates.
pub open spec fn violation_count(d: HookDefinitionV) -> nat {
    (if d.asyncness is Some {
        1nat
    } else {
        0nat
    }) + (if d.constness is Some {
        1nat
    } else {
        0nat
    }) + (if d.abi is Some {
        1nat
    } else {
        0nat
    }) + (if d.unsafety is Some {
        1nat
    } else {
        0nat
    }) + (if is_hook_name(d.name) {
        0nat
    } else {
        1nat
    })
}

/// Applies the non-fatal checks to a definition and reports every defect,
/// without altering or rejecting the definition itself.
pub fn validate(d: &HookDefinition) -> (r: Vec<Diagnostic>)
    ensures
        r@ == expected_diagnostics(d@),
{
    let mut r: Vec<Diagnostic> = Vec::new();
    if let Option::Some(s) = d.asyncness {
        r.push(Diagnostic { span: s, kind: DiagnosticKind::AsyncNotAllowed });
    }
    if let Option::Some(s) = d.constness {
        r.push(Diagnostic { span: s, kind: DiagnosticKind::ConstNotAllowed });
    }
    if let Option::Some(s) = d.abi {
        r.push(Diagnostic { span: s, kind: DiagnosticKind::ForeignAbiNotAllowed });
    }
    if let Option::Some(s) = d.unsafety {
        r.push(Diagnostic { span: s, kind: DiagnosticKind::UnsafeNotAllowed });
    }
    if !crate::check_hook_name(d.name.as_str()) {
        r.push(Diagnostic { span: d.name_span, kind: DiagnosticKind::MissingPrefix });
    }
    proof {
        assert(r@ =~= expected_diagnostics(d@));
    }
    r
}

/// A definition that follows the naming convention and carries none of
/// the disallowed modifiers passes validation with zero diagnostics.
pub proof fn lemma_valid_input_no_diagnostics(d: HookDefinitionV)
    requires
        d.asyncness is None,
        d.constness is None,
        d.abi is None,
        d.unsafety is None,
        is_hook_name(d.name),
    ensures
        expected_diagnostics(d).len() == 0,
{
    assert(expected_diagnostics(d) =~= Seq::<Diagnostic>::empty());
}

/// A definition whose only defect is a name missing the mandated prefix
/// draws exactly one diagnostic, and that diagnostic points at the span
/// of the name.
pub proof fn lemma_missing_prefix_single_diagnostic(d: HookDefinitionV)
    requires
        d.asyncness is None,
        d.constness is None,
        d.abi is None,
        d.unsafety is None,
        !is_hook_name(d.name),
    ensures
        expected_diagnostics(d) =~= seq![
            Diagnostic { span: d.name_span, kind: DiagnosticKind::MissingPrefix },
        ],
{
}

/// Each violated constraint is reported exactly once: the number of
/// diagnostics equals the number of distinct violated constraints,
/// however many are combined on one definition.
pub proof fn lemma_one_diagnostic_per_violation(d: HookDefinitionV)
    ensures
        expected_diagnostics(d).len() == violation_count(d),
{
}

} // verus!
