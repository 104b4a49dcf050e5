//! The failures that a derivation or a statement synthesis can end in.

use vstd::prelude::*;

verus! {

/// Why an invocation was rejected. Every failure is final: no partial output
/// is produced beside it.
#[derive(Clone, Copy, Debug, PartialEq, Eq, Structural)]
pub enum MacroError {
    /// An annotation has the wrong arity, names an unknown directive, or uses
    /// a directive where it is not legal.
    MalformedAnnotation,
    /// The declaration is not of the kind that the rule requires.
    UnsupportedShape,
    /// A required annotation is absent: a variant carries no kind, the enum
    /// has no variant to resolve, or the type lacks the annotation that
    /// names the target.
    MissingDirective,
    /// The statement arguments do not fit the expected sequence.
    AmbiguousArgument,
}

impl MacroError {
    /// What is reported for the failure: the category and the shape that
    /// was expected.
    pub open spec fn description(self) -> Seq<char> {
        match self {
            MacroError::MalformedAnnotation =>
                "malformed annotation: expected one of the directives that are legal here, with the number of arguments it takes"@,
            MacroError::UnsupportedShape =>
                "unsupported shape: expected a struct with named fields, or an enum where kinds are derived"@,
            MacroError::MissingDirective =>
                "missing directive: expected a kind annotation on every variant of a non-empty enum, and the annotation on the type that the derivation is named by"@,
            MacroError::AmbiguousArgument =>
                "ambiguous argument: expected a table, a comma, string literals for the columns, and a filter where the statement takes one"@,
        }
    }

    /// The message to report the failure with.
    pub fn message(&self) -> (text: &'static str)
        ensures
            text@ == self.description(),
    {
        match self {
            MacroError::MalformedAnnotation =>
                "malformed annotation: expected one of the directives that are legal here, with the number of arguments it takes",
            MacroError::UnsupportedShape =>
                "unsupported shape: expected a struct with named fields, or an enum where kinds are derived",
            MacroError::MissingDirective =>
                "missing directive: expected a kind annotation on every variant of a non-empty enum, and the annotation on the type that the derivation is named by",
            MacroError::AmbiguousArgument =>
                "ambiguous argument: expected a table, a comma, string literals for the columns, and a filter where the statement takes one",
        }
    }
}

} // verus!
