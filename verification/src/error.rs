use vstd::prelude::*;

verus! {

/// Why a module cannot be transformed. Every failure ends the pass: no
/// partial output exists.
#[derive(Debug, Clone, Copy, PartialEq, Eq, Structural)]
pub enum TranspileError {
    /// An export or declaration of a shape that the pass does not cover.
    UnsupportedShape,
    /// The text of a declaration could not be read back as an expression.
    SubParseFailure,
}

impl TranspileError {
    /// The error in words.
    pub fn message(&self) -> (r: String)
        ensures
            r@ == match *self {
                TranspileError::UnsupportedShape => "unsupported export or declaration"@,
                TranspileError::SubParseFailure => "declaration could not be read back"@,
            },
    {
        match self {
            TranspileError::UnsupportedShape => "unsupported export or declaration".to_owned(),
            TranspileError::SubParseFailure => "declaration could not be read back".to_owned(),
        }
    }
}

} // verus!
