use vstd::prelude::*;

verus! {

/// Errors that translation reports for malformed or unsupported input.
#[derive(Clone, Copy, Debug, PartialEq, Eq, Structural)]
pub enum TranslationError {
    /// The requested entry function is not defined by the program.
    UnknownEntryPoint,
    /// A referenced attribute variable is not declared in the block.
    UndeclaredAttribute,
    /// An attribute variable of that name is already declared.
    DuplicateAttribute,
}

} // verus!
