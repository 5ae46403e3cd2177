use vstd::prelude::*;

verus! {

/// Failure taxonomy of the core.
///
/// Every failure surfaces upward unmodified; nothing in the core retries.
#[derive(Clone, Copy, Debug, PartialEq, Eq, Structural)]
pub enum CoreError {
    /// A filesystem read, move or rename failed. Fatal to the enclosing
    /// operation.
    IOError,
    /// An interactive prompt was interrupted or malformed. Fatal to the
    /// whole in-progress session.
    PromptError,
    /// A selected path has no extractable file-name component (for example
    /// a filesystem root). Fatal to the single operation that needed one.
    InvalidPath,
    /// An access past the collection bounds was attempted. A guard for
    /// callers outside this crate; the verified callers rule it out.
    IndexOutOfRange,
}

} // verus!
