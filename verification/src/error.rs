use vstd::prelude::*;

verus! {

/// Diagnostic value describing why a sizing or allocation step failed.
///
/// It carries a human-readable message only; the failure cases (a layout that
/// cannot be computed, an allocator that reports failure) are not told apart
/// structurally.
#[derive(Debug)]
pub struct ArrayError(pub String);

impl ArrayError {
    /// The diagnostic message carried by this error.
    pub fn message(&self) -> (m: &String)
        ensures
            m@ == self.0@,
    {
        &self.0
    }
}

} // verus!
