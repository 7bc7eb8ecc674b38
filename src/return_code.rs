use vstd::prelude::*;

verus! {

/// The result of a command as seen by the calling process.
#[derive(Clone, Copy, Debug, PartialEq, Eq, Structural)]
pub enum ReturnCode {
    /// The operation succeeded, carrying a single word.
    SuccessWithValue { value: usize },
    /// The operation succeeded (for an asynchronous one: it has started).
    SUCCESS,
    /// Generic failure, e.g. the process record could not be entered.
    FAIL,
    /// The peripheral is switched off or not yet initialized.
    EOFF,
    /// An argument is out of range.
    EINVAL,
    /// The operation is not supported.
    ENOSUPPORT,
    /// No room for another request.
    ENOMEM,
}

} // verus!
