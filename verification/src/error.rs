use vstd::prelude::*;

verus! {

/// The ways a decode can fail.
///
/// Every failure is returned as data; no decoder panics or aborts.
#[derive(Debug, Clone, Copy, PartialEq, Eq, Structural)]
pub enum DecodeError {
    /// Fewer bytes remain in the buffer than the next field or entity requires.
    Underflow,
    /// The bytes before a string terminator are not valid UTF-8.
    MalformedText,
    /// A recognized message tag that has no decode path; carries the raw tag.
    UnsupportedMessageType(u16),
}

} // verus!
