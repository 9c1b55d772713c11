use vstd::prelude::*;

verus! {

/// Every failure the settlement engine reports to its caller.
#[derive(Clone, Copy, Debug, PartialEq, Eq, Structural)]
pub enum SettlementError {
    /// A computed amount does not fit the 64-bit width of an asset amount.
    ArithmeticOverflow,
    /// The pool holds less of an asset than the operation would take out.
    InsufficientLiquidity,
    /// A zero or malformed amount, rejected before anything changes.
    InvalidAmount,
    /// The note was already consumed by someone else.
    NoteAlreadyConsumed,
    /// The awaited note or transaction did not appear within the retry budget.
    VisibilityTimeout,
    /// The consumer could not prove ownership of the note's target account.
    AuthenticationFailure,
    /// No note with this identifier exists.
    UnknownNote,
    /// The note is not in the lifecycle state that the operation starts from.
    InvalidTransition,
    /// The note was never consumed and is now retired.
    NoteExpired,
    /// No routing tag can be formed for the requested routing.
    InvalidTag,
    /// The note carries a different kind of request than the operation expects.
    WrongNoteKind,
}

} // verus!
