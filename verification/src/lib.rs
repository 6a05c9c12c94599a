use vstd::prelude::*;

/// Numbers drawn by chance.
pub mod chance;
/// The tally of command uses.
pub mod counter;
/// What the general commands answer.
pub mod general;
/// The ledger of warnings.
pub mod ledger;
/// Mentions of users in command arguments.
pub mod mention;
/// What the moderation commands answer.
pub mod moderation;
/// The pictures that the picture commands send.
pub mod pictures;
/// How a record of warnings is kept in a file.
pub mod storage;
/// Characters, strings and numerals.
pub mod text;
/// Instants of the wall clock.
pub mod timestamp;
/// What the weather commands ask and answer.
pub mod weather;

verus! {

/// Why an operation of this library did not produce its result.
#[derive(Clone, Copy, Debug, PartialEq, Eq, Structural)]
pub enum FailureKind {
    /// The argument does not mention a user.
    MalformedMention,
    /// Stable storage could not be opened, read or written.
    StorageUnavailable,
    /// Nothing is on file under the key.
    NotFound,
}

} // verus!
