use vstd::prelude::*;

verus! {

/// The failures of the sharding workflow, one per cause.
#[derive(PartialEq, Eq, Structural, Clone, Copy, Debug)]
pub enum SssError {
    /// The threshold is zero or larger than the number of shards.
    InvalidThreshold,
    /// The caller's message is not the text of one JSON object.
    MalformedInput,
    /// No signing key is stored for the owner.
    KeyNotFound,
    /// The stored signing key is not a base58 text of a 64-byte key.
    DecodeError,
    /// The split primitive refused its parameters.
    SplitFailure,
    /// The storage backend failed to write.
    StorageError,
    /// No shard collection is stored for the owner.
    NotFound,
    /// A shard collection is not a valid JSON array of shards.
    ParseError,
    /// No shard of the collection carries the requested index.
    IndexOutOfRange,
    /// The shards handed in cannot be combined (too few, or unusable).
    RecoveryFailure,
    /// The recovered secret is not UTF-8 text.
    EncodingError,
}

} // verus!
