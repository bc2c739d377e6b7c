use vstd::prelude::*;

verus! {

/// Communication-class failure against the card: a radio or protocol fault,
/// or the card rejecting the sector handshake (as it does on a wrong key).
/// In both cases no sector data is exposed.
#[derive(Clone, Copy, PartialEq, Eq, Structural, Debug)]
pub enum CommError {
    /// The radio exchange itself failed (noise, card pulled away, wedged bus).
    Radio,
    /// The card refused the sector handshake: the presented key is not the
    /// key the sector was provisioned with.
    Rejected,
}

/// Outcome class of one tag-detection attempt at the reader.
#[derive(Clone, Copy, PartialEq, Eq, Structural, Debug)]
pub enum TagError {
    /// The reader exchange failed.
    Comm(CommError),
    /// A tag answered but is not of the supported card family; silently
    /// discarded by the operating loop.
    InvalidTag,
}

/// Failure classes of one verification attempt, kept distinguishable so the
/// operating loop can apply a different recovery policy to each.
#[derive(Clone, Copy, PartialEq, Eq, Structural, Debug)]
pub enum AuthError<E> {
    /// Communication with the tag failed (retryable at the loop level).
    Tag(CommError),
    /// A fault outside the tag exchange, typically a data-integrity fault in
    /// the persisted record.
    Other(E),
    /// Unknown tag identifier or secret mismatch: deny, no escalation.
    InvalidCredentials,
}

impl AuthError<DatabaseError> {
    /// The operator-facing description of this failure (the library's types
    /// carry no `Display`; callers print this instead).
    pub fn message(&self) -> (r: &'static str)
        ensures
            match *self {
                AuthError::Tag(_) => r@ == "communication with tag failed"@,
                AuthError::Other(e) => r@ == e.message_spec(),
                AuthError::InvalidCredentials => r@ == "invalid credentials"@,
            },
    {
        match self {
            AuthError::Tag(_) => "communication with tag failed",
            AuthError::Other(e) => e.message(),
            AuthError::InvalidCredentials => "invalid credentials",
        }
    }
}

/// Data-integrity faults found while decoding a persisted credential row.
#[derive(Clone, Copy, PartialEq, Eq, Structural, Debug)]
pub enum DatabaseError {
    /// The packed `auth_data` names a sector the card does not have.
    InvalidSector,
    /// The packed `auth_data` is not exactly 23 bytes long.
    InvalidLength,
}

impl DatabaseError {
    /// The description `message` returns, as a spec-level value.
    pub open spec fn message_spec(&self) -> Seq<char> {
        match *self {
            DatabaseError::InvalidSector => "Data in database contain invalid sector number."@,
            DatabaseError::InvalidLength => "Data in database has invalid length."@,
        }
    }

    /// The operator-facing description of this data-integrity fault.
    pub fn message(&self) -> (r: &'static str)
        ensures
            r@ == self.message_spec(),
    {
        match self {
            DatabaseError::InvalidSector => "Data in database contain invalid sector number.",
            DatabaseError::InvalidLength => "Data in database has invalid length.",
        }
    }
}

/// Faults of the credential store itself.
#[derive(Clone, Copy, PartialEq, Eq, Structural, Debug)]
pub enum StoreError {
    /// The credential's `auth_data` is not exactly 23 bytes long.
    InvalidEncoding,
    /// No stored row carries the given tag identifier.
    NotFound,
    /// A stored row already carries the given tag identifier: at most one
    /// credential per tag is live at a time.
    Duplicate,
}

/// Failure classes of one enrollment attempt.
#[derive(Clone, Copy, PartialEq, Eq, Structural, Debug)]
pub enum EnrollError {
    /// A card exchange failed; if it failed after the provisional insert the
    /// store keeps the recovery row.
    Comm(CommError),
    /// The credential store refused an insert or update.
    Store(StoreError),
    /// The secure random source yielded no payload; nothing was changed.
    Entropy,
}

} // verus!
