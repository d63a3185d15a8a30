use vstd::prelude::*;

verus! {

/// The failure kinds of the library. Every validation or state-machine
/// violation aborts the whole operation with one of these; no partial
/// mutation survives a failure.
#[derive(Clone, Copy, Debug, PartialEq, Eq, Structural)]
pub enum RestakingError {
    /// A storage region was empty where an initialized record was expected.
    UninitializedRecord,
    /// A region is not owned by this program.
    OwnershipMismatch,
    /// A record's stored type tag (or its overall shape) is not the expected one.
    TypeMismatch,
    /// Re-deriving the record's address from its stored seeds disagrees with
    /// the physical address the record was read from.
    AddressMismatch,
    /// The signer is not the record's admin, a required signature is absent,
    /// or a region that must be written was not marked writable.
    AuthorizationFailure,
    /// An add on an already-active edge, or a remove on an inactive edge,
    /// or a transition whose slot runs backwards.
    InvalidStateTransition,
    /// An edge counter or ordinal index would exceed the representable range.
    CounterOverflow,
    /// A creation targeted an address that is already occupied.
    AlreadyExists,
}

/// The human-readable description of each failure kind.
pub open spec fn spec_message(e: RestakingError) -> Seq<char> {
    match e {
        RestakingError::UninitializedRecord => "record is not initialized"@,
        RestakingError::OwnershipMismatch => "record is not owned by this program"@,
        RestakingError::TypeMismatch => "record has the wrong type tag or shape"@,
        RestakingError::AddressMismatch => "record address does not match its seeds"@,
        RestakingError::AuthorizationFailure => "signer is not authorized for this record"@,
        RestakingError::InvalidStateTransition => "the edge is not in a state that allows this transition"@,
        RestakingError::CounterOverflow => "an edge counter would overflow"@,
        RestakingError::AlreadyExists => "a record already exists at this address"@,
    }
}

impl RestakingError {
    /// A human-readable description of the failure.
    pub fn message(&self) -> (r: &'static str)
        ensures
            r@ == spec_message(*self),
            r@.len() > 0,
    {
        proof {
            reveal_strlit("record is not initialized");
            reveal_strlit("record is not owned by this program");
            reveal_strlit("record has the wrong type tag or shape");
            reveal_strlit("record address does not match its seeds");
            reveal_strlit("signer is not authorized for this record");
            reveal_strlit("the edge is not in a state that allows this transition");
            reveal_strlit("an edge counter would overflow");
            reveal_strlit("a record already exists at this address");
        }
        match self {
            RestakingError::UninitializedRecord => "record is not initialized",
            RestakingError::OwnershipMismatch => "record is not owned by this program",
            RestakingError::TypeMismatch => "record has the wrong type tag or shape",
            RestakingError::AddressMismatch => "record address does not match its seeds",
            RestakingError::AuthorizationFailure => "signer is not authorized for this record",
            RestakingError::InvalidStateTransition => "the edge is not in a state that allows this transition",
            RestakingError::CounterOverflow => "an edge counter would overflow",
            RestakingError::AlreadyExists => "a record already exists at this address",
        }
    }
}

} // verus!
