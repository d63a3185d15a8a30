use vstd::prelude::*;

verus! {

/// The stored type tag of every record. Each persisted record begins with
/// the one-byte encoding of its kind, and a reader refuses a record whose
/// tag is not the one it expects.
#[derive(Clone, Copy, Debug, PartialEq, Eq, Structural)]
pub enum AccountType {
    Config,
    Avs,
    Operator,
    AvsVaultTicket,
    AvsOperatorTicket,
    AvsVaultSlasherTicket,
    OperatorVaultTicket,
    OperatorAvsTicket,
}

/// The byte under which each record kind is persisted.
pub open spec fn spec_tag_of(t: AccountType) -> u8 {
    match t {
        AccountType::Config => 0u8,
        AccountType::Avs => 1u8,
        AccountType::Operator => 2u8,
        AccountType::AvsVaultTicket => 3u8,
        AccountType::AvsOperatorTicket => 4u8,
        AccountType::AvsVaultSlasherTicket => 5u8,
        AccountType::OperatorVaultTicket => 6u8,
        AccountType::OperatorAvsTicket => 7u8,
    }
}

/// The record kind a stored tag byte denotes, if any.
pub open spec fn spec_type_of_tag(b: u8) -> Option<AccountType> {
    if b == 0u8 {
        Some(AccountType::Config)
    } else if b == 1u8 {
        Some(AccountType::Avs)
    } else if b == 2u8 {
        Some(AccountType::Operator)
    } else if b == 3u8 {
        Some(AccountType::AvsVaultTicket)
    } else if b == 4u8 {
        Some(AccountType::AvsOperatorTicket)
    } else if b == 5u8 {
        Some(AccountType::AvsVaultSlasherTicket)
    } else if b == 6u8 {
        Some(AccountType::OperatorVaultTicket)
    } else if b == 7u8 {
        Some(AccountType::OperatorAvsTicket)
    } else {
        None
    }
}

impl AccountType {
    /// The byte this kind is persisted under.
    pub fn tag(&self) -> (r: u8)
        ensures
            r == spec_tag_of(*self),
    {
        match self {
            AccountType::Config => 0u8,
            AccountType::Avs => 1u8,
            AccountType::Operator => 2u8,
            AccountType::AvsVaultTicket => 3u8,
            AccountType::AvsOperatorTicket => 4u8,
            AccountType::AvsVaultSlasherTicket => 5u8,
            AccountType::OperatorVaultTicket => 6u8,
            AccountType::OperatorAvsTicket => 7u8,
        }
    }

    /// Reads a kind back from its stored tag byte.
    pub fn from_tag(b: u8) -> (r: Option<AccountType>)
        ensures
            r == spec_type_of_tag(b),
    {
        if b == 0u8 {
            Some(AccountType::Config)
        } else if b == 1u8 {
            Some(AccountType::Avs)
        } else if b == 2u8 {
            Some(AccountType::Operator)
        } else if b == 3u8 {
            Some(AccountType::AvsVaultTicket)
        } else if b == 4u8 {
            Some(AccountType::AvsOperatorTicket)
        } else if b == 5u8 {
            Some(AccountType::AvsVaultSlasherTicket)
        } else if b == 6u8 {
            Some(AccountType::OperatorVaultTicket)
        } else if b == 7u8 {
            Some(AccountType::OperatorAvsTicket)
        } else {
            None
        }
    }
}

/// The tag bytes round-trip: reading back the tag a kind was written under
/// yields that kind.
pub broadcast proof fn lemma_tag_roundtrip(t: AccountType)
    ensures
        #[trigger] spec_type_of_tag(spec_tag_of(t)) == Some(t),
{
}

} // verus!
