//! A verified core for a restaking trust graph: deterministically addressed
//! records for a configuration singleton, service and operator entities, and
//! the relationship tickets (edges) they opt into, together with the checked
//! account-access protocol and the per-operation processors.

// Foundations: identities, storage regions, byte codec, record tags, seeds.
pub mod account_type;
pub mod codec;
pub mod error;
pub mod pubkey;
pub mod region;
pub mod seeds;

// Address derivation, resting on the runtime's derivation functions.
pub mod pda;

// The records and their checked-access handles.
pub mod avs;
pub mod config;
pub mod operator;
pub mod sanitization;
pub mod ticket;

// The shared edge state machine and the per-operation processors.
pub mod engine;
pub mod operator_remove_vault;
pub mod processor;

// The library-wide laws, stated and proved over the specifications above.
pub mod laws;
