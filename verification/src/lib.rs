//! A tip-jar ledger: named campaign records that collect incremental
//! payments from many contributors up to a configured capacity, record each
//! accepted contribution as an immutable receipt, and let the campaign owner
//! withdraw the accumulated balance and close the campaign.
//!
//! The host ledger (atomic transfers, signer authentication, record storage
//! keyed by addresses derived from seed values) is an external collaborator;
//! its storage behaviour is modelled by [`ledger::Ledger`], and the one piece
//! of it that is pure computation, address derivation, is called through
//! [`pda`].

pub mod errors;
pub mod instructions;
pub mod laws;
pub mod ledger;
pub mod pda;
pub mod states;
