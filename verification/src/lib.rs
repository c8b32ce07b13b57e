//! A custody-and-exchange protocol: an initializer locks two asset accounts
//! under a keyless authority, takers swap against the deposit at a fixed
//! rate, and the initializer may cancel to get the accounts back.
//!
//! The three instructions decide on the accounts they are given and say what
//! the ledger is to do; the ledger itself, its signatures and its storage are
//! not part of this crate.

pub mod address;
pub mod cancel;
pub mod context;
pub mod error;
pub mod exchange;
pub mod initialize;
pub mod pda;
pub mod state;
pub mod theorems;
pub mod token;
pub mod trim;

pub use crate::address::Address;
pub use crate::cancel::cancel_escrow;
pub use crate::cancel::CancelEscrow;
pub use crate::cancel::Release;
pub use crate::context::Context;
pub use crate::error::ErrorCode;
pub use crate::exchange::exchange;
pub use crate::exchange::Exchange;
pub use crate::exchange::Settlement;
pub use crate::initialize::initialize_escrow;
pub use crate::initialize::Handover;
pub use crate::initialize::InitializeEscrow;
pub use crate::pda::custody_authority;
pub use crate::pda::record_address;
pub use crate::pda::ProgramAddress;
pub use crate::pda::ESCROW_PDA_SEED;
pub use crate::pda::STATE_PDA_SEED;
pub use crate::state::pad_name;
pub use crate::state::EscrowAccount;
pub use crate::state::RecordSlot;
pub use crate::state::StateBumps;
pub use crate::token::SetAuthority;
pub use crate::token::TokenAccount;
pub use crate::token::Transfer;
pub use crate::trim::TrimAsciiWhitespace;
