//! Verified core of the IronVault escrow and vault protocol and of its
//! read-only event observer.
use vstd::prelude::*;

pub mod accounts;
pub mod codec;
pub mod constants;
pub mod error;
pub mod events;
pub mod hashing;
pub mod instructions;
pub mod laws;
pub mod observer;
pub mod pda;
pub mod policy;
pub mod pubkey;
pub mod security;
pub mod state;

verus! {

} // verus!
