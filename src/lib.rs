//! Session and identity layer of a home-node protocol: profiles and their
//! relation proofs, a hosting home with its sessions, bounded call channels,
//! and the gateway that drives them on behalf of one local profile.
use vstd::prelude::*;

pub mod bytes;
pub mod channel;
pub mod codec;
pub mod dapp;
pub mod error;
pub mod fixture;
pub mod gateway;
pub mod home;
pub mod identity;
pub mod idmap;
pub mod rpc;
pub mod service;
pub mod signer;
pub mod store;

verus! {

} // verus!
