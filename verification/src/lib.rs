//! Marshalling layer between a trusted blockchain host and sandboxed guest
//! modules.
//!
//! The host's rich identifier and execution-context types must cross into a
//! sandboxed guest through a calling convention limited to flat records of
//! 64-bit primitives.  This crate provides:
//!
//! - a wide-value codec that splits 64-byte digests into eight little-endian
//!   words and 128-bit balances into two halves, losslessly in both
//!   directions ([`codec`]);
//! - one-way projections of the host's identifiers and contexts into each
//!   guest interface flavor ([`contract`], [`service`], [`queryable_system`],
//!   [`writable_system`]), enforcing the trust boundary that the host's own
//!   pseudo-application is never guest-visible;
//! - the recoverable error convention for monotonic counters ([`error`]).

use vstd::prelude::*;

pub mod codec;
pub mod contract;
pub mod error;
pub mod host;
pub mod queryable_system;
pub mod service;
pub mod writable_system;

verus! {

/// For one host effect identifier, the contract-execution, read-only and
/// state-mutating flavors carry field-identical wire records — same chain
/// words, same height, same index — although each is a distinct nominal
/// type at its own interface.
pub proof fn lemma_effect_id_flavor_parity(effect_id: host::EffectId)
    ensures
        contract::EffectId::of_host(effect_id).chain_id.words() == queryable_system::EffectId::of_host(
            effect_id,
        ).chain_id.words(),
        contract::EffectId::of_host(effect_id).chain_id.words() == writable_system::EffectId::of_host(
            effect_id,
        ).chain_id.words(),
        contract::EffectId::of_host(effect_id).height == queryable_system::EffectId::of_host(
            effect_id,
        ).height,
        contract::EffectId::of_host(effect_id).height == writable_system::EffectId::of_host(
            effect_id,
        ).height,
        contract::EffectId::of_host(effect_id).index == queryable_system::EffectId::of_host(
            effect_id,
        ).index,
        contract::EffectId::of_host(effect_id).index == writable_system::EffectId::of_host(
            effect_id,
        ).index,
{
    assert(contract::EffectId::of_host(effect_id).chain_id.words()
        =~= queryable_system::EffectId::of_host(effect_id).chain_id.words());
    assert(contract::EffectId::of_host(effect_id).chain_id.words()
        =~= writable_system::EffectId::of_host(effect_id).chain_id.words());
}

} // verus!
