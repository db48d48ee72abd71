//! The host's domain types.
//!
//! These are the rich identifier, context and value types that the trusted
//! execution host builds for each guest call.  Every value here originates
//! from the host, never from guest-controlled input; the `convertible`
//! predicates below state exactly which values may be projected into a
//! guest-visible wire form.  In particular [`ApplicationId::System`], the
//! host's own privileged pseudo-application, is convertible in no flavor.

use crate::codec;
use vstd::prelude::*;

verus! {

/// A 64-byte cryptographic digest, the payload of every identifier.
#[derive(Clone, Debug, PartialEq, Eq)]
pub struct HashValue {
    pub bytes: Vec<u8>,
}

impl View for HashValue {
    type V = Seq<u8>;

    open spec fn view(&self) -> Seq<u8> {
        self.bytes@
    }
}

impl HashValue {
    /// A digest is well formed when it holds exactly 64 bytes; anything
    /// else is a host-side bug, not a runtime condition.
    pub open spec fn wf(self) -> bool {
        self.bytes@.len() == 64
    }

    /// Wraps raw digest bytes; the caller owes exactly 64 of them.
    pub fn new(bytes: Vec<u8>) -> (r: HashValue)
        requires
            bytes@.len() == 64,
        ensures
            r@ == bytes@,
            r.wf(),
    {
        HashValue { bytes }
    }

    /// Read access to the digest bytes.
    pub fn as_bytes(&self) -> (r: &Vec<u8>)
        ensures
            r@ == self@,
    {
        &self.bytes
    }
}

/// Identifies one independently-sequenced ledger by a digest.
#[derive(Clone, Debug, PartialEq, Eq)]
pub struct ChainId(pub HashValue);

impl ChainId {
    pub open spec fn wf(self) -> bool {
        self.0.wf()
    }
}

/// Position of a block in its chain.
#[derive(Clone, Copy, Debug, PartialEq, Eq)]
pub struct BlockHeight(pub u64);

/// Identifies an effect by the chain, height and operation index that
/// produced it.
#[derive(Clone, Debug, PartialEq, Eq)]
pub struct EffectId {
    pub chain_id: ChainId,
    pub height: BlockHeight,
    pub index: usize,
}

impl EffectId {
    /// The wire projection narrows `index` to 64 bits; the narrowing must
    /// be exact.
    pub open spec fn convertible(self) -> bool {
        self.chain_id.wf() && self.index <= u64::MAX
    }
}

/// Identifies deployed bytecode by its digest.
#[derive(Clone, Debug, PartialEq, Eq)]
pub struct BytecodeId(pub HashValue);

/// Identifies a deployed user application by the hash of its bytecode and
/// the effect that created it.
#[derive(Clone, Debug, PartialEq, Eq)]
pub struct UserApplicationId {
    pub bytecode: BytecodeId,
    pub creation: EffectId,
}

impl UserApplicationId {
    pub open spec fn convertible(self) -> bool {
        self.bytecode.0.wf() && self.creation.convertible()
    }
}

/// An application known to the host: either the host's own privileged
/// pseudo-application or a deployed user application.
#[derive(Clone, Debug, PartialEq, Eq)]
pub enum ApplicationId {
    /// The host's internal pseudo-application.  It must never be shown to
    /// sandboxed code in any guest-visible form.
    System,
    /// A deployed contract.
    User(UserApplicationId),
}

impl ApplicationId {
    /// Whether this application may cross the sandbox boundary.  Only user
    /// applications may: this predicate is the trust boundary, and every
    /// flavor's projection requires it.
    pub open spec fn convertible(self) -> bool {
        self matches ApplicationId::User(user) && user.convertible()
    }

    /// The user-application payload.
    pub open spec fn user(self) -> UserApplicationId
        recommends
            self is User,
    {
        self->User_0
    }
}

/// The host's own pseudo-application never satisfies the precondition of
/// any guest projection: converting it is statically impossible rather
/// than a runtime check.
pub proof fn lemma_system_never_convertible()
    ensures
        !ApplicationId::System.convertible(),
{
}

/// Handle to callee-held state opened by a cross-application call.
#[derive(Clone, Debug, PartialEq, Eq)]
pub struct SessionId {
    pub application_id: ApplicationId,
    pub kind: u64,
    pub index: u64,
}

impl SessionId {
    pub open spec fn convertible(self) -> bool {
        self.application_id.convertible()
    }
}

/// Identifies the operation currently executing.
#[derive(Clone, Debug, PartialEq, Eq)]
pub struct OperationContext {
    pub chain_id: ChainId,
    pub height: BlockHeight,
    pub index: usize,
}

impl OperationContext {
    pub open spec fn convertible(self) -> bool {
        self.chain_id.wf() && self.index <= u64::MAX
    }
}

/// Identifies the effect currently being applied.
#[derive(Clone, Debug, PartialEq, Eq)]
pub struct EffectContext {
    pub chain_id: ChainId,
    pub height: BlockHeight,
    pub effect_id: EffectId,
}

impl EffectContext {
    pub open spec fn convertible(self) -> bool {
        self.chain_id.wf() && self.effect_id.convertible()
    }
}

/// Context handed to the callee of a cross-application call.
#[derive(Clone, Debug, PartialEq, Eq)]
pub struct CalleeContext {
    pub chain_id: ChainId,
    pub authenticated_caller_id: Option<ApplicationId>,
}

impl CalleeContext {
    pub open spec fn convertible(self) -> bool {
        &&& self.chain_id.wf()
        &&& self.authenticated_caller_id matches Some(caller) ==> caller.convertible()
    }
}

/// Context handed to a read-only query.
#[derive(Clone, Debug, PartialEq, Eq)]
pub struct QueryContext {
    pub chain_id: ChainId,
}

impl QueryContext {
    pub open spec fn convertible(self) -> bool {
        self.chain_id.wf()
    }
}

/// Return payload of a cross-application call: raw bytes plus the session
/// handles the call opened, in order.
#[derive(Clone, Debug, PartialEq, Eq)]
pub struct CallResult {
    pub value: Vec<u8>,
    pub sessions: Vec<SessionId>,
}

impl CallResult {
    pub open spec fn convertible(self) -> bool {
        forall|i: int| 0 <= i < self.sessions@.len() ==> self.sessions@[i].convertible()
    }
}

/// A 128-bit unsigned balance.
#[derive(Clone, Copy, Debug, PartialEq, Eq)]
pub struct Balance(pub u128);

impl Balance {
    /// The 64 most significant bits of the balance.
    pub fn upper_half(self) -> (r: u64)
        ensures
            r == codec::balance_upper(self.0),
    {
        let value = self.0;
        proof {
            assert(value >> 64u128 == value / 0x1_0000_0000_0000_0000u128) by (bit_vector);
        }
        (value >> 64) as u64
    }

    /// The 64 least significant bits of the balance.
    pub fn lower_half(self) -> (r: u64)
        ensures
            r == codec::balance_lower(self.0),
    {
        let value = self.0;
        proof {
            assert(value & 0xFFFF_FFFF_FFFF_FFFFu128 == value
                % 0x1_0000_0000_0000_0000u128) by (bit_vector);
        }
        (value & 0xFFFF_FFFF_FFFF_FFFF) as u64
    }

    /// Recombines two halves into the unique balance they encode; the exact
    /// inverse of the split.
    pub fn from_halves(lower: u64, upper: u64) -> (r: Balance)
        ensures
            r.0 == codec::balance_value(lower, upper),
    {
        Balance((upper as u128) * 0x1_0000_0000_0000_0000 + (lower as u128))
    }
}

} // verus!
