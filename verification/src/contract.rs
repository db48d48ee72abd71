//! Wire types of the contract-execution guest interface.
//!
//! This flavor carries the contexts and identifiers a contract sees while it
//! executes an operation or applies an effect.  Each record is flat: nothing
//! wider than 64 bits, no tagged unions.  Every projection is one-way, exact,
//! and refuses the host's own pseudo-application by precondition.

use crate::codec;
use crate::host;
use vstd::prelude::*;

verus! {

/// A 64-byte digest flattened into eight little-endian words.
#[derive(Clone, Copy, Debug, PartialEq, Eq, Structural)]
pub struct HashValue {
    pub part1: u64,
    pub part2: u64,
    pub part3: u64,
    pub part4: u64,
    pub part5: u64,
    pub part6: u64,
    pub part7: u64,
    pub part8: u64,
}

impl HashValue {
    /// The words in byte-offset order.
    pub open spec fn words(self) -> Seq<u64> {
        seq![
            self.part1,
            self.part2,
            self.part3,
            self.part4,
            self.part5,
            self.part6,
            self.part7,
            self.part8,
        ]
    }

    /// The wire image of a host digest: word `k` covers bytes
    /// `[8*k, 8*k + 8)`.
    pub open spec fn of_host(host: host::HashValue) -> HashValue {
        HashValue {
            part1: codec::hash_word(host@, 0),
            part2: codec::hash_word(host@, 1),
            part3: codec::hash_word(host@, 2),
            part4: codec::hash_word(host@, 3),
            part5: codec::hash_word(host@, 4),
            part6: codec::hash_word(host@, 5),
            part7: codec::hash_word(host@, 6),
            part8: codec::hash_word(host@, 7),
        }
    }

    /// Projects a host digest into this interface's word record.
    pub fn from(host: &host::HashValue) -> (r: HashValue)
        requires
            host.wf(),
        ensures
            r == HashValue::of_host(*host),
            r.words() == codec::hash_words(host@),
    {
        let words = codec::encode_hash(&host.bytes);
        let r = HashValue {
            part1: words[0],
            part2: words[1],
            part3: words[2],
            part4: words[3],
            part5: words[4],
            part6: words[5],
            part7: words[6],
            part8: words[7],
        };
        proof {
            assert(r.words() =~= codec::hash_words(host@));
        }
        r
    }
}

/// Identifies a chain by the eight words of its digest.
#[derive(Clone, Copy, Debug, PartialEq, Eq, Structural)]
pub struct ChainId {
    pub part1: u64,
    pub part2: u64,
    pub part3: u64,
    pub part4: u64,
    pub part5: u64,
    pub part6: u64,
    pub part7: u64,
    pub part8: u64,
}

impl ChainId {
    /// The words in byte-offset order.
    pub open spec fn words(self) -> Seq<u64> {
        seq![
            self.part1,
            self.part2,
            self.part3,
            self.part4,
            self.part5,
            self.part6,
            self.part7,
            self.part8,
        ]
    }

    /// The wire image of a host chain identifier: the words of the wrapped
    /// digest.
    pub open spec fn of_host(host: host::ChainId) -> ChainId {
        ChainId {
            part1: codec::hash_word(host.0@, 0),
            part2: codec::hash_word(host.0@, 1),
            part3: codec::hash_word(host.0@, 2),
            part4: codec::hash_word(host.0@, 3),
            part5: codec::hash_word(host.0@, 4),
            part6: codec::hash_word(host.0@, 5),
            part7: codec::hash_word(host.0@, 6),
            part8: codec::hash_word(host.0@, 7),
        }
    }

    /// Projects a host chain identifier by splitting its digest.
    pub fn from(chain_id: &host::ChainId) -> (r: ChainId)
        requires
            chain_id.wf(),
        ensures
            r == ChainId::of_host(*chain_id),
            r.words() == codec::hash_words(chain_id.0@),
    {
        let hash = HashValue::from(&chain_id.0);
        ChainId {
            part1: hash.part1,
            part2: hash.part2,
            part3: hash.part3,
            part4: hash.part4,
            part5: hash.part5,
            part6: hash.part6,
            part7: hash.part7,
            part8: hash.part8,
        }
    }
}

/// Identifies an effect: chain, block height and operation index.
#[derive(Clone, Copy, Debug, PartialEq, Eq, Structural)]
pub struct EffectId {
    pub chain_id: ChainId,
    pub height: u64,
    pub index: u64,
}

impl EffectId {
    /// The wire image of a host effect identifier.
    pub open spec fn of_host(host: host::EffectId) -> EffectId {
        EffectId {
            chain_id: ChainId::of_host(host.chain_id),
            height: host.height.0,
            index: host.index as u64,
        }
    }

    /// Projects a host effect identifier; the index narrowing is exact.
    pub fn from(host: &host::EffectId) -> (r: EffectId)
        requires
            host.convertible(),
        ensures
            r == EffectId::of_host(*host),
    {
        EffectId {
            chain_id: ChainId::from(&host.chain_id),
            height: host.height.0,
            index: host.index as u64,
        }
    }
}

/// Identifies a deployed user application: its bytecode digest and the
/// effect that created it.
#[derive(Clone, Copy, Debug, PartialEq, Eq, Structural)]
pub struct ApplicationId {
    pub bytecode: HashValue,
    pub creation: EffectId,
}

impl ApplicationId {
    /// The wire image of a user application's identifier.
    pub open spec fn of_user(user: host::UserApplicationId) -> ApplicationId {
        ApplicationId {
            bytecode: HashValue::of_host(user.bytecode.0),
            creation: EffectId::of_host(user.creation),
        }
    }

    /// The wire image of a host application identifier; meaningful only for
    /// user applications, the only convertible ones.
    pub open spec fn of_host(host: host::ApplicationId) -> ApplicationId {
        ApplicationId::of_user(host.user())
    }

    /// Projects a deployed application's identifier.  The host's own
    /// pseudo-application has no wire form in any flavor: the precondition
    /// is the trust boundary, not input validation.
    pub fn from(host: &host::ApplicationId) -> (r: ApplicationId)
        requires
            host.convertible(),
        ensures
            r == ApplicationId::of_host(*host),
    {
        match host {
            host::ApplicationId::System => unreached(),
            host::ApplicationId::User(user) => ApplicationId {
                bytecode: HashValue::from(&user.bytecode.0),
                creation: EffectId::from(&user.creation),
            },
        }
    }
}

/// Converting a user application's identifier and inspecting the wire
/// record recovers the bytecode digest and the creation effect exactly:
/// nothing is lost on the way to the guest.
pub proof fn lemma_user_application_round_trip(user: host::UserApplicationId)
    requires
        user.convertible(),
    ensures
        codec::hash_bytes(ApplicationId::of_user(user).bytecode.words()) == user.bytecode.0@,
        codec::hash_bytes(ApplicationId::of_user(user).creation.chain_id.words())
            == user.creation.chain_id.0@,
        ApplicationId::of_user(user).creation.height == user.creation.height.0,
        ApplicationId::of_user(user).creation.index as int == user.creation.index as int,
{
    let wire = ApplicationId::of_user(user);
    assert(wire.bytecode.words() =~= codec::hash_words(user.bytecode.0@));
    codec::lemma_hash_round_trip(user.bytecode.0@);
    assert(wire.creation.chain_id.words() =~= codec::hash_words(user.creation.chain_id.0@));
    codec::lemma_hash_round_trip(user.creation.chain_id.0@);
}

/// Handle to callee-held state opened by a cross-application call.
#[derive(Clone, Copy, Debug, PartialEq, Eq, Structural)]
pub struct SessionId {
    pub application_id: ApplicationId,
    pub kind: u64,
    pub index: u64,
}

impl SessionId {
    /// The wire image of a host session handle: the owning application is
    /// projected, kind and index pass through.
    pub open spec fn of_host(host: host::SessionId) -> SessionId {
        SessionId {
            application_id: ApplicationId::of_host(host.application_id),
            kind: host.kind,
            index: host.index,
        }
    }

    /// Projects a host session handle.
    pub fn from(host: &host::SessionId) -> (r: SessionId)
        requires
            host.convertible(),
        ensures
            r == SessionId::of_host(*host),
    {
        SessionId {
            application_id: ApplicationId::from(&host.application_id),
            kind: host.kind,
            index: host.index,
        }
    }
}

/// Tells the guest which operation it is executing.
#[derive(Clone, Copy, Debug, PartialEq, Eq, Structural)]
pub struct OperationContext {
    pub chain_id: ChainId,
    pub height: u64,
    pub index: u64,
}

impl OperationContext {
    /// The wire image of a host operation context.
    pub open spec fn of_host(host: host::OperationContext) -> OperationContext {
        OperationContext {
            chain_id: ChainId::of_host(host.chain_id),
            height: host.height.0,
            index: host.index as u64,
        }
    }

    /// Projects a host operation context; the index narrowing is exact.
    pub fn from(host: &host::OperationContext) -> (r: OperationContext)
        requires
            host.convertible(),
        ensures
            r == OperationContext::of_host(*host),
    {
        OperationContext {
            chain_id: ChainId::from(&host.chain_id),
            height: host.height.0,
            index: host.index as u64,
        }
    }
}

/// Tells the guest which effect it is applying.
#[derive(Clone, Copy, Debug, PartialEq, Eq, Structural)]
pub struct EffectContext {
    pub chain_id: ChainId,
    pub height: u64,
    pub effect_id: EffectId,
}

impl EffectContext {
    /// The wire image of a host effect context.
    pub open spec fn of_host(host: host::EffectContext) -> EffectContext {
        EffectContext {
            chain_id: ChainId::of_host(host.chain_id),
            height: host.height.0,
            effect_id: EffectId::of_host(host.effect_id),
        }
    }

    /// Projects a host effect context.
    pub fn from(host: &host::EffectContext) -> (r: EffectContext)
        requires
            host.convertible(),
        ensures
            r == EffectContext::of_host(*host),
    {
        EffectContext {
            chain_id: ChainId::from(&host.chain_id),
            height: host.height.0,
            effect_id: EffectId::from(&host.effect_id),
        }
    }
}

/// Tells a cross-application callee who is calling it.
#[derive(Clone, Copy, Debug, PartialEq, Eq, Structural)]
pub struct CalleeContext {
    pub chain_id: ChainId,
    pub authenticated_caller_id: Option<ApplicationId>,
}

impl CalleeContext {
    /// The wire image of a host callee context: an absent caller stays
    /// absent, a present one is projected.
    pub open spec fn of_host(host: host::CalleeContext) -> CalleeContext {
        CalleeContext {
            chain_id: ChainId::of_host(host.chain_id),
            authenticated_caller_id: match host.authenticated_caller_id {
                Option::None => Option::None,
                Option::Some(caller) => Option::Some(ApplicationId::of_host(caller)),
            },
        }
    }

    /// Projects a host callee context; a present caller must be a user
    /// application.
    pub fn from(host: &host::CalleeContext) -> (r: CalleeContext)
        requires
            host.convertible(),
        ensures
            r == CalleeContext::of_host(*host),
    {
        CalleeContext {
            chain_id: ChainId::from(&host.chain_id),
            authenticated_caller_id: match &host.authenticated_caller_id {
                Option::None => Option::None,
                Option::Some(caller) => Option::Some(ApplicationId::from(caller)),
            },
        }
    }
}

} // verus!
