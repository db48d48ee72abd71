//! Wire types of the read-only system guest interface.
//!
//! This flavor carries what guest code sees when it reads system state:
//! identifiers and the system balance.  The records share their field
//! layout with the other flavors but are a distinct nominal surface.

use crate::codec;
use crate::host;
use vstd::prelude::*;

verus! {

/// A 64-byte digest flattened into eight little-endian words.
#[derive(Clone, Copy, Debug, PartialEq, Eq, Structural)]
pub struct HashValue {
    pub part1: u64,
    pub part2: u64,
    pub part3: u64,
    pub part4: u64,
    pub part5: u64,
    pub part6: u64,
    pub part7: u64,
    pub part8: u64,
}

impl HashValue {
    /// The words in byte-offset order.
    pub open spec fn words(self) -> Seq<u64> {
        seq![
            self.part1,
            self.part2,
            self.part3,
            self.part4,
            self.part5,
            self.part6,
            self.part7,
            self.part8,
        ]
    }

    /// The wire image of a host digest: word `k` covers bytes
    /// `[8*k, 8*k + 8)`.
    pub open spec fn of_host(host: host::HashValue) -> HashValue {
        HashValue {
            part1: codec::hash_word(host@, 0),
            part2: codec::hash_word(host@, 1),
            part3: codec::hash_word(host@, 2),
            part4: codec::hash_word(host@, 3),
            part5: codec::hash_word(host@, 4),
            part6: codec::hash_word(host@, 5),
            part7: codec::hash_word(host@, 6),
            part8: codec::hash_word(host@, 7),
        }
    }

    /// Projects a host digest into this interface's word record.
    pub fn from(host: &host::HashValue) -> (r: HashValue)
        requires
            host.wf(),
        ensures
            r == HashValue::of_host(*host),
            r.words() == codec::hash_words(host@),
    {
        let words = codec::encode_hash(&host.bytes);
        let r = HashValue {
            part1: words[0],
            part2: words[1],
            part3: words[2],
            part4: words[3],
            part5: words[4],
            part6: words[5],
            part7: words[6],
            part8: words[7],
        };
        proof {
            assert(r.words() =~= codec::hash_words(host@));
        }
        r
    }
}

/// Identifies a chain by the eight words of its digest.
#[derive(Clone, Copy, Debug, PartialEq, Eq, Structural)]
pub struct ChainId {
    pub part1: u64,
    pub part2: u64,
    pub part3: u64,
    pub part4: u64,
    pub part5: u64,
    pub part6: u64,
    pub part7: u64,
    pub part8: u64,
}

impl ChainId {
    /// The words in byte-offset order.
    pub open spec fn words(self) -> Seq<u64> {
        seq![
            self.part1,
            self.part2,
            self.part3,
            self.part4,
            self.part5,
            self.part6,
            self.part7,
            self.part8,
        ]
    }

    /// The wire image of a host chain identifier: the words of the wrapped
    /// digest.
    pub open spec fn of_host(host: host::ChainId) -> ChainId {
        ChainId {
            part1: codec::hash_word(host.0@, 0),
            part2: codec::hash_word(host.0@, 1),
            part3: codec::hash_word(host.0@, 2),
            part4: codec::hash_word(host.0@, 3),
            part5: codec::hash_word(host.0@, 4),
            part6: codec::hash_word(host.0@, 5),
            part7: codec::hash_word(host.0@, 6),
            part8: codec::hash_word(host.0@, 7),
        }
    }

    /// Projects a host chain identifier by splitting its digest.
    pub fn from(chain_id: &host::ChainId) -> (r: ChainId)
        requires
            chain_id.wf(),
        ensures
            r == ChainId::of_host(*chain_id),
            r.words() == codec::hash_words(chain_id.0@),
    {
        let hash = HashValue::from(&chain_id.0);
        ChainId {
            part1: hash.part1,
            part2: hash.part2,
            part3: hash.part3,
            part4: hash.part4,
            part5: hash.part5,
            part6: hash.part6,
            part7: hash.part7,
            part8: hash.part8,
        }
    }
}

/// Identifies an effect: chain, block height and operation index.
#[derive(Clone, Copy, Debug, PartialEq, Eq, Structural)]
pub struct EffectId {
    pub chain_id: ChainId,
    pub height: u64,
    pub index: u64,
}

impl EffectId {
    /// The wire image of a host effect identifier.
    pub open spec fn of_host(host: host::EffectId) -> EffectId {
        EffectId {
            chain_id: ChainId::of_host(host.chain_id),
            height: host.height.0,
            index: host.index as u64,
        }
    }

    /// Projects a host effect identifier; the index narrowing is exact.
    pub fn from(host: &host::EffectId) -> (r: EffectId)
        requires
            host.convertible(),
        ensures
            r == EffectId::of_host(*host),
    {
        EffectId {
            chain_id: ChainId::from(&host.chain_id),
            height: host.height.0,
            index: host.index as u64,
        }
    }
}

/// Identifies a deployed user application: its bytecode digest and the
/// effect that created it.
#[derive(Clone, Copy, Debug, PartialEq, Eq, Structural)]
pub struct ApplicationId {
    pub bytecode: HashValue,
    pub creation: EffectId,
}

impl ApplicationId {
    /// The wire image of a user application's identifier.
    pub open spec fn of_user(user: host::UserApplicationId) -> ApplicationId {
        ApplicationId {
            bytecode: HashValue::of_host(user.bytecode.0),
            creation: EffectId::of_host(user.creation),
        }
    }

    /// The wire image of a host application identifier; meaningful only for
    /// user applications, the only convertible ones.
    pub open spec fn of_host(host: host::ApplicationId) -> ApplicationId {
        ApplicationId::of_user(host.user())
    }

    /// Projects a deployed application's identifier.  The host's own
    /// pseudo-application has no wire form in any flavor: the precondition
    /// is the trust boundary, not input validation.
    pub fn from(host: &host::ApplicationId) -> (r: ApplicationId)
        requires
            host.convertible(),
        ensures
            r == ApplicationId::of_host(*host),
    {
        match host {
            host::ApplicationId::System => unreached(),
            host::ApplicationId::User(user) => ApplicationId {
                bytecode: HashValue::from(&user.bytecode.0),
                creation: EffectId::from(&user.creation),
            },
        }
    }
}

/// A 128-bit balance split into two 64-bit halves.
#[derive(Clone, Copy, Debug, PartialEq, Eq, Structural)]
pub struct SystemBalance {
    pub lower_half: u64,
    pub upper_half: u64,
}

impl SystemBalance {
    /// The wire image of a host balance: `value = upper_half * 2^64 +
    /// lower_half`.
    pub open spec fn of_host(host: host::Balance) -> SystemBalance {
        SystemBalance {
            lower_half: codec::balance_lower(host.0),
            upper_half: codec::balance_upper(host.0),
        }
    }

    /// Splits a host balance into its two halves; the split is exact over
    /// the full 128-bit range.
    pub fn from(host: host::Balance) -> (r: SystemBalance)
        ensures
            r == SystemBalance::of_host(host),
    {
        SystemBalance { lower_half: host.lower_half(), upper_half: host.upper_half() }
    }
}

} // verus!
