//! Tests of the identifier, context and call-result projections.

use guest_abi::host::{
    ApplicationId, Balance, BlockHeight, BytecodeId, CalleeContext, CallResult, ChainId,
    EffectContext, EffectId, HashValue, OperationContext, QueryContext, SessionId,
    UserApplicationId,
};
use guest_abi::codec::decode_hash;
use guest_abi::{contract, queryable_system, service, writable_system};

/// A deterministic 64-byte digest for tests.
fn digest(seed: u8) -> Vec<u8> {
    (0..64u16).map(|i| (i as u8).wrapping_mul(37).wrapping_add(seed)).collect()
}

fn chain(seed: u8) -> ChainId {
    ChainId(HashValue::new(digest(seed)))
}

fn effect_id(seed: u8, height: u64, index: usize) -> EffectId {
    EffectId { chain_id: chain(seed), height: BlockHeight(height), index }
}

fn user_app(seed: u8) -> UserApplicationId {
    UserApplicationId {
        bytecode: BytecodeId(HashValue::new(digest(seed))),
        creation: effect_id(seed.wrapping_add(1), 7, 3),
    }
}

fn wire_words(h: &contract::HashValue) -> Vec<u64> {
    vec![h.part1, h.part2, h.part3, h.part4, h.part5, h.part6, h.part7, h.part8]
}

#[test]
fn chain_id_matches_hash_words() {
    let hash = HashValue::new(digest(9));
    let wire_hash = contract::HashValue::from(&hash);
    let wire_chain = contract::ChainId::from(&ChainId(hash));
    assert_eq!(
        vec![wire_chain.part1, wire_chain.part2, wire_chain.part3, wire_chain.part4,
             wire_chain.part5, wire_chain.part6, wire_chain.part7, wire_chain.part8],
        wire_words(&wire_hash),
    );
}

#[test]
fn effect_id_fields() {
    let host = effect_id(2, 42, 11);
    let wire = contract::EffectId::from(&host);
    assert_eq!(wire.height, 42);
    assert_eq!(wire.index, 11);
    let expected_chain = contract::ChainId::from(&host.chain_id);
    assert_eq!(wire.chain_id, expected_chain);
}

#[test]
fn effect_id_flavor_parity() {
    // The three flavors that carry an EffectId produce field-identical
    // output for the same input, though each is its own wire type.
    let host = effect_id(5, 1000, 65536);
    let a = contract::EffectId::from(&host);
    let b = queryable_system::EffectId::from(&host);
    let c = writable_system::EffectId::from(&host);
    assert_eq!(a.height, b.height);
    assert_eq!(a.height, c.height);
    assert_eq!(a.index, b.index);
    assert_eq!(a.index, c.index);
    let a_chain = vec![a.chain_id.part1, a.chain_id.part2, a.chain_id.part3, a.chain_id.part4,
                       a.chain_id.part5, a.chain_id.part6, a.chain_id.part7, a.chain_id.part8];
    let b_chain = vec![b.chain_id.part1, b.chain_id.part2, b.chain_id.part3, b.chain_id.part4,
                       b.chain_id.part5, b.chain_id.part6, b.chain_id.part7, b.chain_id.part8];
    let c_chain = vec![c.chain_id.part1, c.chain_id.part2, c.chain_id.part3, c.chain_id.part4,
                       c.chain_id.part5, c.chain_id.part6, c.chain_id.part7, c.chain_id.part8];
    assert_eq!(a_chain, b_chain);
    assert_eq!(a_chain, c_chain);
}

#[test]
fn user_application_round_trip() {
    // Converting a user application id and inspecting the result recovers
    // the bytecode digest and the creation effect exactly.
    let user = user_app(17);
    let wire = contract::ApplicationId::from(&ApplicationId::User(user.clone()));
    let bytecode_back = decode_hash(&wire_words(&wire.bytecode));
    assert_eq!(&bytecode_back, user.bytecode.0.as_bytes());
    assert_eq!(wire.creation.height, user.creation.height.0);
    assert_eq!(wire.creation.index, user.creation.index as u64);
    let chain_words = vec![
        wire.creation.chain_id.part1, wire.creation.chain_id.part2,
        wire.creation.chain_id.part3, wire.creation.chain_id.part4,
        wire.creation.chain_id.part5, wire.creation.chain_id.part6,
        wire.creation.chain_id.part7, wire.creation.chain_id.part8,
    ];
    let chain_back = decode_hash(&chain_words);
    assert_eq!(&chain_back, user.creation.chain_id.0.as_bytes());
}

#[test]
fn operation_context_fields() {
    let host = OperationContext { chain_id: chain(3), height: BlockHeight(12), index: 4 };
    let wire = contract::OperationContext::from(&host);
    assert_eq!(wire.height, 12);
    assert_eq!(wire.index, 4);
    assert_eq!(wire.chain_id, contract::ChainId::from(&host.chain_id));
}

#[test]
fn effect_context_fields() {
    let host = EffectContext {
        chain_id: chain(4),
        height: BlockHeight(99),
        effect_id: effect_id(6, 98, 1),
    };
    let wire = contract::EffectContext::from(&host);
    assert_eq!(wire.height, 99);
    assert_eq!(wire.chain_id, contract::ChainId::from(&host.chain_id));
    assert_eq!(wire.effect_id, contract::EffectId::from(&host.effect_id));
}

#[test]
fn callee_context_with_authenticated_caller() {
    let user = user_app(21);
    let host = CalleeContext {
        chain_id: chain(8),
        authenticated_caller_id: Some(ApplicationId::User(user.clone())),
    };
    let wire = contract::CalleeContext::from(&host);
    assert_eq!(wire.chain_id, contract::ChainId::from(&host.chain_id));
    let expected = contract::ApplicationId::from(&ApplicationId::User(user));
    assert_eq!(wire.authenticated_caller_id, Some(expected));
}

#[test]
fn callee_context_without_caller() {
    let host = CalleeContext { chain_id: chain(8), authenticated_caller_id: None };
    let wire = contract::CalleeContext::from(&host);
    assert_eq!(wire.authenticated_caller_id, None);
}

#[test]
fn query_context_fields() {
    let host = QueryContext { chain_id: chain(13) };
    let wire = service::QueryContext::from(&host);
    let expected = service::ChainId::from(&host.chain_id);
    assert_eq!(wire.chain_id, expected);
}

#[test]
fn session_id_passes_kind_and_index_through() {
    let host = SessionId {
        application_id: ApplicationId::User(user_app(30)),
        kind: 77,
        index: 123456,
    };
    let wire = writable_system::SessionId::from(&host);
    assert_eq!(wire.kind, 77);
    assert_eq!(wire.index, 123456);
    assert_eq!(
        wire.application_id,
        writable_system::ApplicationId::from(&host.application_id),
    );
}

#[test]
fn call_result_keeps_value_and_session_order() {
    // Three sessions come back in exactly the order they went in.
    let s1 = SessionId { application_id: ApplicationId::User(user_app(1)), kind: 1, index: 10 };
    let s2 = SessionId { application_id: ApplicationId::User(user_app(2)), kind: 2, index: 20 };
    let s3 = SessionId { application_id: ApplicationId::User(user_app(3)), kind: 3, index: 30 };
    let host = CallResult {
        value: b"x".to_vec(),
        sessions: vec![s1.clone(), s2.clone(), s3.clone()],
    };
    let wire = writable_system::CallResult::from(host);
    assert_eq!(wire.value, b"x".to_vec());
    assert_eq!(wire.sessions.len(), 3);
    assert_eq!(wire.sessions[0], writable_system::SessionId::from(&s1));
    assert_eq!(wire.sessions[1], writable_system::SessionId::from(&s2));
    assert_eq!(wire.sessions[2], writable_system::SessionId::from(&s3));
}

#[test]
fn call_result_empty_sessions() {
    let host = CallResult { value: Vec::new(), sessions: Vec::new() };
    let wire = writable_system::CallResult::from(host);
    assert_eq!(wire.value, Vec::<u8>::new());
    assert_eq!(wire.sessions.len(), 0);
}

#[test]
fn system_balance_both_flavors_agree() {
    let balance = Balance(0x1_0000_0000_0000_0002);
    let q = queryable_system::SystemBalance::from(balance);
    let w = writable_system::SystemBalance::from(balance);
    assert_eq!(q.lower_half, 2);
    assert_eq!(q.upper_half, 1);
    assert_eq!(q.lower_half, w.lower_half);
    assert_eq!(q.upper_half, w.upper_half);
}
