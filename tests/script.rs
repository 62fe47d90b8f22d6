use gas_bench::{
    sequence_calls, smoke_script, token_script, token_script_from, AllowanceParams,
    BalanceOfParams, CallTemplate, TransferFromParams, TransferParams, ACTOR_ID, GAS_LIMIT,
};

fn accounts() -> Vec<String> {
    vec!["t0100".to_string(), "t0101".to_string(), "t0102".to_string()]
}

#[test]
fn transfer_params_encode_receiver_then_amount() {
    let p = TransferParams { receiver_addr: "t01".to_string(), transfer_amount: 500 };
    assert_eq!(p.encode().unwrap(), vec![0x82, 0x63, b't', b'0', b'1', 0x19, 0x01, 0xf4]);
}

#[test]
fn allowance_params_encode_amount_then_spender() {
    let p = AllowanceParams { wallet_addr: "t01".to_string(), new_allowance: 500 };
    assert_eq!(p.encode().unwrap(), vec![0x82, 0x19, 0x01, 0xf4, 0x63, b't', b'0', b'1']);
}

#[test]
fn balance_of_params_encode_one_tuple() {
    let p = BalanceOfParams { address: "t01".to_string() };
    assert_eq!(p.encode().unwrap(), vec![0x81, 0x63, b't', b'0', b'1']);
}

#[test]
fn transfer_from_params_encode_owner_receiver_amount() {
    let p = TransferFromParams {
        owner_addr: "a".to_string(),
        receiver_addr: "b".to_string(),
        transfer_amount: 7,
    };
    assert_eq!(p.encode().unwrap(), vec![0x83, 0x61, b'a', 0x61, b'b', 0x07]);
}

#[test]
fn token_script_nonces_and_methods() {
    let script = token_script(&accounts()).unwrap();
    let calls = sequence_calls(&script, ACTOR_ID, GAS_LIMIT);
    assert_eq!(calls.len(), 6);
    let methods: Vec<u64> = calls.iter().map(|c| c.method).collect();
    let senders: Vec<usize> = calls.iter().map(|c| c.sender).collect();
    let nonces: Vec<u64> = calls.iter().map(|c| c.nonce).collect();
    assert_eq!(methods, vec![2, 3, 6, 7, 10, 9]);
    assert_eq!(senders, vec![0, 0, 0, 0, 0, 1]);
    assert_eq!(nonces, vec![0, 1, 2, 3, 4, 0]);
    for c in &calls {
        assert_eq!(c.to, 10000);
        assert_eq!(c.gas_limit, 1_000_000_000);
    }
    assert!(calls[0].params.is_empty());
    assert!(calls[1].params.is_empty());
}

#[test]
fn token_script_params_follow_callee_order() {
    let a = accounts();
    let script = token_script(&a).unwrap();
    let transfer = TransferParams { receiver_addr: a[1].clone(), transfer_amount: 500 };
    let allowance = AllowanceParams { wallet_addr: a[1].clone(), new_allowance: 500 };
    let from = TransferFromParams {
        owner_addr: a[0].clone(),
        receiver_addr: a[2].clone(),
        transfer_amount: 500,
    };
    let balance = BalanceOfParams { address: a[0].clone() };
    assert_eq!(script[2].params, balance.encode().unwrap());
    assert_eq!(script[3].params, transfer.encode().unwrap());
    assert_eq!(script[4].params, allowance.encode().unwrap());
    assert_eq!(script[5].params, from.encode().unwrap());
    assert_ne!(script[3].params, script[4].params);
}

#[test]
fn token_script_from_places_params() {
    let s = token_script_from(vec![1], vec![2], vec![3], vec![4]);
    let params: Vec<Vec<u8>> = s.iter().map(|c| c.params.clone()).collect();
    assert_eq!(params, vec![vec![], vec![], vec![1], vec![2], vec![3], vec![4]]);
}

#[test]
fn first_transfer_of_a_sender_has_nonce_zero() {
    let transfer = TransferParams { receiver_addr: "t0101".to_string(), transfer_amount: 500 };
    let script = vec![
        CallTemplate { sender: 1, method: 2, params: vec![] },
        CallTemplate { sender: 1, method: 3, params: vec![] },
        CallTemplate { sender: 2, method: 2, params: vec![] },
        CallTemplate { sender: 0, method: 7, params: transfer.encode().unwrap() },
        CallTemplate { sender: 0, method: 2, params: vec![] },
        CallTemplate { sender: 1, method: 6, params: vec![] },
    ];
    let calls = sequence_calls(&script, ACTOR_ID, GAS_LIMIT);
    assert_eq!(calls[3].sender, 0);
    assert_eq!(calls[3].method, 7);
    assert_eq!(calls[3].nonce, 0);
    let nonces: Vec<u64> = calls.iter().map(|c| c.nonce).collect();
    assert_eq!(nonces, vec![0, 1, 0, 0, 1, 2]);
}

#[test]
fn empty_script_sequences_to_nothing() {
    assert!(sequence_calls(&vec![], ACTOR_ID, GAS_LIMIT).is_empty());
}

#[test]
fn smoke_script_nonces() {
    let calls = sequence_calls(&smoke_script(), ACTOR_ID, GAS_LIMIT);
    let summary: Vec<(usize, u64, u64)> =
        calls.iter().map(|c| (c.sender, c.method, c.nonce)).collect();
    assert_eq!(summary, vec![(0, 2, 0), (0, 3, 1)]);
}
