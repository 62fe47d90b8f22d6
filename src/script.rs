use vstd::prelude::*;

use crate::calls::CallTemplate;
use crate::error::ErrorKind;
use crate::params::{
    cbor_address,
    cbor_amount_spender,
    cbor_owner_receiver_amount,
    cbor_receiver_amount,
    AllowanceParams,
    BalanceOfParams,
    TransferFromParams,
    TransferParams,
};

verus! {

/// Gas ceiling shared by every call of a script.
pub const GAS_LIMIT: u64 = 1000000000;

/// Actor id at which the contract under test is installed.
pub const ACTOR_ID: u64 = 10000;

pub const METHOD_GET_NAME: u64 = 2;

pub const METHOD_GET_SYMBOL: u64 = 3;

pub const METHOD_BALANCE_OF: u64 = 6;

pub const METHOD_TRANSFER: u64 = 7;

pub const METHOD_TRANSFER_FROM: u64 = 9;

pub const METHOD_ALLOWANCE: u64 = 10;

/// Amount moved by the transfer calls and granted by the allowance call.
pub const TOKEN_AMOUNT: u64 = 500;

/// Sender, method and parameter bytes of each call of a script.
pub open spec fn shape(t: Seq<CallTemplate>) -> Seq<(usize, u64, Seq<u8>)> {
    t.map_values(|c: CallTemplate| (c.sender, c.method, c.params@))
}

/// The token script over the given parameter encodings: account 0 queries
/// name, symbol and its balance, transfers to account 1 and lets account 1
/// spend on its behalf; account 1 then transfers from account 0.
pub open spec fn token_calls(
    balance_of: Seq<u8>,
    transfer: Seq<u8>,
    allowance: Seq<u8>,
    transfer_from: Seq<u8>,
) -> Seq<(usize, u64, Seq<u8>)> {
    seq![
        (0usize, METHOD_GET_NAME, Seq::empty()),
        (0usize, METHOD_GET_SYMBOL, Seq::empty()),
        (0usize, METHOD_BALANCE_OF, balance_of),
        (0usize, METHOD_TRANSFER, transfer),
        (0usize, METHOD_ALLOWANCE, allowance),
        (1usize, METHOD_TRANSFER_FROM, transfer_from),
    ]
}

fn template(sender: usize, method: u64, params: Vec<u8>) -> (r: CallTemplate)
    ensures
        r.sender == sender,
        r.method == method,
        r.params@ == params@,
{
    CallTemplate { sender, method, params }
}

/// The token script, given the encoded parameters of its four calls that
/// take any.
pub fn token_script_from(
    balance_of: Vec<u8>,
    transfer: Vec<u8>,
    allowance: Vec<u8>,
    transfer_from: Vec<u8>,
) -> (r: Vec<CallTemplate>)
    ensures
        shape(r@) == token_calls(balance_of@, transfer@, allowance@, transfer_from@),
{
    let ghost (b, t, a, f) = (balance_of@, transfer@, allowance@, transfer_from@);
    let mut r: Vec<CallTemplate> = Vec::new();
    r.push(template(0, METHOD_GET_NAME, Vec::new()));
    r.push(template(0, METHOD_GET_SYMBOL, Vec::new()));
    r.push(template(0, METHOD_BALANCE_OF, balance_of));
    r.push(template(0, METHOD_TRANSFER, transfer));
    r.push(template(0, METHOD_ALLOWANCE, allowance));
    r.push(template(1, METHOD_TRANSFER_FROM, transfer_from));
    assert(shape(r@) =~= token_calls(b, t, a, f));
    r
}

/// The token script for the accounts `accounts[0..3]`, with every
/// parameter tuple encoded in the order its method expects.
pub fn token_script(accounts: &Vec<String>) -> (r: Result<Vec<CallTemplate>, ErrorKind>)
    requires
        accounts.len() >= 3,
    ensures
        r is Ok,
        r matches Ok(v) ==> shape(v@) == token_calls(
            cbor_address(accounts[0]@),
            cbor_receiver_amount(accounts[1]@, TOKEN_AMOUNT),
            cbor_amount_spender(TOKEN_AMOUNT, accounts[1]@),
            cbor_owner_receiver_amount(accounts[0]@, accounts[2]@, TOKEN_AMOUNT),
        ),
{
    let balance_of = BalanceOfParams { address: accounts[0].clone() };
    let transfer = TransferParams {
        receiver_addr: accounts[1].clone(),
        transfer_amount: TOKEN_AMOUNT,
    };
    let allowance = AllowanceParams {
        wallet_addr: accounts[1].clone(),
        new_allowance: TOKEN_AMOUNT,
    };
    let transfer_from = TransferFromParams {
        owner_addr: accounts[0].clone(),
        receiver_addr: accounts[2].clone(),
        transfer_amount: TOKEN_AMOUNT,
    };
    let b = balance_of.encode()?;
    let t = transfer.encode()?;
    let a = allowance.encode()?;
    let f = transfer_from.encode()?;
    Ok(token_script_from(b, t, a, f))
}

/// The smoke-test script: account 0 queries the token's name, then its
/// symbol.
pub fn smoke_script() -> (r: Vec<CallTemplate>)
    ensures
        shape(r@) == seq![
            (0usize, METHOD_GET_NAME, Seq::<u8>::empty()),
            (0usize, METHOD_GET_SYMBOL, Seq::<u8>::empty()),
        ],
{
    let mut r: Vec<CallTemplate> = Vec::new();
    r.push(template(0, METHOD_GET_NAME, Vec::new()));
    r.push(template(0, METHOD_GET_SYMBOL, Vec::new()));
    assert(shape(r@) =~= seq![
        (0usize, METHOD_GET_NAME, Seq::<u8>::empty()),
        (0usize, METHOD_GET_SYMBOL, Seq::<u8>::empty()),
    ]);
    r
}

} // verus!
