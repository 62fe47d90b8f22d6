use vstd::prelude::*;

verus! {

/// Initial state of the token contract, written once before deployment.
pub struct State {
    pub name: String,
    pub symbol: String,
    pub decimals: u8,
    pub total_supply: u64,
    pub balances: Vec<(String, u64)>,
    pub allowed: Vec<(String, u64)>,
}

/// No address is listed twice.
pub open spec fn keys_unique(entries: Seq<(String, u64)>) -> bool {
    forall|i: int, j: int| 0 <= i < j < entries.len() ==> entries[i].0@ != entries[j].0@
}

impl State {
    /// Balances and allowances are each keyed by distinct addresses.
    pub open spec fn wf(&self) -> bool {
        keys_unique(self.balances@) && keys_unique(self.allowed@)
    }
}

/// One line of a funding plan: account `account` starts with `amount`
/// tokens.
#[derive(Clone, Copy, Debug, PartialEq, Eq, Structural)]
pub struct Funding {
    pub account: usize,
    pub amount: u64,
}

/// The addresses that `funding` gives tokens to are distinct accounts of
/// `accounts`.
pub open spec fn funding_fits(accounts: Seq<String>, funding: Seq<Funding>) -> bool {
    &&& forall|i: int| 0 <= i < funding.len() ==> #[trigger] funding[i].account < accounts.len()
    &&& forall|i: int, j: int|
        0 <= i < j < funding.len() ==> accounts[funding[i].account as int]@
            != accounts[funding[j].account as int]@
}

/// The initial token state: the given metadata, a balance for each line of
/// the funding plan in plan order, and no allowances.
pub fn token_state(
    name: String,
    symbol: String,
    decimals: u8,
    total_supply: u64,
    accounts: &Vec<String>,
    funding: &Vec<Funding>,
) -> (r: State)
    requires
        funding_fits(accounts@, funding@),
    ensures
        r.wf(),
        r.name == name,
        r.symbol == symbol,
        r.decimals == decimals,
        r.total_supply == total_supply,
        r.balances.len() == funding.len(),
        forall|i: int|
            0 <= i < funding.len() ==> {
                &&& (#[trigger] r.balances[i]).0@ == accounts[funding[i].account as int]@
                &&& r.balances[i].1 == funding[i].amount
            },
        r.allowed.len() == 0,
{
    let mut balances: Vec<(String, u64)> = Vec::new();
    let mut i: usize = 0;
    while i < funding.len()
        invariant
            i <= funding.len(),
            funding_fits(accounts@, funding@),
            balances.len() == i,
            forall|k: int|
                0 <= k < i ==> {
                    &&& (#[trigger] balances[k]).0@ == accounts[funding[k].account as int]@
                    &&& balances[k].1 == funding[k].amount
                },
        decreases funding.len() - i,
    {
        let line = funding[i];
        let address = accounts[line.account].clone();
        balances.push((address, line.amount));
        i = i + 1;
    }
    let r = State { name, symbol, decimals, total_supply, balances, allowed: Vec::new() };
    assert(keys_unique(r.balances@)) by {
        assert forall|a: int, b: int| 0 <= a < b < r.balances.len() implies r.balances@[a].0@
            != r.balances@[b].0@ by {
            assert(r.balances[a].0@ == accounts[funding[a].account as int]@);
            assert(r.balances[b].0@ == accounts[funding[b].account as int]@);
        }
    }
    r
}

} // verus!
