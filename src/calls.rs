use vstd::prelude::*;

verus! {

/// One entry of a call script before nonces are assigned: who sends it,
/// which method it selects and its encoded parameters.
pub struct CallTemplate {
    pub sender: usize,
    pub method: u64,
    pub params: Vec<u8>,
}

/// A fully specified call, ready to hand to the execution engine.
pub struct CallSpec {
    pub sender: usize,
    pub to: u64,
    pub gas_limit: u64,
    pub method: u64,
    pub nonce: u64,
    pub params: Vec<u8>,
}

/// How many calls of `t` are sent by account `s`.
pub open spec fn sent_by(t: Seq<CallTemplate>, s: usize) -> nat
    decreases t.len(),
{
    if t.len() == 0 {
        0
    } else {
        sent_by(t.drop_last(), s) + if t.last().sender == s {
            1nat
        } else {
            0nat
        }
    }
}

/// `r` is the script `t` addressed to `to` with gas ceiling `gas_limit`,
/// each call carrying the number of earlier calls from its own sender as
/// its nonce.
pub open spec fn sequenced(t: Seq<CallTemplate>, r: Seq<CallSpec>, to: u64, gas_limit: u64) -> bool {
    &&& r.len() == t.len()
    &&& forall|i: int|
        #![trigger r[i]]
        0 <= i < r.len() ==> {
            &&& r[i].sender == t[i].sender
            &&& r[i].to == to
            &&& r[i].gas_limit == gas_limit
            &&& r[i].method == t[i].method
            &&& r[i].params@ == t[i].params@
            &&& r[i].nonce == sent_by(t.take(i), t[i].sender)
        }
}

proof fn lemma_sent_by_step(t: Seq<CallTemplate>, i: int, s: usize)
    requires
        0 <= i < t.len(),
    ensures
        sent_by(t.take(i + 1), s) == sent_by(t.take(i), s) + if t[i].sender == s {
            1nat
        } else {
            0nat
        },
{
    assert(t.take(i + 1).drop_last() =~= t.take(i));
}

/// Assigns per-sender nonces to a call script: the first call from an
/// account gets nonce 0 and each later call from the same account the next
/// number, independently of the other accounts.
pub fn sequence_calls(templates: &Vec<CallTemplate>, to: u64, gas_limit: u64) -> (r: Vec<CallSpec>)
    ensures
        sequenced(templates@, r@, to, gas_limit),
{
    let mut out: Vec<CallSpec> = Vec::new();
    let mut i: usize = 0;
    while i < templates.len()
        invariant
            i <= templates.len(),
            sequenced(templates@.take(i as int), out@, to, gas_limit),
        decreases templates.len() - i,
    {
        let sender = templates[i].sender;
        let mut count: usize = 0;
        let mut j: usize = 0;
        while j < i
            invariant
                j <= i < templates.len(),
                count == sent_by(templates@.take(j as int), sender),
                count <= j,
            decreases i - j,
        {
            proof {
                lemma_sent_by_step(templates@, j as int, sender);
            }
            if templates[j].sender == sender {
                count = count + 1;
            }
            j = j + 1;
        }
        let params = templates[i].params.clone();
        assert(params@ =~= templates@[i as int].params@);
        let call = CallSpec {
            sender,
            to,
            gas_limit,
            method: templates[i].method,
            nonce: count as u64,
            params,
        };
        let ghost prev = out@;
        out.push(call);
        proof {
            let t1 = templates@.take(i as int + 1);
            assert(t1.take(i as int) =~= templates@.take(i as int));
            assert forall|k: int| 0 <= k < out.len() implies {
                &&& #[trigger] out@[k].sender == t1[k].sender
                &&& out@[k].to == to
                &&& out@[k].gas_limit == gas_limit
                &&& out@[k].method == t1[k].method
                &&& out@[k].params@ == t1[k].params@
                &&& out@[k].nonce == sent_by(t1.take(k), t1[k].sender)
            } by {
                if k < i {
                    assert(out@[k] == prev[k]);
                    assert(t1.take(k) =~= templates@.take(i as int).take(k));
                }
            }
        }
        i = i + 1;
    }
    assert(templates@.take(templates.len() as int) =~= templates@);
    out
}

/// The calls of a script that account `s` sends.
pub open spec fn calls_from(r: Seq<CallSpec>, s: usize) -> Seq<CallSpec> {
    r.filter(|c: CallSpec| c.sender == s)
}

proof fn lemma_prefix_nonces(
    t: Seq<CallTemplate>,
    r: Seq<CallSpec>,
    to: u64,
    gas_limit: u64,
    s: usize,
    n: int,
)
    requires
        sequenced(t, r, to, gas_limit),
        0 <= n <= r.len(),
    ensures
        calls_from(r.take(n), s).len() == sent_by(t.take(n), s),
        forall|k: int|
            0 <= k < calls_from(r.take(n), s).len() ==> #[trigger] calls_from(r.take(n), s)[k].nonce
                == k,
    decreases n,
{
    reveal(Seq::filter);
    if n > 0 {
        lemma_prefix_nonces(t, r, to, gas_limit, s, n - 1);
        lemma_sent_by_step(t, n - 1, s);
        let p = r.take(n);
        assert(p.drop_last() =~= r.take(n - 1));
        assert(p.last() == r[n - 1]);
        assert(r[n - 1].sender == t[n - 1].sender);
    }
}

/// Within one sequenced script, the calls of any single sender, taken in
/// order, carry the nonces 0, 1, 2, and so on.
pub proof fn lemma_sender_nonces_count_up(
    t: Seq<CallTemplate>,
    r: Seq<CallSpec>,
    to: u64,
    gas_limit: u64,
    s: usize,
)
    requires
        sequenced(t, r, to, gas_limit),
    ensures
        calls_from(r, s).len() == sent_by(t, s),
        forall|k: int| 0 <= k < calls_from(r, s).len() ==> #[trigger] calls_from(r, s)[k].nonce == k,
{
    lemma_prefix_nonces(t, r, to, gas_limit, s, r.len() as int);
    assert(r.take(r.len() as int) =~= r);
    assert(t.take(t.len() as int) =~= t);
}

} // verus!
