use vstd::prelude::*;

use crate::calls::CallSpec;

verus! {

/// What the engine reports for one executed call.
pub struct Receipt {
    pub exit_code: u32,
    pub gas_used: i64,
    pub return_data: Vec<u8>,
}

/// The run of one call sequence against one variant: the calls, and the
/// receipts of those already executed, in order.
///
/// Receipts are kept whatever their exit code, so a call the contract
/// rejected still contributes its gas to the comparison.
pub struct Run {
    calls: Vec<CallSpec>,
    receipts: Vec<Receipt>,
}

impl Run {
    pub closed spec fn calls_view(&self) -> Seq<CallSpec> {
        self.calls@
    }

    pub closed spec fn receipts_view(&self) -> Seq<Receipt> {
        self.receipts@
    }

    /// No more receipts than calls.
    pub open spec fn wf(&self) -> bool {
        self.receipts_view().len() <= self.calls_view().len()
    }

    /// Every call has its receipt.
    pub open spec fn complete(&self) -> bool {
        self.receipts_view().len() == self.calls_view().len()
    }

    /// A run of `calls` with nothing executed yet.
    pub fn new(calls: Vec<CallSpec>) -> (r: Run)
        ensures
            r.wf(),
            r.calls_view() == calls@,
            r.receipts_view().len() == 0,
    {
        Run { calls, receipts: Vec::new() }
    }

    /// The call to execute next, or `None` once every call has its
    /// receipt.
    pub fn next_call(&self) -> (r: Option<&CallSpec>)
        requires
            self.wf(),
        ensures
            r is None <==> self.complete(),
            r matches Some(c) ==> *c == self.calls_view()[self.receipts_view().len() as int],
    {
        if self.receipts.len() < self.calls.len() {
            Some(&self.calls[self.receipts.len()])
        } else {
            None
        }
    }

    /// Records the receipt of the call that `next_call` gave.
    pub fn record(&mut self, receipt: Receipt)
        requires
            old(self).wf(),
            !old(self).complete(),
        ensures
            final(self).wf(),
            final(self).calls_view() == old(self).calls_view(),
            final(self).receipts_view() == old(self).receipts_view().push(receipt),
    {
        self.receipts.push(receipt);
    }

    /// The receipts of a complete run, one per call, in call order.
    pub fn into_receipts(self) -> (r: Vec<Receipt>)
        requires
            self.complete(),
        ensures
            r@ == self.receipts_view(),
            r.len() == self.calls_view().len(),
    {
        self.receipts
    }
}

/// The position of the first receipt with a non-zero exit code, or `None`
/// when every call succeeded.
pub fn first_failure(receipts: &Vec<Receipt>) -> (r: Option<usize>)
    ensures
        r matches Some(i) ==> {
            &&& i < receipts.len()
            &&& receipts[i as int].exit_code != 0
            &&& forall|j: int| 0 <= j < i ==> receipts[j].exit_code == 0
        },
        r is None ==> forall|j: int| 0 <= j < receipts.len() ==> receipts[j].exit_code == 0,
{
    let mut i: usize = 0;
    while i < receipts.len()
        invariant
            i <= receipts.len(),
            forall|j: int| 0 <= j < i ==> receipts[j].exit_code == 0,
        decreases receipts.len() - i,
    {
        if receipts[i].exit_code != 0 {
            return Some(i);
        }
        i = i + 1;
    }
    None
}

} // verus!
