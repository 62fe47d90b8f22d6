use vstd::prelude::*;

use crate::cell::{cell_text, format_cell};
use crate::metrics::{deviations, percentage_spec, seq_min};
use crate::run::Receipt;

verus! {

/// The outcome of one variant: its label, the receipts of its run in call
/// order, and the size of its binary in bytes.
pub struct VariantResult {
    pub label: String,
    pub receipts: Vec<Receipt>,
    pub size: i64,
}

/// One report row: the variant's label, a cell per call, then the size
/// cell.
pub struct ComparisonRow {
    pub label: String,
    pub cells: Vec<String>,
}

/// Every variant has `n` receipts.
pub open spec fn aligned(vs: Seq<VariantResult>, n: nat) -> bool {
    forall|v: int| 0 <= v < vs.len() ==> (#[trigger] vs[v]).receipts.len() == n
}

/// The gas that each variant used on call `i`.
pub open spec fn gas_column(vs: Seq<VariantResult>, i: int) -> Seq<i64> {
    vs.map_values(|v: VariantResult| v.receipts@[i].gas_used)
}

/// The binary size of each variant.
pub open spec fn size_column(vs: Seq<VariantResult>) -> Seq<i64> {
    vs.map_values(|v: VariantResult| v.size)
}

/// The cell for entry `v` of `column`: the value and its deviation from
/// the column's least value.
pub open spec fn column_cell(column: Seq<i64>, v: int) -> Seq<char> {
    cell_text(column[v] as int, percentage_spec(column[v] as int, seq_min(column) as int) as int)
}

/// The cells of variant `v`: one per call, then one for the size.
pub open spec fn row_cells(vs: Seq<VariantResult>, v: int, n: nat) -> Seq<Seq<char>> {
    Seq::new(
        n + 1,
        |i: int|
            if i < n {
                column_cell(gas_column(vs, i), v)
            } else {
                column_cell(size_column(vs), v)
            },
    )
}

/// The text of each string.
pub open spec fn texts(s: Seq<String>) -> Seq<Seq<char>> {
    s.map_values(|c: String| c@)
}

/// Entry `k` of `slots` holds every variant's deviation on call `k`, for
/// each `k < count`.
spec fn slots_hold(slots: Seq<Vec<i64>>, vs: Seq<VariantResult>, count: int) -> bool {
    forall|k: int|
        0 <= k < count ==> {
            &&& (#[trigger] slots[k]).len() == vs.len()
            &&& forall|w: int|
                0 <= w < vs.len() ==> slots[k][w] == percentage_spec(
                    gas_column(vs, k)[w] as int,
                    seq_min(gas_column(vs, k)) as int,
                )
        }
}

fn gas_of(variants: &Vec<VariantResult>, i: usize) -> (r: Vec<i64>)
    requires
        aligned(variants@, variants[0].receipts.len() as nat),
        variants.len() > 0,
        i < variants[0].receipts.len(),
    ensures
        r@ == gas_column(variants@, i as int),
{
    let mut r: Vec<i64> = Vec::new();
    let mut v: usize = 0;
    while v < variants.len()
        invariant
            v <= variants.len(),
            aligned(variants@, variants[0].receipts.len() as nat),
            i < variants[0].receipts.len(),
            r@ == gas_column(variants@.take(v as int), i as int),
        decreases variants.len() - v,
    {
        assert(variants[v as int].receipts.len() == variants[0].receipts.len());
        r.push(variants[v].receipts[i].gas_used);
        assert(gas_column(variants@.take(v as int + 1), i as int) =~= gas_column(
            variants@.take(v as int),
            i as int,
        ).push(variants[v as int].receipts@[i as int].gas_used));
        v = v + 1;
    }
    assert(variants@.take(variants.len() as int) =~= variants@);
    r
}

fn sizes_of(variants: &Vec<VariantResult>) -> (r: Vec<i64>)
    ensures
        r@ == size_column(variants@),
{
    let mut r: Vec<i64> = Vec::new();
    let mut v: usize = 0;
    while v < variants.len()
        invariant
            v <= variants.len(),
            r@ == size_column(variants@.take(v as int)),
        decreases variants.len() - v,
    {
        r.push(variants[v].size);
        assert(size_column(variants@.take(v as int + 1)) =~= size_column(
            variants@.take(v as int),
        ).push(variants[v as int].size));
        v = v + 1;
    }
    assert(variants@.take(variants.len() as int) =~= variants@);
    r
}

/// Compares variants that ran the same call sequence: for each call, and
/// for the binary size, every variant's value with its percentage
/// deviation from the least value among the variants.
pub fn compare(variants: &Vec<VariantResult>) -> (r: Vec<ComparisonRow>)
    requires
        variants.len() > 0,
        aligned(variants@, variants[0].receipts.len() as nat),
    ensures
        r.len() == variants.len(),
        forall|v: int|
            0 <= v < variants.len() ==> {
                &&& (#[trigger] r[v]).label@ == variants[v].label@
                &&& r[v].cells.len() == variants[0].receipts.len() + 1
                &&& texts(r[v].cells@) == row_cells(
                    variants@,
                    v,
                    variants[0].receipts.len() as nat,
                )
            },
{
    let n = variants[0].receipts.len();
    let mut slots: Vec<Vec<i64>> = Vec::new();
    let mut i: usize = 0;
    while i < n
        invariant
            i <= n,
            n == variants[0].receipts.len(),
            variants.len() > 0,
            aligned(variants@, n as nat),
            slots.len() == i,
            slots_hold(slots@, variants@, i as int),
        decreases n - i,
    {
        let column = gas_of(variants, i);
        let d = deviations(&column);
        slots.push(d);
        i = i + 1;
    }
    let sizes = sizes_of(variants);
    let size_devs = deviations(&sizes);
    let mut rows: Vec<ComparisonRow> = Vec::new();
    let mut v: usize = 0;
    while v < variants.len()
        invariant
            v <= variants.len(),
            n == variants[0].receipts.len(),
            aligned(variants@, n as nat),
            slots.len() == n,
            slots_hold(slots@, variants@, n as int),
            sizes@ == size_column(variants@),
            size_devs.len() == variants.len(),
            forall|w: int|
                0 <= w < variants.len() ==> size_devs[w] == percentage_spec(
                    sizes[w] as int,
                    seq_min(sizes@) as int,
                ),
            rows.len() == v,
            forall|w: int|
                0 <= w < v ==> {
                    &&& (#[trigger] rows[w]).label@ == variants[w].label@
                    &&& rows[w].cells.len() == n + 1
                    &&& texts(rows[w].cells@) == row_cells(variants@, w, n as nat)
                },
        decreases variants.len() - v,
    {
        let mut cells: Vec<String> = Vec::new();
        let mut i: usize = 0;
        assert(variants[v as int].receipts.len() == n);
        while i < n
            invariant
                i <= n,
                v < variants.len(),
                n == variants[0].receipts.len(),
                variants[v as int].receipts.len() == n,
                slots.len() == n,
                slots_hold(slots@, variants@, n as int),
                cells.len() == i,
                forall|k: int|
                    0 <= k < i ==> (#[trigger] cells[k])@ == column_cell(
                        gas_column(variants@, k),
                        v as int,
                    ),
            decreases n - i,
        {
            let c = format_cell(variants[v].receipts[i].gas_used, slots[i][v]);
            cells.push(c);
            i = i + 1;
        }
        let c = format_cell(variants[v].size, size_devs[v]);
        cells.push(c);
        assert(texts(cells@) =~= row_cells(variants@, v as int, n as nat));
        assert(cells.len() == n + 1);
        let row = ComparisonRow { label: variants[v].label.clone(), cells };
        rows.push(row);
        v = v + 1;
    }
    rows
}

} // verus!
