use vstd::prelude::*;

use crate::compare::{texts, ComparisonRow};
use crate::error::ErrorKind;

verus! {

/// The text of every cell of a grid, row by row.
pub open spec fn grid_view(g: Seq<Vec<String>>) -> Seq<Seq<Seq<char>>> {
    g.map_values(|row: Vec<String>| texts(row@))
}

/// The comma-separated rendering of a grid.
pub uninterp spec fn csv_of(grid: Seq<Seq<Seq<char>>>) -> Seq<u8>;

/// The boxed console rendering of a grid.
pub uninterp spec fn table_text_of(grid: Seq<Seq<Seq<char>>>) -> Seq<char>;

/// Every row of the grid has as many cells as the first.
pub open spec fn rectangular(grid: Seq<Vec<String>>) -> bool {
    forall|i: int| 0 <= i < grid.len() ==> (#[trigger] grid[i]).len() == grid[0].len()
}

/// No cell of the grid holds the escape character, which prettytable reads
/// as the start of a terminal colour code when it measures a cell.
pub open spec fn escape_free(grid: Seq<Seq<Seq<char>>>) -> bool {
    forall|i: int, j: int|
        0 <= i < grid.len() && 0 <= j < grid[i].len() ==> !(#[trigger] grid[i][j]).contains(
            '\u{1b}',
        )
}

/// Relies on prettytable's `Table::to_csv` on the table `Table::from`
/// makes of the grid, written into a byte vector and taken back with
/// `csv::Writer::into_inner`. Without escape characters, measuring a cell
/// does not panic. The writer is not flexible: it fails only
/// when rows differ in length, and writing into a vector does not fail.
#[verifier::external_body]
fn grid_csv(grid: &Vec<Vec<String>>) -> (r: Option<Vec<u8>>)
    requires
        escape_free(grid_view(grid@)),
    ensures
        rectangular(grid@) ==> r is Some,
        r matches Some(b) ==> b@ == csv_of(grid_view(grid@)),
{
    match prettytable::Table::from(grid).to_csv(Vec::new()) {
        Ok(w) => w.into_inner().ok(),
        Err(_) => None,
    }
}

/// Relies on the `Display` of the table that prettytable's `Table::from`
/// makes of the grid, with the default format: the text depends on the
/// grid alone. Without escape characters, measuring a cell does not panic.
#[verifier::external_body]
fn grid_text(grid: &Vec<Vec<String>>) -> (r: String)
    requires
        escape_free(grid_view(grid@)),
    ensures
        r@ == table_text_of(grid_view(grid@)),
{
    prettytable::Table::from(grid).to_string()
}

/// Whether `s` holds the escape character.
fn has_escape(s: &String) -> (r: bool)
    ensures
        r == s@.contains('\u{1b}'),
{
    let t = s.as_str();
    let n = t.unicode_len();
    let mut i: usize = 0;
    while i < n
        invariant
            n == t@.len(),
            t@ == s@,
            i <= n,
            forall|k: int| 0 <= k < i ==> t@[k] != '\u{1b}',
        decreases n - i,
    {
        if t.get_char(i) == '\u{1b}' {
            assert(s@[i as int] == '\u{1b}');
            return true;
        }
        i = i + 1;
    }
    false
}

/// Whether some cell of the grid holds the escape character.
fn grid_has_escape(grid: &Vec<Vec<String>>) -> (r: bool)
    ensures
        r == !escape_free(grid_view(grid@)),
{
    let mut i: usize = 0;
    while i < grid.len()
        invariant
            i <= grid.len(),
            forall|a: int, b: int|
                0 <= a < i && 0 <= b < grid[a].len() ==> !(#[trigger] grid[a][b])@.contains(
                    '\u{1b}',
                ),
        decreases grid.len() - i,
    {
        let mut j: usize = 0;
        while j < grid[i].len()
            invariant
                i < grid.len(),
                j <= grid[i as int].len(),
                forall|a: int, b: int|
                    0 <= a < i && 0 <= b < grid[a].len() ==> !(#[trigger] grid[a][b])@.contains(
                        '\u{1b}',
                    ),
                forall|b: int| 0 <= b < j ==> !(#[trigger] grid[i as int][b])@.contains('\u{1b}'),
            decreases grid[i as int].len() - j,
        {
            if has_escape(&grid[i][j]) {
                proof {
                    let g = grid_view(grid@);
                    assert(g[i as int][j as int] == grid[i as int][j as int]@);
                }
                return true;
            }
            j = j + 1;
        }
        i = i + 1;
    }
    proof {
        let g = grid_view(grid@);
        assert forall|a: int, b: int| 0 <= a < g.len() && 0 <= b < g[a].len() implies !(
        #[trigger] g[a][b]).contains('\u{1b}') by {
            assert(g[a][b] == grid[a][b]@);
        }
    }
    false
}

/// A string holding the text of `s`.
fn owned(s: &str) -> (r: String)
    ensures
        r@ == s@,
{
    String::from_str(s)
}

/// Column headers of the token script's calls, in call order.
pub fn token_headers() -> (r: Vec<String>)
    ensures
        texts(r@) == seq![
            "GetName (gas)"@,
            "GetSymbol (gas)"@,
            "GetBalanceOf (gas)"@,
            "Transfer (gas)"@,
            "Allowance (gas)"@,
            "TransferFrom (gas)"@,
        ],
{
    let mut r: Vec<String> = Vec::new();
    r.push(owned("GetName (gas)"));
    r.push(owned("GetSymbol (gas)"));
    r.push(owned("GetBalanceOf (gas)"));
    r.push(owned("Transfer (gas)"));
    r.push(owned("Allowance (gas)"));
    r.push(owned("TransferFrom (gas)"));
    assert(texts(r@) =~= seq![
        "GetName (gas)"@,
        "GetSymbol (gas)"@,
        "GetBalanceOf (gas)"@,
        "Transfer (gas)"@,
        "Allowance (gas)"@,
        "TransferFrom (gas)"@,
    ]);
    r
}

/// The report as a grid of cells: a header row naming the variant column,
/// each call and the size column, then one row per variant.
pub fn report_grid(call_headers: &Vec<String>, rows: &Vec<ComparisonRow>) -> (r: Vec<Vec<String>>)
    ensures
        r.len() == rows.len() + 1,
        texts(r[0]@) == seq!["ACTOR FILE"@] + texts(call_headers@) + seq!["FILE SIZE"@],
        forall|v: int|
            0 <= v < rows.len() ==> texts((#[trigger] r[v + 1])@) == seq![rows[v].label@]
                + texts(rows[v].cells@),
        (forall|v: int| 0 <= v < rows.len() ==> (#[trigger] rows[v]).cells.len() == call_headers.len() + 1)
            ==> rectangular(r@),
{
    let mut header: Vec<String> = Vec::new();
    header.push(owned("ACTOR FILE"));
    let mut i: usize = 0;
    while i < call_headers.len()
        invariant
            i <= call_headers.len(),
            texts(header@) == seq!["ACTOR FILE"@] + texts(call_headers@.take(i as int)),
        decreases call_headers.len() - i,
    {
        let ghost before = header@;
        header.push(call_headers[i].clone());
        assert(texts(header@) =~= texts(before).push(call_headers[i as int]@));
        assert(texts(call_headers@.take(i as int + 1)) =~= texts(call_headers@.take(i as int)).push(
            call_headers[i as int]@,
        ));
        assert(texts(header@) =~= seq!["ACTOR FILE"@] + texts(call_headers@.take(i as int + 1)));
        i = i + 1;
    }
    header.push(owned("FILE SIZE"));
    assert(call_headers@.take(call_headers.len() as int) =~= call_headers@);
    assert(texts(header@) =~= seq!["ACTOR FILE"@] + texts(call_headers@) + seq!["FILE SIZE"@]);
    let mut grid: Vec<Vec<String>> = Vec::new();
    grid.push(header);
    let mut v: usize = 0;
    while v < rows.len()
        invariant
            v <= rows.len(),
            grid.len() == v + 1,
            texts(grid[0]@) == seq!["ACTOR FILE"@] + texts(call_headers@) + seq!["FILE SIZE"@],
            forall|w: int|
                0 <= w < v ==> texts((#[trigger] grid[w + 1])@) == seq![rows[w].label@] + texts(
                    rows[w].cells@,
                ),
        decreases rows.len() - v,
    {
        let mut line: Vec<String> = Vec::new();
        line.push(rows[v].label.clone());
        let mut k: usize = 0;
        while k < rows[v].cells.len()
            invariant
                v < rows.len(),
                k <= rows[v as int].cells.len(),
                texts(line@) == seq![rows[v as int].label@] + texts(
                    rows[v as int].cells@.take(k as int),
                ),
            decreases rows[v as int].cells.len() - k,
        {
            let ghost before = line@;
            line.push(rows[v].cells[k].clone());
            assert(texts(line@) =~= texts(before).push(rows[v as int].cells[k as int]@));
            assert(texts(rows[v as int].cells@.take(k as int + 1)) =~= texts(
                rows[v as int].cells@.take(k as int),
            ).push(rows[v as int].cells[k as int]@));
            assert(texts(line@) =~= seq![rows[v as int].label@] + texts(
                rows[v as int].cells@.take(k as int + 1),
            ));
            k = k + 1;
        }
        assert(rows[v as int].cells@.take(rows[v as int].cells.len() as int)
            =~= rows[v as int].cells@);
        grid.push(line);
        v = v + 1;
    }
    proof {
        if forall|v: int|
            0 <= v < rows.len() ==> (#[trigger] rows[v]).cells.len() == call_headers.len() + 1 {
            assert(texts(call_headers@).len() == call_headers.len());
            assert(texts(grid[0]@).len() == grid[0].len());
            assert forall|i: int| 0 <= i < grid.len() implies (#[trigger] grid[i]).len()
                == grid[0].len() by {
                if i > 0 {
                    let v = i - 1;
                    assert(texts(grid[v + 1]@).len() == grid[v + 1].len());
                    assert(texts(rows[v].cells@).len() == rows[v].cells.len());
                    assert(rows[v].cells.len() == call_headers.len() + 1);
                }
            }
        }
    }
    grid
}

/// A rendered report: the grid, its console text and its file bytes.
pub struct Report {
    pub grid: Vec<Vec<String>>,
    pub text: String,
    pub csv: Vec<u8>,
}

/// Renders one grid both for the console and for the report file, so the
/// two show the same cells. A grid with an escape character in some cell
/// is refused, as is one whose rows differ in length.
pub fn render_report(grid: Vec<Vec<String>>) -> (r: Result<Report, ErrorKind>)
    ensures
        r matches Ok(rep) ==> {
            &&& rep.grid@ == grid@
            &&& rep.text@ == table_text_of(grid_view(grid@))
            &&& rep.csv@ == csv_of(grid_view(grid@))
        },
        rectangular(grid@) && escape_free(grid_view(grid@)) ==> r is Ok,
        !escape_free(grid_view(grid@)) ==> r is Err,
        r matches Err(e) ==> e == ErrorKind::Serialization,
{
    if grid_has_escape(&grid) {
        return Err(ErrorKind::Serialization);
    }
    let text = grid_text(&grid);
    match grid_csv(&grid) {
        Some(csv) => Ok(Report { grid, text, csv }),
        None => Err(ErrorKind::Serialization),
    }
}

} // verus!
