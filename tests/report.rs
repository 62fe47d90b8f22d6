use gas_bench::{
    compare, first_failure, render_report, report_grid, state_dump_line, token_headers,
    token_state, CallSpec, ErrorKind, Funding, Receipt, Run, VariantResult,
};

fn receipt(gas: i64) -> Receipt {
    Receipt { exit_code: 0, gas_used: gas, return_data: vec![] }
}

fn variants() -> Vec<VariantResult> {
    let gas = [120, 100, 130, 110];
    let sizes = [50000, 48000, 52000, 49000];
    let labels = ["a", "b", "c", "d"];
    (0..4)
        .map(|i| VariantResult {
            label: labels[i].to_string(),
            receipts: vec![receipt(gas[i]), receipt(1000)],
            size: sizes[i],
        })
        .collect()
}

#[test]
fn compare_builds_cells_per_variant() {
    let rows = compare(&variants());
    assert_eq!(rows.len(), 4);
    assert_eq!(rows[0].label, "a");
    assert_eq!(rows[0].cells, vec!["120 (+20%)", "1000 (+0%)", "50000 (+4%)"]);
    assert_eq!(rows[1].cells, vec!["100 (+0%)", "1000 (+0%)", "48000 (+0%)"]);
    assert_eq!(rows[2].cells, vec!["130 (+30%)", "1000 (+0%)", "52000 (+8%)"]);
    assert_eq!(rows[3].cells, vec!["110 (+10%)", "1000 (+0%)", "49000 (+2%)"]);
}

#[test]
fn report_grid_has_header_and_rows() {
    let rows = compare(&variants());
    let grid = report_grid(&token_headers(), &rows);
    assert_eq!(grid.len(), 5);
    assert_eq!(
        grid[0],
        vec![
            "ACTOR FILE",
            "GetName (gas)",
            "GetSymbol (gas)",
            "GetBalanceOf (gas)",
            "Transfer (gas)",
            "Allowance (gas)",
            "TransferFrom (gas)",
            "FILE SIZE"
        ]
    );
    assert_eq!(grid[2], vec!["b", "100 (+0%)", "1000 (+0%)", "48000 (+0%)"]);
}

#[test]
fn csv_report_is_comma_separated() {
    let headers = vec!["GetName (gas)".to_string()];
    let rows = compare(&vec![
        VariantResult { label: "x".to_string(), receipts: vec![receipt(120)], size: 50 },
        VariantResult { label: "y".to_string(), receipts: vec![receipt(100)], size: 40 },
    ]);
    let report = render_report(report_grid(&headers, &rows)).unwrap();
    assert_eq!(
        String::from_utf8(report.csv).unwrap(),
        "ACTOR FILE,GetName (gas),FILE SIZE\nx,120 (+20%),50 (+25%)\ny,100 (+0%),40 (+0%)\n"
    );
}

#[test]
fn console_and_file_show_the_same_cells() {
    let full: Vec<VariantResult> = (0..4)
        .map(|i| VariantResult {
            label: format!("variant {}", i),
            receipts: (0..6).map(|k| receipt(100 + 10 * i + k)).collect(),
            size: 40000 + 1000 * i,
        })
        .collect();
    let rows = compare(&full);
    let report = render_report(report_grid(&token_headers(), &rows)).unwrap();
    let csv = String::from_utf8(report.csv.clone()).unwrap();
    let csv_cells: Vec<&str> = csv.lines().flat_map(|l| l.split(',')).collect();
    for line in &report.grid {
        for cell in line {
            assert!(report.text.contains(cell.as_str()));
            assert!(csv_cells.contains(&cell.as_str()));
        }
    }
}

#[test]
fn run_collects_one_receipt_per_call() {
    let call = |nonce| CallSpec {
        sender: 0,
        to: 10000,
        gas_limit: 1_000_000_000,
        method: 2,
        nonce,
        params: vec![],
    };
    let mut run = Run::new(vec![call(0), call(1), call(2)]);
    let mut gas = 10;
    while let Some(c) = run.next_call() {
        assert_eq!(c.nonce as i64, gas / 10 - 1);
        run.record(Receipt { exit_code: 1, gas_used: gas, return_data: vec![] });
        gas += 10;
    }
    let receipts = run.into_receipts();
    assert_eq!(receipts.len(), 3);
    let used: Vec<i64> = receipts.iter().map(|r| r.gas_used).collect();
    assert_eq!(used, vec![10, 20, 30]);
}

#[test]
fn empty_run_is_complete() {
    let run = Run::new(vec![]);
    assert!(run.next_call().is_none());
    assert!(run.into_receipts().is_empty());
}

#[test]
fn token_state_funds_listed_accounts() {
    let accounts = vec!["t0100".to_string(), "t0101".to_string(), "t0102".to_string()];
    let plan = vec![Funding { account: 0, amount: 1000 }, Funding { account: 1, amount: 1000 }];
    let s = token_state("ZondaxCoin".to_string(), "ZDX".to_string(), 8, 1_000_000, &accounts, &plan);
    assert_eq!(s.name, "ZondaxCoin");
    assert_eq!(s.symbol, "ZDX");
    assert_eq!(s.decimals, 8);
    assert_eq!(s.total_supply, 1_000_000);
    assert_eq!(
        s.balances,
        vec![("t0100".to_string(), 1000), ("t0101".to_string(), 1000)]
    );
    assert!(s.allowed.is_empty());
}

#[test]
fn state_dump_line_is_hex() {
    assert_eq!(state_dump_line(&vec![0x0f, 0xa0, 0x00]), "Cbor hex state : 0fa000");
    assert_eq!(state_dump_line(&vec![]), "Cbor hex state : ");
}

#[test]
fn ragged_grid_cannot_be_written_as_csv() {
    let grid = vec![
        vec!["a".to_string(), "b".to_string()],
        vec!["c".to_string()],
    ];
    assert!(matches!(render_report(grid), Err(ErrorKind::Serialization)));
}

#[test]
fn labels_with_line_breaks_still_render() {
    let grid = vec![
        vec!["x\n".to_string(), "y".to_string()],
        vec!["1".to_string(), "2\r\n".to_string()],
    ];
    let report = render_report(grid).unwrap();
    assert!(!report.csv.is_empty());
    assert!(!report.text.is_empty());
}

#[test]
fn first_failure_finds_the_first_non_zero_exit() {
    let with = |codes: &[u32]| -> Vec<Receipt> {
        codes
            .iter()
            .map(|&c| Receipt { exit_code: c, gas_used: 1, return_data: vec![] })
            .collect()
    };
    assert_eq!(first_failure(&with(&[0, 0, 0])), None);
    assert_eq!(first_failure(&with(&[0, 16, 0, 18])), Some(1));
    assert_eq!(first_failure(&with(&[])), None);
}

#[test]
fn cells_with_escape_characters_are_refused() {
    let grid = vec![
        vec!["ACTOR FILE".to_string(), "GetName (gas)".to_string()],
        vec!["\u{1b}[لالاm".to_string(), "1 (+0%)".to_string()],
    ];
    assert!(matches!(render_report(grid), Err(ErrorKind::Serialization)));
    let coloured = vec![vec!["\u{1b}[31mred\u{1b}[0m".to_string()]];
    assert!(matches!(render_report(coloured), Err(ErrorKind::Serialization)));
}
