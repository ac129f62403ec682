use big_iron::portfolio::{
    assemble_account_history, plan_history_refresh, refresh_cutoff_secs, snapshot_start_time_ms,
    AccountHistory, BalanceSnapshot, BalanceSnapshotItem, HistoryRow, Snapshot, StoreWrite,
};

fn row(code: i32, msg: &str, total: &str, time: i64, wallet: &str, asset: &str, free: &str, locked: &str) -> HistoryRow {
    HistoryRow {
        code,
        msg: msg.to_string(),
        total_asset_of_btc: total.to_string(),
        update_time: time,
        wallet_type: wallet.to_string(),
        asset: asset.to_string(),
        free: free.to_string(),
        locked: locked.to_string(),
    }
}

fn item(asset: &str, free: &str, locked: &str) -> BalanceSnapshotItem {
    BalanceSnapshotItem { asset: asset.to_string(), free: free.to_string(), locked: locked.to_string() }
}

fn snapshot(total: &str, time: i64, wallet: &str, balances: Vec<BalanceSnapshotItem>) -> Snapshot {
    Snapshot {
        data: BalanceSnapshot { balances, total_asset_of_btc: total.to_string() },
        update_time: time,
        wallet_type: wallet.to_string(),
    }
}

#[test]
fn assemble_without_rows_gives_no_history() {
    assert_eq!(assemble_account_history(&vec![]), None);
}

#[test]
fn assemble_takes_code_and_message_from_first_row() {
    let rows = vec![
        row(200, "", "0.5", 1700000000000, "spot", "BTC", "0.4", "0.1"),
        row(7, "other", "0.6", 1700086400000, "spot", "ETH", "2.0", "0"),
    ];
    let history = assemble_account_history(&rows).unwrap();
    assert_eq!(history.code, 200);
    assert_eq!(history.msg, "");
    assert_eq!(
        history.snapshot_vos,
        vec![
            snapshot("0.5", 1700000000000, "spot", vec![item("BTC", "0.4", "0.1")]),
            snapshot("0.6", 1700086400000, "spot", vec![item("ETH", "2.0", "0")]),
        ]
    );
}

#[test]
fn assembled_snapshots_hold_one_balance_each() {
    let rows = vec![
        row(1, "a", "1", 1, "spot", "BTC", "1", "0"),
        row(1, "a", "1", 1, "spot", "BNB", "3", "0"),
        row(1, "a", "2", 2, "spot", "BTC", "2", "0"),
    ];
    let history = assemble_account_history(&rows).unwrap();
    assert_eq!(history.snapshot_vos.len(), 3);
    for s in &history.snapshot_vos {
        assert_eq!(s.data.balances.len(), 1);
    }
}

#[test]
fn rows_of_a_history_reassemble_to_it() {
    let history = AccountHistory {
        code: 200,
        msg: "ok".to_string(),
        snapshot_vos: vec![
            snapshot("0.1", 10, "spot", vec![item("BTC", "0.1", "0")]),
            snapshot("0.2", 20, "spot", vec![item("ETH", "1.5", "0.5")]),
        ],
    };
    let rows: Vec<HistoryRow> = history
        .snapshot_vos
        .iter()
        .map(|s| {
            let b = &s.data.balances[0];
            row(history.code, &history.msg, &s.data.total_asset_of_btc, s.update_time, &s.wallet_type, &b.asset, &b.free, &b.locked)
        })
        .collect();
    assert_eq!(assemble_account_history(&rows), Some(history));
}

fn sample_history() -> AccountHistory {
    AccountHistory {
        code: 200,
        msg: "".to_string(),
        snapshot_vos: vec![
            snapshot("0.5", 100, "spot", vec![item("BTC", "0.4", "0.1"), item("BNB", "3", "0")]),
            snapshot("0.7", 200, "spot", vec![]),
            snapshot("0.9", 300, "spot", vec![item("ETH", "1", "0")]),
        ],
    }
}

#[test]
fn refresh_is_skipped_when_queried_recently() {
    assert_eq!(plan_history_refresh(&sample_history(), true), vec![]);
}

#[test]
fn refresh_clears_then_writes_everything_in_order() {
    let plan = plan_history_refresh(&sample_history(), false);
    let snap = |total: &str, time: i64| StoreWrite::InsertSnapshot {
        total_asset_of_btc: total.to_string(),
        update_time: time,
        wallet_type: "spot".to_string(),
    };
    let bal = |asset: &str, free: &str, locked: &str| StoreWrite::InsertBalance {
        asset: asset.to_string(),
        free: free.to_string(),
        locked: locked.to_string(),
    };
    assert_eq!(
        plan,
        vec![
            StoreWrite::ClearHistory,
            StoreWrite::InsertHistory { code: 200, msg: "".to_string() },
            snap("0.5", 100),
            bal("BTC", "0.4", "0.1"),
            bal("BNB", "3", "0"),
            snap("0.7", 200),
            snap("0.9", 300),
            bal("ETH", "1", "0"),
        ]
    );
}

#[test]
fn refresh_writes_one_per_snapshot_and_balance() {
    let plan = plan_history_refresh(&sample_history(), false);
    assert_eq!(plan.len(), 2 + 3 + 3);
    let mut seen_snapshot = false;
    for w in &plan {
        match w {
            StoreWrite::InsertSnapshot { .. } => seen_snapshot = true,
            StoreWrite::InsertBalance { .. } => assert!(seen_snapshot),
            _ => {}
        }
    }
}

#[test]
fn refresh_of_empty_history_writes_clear_and_header() {
    let history = AccountHistory { code: -1, msg: "err".to_string(), snapshot_vos: vec![] };
    assert_eq!(
        plan_history_refresh(&history, false),
        vec![StoreWrite::ClearHistory, StoreWrite::InsertHistory { code: -1, msg: "err".to_string() }]
    );
}

#[test]
fn snapshot_window_starts_thirty_days_back_in_millis() {
    assert_eq!(snapshot_start_time_ms(2_592_000), 0);
    assert_eq!(snapshot_start_time_ms(2_592_001), 1000);
    assert_eq!(snapshot_start_time_ms(1_700_000_000), (1_700_000_000 - 2_592_000) * 1000);
}

#[test]
fn refresh_cutoff_is_one_day_back() {
    assert_eq!(refresh_cutoff_secs(100_000), 13_600);
    assert_eq!(refresh_cutoff_secs(0), -86_400);
}
