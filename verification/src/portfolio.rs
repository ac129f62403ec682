//! The account history kept by the portfolio tracker: the exchange's account
//! snapshots, how a history is written to the store, and how it is put back
//! together from the rows that the store returns.
use vstd::prelude::*;

verus! {

/// One asset's balance inside a snapshot; the amounts are kept as the
/// decimal text that the exchange sends.
#[derive(Debug, PartialEq)]
pub struct BalanceSnapshotItem {
    pub asset: String,
    pub free: String,
    pub locked: String,
}

/// The balances of one snapshot and their total value in BTC.
#[derive(Debug, PartialEq)]
pub struct BalanceSnapshot {
    pub balances: Vec<BalanceSnapshotItem>,
    pub total_asset_of_btc: String,
}

/// One daily account snapshot.
#[derive(Debug, PartialEq)]
pub struct Snapshot {
    pub data: BalanceSnapshot,
    pub update_time: i64,
    pub wallet_type: String,
}

/// The exchange's answer to an account-snapshot query.
#[derive(Debug, PartialEq)]
pub struct AccountHistory {
    pub code: i32,
    pub msg: String,
    pub snapshot_vos: Vec<Snapshot>,
}

/// One row of the joined query over histories, snapshots and balances.
#[derive(Debug, PartialEq)]
pub struct HistoryRow {
    pub code: i32,
    pub msg: String,
    pub total_asset_of_btc: String,
    pub update_time: i64,
    pub wallet_type: String,
    pub asset: String,
    pub free: String,
    pub locked: String,
}

/// One write to the store, in the order in which a refresh performs them.
/// A balance belongs to the snapshot written last before it.
#[derive(Debug, PartialEq)]
pub enum StoreWrite {
    ClearHistory,
    InsertHistory { code: i32, msg: String },
    InsertSnapshot { total_asset_of_btc: String, update_time: i64, wallet_type: String },
    InsertBalance { asset: String, free: String, locked: String },
}

pub struct BalanceModel {
    pub asset: Seq<char>,
    pub free: Seq<char>,
    pub locked: Seq<char>,
}

pub struct SnapshotModel {
    pub balances: Seq<BalanceModel>,
    pub total_asset_of_btc: Seq<char>,
    pub update_time: int,
    pub wallet_type: Seq<char>,
}

pub struct HistoryModel {
    pub code: int,
    pub msg: Seq<char>,
    pub snapshots: Seq<SnapshotModel>,
}

pub struct RowModel {
    pub code: int,
    pub msg: Seq<char>,
    pub total_asset_of_btc: Seq<char>,
    pub update_time: int,
    pub wallet_type: Seq<char>,
    pub asset: Seq<char>,
    pub free: Seq<char>,
    pub locked: Seq<char>,
}

pub enum WriteModel {
    ClearHistory,
    InsertHistory { code: int, msg: Seq<char> },
    InsertSnapshot { total_asset_of_btc: Seq<char>, update_time: int, wallet_type: Seq<char> },
    InsertBalance { asset: Seq<char>, free: Seq<char>, locked: Seq<char> },
}

impl View for BalanceSnapshotItem {
    type V = BalanceModel;

    open spec fn view(&self) -> BalanceModel {
        BalanceModel { asset: self.asset@, free: self.free@, locked: self.locked@ }
    }
}

impl View for Snapshot {
    type V = SnapshotModel;

    open spec fn view(&self) -> SnapshotModel {
        SnapshotModel {
            balances: self.data.balances@.map_values(|b: BalanceSnapshotItem| b@),
            total_asset_of_btc: self.data.total_asset_of_btc@,
            update_time: self.update_time as int,
            wallet_type: self.wallet_type@,
        }
    }
}

impl View for AccountHistory {
    type V = HistoryModel;

    open spec fn view(&self) -> HistoryModel {
        HistoryModel {
            code: self.code as int,
            msg: self.msg@,
            snapshots: self.snapshot_vos@.map_values(|s: Snapshot| s@),
        }
    }
}

impl View for HistoryRow {
    type V = RowModel;

    open spec fn view(&self) -> RowModel {
        RowModel {
            code: self.code as int,
            msg: self.msg@,
            total_asset_of_btc: self.total_asset_of_btc@,
            update_time: self.update_time as int,
            wallet_type: self.wallet_type@,
            asset: self.asset@,
            free: self.free@,
            locked: self.locked@,
        }
    }
}

impl View for StoreWrite {
    type V = WriteModel;

    open spec fn view(&self) -> WriteModel {
        match self {
            StoreWrite::ClearHistory => WriteModel::ClearHistory,
            StoreWrite::InsertHistory { code, msg } => WriteModel::InsertHistory {
                code: *code as int,
                msg: msg@,
            },
            StoreWrite::InsertSnapshot { total_asset_of_btc, update_time, wallet_type } =>
                WriteModel::InsertSnapshot {
                total_asset_of_btc: total_asset_of_btc@,
                update_time: *update_time as int,
                wallet_type: wallet_type@,
            },
            StoreWrite::InsertBalance { asset, free, locked } => WriteModel::InsertBalance {
                asset: asset@,
                free: free@,
                locked: locked@,
            },
        }
    }
}

/// The models of a sequence of rows.
pub open spec fn rows_model(rows: Seq<HistoryRow>) -> Seq<RowModel> {
    rows.map_values(|r: HistoryRow| r@)
}

/// The models of a sequence of writes.
pub open spec fn writes_model(writes: Seq<StoreWrite>) -> Seq<WriteModel> {
    writes.map_values(|w: StoreWrite| w@)
}

/// The model of an optional history.
pub open spec fn history_option_model(h: Option<AccountHistory>) -> Option<HistoryModel> {
    match h {
        Some(h) => Some(h@),
        None => None,
    }
}

/// The snapshot that one row stands for: its snapshot columns, with the
/// row's balance as its only balance.
pub open spec fn snapshot_of_row(r: RowModel) -> SnapshotModel {
    SnapshotModel {
        balances: seq![BalanceModel { asset: r.asset, free: r.free, locked: r.locked }],
        total_asset_of_btc: r.total_asset_of_btc,
        update_time: r.update_time,
        wallet_type: r.wallet_type,
    }
}

/// The history that a sequence of rows stands for: none without rows;
/// otherwise the first row's code and message, and one snapshot per row,
/// in row order.
pub open spec fn history_of_rows(rows: Seq<RowModel>) -> Option<HistoryModel> {
    if rows.len() == 0 {
        None
    } else {
        Some(
            HistoryModel {
                code: rows[0].code,
                msg: rows[0].msg,
                snapshots: rows.map_values(|r: RowModel| snapshot_of_row(r)),
            },
        )
    }
}

/// The writes that store one snapshot: the snapshot, then its balances in order.
pub open spec fn snapshot_writes(s: SnapshotModel) -> Seq<WriteModel> {
    seq![
        WriteModel::InsertSnapshot {
            total_asset_of_btc: s.total_asset_of_btc,
            update_time: s.update_time,
            wallet_type: s.wallet_type,
        },
    ] + s.balances.map_values(
        |b: BalanceModel| WriteModel::InsertBalance { asset: b.asset, free: b.free, locked: b.locked },
    )
}

/// The writes that store a sequence of snapshots, one after the other.
pub open spec fn snapshots_writes(ss: Seq<SnapshotModel>) -> Seq<WriteModel>
    decreases ss.len(),
{
    if ss.len() == 0 {
        Seq::empty()
    } else {
        snapshots_writes(ss.drop_last()) + snapshot_writes(ss.last())
    }
}

/// What a refresh writes: nothing when the history was queried within the
/// last day; otherwise it clears the store, writes the history's code and
/// message, then every snapshot with its balances.
pub open spec fn refresh_writes(h: HistoryModel, queried_recently: bool) -> Seq<WriteModel> {
    if queried_recently {
        Seq::empty()
    } else {
        seq![WriteModel::ClearHistory, WriteModel::InsertHistory { code: h.code, msg: h.msg }]
            + snapshots_writes(h.snapshots)
    }
}

/// The number of balances over a sequence of snapshots.
pub open spec fn balance_count(ss: Seq<SnapshotModel>) -> nat
    decreases ss.len(),
{
    if ss.len() == 0 {
        0
    } else {
        balance_count(ss.drop_last()) + ss.last().balances.len()
    }
}

pub open spec fn is_balance_write(w: WriteModel) -> bool {
    w is InsertBalance
}

pub open spec fn is_snapshot_write(w: WriteModel) -> bool {
    w is InsertSnapshot
}

fn copy_string(s: &String) -> (res: String)
    ensures
        res@ == s@,
{
    s.clone()
}

/// The snapshot that a row stands for.
fn snapshot_from_row(row: &HistoryRow) -> (res: Snapshot)
    ensures
        res@ == snapshot_of_row(row@),
{
    let mut balances: Vec<BalanceSnapshotItem> = Vec::new();
    balances.push(
        BalanceSnapshotItem {
            asset: copy_string(&row.asset),
            free: copy_string(&row.free),
            locked: copy_string(&row.locked),
        },
    );
    let res = Snapshot {
        data: BalanceSnapshot {
            balances,
            total_asset_of_btc: copy_string(&row.total_asset_of_btc),
        },
        update_time: row.update_time,
        wallet_type: copy_string(&row.wallet_type),
    };
    assert(res@.balances =~= seq![
        BalanceModel { asset: row.asset@, free: row.free@, locked: row.locked@ },
    ]);
    res
}

/// Puts an account history back together from the rows of the joined query,
/// in the order the store returned them: the first row gives the history's
/// code and message, and every row adds one snapshot holding that row's
/// balance. No rows, no history.
pub fn assemble_account_history(rows: &Vec<HistoryRow>) -> (res: Option<AccountHistory>)
    ensures
        history_option_model(res) == history_of_rows(rows_model(rows@)),
        res is Some <==> rows@.len() > 0,
        res matches Some(h) ==> {
            &&& h.code == rows@[0].code
            &&& h.msg@ == rows@[0].msg@
            &&& h.snapshot_vos@.len() == rows@.len()
            &&& forall|i: int|
                0 <= i < rows@.len() ==> {
                    let s = #[trigger] h.snapshot_vos@[i];
                    let r = rows@[i];
                    &&& s.data.total_asset_of_btc@ == r.total_asset_of_btc@
                    &&& s.update_time == r.update_time
                    &&& s.wallet_type@ == r.wallet_type@
                    &&& s.data.balances@.len() == 1
                    &&& s.data.balances@[0].asset@ == r.asset@
                    &&& s.data.balances@[0].free@ == r.free@
                    &&& s.data.balances@[0].locked@ == r.locked@
                }
        },
{
    let res = assemble_rows(rows);
    proof {
        if res is Some {
            let h = res->0;
            let m = rows_model(rows@);
            assert(h@ == history_of_rows(m)->0);
            assert(h@.snapshots.len() == h.snapshot_vos@.len());
            assert forall|i: int| 0 <= i < rows@.len() implies {
                let s = #[trigger] h.snapshot_vos@[i];
                let r = rows@[i];
                &&& s.data.total_asset_of_btc@ == r.total_asset_of_btc@
                &&& s.update_time == r.update_time
                &&& s.wallet_type@ == r.wallet_type@
                &&& s.data.balances@.len() == 1
                &&& s.data.balances@[0].asset@ == r.asset@
                &&& s.data.balances@[0].free@ == r.free@
                &&& s.data.balances@[0].locked@ == r.locked@
            } by {
                let s = h.snapshot_vos@[i];
                assert(h@.snapshots[i] == s@);
                assert(h@.snapshots[i] == snapshot_of_row(m[i]));
                assert(m[i] == rows@[i]@);
                assert(s@.balances.len() == s.data.balances@.len());
                assert(s@.balances[0] == s.data.balances@[0]@);
            }
            assert(m[0] == rows@[0]@);
        }
    }
    res
}

fn assemble_rows(rows: &Vec<HistoryRow>) -> (res: Option<AccountHistory>)
    ensures
        history_option_model(res) == history_of_rows(rows_model(rows@)),
        res is Some <==> rows@.len() > 0,
{
    let mut account_history: Option<AccountHistory> = None;
    let n = rows.len();
    let ghost expected = rows_model(rows@);
    let mut i: usize = 0;
    while i < n
        invariant
            n == rows@.len(),
            i <= n,
            expected == rows_model(rows@),
            i == 0 <==> account_history is None,
            account_history matches Some(h) ==> {
                &&& h@.code == expected[0].code
                &&& h@.msg == expected[0].msg
                &&& h@.snapshots =~= expected.take(i as int).map_values(
                    |r: RowModel| snapshot_of_row(r),
                )
            },
        decreases n - i,
    {
        let row = &rows[i];
        assert(row@ == expected[i as int]);
        let snapshot = snapshot_from_row(row);
        match account_history {
            None => {
                let mut snapshot_vos: Vec<Snapshot> = Vec::new();
                snapshot_vos.push(snapshot);
                let h = AccountHistory { code: row.code, msg: copy_string(&row.msg), snapshot_vos };
                assert(h@.snapshots =~= expected.take(1).map_values(
                    |r: RowModel| snapshot_of_row(r),
                ));
                account_history = Some(h);
            },
            Some(mut h) => {
                let ghost before = h@.snapshots;
                h.snapshot_vos.push(snapshot);
                assert(h@.snapshots =~= before.push(snapshot_of_row(expected[i as int])));
                assert(expected.take(i + 1).map_values(|r: RowModel| snapshot_of_row(r))
                    =~= expected.take(i as int).map_values(|r: RowModel| snapshot_of_row(r)).push(
                    snapshot_of_row(expected[i as int]),
                ));
                account_history = Some(h);
            },
        }
        i = i + 1;
    }
    assert(expected.take(n as int) =~= expected);
    account_history
}

/// The writes that store one snapshot, appended to `writes`.
fn push_snapshot_writes(writes: &mut Vec<StoreWrite>, snapshot: &Snapshot)
    ensures
        writes_model(final(writes)@) == writes_model(old(writes)@) + snapshot_writes(snapshot@),
{
    let ghost start = writes_model(writes@);
    writes.push(
        StoreWrite::InsertSnapshot {
            total_asset_of_btc: copy_string(&snapshot.data.total_asset_of_btc),
            update_time: snapshot.update_time,
            wallet_type: copy_string(&snapshot.wallet_type),
        },
    );
    let ghost head = start + seq![snapshot_writes(snapshot@)[0]];
    assert(writes_model(writes@) =~= head);
    let balances = &snapshot.data.balances;
    let ghost bal = snapshot@.balances;
    let ghost tail = bal.map_values(
        |b: BalanceModel| WriteModel::InsertBalance { asset: b.asset, free: b.free, locked: b.locked },
    );
    let n = balances.len();
    let mut j: usize = 0;
    while j < n
        invariant
            n == balances@.len(),
            bal == balances@.map_values(|b: BalanceSnapshotItem| b@),
            tail == bal.map_values(
                |b: BalanceModel| WriteModel::InsertBalance { asset: b.asset, free: b.free, locked: b.locked },
            ),
            j <= n,
            writes_model(writes@) =~= head + tail.take(j as int),
        decreases n - j,
    {
        let b = &balances[j];
        assert(b@ == bal[j as int]);
        let ghost prev = writes_model(writes@);
        writes.push(
            StoreWrite::InsertBalance {
                asset: copy_string(&b.asset),
                free: copy_string(&b.free),
                locked: copy_string(&b.locked),
            },
        );
        assert(writes_model(writes@) =~= prev.push(tail[j as int]));
        assert(tail.take(j + 1) =~= tail.take(j as int).push(tail[j as int]));
        j = j + 1;
    }
    assert(tail.take(n as int) =~= tail);
    assert(snapshot_writes(snapshot@) =~= seq![snapshot_writes(snapshot@)[0]] + tail);
}

/// The writes that refresh the stored account history: nothing when the
/// history was already queried within the last day; otherwise clear the
/// store, then write the history, each snapshot, and each snapshot's
/// balances right after it.
pub fn plan_history_refresh(history: &AccountHistory, queried_recently: bool) -> (res: Vec<StoreWrite>)
    ensures
        writes_model(res@) == refresh_writes(history@, queried_recently),
        queried_recently ==> res@.len() == 0,
        !queried_recently ==> res@.len() == 2 + history.snapshot_vos@.len() + balance_count(
            history@.snapshots,
        ),
        !queried_recently ==> res@[0]@ == WriteModel::ClearHistory,
        !queried_recently ==> res@[1]@ == (WriteModel::InsertHistory {
            code: history.code as int,
            msg: history.msg@,
        }),
        !queried_recently ==> forall|i: int|
            0 <= i < history.snapshot_vos@.len() ==> res@[2 + snapshot_write_index(
                history@.snapshots,
                i,
            )]@ == (WriteModel::InsertSnapshot {
                total_asset_of_btc: (#[trigger] history.snapshot_vos@[i]).data.total_asset_of_btc@,
                update_time: history.snapshot_vos@[i].update_time as int,
                wallet_type: history.snapshot_vos@[i].wallet_type@,
            }),
        !queried_recently ==> forall|i: int, j: int|
            0 <= i < history.snapshot_vos@.len() && 0 <= j
                < history.snapshot_vos@[i].data.balances@.len() ==> res@[2 + snapshot_write_index(
                history@.snapshots,
                i,
            ) + 1 + j]@ == (WriteModel::InsertBalance {
                asset: (#[trigger] history.snapshot_vos@[i].data.balances@[j]).asset@,
                free: history.snapshot_vos@[i].data.balances@[j].free@,
                locked: history.snapshot_vos@[i].data.balances@[j].locked@,
            }),
{
    let res = plan_writes(history, queried_recently);
    proof {
        let w = writes_model(res@);
        assert(forall|k: int| 0 <= k < res@.len() ==> #[trigger] w[k] == res@[k]@);
        if !queried_recently {
            lemma_refresh_len(history@);
            let head = seq![
                WriteModel::ClearHistory,
                WriteModel::InsertHistory { code: history@.code, msg: history@.msg },
            ];
            assert(w == head + snapshots_writes(history@.snapshots));
            assert(w[1] == head[1]);
            assert forall|i: int| 0 <= i < history.snapshot_vos@.len() implies res@[2
                + snapshot_write_index(history@.snapshots, i)]@ == (WriteModel::InsertSnapshot {
                total_asset_of_btc: (#[trigger] history.snapshot_vos@[i]).data.total_asset_of_btc@,
                update_time: history.snapshot_vos@[i].update_time as int,
                wallet_type: history.snapshot_vos@[i].wallet_type@,
            }) by {
                lemma_refresh_writes_fields(history@, i, -1);
                assert(history@.snapshots[i] == history.snapshot_vos@[i]@);
            }
            assert forall|i: int, j: int|
                0 <= i < history.snapshot_vos@.len() && 0 <= j
                    < history.snapshot_vos@[i].data.balances@.len() implies res@[2
                + snapshot_write_index(history@.snapshots, i) + 1 + j]@ == (WriteModel::InsertBalance {
                asset: (#[trigger] history.snapshot_vos@[i].data.balances@[j]).asset@,
                free: history.snapshot_vos@[i].data.balances@[j].free@,
                locked: history.snapshot_vos@[i].data.balances@[j].locked@,
            }) by {
                assert(history@.snapshots[i] == history.snapshot_vos@[i]@);
                assert(history@.snapshots[i].balances[j] == history.snapshot_vos@[i].data.balances@[j]@);
                lemma_refresh_writes_fields(history@, i, j);
            }
        }
    }
    res
}

fn plan_writes(history: &AccountHistory, queried_recently: bool) -> (res: Vec<StoreWrite>)
    ensures
        writes_model(res@) == refresh_writes(history@, queried_recently),
{
    let mut writes: Vec<StoreWrite> = Vec::new();
    if queried_recently {
        assert(writes_model(writes@) =~= Seq::<WriteModel>::empty());
        return writes;
    }
    writes.push(StoreWrite::ClearHistory);
    writes.push(StoreWrite::InsertHistory { code: history.code, msg: copy_string(&history.msg) });
    let ghost head = seq![
        WriteModel::ClearHistory,
        WriteModel::InsertHistory { code: history@.code, msg: history@.msg },
    ];
    assert(writes_model(writes@) =~= head);
    let ghost snaps = history@.snapshots;
    let n = history.snapshot_vos.len();
    let mut i: usize = 0;
    while i < n
        invariant
            n == history.snapshot_vos@.len(),
            snaps == history@.snapshots,
            i <= n,
            writes_model(writes@) =~= head + snapshots_writes(snaps.take(i as int)),
        decreases n - i,
    {
        let snapshot = &history.snapshot_vos[i];
        assert(snapshot@ == snaps[i as int]);
        push_snapshot_writes(&mut writes, snapshot);
        assert(snaps.take(i + 1).drop_last() =~= snaps.take(i as int));
        assert(snaps.take(i + 1).last() == snaps[i as int]);
        i = i + 1;
    }
    assert(snaps.take(n as int) =~= snaps);
    writes
}

/// The row that stands for a snapshot holding exactly one balance, under a
/// history's code and message.
pub open spec fn row_of_snapshot(code: int, msg: Seq<char>, s: SnapshotModel) -> RowModel {
    RowModel {
        code,
        msg,
        total_asset_of_btc: s.total_asset_of_btc,
        update_time: s.update_time,
        wallet_type: s.wallet_type,
        asset: s.balances[0].asset,
        free: s.balances[0].free,
        locked: s.balances[0].locked,
    }
}

/// The rows that the joined query yields for a history whose snapshots hold
/// one balance each: one row per snapshot, in order.
pub open spec fn rows_of_history(h: HistoryModel) -> Seq<RowModel> {
    h.snapshots.map_values(|s: SnapshotModel| row_of_snapshot(h.code, h.msg, s))
}

/// Every snapshot of the sequence holds exactly one balance.
pub open spec fn one_balance_each(ss: Seq<SnapshotModel>) -> bool {
    forall|i: int| 0 <= i < ss.len() ==> #[trigger] ss[i].balances.len() == 1
}

/// Reassembling the rows of a history gives the history back, when it has at
/// least one snapshot and every snapshot holds exactly one balance.
pub proof fn lemma_rows_reassemble(h: HistoryModel)
    requires
        h.snapshots.len() > 0,
        one_balance_each(h.snapshots),
    ensures
        history_of_rows(rows_of_history(h)) == Some(h),
{
    let rows = rows_of_history(h);
    let rebuilt = rows.map_values(|r: RowModel| snapshot_of_row(r));
    assert forall|i: int| 0 <= i < h.snapshots.len() implies rebuilt[i] == h.snapshots[i] by {
        let s = h.snapshots[i];
        assert(s.balances.len() == 1);
        assert(rebuilt[i].balances =~= s.balances);
    }
    assert(rebuilt =~= h.snapshots);
}

/// Every assembled snapshot holds exactly one balance, and there are as many
/// snapshots as rows.
pub proof fn lemma_assembled_shape(rows: Seq<RowModel>)
    requires
        rows.len() > 0,
    ensures
        history_of_rows(rows)->0.snapshots.len() == rows.len(),
        one_balance_each(history_of_rows(rows)->0.snapshots),
{
}

/// Storing snapshots takes one write per snapshot and one per balance.
pub proof fn lemma_snapshots_writes_len(ss: Seq<SnapshotModel>)
    ensures
        snapshots_writes(ss).len() == ss.len() + balance_count(ss),
    decreases ss.len(),
{
    if ss.len() > 0 {
        lemma_snapshots_writes_len(ss.drop_last());
    }
}

/// A refresh that is not skipped writes the clear and the history, then one
/// write per snapshot and one per balance; its first write clears the store.
pub proof fn lemma_refresh_len(h: HistoryModel)
    ensures
        refresh_writes(h, false).len() == 2 + h.snapshots.len() + balance_count(h.snapshots),
        refresh_writes(h, false)[0] == WriteModel::ClearHistory,
        refresh_writes(h, true).len() == 0,
{
    lemma_snapshots_writes_len(h.snapshots);
}

proof fn lemma_balance_after_snapshot(ss: Seq<SnapshotModel>, k: int)
    requires
        0 <= k < snapshots_writes(ss).len(),
        is_balance_write(snapshots_writes(ss)[k]),
    ensures
        exists|j: int| 0 <= j < k && #[trigger] is_snapshot_write(snapshots_writes(ss)[j]),
    decreases ss.len(),
{
    let prefix = snapshots_writes(ss.drop_last());
    let last = snapshot_writes(ss.last());
    assert(snapshots_writes(ss) == prefix + last);
    if k < prefix.len() {
        lemma_balance_after_snapshot(ss.drop_last(), k);
        let j = choose|j: int| 0 <= j < k && #[trigger] is_snapshot_write(prefix[j]);
        assert(snapshots_writes(ss)[j] == prefix[j]);
    } else {
        let j = prefix.len() as int;
        assert(snapshots_writes(ss)[j] == last[0]);
        assert(is_snapshot_write(snapshots_writes(ss)[j]));
        if k == j {
            assert(snapshots_writes(ss)[k] == last[0]);
        }
    }
}

/// In every refresh, each balance write comes after some snapshot write, so
/// no balance is written before a snapshot it can belong to.
pub proof fn lemma_refresh_balance_after_snapshot(h: HistoryModel, queried_recently: bool, k: int)
    requires
        0 <= k < refresh_writes(h, queried_recently).len(),
        is_balance_write(refresh_writes(h, queried_recently)[k]),
    ensures
        exists|j: int|
            0 <= j < k && #[trigger] is_snapshot_write(refresh_writes(h, queried_recently)[j]),
{
    let w = refresh_writes(h, queried_recently);
    let head = seq![WriteModel::ClearHistory, WriteModel::InsertHistory { code: h.code, msg: h.msg }];
    let tail = snapshots_writes(h.snapshots);
    assert(!queried_recently);
    assert(w == head + tail);
    assert(k >= 2) by {
        if k < 2 {
            assert(w[k] == head[k]);
        }
    }
    lemma_balance_after_snapshot(h.snapshots, k - 2);
    let j = choose|j: int| 0 <= j < k - 2 && #[trigger] is_snapshot_write(tail[j]);
    assert(w[j + 2] == tail[j]);
}

/// Where the write of snapshot `i` stands among the writes that store `ss`:
/// after the writes of the snapshots before it and of all their balances.
pub open spec fn snapshot_write_index(ss: Seq<SnapshotModel>, i: int) -> int {
    i + balance_count(ss.take(i))
}

/// The balances of the snapshots before `k`, together with those of snapshot
/// `k`, are among all the balances.
proof fn lemma_balance_count_prefix(ss: Seq<SnapshotModel>, k: int)
    requires
        0 <= k < ss.len(),
    ensures
        balance_count(ss.take(k)) + ss[k].balances.len() <= balance_count(ss),
        balance_count(ss.take(k + 1)) == balance_count(ss.take(k)) + ss[k].balances.len(),
    decreases ss.len(),
{
    assert(ss.take(k + 1).drop_last() =~= ss.take(k));
    assert(ss.take(k + 1).last() == ss[k]);
    if k < ss.len() - 1 {
        lemma_balance_count_prefix(ss.drop_last(), k);
        assert(ss.drop_last().take(k) =~= ss.take(k));
        assert(ss.drop_last()[k] == ss[k]);
    } else {
        assert(ss.take(k) =~= ss.drop_last());
    }
}

/// In the writes that store a sequence of snapshots, snapshot `i` is written
/// with its own total, update time and wallet type, and right after it come
/// its balances, the `j`-th with that balance's asset, free and locked
/// amounts, unchanged.
pub proof fn lemma_snapshots_writes_at(ss: Seq<SnapshotModel>, i: int, j: int)
    requires
        0 <= i < ss.len(),
        0 <= j < ss[i].balances.len(),
    ensures
        snapshot_write_index(ss, i) + 1 + j < snapshots_writes(ss).len(),
        snapshots_writes(ss)[snapshot_write_index(ss, i)] == (WriteModel::InsertSnapshot {
            total_asset_of_btc: ss[i].total_asset_of_btc,
            update_time: ss[i].update_time,
            wallet_type: ss[i].wallet_type,
        }),
        snapshots_writes(ss)[snapshot_write_index(ss, i) + 1 + j] == (WriteModel::InsertBalance {
            asset: ss[i].balances[j].asset,
            free: ss[i].balances[j].free,
            locked: ss[i].balances[j].locked,
        }),
    decreases ss.len(),
{
    let pre = ss.drop_last();
    let last = ss.last();
    lemma_snapshots_writes_len(pre);
    lemma_snapshots_writes_len(ss);
    lemma_balance_count_prefix(ss, i);
    let all = snapshots_writes(ss);
    let head = snapshots_writes(pre);
    let tail = snapshot_writes(last);
    assert(all == head + tail);
    if i < pre.len() {
        lemma_snapshots_writes_at(pre, i, j);
        assert(pre.take(i) =~= ss.take(i));
        assert(pre[i] == ss[i]);
        assert(snapshot_write_index(pre, i) == snapshot_write_index(ss, i));
    } else {
        assert(ss.take(i) =~= pre);
        assert(last == ss[i]);
        let idx = snapshot_write_index(ss, i);
        assert(idx == head.len());
        assert(all[idx] == tail[0]);
        assert(all[idx + 1 + j] == tail[1 + j]);
    }
}

/// A snapshot without balances is still written, with its own fields.
pub proof fn lemma_snapshots_writes_snapshot_at(ss: Seq<SnapshotModel>, i: int)
    requires
        0 <= i < ss.len(),
    ensures
        snapshot_write_index(ss, i) < snapshots_writes(ss).len(),
        snapshots_writes(ss)[snapshot_write_index(ss, i)] == (WriteModel::InsertSnapshot {
            total_asset_of_btc: ss[i].total_asset_of_btc,
            update_time: ss[i].update_time,
            wallet_type: ss[i].wallet_type,
        }),
    decreases ss.len(),
{
    let pre = ss.drop_last();
    let last = ss.last();
    lemma_snapshots_writes_len(pre);
    lemma_snapshots_writes_len(ss);
    lemma_balance_count_prefix(ss, i);
    let all = snapshots_writes(ss);
    let head = snapshots_writes(pre);
    let tail = snapshot_writes(last);
    assert(all == head + tail);
    if i < pre.len() {
        lemma_snapshots_writes_snapshot_at(pre, i);
        assert(pre.take(i) =~= ss.take(i));
        assert(pre[i] == ss[i]);
    } else {
        assert(ss.take(i) =~= pre);
        assert(all[head.len() as int] == tail[0]);
    }
}

/// A refresh that is not skipped writes, in this order: the clear, the
/// history with its own code and message, then each snapshot `i` with its
/// own total, update time and wallet type at position
/// `2 + i + (balances of the snapshots before i)`, followed by each of its
/// balances `j` with that balance's own asset, free and locked amounts.
pub proof fn lemma_refresh_writes_fields(h: HistoryModel, i: int, j: int)
    requires
        0 <= i < h.snapshots.len(),
        -1 <= j < h.snapshots[i].balances.len(),
    ensures
        refresh_writes(h, false)[0] == WriteModel::ClearHistory,
        refresh_writes(h, false)[1] == (WriteModel::InsertHistory { code: h.code, msg: h.msg }),
        2 + snapshot_write_index(h.snapshots, i) + 1 + j < refresh_writes(h, false).len(),
        refresh_writes(h, false)[2 + snapshot_write_index(h.snapshots, i)] == (WriteModel::InsertSnapshot {
            total_asset_of_btc: h.snapshots[i].total_asset_of_btc,
            update_time: h.snapshots[i].update_time,
            wallet_type: h.snapshots[i].wallet_type,
        }),
        j >= 0 ==> refresh_writes(h, false)[2 + snapshot_write_index(h.snapshots, i) + 1 + j]
            == (WriteModel::InsertBalance {
            asset: h.snapshots[i].balances[j].asset,
            free: h.snapshots[i].balances[j].free,
            locked: h.snapshots[i].balances[j].locked,
        }),
{
    let head = seq![WriteModel::ClearHistory, WriteModel::InsertHistory { code: h.code, msg: h.msg }];
    let tail = snapshots_writes(h.snapshots);
    let w = refresh_writes(h, false);
    assert(w == head + tail);
    lemma_snapshots_writes_snapshot_at(h.snapshots, i);
    let idx = snapshot_write_index(h.snapshots, i);
    assert(w[2 + idx] == tail[idx]);
    if j >= 0 {
        lemma_snapshots_writes_at(h.snapshots, i, j);
        assert(w[2 + idx + 1 + j] == tail[idx + 1 + j]);
    }
}

/// The history put together from rows has the first row's code and message,
/// and its snapshot `i` has row `i`'s total, update time and wallet type and,
/// as its only balance, row `i`'s asset, free and locked amounts.
pub proof fn lemma_history_of_rows_fields(rows: Seq<RowModel>, i: int)
    requires
        0 <= i < rows.len(),
    ensures
        history_of_rows(rows) is Some,
        history_of_rows(rows)->0.code == rows[0].code,
        history_of_rows(rows)->0.msg == rows[0].msg,
        history_of_rows(rows)->0.snapshots.len() == rows.len(),
        history_of_rows(rows)->0.snapshots[i].total_asset_of_btc == rows[i].total_asset_of_btc,
        history_of_rows(rows)->0.snapshots[i].update_time == rows[i].update_time,
        history_of_rows(rows)->0.snapshots[i].wallet_type == rows[i].wallet_type,
        history_of_rows(rows)->0.snapshots[i].balances.len() == 1,
        history_of_rows(rows)->0.snapshots[i].balances[0].asset == rows[i].asset,
        history_of_rows(rows)->0.snapshots[i].balances[0].free == rows[i].free,
        history_of_rows(rows)->0.snapshots[i].balances[0].locked == rows[i].locked,
{
}

/// How far back the account-snapshot query reaches: thirty days.
pub open spec fn snapshot_window_secs() -> int {
    3600 * 24 * 30int
}

/// How long a stored history counts as fresh: one day.
pub open spec fn refresh_interval_secs() -> int {
    3600 * 24int
}

/// The start of the account-snapshot query window, in milliseconds, for a
/// query made at `now_secs` (seconds since the epoch): thirty days earlier.
pub fn snapshot_start_time_ms(now_secs: u64) -> (res: u64)
    requires
        now_secs >= snapshot_window_secs(),
        (now_secs - snapshot_window_secs()) * 1000 <= u64::MAX,
    ensures
        res == (now_secs - snapshot_window_secs()) * 1000,
        res == (now_secs - 2_592_000) * 1000,
{
    (now_secs - 3600 * 24 * 30) * 1000
}

/// The instant before which a stored history is stale, for a refresh made at
/// `now_secs` (seconds since the epoch): one day earlier.
pub fn refresh_cutoff_secs(now_secs: i64) -> (res: i64)
    requires
        now_secs - refresh_interval_secs() >= i64::MIN,
    ensures
        res == now_secs - refresh_interval_secs(),
        res == now_secs - 86_400,
{
    now_secs - 3600 * 24
}

} // verus!
