use vstd::prelude::*;
use crate::db::models::channels::ChannelIds;
use crate::db::queries::{ParamView, SqlParam, Statement, params_of, statement};

verus! {

/// The channel ids as the `channels` table stores them (SQLite integers are
/// signed 64-bit).
#[derive(Clone, Copy, Debug, PartialEq, Eq, Structural)]
pub struct ChannelRow {
    pub individuals_category_id: i64,
    pub anonymous_channel_id: i64,
    pub meta_channel_id: i64,
    pub logs_channel_id: i64,
    pub approval_channel_id: i64,
    pub results_channel_id: i64,
}

/// The row stored for `ids`: each id reinterpreted as a signed 64-bit
/// integer (`as i64`).
pub open spec fn row_of(ids: ChannelIds) -> ChannelRow {
    ChannelRow {
        individuals_category_id: ids.individuals_category_id as i64,
        anonymous_channel_id: ids.anonymous_channel_id as i64,
        meta_channel_id: ids.meta_channel_id as i64,
        logs_channel_id: ids.logs_channel_id as i64,
        approval_channel_id: ids.approval_channel_id as i64,
        results_channel_id: ids.results_channel_id as i64,
    }
}

/// The channel ids read from a stored row (`as u64`).
pub open spec fn ids_of(row: ChannelRow) -> ChannelIds {
    ChannelIds {
        individuals_category_id: row.individuals_category_id as u64,
        anonymous_channel_id: row.anonymous_channel_id as u64,
        meta_channel_id: row.meta_channel_id as u64,
        logs_channel_id: row.logs_channel_id as u64,
        approval_channel_id: row.approval_channel_id as u64,
        results_channel_id: row.results_channel_id as u64,
    }
}

/// The row stored for `ids`.
pub fn channel_row(ids: ChannelIds) -> (r: ChannelRow)
    ensures
        r == row_of(ids),
{
    ChannelRow {
        individuals_category_id: ids.individuals_category_id as i64,
        anonymous_channel_id: ids.anonymous_channel_id as i64,
        meta_channel_id: ids.meta_channel_id as i64,
        logs_channel_id: ids.logs_channel_id as i64,
        approval_channel_id: ids.approval_channel_id as i64,
        results_channel_id: ids.results_channel_id as i64,
    }
}

/// The channel ids read from a stored row (what `get_channels` returns).
pub fn channels_from_row(row: ChannelRow) -> (ids: ChannelIds)
    ensures
        ids == ids_of(row),
{
    ChannelIds {
        individuals_category_id: row.individuals_category_id as u64,
        anonymous_channel_id: row.anonymous_channel_id as u64,
        meta_channel_id: row.meta_channel_id as u64,
        logs_channel_id: row.logs_channel_id as u64,
        approval_channel_id: row.approval_channel_id as u64,
        results_channel_id: row.results_channel_id as u64,
    }
}

/// The channels read back are the channels stored: every `u64` id survives
/// its round trip through the table's signed integers.
pub proof fn stored_channels_read_back(ids: ChannelIds)
    ensures
        ids_of(row_of(ids)) == ids,
{
    let a = ids.individuals_category_id;
    let b = ids.anonymous_channel_id;
    let c = ids.meta_channel_id;
    let d = ids.logs_channel_id;
    let e = ids.approval_channel_id;
    let f = ids.results_channel_id;
    assert(((a as i64) as u64) == a) by (bit_vector);
    assert(((b as i64) as u64) == b) by (bit_vector);
    assert(((c as i64) as u64) == c) by (bit_vector);
    assert(((d as i64) as u64) == d) by (bit_vector);
    assert(((e as i64) as u64) == e) by (bit_vector);
    assert(((f as i64) as u64) == f) by (bit_vector);
}

/// Whether channels are configured at all: any row of `channels`.
pub fn channels_exist_statement() -> (s: Statement)
    ensures
        s.sql@ == "SELECT * FROM channels"@,
        params_of(s) == Seq::<ParamView>::empty(),
{
    statement("SELECT * FROM channels")
}

/// The statement that stores `ids`: an update of the row when one exists,
/// else an insert; the values go in the order logs, goal, anonymous,
/// individual category, approval, results.
pub fn set_channels_statement(existing: bool, ids: ChannelIds) -> (s: Statement)
    ensures
        s.sql@ == (if existing {
            "UPDATE channels SET logs_channel_id = ?, meta_channel_id = ?, anonymous_channel_id = ?, individuals_category_id = ?, approval_channel_id = ?, results_channel_id = ?"@
        } else {
            "INSERT INTO channels (logs_channel_id, meta_channel_id, anonymous_channel_id, individuals_category_id, approval_channel_id, results_channel_id) VALUES (?, ?, ?, ?, ?, ?)"@
        }),
        params_of(s) == seq![
            ParamView::Integer(row_of(ids).logs_channel_id),
            ParamView::Integer(row_of(ids).meta_channel_id),
            ParamView::Integer(row_of(ids).anonymous_channel_id),
            ParamView::Integer(row_of(ids).individuals_category_id),
            ParamView::Integer(row_of(ids).approval_channel_id),
            ParamView::Integer(row_of(ids).results_channel_id),
        ],
{
    let row = channel_row(ids);
    let sql = if existing {
        "UPDATE channels SET logs_channel_id = ?, meta_channel_id = ?, anonymous_channel_id = ?, individuals_category_id = ?, approval_channel_id = ?, results_channel_id = ?"
    } else {
        "INSERT INTO channels (logs_channel_id, meta_channel_id, anonymous_channel_id, individuals_category_id, approval_channel_id, results_channel_id) VALUES (?, ?, ?, ?, ?, ?)"
    };
    let mut params: Vec<SqlParam> = Vec::new();
    params.push(SqlParam::Integer(row.logs_channel_id));
    params.push(SqlParam::Integer(row.meta_channel_id));
    params.push(SqlParam::Integer(row.anonymous_channel_id));
    params.push(SqlParam::Integer(row.individuals_category_id));
    params.push(SqlParam::Integer(row.approval_channel_id));
    params.push(SqlParam::Integer(row.results_channel_id));
    let s = Statement { sql, params };
    assert(params_of(s) =~= seq![
        ParamView::Integer(ids.logs_channel_id as i64),
        ParamView::Integer(ids.meta_channel_id as i64),
        ParamView::Integer(ids.anonymous_channel_id as i64),
        ParamView::Integer(ids.individuals_category_id as i64),
        ParamView::Integer(ids.approval_channel_id as i64),
        ParamView::Integer(ids.results_channel_id as i64),
    ]);
    s
}

/// The statement that reads the configured channels, one column per id.
pub fn get_channels_statement() -> (s: Statement)
    ensures
        s.sql@ == "SELECT individuals_category_id, anonymous_channel_id, meta_channel_id, logs_channel_id, approval_channel_id, results_channel_id FROM channels"@,
        params_of(s) == Seq::<ParamView>::empty(),
{
    statement(
        "SELECT individuals_category_id, anonymous_channel_id, meta_channel_id, logs_channel_id, approval_channel_id, results_channel_id FROM channels",
    )
}

} // verus!
