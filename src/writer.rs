//! The ingestion writer: how a decoded interval becomes one insert, and what a
//! write failure means for the page and the watermark.

use crate::engine::{stored_page, Outcome};
use crate::query::{BindValue, BindView};
use crate::records::{DepthInterval, IntervalData, RunepoolUnitsInterval, SwapInterval, TimeBucket};
use vstd::prelude::*;

verus! {

/// Why a write to the store failed.
#[derive(Debug, Clone, PartialEq)]
pub enum StorageError {
    /// The row was already there, as after a retried page.
    Duplicate,
    /// Any other failure, with the store's message.
    Failed(String),
}

/// Whether a write leaves the interval stored: a duplicate is as good as a
/// fresh insert, so a replayed page never fails ingestion.
pub fn write_counts(r: &Result<(), StorageError>) -> (ok: bool)
    ensures
        ok == (r matches Ok(_) || r matches Err(StorageError::Duplicate)),
{
    match r {
        Ok(_) => true,
        Err(StorageError::Duplicate) => true,
        Err(StorageError::Failed(_)) => false,
    }
}

/// The outcome to report once a page has been written: the page itself when
/// every write counted, a store failure otherwise.
pub fn page_outcome<T: TimeBucket>(page: &Vec<T>, written: &Result<(), StorageError>) -> (r: Outcome)
    ensures
        (written matches Ok(_) || written matches Err(StorageError::Duplicate)) ==> r == (Outcome::Stored {
            count: page.len() as u64,
            last_end: if page.len() == 0 {
                None
            } else {
                Some(page[page.len() - 1].end_spec() as i64)
            },
        }),
        written matches Err(StorageError::Failed(_)) ==> r == Outcome::StoreFailed,
{
    if write_counts(written) {
        stored_page(page)
    } else {
        Outcome::StoreFailed
    }
}

pub open spec fn binds_view(v: Seq<BindValue>) -> Seq<BindView> {
    v.map_values(|b: BindValue| b@)
}

impl DepthInterval {
    /// The statement that inserts one interval; its placeholders take `row()` in order.
    pub fn insert_statement() -> (r: &'static str)
        ensures
            r@ == "INSERT INTO `depth_intervals` (start_time, end_time, asset_depth, \
                asset_price, asset_price_usd, liquidity_units, luvi, members_count, \
                rune_depth, synth_supply, synth_units, units) VALUES (?, ?, ?, ?, ?, ?, \
                ?, ?, ?, ?, ?, ?)"@,
    {
        "INSERT INTO `depth_intervals` (start_time, end_time, asset_depth, \
            asset_price, asset_price_usd, liquidity_units, luvi, members_count, \
            rune_depth, synth_supply, synth_units, units) VALUES (?, ?, ?, ?, ?, ?, ?, \
            ?, ?, ?, ?, ?)"
    }

    /// The values of the inserted columns, in the order of the statement.
    pub open spec fn row_view(&self) -> Seq<BindView> {
        seq![
            BindView::Timestamp(self.start_time as int),
            BindView::Timestamp(self.end_time as int),
            BindView::Unsigned(self.asset_depth as int),
            BindView::Float(self.asset_price@),
            BindView::Float(self.asset_price_usd@),
            BindView::Unsigned(self.liquidity_units as int),
            BindView::Float(self.luvi@),
            BindView::Unsigned(self.members_count as int),
            BindView::Unsigned(self.rune_depth as int),
            BindView::Unsigned(self.synth_supply as int),
            BindView::Unsigned(self.synth_units as int),
            BindView::Unsigned(self.units as int),
        ]
    }

    pub fn row(&self) -> (r: Vec<BindValue>)
        ensures
            binds_view(r@) == self.row_view(),
    {
        let mut v: Vec<BindValue> = Vec::new();
        v.push(BindValue::Timestamp(self.start_time));
        v.push(BindValue::Timestamp(self.end_time));
        v.push(BindValue::Unsigned(self.asset_depth as u64));
        v.push(BindValue::Float(self.asset_price.copied()));
        v.push(BindValue::Float(self.asset_price_usd.copied()));
        v.push(BindValue::Unsigned(self.liquidity_units as u64));
        v.push(BindValue::Float(self.luvi.copied()));
        v.push(BindValue::Unsigned(self.members_count as u64));
        v.push(BindValue::Unsigned(self.rune_depth as u64));
        v.push(BindValue::Unsigned(self.synth_supply as u64));
        v.push(BindValue::Unsigned(self.synth_units as u64));
        v.push(BindValue::Unsigned(self.units as u64));
        assert(binds_view(v@) =~= self.row_view());
        v
    }
}

impl SwapInterval {
    /// The statement that inserts one interval; its placeholders take `row()` in order.
    pub fn insert_statement() -> (r: &'static str)
        ensures
            r@ == "INSERT INTO `swap_intervals` (start_time, end_time, average_slip, \
                rune_price_usd, total_count, total_fees, total_volume, \
                total_volume_usd) VALUES (?, ?, ?, ?, ?, ?, ?, ?)"@,
    {
        "INSERT INTO `swap_intervals` (start_time, end_time, average_slip, \
            rune_price_usd, total_count, total_fees, total_volume, \
            total_volume_usd) VALUES (?, ?, ?, ?, ?, ?, ?, ?)"
    }

    /// The values of the inserted columns, in the order of the statement.
    pub open spec fn row_view(&self) -> Seq<BindView> {
        seq![
            BindView::Timestamp(self.start_time as int),
            BindView::Timestamp(self.end_time as int),
            BindView::Float(self.average_slip@),
            BindView::Float(self.rune_price_usd@),
            BindView::Unsigned(self.total_count as int),
            BindView::Unsigned(self.total_fees as int),
            BindView::Unsigned(self.total_volume as int),
            BindView::Float(self.total_volume_usd@),
        ]
    }

    pub fn row(&self) -> (r: Vec<BindValue>)
        ensures
            binds_view(r@) == self.row_view(),
    {
        let mut v: Vec<BindValue> = Vec::new();
        v.push(BindValue::Timestamp(self.start_time));
        v.push(BindValue::Timestamp(self.end_time));
        v.push(BindValue::Float(self.average_slip.copied()));
        v.push(BindValue::Float(self.rune_price_usd.copied()));
        v.push(BindValue::Unsigned(self.total_count as u64));
        v.push(BindValue::Unsigned(self.total_fees as u64));
        v.push(BindValue::Unsigned(self.total_volume as u64));
        v.push(BindValue::Float(self.total_volume_usd.copied()));
        assert(binds_view(v@) =~= self.row_view());
        v
    }
}

impl IntervalData {
    /// The statement that inserts one interval; its placeholders take `row()` in
    /// order, then the pool list as a JSON array.
    pub fn insert_statement() -> (r: &'static str)
        ensures
            r@ == "INSERT INTO `earning_intervals` (start_time, end_time, avg_node_count, \
                block_rewards, bonding_earnings, earnings, liquidity_earnings, \
                liquidity_fees, rune_price_usd, pools) VALUES (?, ?, ?, ?, ?, ?, ?, ?, \
                ?, ?)"@,
    {
        "INSERT INTO `earning_intervals` (start_time, end_time, avg_node_count, \
            block_rewards, bonding_earnings, earnings, liquidity_earnings, \
            liquidity_fees, rune_price_usd, pools) VALUES (?, ?, ?, ?, ?, ?, ?, ?, ?, ?)"
    }

    /// The values of the inserted columns, in the order of the statement.
    pub open spec fn row_view(&self) -> Seq<BindView> {
        seq![
            BindView::Timestamp(self.start_time as int),
            BindView::Timestamp(self.end_time as int),
            BindView::Float(self.avg_node_count@),
            BindView::Unsigned(self.block_rewards as int),
            BindView::Unsigned(self.bonding_earnings as int),
            BindView::Unsigned(self.earnings as int),
            BindView::Unsigned(self.liquidity_earnings as int),
            BindView::Unsigned(self.liquidity_fees as int),
            BindView::Float(self.rune_price_usd@),
        ]
    }

    pub fn row(&self) -> (r: Vec<BindValue>)
        ensures
            binds_view(r@) == self.row_view(),
    {
        let mut v: Vec<BindValue> = Vec::new();
        v.push(BindValue::Timestamp(self.start_time));
        v.push(BindValue::Timestamp(self.end_time));
        v.push(BindValue::Float(self.avg_node_count.copied()));
        v.push(BindValue::Unsigned(self.block_rewards as u64));
        v.push(BindValue::Unsigned(self.bonding_earnings as u64));
        v.push(BindValue::Unsigned(self.earnings as u64));
        v.push(BindValue::Unsigned(self.liquidity_earnings as u64));
        v.push(BindValue::Unsigned(self.liquidity_fees as u64));
        v.push(BindValue::Float(self.rune_price_usd.copied()));
        assert(binds_view(v@) =~= self.row_view());
        v
    }
}

impl RunepoolUnitsInterval {
    /// The statement that inserts one interval; its placeholders take `row()` in order.
    pub fn insert_statement() -> (r: &'static str)
        ensures
            r@ == "INSERT INTO `runepool_unit_intervals` (start_time, end_time, count, \
                units) VALUES (?, ?, ?, ?)"@,
    {
        "INSERT INTO `runepool_unit_intervals` (start_time, end_time, count, \
            units) VALUES (?, ?, ?, ?)"
    }

    /// The values of the inserted columns, in the order of the statement.
    pub open spec fn row_view(&self) -> Seq<BindView> {
        seq![
            BindView::Timestamp(self.start_time as int),
            BindView::Timestamp(self.end_time as int),
            BindView::Unsigned(self.count as int),
            BindView::Unsigned(self.units as int),
        ]
    }

    pub fn row(&self) -> (r: Vec<BindValue>)
        ensures
            binds_view(r@) == self.row_view(),
    {
        let mut v: Vec<BindValue> = Vec::new();
        v.push(BindValue::Timestamp(self.start_time));
        v.push(BindValue::Timestamp(self.end_time));
        v.push(BindValue::Unsigned(self.count as u64));
        v.push(BindValue::Unsigned(self.units as u64));
        assert(binds_view(v@) =~= self.row_view());
        v
    }
}

} // verus!
