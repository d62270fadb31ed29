//! The query parameters of each resource type's read endpoint, and the schema
//! descriptor that maps them onto the shared query builder.

use crate::decode::FloatText;
use crate::granularity::Interval;
use crate::query::{
    build_query, opt_view, parse_date_range, plan_of, range_bounds, resolve_sort_field,
    sort_field_of, BindValue, BindView, QueryPlan, QuerySpec, QuerySpecView, Schema,
    SchemaView, Threshold, ThresholdView,
};
use vstd::prelude::*;

verus! {

/// The threshold filter on `column` that an optional integer parameter asks for.
pub open spec fn above_unsigned(column: Seq<char>, v: Option<u64>) -> Seq<ThresholdView> {
    match v {
        Some(x) => seq![ThresholdView { column, value: BindView::Unsigned(x as int) }],
        None => seq![],
    }
}

/// The threshold filter on `column` that an optional float parameter asks for.
pub open spec fn above_float(column: Seq<char>, v: Option<FloatText>) -> Seq<ThresholdView> {
    match v {
        Some(x) => seq![ThresholdView { column, value: BindView::Float(x@) }],
        None => seq![],
    }
}

pub open spec fn thresholds_view(ts: Seq<Threshold>) -> Seq<ThresholdView> {
    ts.map_values(|t: Threshold| t@)
}

fn push_unsigned(ts: &mut Vec<Threshold>, column: &str, v: Option<u64>)
    ensures
        thresholds_view(final(ts)@) == thresholds_view(old(ts)@) + above_unsigned(column@, v),
{
    if let Some(x) = v {
        let ghost before = ts@;
        ts.push(Threshold { column: String::from_str(column), value: BindValue::Unsigned(x) });
        assert(thresholds_view(ts@) =~= thresholds_view(before) + above_unsigned(column@, v));
    } else {
        assert(thresholds_view(ts@) =~= thresholds_view(ts@) + above_unsigned(column@, v));
    }
}

fn push_float(ts: &mut Vec<Threshold>, column: &str, v: &Option<FloatText>)
    ensures
        thresholds_view(final(ts)@) == thresholds_view(old(ts)@) + above_float(column@, *v),
{
    if let Some(x) = v {
        let ghost before = ts@;
        ts.push(Threshold { column: String::from_str(column), value: BindValue::Float(x.copied()) });
        assert(thresholds_view(ts@) =~= thresholds_view(before) + above_float(column@, *v));
    } else {
        assert(thresholds_view(ts@) =~= thresholds_view(ts@) + above_float(column@, *v));
    }
}

fn clone_opt(o: &Option<String>) -> (r: Option<String>)
    ensures
        opt_view(r) == opt_view(*o),
{
    match o {
        Some(s) => Some(s.clone()),
        None => None,
    }
}

/// Parameters of a depth history query.
#[derive(Debug, Clone, PartialEq)]
pub struct DepthHistoryQueryParams {
    pub date_range: Option<String>,
    pub liquidity_gt: Option<u64>,
    /// Accepted, but selects nothing: the store does not record the bucket width.
    pub interval: Option<Interval>,
    pub sort_field: Option<String>,
    pub order: Option<String>,
    pub page: Option<u32>,
    pub limit: Option<u32>,
}

impl DepthHistoryQueryParams {
    /// The shared specification these parameters stand for.
    pub open spec fn spec_view(&self) -> QuerySpecView {
        QuerySpecView {
            date_range: opt_view(self.date_range),
            thresholds: above_unsigned("liquidity_units"@, self.liquidity_gt),
            pool: None,
            sort_by: opt_view(self.sort_field),
            order: opt_view(self.order),
            page: self.page,
            limit: self.limit,
        }
    }

    /// The store of this resource type.
    pub open spec fn schema_view() -> SchemaView {
        SchemaView { table: "depth_intervals"@, default_descending: false }
    }

    pub fn schema() -> (r: Schema)
        ensures
            r@ == Self::schema_view(),
    {
        Schema { table: String::from_str("depth_intervals"), default_descending: false }
    }

    /// The bounds of the date range, if it is well formed.
    pub fn parse_date_range(&self) -> (r: Option<(i64, i64)>)
        ensures
            r == range_bounds(opt_view(self.date_range)),
    {
        match &self.date_range {
            Some(s) => parse_date_range(s.as_str()),
            None => None,
        }
    }

    /// The column to sort by, with `timestamp` mapped to `start_time`.
    pub fn get_sort_field(&self) -> (r: &str)
        ensures
            r@ == sort_field_of(opt_view(self.sort_field)),
    {
        resolve_sort_field(&self.sort_field)
    }

    pub fn query_spec(&self) -> (r: QuerySpec)
        ensures
            r@ == self.spec_view(),
    {
        let mut thresholds: Vec<Threshold> = Vec::new();
        push_unsigned(&mut thresholds, "liquidity_units", self.liquidity_gt);
        let r = QuerySpec {
            date_range: clone_opt(&self.date_range),
            thresholds,
            pool: None,
            sort_by: clone_opt(&self.sort_field),
            order: clone_opt(&self.order),
            page: self.page,
            limit: self.limit,
        };
        assert(r@.thresholds =~= self.spec_view().thresholds);
        r
    }

    /// The query these parameters ask of this resource's store.
    pub fn build_query(&self) -> (r: QueryPlan)
        ensures
            r@ == plan_of(self.spec_view(), Self::schema_view()),
    {
        build_query(&self.query_spec(), &Self::schema())
    }
}

/// Parameters of an earnings history query. Without an order token, rows
/// come in descending order.
#[derive(Debug, Clone, PartialEq)]
pub struct EarningsHistoryQueryParams {
    pub date_range: Option<String>,
    pub page: Option<u32>,
    pub limit: Option<u32>,
    pub sort_by: Option<String>,
    pub order: Option<String>,
    pub earnings_gt: Option<u64>,
    pub block_rewards_gt: Option<u64>,
    pub node_count_gt: Option<FloatText>,
    pub pool: Option<String>,
}

impl EarningsHistoryQueryParams {
    /// The shared specification these parameters stand for.
    pub open spec fn spec_view(&self) -> QuerySpecView {
        QuerySpecView {
            date_range: opt_view(self.date_range),
            thresholds: above_unsigned("earnings"@, self.earnings_gt)
                + above_unsigned("block_rewards"@, self.block_rewards_gt)
                + above_float("avg_node_count"@, self.node_count_gt),
            pool: opt_view(self.pool),
            sort_by: opt_view(self.sort_by),
            order: opt_view(self.order),
            page: self.page,
            limit: self.limit,
        }
    }

    /// The store of this resource type.
    pub open spec fn schema_view() -> SchemaView {
        SchemaView { table: "earning_intervals"@, default_descending: true }
    }

    pub fn schema() -> (r: Schema)
        ensures
            r@ == Self::schema_view(),
    {
        Schema { table: String::from_str("earning_intervals"), default_descending: true }
    }

    /// The bounds of the date range, if it is well formed.
    pub fn parse_date_range(&self) -> (r: Option<(i64, i64)>)
        ensures
            r == range_bounds(opt_view(self.date_range)),
    {
        match &self.date_range {
            Some(s) => parse_date_range(s.as_str()),
            None => None,
        }
    }

    /// The column to sort by, with `timestamp` mapped to `start_time`.
    pub fn get_sort_field(&self) -> (r: &str)
        ensures
            r@ == sort_field_of(opt_view(self.sort_by)),
    {
        resolve_sort_field(&self.sort_by)
    }

    pub fn query_spec(&self) -> (r: QuerySpec)
        ensures
            r@ == self.spec_view(),
    {
        let mut thresholds: Vec<Threshold> = Vec::new();
        push_unsigned(&mut thresholds, "earnings", self.earnings_gt);
        push_unsigned(&mut thresholds, "block_rewards", self.block_rewards_gt);
        push_float(&mut thresholds, "avg_node_count", &self.node_count_gt);
        let r = QuerySpec {
            date_range: clone_opt(&self.date_range),
            thresholds,
            pool: clone_opt(&self.pool),
            sort_by: clone_opt(&self.sort_by),
            order: clone_opt(&self.order),
            page: self.page,
            limit: self.limit,
        };
        assert(r@.thresholds =~= self.spec_view().thresholds);
        r
    }

    /// The query these parameters ask of this resource's store.
    pub fn build_query(&self) -> (r: QueryPlan)
        ensures
            r@ == plan_of(self.spec_view(), Self::schema_view()),
    {
        build_query(&self.query_spec(), &Self::schema())
    }
}

/// Parameters of a swap history query.
#[derive(Debug, Clone, PartialEq)]
pub struct SwapHistoryQueryParams {
    pub date_range: Option<String>,
    pub page: Option<u32>,
    pub limit: Option<u32>,
    pub sort_by: Option<String>,
    pub order: Option<String>,
    pub volume_gt: Option<u64>,
    pub fees_gt: Option<u64>,
}

impl SwapHistoryQueryParams {
    /// The shared specification these parameters stand for.
    pub open spec fn spec_view(&self) -> QuerySpecView {
        QuerySpecView {
            date_range: opt_view(self.date_range),
            thresholds: above_unsigned("total_volume"@, self.volume_gt)
                + above_unsigned("total_fees"@, self.fees_gt),
            pool: None,
            sort_by: opt_view(self.sort_by),
            order: opt_view(self.order),
            page: self.page,
            limit: self.limit,
        }
    }

    /// The store of this resource type.
    pub open spec fn schema_view() -> SchemaView {
        SchemaView { table: "swap_intervals"@, default_descending: false }
    }

    pub fn schema() -> (r: Schema)
        ensures
            r@ == Self::schema_view(),
    {
        Schema { table: String::from_str("swap_intervals"), default_descending: false }
    }

    /// The bounds of the date range, if it is well formed.
    pub fn parse_date_range(&self) -> (r: Option<(i64, i64)>)
        ensures
            r == range_bounds(opt_view(self.date_range)),
    {
        match &self.date_range {
            Some(s) => parse_date_range(s.as_str()),
            None => None,
        }
    }

    /// The column to sort by, with `timestamp` mapped to `start_time`.
    pub fn get_sort_field(&self) -> (r: &str)
        ensures
            r@ == sort_field_of(opt_view(self.sort_by)),
    {
        resolve_sort_field(&self.sort_by)
    }

    pub fn query_spec(&self) -> (r: QuerySpec)
        ensures
            r@ == self.spec_view(),
    {
        let mut thresholds: Vec<Threshold> = Vec::new();
        push_unsigned(&mut thresholds, "total_volume", self.volume_gt);
        push_unsigned(&mut thresholds, "total_fees", self.fees_gt);
        let r = QuerySpec {
            date_range: clone_opt(&self.date_range),
            thresholds,
            pool: None,
            sort_by: clone_opt(&self.sort_by),
            order: clone_opt(&self.order),
            page: self.page,
            limit: self.limit,
        };
        assert(r@.thresholds =~= self.spec_view().thresholds);
        r
    }

    /// The query these parameters ask of this resource's store.
    pub fn build_query(&self) -> (r: QueryPlan)
        ensures
            r@ == plan_of(self.spec_view(), Self::schema_view()),
    {
        build_query(&self.query_spec(), &Self::schema())
    }
}

/// Parameters of a pool-unit history query. Without an order token, rows
/// come in descending order.
#[derive(Debug, Clone, PartialEq)]
pub struct RunepoolUnitsHistoryQueryParams {
    pub date_range: Option<String>,
    pub units_gt: Option<u64>,
    pub sort_by: Option<String>,
    pub order: Option<String>,
    pub page: Option<u32>,
    pub limit: Option<u32>,
}

impl RunepoolUnitsHistoryQueryParams {
    /// The shared specification these parameters stand for.
    pub open spec fn spec_view(&self) -> QuerySpecView {
        QuerySpecView {
            date_range: opt_view(self.date_range),
            thresholds: above_unsigned("units"@, self.units_gt),
            pool: None,
            sort_by: opt_view(self.sort_by),
            order: opt_view(self.order),
            page: self.page,
            limit: self.limit,
        }
    }

    /// The store of this resource type.
    pub open spec fn schema_view() -> SchemaView {
        SchemaView { table: "runepool_unit_intervals"@, default_descending: true }
    }

    pub fn schema() -> (r: Schema)
        ensures
            r@ == Self::schema_view(),
    {
        Schema { table: String::from_str("runepool_unit_intervals"), default_descending: true }
    }

    /// The bounds of the date range, if it is well formed.
    pub fn parse_date_range(&self) -> (r: Option<(i64, i64)>)
        ensures
            r == range_bounds(opt_view(self.date_range)),
    {
        match &self.date_range {
            Some(s) => parse_date_range(s.as_str()),
            None => None,
        }
    }

    /// The column to sort by, with `timestamp` mapped to `start_time`.
    pub fn get_sort_field(&self) -> (r: &str)
        ensures
            r@ == sort_field_of(opt_view(self.sort_by)),
    {
        resolve_sort_field(&self.sort_by)
    }

    pub fn query_spec(&self) -> (r: QuerySpec)
        ensures
            r@ == self.spec_view(),
    {
        let mut thresholds: Vec<Threshold> = Vec::new();
        push_unsigned(&mut thresholds, "units", self.units_gt);
        let r = QuerySpec {
            date_range: clone_opt(&self.date_range),
            thresholds,
            pool: None,
            sort_by: clone_opt(&self.sort_by),
            order: clone_opt(&self.order),
            page: self.page,
            limit: self.limit,
        };
        assert(r@.thresholds =~= self.spec_view().thresholds);
        r
    }

    /// The query these parameters ask of this resource's store.
    pub fn build_query(&self) -> (r: QueryPlan)
        ensures
            r@ == plan_of(self.spec_view(), Self::schema_view()),
    {
        build_query(&self.query_spec(), &Self::schema())
    }
}

} // verus!
