//! The filtered-query protocol that all four resource types share: a request
//! specification becomes a parameterized statement over a schema descriptor.

use crate::decode::{FloatText, FloatView};
use crate::records::Pool;
use crate::text::{comma_count, comma_position, split_at_comma, str_eq};
use vstd::prelude::*;

verus! {

/// Rows per page when the request names no limit.
pub const DEFAULT_PAGE_SIZE: u32 = 30;

/// Most rows per page, whatever the request asks for.
pub const MAX_PAGE_SIZE: u32 = 400;

/// The UTC instant, in Unix seconds, that chrono reads from `text` with `format`.
pub uninterp spec fn datetime_seconds(text: Seq<char>, format: Seq<char>) -> Option<i64>;

/// Relies on chrono's `NaiveDateTime::parse_from_str`, then `and_utc().timestamp()`:
/// the result depends on the two strings alone.
#[verifier::external_body]
fn parse_utc_datetime(text: &str, format: &str) -> (r: Option<i64>)
    ensures
        r == datetime_seconds(text@, format@),
{
    match chrono::NaiveDateTime::parse_from_str(text, format) {
        Ok(d) => Some(d.and_utc().timestamp()),
        Err(_) => None,
    }
}

pub open spec fn datetime_format() -> Seq<char> {
    "%Y-%m-%d %H:%M:%S"@
}

/// The bounds that a `YYYY-MM-DD,YYYY-MM-DD` range selects: from the start of
/// the first day to the last second of the second, both inclusive. Anything
/// else selects none.
pub open spec fn date_bounds(s: Seq<char>) -> Option<(i64, i64)> {
    if comma_count(s) == 1 {
        let k = comma_position(s);
        match (
            datetime_seconds(s.take(k) + " 00:00:00"@, datetime_format()),
            datetime_seconds(s.skip(k + 1) + " 23:59:59"@, datetime_format()),
        ) {
            (Some(a), Some(b)) => Some((a, b)),
            _ => None,
        }
    } else {
        None
    }
}

/// Reads a `YYYY-MM-DD,YYYY-MM-DD` date range; malformed or one-sided input gives `None`.
pub fn parse_date_range(range: &str) -> (r: Option<(i64, i64)>)
    ensures
        r == date_bounds(range@),
{
    match split_at_comma(range) {
        None => None,
        Some((left, right)) => {
            let start_text = left.concat(" 00:00:00");
            let end_text = right.concat(" 23:59:59");
            let start = parse_utc_datetime(start_text.as_str(), "%Y-%m-%d %H:%M:%S");
            let end = parse_utc_datetime(end_text.as_str(), "%Y-%m-%d %H:%M:%S");
            match (start, end) {
                (Some(a), Some(b)) => Some((a, b)),
                _ => None,
            }
        },
    }
}

pub open spec fn opt_view(o: Option<String>) -> Option<Seq<char>> {
    match o {
        Some(s) => Some(s@),
        None => None,
    }
}

/// The bounds of an optional date range.
pub open spec fn range_bounds(range: Option<Seq<char>>) -> Option<(i64, i64)> {
    match range {
        Some(s) => date_bounds(s),
        None => None,
    }
}

fn parse_optional_range(range: &Option<String>) -> (r: Option<(i64, i64)>)
    ensures
        r == range_bounds(opt_view(*range)),
{
    match range {
        Some(s) => parse_date_range(s.as_str()),
        None => None,
    }
}

/// The column a sort request names: `timestamp` is the public alias of
/// `start_time`, which is also the default; any other name passes through.
pub open spec fn sort_field_of(sort_by: Option<Seq<char>>) -> Seq<char> {
    match sort_by {
        None => "start_time"@,
        Some(f) => if f == "timestamp"@ {
            "start_time"@
        } else {
            f
        },
    }
}

pub fn resolve_sort_field(sort_by: &Option<String>) -> (r: &str)
    ensures
        r@ == sort_field_of(opt_view(*sort_by)),
{
    match sort_by {
        Some(f) => if str_eq(f.as_str(), "timestamp") {
            "start_time"
        } else {
            f.as_str()
        },
        None => "start_time",
    }
}

/// Whether rows come in descending order: exactly the token `desc` asks for it,
/// any other token for ascending, and no token for the resource's default.
pub open spec fn descending_of(order: Option<Seq<char>>, default_descending: bool) -> bool {
    match order {
        Some(o) => o == "desc"@,
        None => default_descending,
    }
}

pub fn resolve_descending(order: &Option<String>, default_descending: bool) -> (r: bool)
    ensures
        r == descending_of(opt_view(*order), default_descending),
{
    match order {
        Some(o) => str_eq(o.as_str(), "desc"),
        None => default_descending,
    }
}

/// Rows per page: the requested limit or the default, capped.
pub open spec fn limit_of(limit: Option<u32>) -> u32 {
    let l = match limit {
        Some(l) => l,
        None => DEFAULT_PAGE_SIZE,
    };
    if l < MAX_PAGE_SIZE {
        l
    } else {
        MAX_PAGE_SIZE
    }
}

/// Rows skipped: the zero-based page number times the page size.
pub open spec fn offset_of(page: Option<u32>, limit: Option<u32>) -> int {
    let p = match page {
        Some(p) => p,
        None => 0,
    };
    p as int * limit_of(limit) as int
}

pub fn page_limit(limit: Option<u32>) -> (r: u32)
    ensures
        r == limit_of(limit),
{
    let l = match limit {
        Some(l) => l,
        None => DEFAULT_PAGE_SIZE,
    };
    if l < MAX_PAGE_SIZE {
        l
    } else {
        MAX_PAGE_SIZE
    }
}

pub fn page_offset(page: Option<u32>, limit: Option<u32>) -> (r: u64)
    ensures
        r == offset_of(page, limit),
{
    let p = match page {
        Some(p) => p,
        None => 0,
    };
    let l = page_limit(limit);
    assert(p as int * l as int <= u32::MAX as int * MAX_PAGE_SIZE as int) by (nonlinear_arith)
        requires
            p <= u32::MAX,
            l <= MAX_PAGE_SIZE,
    ;
    p as u64 * l as u64
}


/// A value bound to one `?` placeholder.
#[derive(Debug, Clone, PartialEq)]
pub enum BindValue {
    /// An instant, in Unix seconds.
    Timestamp(i64),
    Unsigned(u64),
    Float(FloatText),
    Text(String),
}

pub ghost enum BindView {
    Timestamp(int),
    Unsigned(int),
    Float(FloatView),
    Text(Seq<char>),
}

impl View for BindValue {
    type V = BindView;

    open spec fn view(&self) -> BindView {
        match self {
            BindValue::Timestamp(t) => BindView::Timestamp(*t as int),
            BindValue::Unsigned(v) => BindView::Unsigned(*v as int),
            BindValue::Float(f) => BindView::Float(f@),
            BindValue::Text(s) => BindView::Text(s@),
        }
    }
}

impl BindValue {
    /// A copy with the same value.
    pub fn copied(&self) -> (r: BindValue)
        ensures
            r@ == self@,
    {
        match self {
            BindValue::Timestamp(t) => BindValue::Timestamp(*t),
            BindValue::Unsigned(v) => BindValue::Unsigned(*v),
            BindValue::Float(f) => BindValue::Float(f.copied()),
            BindValue::Text(s) => BindValue::Text(s.clone()),
        }
    }
}

/// A threshold filter: rows whose `column` exceeds `value`.
#[derive(Debug, Clone, PartialEq)]
pub struct Threshold {
    pub column: String,
    pub value: BindValue,
}

pub ghost struct ThresholdView {
    pub column: Seq<char>,
    pub value: BindView,
}

impl View for Threshold {
    type V = ThresholdView;

    open spec fn view(&self) -> ThresholdView {
        ThresholdView { column: self.column@, value: self.value@ }
    }
}

/// One condition of the `WHERE` clause.
#[derive(Debug, Clone, PartialEq)]
pub enum Predicate {
    /// `start_time >= ?`
    StartsAtOrAfter(i64),
    /// `end_time <= ?`
    EndsAtOrBefore(i64),
    /// `column > ?`
    Above { column: String, value: BindValue },
    /// The interval's pool list holds a pool of exactly this name.
    HasPool(String),
}

pub ghost enum PredicateView {
    StartsAtOrAfter(int),
    EndsAtOrBefore(int),
    Above(Seq<char>, BindView),
    HasPool(Seq<char>),
}

impl View for Predicate {
    type V = PredicateView;

    open spec fn view(&self) -> PredicateView {
        match self {
            Predicate::StartsAtOrAfter(t) => PredicateView::StartsAtOrAfter(*t as int),
            Predicate::EndsAtOrBefore(t) => PredicateView::EndsAtOrBefore(*t as int),
            Predicate::Above { column, value } => PredicateView::Above(column@, value@),
            Predicate::HasPool(p) => PredicateView::HasPool(p@),
        }
    }
}

/// A request-scoped query specification, common to all resource types.
#[derive(Debug, Clone, PartialEq)]
pub struct QuerySpec {
    pub date_range: Option<String>,
    pub thresholds: Vec<Threshold>,
    pub pool: Option<String>,
    pub sort_by: Option<String>,
    pub order: Option<String>,
    pub page: Option<u32>,
    pub limit: Option<u32>,
}

pub ghost struct QuerySpecView {
    pub date_range: Option<Seq<char>>,
    pub thresholds: Seq<ThresholdView>,
    pub pool: Option<Seq<char>>,
    pub sort_by: Option<Seq<char>>,
    pub order: Option<Seq<char>>,
    pub page: Option<u32>,
    pub limit: Option<u32>,
}

impl View for QuerySpec {
    type V = QuerySpecView;

    open spec fn view(&self) -> QuerySpecView {
        QuerySpecView {
            date_range: opt_view(self.date_range),
            thresholds: self.thresholds@.map_values(|t: Threshold| t@),
            pool: opt_view(self.pool),
            sort_by: opt_view(self.sort_by),
            order: opt_view(self.order),
            page: self.page,
            limit: self.limit,
        }
    }
}

/// What the query builder needs to know of one resource type's store.
#[derive(Debug, Clone, PartialEq)]
pub struct Schema {
    pub table: String,
    /// Order used when the request names none.
    pub default_descending: bool,
}

pub ghost struct SchemaView {
    pub table: Seq<char>,
    pub default_descending: bool,
}

impl View for Schema {
    type V = SchemaView;

    open spec fn view(&self) -> SchemaView {
        SchemaView { table: self.table@, default_descending: self.default_descending }
    }
}

/// A built query: the table, its conditions in order, the order and the page.
#[derive(Debug, Clone, PartialEq)]
pub struct QueryPlan {
    pub table: String,
    pub predicates: Vec<Predicate>,
    pub sort_field: String,
    pub descending: bool,
    pub limit: u32,
    pub offset: u64,
}

pub ghost struct PlanView {
    pub table: Seq<char>,
    pub predicates: Seq<PredicateView>,
    pub sort_field: Seq<char>,
    pub descending: bool,
    pub limit: int,
    pub offset: int,
}

impl View for QueryPlan {
    type V = PlanView;

    open spec fn view(&self) -> PlanView {
        PlanView {
            table: self.table@,
            predicates: self.predicates@.map_values(|p: Predicate| p@),
            sort_field: self.sort_field@,
            descending: self.descending,
            limit: self.limit as int,
            offset: self.offset as int,
        }
    }
}

/// The date conditions of an optional range: both bounds, or none.
pub open spec fn date_predicates(range: Option<Seq<char>>) -> Seq<PredicateView> {
    match range_bounds(range) {
        Some((a, b)) => seq![
            PredicateView::StartsAtOrAfter(a as int),
            PredicateView::EndsAtOrBefore(b as int),
        ],
        None => seq![],
    }
}

pub open spec fn threshold_predicates(ts: Seq<ThresholdView>) -> Seq<PredicateView> {
    ts.map_values(|t: ThresholdView| PredicateView::Above(t.column, t.value))
}

pub open spec fn pool_predicates(pool: Option<Seq<char>>) -> Seq<PredicateView> {
    match pool {
        Some(p) => seq![PredicateView::HasPool(p)],
        None => seq![],
    }
}

/// The query a specification asks of a schema: the date range, then each
/// threshold in order, then pool membership; sorted and paged as requested.
pub open spec fn plan_of(q: QuerySpecView, s: SchemaView) -> PlanView {
    PlanView {
        table: s.table,
        predicates: date_predicates(q.date_range) + threshold_predicates(q.thresholds)
            + pool_predicates(q.pool),
        sort_field: sort_field_of(q.sort_by),
        descending: descending_of(q.order, s.default_descending),
        limit: limit_of(q.limit) as int,
        offset: offset_of(q.page, q.limit),
    }
}

/// Builds the query that `q` asks of the store that `schema` describes.
pub fn build_query(q: &QuerySpec, schema: &Schema) -> (r: QueryPlan)
    ensures
        r@ == plan_of(q@, schema@),
{
    let mut predicates: Vec<Predicate> = Vec::new();
    if let Some((a, b)) = parse_optional_range(&q.date_range) {
        predicates.push(Predicate::StartsAtOrAfter(a));
        predicates.push(Predicate::EndsAtOrBefore(b));
    }
    let ghost dates = predicates@.map_values(|p: Predicate| p@);
    assert(dates == date_predicates(q@.date_range));
    let mut i: usize = 0;
    while i < q.thresholds.len()
        invariant
            i <= q.thresholds.len(),
            predicates@.map_values(|p: Predicate| p@) == dates + threshold_predicates(
                q@.thresholds.take(i as int),
            ),
        decreases q.thresholds.len() - i,
    {
        let t = &q.thresholds[i];
        let ghost before = predicates@;
        predicates.push(Predicate::Above { column: t.column.clone(), value: t.value.copied() });
        assert(predicates@.map_values(|p: Predicate| p@) =~= before.map_values(|p: Predicate| p@).push(
            PredicateView::Above(t.column@, t.value@),
        ));
        assert(q@.thresholds.take(i + 1) == q@.thresholds.take(i as int).push(q@.thresholds[i as int]));
        assert(threshold_predicates(q@.thresholds.take(i + 1)) == threshold_predicates(
            q@.thresholds.take(i as int),
        ).push(PredicateView::Above(t.column@, t.value@)));
        assert(predicates@.map_values(|p: Predicate| p@) =~= dates + threshold_predicates(
            q@.thresholds.take(i + 1),
        ));
        i += 1;
    }
    assert(q@.thresholds.take(i as int) == q@.thresholds);
    if let Some(p) = &q.pool {
        predicates.push(Predicate::HasPool(p.clone()));
    }
    assert(predicates@.map_values(|p: Predicate| p@) == dates + threshold_predicates(q@.thresholds)
        + pool_predicates(q@.pool));
    QueryPlan {
        table: schema.table.clone(),
        predicates,
        sort_field: String::from_str(resolve_sort_field(&q.sort_by)),
        descending: resolve_descending(&q.order, schema.default_descending),
        limit: page_limit(q.limit),
        offset: page_offset(q.page, q.limit),
    }
}

/// `timestamp` and `start_time` ask for the same query.
pub proof fn lemma_timestamp_alias(q: QuerySpecView, s: SchemaView)
    ensures
        plan_of(QuerySpecView { sort_by: Some("timestamp"@), ..q }, s) == plan_of(
            QuerySpecView { sort_by: Some("start_time"@), ..q },
            s,
        ),
        plan_of(QuerySpecView { sort_by: Some("timestamp"@), ..q }, s) == plan_of(
            QuerySpecView { sort_by: None, ..q },
            s,
        ),
{
}

/// The page size never exceeds the cap, and the offset is the page number times it.
pub proof fn lemma_page_capped(q: QuerySpecView, s: SchemaView)
    ensures
        plan_of(q, s).limit <= MAX_PAGE_SIZE,
        q.limit matches Some(l) && l >= MAX_PAGE_SIZE ==> plan_of(q, s).limit == MAX_PAGE_SIZE,
        plan_of(q, s).offset == (match q.page {
            Some(p) => p as int,
            None => 0,
        }) * plan_of(q, s).limit,
{
}


/// The SQL text of one condition, with its placeholder.
pub open spec fn predicate_sql(p: PredicateView) -> Seq<char> {
    match p {
        PredicateView::StartsAtOrAfter(_) => " AND start_time >= ?"@,
        PredicateView::EndsAtOrBefore(_) => " AND end_time <= ?"@,
        PredicateView::Above(c, _) => " AND "@ + c + " > ?"@,
        PredicateView::HasPool(_) => " AND JSON_CONTAINS(pools, JSON_ARRAY(JSON_OBJECT('pool', ?)))"@,
    }
}

pub open spec fn predicates_sql(ps: Seq<PredicateView>) -> Seq<char>
    decreases ps.len(),
{
    if ps.len() == 0 {
        seq![]
    } else {
        predicates_sql(ps.drop_last()) + predicate_sql(ps.last())
    }
}

/// The statement text of a plan; its placeholders are bound by `plan_binds`.
pub open spec fn plan_sql(p: PlanView) -> Seq<char> {
    "SELECT * FROM `"@ + p.table + "` WHERE 1=1"@ + predicates_sql(p.predicates) + " ORDER BY "@
        + p.sort_field + (if p.descending {
        " DESC"@
    } else {
        " ASC"@
    }) + " LIMIT ? OFFSET ?"@
}

/// The value bound to a condition's placeholder.
pub open spec fn predicate_bind(p: PredicateView) -> BindView {
    match p {
        PredicateView::StartsAtOrAfter(t) => BindView::Timestamp(t),
        PredicateView::EndsAtOrBefore(t) => BindView::Timestamp(t),
        PredicateView::Above(_, v) => v,
        PredicateView::HasPool(n) => BindView::Text(n),
    }
}

/// The values for the placeholders of `plan_sql(p)`, in order.
pub open spec fn plan_binds(p: PlanView) -> Seq<BindView> {
    p.predicates.map_values(|q: PredicateView| predicate_bind(q)) + seq![
        BindView::Unsigned(p.limit),
        BindView::Unsigned(p.offset),
    ]
}

impl QueryPlan {
    /// The statement text, with a `?` for each bound value.
    pub fn sql(&self) -> (r: String)
        ensures
            r@ == plan_sql(self@),
    {
        let mut out = String::from_str("SELECT * FROM `");
        out.append(self.table.as_str());
        out.append("` WHERE 1=1");
        let ghost head = out@;
        let mut i: usize = 0;
        while i < self.predicates.len()
            invariant
                i <= self.predicates.len(),
                out@ == head + predicates_sql(self@.predicates.take(i as int)),
            decreases self.predicates.len() - i,
        {
            let ghost before = out@;
            match &self.predicates[i] {
                Predicate::StartsAtOrAfter(_) => out.append(" AND start_time >= ?"),
                Predicate::EndsAtOrBefore(_) => out.append(" AND end_time <= ?"),
                Predicate::Above { column, .. } => {
                    out.append(" AND ");
                    out.append(column.as_str());
                    out.append(" > ?");
                },
                Predicate::HasPool(_) => out.append(
                    " AND JSON_CONTAINS(pools, JSON_ARRAY(JSON_OBJECT('pool', ?)))",
                ),
            }
            assert(self@.predicates.take(i + 1).drop_last() == self@.predicates.take(i as int));
            assert(self@.predicates.take(i + 1).last() == self.predicates@[i as int]@);
            assert(out@ =~= before + predicate_sql(self.predicates@[i as int]@));
            i += 1;
        }
        assert(self@.predicates.take(i as int) == self@.predicates);
        out.append(" ORDER BY ");
        out.append(self.sort_field.as_str());
        if self.descending {
            out.append(" DESC");
        } else {
            out.append(" ASC");
        }
        out.append(" LIMIT ? OFFSET ?");
        out
    }

    /// The values for the statement's placeholders, in order.
    pub fn binds(&self) -> (r: Vec<BindValue>)
        ensures
            r@.map_values(|b: BindValue| b@) == plan_binds(self@),
    {
        let mut out: Vec<BindValue> = Vec::new();
        let mut i: usize = 0;
        while i < self.predicates.len()
            invariant
                i <= self.predicates.len(),
                out@.map_values(|b: BindValue| b@) == self@.predicates.take(i as int).map_values(
                    |q: PredicateView| predicate_bind(q),
                ),
            decreases self.predicates.len() - i,
        {
            let ghost before = out@;
            let b = match &self.predicates[i] {
                Predicate::StartsAtOrAfter(t) => BindValue::Timestamp(*t),
                Predicate::EndsAtOrBefore(t) => BindValue::Timestamp(*t),
                Predicate::Above { value, .. } => value.copied(),
                Predicate::HasPool(n) => BindValue::Text(n.clone()),
            };
            assert(b@ == predicate_bind(self.predicates@[i as int]@));
            out.push(b);
            assert(out@.map_values(|b: BindValue| b@) =~= before.map_values(|b: BindValue| b@).push(
                predicate_bind(self.predicates@[i as int]@),
            ));
            assert(self@.predicates.take(i + 1) == self@.predicates.take(i as int).push(
                self.predicates@[i as int]@,
            ));
            assert(out@.map_values(|b: BindValue| b@) =~= self@.predicates.take(i + 1).map_values(
                |q: PredicateView| predicate_bind(q),
            ));
            i += 1;
        }
        assert(self@.predicates.take(i as int) == self@.predicates);
        let ghost before = out@;
        out.push(BindValue::Unsigned(self.limit as u64));
        out.push(BindValue::Unsigned(self.offset));
        assert(out@.map_values(|b: BindValue| b@) =~= plan_binds(self@));
        out
    }
}

/// How a successful query is answered.
#[derive(Debug, Clone, Copy, PartialEq, Eq, Structural)]
pub enum Envelope {
    /// The rows themselves.
    Rows,
    /// A success that says no row matched.
    NoData,
}

/// The marker that tells the caller no row matched; a success, not an error.
pub fn no_data_message() -> (r: &'static str)
    ensures
        r@ == "no data found in the database for the given params"@,
{
    "no data found in the database for the given params"
}

/// How a query that returned `rows` rows is answered: an empty result is a
/// success carrying the no-data marker.
pub fn envelope_for(rows: usize) -> (r: Envelope)
    ensures
        r == (if rows == 0 {
            Envelope::NoData
        } else {
            Envelope::Rows
        }),
{
    if rows == 0 {
        Envelope::NoData
    } else {
        Envelope::Rows
    }
}

/// `pools` holds a pool named exactly `name`.
pub open spec fn pools_contain(pools: Seq<Pool>, name: Seq<char>) -> bool {
    exists|i: int| 0 <= i < pools.len() && #[trigger] pools[i].pool@ == name
}

/// Whether an earnings interval's pool list holds a pool named exactly `name`;
/// a name that only contains, or is contained in, a pool's name does not match.
pub fn has_pool(pools: &Vec<Pool>, name: &str) -> (r: bool)
    ensures
        r == pools_contain(pools@, name@),
{
    let mut i: usize = 0;
    while i < pools.len()
        invariant
            i <= pools.len(),
            forall|k: int| 0 <= k < i ==> #[trigger] pools@[k].pool@ != name@,
        decreases pools.len() - i,
    {
        if str_eq(pools[i].pool.as_str(), name) {
            return true;
        }
        i += 1;
    }
    false
}

} // verus!
