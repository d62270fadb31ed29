use midgard_history::decode::FloatText;
use midgard_history::params::{
    DepthHistoryQueryParams, EarningsHistoryQueryParams, RunepoolUnitsHistoryQueryParams,
    SwapHistoryQueryParams,
};
use midgard_history::query::{
    envelope_for, has_pool, no_data_message, page_limit, page_offset, parse_date_range,
    resolve_descending, BindValue, Envelope, Predicate,
};
use midgard_history::records::{DepthInterval, IntervalData, Pool, RunepoolUnitsInterval};

fn depth_params() -> DepthHistoryQueryParams {
    DepthHistoryQueryParams {
        date_range: None,
        liquidity_gt: None,
        interval: None,
        sort_field: None,
        order: None,
        page: None,
        limit: None,
    }
}

fn earnings_params() -> EarningsHistoryQueryParams {
    EarningsHistoryQueryParams {
        date_range: None,
        page: None,
        limit: None,
        sort_by: None,
        order: None,
        earnings_gt: None,
        block_rewards_gt: None,
        node_count_gt: None,
        pool: None,
    }
}

fn pool(name: &str) -> Pool {
    Pool {
        asset_liquidity_fees: 0,
        earnings: 0,
        rewards: 0,
        rune_liquidity_fees: 0,
        saver_earning: 0,
        total_liquidity_fees_rune: 0,
        pool: name.to_string(),
    }
}

#[test]
fn date_range_covers_whole_days() {
    assert_eq!(parse_date_range("2024-01-01,2024-01-02"), Some((1704067200, 1704239999)));
    assert_eq!(parse_date_range("2022-04-01,2022-04-01"), Some((1648771200, 1648857599)));
}

#[test]
fn malformed_date_range_is_no_filter() {
    assert_eq!(parse_date_range("2024-01-01"), None);
    assert_eq!(parse_date_range("2024-01-01,"), None);
    assert_eq!(parse_date_range("2024-13-01,2024-01-02"), None);
    assert_eq!(parse_date_range("a,b,c"), None);
    let mut p = depth_params();
    p.date_range = Some("garbage".to_string());
    assert_eq!(p.parse_date_range(), None);
    assert!(p.build_query().predicates.is_empty());
}

#[test]
fn timestamp_sorts_like_start_time() {
    let mut a = depth_params();
    a.sort_field = Some("timestamp".to_string());
    let mut b = depth_params();
    b.sort_field = Some("start_time".to_string());
    assert_eq!(a.get_sort_field(), "start_time");
    assert_eq!(a.build_query(), b.build_query());
    assert_eq!(a.build_query().sql(), b.build_query().sql());
    assert_eq!(depth_params().get_sort_field(), "start_time");
    let mut c = depth_params();
    c.sort_field = Some("rune_depth".to_string());
    assert_eq!(c.get_sort_field(), "rune_depth");
}

#[test]
fn limit_is_capped_and_page_is_unbounded() {
    assert_eq!(page_limit(Some(1000)), 400);
    assert_eq!(page_limit(None), 30);
    assert_eq!(page_limit(Some(7)), 7);
    assert_eq!(page_offset(Some(9999), None), 299970);
    assert_eq!(page_offset(Some(u32::MAX), Some(400)), u32::MAX as u64 * 400);
    let mut p = depth_params();
    p.limit = Some(1000);
    p.page = Some(9999);
    let q = p.build_query();
    assert_eq!((q.limit, q.offset), (400, 3999600));
    assert_eq!(envelope_for(0), Envelope::NoData);
    assert_eq!(envelope_for(3), Envelope::Rows);
    assert_eq!(no_data_message(), "no data found in the database for the given params");
}

#[test]
fn order_token_is_case_sensitive() {
    assert!(resolve_descending(&Some("desc".to_string()), false));
    assert!(!resolve_descending(&Some("DESC".to_string()), true));
    assert!(!resolve_descending(&Some("asc".to_string()), true));
    assert!(resolve_descending(&None, true));
    assert!(!resolve_descending(&None, false));
}

#[test]
fn depth_query_text_and_binds() {
    let mut p = depth_params();
    p.date_range = Some("2024-01-01,2024-01-02".to_string());
    p.liquidity_gt = Some(500);
    p.order = Some("desc".to_string());
    let q = p.build_query();
    assert_eq!(
        q.sql(),
        "SELECT * FROM `depth_intervals` WHERE 1=1 AND start_time >= ? AND end_time <= ? \
         AND liquidity_units > ? ORDER BY start_time DESC LIMIT ? OFFSET ?"
    );
    assert_eq!(
        q.binds(),
        vec![
            BindValue::Timestamp(1704067200),
            BindValue::Timestamp(1704239999),
            BindValue::Unsigned(500),
            BindValue::Unsigned(30),
            BindValue::Unsigned(0),
        ]
    );
}

#[test]
fn earnings_query_filters_in_order() {
    let mut p = earnings_params();
    p.earnings_gt = Some(1);
    p.node_count_gt = Some(FloatText::Number("10.5".to_string()));
    p.pool = Some("BTC.BTC".to_string());
    p.page = Some(2);
    p.limit = Some(10);
    let q = p.build_query();
    assert_eq!(
        q.sql(),
        "SELECT * FROM `earning_intervals` WHERE 1=1 AND earnings > ? AND avg_node_count > ? \
         AND JSON_CONTAINS(pools, JSON_ARRAY(JSON_OBJECT('pool', ?))) ORDER BY start_time DESC \
         LIMIT ? OFFSET ?"
    );
    assert_eq!(q.predicates[2], Predicate::HasPool("BTC.BTC".to_string()));
    assert_eq!(
        q.binds(),
        vec![
            BindValue::Unsigned(1),
            BindValue::Float(FloatText::Number("10.5".to_string())),
            BindValue::Text("BTC.BTC".to_string()),
            BindValue::Unsigned(10),
            BindValue::Unsigned(20),
        ]
    );
}

#[test]
fn swap_and_units_queries() {
    let s = SwapHistoryQueryParams {
        date_range: None,
        page: None,
        limit: None,
        sort_by: Some("timestamp".to_string()),
        order: Some("up".to_string()),
        volume_gt: Some(5),
        fees_gt: Some(6),
    };
    assert_eq!(
        s.build_query().sql(),
        "SELECT * FROM `swap_intervals` WHERE 1=1 AND total_volume > ? AND total_fees > ? \
         ORDER BY start_time ASC LIMIT ? OFFSET ?"
    );
    let u = RunepoolUnitsHistoryQueryParams {
        date_range: None,
        units_gt: Some(9),
        sort_by: None,
        order: None,
        page: Some(1),
        limit: None,
    };
    assert_eq!(
        u.build_query().sql(),
        "SELECT * FROM `runepool_unit_intervals` WHERE 1=1 AND units > ? ORDER BY start_time DESC \
         LIMIT ? OFFSET ?"
    );
    assert_eq!(u.build_query().offset, 30);
}

#[test]
fn pool_filter_matches_whole_names_only() {
    let pools = vec![pool("BTC.BTC"), pool("ETH.ETH")];
    assert!(has_pool(&pools, "BTC.BTC"));
    assert!(has_pool(&pools, "ETH.ETH"));
    assert!(!has_pool(&pools, "BTC"));
    assert!(!has_pool(&pools, "BTC.BTC2"));
    assert!(!has_pool(&vec![], "BTC.BTC"));
}

#[test]
fn rows_follow_insert_columns() {
    let u = RunepoolUnitsInterval { count: 3, end_time: 20, start_time: 10, units: 4 };
    assert_eq!(
        RunepoolUnitsInterval::insert_statement(),
        "INSERT INTO `runepool_unit_intervals` (start_time, end_time, count, units) VALUES (?, ?, ?, ?)"
    );
    assert_eq!(
        u.row(),
        vec![
            BindValue::Timestamp(10),
            BindValue::Timestamp(20),
            BindValue::Unsigned(3),
            BindValue::Unsigned(4),
        ]
    );
    let d = DepthInterval {
        asset_depth: 1,
        asset_price: FloatText::NotANumber,
        asset_price_usd: FloatText::Number("2".to_string()),
        end_time: 9,
        liquidity_units: 3,
        luvi: FloatText::Number("4".to_string()),
        members_count: 5,
        rune_depth: 6,
        start_time: 8,
        synth_supply: 7,
        synth_units: 8,
        units: 9,
    };
    let row = d.row();
    assert_eq!(row.len(), 12);
    assert_eq!(row[3], BindValue::Float(FloatText::NotANumber));
    assert_eq!(row[7], BindValue::Unsigned(5));
    assert!(IntervalData::insert_statement().ends_with("rune_price_usd, pools) VALUES (?, ?, ?, ?, ?, ?, ?, ?, ?, ?)"));
}
