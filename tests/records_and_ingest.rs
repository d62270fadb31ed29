use midgard_history::decode::{DecodeError, FloatText};
use midgard_history::engine::{
    classify_body, diagnostic, page_of_response, stored_page, BodyClass, FetchEngine, FetchRequest, Outcome, Phase,
    ResourceKind, PAGE_COUNT,
};
use midgard_history::granularity::Interval;
use midgard_history::records::{
    decode_page, decode_pools, DepthIntervalWire, IntervalDataWire, PoolWire,
    RunepoolUnitsInterval, RunepoolUnitsIntervalWire, SwapIntervalWire, TimeBucket, WireRecord,
};
use midgard_history::watermark::{Watermark, EPOCH};
use midgard_history::writer::{page_outcome, write_counts, StorageError};

fn units_wire(start: &str, end: &str) -> RunepoolUnitsIntervalWire {
    RunepoolUnitsIntervalWire {
        count: "12".to_string(),
        end_time: end.to_string(),
        start_time: start.to_string(),
        units: "1,000".to_string(),
    }
}

fn units(start: i64, end: i64) -> RunepoolUnitsInterval {
    RunepoolUnitsInterval { count: 1, end_time: end, start_time: start, units: 2 }
}

fn depth_wire() -> DepthIntervalWire {
    DepthIntervalWire {
        asset_depth: "100".to_string(),
        asset_price: "0.5".to_string(),
        asset_price_usd: "NaN".to_string(),
        end_time: "1648774800".to_string(),
        liquidity_units: "77".to_string(),
        luvi: "1.25".to_string(),
        members_count: "9".to_string(),
        rune_depth: "200".to_string(),
        start_time: "1648771200".to_string(),
        synth_supply: "3".to_string(),
        synth_units: "4".to_string(),
        units: "5".to_string(),
    }
}

fn pool_wire(name: &str) -> PoolWire {
    PoolWire {
        asset_liquidity_fees: "1".to_string(),
        earnings: "2".to_string(),
        rewards: "3".to_string(),
        rune_liquidity_fees: "4".to_string(),
        saver_earning: "5".to_string(),
        total_liquidity_fees_rune: "6".to_string(),
        pool: name.to_string(),
    }
}

#[test]
fn depth_record_decodes_every_field() {
    let d = depth_wire().decode().unwrap();
    assert_eq!(d.asset_depth, 100);
    assert_eq!(d.asset_price, FloatText::Number("0.5".to_string()));
    assert_eq!(d.asset_price_usd, FloatText::NotANumber);
    assert_eq!(d.start_time, 1648771200);
    assert_eq!(d.end_time, 1648774800);
    assert_eq!(d.members_count, 9);
    assert_eq!(d.units, 5);
    assert_eq!((d.start(), d.end()), (1648771200, 1648774800));
}

#[test]
fn interval_must_end_after_it_starts() {
    let mut w = depth_wire();
    w.end_time = w.start_time.clone();
    assert_eq!(w.decode(), Err(DecodeError::Span));
    let back = units_wire("200", "100");
    assert_eq!(back.decode(), Err(DecodeError::Span));
    assert_eq!(units_wire("100", "200").decode().unwrap().units, 1000);
}

#[test]
fn bad_fields_name_their_kind() {
    let mut w = depth_wire();
    w.asset_depth = "12x".to_string();
    assert_eq!(w.decode(), Err(DecodeError::Integer));
    let mut w = depth_wire();
    w.luvi = "fast".to_string();
    assert_eq!(w.decode(), Err(DecodeError::Float));
    let mut w = depth_wire();
    w.start_time = "yesterday".to_string();
    assert_eq!(w.decode(), Err(DecodeError::Timestamp));
}

#[test]
fn swap_record_decodes() {
    let w = SwapIntervalWire {
        average_slip: "2.5".to_string(),
        end_time: "20".to_string(),
        rune_price_usd: "1.1".to_string(),
        start_time: "10".to_string(),
        total_count: "7".to_string(),
        total_fees: "8".to_string(),
        total_volume: "9".to_string(),
        total_volume_usd: "NaN".to_string(),
    };
    let s = w.decode().unwrap();
    assert_eq!((s.total_count, s.total_fees, s.total_volume), (7, 8, 9));
    assert_eq!(s.total_volume_usd, FloatText::NotANumber);
}

#[test]
fn earnings_record_decodes_its_pools_in_order() {
    let w = IntervalDataWire {
        avg_node_count: "88.5".to_string(),
        block_rewards: "1".to_string(),
        bonding_earnings: "2".to_string(),
        earnings: "3".to_string(),
        end_time: "7200".to_string(),
        liquidity_earnings: "4".to_string(),
        liquidity_fees: "5".to_string(),
        rune_price_usd: "NaN".to_string(),
        start_time: "3600".to_string(),
        pools: vec![pool_wire("BTC.BTC"), pool_wire("ETH.ETH")],
    };
    let e = w.decode().unwrap();
    assert_eq!(e.pools.len(), 2);
    assert_eq!(e.pools[0].pool, "BTC.BTC");
    assert_eq!(e.pools[1].pool, "ETH.ETH");
    assert_eq!(e.pools[1].total_liquidity_fees_rune, 6);
    let mut bad = pool_wire("X");
    bad.rewards = "-3".to_string();
    assert_eq!(decode_pools(&vec![pool_wire("A"), bad]), Err(DecodeError::Integer));
}

#[test]
fn page_decodes_in_order_or_not_at_all() {
    let page = decode_page(&vec![units_wire("0", "3600"), units_wire("3600", "7200")]).unwrap();
    assert_eq!(page.len(), 2);
    assert_eq!(page[1].start_time, 3600);
    assert_eq!(decode_page(&vec![units_wire("0", "3600"), units_wire("9", "1")]), Err(DecodeError::Span));
    assert_eq!(decode_page::<RunepoolUnitsIntervalWire>(&vec![]), Ok(vec![]));
}

#[test]
fn watermark_never_moves_back() {
    let mut w = Watermark::new();
    assert_eq!(w.get(), EPOCH);
    assert!(w.advance(EPOCH + 3600));
    assert!(!w.advance(EPOCH + 10));
    assert!(!w.advance(EPOCH + 3600));
    assert_eq!(w.get(), EPOCH + 3600);
    assert!(w.advance(EPOCH + 7200));
    assert_eq!(w.get(), EPOCH + 7200);
}

#[test]
fn watermark_resumes_from_storage() {
    assert_eq!(Watermark::resume(None).get(), EPOCH);
    assert_eq!(Watermark::resume(Some(5)).get(), EPOCH);
    assert_eq!(Watermark::resume(Some(EPOCH + 60)).get(), EPOCH + 60);
}

#[test]
fn first_request_starts_at_epoch() {
    let mut e = FetchEngine::new(ResourceKind::Depth);
    assert_eq!(e.phase(), Phase::Idle);
    let r = e.begin();
    assert_eq!(
        r,
        FetchRequest { interval: Interval::Hour, count: PAGE_COUNT, from: EPOCH, to: None }
    );
    assert_eq!(r.count, 400);
    assert_eq!(e.phase(), Phase::Requesting);
}

#[test]
fn three_cycles_of_two_zero_three() {
    let mut e = FetchEngine::new(ResourceKind::RunepoolUnits);
    let h = 3600;
    let start = e.watermark();
    let first = vec![units(start, start + h), units(start + h, start + 2 * h)];
    e.begin();
    assert_eq!(e.complete(page_outcome(&first, &Ok(()))), 3);
    assert_eq!(e.watermark(), start + 2 * h);
    let empty: Vec<RunepoolUnitsInterval> = vec![];
    let r2 = e.begin();
    assert_eq!(r2.from, start + 2 * h);
    assert_eq!(e.complete(page_outcome(&empty, &Ok(()))), 3);
    assert_eq!(e.watermark(), start + 2 * h);
    let third: Vec<RunepoolUnitsInterval> =
        (2..5).map(|k| units(start + k * h, start + (k + 1) * h)).collect();
    let r3 = e.begin();
    assert_eq!(r3.from, start + 2 * h);
    e.complete(page_outcome(&third, &Ok(())));
    assert_eq!(e.watermark(), start + 5 * h);
    assert_eq!(e.stored(), 5);
}

#[test]
fn throttled_response_retries_same_request() {
    let body = "<html>Too many requests, slow down please</html>";
    assert_eq!(classify_body(body), BodyClass::Throttled);
    let mut e = FetchEngine::new(ResourceKind::Swap);
    let before = e.begin();
    assert_eq!(e.complete(Outcome::RateLimited), 5);
    assert_eq!(e.phase(), Phase::RateLimitBackoff);
    assert_eq!(e.begin(), before);
    assert_eq!(e.stored(), 0);
}

#[test]
fn data_bodies_are_candidates() {
    assert_eq!(classify_body("{\"intervals\":[],\"meta\":{}}"), BodyClass::Candidate);
    assert_eq!(classify_body("Slow Down"), BodyClass::Candidate);
}

#[test]
fn every_failure_keeps_the_request() {
    for (o, delay, phase) in [
        (Outcome::TransportError, 5, Phase::TransportBackoff),
        (Outcome::Malformed, 5, Phase::MalformedBackoff),
        (Outcome::StoreFailed, 3, Phase::StoreBackoff),
    ] {
        let mut e = FetchEngine::new(ResourceKind::Earnings);
        let before = e.begin();
        assert_eq!(e.complete(o), delay);
        assert_eq!(e.phase(), phase);
        assert_eq!(e.request(), before);
    }
}

#[test]
fn replayed_page_is_idempotent() {
    let mut e = FetchEngine::new(ResourceKind::Depth);
    let s = e.watermark();
    let page = vec![units(s, s + 60), units(s + 60, s + 120)];
    let first = page_outcome(&page, &Ok(()));
    e.complete(first);
    let replay = page_outcome(&page, &Err(StorageError::Duplicate));
    assert_eq!(replay, first);
    e.complete(replay);
    assert_eq!(e.watermark(), s + 120);
    assert_eq!(
        page_outcome(&page, &Err(StorageError::Failed("gone".to_string()))),
        Outcome::StoreFailed
    );
}

#[test]
fn write_outcomes() {
    assert!(write_counts(&Ok(())));
    assert!(write_counts(&Err(StorageError::Duplicate)));
    assert!(!write_counts(&Err(StorageError::Failed("x".to_string()))));
}

#[test]
fn stored_page_reports_last_end() {
    let empty: Vec<RunepoolUnitsInterval> = vec![];
    assert_eq!(stored_page(&empty), Outcome::Stored { count: 0, last_end: None });
    assert_eq!(
        stored_page(&vec![units(1, 2), units(2, 9)]),
        Outcome::Stored { count: 2, last_end: Some(9) }
    );
}

#[test]
fn diagnostic_keeps_five_hundred_characters() {
    let long = "x".repeat(1200);
    assert_eq!(diagnostic(&long).len(), 500);
    assert_eq!(diagnostic("short"), "short");
}

#[test]
fn unparsed_or_undecodable_payload_is_malformed() {
    assert_eq!(page_of_response::<RunepoolUnitsIntervalWire>(None), Err(Outcome::Malformed));
    assert_eq!(
        page_of_response(Some(vec![units_wire("0", "60"), units_wire("x", "120")])),
        Err(Outcome::Malformed)
    );
    let page = page_of_response(Some(vec![units_wire("0", "60"), units_wire("60", "120")])).unwrap();
    assert_eq!(page, vec![
        RunepoolUnitsInterval { count: 12, end_time: 60, start_time: 0, units: 1000 },
        RunepoolUnitsInterval { count: 12, end_time: 120, start_time: 60, units: 1000 },
    ]);
}
