//! The interval records of the four resource types, their wire forms, and how
//! a wire record decodes into a typed one.

use crate::decode::{
    bounded_value, decode_float, decode_grouped_u64, decode_timestamp, decode_u32, decode_u64,
    grouped_digits, DecodeError, FloatText, MAX_TIMESTAMP,
};
use vstd::prelude::*;

verus! {

/// A record that covers the half-open time bucket `[start, end)`, in Unix seconds.
pub trait TimeBucket {
    spec fn start_spec(&self) -> int;

    spec fn end_spec(&self) -> int;

    fn start(&self) -> (r: i64)
        ensures
            r == self.start_spec(),
    ;

    fn end(&self) -> (r: i64)
        ensures
            r == self.end_spec(),
    ;
}

/// A record as the source writes it, every number a string.
pub trait WireRecord: Sized {
    type Record: TimeBucket;

    /// Every field decodes.
    spec fn fields_ok(&self) -> bool;

    /// The decoded interval ends after it starts.
    spec fn forward(&self) -> bool;

    /// `r` holds the decoded value of every field.
    spec fn decodes_to(&self, r: Self::Record) -> bool;

    fn decode(&self) -> (r: Result<Self::Record, DecodeError>)
        ensures
            r matches Ok(rec) ==> self.fields_ok() && self.forward() && self.decodes_to(rec)
                && rec.start_spec() < rec.end_spec(),
            r matches Err(e) ==> !(self.fields_ok() && self.forward()) && (e == DecodeError::Span
                <==> self.fields_ok()),
    ;
}

/// The value of a field that holds an unsigned 64-bit integer.
pub open spec fn u64_field(s: Seq<char>) -> Option<int> {
    bounded_value(s, u64::MAX as int)
}

/// The value of a field that holds an unsigned 32-bit integer.
pub open spec fn u32_field(s: Seq<char>) -> Option<int> {
    bounded_value(s, u32::MAX as int)
}

/// The value of a timestamp field.
pub open spec fn ts_field(s: Seq<char>) -> Option<int> {
    bounded_value(s, MAX_TIMESTAMP as int)
}

/// The value of a count field that may hold white space and `,` separators.
pub open spec fn grouped_field(s: Seq<char>) -> Option<int> {
    bounded_value(grouped_digits(s), u64::MAX as int)
}

/// `out` holds, in order, the decoded records of `ws`.
pub open spec fn decoded_page<W: WireRecord>(ws: Seq<W>, out: Seq<W::Record>) -> bool {
    &&& out.len() == ws.len()
    &&& forall|k: int| 0 <= k < ws.len() ==> #[trigger] decoded_record(ws[k], out[k])
}

/// `rec` is what `w` decodes to.
pub open spec fn decoded_record<W: WireRecord>(w: W, rec: W::Record) -> bool {
    &&& w.fields_ok()
    &&& w.forward()
    &&& w.decodes_to(rec)
    &&& rec.start_spec() < rec.end_spec()
}

/// Every interval of a decoded page ends after it starts, and the page keeps
/// the order and the number of the records it was decoded from.
pub proof fn lemma_decoded_page_forward<W: WireRecord>(ws: Seq<W>, out: Seq<W::Record>)
    requires
        decoded_page(ws, out),
    ensures
        out.len() == ws.len(),
        forall|i: int| 0 <= i < out.len() ==> (#[trigger] out[i]).start_spec() < out[i].end_spec(),
{
    assert forall|i: int| 0 <= i < out.len() implies (#[trigger] out[i]).start_spec() < out[i].end_spec() by {
        assert(decoded_record(ws[i], out[i]));
    }
}

/// Decodes every record of a page, in order; fails on the first record that does not decode.
pub fn decode_page<W: WireRecord>(ws: &Vec<W>) -> (r: Result<Vec<W::Record>, DecodeError>)
    ensures
        r matches Ok(v) ==> decoded_page(ws@, v@),
        r is Err ==> exists|i: int| 0 <= i < ws.len() && !(#[trigger] ws[i].fields_ok() && ws[i].forward()),
{
    let mut out: Vec<W::Record> = Vec::new();
    let mut i: usize = 0;
    while i < ws.len()
        invariant
            i <= ws.len(),
            decoded_page(ws@.take(i as int), out@),
        decreases ws.len() - i,
    {
        let res = ws[i].decode();
        if let Err(e) = res {
            return Err(e);
        }
        let rec = res.unwrap();
        let ghost before = out@;
        out.push(rec);
        assert(ws@.take(i + 1) == ws@.take(i as int).push(ws[i as int]));
        assert forall|k: int| 0 <= k < i + 1 implies #[trigger] decoded_record(
            ws@.take(i + 1)[k],
            out@[k],
        ) by {
            if k < i {
                assert(out@[k] == before[k]);
                assert(decoded_record(ws@.take(i as int)[k], before[k]));
            }
        }
        i += 1;
    }
    assert(ws@.take(i as int) == ws@);
    Ok(out)
}

/// One interval of pool depth history.
#[derive(Debug, Clone, PartialEq)]
pub struct DepthInterval {
    pub asset_depth: u64,
    pub asset_price: FloatText,
    pub asset_price_usd: FloatText,
    pub end_time: i64,
    pub liquidity_units: u64,
    pub luvi: FloatText,
    pub members_count: u32,
    pub rune_depth: u64,
    pub start_time: i64,
    pub synth_supply: u64,
    pub synth_units: u64,
    pub units: u64,
}

/// A depth interval as the source writes it.
#[derive(Debug, Clone, PartialEq)]
pub struct DepthIntervalWire {
    pub asset_depth: String,
    pub asset_price: String,
    pub asset_price_usd: String,
    pub end_time: String,
    pub liquidity_units: String,
    pub luvi: String,
    pub members_count: String,
    pub rune_depth: String,
    pub start_time: String,
    pub synth_supply: String,
    pub synth_units: String,
    pub units: String,
}

impl TimeBucket for DepthInterval {
    open spec fn start_spec(&self) -> int {
        self.start_time as int
    }

    open spec fn end_spec(&self) -> int {
        self.end_time as int
    }

    fn start(&self) -> (r: i64) {
        self.start_time
    }

    fn end(&self) -> (r: i64) {
        self.end_time
    }
}

impl WireRecord for DepthIntervalWire {
    type Record = DepthInterval;

    open spec fn fields_ok(&self) -> bool {
        &&& u64_field(self.asset_depth@) is Some
        &&& decode_float(self.asset_price@) is Some
        &&& decode_float(self.asset_price_usd@) is Some
        &&& ts_field(self.end_time@) is Some
        &&& u64_field(self.liquidity_units@) is Some
        &&& decode_float(self.luvi@) is Some
        &&& u32_field(self.members_count@) is Some
        &&& u64_field(self.rune_depth@) is Some
        &&& ts_field(self.start_time@) is Some
        &&& u64_field(self.synth_supply@) is Some
        &&& u64_field(self.synth_units@) is Some
        &&& u64_field(self.units@) is Some
    }

    open spec fn forward(&self) -> bool {
        ts_field(self.start_time@)->0 < ts_field(self.end_time@)->0
    }

    open spec fn decodes_to(&self, r: DepthInterval) -> bool {
        &&& u64_field(self.asset_depth@) == Some(r.asset_depth as int)
        &&& decode_float(self.asset_price@) == Some(r.asset_price@)
        &&& decode_float(self.asset_price_usd@) == Some(r.asset_price_usd@)
        &&& ts_field(self.end_time@) == Some(r.end_time as int)
        &&& u64_field(self.liquidity_units@) == Some(r.liquidity_units as int)
        &&& decode_float(self.luvi@) == Some(r.luvi@)
        &&& u32_field(self.members_count@) == Some(r.members_count as int)
        &&& u64_field(self.rune_depth@) == Some(r.rune_depth as int)
        &&& ts_field(self.start_time@) == Some(r.start_time as int)
        &&& u64_field(self.synth_supply@) == Some(r.synth_supply as int)
        &&& u64_field(self.synth_units@) == Some(r.synth_units as int)
        &&& u64_field(self.units@) == Some(r.units as int)
    }

    fn decode(&self) -> (r: Result<DepthInterval, DecodeError>) {
        let asset_depth = match decode_u64(self.asset_depth.as_str()) {
            Ok(v) => v,
            Err(e) => return Err(e),
        };
        let asset_price = match FloatText::decode(self.asset_price.as_str()) {
            Ok(v) => v,
            Err(e) => return Err(e),
        };
        let asset_price_usd = match FloatText::decode(self.asset_price_usd.as_str()) {
            Ok(v) => v,
            Err(e) => return Err(e),
        };
        let end_time = match decode_timestamp(self.end_time.as_str()) {
            Ok(v) => v,
            Err(e) => return Err(e),
        };
        let liquidity_units = match decode_u64(self.liquidity_units.as_str()) {
            Ok(v) => v,
            Err(e) => return Err(e),
        };
        let luvi = match FloatText::decode(self.luvi.as_str()) {
            Ok(v) => v,
            Err(e) => return Err(e),
        };
        let members_count = match decode_u32(self.members_count.as_str()) {
            Ok(v) => v,
            Err(e) => return Err(e),
        };
        let rune_depth = match decode_u64(self.rune_depth.as_str()) {
            Ok(v) => v,
            Err(e) => return Err(e),
        };
        let start_time = match decode_timestamp(self.start_time.as_str()) {
            Ok(v) => v,
            Err(e) => return Err(e),
        };
        let synth_supply = match decode_u64(self.synth_supply.as_str()) {
            Ok(v) => v,
            Err(e) => return Err(e),
        };
        let synth_units = match decode_u64(self.synth_units.as_str()) {
            Ok(v) => v,
            Err(e) => return Err(e),
        };
        let units = match decode_u64(self.units.as_str()) {
            Ok(v) => v,
            Err(e) => return Err(e),
        };
        if start_time >= end_time {
            return Err(DecodeError::Span);
        }
        Ok(
            DepthInterval {
                asset_depth,
                asset_price,
                asset_price_usd,
                end_time,
                liquidity_units,
                luvi,
                members_count,
                rune_depth,
                start_time,
                synth_supply,
                synth_units,
                units,
            },
        )
    }
}

/// One interval of swap history.
#[derive(Debug, Clone, PartialEq)]
pub struct SwapInterval {
    pub average_slip: FloatText,
    pub end_time: i64,
    pub rune_price_usd: FloatText,
    pub start_time: i64,
    pub total_count: u64,
    pub total_fees: u64,
    pub total_volume: u64,
    pub total_volume_usd: FloatText,
}

/// A swap interval as the source writes it.
#[derive(Debug, Clone, PartialEq)]
pub struct SwapIntervalWire {
    pub average_slip: String,
    pub end_time: String,
    pub rune_price_usd: String,
    pub start_time: String,
    pub total_count: String,
    pub total_fees: String,
    pub total_volume: String,
    pub total_volume_usd: String,
}

impl TimeBucket for SwapInterval {
    open spec fn start_spec(&self) -> int {
        self.start_time as int
    }

    open spec fn end_spec(&self) -> int {
        self.end_time as int
    }

    fn start(&self) -> (r: i64) {
        self.start_time
    }

    fn end(&self) -> (r: i64) {
        self.end_time
    }
}

impl WireRecord for SwapIntervalWire {
    type Record = SwapInterval;

    open spec fn fields_ok(&self) -> bool {
        &&& decode_float(self.average_slip@) is Some
        &&& ts_field(self.end_time@) is Some
        &&& decode_float(self.rune_price_usd@) is Some
        &&& ts_field(self.start_time@) is Some
        &&& u64_field(self.total_count@) is Some
        &&& u64_field(self.total_fees@) is Some
        &&& u64_field(self.total_volume@) is Some
        &&& decode_float(self.total_volume_usd@) is Some
    }

    open spec fn forward(&self) -> bool {
        ts_field(self.start_time@)->0 < ts_field(self.end_time@)->0
    }

    open spec fn decodes_to(&self, r: SwapInterval) -> bool {
        &&& decode_float(self.average_slip@) == Some(r.average_slip@)
        &&& ts_field(self.end_time@) == Some(r.end_time as int)
        &&& decode_float(self.rune_price_usd@) == Some(r.rune_price_usd@)
        &&& ts_field(self.start_time@) == Some(r.start_time as int)
        &&& u64_field(self.total_count@) == Some(r.total_count as int)
        &&& u64_field(self.total_fees@) == Some(r.total_fees as int)
        &&& u64_field(self.total_volume@) == Some(r.total_volume as int)
        &&& decode_float(self.total_volume_usd@) == Some(r.total_volume_usd@)
    }

    fn decode(&self) -> (r: Result<SwapInterval, DecodeError>) {
        let average_slip = match FloatText::decode(self.average_slip.as_str()) {
            Ok(v) => v,
            Err(e) => return Err(e),
        };
        let end_time = match decode_timestamp(self.end_time.as_str()) {
            Ok(v) => v,
            Err(e) => return Err(e),
        };
        let rune_price_usd = match FloatText::decode(self.rune_price_usd.as_str()) {
            Ok(v) => v,
            Err(e) => return Err(e),
        };
        let start_time = match decode_timestamp(self.start_time.as_str()) {
            Ok(v) => v,
            Err(e) => return Err(e),
        };
        let total_count = match decode_u64(self.total_count.as_str()) {
            Ok(v) => v,
            Err(e) => return Err(e),
        };
        let total_fees = match decode_u64(self.total_fees.as_str()) {
            Ok(v) => v,
            Err(e) => return Err(e),
        };
        let total_volume = match decode_u64(self.total_volume.as_str()) {
            Ok(v) => v,
            Err(e) => return Err(e),
        };
        let total_volume_usd = match FloatText::decode(self.total_volume_usd.as_str()) {
            Ok(v) => v,
            Err(e) => return Err(e),
        };
        if start_time >= end_time {
            return Err(DecodeError::Span);
        }
        Ok(SwapInterval {
            average_slip,
            end_time,
            rune_price_usd,
            start_time,
            total_count,
            total_fees,
            total_volume,
            total_volume_usd,
        })
    }
}

/// One pool's share of an earnings interval.
#[derive(Debug, Clone, PartialEq)]
pub struct Pool {
    pub asset_liquidity_fees: u64,
    pub earnings: u64,
    pub rewards: u64,
    pub rune_liquidity_fees: u64,
    pub saver_earning: u64,
    pub total_liquidity_fees_rune: u64,
    pub pool: String,
}

/// A pool record as the source writes it.
#[derive(Debug, Clone, PartialEq)]
pub struct PoolWire {
    pub asset_liquidity_fees: String,
    pub earnings: String,
    pub rewards: String,
    pub rune_liquidity_fees: String,
    pub saver_earning: String,
    pub total_liquidity_fees_rune: String,
    pub pool: String,
}

impl PoolWire {
    /// Every numeric field decodes.
    pub open spec fn fields_ok(&self) -> bool {
        &&& u64_field(self.asset_liquidity_fees@) is Some
        &&& u64_field(self.earnings@) is Some
        &&& u64_field(self.rewards@) is Some
        &&& u64_field(self.rune_liquidity_fees@) is Some
        &&& u64_field(self.saver_earning@) is Some
        &&& u64_field(self.total_liquidity_fees_rune@) is Some
    }

    /// `r` holds the decoded value of every field and the same pool name.
    pub open spec fn decodes_to(&self, r: Pool) -> bool {
        &&& u64_field(self.asset_liquidity_fees@) == Some(r.asset_liquidity_fees as int)
        &&& u64_field(self.earnings@) == Some(r.earnings as int)
        &&& u64_field(self.rewards@) == Some(r.rewards as int)
        &&& u64_field(self.rune_liquidity_fees@) == Some(r.rune_liquidity_fees as int)
        &&& u64_field(self.saver_earning@) == Some(r.saver_earning as int)
        &&& u64_field(self.total_liquidity_fees_rune@) == Some(r.total_liquidity_fees_rune as int)
        &&& self.pool@ == r.pool@
    }

    pub fn decode(&self) -> (r: Result<Pool, DecodeError>)
        ensures
            r matches Ok(p) ==> self.fields_ok() && self.decodes_to(p),
            r matches Err(e) ==> !self.fields_ok() && e == DecodeError::Integer,
    {
        let asset_liquidity_fees = match decode_u64(self.asset_liquidity_fees.as_str()) {
            Ok(v) => v,
            Err(e) => return Err(e),
        };
        let earnings = match decode_u64(self.earnings.as_str()) {
            Ok(v) => v,
            Err(e) => return Err(e),
        };
        let rewards = match decode_u64(self.rewards.as_str()) {
            Ok(v) => v,
            Err(e) => return Err(e),
        };
        let rune_liquidity_fees = match decode_u64(self.rune_liquidity_fees.as_str()) {
            Ok(v) => v,
            Err(e) => return Err(e),
        };
        let saver_earning = match decode_u64(self.saver_earning.as_str()) {
            Ok(v) => v,
            Err(e) => return Err(e),
        };
        let total_liquidity_fees_rune = match decode_u64(self.total_liquidity_fees_rune.as_str()) {
            Ok(v) => v,
            Err(e) => return Err(e),
        };
        let pool = self.pool.clone();
        Ok(Pool {
            asset_liquidity_fees,
            earnings,
            pool,
            rewards,
            rune_liquidity_fees,
            saver_earning,
            total_liquidity_fees_rune,
        })
    }
}

/// Every pool record of `ws` decodes.
pub open spec fn pools_ok(ws: Seq<PoolWire>) -> bool {
    forall|k: int| 0 <= k < ws.len() ==> #[trigger] ws[k].fields_ok()
}

/// `out` holds, in order, the decoded pool records of `ws`.
pub open spec fn decoded_pools(ws: Seq<PoolWire>, out: Seq<Pool>) -> bool {
    &&& out.len() == ws.len()
    &&& forall|k: int| 0 <= k < ws.len() ==> #[trigger] ws[k].decodes_to(out[k])
}

/// Decodes the pool records of an earnings interval, in order.
pub fn decode_pools(ws: &Vec<PoolWire>) -> (r: Result<Vec<Pool>, DecodeError>)
    ensures
        r matches Ok(v) ==> pools_ok(ws@) && decoded_pools(ws@, v@),
        r matches Err(e) ==> !pools_ok(ws@) && e == DecodeError::Integer,
{
    let mut out: Vec<Pool> = Vec::new();
    let mut i: usize = 0;
    while i < ws.len()
        invariant
            i <= ws.len(),
            pools_ok(ws@.take(i as int)),
            decoded_pools(ws@.take(i as int), out@),
        decreases ws.len() - i,
    {
        let p = match ws[i].decode() {
            Ok(p) => p,
            Err(e) => {
                assert(!ws@[i as int].fields_ok());
                return Err(e);
            },
        };
        let ghost before = out@;
        out.push(p);
        assert(ws@.take(i + 1) == ws@.take(i as int).push(ws[i as int]));
        assert forall|k: int| 0 <= k < i + 1 implies #[trigger] ws@.take(i + 1)[k].decodes_to(
            out@[k],
        ) by {
            if k < i {
                assert(out@[k] == before[k]);
                assert(ws@.take(i as int)[k].decodes_to(before[k]));
            }
        }
        assert forall|k: int| 0 <= k < i + 1 implies #[trigger] ws@.take(i + 1)[k].fields_ok() by {
            if k < i {
                assert(ws@.take(i as int)[k].fields_ok());
            }
        }
        i += 1;
    }
    assert(ws@.take(i as int) == ws@);
    Ok(out)
}

/// One interval of earnings history, with its per-pool breakdown.
#[derive(Debug, Clone, PartialEq)]
pub struct IntervalData {
    pub avg_node_count: FloatText,
    pub block_rewards: u64,
    pub bonding_earnings: u64,
    pub earnings: u64,
    pub end_time: i64,
    pub liquidity_earnings: u64,
    pub liquidity_fees: u64,
    pub rune_price_usd: FloatText,
    pub start_time: i64,
    pub pools: Vec<Pool>,
}

/// An earnings interval as the source writes it.
#[derive(Debug, Clone, PartialEq)]
pub struct IntervalDataWire {
    pub avg_node_count: String,
    pub block_rewards: String,
    pub bonding_earnings: String,
    pub earnings: String,
    pub end_time: String,
    pub liquidity_earnings: String,
    pub liquidity_fees: String,
    pub rune_price_usd: String,
    pub start_time: String,
    pub pools: Vec<PoolWire>,
}

impl TimeBucket for IntervalData {
    open spec fn start_spec(&self) -> int {
        self.start_time as int
    }

    open spec fn end_spec(&self) -> int {
        self.end_time as int
    }

    fn start(&self) -> (r: i64) {
        self.start_time
    }

    fn end(&self) -> (r: i64) {
        self.end_time
    }
}

impl WireRecord for IntervalDataWire {
    type Record = IntervalData;

    open spec fn fields_ok(&self) -> bool {
        &&& decode_float(self.avg_node_count@) is Some
        &&& u64_field(self.block_rewards@) is Some
        &&& u64_field(self.bonding_earnings@) is Some
        &&& u64_field(self.earnings@) is Some
        &&& ts_field(self.end_time@) is Some
        &&& u64_field(self.liquidity_earnings@) is Some
        &&& u64_field(self.liquidity_fees@) is Some
        &&& decode_float(self.rune_price_usd@) is Some
        &&& ts_field(self.start_time@) is Some
        &&& pools_ok(self.pools@)
    }

    open spec fn forward(&self) -> bool {
        ts_field(self.start_time@)->0 < ts_field(self.end_time@)->0
    }

    open spec fn decodes_to(&self, r: IntervalData) -> bool {
        &&& decode_float(self.avg_node_count@) == Some(r.avg_node_count@)
        &&& u64_field(self.block_rewards@) == Some(r.block_rewards as int)
        &&& u64_field(self.bonding_earnings@) == Some(r.bonding_earnings as int)
        &&& u64_field(self.earnings@) == Some(r.earnings as int)
        &&& ts_field(self.end_time@) == Some(r.end_time as int)
        &&& u64_field(self.liquidity_earnings@) == Some(r.liquidity_earnings as int)
        &&& u64_field(self.liquidity_fees@) == Some(r.liquidity_fees as int)
        &&& decode_float(self.rune_price_usd@) == Some(r.rune_price_usd@)
        &&& ts_field(self.start_time@) == Some(r.start_time as int)
        &&& decoded_pools(self.pools@, r.pools@)
    }

    fn decode(&self) -> (r: Result<IntervalData, DecodeError>) {
        let avg_node_count = match FloatText::decode(self.avg_node_count.as_str()) {
            Ok(v) => v,
            Err(e) => return Err(e),
        };
        let block_rewards = match decode_u64(self.block_rewards.as_str()) {
            Ok(v) => v,
            Err(e) => return Err(e),
        };
        let bonding_earnings = match decode_u64(self.bonding_earnings.as_str()) {
            Ok(v) => v,
            Err(e) => return Err(e),
        };
        let earnings = match decode_u64(self.earnings.as_str()) {
            Ok(v) => v,
            Err(e) => return Err(e),
        };
        let end_time = match decode_timestamp(self.end_time.as_str()) {
            Ok(v) => v,
            Err(e) => return Err(e),
        };
        let liquidity_earnings = match decode_u64(self.liquidity_earnings.as_str()) {
            Ok(v) => v,
            Err(e) => return Err(e),
        };
        let liquidity_fees = match decode_u64(self.liquidity_fees.as_str()) {
            Ok(v) => v,
            Err(e) => return Err(e),
        };
        let rune_price_usd = match FloatText::decode(self.rune_price_usd.as_str()) {
            Ok(v) => v,
            Err(e) => return Err(e),
        };
        let start_time = match decode_timestamp(self.start_time.as_str()) {
            Ok(v) => v,
            Err(e) => return Err(e),
        };
        let pools = match decode_pools(&self.pools) {
            Ok(v) => v,
            Err(e) => return Err(e),
        };
        if start_time >= end_time {
            return Err(DecodeError::Span);
        }
        Ok(IntervalData {
            avg_node_count,
            block_rewards,
            bonding_earnings,
            earnings,
            end_time,
            liquidity_earnings,
            liquidity_fees,
            pools,
            rune_price_usd,
            start_time,
        })
    }
}

/// One interval of pool-unit history.
#[derive(Debug, Clone, PartialEq)]
pub struct RunepoolUnitsInterval {
    pub count: u64,
    pub end_time: i64,
    pub start_time: i64,
    pub units: u64,
}

/// A pool-unit interval as the source writes it.
#[derive(Debug, Clone, PartialEq)]
pub struct RunepoolUnitsIntervalWire {
    pub count: String,
    pub end_time: String,
    pub start_time: String,
    pub units: String,
}

impl TimeBucket for RunepoolUnitsInterval {
    open spec fn start_spec(&self) -> int {
        self.start_time as int
    }

    open spec fn end_spec(&self) -> int {
        self.end_time as int
    }

    fn start(&self) -> (r: i64) {
        self.start_time
    }

    fn end(&self) -> (r: i64) {
        self.end_time
    }
}

impl WireRecord for RunepoolUnitsIntervalWire {
    type Record = RunepoolUnitsInterval;

    open spec fn fields_ok(&self) -> bool {
        &&& grouped_field(self.count@) is Some
        &&& ts_field(self.end_time@) is Some
        &&& ts_field(self.start_time@) is Some
        &&& grouped_field(self.units@) is Some
    }

    open spec fn forward(&self) -> bool {
        ts_field(self.start_time@)->0 < ts_field(self.end_time@)->0
    }

    open spec fn decodes_to(&self, r: RunepoolUnitsInterval) -> bool {
        &&& grouped_field(self.count@) == Some(r.count as int)
        &&& ts_field(self.end_time@) == Some(r.end_time as int)
        &&& ts_field(self.start_time@) == Some(r.start_time as int)
        &&& grouped_field(self.units@) == Some(r.units as int)
    }

    fn decode(&self) -> (r: Result<RunepoolUnitsInterval, DecodeError>) {
        let count = match decode_grouped_u64(self.count.as_str()) {
            Ok(v) => v,
            Err(e) => return Err(e),
        };
        let end_time = match decode_timestamp(self.end_time.as_str()) {
            Ok(v) => v,
            Err(e) => return Err(e),
        };
        let start_time = match decode_timestamp(self.start_time.as_str()) {
            Ok(v) => v,
            Err(e) => return Err(e),
        };
        let units = match decode_grouped_u64(self.units.as_str()) {
            Ok(v) => v,
            Err(e) => return Err(e),
        };
        if start_time >= end_time {
            return Err(DecodeError::Span);
        }
        Ok(RunepoolUnitsInterval {
            count,
            end_time,
            start_time,
            units,
        })
    }
}

} // verus!
