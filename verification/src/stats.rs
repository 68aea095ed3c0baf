//! Throughput reporting: turns the server's progress counters and the
//! round trip's elapsed time into one human-readable line.

use vstd::prelude::*;

use crate::num::{group_digits, grouped_spec};

verus! {

/// Server-reported progress counters for one statement.
#[derive(Clone, Copy, Debug, PartialEq, Eq, Structural)]
pub struct ProgressStats {
    pub read_rows: u64,
    pub read_bytes: u64,
}

/// What a byte count `n` renders as when scaled to a decimal unit
/// (`B`, `KB`, `MB`, ...): the whole scaled quantity, value and unit.
pub uninterp spec fn human_display_of(n: u64) -> Seq<char>;

/// The scaled value alone, as text.
pub uninterp spec fn human_value_of(n: u64) -> Seq<char>;

/// The chosen unit alone, as text.
pub uninterp spec fn human_unit_of(n: u64) -> Seq<char>;

/// Relies on `byte_unit::Byte::get_appropriate_unit` with decimal units
/// and on `byte_unit::AdjustedByte`'s `Display`: the text depends on the
/// byte count alone.
#[verifier::external_body]
fn human_byte_display(n: u64) -> (r: String)
    ensures
        r@ == human_display_of(n),
{
    format!("{}", byte_unit::Byte::from_u64(n).get_appropriate_unit(byte_unit::UnitType::Decimal))
}

/// Relies on `byte_unit::AdjustedByte::get_value` and
/// `byte_unit::AdjustedByte::get_unit`, after scaling the count with
/// `get_appropriate_unit` (decimal): both parts depend on the byte count
/// alone.
#[verifier::external_body]
fn human_byte_parts(n: u64) -> (r: (String, String))
    ensures
        r.0@ == human_value_of(n),
        r.1@ == human_unit_of(n),
{
    let adjusted = byte_unit::Byte::from_u64(n).get_appropriate_unit(byte_unit::UnitType::Decimal);
    (format!("{}", adjusted.get_value()), format!("{}", adjusted.get_unit()))
}

/// Whole units per second: `count` spread over `ms` milliseconds,
/// truncated.
pub open spec fn rate_per_sec(count: u64, ms: u64) -> int
    recommends
        ms > 0,
{
    (count * 1000) / (ms as int)
}

/// `rate_per_sec`, held to what a 64-bit counter can carry.
pub open spec fn rate_per_sec_sat(count: u64, ms: u64) -> u64
    recommends
        ms > 0,
{
    if rate_per_sec(count, ms) > u64::MAX {
        u64::MAX
    } else {
        rate_per_sec(count, ms) as u64
    }
}

/// The throughput line for one statement: absolute rows (digit-grouped)
/// and bytes (unit-scaled), then rows and bytes per second. Both rates are
/// whole units, truncated; the byte rate is truncated to whole bytes
/// before unit scaling, so no fractional byte count reaches the scaler.
pub open spec fn stats_line(stats: ProgressStats, ms: u64) -> Seq<char>
    recommends
        ms > 0,
{
    "read rows: "@ + grouped_spec(stats.read_rows as nat) + ", read bytes: "@ + human_display_of(
        stats.read_bytes,
    ) + ", rows/sec: "@ + grouped_spec(rate_per_sec(stats.read_rows, ms) as nat)
        + " (rows/sec), bytes/sec: "@ + human_value_of(rate_per_sec_sat(stats.read_bytes, ms))
        + " ("@ + human_unit_of(rate_per_sec_sat(stats.read_bytes, ms)) + "/sec)"@
}

/// Formats the throughput line, or reports nothing when the elapsed time
/// rounds to zero milliseconds: a zero duration yields no rate rather than
/// a division by zero.
pub fn format_stats(stats: &ProgressStats, elapsed_ms: u64) -> (r: Option<String>)
    ensures
        elapsed_ms == 0 <==> r is None,
        elapsed_ms > 0 ==> (r matches Some(line) && line@ == stats_line(*stats, elapsed_ms)),
{
    if elapsed_ms == 0 {
        return None;
    }
    let rows_rate: u128 = (stats.read_rows as u128) * 1000 / (elapsed_ms as u128);
    let bytes_rate_wide: u128 = (stats.read_bytes as u128) * 1000 / (elapsed_ms as u128);
    let bytes_rate: u64 = if bytes_rate_wide > u64::MAX as u128 {
        u64::MAX
    } else {
        bytes_rate_wide as u64
    };
    proof {
        assert(rows_rate == rate_per_sec(stats.read_rows, elapsed_ms));
        assert(bytes_rate == rate_per_sec_sat(stats.read_bytes, elapsed_ms));
    }
    let mut line = String::from_str("read rows: ");
    let rows_grouped = group_digits(stats.read_rows as u128);
    line.append(rows_grouped.as_str());
    line.append(", read bytes: ");
    let bytes_display = human_byte_display(stats.read_bytes);
    line.append(bytes_display.as_str());
    line.append(", rows/sec: ");
    let rate_grouped = group_digits(rows_rate);
    line.append(rate_grouped.as_str());
    line.append(" (rows/sec), bytes/sec: ");
    let parts = human_byte_parts(bytes_rate);
    line.append(parts.0.as_str());
    line.append(" (");
    line.append(parts.1.as_str());
    line.append("/sec)");
    Some(line)
}

} // verus!
