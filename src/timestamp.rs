//! Modification times as milliseconds since the Unix epoch.
use vstd::prelude::*;

verus! {

/// Nanoseconds in a millisecond.
pub const NANOS_PER_MILLI: u32 = 1_000_000;

/// Nanoseconds in a second: the bound on the sub-second part of a duration.
pub const NANOS_PER_SECOND: u32 = 1_000_000_000;

/// Whole milliseconds in a duration of `secs` seconds and `subsec_nanos`
/// nanoseconds.
pub open spec fn total_millis(secs: int, subsec_nanos: int) -> int {
    secs * 1000 + subsec_nanos / NANOS_PER_MILLI as int
}

/// The millisecond count as reported: kept to its low 64 bits.
pub open spec fn reported_millis(secs: int, subsec_nanos: int) -> int {
    total_millis(secs, subsec_nanos) % 0x1_0000_0000_0000_0000
}

/// Milliseconds since the Unix epoch of a time that lies `secs` seconds and
/// `subsec_nanos` nanoseconds after it, kept to 64 bits.
pub fn millis_since_epoch(secs: u64, subsec_nanos: u32) -> (r: u64)
    ensures
        r as int == reported_millis(secs as int, subsec_nanos as int),
        total_millis(secs as int, subsec_nanos as int) <= u64::MAX ==> r as int == total_millis(
            secs as int,
            subsec_nanos as int,
        ),
{
    let total: u128 = secs as u128 * 1000 + (subsec_nanos / NANOS_PER_MILLI) as u128;
    (total % 0x1_0000_0000_0000_0000u128) as u64
}

/// A time that is not earlier than another never reports fewer milliseconds,
/// as long as the later count fits in 64 bits.
pub proof fn millis_since_epoch_monotone(secs1: u64, nanos1: u32, secs2: u64, nanos2: u32)
    requires
        nanos1 < NANOS_PER_SECOND,
        nanos2 < NANOS_PER_SECOND,
        secs1 < secs2 || (secs1 == secs2 && nanos1 <= nanos2),
        total_millis(secs2 as int, nanos2 as int) <= u64::MAX,
    ensures
        reported_millis(secs1 as int, nanos1 as int) <= reported_millis(secs2 as int, nanos2 as int),
{
    let m1 = nanos1 as int / NANOS_PER_MILLI as int;
    let m2 = nanos2 as int / NANOS_PER_MILLI as int;
    assert(0 <= m1 < 1000) by (nonlinear_arith)
        requires
            m1 == nanos1 as int / 1_000_000,
            0 <= nanos1 < 1_000_000_000,
    ;
    assert(0 <= m2 < 1000) by (nonlinear_arith)
        requires
            m2 == nanos2 as int / 1_000_000,
            0 <= nanos2 < 1_000_000_000,
    ;
    if secs1 == secs2 {
        assert(m1 <= m2) by (nonlinear_arith)
            requires
                m1 == nanos1 as int / 1_000_000,
                m2 == nanos2 as int / 1_000_000,
                0 <= nanos1 <= nanos2,
        ;
    }
    assert(total_millis(secs1 as int, nanos1 as int) <= total_millis(secs2 as int, nanos2 as int));
}

} // verus!
