//! Proleptic Gregorian calendar arithmetic for UTC timestamps: days since
//! the epoch to (year, month, day), and ISO-8601 rendering.

use vstd::prelude::*;
use crate::text::{decimal, padded_decimal_chars, push_all, push_str, string_from_chars, zero_pad};

verus! {

/// 400-year era of the civil day count shifted to start on 0000-03-01.
pub open spec fn era_of_days(days: int) -> int {
    (days + 719_468) / 146_097
}

/// The civil date (year, month, day) of day `days` after 1970-01-01, by
/// Hinnant's civil-from-days: years start in March inside a 400-year era.
pub open spec fn civil_from_days(days: int) -> (int, int, int) {
    let z = days + 719_468;
    let era = z / 146_097;
    let doe = z - era * 146_097;
    let yoe = (doe - doe / 1460 + doe / 36_524 - doe / 146_096) / 365;
    let y = yoe + era * 400;
    let doy = doe - (365 * yoe + yoe / 4 - yoe / 100);
    let mp = (5 * doy + 2) / 153;
    let d = doy - (153 * mp + 2) / 5 + 1;
    let m = if mp < 10 { mp + 3 } else { mp - 9 };
    (if m <= 2 { y + 1 } else { y }, m, d)
}

/// The day count of a civil date (Hinnant's days-from-civil), the inverse
/// of `civil_from_days`.
pub open spec fn days_from_civil(y: int, m: int, d: int) -> int {
    let y1 = if m <= 2 { y - 1 } else { y };
    let era = y1 / 400;
    let yoe = y1 - era * 400;
    let mp = if m > 2 { m - 3 } else { m + 9 };
    let doy = (153 * mp + 2) / 5 + d - 1;
    let doe = yoe * 365 + yoe / 4 - yoe / 100 + doy;
    era * 146_097 + doe - 719_468
}

/// Whether the year of `secs` fits the 32-bit year arithmetic.
pub open spec fn year_fits(secs: int) -> bool {
    -5_368_709 <= era_of_days(secs / 86_400) <= 5_368_708
}

/// (year, month, day, hour, minute, second) of a Unix timestamp.
pub open spec fn ymdhms(secs: int) -> (int, int, int, int, int, int) {
    let days = secs / 86_400;
    let rem = secs % 86_400;
    let c = civil_from_days(days);
    (c.0, c.1, c.2, rem / 3600, (rem / 60) % 60, rem % 60)
}

proof fn lemma_civil_ranges(days: int)
    ensures
        1 <= civil_from_days(days).1 <= 12,
        1 <= civil_from_days(days).2 <= 31,
{
    let z = days + 719_468;
    let era = z / 146_097;
    let doe = z - era * 146_097;
    assert(0 <= doe < 146_097);
    let yoe = (doe - doe / 1460 + doe / 36_524 - doe / 146_096) / 365;
    assert(0 <= yoe <= 399) by (nonlinear_arith)
        requires
            0 <= doe < 146_097,
            yoe == (doe - doe / 1460 + doe / 36_524 - doe / 146_096) / 365,
    ;
    let doy = doe - (365 * yoe + yoe / 4 - yoe / 100);
    assert(0 <= doy <= 365) by (nonlinear_arith)
        requires
            0 <= doe < 146_097,
            yoe == (doe - doe / 1460 + doe / 36_524 - doe / 146_096) / 365,
            doy == doe - (365 * yoe + yoe / 4 - yoe / 100),
    ;
    let mp = (5 * doy + 2) / 153;
    assert(0 <= mp <= 11);
    let d = doy - (153 * mp + 2) / 5 + 1;
    assert(1 <= d <= 31) by (nonlinear_arith)
        requires
            0 <= doy <= 365,
            mp == (5 * doy + 2) / 153,
            d == doy - (153 * mp + 2) / 5 + 1,
    ;
}

/// Splits a Unix timestamp into UTC calendar fields (proleptic Gregorian).
pub fn secs_to_ymdhms(secs: i64) -> (r: (i32, u32, u32, u32, u32, u32))
    requires
        year_fits(secs as int),
    ensures
        r.0 as int == ymdhms(secs as int).0,
        r.1 as int == ymdhms(secs as int).1,
        r.2 as int == ymdhms(secs as int).2,
        r.3 as int == ymdhms(secs as int).3,
        r.4 as int == ymdhms(secs as int).4,
        r.5 as int == ymdhms(secs as int).5,
        1 <= r.1 <= 12,
        1 <= r.2 <= 31,
        r.3 < 24 && r.4 < 60 && r.5 < 60,
        secs as int == days_since_epoch(secs as int) * 86_400 + r.3 * 3600 + r.4 * 60 + r.5,
{
    let days: i64 = secs.checked_div_euclid(86_400).unwrap();
    let rem: u32 = secs.checked_rem_euclid(86_400).unwrap() as u32;
    let hh: u32 = rem / 3600;
    let mm: u32 = (rem / 60) % 60;
    let ss: u32 = rem % 60;
    let z: i64 = days + 719_468;
    let era: i64 = z.checked_div_euclid(146_097).unwrap();
    let doe: u32 = (z - era * 146_097) as u32;
    let yoe: u32 = (doe - doe / 1460 + doe / 36_524 - doe / 146_096) / 365;
    proof {
        assert(0 <= doe < 146_097);
        assert(yoe <= 399) by (nonlinear_arith)
            requires
                doe < 146_097,
                yoe == (doe - doe / 1460 + doe / 36_524 - doe / 146_096) / 365,
        ;
        assert(365 * yoe + yoe / 4 - yoe / 100 <= doe) by (nonlinear_arith)
            requires
                doe < 146_097,
                yoe == (doe - doe / 1460 + doe / 36_524 - doe / 146_096) / 365,
        ;
    }
    let y: i32 = yoe as i32 + era as i32 * 400;
    let doy: u32 = doe - (365 * yoe + yoe / 4 - yoe / 100);
    proof {
        assert(doy <= 365) by (nonlinear_arith)
            requires
                doe < 146_097,
                yoe == (doe - doe / 1460 + doe / 36_524 - doe / 146_096) / 365,
                doy == doe - (365 * yoe + yoe / 4 - yoe / 100),
        ;
    }
    let mp: u32 = (5 * doy + 2) / 153;
    proof {
        assert((153 * mp + 2) / 5 <= doy) by (nonlinear_arith)
            requires
                doy <= 365,
                mp == (5 * doy + 2) / 153,
        ;
        lemma_civil_ranges(days as int);
    }
    let d: u32 = doy - (153 * mp + 2) / 5 + 1;
    let m: u32 = if mp < 10 { mp + 3 } else { mp - 9 };
    let yr: i32 = if m <= 2 { y + 1 } else { y };
    (yr, m, d, hh, mm, ss)
}

/// The calendar conversion is exact: converting a day count to a civil
/// date and back gives the same day count.
pub proof fn lemma_civil_round_trip(days: int)
    ensures
        days_from_civil(civil_from_days(days).0, civil_from_days(days).1, civil_from_days(days).2) == days,
{
    let z = days + 719_468;
    let era = z / 146_097;
    let doe = z - era * 146_097;
    assert(0 <= doe < 146_097);
    let yoe = (doe - doe / 1460 + doe / 36_524 - doe / 146_096) / 365;
    assert(0 <= yoe <= 399) by (nonlinear_arith)
        requires
            0 <= doe < 146_097,
            yoe == (doe - doe / 1460 + doe / 36_524 - doe / 146_096) / 365,
    ;
    let y = yoe + era * 400;
    assert(y / 400 == era);
    assert(y - era * 400 == yoe);
    let doy = doe - (365 * yoe + yoe / 4 - yoe / 100);
    assert(0 <= doy <= 365) by (nonlinear_arith)
        requires
            0 <= doe < 146_097,
            yoe == (doe - doe / 1460 + doe / 36_524 - doe / 146_096) / 365,
            doy == doe - (365 * yoe + yoe / 4 - yoe / 100),
    ;
    let mp = (5 * doy + 2) / 153;
    let d = doy - (153 * mp + 2) / 5 + 1;
    let m = if mp < 10 { mp + 3 } else { mp - 9 };
    let yr = if m <= 2 { y + 1 } else { y };
    assert(civil_from_days(days) == (yr, m, d));
    let y1 = if m <= 2 { yr - 1 } else { yr };
    assert(y1 == y);
    let mp2 = if m > 2 { m - 3 } else { m + 9 };
    assert(mp2 == mp);
    assert((153 * mp2 + 2) / 5 + d - 1 == doy);
}

/// Whole days since the epoch of a timestamp (floor).
pub open spec fn days_since_epoch(secs: int) -> int {
    secs / 86_400
}

/// ISO-8601 UTC text with nanoseconds, as the conversation store stamps
/// records: `YYYY-MM-DDTHH:MM:SS.nnnnnnnnnZ`.
pub open spec fn iso_nanos(secs: int, nanos: nat) -> Seq<char> {
    let t = ymdhms(secs);
    zero_pad(decimal(t.0 as nat), 4) + "-"@ + zero_pad(decimal(t.1 as nat), 2) + "-"@ + zero_pad(
        decimal(t.2 as nat),
        2,
    ) + "T"@ + zero_pad(decimal(t.3 as nat), 2) + ":"@ + zero_pad(decimal(t.4 as nat), 2) + ":"@ + zero_pad(
        decimal(t.5 as nat),
        2,
    ) + "."@ + zero_pad(decimal(nanos), 9) + "Z"@
}

/// Renders a wall-clock reading (seconds and nanoseconds since the epoch)
/// as ISO-8601 UTC with nanoseconds.
pub fn iso_from_wall_clock(seconds: u64, nanoseconds: u32) -> (s: String)
    requires
        seconds <= i64::MAX,
        year_fits(seconds as int),
    ensures
        s@ == iso_nanos(seconds as int, nanoseconds as nat),
{
    let (year, month, day, hh, mm, ss) = secs_to_ymdhms(seconds as i64);
    proof {
        assert(ymdhms(seconds as int).0 >= 1969) by {
            assert(seconds as int / 86_400 >= 0);
            lemma_year_after_epoch(seconds as int / 86_400);
        }
    }
    let mut v: Vec<char> = Vec::new();
    let a = padded_decimal_chars(year as u64, 4);
    push_all(&mut v, a.as_slice());
    push_str(&mut v, "-");
    let b = padded_decimal_chars(month as u64, 2);
    push_all(&mut v, b.as_slice());
    push_str(&mut v, "-");
    let c = padded_decimal_chars(day as u64, 2);
    push_all(&mut v, c.as_slice());
    push_str(&mut v, "T");
    let e = padded_decimal_chars(hh as u64, 2);
    push_all(&mut v, e.as_slice());
    push_str(&mut v, ":");
    let f = padded_decimal_chars(mm as u64, 2);
    push_all(&mut v, f.as_slice());
    push_str(&mut v, ":");
    let g = padded_decimal_chars(ss as u64, 2);
    push_all(&mut v, g.as_slice());
    push_str(&mut v, ".");
    let h = padded_decimal_chars(nanoseconds as u64, 9);
    push_all(&mut v, h.as_slice());
    push_str(&mut v, "Z");
    string_from_chars(v.as_slice())
}

/// Days on or after the epoch fall in year 1969 or later (1969 only for
/// the March-based era arithmetic's intermediate year; the civil year is
/// at least 1970).
proof fn lemma_year_after_epoch(days: int)
    requires
        days >= 0,
    ensures
        civil_from_days(days).0 >= 1969,
{
    let z = days + 719_468;
    let era = z / 146_097;
    assert(era >= 4);
    let doe = z - era * 146_097;
    let yoe = (doe - doe / 1460 + doe / 36_524 - doe / 146_096) / 365;
    assert(yoe >= 0) by (nonlinear_arith)
        requires
            0 <= doe < 146_097,
            yoe == (doe - doe / 1460 + doe / 36_524 - doe / 146_096) / 365,
    ;
    if era == 4 {
        assert(doe == days + 719_468 - 584_388);
        assert(doe >= 135_080);
        assert(yoe >= 369) by (nonlinear_arith)
            requires
                135_080 <= doe < 146_097,
                yoe == (doe - doe / 1460 + doe / 36_524 - doe / 146_096) / 365,
        ;
    }
}

} // verus!
