//! Timestamps, addresses and identifiers drawn for log lines.
use chrono::{DateTime, Utc};
use rand_chacha::ChaCha8Rng;
use vstd::prelude::*;

use crate::rng::{gen_range_u32, gen_range_u64, gen_range_u8, gen_range_usize, random_bytes};
use crate::sampling::{hex_of_bytes, push_hex_bytes};
use crate::text::{dec, dec_pad, hex_char, lemma_dec_len_pow, pow10, push_char, push_dec, push_dec_pad};
use crate::vocab::MONTHS;

verus! {

/// 2025-01-01T00:00:00Z: synthetic timestamps fall in the 30 days before it.
pub const TEMPLATE_BASE_TIMESTAMP_SECS: i64 = 1_735_689_600;

/// Seconds in the 30-day window of synthetic timestamps.
pub const TIMESTAMP_WINDOW_SECS: u64 = 2_592_000;

/// The chrono pattern of ISO-8601 timestamps with milliseconds.
pub open spec fn iso_millis_pattern() -> Seq<char> {
    "%Y-%m-%dT%H:%M:%S%.3fZ"@
}

/// `c` is an ASCII decimal digit.
pub open spec fn is_digit(c: char) -> bool {
    '0' <= c <= '9'
}

/// The shape of `%Y-%m-%dT%H:%M:%S%.3fZ` for a whole second of years 0 to
/// 9999: `dddd-dd-ddTdd:dd:dd.000Z`, 24 characters.
pub open spec fn iso_millis_shape(t: Seq<char>) -> bool {
    &&& t.len() == 24
    &&& forall|i: int|
        0 <= i < 19 && i != 4 && i != 7 && i != 10 && i != 13 && i != 16 ==> is_digit(#[trigger] t[i])
    &&& t[4] == '-' && t[7] == '-' && t[10] == 'T' && t[13] == ':' && t[16] == ':'
    &&& t.subrange(19, 24) == ".000Z"@
}

/// The date of day `days` counted from 1970-01-01 in the proleptic
/// Gregorian calendar, as (year, month, day of month), for `days >= 0`:
/// days are counted in 400-year eras that start on a 1 March.
pub open spec fn civil_from_days(days: int) -> (int, int, int) {
    let z = days + 719_468;
    let era = z / 146_097;
    let doe = z - era * 146_097;
    let yoe = (doe - doe / 1460 + doe / 36_524 - doe / 146_096) / 365;
    let doy = doe - (365 * yoe + yoe / 4 - yoe / 100);
    let mp = (5 * doy + 2) / 153;
    let d = doy - (153 * mp + 2) / 5 + 1;
    let m = if mp < 10 {
        mp + 3
    } else {
        mp - 9
    };
    (yoe + era * 400 + if m <= 2 {
        1int
    } else {
        0int
    }, m, d)
}

/// `YYYY-MM-DDThh:mm:ss.000Z`.
pub open spec fn iso_text(y: nat, mo: nat, d: nat, h: nat, mi: nat, s: nat) -> Seq<char> {
    dec_pad(y, 4) + "-"@ + dec_pad(mo, 2) + "-"@ + dec_pad(d, 2) + "T"@ + dec_pad(h, 2) + ":"@ + dec_pad(mi, 2)
        + ":"@ + dec_pad(s, 2) + ".000Z"@
}

/// The ISO text, with milliseconds, of the UTC second `secs` after the epoch
/// (`secs >= 0`).
pub open spec fn utc_text(secs: int) -> Seq<char> {
    let date = civil_from_days(secs / 86_400);
    let t = secs % 86_400;
    iso_text(date.0 as nat, date.1 as nat, date.2 as nat, (t / 3600) as nat, (t % 3600 / 60) as nat, (t % 60) as nat)
}

/// `DateTime::<Utc>::from_timestamp(secs, 0)`, formatted with `pattern` by
/// `format(..).to_string()`. Claimed: every second of years 1970 to 9999 is
/// in chrono's range, and chrono writes it with the one ISO pattern this
/// library uses as `utc_text(secs)`: the Gregorian date with a four-digit
/// year, two-digit fields and, the nanoseconds being zero, `.000`. (An
/// invalid pattern makes `to_string` panic; the pattern is fixed.) Of other
/// seconds nothing is claimed.
#[verifier::external_body]
fn format_utc_seconds(secs: i64, pattern: &str) -> (r: Option<String>)
    requires
        pattern@ == iso_millis_pattern(),
    ensures
        0 <= secs <= 253_402_300_799 ==> r is Some && r->0@ == utc_text(secs as int),
{
    match DateTime::<Utc>::from_timestamp(secs, 0) {
        Some(dt) => Some(dt.format(pattern).to_string()),
        None => None,
    }
}

/// The ISO text of the instant `secs_before` seconds before the template base.
pub open spec fn iso_ts_text(secs_before: int) -> Seq<char> {
    utc_text(TEMPLATE_BASE_TIMESTAMP_SECS - secs_before)
}

/// `s` is an ISO timestamp in the 30-day window before the template base.
pub open spec fn is_iso_ts(s: Seq<char>) -> bool {
    exists|secs: int| 0 <= secs < TIMESTAMP_WINDOW_SECS && s == #[trigger] iso_ts_text(secs)
}

/// The window's instants as text: the base itself, 2025-01-01T00:00:00, or a
/// second of 2024-12-02 to 2024-12-31 after 2024-12-02T00:00:00.
pub open spec fn in_window_text(t: Seq<char>) -> bool {
    t == iso_text(2025, 1, 1, 0, 0, 0) || exists|d: nat, h: nat, mi: nat, s: nat|
        2 <= d <= 31 && h < 24 && mi < 60 && s < 60 && !(d == 2 && h == 0 && mi == 0 && s == 0) && t
            == #[trigger] iso_text(2024, 12, d, h, mi, s)
}

proof fn lemma_window_date(secs_before: int)
    requires
        0 <= secs_before < TIMESTAMP_WINDOW_SECS,
    ensures
        in_window_text(iso_ts_text(secs_before)),
{
    let ts = TEMPLATE_BASE_TIMESTAMP_SECS - secs_before;
    let days = ts / 86_400;
    let t = ts % 86_400;
    if secs_before == 0 {
        assert(days == 20_089 && t == 0);
        assert(civil_from_days(20_089) == (2025int, 1int, 1int));
    } else {
        assert(20_059 <= days <= 20_088);
        let z = days + 719_468;
        assert(z / 146_097 == 5);
        let doe = z - 5 * 146_097;
        assert(doe / 1460 == 6 && doe / 36_524 == 0 && doe / 146_096 == 0);
        assert((doe - 6) / 365 == 24);
        let doy = doe - (365 * 24 + 6);
        assert((5 * doy + 2) / 153 == 9);
        assert((153 * 9 + 2) / 5 == 275);
        assert(civil_from_days(days) == (2024int, 12int, days - 20_057));
        let h = t / 3600;
        let mi = t % 3600 / 60;
        let s = t % 60;
        assert(t == h * 3600 + mi * 60 + s);
        assert(days == 20_059 ==> t > 0);
        assert(iso_ts_text(secs_before) == iso_text(
            2024,
            12,
            (days - 20_057) as nat,
            h as nat,
            mi as nat,
            s as nat,
        ));
    }
}

/// Every character of a decimal numeral is a digit.
proof fn lemma_dec_digits(n: nat)
    ensures
        forall|i: int| 0 <= i < dec(n).len() ==> is_digit(#[trigger] dec(n)[i]),
    decreases n,
{
    if n >= 10 {
        lemma_dec_digits(n / 10);
        assert forall|i: int| 0 <= i < dec(n).len() implies is_digit(#[trigger] dec(n)[i]) by {
            if i < dec(n / 10).len() {
                assert(dec(n)[i] == dec(n / 10)[i]);
            }
        }
    }
}

/// A number below `10^w` padded to `w` digits has exactly `w` digits.
proof fn lemma_dec_pad_digits(n: nat, w: nat)
    requires
        1 <= w,
        n < pow10(w),
    ensures
        dec_pad(n, w).len() == w,
        forall|i: int| 0 <= i < w ==> is_digit(#[trigger] dec_pad(n, w)[i]),
{
    lemma_dec_len_pow(n, w);
    lemma_dec_digits(n);
    let d = dec(n);
    if d.len() < w {
        let z = Seq::new((w - d.len()) as nat, |i: int| '0');
        assert forall|i: int| 0 <= i < w implies is_digit(#[trigger] dec_pad(n, w)[i]) by {
            if i < z.len() {
                assert(dec_pad(n, w)[i] == z[i]);
            } else {
                assert(dec_pad(n, w)[i] == d[i - z.len()]);
            }
        }
    }
}

proof fn lemma_iso_text_shape(y: nat, mo: nat, d: nat, h: nat, mi: nat, s: nat)
    requires
        y < 10_000,
        mo < 100,
        d < 100,
        h < 100,
        mi < 100,
        s < 100,
    ensures
        iso_millis_shape(iso_text(y, mo, d, h, mi, s)),
{
    reveal_with_fuel(pow10, 5);
    lemma_dec_pad_digits(y, 4);
    lemma_dec_pad_digits(mo, 2);
    lemma_dec_pad_digits(d, 2);
    lemma_dec_pad_digits(h, 2);
    lemma_dec_pad_digits(mi, 2);
    lemma_dec_pad_digits(s, 2);
    reveal_strlit("-");
    reveal_strlit("T");
    reveal_strlit(":");
    reveal_strlit(".000Z");
    let t = iso_text(y, mo, d, h, mi, s);
    let (a, b, c, e, f, g) = (
        dec_pad(y, 4),
        dec_pad(mo, 2),
        dec_pad(d, 2),
        dec_pad(h, 2),
        dec_pad(mi, 2),
        dec_pad(s, 2),
    );
    assert(t =~= a + "-"@ + b + "-"@ + c + "T"@ + e + ":"@ + f + ":"@ + g + ".000Z"@);
    assert(t.len() == 24);
    assert forall|i: int|
        0 <= i < 19 && i != 4 && i != 7 && i != 10 && i != 13 && i != 16 implies is_digit(#[trigger] t[i]) by {
        if i < 4 {
            assert(t[i] == a[i]);
        } else if i < 7 {
            assert(t[i] == b[i - 5]);
        } else if i < 10 {
            assert(t[i] == c[i - 8]);
        } else if i < 13 {
            assert(t[i] == e[i - 11]);
        } else if i < 16 {
            assert(t[i] == f[i - 14]);
        } else {
            assert(t[i] == g[i - 17]);
        }
    }
    assert(t.subrange(19, 24) =~= ".000Z"@);
}

/// A random instant of the 30 days before 2025-01-01, as
/// `%Y-%m-%dT%H:%M:%S%.3fZ`: after 2024-12-02T00:00:00 and at most
/// 2025-01-01T00:00:00.
pub fn rand_timestamp_iso(rng: &mut ChaCha8Rng) -> (r: String)
    ensures
        is_iso_ts(r@),
        in_window_text(r@),
        iso_millis_shape(r@),
{
    let secs = gen_range_u64(rng, 0, TIMESTAMP_WINDOW_SECS);
    let ts = TEMPLATE_BASE_TIMESTAMP_SECS - secs as i64;
    match format_utc_seconds(ts, "%Y-%m-%dT%H:%M:%S%.3fZ") {
        Some(t) => {
            assert(t@ == iso_ts_text(secs as int));
            proof {
                lemma_window_date(secs as int);
                if t@ == iso_text(2025, 1, 1, 0, 0, 0) {
                    lemma_iso_text_shape(2025, 1, 1, 0, 0, 0);
                } else {
                    let (d, h, mi, s) = choose|d: nat, h: nat, mi: nat, s: nat|
                        2 <= d <= 31 && h < 24 && mi < 60 && s < 60 && !(d == 2 && h == 0 && mi == 0 && s
                            == 0) && t@ == #[trigger] iso_text(2024, 12, d, h, mi, s);
                    lemma_iso_text_shape(2024, 12, d, h, mi, s);
                }
            }
            t
        },
        None => {
            assert(false);
            String::new()
        },
    }
}

/// glog's `MMDD hh:mm:ss.uuuuuu`.
pub open spec fn glog_ts_text(month: nat, day: nat, h: nat, m: nat, s: nat, us: nat) -> Seq<char> {
    dec_pad(month, 2) + dec_pad(day, 2) + " "@ + dec_pad(h, 2) + ":"@ + dec_pad(m, 2) + ":"@
        + dec_pad(s, 2) + "."@ + dec_pad(us, 6)
}

pub open spec fn is_glog_ts(t: Seq<char>) -> bool {
    exists|month: nat, day: nat, h: nat, m: nat, s: nat, us: nat|
        1 <= month <= 12 && 1 <= day <= 28 && h < 24 && m < 60 && s < 60 && us < 1_000_000 && t
            == #[trigger] glog_ts_text(month, day, h, m, s, us)
}

/// Renders a glog timestamp from its fields.
pub fn render_glog_ts(month: u32, day: u32, h: u32, m: u32, s: u32, us: u32) -> (r: String)
    ensures
        r@ == glog_ts_text(month as nat, day as nat, h as nat, m as nat, s as nat, us as nat),
{
    let mut t = String::new();
    push_dec_pad(&mut t, month as u64, 2);
    push_dec_pad(&mut t, day as u64, 2);
    t.append(" ");
    push_dec_pad(&mut t, h as u64, 2);
    t.append(":");
    push_dec_pad(&mut t, m as u64, 2);
    t.append(":");
    push_dec_pad(&mut t, s as u64, 2);
    t.append(".");
    push_dec_pad(&mut t, us as u64, 6);
    assert(t@ =~= glog_ts_text(month as nat, day as nat, h as nat, m as nat, s as nat, us as nat));
    t
}

/// A random glog timestamp (day of month 1 to 28).
pub fn rand_glog_ts(rng: &mut ChaCha8Rng) -> (r: String)
    ensures
        is_glog_ts(r@),
{
    let month = gen_range_u32(rng, 1, 13);
    let day = gen_range_u32(rng, 1, 29);
    let h = gen_range_u32(rng, 0, 24);
    let m = gen_range_u32(rng, 0, 60);
    let s = gen_range_u32(rng, 0, 60);
    let us = gen_range_u32(rng, 0, 1_000_000);
    let r = render_glog_ts(month, day, h, m, s, us);
    assert(is_glog_ts(r@)) by {
        assert(r@ == glog_ts_text(month as nat, day as nat, h as nat, m as nat, s as nat, us as nat));
    }
    r
}

/// nginx's `[DD/Mon/YYYY:hh:mm:ss +0000]`.
pub open spec fn nginx_ts_text(mi: int, day: nat, year: nat, h: nat, m: nat, s: nat) -> Seq<char> {
    "["@ + dec_pad(day, 2) + "/"@ + MONTHS@[mi]@ + "/"@ + dec(year) + ":"@ + dec_pad(h, 2) + ":"@
        + dec_pad(m, 2) + ":"@ + dec_pad(s, 2) + " +0000]"@
}

pub open spec fn is_nginx_ts(t: Seq<char>) -> bool {
    exists|mi: int, day: nat, year: nat, h: nat, m: nat, s: nat|
        0 <= mi < 12 && 1 <= day <= 28 && 2022 <= year <= 2025 && h < 24 && m < 60 && s < 60 && t
            == #[trigger] nginx_ts_text(mi, day, year, h, m, s)
}

/// Renders an nginx timestamp from its fields (`mi` indexes the month names).
pub fn render_nginx_ts(mi: usize, day: u32, year: u32, h: u32, m: u32, s: u32) -> (r: String)
    requires
        mi < 12,
    ensures
        r@ == nginx_ts_text(mi as int, day as nat, year as nat, h as nat, m as nat, s as nat),
{
    let mut t = String::new();
    t.append("[");
    push_dec_pad(&mut t, day as u64, 2);
    t.append("/");
    t.append(MONTHS[mi]);
    t.append("/");
    push_dec(&mut t, year as u64);
    t.append(":");
    push_dec_pad(&mut t, h as u64, 2);
    t.append(":");
    push_dec_pad(&mut t, m as u64, 2);
    t.append(":");
    push_dec_pad(&mut t, s as u64, 2);
    t.append(" +0000]");
    assert(t@ =~= nginx_ts_text(mi as int, day as nat, year as nat, h as nat, m as nat, s as nat));
    t
}

/// A random nginx timestamp in 2022 to 2025 (day of month 1 to 28).
pub fn rand_nginx_ts(rng: &mut ChaCha8Rng) -> (r: String)
    ensures
        is_nginx_ts(r@),
{
    let mi = gen_range_usize(rng, 0, 12);
    let day = gen_range_u32(rng, 1, 29);
    let year = 2022 + gen_range_u32(rng, 0, 4);
    let h = gen_range_u32(rng, 0, 24);
    let m = gen_range_u32(rng, 0, 60);
    let s = gen_range_u32(rng, 0, 60);
    let r = render_nginx_ts(mi, day, year, h, m, s);
    assert(is_nginx_ts(r@)) by {
        assert(r@ == nginx_ts_text(mi as int, day as nat, year as nat, h as nat, m as nat, s as nat));
    }
    r
}

/// A `10.a.b.c` address.
pub open spec fn ip_text(a: nat, b: nat, c: nat) -> Seq<char> {
    "10."@ + dec(a) + "."@ + dec(b) + "."@ + dec(c)
}

pub open spec fn is_ip(t: Seq<char>) -> bool {
    exists|a: nat, b: nat, c: nat| a < 256 && b < 256 && 1 <= c < 255 && t == #[trigger] ip_text(a, b, c)
}

/// Renders `10.a.b.c`.
pub fn render_ip(a: u32, b: u32, c: u32) -> (r: String)
    ensures
        r@ == ip_text(a as nat, b as nat, c as nat),
{
    let mut t = String::new();
    t.append("10.");
    push_dec(&mut t, a as u64);
    t.append(".");
    push_dec(&mut t, b as u64);
    t.append(".");
    push_dec(&mut t, c as u64);
    assert(t@ =~= ip_text(a as nat, b as nat, c as nat));
    t
}

/// A random address in `10.0.0.0/8` whose last octet is 1 to 254.
pub fn rand_ip(rng: &mut ChaCha8Rng) -> (r: String)
    ensures
        is_ip(r@),
{
    let a = gen_range_u32(rng, 0, 256);
    let b = gen_range_u32(rng, 0, 256);
    let c = gen_range_u32(rng, 1, 255);
    let r = render_ip(a, b, c);
    assert(is_ip(r@)) by {
        assert(r@ == ip_text(a as nat, b as nat, c as nat));
    }
    r
}

/// 16 bytes in the `8-4-4-4-12` hex layout of a UUID.
pub open spec fn uuid_text(bs: Seq<u8>) -> Seq<char> {
    hex_of_bytes(bs.subrange(0, 4)) + "-"@ + hex_of_bytes(bs.subrange(4, 6)) + "-"@ + hex_of_bytes(
        bs.subrange(6, 8),
    ) + "-"@ + hex_of_bytes(bs.subrange(8, 10)) + "-"@ + hex_of_bytes(bs.subrange(10, 16))
}

pub open spec fn is_uuid(t: Seq<char>) -> bool {
    exists|bs: Seq<u8>| bs.len() == 16 && t == #[trigger] uuid_text(bs)
}

/// Renders 16 bytes as a UUID.
pub fn render_uuid(bs: &[u8]) -> (r: String)
    requires
        bs@.len() == 16,
    ensures
        r@ == uuid_text(bs@),
{
    let mut t = String::new();
    push_hex_bytes(&mut t, bs, 0, 4);
    t.append("-");
    push_hex_bytes(&mut t, bs, 4, 6);
    t.append("-");
    push_hex_bytes(&mut t, bs, 6, 8);
    t.append("-");
    push_hex_bytes(&mut t, bs, 8, 10);
    t.append("-");
    push_hex_bytes(&mut t, bs, 10, 16);
    assert(t@ =~= uuid_text(bs@));
    t
}

/// 16 random bytes as a UUID.
pub fn rand_uuid(rng: &mut ChaCha8Rng) -> (r: String)
    ensures
        is_uuid(r@),
{
    let bytes = random_bytes(rng, 16);
    let r = render_uuid(bytes.as_slice());
    assert(is_uuid(r@)) by {
        assert(r@ == uuid_text(bytes@));
    }
    r
}

/// `c` is a lowercase hexadecimal digit.
pub open spec fn is_hex_char(c: char) -> bool {
    exists|d: nat| d < 16 && c == #[trigger] hex_char(d)
}

/// `len` random lowercase hex digits.
pub fn rand_hex(rng: &mut ChaCha8Rng, len: usize) -> (r: String)
    ensures
        r@.len() == len,
        forall|i: int| 0 <= i < len ==> is_hex_char(#[trigger] r@[i]),
{
    let mut s = String::new();
    let mut k: usize = 0;
    while k < len
        invariant
            k <= len,
            s@.len() == k,
            forall|i: int| 0 <= i < k ==> is_hex_char(#[trigger] s@[i]),
        decreases len - k,
    {
        let v = gen_range_u8(rng, 0, 16);
        let c = if v < 10 {
            (48u8 + v) as char
        } else {
            (97u8 + v - 10) as char
        };
        assert(c == hex_char(v as nat));
        push_char(&mut s, c);
        k = k + 1;
    }
    s
}

/// A random parquet file id in `[7e18, 7999999999999999999)`.
pub fn rand_parquet_id(rng: &mut ChaCha8Rng) -> (r: u64)
    ensures
        7_000_000_000_000_000_000 <= r < 7_999_999_999_999_999_999,
{
    gen_range_u64(rng, 7_000_000_000_000_000_000, 7_999_999_999_999_999_999)
}

} // verus!
