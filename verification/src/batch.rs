//! Batches: which records a batch holds and with which seeds, the request
//! bodies built from the serialised records, and how a batch's delivery is
//! counted.
use flate2::write::GzEncoder;
use flate2::Compression;
use std::io::{Read, Write};
use vstd::prelude::*;

verus! {

// ---------------------------------------------------------------- seeds

/// The SplitMix64 finaliser.
pub open spec fn splitmix64_spec(x: u64) -> u64 {
    let x1 = x.wrapping_add(0x9E37_79B9_7F4A_7C15);
    let z1 = (x1 ^ (x1 >> 30u64)).wrapping_mul(0xBF58_476D_1CE4_E5B9);
    let z2 = (z1 ^ (z1 >> 27u64)).wrapping_mul(0x94D0_49BB_1331_11EB);
    z2 ^ (z2 >> 31u64)
}

/// SplitMix64: spreads consecutive inputs over the whole `u64` range.
pub fn splitmix64(x: u64) -> (r: u64)
    ensures
        r == splitmix64_spec(x),
{
    let x = x.wrapping_add(0x9E37_79B9_7F4A_7C15);
    let mut z = x;
    z = (z ^ (z >> 30u64)).wrapping_mul(0xBF58_476D_1CE4_E5B9);
    z = (z ^ (z >> 27u64)).wrapping_mul(0x94D0_49BB_1331_11EB);
    z ^ (z >> 31u64)
}

/// The inverse of the first multiplier modulo 2^64.
pub const SPLITMIX_M1_INV: u64 = 0x96DE_1B17_3F11_9089;

/// The inverse of the second multiplier modulo 2^64.
pub const SPLITMIX_M2_INV: u64 = 0x3196_42B2_D24D_8EC3;

/// Undoes `z ^ (z >> s)` for a shift `s` of at least 22 bits.
pub open spec fn unxorshift(y: u64, s: u64) -> u64 {
    y ^ (y >> s) ^ (y >> (2 * s) as u64)
}

/// The inverse of SplitMix64: each step undone, last step first.
pub open spec fn splitmix64_inverse(r: u64) -> u64 {
    let z2 = unxorshift(r, 31);
    let z1 = unxorshift(z2.wrapping_mul(SPLITMIX_M2_INV), 27);
    let x1 = unxorshift(z1.wrapping_mul(SPLITMIX_M1_INV), 30);
    x1.wrapping_sub(0x9E37_79B9_7F4A_7C15)
}

proof fn lemma_unxorshift(z: u64)
    ensures
        unxorshift(z ^ (z >> 30u64), 30) == z,
        unxorshift(z ^ (z >> 27u64), 27) == z,
        unxorshift(z ^ (z >> 31u64), 31) == z,
{
    assert(((z ^ (z >> 30u64)) ^ ((z ^ (z >> 30u64)) >> 30u64) ^ ((z ^ (z >> 30u64)) >> 60u64)) == z)
        by (bit_vector);
    assert(((z ^ (z >> 27u64)) ^ ((z ^ (z >> 27u64)) >> 27u64) ^ ((z ^ (z >> 27u64)) >> 54u64)) == z)
        by (bit_vector);
    assert(((z ^ (z >> 31u64)) ^ ((z ^ (z >> 31u64)) >> 31u64) ^ ((z ^ (z >> 31u64)) >> 62u64)) == z)
        by (bit_vector);
}

/// Multiplying by `m` and then by `minv`, where `m * minv == 1 + k * 2^64`,
/// gives back `a`.
proof fn lemma_mul_inverse(a: u64, m: u64, minv: u64, k: int)
    requires
        k >= 0,
        m as int * minv as int == 1 + k * 0x1_0000_0000_0000_0000,
    ensures
        a.wrapping_mul(m).wrapping_mul(minv) == a,
{
    let w: int = 0x1_0000_0000_0000_0000;
    let b = a.wrapping_mul(m);
    assert(b as int == (a as int * m as int) % w);
    vstd::arithmetic::div_mod::lemma_mul_mod_noop_left(a as int * m as int, minv as int, w);
    vstd::arithmetic::mul::lemma_mul_is_associative(a as int, m as int, minv as int);
    assert(a as int * (1 + k * w) == w * (a as int * k) + a as int) by (nonlinear_arith);
    vstd::arithmetic::div_mod::lemma_mod_multiples_vanish(a as int * k, a as int, w);
    vstd::arithmetic::div_mod::lemma_small_mod(a as nat, w as nat);
}

/// SplitMix64 is a bijection of `u64`: `splitmix64_inverse` undoes it.
pub proof fn law_splitmix64_inverse(x: u64)
    ensures
        splitmix64_inverse(splitmix64_spec(x)) == x,
{
    let x1 = x.wrapping_add(0x9E37_79B9_7F4A_7C15);
    let y1 = x1 ^ (x1 >> 30u64);
    let z1 = y1.wrapping_mul(0xBF58_476D_1CE4_E5B9);
    let y2 = z1 ^ (z1 >> 27u64);
    let z2 = y2.wrapping_mul(0x94D0_49BB_1331_11EB);
    lemma_unxorshift(z2);
    lemma_unxorshift(z1);
    lemma_unxorshift(x1);
    lemma_mul_inverse(y2, 0x94D0_49BB_1331_11EB, SPLITMIX_M2_INV, 2077064247507883091);
    lemma_mul_inverse(y1, 0xBF58_476D_1CE4_E5B9, SPLITMIX_M1_INV, 8125545580553827436);
}

/// SplitMix64 never maps two inputs to one output, so distinct values of
/// `seed ^ index` always give distinct generator seeds.
pub proof fn law_splitmix64_injective(x: u64, y: u64)
    requires
        splitmix64_spec(x) == splitmix64_spec(y),
    ensures
        x == y,
{
    law_splitmix64_inverse(x);
    law_splitmix64_inverse(y);
}

/// The generator seed of record `index` of a run seeded with `seed`.
pub open spec fn record_seed_spec(seed: u64, index: u64) -> u64 {
    splitmix64_spec(seed ^ index)
}

/// Distinct records of one run never share a generator seed.
pub proof fn law_record_seeds_distinct(seed: u64, a: u64, b: u64)
    requires
        a != b,
    ensures
        record_seed_spec(seed, a) != record_seed_spec(seed, b),
{
    assert(seed ^ a != seed ^ b) by (bit_vector)
        requires
            a != b,
    ;
    if record_seed_spec(seed, a) == record_seed_spec(seed, b) {
        law_splitmix64_injective(seed ^ a, seed ^ b);
    }
}

/// A record of a batch: its index in the run, the seed its content is drawn
/// from, and its event time.
pub struct RecordPlan {
    pub index: u64,
    pub rng_seed: u64,
    pub timestamp_us: u64,
}

/// `x` modulo 2^64, as the `u64` timestamps wrap.
pub open spec fn wrap_u64(x: int) -> u64 {
    (x % 0x1_0000_0000_0000_0000) as u64
}

/// Row `i` of the batch that starts at record `start` and was generated
/// `elapsed_us` after the run began: record `start + i`, seeded from the
/// run's seed and its index, at the anchor plus the elapsed time plus `i`
/// microseconds.
pub open spec fn plan_of(seed: u64, start: u64, i: nat, anchor_us: u64, elapsed_us: u64) -> RecordPlan {
    let index = (start + i) as u64;
    RecordPlan {
        index,
        rng_seed: record_seed_spec(seed, index),
        timestamp_us: wrap_u64(anchor_us + elapsed_us + i),
    }
}

/// The plan of every record of the batch that starts at `start`, holds
/// `size` records and is generated `elapsed_us` after the run's event-time
/// anchor `anchor_us`.
pub fn batch_plan(seed: u64, start: u64, size: usize, anchor_us: u64, elapsed_us: u64) -> (r: Vec<
    RecordPlan,
>)
    requires
        start + size <= u64::MAX,
    ensures
        r@.len() == size,
        forall|i: int|
            0 <= i < size ==> #[trigger] r@[i] == plan_of(seed, start, i as nat, anchor_us, elapsed_us),
{
    let mut r: Vec<RecordPlan> = Vec::with_capacity(size);
    let base = anchor_us.wrapping_add(elapsed_us);
    assert(base == wrap_u64(anchor_us + elapsed_us));
    let mut i: usize = 0;
    while i < size
        invariant
            i <= size,
            start + size <= u64::MAX,
            base == wrap_u64(anchor_us + elapsed_us),
            r@.len() == i,
            forall|j: int|
                0 <= j < i ==> #[trigger] r@[j] == plan_of(seed, start, j as nat, anchor_us, elapsed_us),
        decreases size - i,
    {
        let index = start + i as u64;
        let ts = base.wrapping_add(i as u64);
        proof {
            lemma_wrap_add(anchor_us + elapsed_us, i as int);
        }
        r.push(RecordPlan { index, rng_seed: splitmix64(seed ^ index), timestamp_us: ts });
        i = i + 1;
    }
    r
}

proof fn lemma_wrap_add(x: int, i: int)
    requires
        x >= 0,
        0 <= i <= u64::MAX,
    ensures
        wrap_u64(x).wrapping_add(i as u64) == wrap_u64(x + i),
{
    let w: int = 0x1_0000_0000_0000_0000;
    vstd::arithmetic::div_mod::lemma_add_mod_noop(x, i, w);
    vstd::arithmetic::div_mod::lemma_small_mod(i as nat, w as nat);
    let s = x % w + i;
    if s >= w {
        assert(w * 1 + (s - w) == s);
        vstd::arithmetic::div_mod::lemma_mod_multiples_vanish(1, s - w, w);
        vstd::arithmetic::div_mod::lemma_small_mod((s - w) as nat, w as nat);
    } else {
        vstd::arithmetic::div_mod::lemma_small_mod(s as nat, w as nat);
    }
}

/// Reproducibility: a record's index and content seed depend on the run's
/// seed and the record's index only: not on how records are split into
/// batches, nor on when a batch was generated. Any two batches that both hold
/// record `k` give it the same seed.
pub proof fn law_content_independent_of_batching(
    seed: u64,
    a_start: u64,
    a_len: nat,
    a_anchor: u64,
    a_elapsed: u64,
    b_start: u64,
    b_len: nat,
    b_anchor: u64,
    b_elapsed: u64,
    k: u64,
)
    requires
        a_start <= k < a_start + a_len,
        b_start <= k < b_start + b_len,
    ensures
        plan_of(seed, a_start, (k - a_start) as nat, a_anchor, a_elapsed).index == k,
        plan_of(seed, b_start, (k - b_start) as nat, b_anchor, b_elapsed).index == k,
        plan_of(seed, a_start, (k - a_start) as nat, a_anchor, a_elapsed).rng_seed == plan_of(
            seed,
            b_start,
            (k - b_start) as nat,
            b_anchor,
            b_elapsed,
        ).rng_seed,
        plan_of(seed, a_start, (k - a_start) as nat, a_anchor, a_elapsed).rng_seed == record_seed_spec(seed, k),
{
}

/// Event time: a batch's first row is at the anchor plus the batch's elapsed
/// time, and each further row is one microsecond later (wrapping like the
/// `u64` timestamps themselves).
pub proof fn law_rows_one_microsecond_apart(seed: u64, start: u64, i: nat, anchor_us: u64, elapsed_us: u64)
    ensures
        plan_of(seed, start, 0, anchor_us, elapsed_us).timestamp_us == anchor_us.wrapping_add(elapsed_us),
        plan_of(seed, start, i + 1, anchor_us, elapsed_us).timestamp_us == plan_of(
            seed,
            start,
            i,
            anchor_us,
            elapsed_us,
        ).timestamp_us.wrapping_add(1),
{
    let w: int = 0x1_0000_0000_0000_0000;
    let x = anchor_us + elapsed_us + i;
    vstd::arithmetic::div_mod::lemma_add_mod_noop(x, 1, w);
    vstd::arithmetic::div_mod::lemma_small_mod(1, w as nat);
    let s = x % w + 1;
    if s >= w {
        assert(w * 1 + (s - w) == s);
        vstd::arithmetic::div_mod::lemma_mod_multiples_vanish(1, s - w, w);
        vstd::arithmetic::div_mod::lemma_small_mod((s - w) as nat, w as nat);
    } else {
        vstd::arithmetic::div_mod::lemma_small_mod(s as nat, w as nat);
    }
    let y = anchor_us + elapsed_us;
    if y >= w {
        assert(w * 1 + (y - w) == y);
        vstd::arithmetic::div_mod::lemma_mod_multiples_vanish(1, y - w, w);
        vstd::arithmetic::div_mod::lemma_small_mod((y - w) as nat, w as nat);
    } else {
        vstd::arithmetic::div_mod::lemma_small_mod(y as nat, w as nat);
    }
}

// ---------------------------------------------------------------- schedule

/// One batch of a run: its number, the index of its first record, and how
/// many records it holds.
pub struct BatchSpec {
    pub batch_idx: usize,
    pub start: u64,
    pub len: usize,
}

/// The number of batches of `batch_size` records that `total` records need
/// (`div_ceil`).
pub open spec fn batch_count(total: nat, batch_size: nat) -> nat {
    if total % batch_size == 0 {
        total / batch_size
    } else {
        total / batch_size + 1
    }
}

/// The index of the first record of batch `i`.
pub open spec fn first_record(i: nat, batch_size: nat) -> nat {
    i * batch_size
}

/// Batch `i` of a run: it starts at `i * batch_size` and holds a full batch,
/// or what is left of `total`.
pub open spec fn batch_at(total: nat, batch_size: nat, i: nat) -> BatchSpec {
    let start = first_record(i, batch_size);
    BatchSpec {
        batch_idx: i as usize,
        start: start as u64,
        len: (if total - start < batch_size {
            total - start
        } else {
            batch_size as int
        }) as usize,
    }
}

/// `total.div_ceil(batch_size)`.
pub fn total_batches(total: usize, batch_size: usize) -> (r: usize)
    requires
        batch_size > 0,
    ensures
        r == batch_count(total as nat, batch_size as nat),
{
    proof {
        vstd::arithmetic::div_mod::lemma_fundamental_div_mod(total as int, batch_size as int);
    }
    let q = total / batch_size;
    if total % batch_size == 0 {
        q
    } else {
        assert(q < total) by (nonlinear_arith)
            requires
                total == batch_size * q + total % batch_size,
                total % batch_size > 0,
                batch_size > 0,
                q >= 0,
        ;
        q + 1
    }
}

proof fn lemma_first_record_step(i: nat, b: nat)
    ensures
        first_record(0, b) == 0,
        first_record(i + 1, b) == first_record(i, b) + b,
{
    assert(0 * b == 0) by (nonlinear_arith);
    assert((i + 1) * b == i * b + b) by (nonlinear_arith);
}

/// The batches of a run, in order: batch 0 (sent alone first), then the rest.
pub fn batch_schedule(total: usize, batch_size: usize) -> (r: Vec<BatchSpec>)
    requires
        batch_size > 0,
    ensures
        r@.len() == batch_count(total as nat, batch_size as nat),
        forall|i: int| 0 <= i < r@.len() ==> #[trigger] r@[i] == batch_at(total as nat, batch_size as nat, i as nat),
{
    let n = total_batches(total, batch_size);
    let mut r: Vec<BatchSpec> = Vec::with_capacity(n);
    let mut remaining = total;
    let mut i: usize = 0;
    proof {
        lemma_batch_count(total as nat, batch_size as nat);
        lemma_first_record_step(0, batch_size as nat);
    }
    while i < n
        invariant
            batch_size > 0,
            n == batch_count(total as nat, batch_size as nat),
            i <= n,
            forall|k: nat| k < n ==> #[trigger] first_record(k, batch_size as nat) < total,
            i < n ==> remaining == total - first_record(i as nat, batch_size as nat),
            r@.len() == i,
            forall|j: int| 0 <= j < i ==> #[trigger] r@[j] == batch_at(total as nat, batch_size as nat, j as nat),
        decreases n - i,
    {
        proof {
            lemma_first_record_step(i as nat, batch_size as nat);
            assert(first_record(i as nat, batch_size as nat) < total);
        }
        let this_batch = if remaining < batch_size {
            remaining
        } else {
            batch_size
        };
        let start = i * batch_size;
        r.push(BatchSpec { batch_idx: i, start: start as u64, len: this_batch });
        remaining = remaining - this_batch;
        proof {
            if i + 1 < n {
                assert(first_record((i + 1) as nat, batch_size as nat) < total);
            }
        }
        i = i + 1;
    }
    r
}

/// Every batch index below the count starts below `total`, and the count
/// covers `total`.
proof fn lemma_batch_count(total: nat, batch_size: nat)
    requires
        batch_size > 0,
    ensures
        forall|k: nat| k < batch_count(total, batch_size) ==> #[trigger] first_record(k, batch_size) < total,
        first_record(batch_count(total, batch_size), batch_size) >= total,
{
    let n = batch_count(total, batch_size);
    vstd::arithmetic::div_mod::lemma_fundamental_div_mod(total as int, batch_size as int);
    let q = total as int / batch_size as int;
    let rm = total as int % batch_size as int;
    assert forall|k: nat| k < n implies #[trigger] first_record(k, batch_size) < total by {
        if rm == 0 {
            assert(k * batch_size < total) by (nonlinear_arith)
                requires
                    k < q,
                    batch_size > 0,
                    total == batch_size * q + rm,
                    rm == 0,
            ;
        } else {
            assert(k * batch_size < total) by (nonlinear_arith)
                requires
                    k <= q,
                    batch_size > 0,
                    total == batch_size * q + rm,
                    rm > 0,
            ;
        }
    }
    assert(n * batch_size >= total) by (nonlinear_arith)
        requires
            batch_size > 0,
            total == batch_size * q + rm,
            0 <= rm < batch_size,
            n == (if rm == 0 {
                q
            } else {
                q + 1
            }),
    ;
}

/// The batches partition the run: they are numbered in order, each starts
/// where the previous one ended, none is empty, and together they hold
/// exactly records `0..total`.
pub proof fn law_batches_partition(total: nat, batch_size: nat)
    requires
        batch_size > 0,
        total <= usize::MAX,
    ensures
        forall|i: nat|
            i < batch_count(total, batch_size) ==> {
                let b = #[trigger] batch_at(total, batch_size, i);
                &&& b.batch_idx == i
                &&& b.len > 0
                &&& b.start + b.len <= total
                &&& i + 1 < batch_count(total, batch_size) ==> b.start + b.len == batch_at(
                    total,
                    batch_size,
                    i + 1,
                ).start
            },
        batch_count(total, batch_size) > 0 ==> batch_at(total, batch_size, 0).start == 0,
        total > 0 ==> batch_count(total, batch_size) > 0 && {
            let last = batch_at(total, batch_size, (batch_count(total, batch_size) - 1) as nat);
            last.start + last.len == total
        },
{
    lemma_batch_count(total, batch_size);
    lemma_first_record_step(0, batch_size);
    let n = batch_count(total, batch_size);
    assert forall|i: nat| i < n implies {
        let b = #[trigger] batch_at(total, batch_size, i);
        &&& b.batch_idx == i
        &&& b.len > 0
        &&& b.start + b.len <= total
        &&& i + 1 < n ==> b.start + b.len == batch_at(total, batch_size, i + 1).start
    } by {
        lemma_first_record_step(i, batch_size);
        assert(first_record(i, batch_size) < total);
        assert(i <= first_record(i, batch_size)) by (nonlinear_arith)
            requires
                batch_size > 0,
        ;
        if i + 1 < n {
            assert(first_record(i + 1, batch_size) < total);
        }
    }
    if total > 0 {
        assert(n > 0) by {
            if n == 0 {
                assert(first_record(0, batch_size) >= total);
            }
        }
        let k = (n - 1) as nat;
        lemma_first_record_step(k, batch_size);
        assert(first_record(k, batch_size) < total);
    }
}

// ---------------------------------------------------------------- bodies

/// Newline-delimited rows (ClickHouse `JSONEachRow`): each row, then `\n`.
pub open spec fn ndjson_bytes(rows: Seq<Vec<u8>>) -> Seq<u8>
    decreases rows.len(),
{
    if rows.len() == 0 {
        Seq::empty()
    } else {
        ndjson_bytes(rows.drop_last()) + rows.last()@.push(10u8)
    }
}

/// The number of bytes of all rows together.
pub open spec fn rows_len(rows: Seq<Vec<u8>>) -> nat
    decreases rows.len(),
{
    if rows.len() == 0 {
        0
    } else {
        rows_len(rows.drop_last()) + rows.last()@.len()
    }
}

fn append_bytes(buf: &mut Vec<u8>, bytes: &[u8])
    ensures
        final(buf)@ == old(buf)@ + bytes@,
{
    let mut i: usize = 0;
    while i < bytes.len()
        invariant
            i <= bytes@.len(),
            buf@ == old(buf)@ + bytes@.subrange(0, i as int),
        decreases bytes@.len() - i,
    {
        buf.push(bytes[i]);
        i = i + 1;
        assert(buf@ =~= old(buf)@ + bytes@.subrange(0, i as int));
    }
    assert(bytes@.subrange(0, bytes@.len() as int) =~= bytes@);
}

/// The rows as newline-delimited JSON.
pub fn frame_ndjson(rows: &Vec<Vec<u8>>) -> (r: Vec<u8>)
    ensures
        r@ == ndjson_bytes(rows@),
{
    let mut buf: Vec<u8> = Vec::new();
    let mut i: usize = 0;
    while i < rows.len()
        invariant
            i <= rows@.len(),
            buf@ == ndjson_bytes(rows@.take(i as int)),
        decreases rows@.len() - i,
    {
        append_bytes(&mut buf, rows[i].as_slice());
        buf.push(10u8);
        proof {
            assert(rows@.take(i + 1).drop_last() =~= rows@.take(i as int));
        }
        i = i + 1;
        assert(buf@ =~= ndjson_bytes(rows@.take(i as int)));
    }
    assert(rows@.take(rows@.len() as int) =~= rows@);
    buf
}

/// What flate2's gzip encoder writes for `data` at compression `level`.
pub uninterp spec fn gzip_bytes(data: Seq<u8>, level: u32) -> Seq<u8>;

/// What flate2's `GzDecoder` reads back out of the gzip stream `stream`.
pub uninterp spec fn gunzip_bytes(stream: Seq<u8>) -> Seq<u8>;

/// The ten-byte header that `GzEncoder::new` writes: magic `1f 8b`, deflate,
/// no flags, no time stamp, the level hint (2 for the best level, 4 for the
/// fast one, else 0) and operating system 255.
pub open spec fn gzip_header(level: u32) -> Seq<u8> {
    seq![
        0x1fu8,
        0x8bu8,
        8u8,
        0u8,
        0u8,
        0u8,
        0u8,
        0u8,
        if level >= 9 {
            2u8
        } else if level <= 1 {
            4u8
        } else {
            0u8
        },
        255u8,
    ]
}

/// The gzip trailer's last four bytes: the input's length modulo 2^32,
/// little-endian.
pub open spec fn gzip_size_trailer(len: nat) -> Seq<u8> {
    let n = len % 0x1_0000_0000;
    seq![(n % 256) as u8, (n / 256 % 256) as u8, (n / 65536 % 256) as u8, (n / 16777216) as u8]
}

/// `flate2::write::GzEncoder` over a `Vec` at `Compression::new(level)`:
/// writes `data` and finishes. Claimed: the output is `gzip_bytes(data, level)`
/// (the default header carries no time stamp, so it depends on the input and
/// level only); it starts with the default header and ends with the input's
/// length modulo 2^32; flate2's gzip decoder reads `data` back from it.
/// Writing into a `Vec` does not fail. The deflate stream between header and
/// trailer, and the CRC-32 before the length, are left to the name.
#[verifier::external_body]
fn gzip_compress(data: &[u8], level: u32) -> (r: Vec<u8>)
    requires
        level <= 9,
    ensures
        r@ == gzip_bytes(data@, level),
        r@.len() >= 18 && r@.subrange(0, 10) == gzip_header(level) && r@.subrange(
            r@.len() - 4,
            r@.len() as int,
        ) == gzip_size_trailer(data@.len()),
        gunzip_bytes(r@) == data@,
{
    let mut enc = GzEncoder::new(Vec::new(), Compression::new(level));
    enc.write_all(data).expect("gzip write");
    enc.finish().expect("gzip finish")
}

/// flate2's `Compression::fast()`: level 1.
pub const GZIP_FAST: u32 = 1;

/// Gzips a request body at the fast level: a gzip stream with the default
/// header, from which the body decodes back unchanged.
pub fn gzip(body: &[u8]) -> (r: Vec<u8>)
    ensures
        r@ == gzip_bytes(body@, GZIP_FAST),
        r@.len() >= 18,
        r@.subrange(0, 10) == gzip_header(GZIP_FAST),
        r@.subrange(r@.len() - 4, r@.len() as int) == gzip_size_trailer(body@.len()),
        gunzip_bytes(r@) == body@,
{
    gzip_compress(body, GZIP_FAST)
}

/// The one request body of a batch, shared by every enabled target, and its
/// raw volume.
pub struct BatchBody {
    /// The NDJSON rows, gzipped when compression is on.
    pub body: Vec<u8>,
    /// The uncompressed length of the NDJSON rows.
    pub raw_len: u64,
}

/// A body as sent: gzipped when compression is on.
pub open spec fn encoded(body: Seq<u8>, compress: bool) -> Seq<u8> {
    if compress {
        gzip_bytes(body, GZIP_FAST)
    } else {
        body
    }
}

/// What a target reads out of a body as sent.
pub open spec fn decoded(sent: Seq<u8>, compress: bool) -> Seq<u8> {
    if compress {
        gunzip_bytes(sent)
    } else {
        sent
    }
}

/// Builds the one body of a batch from its serialised records: the rows as
/// newline-delimited JSON, which both OpenObserve instances take through
/// `/_multi` and ClickHouse takes as `JSONEachRow`; gzipped when `compress`
/// is set, and decoding to the rows again either way.
pub fn build_body(rows: &Vec<Vec<u8>>, compress: bool) -> (r: BatchBody)
    ensures
        r.body@ == encoded(ndjson_bytes(rows@), compress),
        decoded(r.body@, compress) == ndjson_bytes(rows@),
        r.raw_len == ndjson_bytes(rows@).len(),
{
    let nd = frame_ndjson(rows);
    let raw_len = nd.len() as u64;
    let body = if compress {
        gzip(nd.as_slice())
    } else {
        nd
    };
    BatchBody { body, raw_len }
}

/// `flate2::read::GzDecoder` over `stream`, read to the end. Claimed: what
/// it reads is `gunzip_bytes(stream)`; `None` where the decoder reports an
/// error (a stream that is not gzip). Whether a given stream decodes is left
/// unsaid.
#[verifier::external_body]
fn gunzip_read(stream: &[u8]) -> (r: Option<Vec<u8>>)
    ensures
        r matches Some(v) ==> v@ == gunzip_bytes(stream@),
{
    let mut out = Vec::new();
    match flate2::read::GzDecoder::new(stream).read_to_end(&mut out) {
        Ok(_) => Some(out),
        Err(_) => None,
    }
}

/// What a target reads out of a body as sent: the body itself, or its gzip
/// decoding when compression is on (`None` when that fails). A body built
/// by `build_body` decodes to its NDJSON rows.
pub fn decode_body(sent: &[u8], compress: bool) -> (r: Option<Vec<u8>>)
    ensures
        r matches Some(v) ==> v@ == decoded(sent@, compress),
        !compress ==> r is Some,
{
    if compress {
        gunzip_read(sent)
    } else {
        let mut v: Vec<u8> = Vec::new();
        append_bytes(&mut v, sent);
        assert(v@ =~= sent@);
        Some(v)
    }
}

/// The NDJSON body holds each row and one newline per row.
pub proof fn law_ndjson_len(rows: Seq<Vec<u8>>)
    ensures
        ndjson_bytes(rows).len() == rows_len(rows) + rows.len(),
    decreases rows.len(),
{
    if rows.len() > 0 {
        law_ndjson_len(rows.drop_last());
    }
}

// ---------------------------------------------------------------- delivery

/// What became of a batch at one target.
#[derive(Clone, Copy, Debug, PartialEq, Eq, Structural)]
pub enum Delivery {
    /// The target is not enabled; nothing was sent to it.
    Disabled,
    /// The target took every row of the batch.
    Accepted,
    /// The request failed, the target answered with an error status, or it
    /// did not take every row.
    Rejected,
}

/// The delivery at a target that answers by status alone (ClickHouse):
/// nothing sent when it is disabled, else accepted exactly on a success
/// answer.
pub fn delivery_of(enabled: bool, success: bool) -> (r: Delivery)
    ensures
        r == (if !enabled {
            Delivery::Disabled
        } else if success {
            Delivery::Accepted
        } else {
            Delivery::Rejected
        }),
{
    if !enabled {
        Delivery::Disabled
    } else if success {
        Delivery::Accepted
    } else {
        Delivery::Rejected
    }
}

/// One stream's entry in an OpenObserve `/_multi` reply: how many of the
/// rows it took and how many it refused.
#[derive(Clone, Copy, Debug, PartialEq, Eq, Structural)]
pub struct StreamCounts {
    pub successful: u64,
    pub failed: u64,
}

/// The rows taken over all entries of a reply.
pub open spec fn sum_successful(s: Seq<StreamCounts>) -> nat
    decreases s.len(),
{
    if s.len() == 0 {
        0
    } else {
        sum_successful(s.drop_last()) + s.last().successful as nat
    }
}

/// The rows refused over all entries of a reply.
pub open spec fn sum_refused(s: Seq<StreamCounts>) -> nat
    decreases s.len(),
{
    if s.len() == 0 {
        0
    } else {
        sum_refused(s.drop_last()) + s.last().failed as nat
    }
}

/// A reply accounts for every row of a batch of `expected` rows: all of them
/// taken and none refused.
pub open spec fn all_rows_accepted(s: Seq<StreamCounts>, expected: u64) -> bool {
    sum_successful(s) == expected && sum_refused(s) == 0
}

proof fn lemma_sums_grow(s: Seq<StreamCounts>, i: int, j: int)
    requires
        0 <= i <= j <= s.len(),
    ensures
        sum_successful(s.take(i)) <= sum_successful(s.take(j)),
        sum_refused(s.take(i)) <= sum_refused(s.take(j)),
    decreases j - i,
{
    if i < j {
        lemma_sums_grow(s, i, j - 1);
        assert(s.take(j).drop_last() =~= s.take(j - 1));
    }
}

/// Whether an OpenObserve reply says that every row of a batch of
/// `expected` rows was taken.
pub fn rows_accepted(statuses: &Vec<StreamCounts>, expected: u64) -> (r: bool)
    ensures
        r == all_rows_accepted(statuses@, expected),
{
    let mut taken: u64 = 0;
    let mut i: usize = 0;
    assert(statuses@.take(statuses@.len() as int) =~= statuses@);
    while i < statuses.len()
        invariant
            i <= statuses@.len(),
            taken == sum_successful(statuses@.take(i as int)),
            taken <= expected,
            sum_refused(statuses@.take(i as int)) == 0,
            statuses@.take(statuses@.len() as int) == statuses@,
        decreases statuses@.len() - i,
    {
        let c = statuses[i];
        proof {
            assert(statuses@.take(i + 1).drop_last() =~= statuses@.take(i as int));
            lemma_sums_grow(statuses@, i + 1, statuses@.len() as int);
        }
        if c.failed > 0 || c.successful > expected - taken {
            return false;
        }
        taken = taken + c.successful;
        i = i + 1;
    }
    taken == expected
}

/// The delivery at an OpenObserve instance: nothing sent when it is
/// disabled; else accepted exactly when it answered with a success status
/// and a reply that accounts for every row of the batch. `reply` is `None`
/// when the answer could not be read as a `/_multi` reply.
pub fn o2_delivery(enabled: bool, http_ok: bool, reply: &Option<Vec<StreamCounts>>, expected: u64) -> (r:
    Delivery)
    ensures
        r == (if !enabled {
            Delivery::Disabled
        } else if http_ok && reply is Some && all_rows_accepted(reply->0@, expected) {
            Delivery::Accepted
        } else {
            Delivery::Rejected
        }),
{
    if !enabled {
        Delivery::Disabled
    } else if !http_ok {
        Delivery::Rejected
    } else {
        match reply {
            Some(s) => if rows_accepted(s, expected) {
                Delivery::Accepted
            } else {
                Delivery::Rejected
            },
            None => Delivery::Rejected,
        }
    }
}

/// What a settled batch adds to the run's counters.
#[derive(Clone, Copy, Debug, PartialEq, Eq, Structural)]
pub struct BatchOutcome {
    /// Every enabled target accepted the batch.
    pub ok: bool,
    pub sent: u64,
    pub failed: u64,
    pub clickhouse_failed: u64,
    pub o2_parquet_failed: u64,
    pub o2_vortex_failed: u64,
    pub bytes_ok: u64,
}

/// `n` when the delivery was rejected, else 0.
pub open spec fn failed_at(d: Delivery, n: u64) -> u64 {
    if d == Delivery::Rejected {
        n
    } else {
        0
    }
}

/// The outcome of a batch of `batch_len` records and `raw_len` raw bytes:
/// sent when no target rejected it, its bytes counted once when moreover
/// some target took it (with every target disabled no body goes out).
pub open spec fn settled(
    ch: Delivery,
    parquet: Delivery,
    vortex: Delivery,
    batch_len: u64,
    raw_len: u64,
) -> BatchOutcome {
    let ok = ch != Delivery::Rejected && parquet != Delivery::Rejected && vortex != Delivery::Rejected;
    let delivered = ch == Delivery::Accepted || parquet == Delivery::Accepted || vortex == Delivery::Accepted;
    BatchOutcome {
        ok,
        sent: if ok {
            batch_len
        } else {
            0
        },
        failed: if ok {
            0
        } else {
            batch_len
        },
        clickhouse_failed: failed_at(ch, batch_len),
        o2_parquet_failed: failed_at(parquet, batch_len),
        o2_vortex_failed: failed_at(vortex, batch_len),
        bytes_ok: if ok && delivered {
            raw_len
        } else {
            0
        },
    }
}

fn failed_count(d: Delivery, n: u64) -> (r: u64)
    ensures
        r == failed_at(d, n),
{
    if d == Delivery::Rejected {
        n
    } else {
        0
    }
}

/// Settles a batch: its records count as sent only when no enabled target
/// rejected it; its raw bytes count once, only then and only when a body
/// went out (some target accepted it); a rejecting target counts the
/// batch's records against itself.
pub fn settle_batch(
    ch: Delivery,
    parquet: Delivery,
    vortex: Delivery,
    batch_len: u64,
    raw_len: u64,
) -> (r: BatchOutcome)
    ensures
        r == settled(ch, parquet, vortex, batch_len, raw_len),
{
    let ok = ch != Delivery::Rejected && parquet != Delivery::Rejected && vortex != Delivery::Rejected;
    let delivered = ch == Delivery::Accepted || parquet == Delivery::Accepted || vortex == Delivery::Accepted;
    BatchOutcome {
        ok,
        sent: if ok {
            batch_len
        } else {
            0
        },
        failed: if ok {
            0
        } else {
            batch_len
        },
        clickhouse_failed: failed_count(ch, batch_len),
        o2_parquet_failed: failed_count(parquet, batch_len),
        o2_vortex_failed: failed_count(vortex, batch_len),
        bytes_ok: if ok && delivered {
            raw_len
        } else {
            0
        },
    }
}

/// The sum of the outcomes' counters.
pub open spec fn sum_sent(outcomes: Seq<BatchOutcome>) -> nat
    decreases outcomes.len(),
{
    if outcomes.len() == 0 {
        0
    } else {
        sum_sent(outcomes.drop_last()) + outcomes.last().sent as nat
    }
}

pub open spec fn sum_failed(outcomes: Seq<BatchOutcome>) -> nat
    decreases outcomes.len(),
{
    if outcomes.len() == 0 {
        0
    } else {
        sum_failed(outcomes.drop_last()) + outcomes.last().failed as nat
    }
}

pub open spec fn sum_lens(lens: Seq<u64>) -> nat
    decreases lens.len(),
{
    if lens.len() == 0 {
        0
    } else {
        sum_lens(lens.drop_last()) + lens.last() as nat
    }
}

/// Every record is counted once: over any settled batches, the records sent
/// and the records failed add up to the records of the batches, whatever
/// each target answered.
pub proof fn law_records_counted_once(
    ch: Seq<Delivery>,
    parquet: Seq<Delivery>,
    vortex: Seq<Delivery>,
    lens: Seq<u64>,
    raws: Seq<u64>,
    outcomes: Seq<BatchOutcome>,
)
    requires
        ch.len() == outcomes.len(),
        parquet.len() == outcomes.len(),
        vortex.len() == outcomes.len(),
        lens.len() == outcomes.len(),
        raws.len() == outcomes.len(),
        forall|i: int|
            0 <= i < outcomes.len() ==> #[trigger] outcomes[i] == settled(
                ch[i],
                parquet[i],
                vortex[i],
                lens[i],
                raws[i],
            ),
    ensures
        sum_sent(outcomes) + sum_failed(outcomes) == sum_lens(lens),
    decreases outcomes.len(),
{
    if outcomes.len() > 0 {
        let n = outcomes.len() - 1;
        assert(outcomes[n] == settled(ch[n], parquet[n], vortex[n], lens[n], raws[n]));
        law_records_counted_once(
            ch.drop_last(),
            parquet.drop_last(),
            vortex.drop_last(),
            lens.drop_last(),
            raws.drop_last(),
            outcomes.drop_last(),
        );
    }
}

// ---------------------------------------------------------------- event time

/// The event-time range of the rows delivered so far: empty until a first
/// row is seen.
#[derive(Clone, Copy, Debug, PartialEq, Eq, Structural)]
pub struct EventTimes {
    pub seen: bool,
    pub min_us: u64,
    pub max_us: u64,
}

/// The range after one more row at `ts`.
pub open spec fn observed(t: EventTimes, ts: u64) -> EventTimes {
    if !t.seen {
        EventTimes { seen: true, min_us: ts, max_us: ts }
    } else {
        EventTimes {
            seen: true,
            min_us: if ts < t.min_us {
                ts
            } else {
                t.min_us
            },
            max_us: if ts > t.max_us {
                ts
            } else {
                t.max_us
            },
        }
    }
}

/// The range after the rows of `plans`, in order.
pub open spec fn observed_plans(t: EventTimes, plans: Seq<RecordPlan>) -> EventTimes
    decreases plans.len(),
{
    if plans.len() == 0 {
        t
    } else {
        observed(observed_plans(t, plans.drop_last()), plans.last().timestamp_us)
    }
}

impl EventTimes {
    /// A range is well formed: once a row is seen, `min_us <= max_us`.
    pub open spec fn wf(&self) -> bool {
        self.seen ==> self.min_us <= self.max_us
    }

    /// No row seen yet.
    pub fn new() -> (r: EventTimes)
        ensures
            !r.seen,
            r.wf(),
    {
        EventTimes { seen: false, min_us: 0, max_us: 0 }
    }

    /// Widens the range by the rows of a delivered batch.
    pub fn observe_batch(&mut self, plans: &Vec<RecordPlan>)
        ensures
            *final(self) == observed_plans(*old(self), plans@),
    {
        let mut i: usize = 0;
        let ghost start = *old(self);
        assert(plans@.take(0) =~= Seq::<RecordPlan>::empty());
        while i < plans.len()
            invariant
                i <= plans@.len(),
                *self == observed_plans(start, plans@.take(i as int)),
            decreases plans@.len() - i,
        {
            let ts = plans[i].timestamp_us;
            if !self.seen {
                *self = EventTimes { seen: true, min_us: ts, max_us: ts };
            } else {
                if ts < self.min_us {
                    self.min_us = ts;
                }
                if ts > self.max_us {
                    self.max_us = ts;
                }
            }
            proof {
                assert(plans@.take(i + 1).drop_last() =~= plans@.take(i as int));
            }
            i = i + 1;
        }
        assert(plans@.take(plans@.len() as int) =~= plans@);
    }

    /// The width of the range in microseconds (0 while empty).
    pub fn span_us(&self) -> (r: u64)
        requires
            self.wf(),
        ensures
            r == (if self.seen {
                self.max_us - self.min_us
            } else {
                0
            }),
    {
        if self.seen {
            self.max_us - self.min_us
        } else {
            0
        }
    }
}

/// The event-time range covers every delivered row: after the rows of
/// `plans`, the range is well formed, holds every row's timestamp and what
/// it held before, and its ends are timestamps that were seen.
pub proof fn law_event_times_cover(t: EventTimes, plans: Seq<RecordPlan>)
    requires
        t.wf(),
    ensures
        observed_plans(t, plans).wf(),
        plans.len() > 0 ==> observed_plans(t, plans).seen,
        forall|i: int|
            0 <= i < plans.len() ==> observed_plans(t, plans).min_us <= #[trigger] plans[i].timestamp_us
                <= observed_plans(t, plans).max_us,
        t.seen ==> observed_plans(t, plans).min_us <= t.min_us && t.max_us <= observed_plans(
            t,
            plans,
        ).max_us,
        observed_plans(t, plans).seen ==> ((t.seen && observed_plans(t, plans).min_us == t.min_us)
            || exists|i: int|
            0 <= i < plans.len() && #[trigger] plans[i].timestamp_us == observed_plans(t, plans).min_us),
        observed_plans(t, plans).seen ==> ((t.seen && observed_plans(t, plans).max_us == t.max_us)
            || exists|i: int|
            0 <= i < plans.len() && #[trigger] plans[i].timestamp_us == observed_plans(t, plans).max_us),
    decreases plans.len(),
{
    if plans.len() > 0 {
        let p = plans.drop_last();
        law_event_times_cover(t, p);
        let n = plans.len() - 1;
        assert forall|i: int| 0 <= i < n implies plans[i] == #[trigger] p[i] by {}
        let q = observed_plans(t, p);
        let f = observed_plans(t, plans);
        if q.seen && f.min_us == q.min_us && !(t.seen && q.min_us == t.min_us) {
            let i = choose|i: int| 0 <= i < p.len() && #[trigger] p[i].timestamp_us == q.min_us;
            assert(plans[i].timestamp_us == f.min_us);
        }
        if q.seen && f.max_us == q.max_us && !(t.seen && q.max_us == t.max_us) {
            let i = choose|i: int| 0 <= i < p.len() && #[trigger] p[i].timestamp_us == q.max_us;
            assert(plans[i].timestamp_us == f.max_us);
        }
        assert forall|i: int| 0 <= i < plans.len() implies f.min_us <= #[trigger] plans[i].timestamp_us
            <= f.max_us by {
            if i < n {
                assert(p[i] == plans[i]);
                assert(q.min_us <= p[i].timestamp_us <= q.max_us);
            }
        }
        if f.min_us == plans[n].timestamp_us {
            assert(plans[n].timestamp_us == f.min_us);
        }
        if f.max_us == plans[n].timestamp_us {
            assert(plans[n].timestamp_us == f.max_us);
        }
    }
}

} // verus!
