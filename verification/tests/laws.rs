use datagen::batch::{
    batch_plan, batch_schedule, delivery_of, frame_ndjson, settle_batch, splitmix64, Delivery,
};
use datagen::record::{draw_head, make_record, ZipfPicks};
use datagen::sampling::weighted_index;
use rand::SeedableRng;
use rand_chacha::ChaCha8Rng;

#[test]
fn weights_are_shares_of_the_draws() {
    for w in [vec![70u32, 10, 4, 15, 1], vec![85, 15], vec![600, 60, 30, 20, 50, 25, 15, 80, 15, 8, 7], vec![0, 3, 0, 2]] {
        let total: u32 = w.iter().sum();
        let mut counts = vec![0u32; w.len()];
        for r in 0..total {
            counts[weighted_index(&w, r)] += 1;
        }
        assert_eq!(counts, w);
    }
}

#[test]
fn plans_do_not_depend_on_batching() {
    let whole = batch_plan(0xC0FFEE, 0, 10, 42, 0);
    let tail = batch_plan(0xC0FFEE, 5, 5, 42, 7_000_000);
    for k in 5..10 {
        let (a, b) = (&whole[k], &tail[k - 5]);
        assert_eq!((a.index, a.rng_seed), (b.index, b.rng_seed));
    }
    assert_eq!(tail[0].timestamp_us, 42 + 7_000_000);
    for p in [&whole, &tail] {
        for w in p.windows(2) {
            assert_eq!(w[1].timestamp_us, w[0].timestamp_us.wrapping_add(1));
        }
    }
}

fn splitmix64_inverse(r: u64) -> u64 {
    let unx = |y: u64, s: u32| y ^ (y >> s) ^ (y >> (2 * s));
    let z1 = unx(unx(r, 31).wrapping_mul(0x3196_42B2_D24D_8EC3), 27);
    unx(z1.wrapping_mul(0x96DE_1B17_3F11_9089), 30).wrapping_sub(0x9E37_79B9_7F4A_7C15)
}

#[test]
fn splitmix64_is_undone_by_its_inverse() {
    for x in [0u64, 1, 2, 0xC0FFEE, u64::MAX, 0x9E37_79B9_7F4A_7C15, 1 << 63] {
        assert_eq!(splitmix64_inverse(splitmix64(x)), x);
    }
    let seeds: std::collections::HashSet<u64> = (0..10_000u64).map(|i| splitmix64(0xC0FFEE ^ i)).collect();
    assert_eq!(seeds.len(), 10_000);
}

#[test]
fn records_are_reproducible_from_their_seed() {
    let picks = ZipfPicks { app: 1, replica_set: 0, pod: 3, namespace: 4, path: 2 };
    let plan = batch_plan(7, 100, 3, 1_000, 0);
    for p in plan.iter() {
        let mut a = ChaCha8Rng::seed_from_u64(p.rng_seed);
        let mut b = ChaCha8Rng::seed_from_u64(p.rng_seed);
        let ha = draw_head(&mut a);
        let hb = draw_head(&mut b);
        let ra = make_record(&mut a, p.timestamp_us, 100, 100, 100, &picks, &ha);
        let rb = make_record(&mut b, p.timestamp_us, 100, 100, 100, &picks, &hb);
        assert_eq!(ra.message, rb.message);
        assert_eq!(ra.trace_id, rb.trace_id);
        assert_eq!(ra.client_ip, rb.client_ip);
        assert_eq!(ra.session_id, rb.session_id);
    }
}

#[test]
fn batches_partition_every_run() {
    for total in [1usize, 2, 7, 8, 9, 100, 1000] {
        for size in [1usize, 3, 8, 1000, 5000] {
            let s = batch_schedule(total, size);
            assert_eq!(s[0].start, 0);
            let mut next = 0u64;
            for (i, b) in s.iter().enumerate() {
                assert_eq!(b.batch_idx, i);
                assert_eq!(b.start, next);
                assert!(b.len > 0 && b.len <= size);
                next += b.len as u64;
            }
            assert_eq!(next, total as u64);
        }
    }
}

#[test]
fn every_record_is_counted_once() {
    let answers = [
        (Delivery::Accepted, Delivery::Accepted, Delivery::Accepted),
        (Delivery::Rejected, Delivery::Accepted, Delivery::Accepted),
        (Delivery::Disabled, Delivery::Rejected, Delivery::Disabled),
        (Delivery::Disabled, Delivery::Accepted, Delivery::Disabled),
        (Delivery::Accepted, Delivery::Accepted, Delivery::Rejected),
        (Delivery::Rejected, Delivery::Rejected, Delivery::Rejected),
    ];
    let lens = [8u64, 8, 8, 8, 5, 3];
    let (mut sent, mut failed, mut bytes) = (0u64, 0u64, 0u64);
    for (i, (ch, pq, vx)) in answers.iter().enumerate() {
        let o = settle_batch(*ch, *pq, *vx, lens[i], 10 * (i as u64 + 1));
        sent += o.sent;
        failed += o.failed;
        bytes += o.bytes_ok;
    }
    assert_eq!(sent + failed, lens.iter().sum::<u64>());
    assert_eq!(sent, 16);
    assert_eq!(bytes, 10 + 40);
    assert_eq!(delivery_of(false, false), Delivery::Disabled);
    assert_eq!(delivery_of(true, true), Delivery::Accepted);
    assert_eq!(delivery_of(true, false), Delivery::Rejected);
}

#[test]
fn body_lengths() {
    let rows: Vec<Vec<u8>> = vec![b"{}".to_vec(), b"{\"x\":10}".to_vec(), b"[1]".to_vec()];
    let total: usize = rows.iter().map(|r| r.len()).sum();
    assert_eq!(frame_ndjson(&rows).len(), total + rows.len());
}
