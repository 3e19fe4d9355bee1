use datagen::batch::{
    batch_plan, batch_schedule, build_body, decode_body, frame_ndjson, gzip, o2_delivery, rows_accepted,
    settle_batch, splitmix64, total_batches, BatchOutcome, Delivery, EventTimes, StreamCounts,
};
use datagen::sampling::{hex_id, pick, weighted_index, weighted_pick};
use datagen::target::{
    basic_auth, check_run_args, clickhouse_base, clickhouse_insert, destinations,
    openobserve_endpoint, progress_bar, progress_counts, progress_processed, shipping_summary, target_names,
    trim_trailing_slashes, ArgError, Target,
};
use datagen::templates::{line_kind, push_centis, push_millis, LineKind};
use datagen::text::{push_dec, push_dec_pad, push_hex_fixed, replace_all};
use rand::{Rng, SeedableRng};
use rand_chacha::ChaCha8Rng;
use std::io::Read;

#[test]
fn splitmix64_known_values() {
    assert_eq!(splitmix64(0), 0xe220_a839_7b1d_cdaf);
    assert_eq!(splitmix64(1), 10451216379200822465);
    assert_eq!(splitmix64(0xC0FFEE), 14592251008053203194);
}

#[test]
fn target_flags() {
    let flags = |t: Target| (t.clickhouse(), t.o2_parquet(), t.o2_vortex(), t.openobserve());
    assert_eq!(flags(Target::All), (true, true, true, true));
    assert_eq!(flags(Target::Clickhouse), (true, false, false, false));
    assert_eq!(flags(Target::O2Parquet), (false, true, false, true));
    assert_eq!(flags(Target::O2Vortex), (false, false, true, true));
}

#[test]
fn decimal_numerals() {
    let mut s = String::new();
    push_dec(&mut s, 0);
    s.push(' ');
    push_dec(&mut s, 1234567890123);
    s.push(' ');
    push_dec(&mut s, u64::MAX);
    assert_eq!(s, format!("0 1234567890123 {}", u64::MAX));
    for (n, w) in [(0u64, 2u64), (7, 2), (12, 2), (123, 2), (42, 6), (999_999, 6), (5, 3)] {
        let mut t = String::new();
        push_dec_pad(&mut t, n, w);
        assert_eq!(t, format!("{:0w$}", n, w = w as usize));
    }
}

#[test]
fn hex_numerals() {
    for v in [0u128, 1, 0xdead_beef, u128::MAX, 255] {
        let mut s = String::new();
        push_hex_fixed(&mut s, v, 32);
        assert_eq!(s, format!("{:032x}", v));
    }
    let mut s = String::new();
    push_hex_fixed(&mut s, 0xab, 2);
    assert_eq!(s, "ab");
}

#[test]
fn fractions_match_float_formatting() {
    for n in 0u32..5000 {
        let mut s = String::new();
        push_millis(&mut s, n);
        assert_eq!(s, format!("{:.3}", n as f64 / 1000.0));
        let mut c = String::new();
        push_centis(&mut c, n);
        assert_eq!(c, format!("{:.2}", n as f64 / 100.0));
    }
}

#[test]
fn replace_all_matches_std() {
    let cases = [
        ("/api/{org}/_bulk", "{org}", "acme"),
        ("/api/{org}/{org}", "{org}", "x"),
        ("{org}{org}", "{org}", "{org}"),
        ("/api/users", "{org}", "acme"),
        ("aaaa", "aa", "b"),
        ("", "{uuid}", "z"),
    ];
    for (s, p, r) in cases {
        assert_eq!(replace_all(s, p, r), s.replace(p, r));
    }
}

#[test]
fn trims_trailing_slashes() {
    assert_eq!(trim_trailing_slashes("http://localhost:5080"), "http://localhost:5080");
    assert_eq!(trim_trailing_slashes("http://localhost:5080///"), "http://localhost:5080");
    assert_eq!(trim_trailing_slashes("///"), "");
    assert_eq!(trim_trailing_slashes(""), "");
}

#[test]
fn endpoints_and_credentials() {
    assert_eq!(
        openobserve_endpoint("http://localhost:5080/", "default", "k8s_logs"),
        "http://localhost:5080/api/default/k8s_logs/_multi"
    );
    assert_eq!(basic_auth("", ""), "Basic Og==");
    assert_eq!(basic_auth("ab", ""), "Basic YWI6");
    assert_eq!(basic_auth("a", "b"), "Basic YTpi");
    assert_eq!(
        basic_auth("root@example.com", "Complexpass#123"),
        "Basic cm9vdEBleGFtcGxlLmNvbTpDb21wbGV4cGFzcyMxMjM="
    );
    assert_eq!(clickhouse_base("http://localhost:8123//"), "http://localhost:8123/");
    assert_eq!(
        clickhouse_insert("default", "k8s_logs"),
        "INSERT INTO `default`.`k8s_logs` FORMAT JSONEachRow"
    );
    let d = destinations(
        true,
        true,
        true,
        "http://ch/",
        "default",
        "k8s_logs",
        "http://pq/api/default/k8s_logs/_multi",
        "http://vx/api/default/k8s_logs/_multi",
    );
    assert_eq!(
        d,
        vec![
            "http://ch/`default`.`k8s_logs`".to_string(),
            "http://pq/api/default/k8s_logs/_multi".to_string(),
            "http://vx/api/default/k8s_logs/_multi".to_string(),
        ]
    );
    let only_vortex = destinations(false, false, true, "http://ch/", "d", "t", "p", "v");
    assert_eq!(only_vortex, vec!["v".to_string()]);
    assert_eq!(
        shipping_summary(100, &d, 13, 8),
        "shipping 100 records -> [http://ch/`default`.`k8s_logs`, http://pq/api/default/k8s_logs/_multi, http://vx/api/default/k8s_logs/_multi] in 13 batch(es) of up to 8"
    );
    assert_eq!(shipping_summary(5, &vec![], 1, 8), "shipping 5 records -> [] in 1 batch(es) of up to 8");
    assert_eq!(target_names(true, true, true), vec!["clickhouse", "o2-parquet", "o2-vortex"]);
    assert_eq!(target_names(false, true, false), vec!["o2-parquet"]);
    assert_eq!(target_names(false, false, false), Vec::<&str>::new());
}

#[test]
fn run_arguments_are_checked_in_order() {
    assert_eq!(check_run_args(0, 0, 0), Err(ArgError::ZeroTotal));
    assert_eq!(check_run_args(1, 0, 0), Err(ArgError::ZeroBatchSize));
    assert_eq!(check_run_args(1, 1, 0), Err(ArgError::ZeroConcurrency));
    assert_eq!(check_run_args(1, 1, 1), Ok(()));
    assert_eq!(ArgError::ZeroTotal.message(), "--total must be > 0");
    assert_eq!(ArgError::ZeroBatchSize.message(), "--batch-size must be > 0");
    assert_eq!(ArgError::ZeroConcurrency.message(), "--concurrency must be > 0");
}

#[test]
fn batch_schedule_splits_the_run() {
    assert_eq!(total_batches(10, 4), 3);
    assert_eq!(total_batches(8, 4), 2);
    assert_eq!(total_batches(0, 4), 0);
    let s = batch_schedule(10, 4);
    let got: Vec<(usize, u64, usize)> = s.iter().map(|b| (b.batch_idx, b.start, b.len)).collect();
    assert_eq!(got, vec![(0, 0, 4), (1, 4, 4), (2, 8, 2)]);
    let s = batch_schedule(100_000_000, 8_000);
    assert_eq!(s.len(), 12_500);
    assert_eq!(s.iter().map(|b| b.len).sum::<usize>(), 100_000_000);
}

#[test]
fn batch_plans_seed_each_record() {
    let p = batch_plan(0xC0FFEE, 16, 4, 1_000, 250);
    assert_eq!(p.len(), 4);
    for (i, r) in p.iter().enumerate() {
        let idx = 16 + i as u64;
        assert_eq!(r.index, idx);
        assert_eq!(r.rng_seed, splitmix64(0xC0FFEE ^ idx));
        assert_eq!(r.timestamp_us, 1_000 + 250 + i as u64);
    }
    let wrap = batch_plan(1, 0, 2, u64::MAX, 0);
    assert_eq!(wrap[0].timestamp_us, u64::MAX);
    assert_eq!(wrap[1].timestamp_us, 0);
    assert!(batch_plan(1, 5, 0, 0, 0).is_empty());
}

#[test]
fn one_ndjson_body_for_every_target() {
    let rows = vec![b"{\"a\":1}".to_vec(), b"{\"b\":2}".to_vec()];
    assert_eq!(frame_ndjson(&rows), b"{\"a\":1}\n{\"b\":2}\n".to_vec());
    assert_eq!(frame_ndjson(&vec![]), Vec::<u8>::new());
    let plain = build_body(&rows, false);
    assert_eq!(plain.body, frame_ndjson(&rows));
    assert_eq!(plain.raw_len, 16);
    let empty = build_body(&vec![], false);
    assert_eq!((empty.body, empty.raw_len), (Vec::new(), 0));
}

#[test]
fn compressed_body_is_gzip_of_the_rows() {
    let rows = vec![b"{\"message\":\"hello hello hello hello\"}".to_vec(); 50];
    let b = build_body(&rows, true);
    let ndjson = frame_ndjson(&rows);
    assert_ne!(b.body, ndjson);
    assert!(b.body.len() < ndjson.len());
    assert_eq!(&b.body[..10], &[0x1f, 0x8b, 8, 0, 0, 0, 0, 0, 4, 255]);
    let n = ndjson.len() as u32;
    assert_eq!(&b.body[b.body.len() - 4..], &n.to_le_bytes());
    let mut out = Vec::new();
    flate2::read::GzDecoder::new(&b.body[..]).read_to_end(&mut out).unwrap();
    assert_eq!(out, ndjson);
    assert_eq!(b.raw_len, ndjson.len() as u64);
    assert_eq!(decode_body(&b.body, true), Some(ndjson.clone()));
    assert_eq!(decode_body(&ndjson, false), Some(ndjson.clone()));
    assert_eq!(decode_body(b"not gzip", true), None);
}

#[test]
fn gzip_round_trips() {
    for body in [Vec::new(), b"x".to_vec(), (0..=255u8).cycle().take(70_000).collect::<Vec<u8>>()] {
        let gz = gzip(&body);
        assert!(gz.len() >= 18);
        assert_eq!(&gz[..3], &[0x1f, 0x8b, 8]);
        let mut out = Vec::new();
        flate2::read::GzDecoder::new(&gz[..]).read_to_end(&mut out).unwrap();
        assert_eq!(out, body);
    }
}

#[test]
fn o2_replies_must_account_for_every_row() {
    let all = vec![StreamCounts { successful: 8, failed: 0 }];
    let short = vec![StreamCounts { successful: 7, failed: 1 }];
    let split = vec![StreamCounts { successful: 5, failed: 0 }, StreamCounts { successful: 3, failed: 0 }];
    let over = vec![StreamCounts { successful: u64::MAX, failed: 0 }, StreamCounts { successful: 9, failed: 0 }];
    assert!(rows_accepted(&all, 8));
    assert!(!rows_accepted(&short, 8));
    assert!(rows_accepted(&split, 8));
    assert!(!rows_accepted(&over, 8));
    assert!(!rows_accepted(&vec![], 8));
    assert!(rows_accepted(&vec![], 0));
    assert!(!rows_accepted(&vec![StreamCounts { successful: 8, failed: 1 }], 8));
    assert_eq!(o2_delivery(true, true, &Some(all.clone()), 8), Delivery::Accepted);
    assert_eq!(o2_delivery(true, true, &Some(short), 8), Delivery::Rejected);
    assert_eq!(o2_delivery(true, false, &Some(all.clone()), 8), Delivery::Rejected);
    assert_eq!(o2_delivery(true, true, &None, 8), Delivery::Rejected);
    assert_eq!(o2_delivery(false, false, &None, 8), Delivery::Disabled);
}

#[test]
fn settling_counts_records_once() {
    let ok = settle_batch(Delivery::Accepted, Delivery::Accepted, Delivery::Accepted, 8, 100);
    assert_eq!(
        ok,
        BatchOutcome {
            ok: true,
            sent: 8,
            failed: 0,
            clickhouse_failed: 0,
            o2_parquet_failed: 0,
            o2_vortex_failed: 0,
            bytes_ok: 100
        }
    );
    let one_bad = settle_batch(Delivery::Accepted, Delivery::Accepted, Delivery::Rejected, 8, 100);
    assert_eq!(
        one_bad,
        BatchOutcome {
            ok: false,
            sent: 0,
            failed: 8,
            clickhouse_failed: 0,
            o2_parquet_failed: 0,
            o2_vortex_failed: 8,
            bytes_ok: 0
        }
    );
    let off = settle_batch(Delivery::Disabled, Delivery::Accepted, Delivery::Disabled, 3, 7);
    assert!(off.ok);
    assert_eq!((off.sent, off.bytes_ok), (3, 7));
    let none_on = settle_batch(Delivery::Disabled, Delivery::Disabled, Delivery::Disabled, 2, 16);
    assert!(none_on.ok);
    assert_eq!((none_on.sent, none_on.failed, none_on.bytes_ok), (2, 0, 0));
    let all_bad = settle_batch(Delivery::Rejected, Delivery::Rejected, Delivery::Rejected, 5, 7);
    assert_eq!(
        (all_bad.failed, all_bad.clickhouse_failed, all_bad.o2_parquet_failed, all_bad.o2_vortex_failed),
        (5, 5, 5, 5)
    );
}

#[test]
fn event_time_range_of_delivered_rows() {
    let mut t = EventTimes::new();
    assert_eq!(t.span_us(), 0);
    t.observe_batch(&batch_plan(1, 0, 3, 1_000_000, 500));
    assert_eq!((t.seen, t.min_us, t.max_us), (true, 1_000_500, 1_000_502));
    t.observe_batch(&batch_plan(1, 3, 2, 1_000_000, 2_000_000));
    assert_eq!((t.min_us, t.max_us), (1_000_500, 3_000_001));
    assert_eq!(t.span_us(), 1_999_501);
    t.observe_batch(&Vec::new());
    assert_eq!(t.span_us(), 1_999_501);
}

#[test]
fn progress_line_parts() {
    assert_eq!(progress_processed(3, 4, 100), 7);
    assert_eq!(progress_processed(60, 50, 100), 100);
    assert_eq!(progress_bar(3, 5), "===  ");
    assert_eq!(progress_counts(7, 100, 3, 4), "7/100 sent=3 failed=4");
    assert_eq!(progress_bar(0, 2), "  ");
    assert_eq!(progress_bar(30, 30).len(), 30);
}

#[test]
fn weighted_index_walks_the_weights() {
    let w = [70u32, 10, 4, 15, 1];
    let expect = [(0, 0), (69, 0), (70, 1), (79, 1), (80, 2), (83, 2), (84, 3), (98, 3), (99, 4)];
    for (r, i) in expect {
        assert_eq!(weighted_index(&w, r), i);
    }
    let w = [0u32, 3, 0, 2];
    assert_eq!(weighted_index(&w, 0), 1);
    assert_eq!(weighted_index(&w, 3), 3);
}

#[test]
fn weighted_pick_follows_the_draw() {
    let xs = ["INFO", "WARN", "ERROR", "DEBUG", "TRACE"];
    let w = [70u32, 10, 4, 15, 1];
    for seed in 0..200 {
        let mut a = ChaCha8Rng::seed_from_u64(seed);
        let mut b = ChaCha8Rng::seed_from_u64(seed);
        let got = *weighted_pick(&mut a, &xs, &w);
        let r: u32 = b.gen_range(0..100);
        assert_eq!(got, xs[weighted_index(&w, r)]);
    }
}

#[test]
fn pick_is_uniform_over_the_slice() {
    let xs = [10, 20, 30];
    for seed in 0..50 {
        let mut a = ChaCha8Rng::seed_from_u64(seed);
        let mut b = ChaCha8Rng::seed_from_u64(seed);
        assert_eq!(*pick(&mut a, &xs), xs[b.gen_range(0..xs.len())]);
    }
}

#[test]
fn hex_ids_are_the_drawn_bytes() {
    let mut a = ChaCha8Rng::seed_from_u64(9);
    let mut b = ChaCha8Rng::seed_from_u64(9);
    let got = hex_id(&mut a, 8);
    let mut buf = [0u8; 8];
    b.fill(&mut buf[..]);
    let want: String = buf.iter().map(|x| format!("{:02x}", x)).collect();
    assert_eq!(got, want);
}

#[test]
fn selector_shares() {
    let mut counts = std::collections::HashMap::new();
    for k in 0..100 {
        *counts.entry(format!("{:?}", line_kind(k))).or_insert(0) += 1;
    }
    assert_eq!(counts["NginxAccess"], 25);
    assert_eq!(counts["RustEnvlog"], 20);
    assert_eq!(counts["Klog"], 15);
    assert_eq!(counts["GlogReflector"], 10);
    assert_eq!(counts["DbQuery"], 10);
    assert_eq!(counts["Grpc"], 8);
    assert_eq!(counts["Exception"], 5);
    assert_eq!(counts["Simple"], 7);
    assert_eq!(line_kind(24), LineKind::NginxAccess);
    assert_eq!(line_kind(25), LineKind::RustEnvlog);
    assert_eq!(line_kind(99), LineKind::Simple);
}
