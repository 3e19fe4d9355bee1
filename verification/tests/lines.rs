use datagen::record::{
    draw_head, make_record, pod_name, rand_message_body, FieldValue, RecordHead, ZipfPicks,
    APPS, LEVELS, RECORD_KEYS, REPLICASET_HASHES,
};
use datagen::stamps::{
    rand_glog_ts, rand_hex, rand_ip, rand_nginx_ts, rand_parquet_id, rand_timestamp_iso,
    rand_uuid,
};
use datagen::templates::{
    envlog_payload_of_kind, fill_api_path, generate_log_line, line_kind, line_of_kind, tpl_db_query, tpl_exception, tpl_glog_reflector, tpl_grpc,
    tpl_klog, tpl_nginx_access, tpl_rust_envlog, tpl_simple,
};
use datagen::vocab::{
    API_PATH_TEMPLATES, COMPONENTS, CPU_COUNTS, GLOG_PREFIX, GO_MODULE_PATHS, GRPC_AUTHORITIES,
    GRPC_CODES, GRPC_METHODS, GRPC_SERVICES, K8S_PLURALS, K8S_RESOURCES, KLOG_FUNCS, LEVELS_LOWER,
    LEVELS_UPPER, NAMESPACES as K8S_NAMESPACES, QUERIER_KINDS, QUERY_LIMITS, ROLES,
    RUST_MODULE_PATHS, SERVICE_ACCOUNTS, DB_NAMES, DB_OPS, DB_TABLES, EXCEPTIONS, HTTP_METHODS, HTTP_STATUSES,
    HTTP_VERSIONS, MONTHS, NGINX_REFERERS, NGINX_USER_AGENTS, ORG_NAMES, SIMPLE_MESSAGES,
    STACK_FRAMES, STREAM_NAMES,
};
use rand::{Rng, RngCore, SeedableRng};
use rand_chacha::ChaCha8Rng;

fn rngs(seed: u64) -> (ChaCha8Rng, ChaCha8Rng) {
    (ChaCha8Rng::seed_from_u64(seed), ChaCha8Rng::seed_from_u64(seed))
}

fn same_state(a: &mut ChaCha8Rng, b: &mut ChaCha8Rng) {
    assert_eq!(a.next_u64(), b.next_u64());
}

fn is_hex(s: &str) -> bool {
    s.chars().all(|c| c.is_ascii_digit() || ('a'..='f').contains(&c))
}

fn hex_digits(b: &mut ChaCha8Rng, n: usize) -> String {
    (0..n)
        .map(|_| {
            let v: u8 = b.gen_range(0..16);
            if v < 10 { (b'0' + v) as char } else { (b'a' + v - 10) as char }
        })
        .collect()
}

fn ip_of(b: &mut ChaCha8Rng) -> String {
    let (x, y, z): (i32, i32, i32) = (b.gen_range(0..256), b.gen_range(0..256), b.gen_range(1..255));
    format!("10.{}.{}.{}", x, y, z)
}

fn uuid_of(b: &mut ChaCha8Rng) -> String {
    let mut bytes = [0u8; 16];
    b.fill(&mut bytes);
    let h: Vec<String> = bytes.iter().map(|v| format!("{:02x}", v)).collect();
    format!("{}-{}-{}-{}-{}", h[0..4].concat(), h[4..6].concat(), h[6..8].concat(), h[8..10].concat(), h[10..16].concat())
}

#[test]
fn nginx_lines_draw_in_order() {
    for seed in 0..300 {
        let (mut a, mut b) = rngs(seed);
        let got = tpl_nginx_access(&mut a);
        let ip = ip_of(&mut b);
        let user = if b.gen_bool(0.5) { "*****@domain.com" } else { "-" };
        let mi: usize = b.gen_range(0..12);
        let day: i32 = b.gen_range(1..=28);
        let year: i32 = 2022 + b.gen_range(0..4);
        let (h, m, s): (i32, i32, i32) = (b.gen_range(0..24), b.gen_range(0..60), b.gen_range(0..60));
        let ts = format!("[{:02}/{}/{}:{:02}:{:02}:{:02} +0000]", day, MONTHS[mi], year, h, m, s);
        let method = HTTP_METHODS[b.gen_range(0..HTTP_METHODS.len())];
        let tpl = API_PATH_TEMPLATES[b.gen_range(0..API_PATH_TEMPLATES.len())];
        let mut path = tpl.replace("{org}", ORG_NAMES[b.gen_range(0..ORG_NAMES.len())]);
        if path.contains("{stream}") {
            path = path.replace("{stream}", STREAM_NAMES[b.gen_range(0..STREAM_NAMES.len())]);
        }
        if path.contains("{uuid}") {
            path = path.replace("{uuid}", &uuid_of(&mut b));
        }
        let ver = HTTP_VERSIONS[b.gen_range(0..HTTP_VERSIONS.len())];
        let status = HTTP_STATUSES[b.gen_range(0..HTTP_STATUSES.len())];
        let body: i32 = b.gen_range(50..30_000);
        let referer = NGINX_REFERERS[b.gen_range(0..NGINX_REFERERS.len())];
        let ua = NGINX_USER_AGENTS[b.gen_range(0..NGINX_USER_AGENTS.len())];
        let req_len: i32 = b.gen_range(40..3000);
        let req_t = (b.gen_range(1..2000) as f64) / 1000.0;
        let upstream = format!("{}:{}", ip_of(&mut b), b.gen_range(3000..9000));
        let resp_t = (b.gen_range(0..2000) as f64) / 1000.0;
        let hash = hex_digits(&mut b, 32);
        let want = format!(
            "{ip} - {user} {ts} \"{method} {path} {ver}\" {status} {body} \"{referer}\" \"{ua}\" {req_len} {req_t:.3} [zinc-cp1-zinc-cp-4082] [] {upstream} {body} {resp_t:.3} {status} {hash}"
        );
        assert_eq!(got, want);
        same_state(&mut a, &mut b);
    }
}

fn iso_of(b: &mut ChaCha8Rng) -> String {
    let secs: i64 = b.gen_range(0..30 * 24 * 3600);
    let base = chrono::DateTime::from_timestamp(1_735_689_600, 0).unwrap();
    (base - chrono::Duration::seconds(secs)).format("%Y-%m-%dT%H:%M:%S%.3fZ").to_string()
}

fn one<'a, T>(b: &mut ChaCha8Rng, xs: &'a [T]) -> &'a T {
    &xs[b.gen_range(0..xs.len())]
}

#[test]
fn klog_glog_grpc_lines_draw_in_order() {
    for seed in 0..200 {
        let (mut a, mut b) = rngs(seed);
        let got = tpl_klog(&mut a);
        let ts = iso_of(&mut b);
        let caller: i32 = b.gen_range(50..400);
        let level = one(&mut b, &LEVELS_LOWER);
        let comp = one(&mut b, &COMPONENTS);
        let func = one(&mut b, &KLOG_FUNCS);
        let module = one(&mut b, &GO_MODULE_PATHS);
        let res = one(&mut b, &K8S_RESOURCES);
        let plural = one(&mut b, &K8S_PLURALS);
        let ns = one(&mut b, &K8S_NAMESPACES);
        let sa = one(&mut b, &SERVICE_ACCOUNTS);
        let q = '"';
        let bq = "\\\"";
        let want = format!(
            "ts={ts} caller=klog.go:{caller} level={level} component={comp} func={func} msg={q}{module}: failed to list {res}: {plural} is forbidden: User {bq}system:serviceaccount:{ns}:{sa}{bq} cannot list resource {bq}{plural}{bq} in API group {bq}{bq} at the cluster scope{q}"
        );
        assert_eq!(got, want);

        let got = tpl_glog_reflector(&mut a);
        let pfx = one(&mut b, &GLOG_PREFIX);
        let month: i32 = b.gen_range(1..=12);
        let day: i32 = b.gen_range(1..=28);
        let (h, m, s): (i32, i32, i32) = (b.gen_range(0..24), b.gen_range(0..60), b.gen_range(0..60));
        let us: i32 = b.gen_range(0..1_000_000);
        let gts = format!("{:02}{:02} {:02}:{:02}:{:02}.{:06}", month, day, h, m, s, us);
        let thread: i32 = b.gen_range(1..50);
        let line: i32 = b.gen_range(50..400);
        let module = one(&mut b, &GO_MODULE_PATHS);
        let res = one(&mut b, &K8S_RESOURCES);
        let plural = one(&mut b, &K8S_PLURALS);
        let gap = " ".repeat(7);
        assert_eq!(
            got,
            format!("{pfx}{gts}{gap}{thread} reflector.go:{line}] {module}: Failed to watch {res}: failed to list {res}: the server could not find the requested resource (get {plural})")
        );

        let got = tpl_grpc(&mut a);
        let svc = one(&mut b, &GRPC_SERVICES);
        let meth = one(&mut b, &GRPC_METHODS);
        let code = one(&mut b, &GRPC_CODES);
        let peer = format!("{}:{}", ip_of(&mut b), b.gen_range(20_000..60_000));
        let dur: i32 = b.gen_range(1..2000);
        let rid = uuid_of(&mut b);
        let auth = one(&mut b, &GRPC_AUTHORITIES);
        assert_eq!(
            got,
            format!("grpc service={svc} method={meth} peer={peer} duration_ms={dur} code={code} request_id={rid} authority={auth}.svc.cluster.local")
        );
        same_state(&mut a, &mut b);
    }
}

#[test]
fn envlog_lines_draw_in_order() {
    for seed in 0..400 {
        let (mut a, mut b) = rngs(seed);
        let got = tpl_rust_envlog(&mut a);
        let ts = iso_of(&mut b);
        let lvl = one(&mut b, &LEVELS_UPPER);
        let module = one(&mut b, &RUST_MODULE_PATHS);
        let q = '"';
        let payload = match b.gen_range(0..7) {
            0 => {
                let id: i32 = b.gen_range(1..10);
                let uuid = uuid_of(&mut b);
                let kind = one(&mut b, &QUERIER_KINDS);
                let hex = hex_digits(&mut b, 6);
                let ip = ip_of(&mut b);
                let port: i32 = b.gen_range(5080..5090);
                let role = one(&mut b, &ROLES);
                let cpu = one(&mut b, &CPU_COUNTS);
                format!("[TRACE] cluster->node: Node {{ id: {id}, uuid: {q}{uuid}{q}, name: {q}ziox-{kind}-{hex}{q}, addr: {q}http://{ip}:{port}{q}, role: [{role}], cpu_num: {cpu}, status: Online }}")
            }
            1 => {
                let (n, o): (i32, i32) = (b.gen_range(0..200), b.gen_range(0..200));
                format!("[TRACE] cluster->file_list: num: {n}, offset: {o}")
            }
            2 => {
                let node: i32 = b.gen_range(1..10);
                let querier = b.gen_bool(0.5);
                let (lo, hi): (i32, i32) = (b.gen_range(0..100), b.gen_range(100..1000));
                format!("[TRACE] cluster->partition: node: {node}, is_querier: {querier}, file_range: {lo}-{hi}")
            }
            3 => {
                let (t, k, z): (i32, i32, i32) = (b.gen_range(0..100_000), b.gen_range(0..2000), b.gen_range(0..10_000_000));
                format!("[TRACE] cluster->search: total: {t}, took: {k}, scan_size: {z}")
            }
            4 => {
                let org = one(&mut b, &ORG_NAMES);
                let st = one(&mut b, &STREAM_NAMES);
                let id: u64 = b.gen_range(7_000_000_000_000_000_000_u64..7_999_999_999_999_999_999_u64);
                let size: i32 = b.gen_range(100..1_000_000);
                format!("[JOB] File upload begin: local: data/wal/{org}/logs/{st}/0_2024_05_28_14_{id}.json, size: {size}")
            }
            5 => {
                let org = one(&mut b, &ORG_NAMES);
                let st = one(&mut b, &STREAM_NAMES);
                let id: u64 = b.gen_range(7_000_000_000_000_000_000_u64..7_999_999_999_999_999_999_u64);
                let org2 = one(&mut b, &ORG_NAMES);
                let st2 = one(&mut b, &STREAM_NAMES);
                let id2: u64 = b.gen_range(7_000_000_000_000_000_000_u64..7_999_999_999_999_999_999_u64);
                format!("[JOB] File upload success: local: data/wal/{org}/logs/{st}/0_2024_05_28_14_{id}.json, remote: {org2}/logs/{st2}/2024/05/28/14/{id2}.parquet")
            }
            _ => {
                let st = one(&mut b, &STREAM_NAMES);
                let t0: i64 = b.gen_range(1_600_000_000_000_000_i64..1_700_000_000_000_000_i64);
                let t1: i64 = b.gen_range(1_700_000_000_000_000_i64..1_800_000_000_000_000_i64);
                let limit = one(&mut b, &QUERY_LIMITS);
                format!("[TRACE] sqlparser: index -> {q}{st}{q}, fields -> [], partition_key -> [], full_text -> [], time_range -> Some(({t0}, {t1})), order_by -> [], limit -> 0,{limit}")
            }
        };
        assert_eq!(got, format!("[{ts} {lvl} {module}] {payload}"));
        same_state(&mut a, &mut b);
    }
}

#[test]
fn glog_timestamps() {
    for seed in 0..100 {
        let (mut a, mut b) = rngs(seed);
        let got = rand_glog_ts(&mut a);
        let month: i32 = b.gen_range(1..=12);
        let day: i32 = b.gen_range(1..=28);
        let h: i32 = b.gen_range(0..24);
        let m: i32 = b.gen_range(0..60);
        let s: i32 = b.gen_range(0..60);
        let us: i32 = b.gen_range(0..1_000_000);
        assert_eq!(got, format!("{:02}{:02} {:02}:{:02}:{:02}.{:06}", month, day, h, m, s, us));
        same_state(&mut a, &mut b);
    }
}

#[test]
fn nginx_timestamps() {
    for seed in 0..100 {
        let (mut a, mut b) = rngs(seed);
        let got = rand_nginx_ts(&mut a);
        let mi: usize = b.gen_range(0..12);
        let day: i32 = b.gen_range(1..=28);
        let year: i32 = 2022 + b.gen_range(0..4);
        let h: i32 = b.gen_range(0..24);
        let m: i32 = b.gen_range(0..60);
        let s: i32 = b.gen_range(0..60);
        let want = format!("[{:02}/{}/{}:{:02}:{:02}:{:02} +0000]", day, MONTHS[mi], year, h, m, s);
        assert_eq!(got, want);
        same_state(&mut a, &mut b);
    }
}

#[test]
fn iso_timestamps_fall_in_the_window() {
    for seed in 0..100 {
        let (mut a, mut b) = rngs(seed);
        let got = rand_timestamp_iso(&mut a);
        let secs: i64 = b.gen_range(0..30 * 24 * 3600);
        let base = chrono::DateTime::from_timestamp(1_735_689_600, 0).unwrap();
        let ts = base - chrono::Duration::seconds(secs);
        assert_eq!(got, ts.format("%Y-%m-%dT%H:%M:%S%.3fZ").to_string());
        assert_eq!(got.len(), 24);
        assert!(got.ends_with(".000Z"));
        assert!(got.as_str() < "2025-01-01T00:00:00.000Z");
        assert!(got.as_str() >= "2024-12-02T00:00:00.000Z");
        same_state(&mut a, &mut b);
    }
}

#[test]
fn addresses_and_ids() {
    for seed in 0..100 {
        let (mut a, mut b) = rngs(seed);
        let ip = rand_ip(&mut a);
        let (x, y, z): (i32, i32, i32) = (b.gen_range(0..256), b.gen_range(0..256), b.gen_range(1..255));
        assert_eq!(ip, format!("10.{}.{}.{}", x, y, z));
        let u = rand_uuid(&mut a);
        let mut bytes = [0u8; 16];
        b.fill(&mut bytes);
        let hex: Vec<String> = bytes.iter().map(|v| format!("{:02x}", v)).collect();
        assert_eq!(
            u,
            format!("{}-{}-{}-{}-{}", hex[0..4].concat(), hex[4..6].concat(), hex[6..8].concat(), hex[8..10].concat(), hex[10..16].concat())
        );
        let h = rand_hex(&mut a, 7);
        let want: String = (0..7)
            .map(|_| {
                let v: u8 = b.gen_range(0..16);
                if v < 10 { (b'0' + v) as char } else { (b'a' + v - 10) as char }
            })
            .collect();
        assert_eq!(h, want);
        let id = rand_parquet_id(&mut a);
        assert_eq!(id, b.gen_range(7_000_000_000_000_000_000_u64..7_999_999_999_999_999_999_u64));
        same_state(&mut a, &mut b);
    }
}

#[test]
fn exceptions_and_queries() {
    for seed in 0..100 {
        let (mut a, mut b) = rngs(seed);
        let got = tpl_exception(&mut a);
        let e = EXCEPTIONS[b.gen_range(0..EXCEPTIONS.len())];
        let f1 = STACK_FRAMES[b.gen_range(0..STACK_FRAMES.len())];
        let f2 = STACK_FRAMES[b.gen_range(0..STACK_FRAMES.len())];
        let f3 = STACK_FRAMES[b.gen_range(0..STACK_FRAMES.len())];
        assert_eq!(got, format!("exception=\"{e}\" stack=\"{f1} | {f2} | {f3}\""));

        let q = tpl_db_query(&mut a);
        let table = DB_TABLES[b.gen_range(0..DB_TABLES.len())];
        let op = DB_OPS[b.gen_range(0..DB_OPS.len())];
        let took = (b.gen_range(1..5000) as f64) / 100.0;
        let rows: i32 = b.gen_range(0..50_000);
        let id: i32 = b.gen_range(1..1_000_000);
        let db = DB_NAMES[b.gen_range(0..DB_NAMES.len())];
        let tenant = ORG_NAMES[b.gen_range(0..ORG_NAMES.len())];
        let trace: String = (0..16)
            .map(|_| {
                let v: u8 = b.gen_range(0..16);
                if v < 10 { (b'0' + v) as char } else { (b'a' + v - 10) as char }
            })
            .collect();
        assert_eq!(
            q,
            format!("query={op} table={table} rows={rows} took_ms={took:.2} where id={id} db={db} pool=primary tenant={tenant} trace_id={trace}")
        );
        let s = tpl_simple(&mut a);
        assert_eq!(s, SIMPLE_MESSAGES[b.gen_range(0..SIMPLE_MESSAGES.len())]);
        same_state(&mut a, &mut b);
    }
}

#[test]
fn api_paths_fill_their_slots() {
    for seed in 0..50 {
        let (mut a, mut b) = rngs(seed);
        let p = fill_api_path(&mut a, "/api/{org}/{stream}/_json");
        let org = ORG_NAMES[b.gen_range(0..ORG_NAMES.len())];
        let stream = STREAM_NAMES[b.gen_range(0..STREAM_NAMES.len())];
        assert_eq!(p, format!("/api/{org}/{stream}/_json"));
        same_state(&mut a, &mut b);

        let (mut a, mut b) = rngs(seed);
        let p = fill_api_path(&mut a, "/api/users");
        let _org = b.gen_range(0..ORG_NAMES.len());
        assert_eq!(p, "/api/users");
        same_state(&mut a, &mut b);

        let mut a = ChaCha8Rng::seed_from_u64(seed);
        let p = fill_api_path(&mut a, "/api/auth/callback?code={uuid}");
        let code = p.strip_prefix("/api/auth/callback?code=").unwrap();
        assert_eq!(code.len(), 36);
        assert!(!p.contains('{'));
    }
}

#[test]
fn template_lines_have_their_shapes() {
    for seed in 0..200 {
        let mut a = ChaCha8Rng::seed_from_u64(seed);
        let n = tpl_nginx_access(&mut a);
        assert!(n.starts_with("10."));
        assert!(n.contains(" [zinc-cp1-zinc-cp-4082] [] "));
        assert!(n.contains(" +0000] \""));
        let hash = n.rsplit(' ').next().unwrap();
        assert_eq!(hash.len(), 32);
        assert!(is_hex(hash));

        let k = tpl_klog(&mut a);
        assert!(k.starts_with("ts=20"));
        assert!(k.contains(" caller=klog.go:"));
        assert!(k.ends_with("in API group \\\"\\\" at the cluster scope\""));

        let g = tpl_glog_reflector(&mut a);
        assert!("IWEF".contains(&g[..1]));
        assert!(g.contains("       "));
        assert!(g.contains(" reflector.go:"));
        assert!(g.ends_with(')'));

        let r = tpl_rust_envlog(&mut a);
        assert!(r.starts_with("[20"));
        assert!(r.contains("] [TRACE] ") || r.contains("] [JOB] "));

        let c = tpl_grpc(&mut a);
        assert!(c.starts_with("grpc service="));
        assert!(c.ends_with(".svc.cluster.local"));

        let l = generate_log_line(&mut a);
        assert!(!l.is_empty());
    }
}

#[test]
fn pod_names_use_the_uuid_of_their_key() {
    let p = pod_name(0, 0, 0);
    assert_eq!(p, format!("{}-{}-{}", APPS[0], REPLICASET_HASHES[0], "5b78c"));
    let full = uuid::Uuid::new_v5(&uuid::Uuid::NAMESPACE_OID, b"3/2/1000").simple().to_string();
    assert_eq!(pod_name(3, 2, 1000), format!("payment-service-5b8d3a7c2-{}", &full[..5]));
}

#[test]
fn messages_are_padded_past_the_minimum() {
    for seed in 0..40 {
        let mut a = ChaCha8Rng::seed_from_u64(seed);
        let m = rand_message_body(&mut a, seed % 2 == 0);
        assert!(m.len() >= 1100);
        if seed % 2 == 0 {
            assert!(m.contains(" | exception=\""));
        }
    }
}

fn text(v: &FieldValue) -> &str {
    match v {
        FieldValue::Text(s) => s.as_str(),
        FieldValue::Number(_) => panic!("expected text"),
    }
}

fn number(v: &FieldValue) -> u64 {
    match v {
        FieldValue::Number(n) => *n,
        FieldValue::Text(_) => panic!("expected a number"),
    }
}

#[test]
fn records_hold_their_fields() {
    for seed in 0..30u64 {
        let mut a = ChaCha8Rng::seed_from_u64(seed);
        let picks = ZipfPicks { app: 3, replica_set: 1, pod: 17, namespace: 2, path: 5 };
        let head = draw_head(&mut a);
        let rec = make_record(&mut a, 1_700_000_000_000_000 + seed, 1000, 50, 300, &picks, &head);
        assert_eq!(rec.timestamp_us, 1_700_000_000_000_000 + seed);
        assert_eq!(rec.level, LEVELS[head.level]);
        assert_eq!(rec.app, "payment-service");
        assert_eq!(rec.container, "payment-service-container");
        assert_eq!(rec.version, "v3.9.6");
        assert_eq!(rec.pod_ip, "10.4.2.27");
        assert_eq!(rec.namespace, "monitoring");
        assert_eq!(rec.http_path, "/api/v1/auth/login");
        assert!(rec.pod_name.starts_with("payment-service-9a2c1e6f4-"));
        assert_eq!(rec.host, format!("{}.monitoring.svc.cluster.local", rec.pod_name));
        assert_eq!(rec.trace_id.len(), 32);
        assert_eq!(rec.span_id.len(), 16);
        assert_eq!(rec.request_id.len(), 32);
        assert_eq!(rec.session_id.len(), 16);
        assert_eq!(rec.ja3.len(), 32);
        assert!(u128::from_str_radix(&rec.ja3, 16).unwrap() < 300);
        assert!(is_hex(&rec.trace_id) && is_hex(&rec.span_id) && is_hex(&rec.request_id));
        assert!(rec.message.ends_with(&format!(
            " | trace_id={} span_id={} x_request_id={}",
            rec.trace_id, rec.span_id, rec.request_id
        )));
        assert!(rec.message.len() >= 1100);
        assert!((1..1500).contains(&rec.http_latency_ms));
        assert!((64..32_768).contains(&rec.http_bytes_out));
        assert!(rec.user_id.starts_with("u_"));
        assert!(["az-1", "az-2", "az-3"].contains(&rec.zone.as_str()));
        let first: u8 = rec.client_ip.split('.').next().unwrap().parse().unwrap();
        assert!([3, 8, 13, 18, 23, 35, 40, 52, 54, 65, 73, 76, 99, 104, 108, 142].contains(&first));
        let fields = rec.into_fields();
        assert_eq!(fields.len(), 27);
        for (i, (k, _)) in fields.iter().enumerate() {
            assert_eq!(*k, RECORD_KEYS[i]);
        }
        assert_eq!(number(&fields[0].1), 1_700_000_000_000_000 + seed);
        assert_eq!(text(&fields[9].1), "payment-service");
    }
}

#[test]
fn trace_ids_name_the_drawn_trace() {
    let mut a = ChaCha8Rng::seed_from_u64(5);
    let mut b = ChaCha8Rng::seed_from_u64(5);
    let picks = ZipfPicks { app: 0, replica_set: 0, pod: 0, namespace: 0, path: 0 };
    let head = RecordHead { node: 0, level: 0, stream: 0, method: 0 };
    let rec = make_record(&mut a, 0, 1000, 10, 10, &picks, &head);
    let _status: u32 = b.gen_range(0..910);
    let _latency: i32 = b.gen_range(1..1500);
    let _bytes: i32 = b.gen_range(64..32_768);
    let t: usize = b.gen_range(0..1000);
    let want = uuid::Uuid::new_v5(&uuid::Uuid::NAMESPACE_OID, t.to_string().as_bytes()).simple().to_string();
    assert_eq!(rec.trace_id, want);
    assert_eq!(rec.pod_name, "api-gateway-7d4f5b9c8-5b78c");
}

#[test]
fn line_of_kind_runs_the_chosen_template() {
    for seed in 0..40 {
        for k in [0u32, 30, 50, 65, 75, 85, 90, 95] {
            let (mut a, mut b) = rngs(seed);
            let got = line_of_kind(&mut a, line_kind(k));
            let want = match k {
                0 => tpl_nginx_access(&mut b),
                30 => tpl_rust_envlog(&mut b),
                50 => tpl_klog(&mut b),
                65 => tpl_glog_reflector(&mut b),
                75 => tpl_db_query(&mut b),
                85 => tpl_grpc(&mut b),
                90 => tpl_exception(&mut b),
                _ => tpl_simple(&mut b),
            };
            assert_eq!(got, want);
            same_state(&mut a, &mut b);
        }
    }
}

#[test]
fn envlog_payload_kinds_start_as_drawn() {
    let starts = [
        "[TRACE] cluster->node: Node { id: ",
        "[TRACE] cluster->file_list: num: ",
        "[TRACE] cluster->partition: node: ",
        "[TRACE] cluster->search: total: ",
        "[JOB] File upload begin: ",
        "[JOB] File upload success: ",
        "[TRACE] sqlparser: index -> ",
    ];
    for seed in 0..20 {
        for (kind, start) in starts.iter().enumerate() {
            let mut a = ChaCha8Rng::seed_from_u64(seed);
            let p = envlog_payload_of_kind(&mut a, kind as u32);
            assert!(p.starts_with(start), "{kind}: {p}");
        }
    }
}
