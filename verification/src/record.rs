//! One benchmark record: a Kubernetes pod's HTTP access event with a long,
//! template-built message and its tracing identifiers.
//!
//! The Zipf-skewed picks (app, replica set, pod, namespace, path) are drawn
//! with floating point by the caller; everything else is drawn and assembled
//! here, in the same order on the same generator.
use rand_chacha::ChaCha8Rng;
use vstd::prelude::*;

use crate::rng::{gen_range_u128, gen_range_u32, gen_range_usize};
use crate::sampling::{hex_id, hex_of_bytes, in_slot, pick, weight_total, weighted_pick_index};
use crate::templates::{generate_log_line, is_exception_line, is_log_line, tpl_exception};
use crate::text::{
    byte_len, dec, hex_fixed, lemma_byte_len_concat, lemma_dec_dot_split, lemma_dec_injective, push_dec,
    push_hex_fixed, utf8_len,
};
use crate::sampling::{lemma_hex_of_bytes, pick_index};
use vstd::string::StrSliceExecFns;

verus! {

pub const LEVELS: [&'static str; 5] = ["INFO", "WARN", "ERROR", "DEBUG", "TRACE"];

pub const LEVEL_WEIGHTS: [u32; 5] = [70, 10, 4, 15, 1];

pub const NAMESPACES: [&'static str; 9] = [
    "kube-system",
    "default",
    "monitoring",
    "ingress-nginx",
    "logging",
    "payments",
    "checkout",
    "search",
    "auth",
];

pub const APPS: [&'static str; 8] = [
    "api-gateway",
    "user-service",
    "order-service",
    "payment-service",
    "search-service",
    "notification-service",
    "cart-service",
    "recommendation-service",
];

pub const NODES: [&'static str; 5] = [
    "ip-10-0-1-12.ec2.internal",
    "ip-10-0-1-87.ec2.internal",
    "ip-10-0-2-44.ec2.internal",
    "ip-10-0-2-93.ec2.internal",
    "ip-10-0-3-15.ec2.internal",
];

pub const REPLICASET_HASHES: [&'static str; 3] = ["7d4f5b9c8", "9a2c1e6f4", "5b8d3a7c2"];

pub const STREAMS: [&'static str; 2] = ["stdout", "stderr"];

pub const STREAM_WEIGHTS: [u32; 2] = [85, 15];

pub const METHODS: [&'static str; 5] = ["GET", "POST", "PUT", "DELETE", "PATCH"];

pub const METHOD_WEIGHTS: [u32; 5] = [60, 22, 8, 5, 5];

pub const PATHS: [&'static str; 8] = [
    "/api/v1/users",
    "/api/v1/orders",
    "/api/v1/cart",
    "/api/v1/checkout",
    "/api/v1/search",
    "/api/v1/auth/login",
    "/api/v1/health",
    "/metrics",
];

pub const STATUS: [u16; 11] = [200, 201, 204, 301, 400, 401, 403, 404, 500, 502, 503];

pub const STATUS_WEIGHTS: [u32; 11] = [600, 60, 30, 20, 50, 25, 15, 80, 15, 8, 7];

pub const CLIENT_FIRST_OCTETS: [u8; 16] = [
    3, 8, 13, 18, 23, 35, 40, 52, 54, 65, 73, 76, 99, 104, 108, 142,
];

/// Version label per app (order of `APPS`) and replica set: current,
/// previous, and an older draining release.
pub const APP_VERSIONS: [[&'static str; 3]; 8] = [
    ["v3.4.1", "v3.4.0", "v3.3.7"],
    ["v2.1.5", "v2.1.4", "v2.0.9"],
    ["v1.8.2", "v1.8.1", "v1.7.3"],
    ["v4.0.0", "v3.9.6", "v3.9.5"],
    ["v2.6.3", "v2.6.2", "v2.5.8"],
    ["v1.3.7", "v1.3.6", "v1.2.4"],
    ["v2.0.1", "v2.0.0", "v1.9.5"],
    ["v0.9.2", "v0.9.1", "v0.8.4"],
];

pub const REGIONS: [&'static str; 4] = ["us-east-1", "us-west-2", "eu-west-1", "ap-south-1"];

pub const REGION_WEIGHTS: [u32; 4] = [60, 25, 12, 3];

pub const ZONES: [u8; 3] = [1, 2, 3];

pub const ZONE_WEIGHTS: [u32; 3] = [55, 30, 15];

pub const CLUSTERS: [&'static str; 3] = ["prod-a", "prod-b", "stage-a"];

pub const CLUSTER_WEIGHTS: [u32; 3] = [70, 25, 5];

/// A message is padded with further log lines until it has this many bytes.
pub const MESSAGE_MIN_BYTES: usize = 1100;

/// What `uuid::Uuid::new_v5(&Uuid::NAMESPACE_OID, name)` holds: 16 bytes
/// (a SHA-1 digest of the namespace and the name's UTF-8 bytes).
pub uninterp spec fn uuid_v5_oid(name: Seq<char>) -> Seq<u8>;

/// `Uuid::new_v5(&Uuid::NAMESPACE_OID, name.as_bytes()).simple().to_string()`.
/// Claimed: the UUID `uuid_v5_oid(name)` has 16 bytes, and the text is those
/// bytes as 32 lowercase hex digits (uuid's `Simple` display writes `encode_lower` of the bytes).
#[verifier::external_body]
fn uuid_v5_oid_simple(name: &str) -> (r: String)
    ensures
        r@ == hex_of_bytes(uuid_v5_oid(name@)),
        r@.len() == 32,
        2 * uuid_v5_oid(name@).len() == r@.len(),
{
    uuid::Uuid::new_v5(&uuid::Uuid::NAMESPACE_OID, name.as_bytes()).simple().to_string()
}

// ---------------------------------------------------------------- message

/// `head`, then `" | "` and each padding line in turn.
pub open spec fn joined(head: Seq<char>, pads: Seq<Seq<char>>) -> Seq<char>
    decreases pads.len(),
{
    if pads.len() == 0 {
        head
    } else {
        joined(head, pads.drop_last()) + " | "@ + pads.last()
    }
}

/// The lines a message body is made of.
pub struct MessageDraws {
    pub first: Seq<char>,
    pub exception: Seq<char>,
    pub pads: Seq<Seq<char>>,
}

impl MessageDraws {
    /// The first line, with the exception appended for WARN and ERROR records.
    pub open spec fn head(self, alert: bool) -> Seq<char> {
        if alert {
            self.first + " | "@ + self.exception
        } else {
            self.first
        }
    }

    pub open spec fn text(self, alert: bool) -> Seq<char> {
        joined(self.head(alert), self.pads)
    }

    /// Every line comes from a template; a line is padded on exactly while
    /// it is shorter than `MESSAGE_MIN_BYTES` bytes.
    pub open spec fn valid(self, alert: bool) -> bool {
        &&& is_log_line(self.first)
        &&& alert ==> is_exception_line(self.exception)
        &&& forall|k: int|
            0 <= k < self.pads.len() ==> is_log_line(#[trigger] self.pads[k]) && byte_len(
                joined(self.head(alert), self.pads.take(k)),
            ) < MESSAGE_MIN_BYTES
        &&& byte_len(self.text(alert)) >= MESSAGE_MIN_BYTES
    }
}

pub open spec fn is_message_body(s: Seq<char>, alert: bool) -> bool {
    exists|m: MessageDraws| m.valid(alert) && s == #[trigger] m.text(alert)
}

/// The padding lines so far are valid: each is a log line, appended while the
/// text before it was short.
pub open spec fn pads_ok(head: Seq<char>, pads: Seq<Seq<char>>) -> bool {
    forall|k: int|
        0 <= k < pads.len() ==> is_log_line(#[trigger] pads[k]) && byte_len(
            joined(head, pads.take(k)),
        ) < MESSAGE_MIN_BYTES
}

proof fn lemma_pad_step(head: Seq<char>, pads: Seq<Seq<char>>, l: Seq<char>)
    requires
        pads_ok(head, pads),
        byte_len(joined(head, pads)) < MESSAGE_MIN_BYTES,
        is_log_line(l),
    ensures
        pads_ok(head, pads.push(l)),
        joined(head, pads.push(l)) == joined(head, pads) + " | "@ + l,
        byte_len(joined(head, pads.push(l))) >= byte_len(joined(head, pads)) + 3,
{
    reveal_strlit(" | ");
    let next = pads.push(l);
    assert(next.drop_last() =~= pads);
    assert forall|k: int| 0 <= k < next.len() implies is_log_line(#[trigger] next[k]) && byte_len(
        joined(head, next.take(k)),
    ) < MESSAGE_MIN_BYTES by {
        if k < pads.len() {
            assert(next.take(k) =~= pads.take(k));
            assert(next[k] == pads[k]);
        } else {
            assert(next.take(k) =~= pads);
        }
    }
    let a = joined(head, pads);
    assert(a + " | "@ + l =~= a + (" | "@ + l));
    lemma_byte_len_concat(a, " | "@ + l);
}

/// A log line, with an exception for alerts, padded with further log lines
/// to at least `MESSAGE_MIN_BYTES` bytes.
pub fn rand_message_body(rng: &mut ChaCha8Rng, alert: bool) -> (r: String)
    ensures
        is_message_body(r@, alert),
{
    let mut line = generate_log_line(rng);
    let ghost first = line@;
    let ghost mut exc: Seq<char> = Seq::empty();
    if alert {
        line.append(" | ");
        let e = tpl_exception(rng);
        line.append(e.as_str());
        proof {
            exc = e@;
        }
    }
    let ghost head = line@;
    let ghost mut pads: Seq<Seq<char>> = Seq::empty();
    assert(head == (MessageDraws { first, exception: exc, pads }).head(alert));
    let mut len = utf8_len(line.as_str());
    while len < MESSAGE_MIN_BYTES
        invariant
            len == byte_len(line@),
            is_log_line(first),
            alert ==> is_exception_line(exc),
            head == (MessageDraws { first, exception: exc, pads: Seq::empty() }).head(alert),
            line@ == joined(head, pads),
            pads_ok(head, pads),
        decreases (if len < MESSAGE_MIN_BYTES {
            MESSAGE_MIN_BYTES - len
        } else {
            0
        }),
    {
        line.append(" | ");
        let l = generate_log_line(rng);
        line.append(l.as_str());
        proof {
            lemma_pad_step(head, pads, l@);
            pads = pads.push(l@);
        }
        len = utf8_len(line.as_str());
    }
    let ghost m = MessageDraws { first, exception: exc, pads };
    assert(m.head(alert) == head);
    assert(m.valid(alert));
    line
}

// ---------------------------------------------------------------- record

/// The Zipf-skewed picks, drawn by the caller before `draw_head` (app,
/// replica set, pod, namespace) and after it (path).
pub struct ZipfPicks {
    pub app: usize,
    pub replica_set: usize,
    pub pod: usize,
    pub namespace: usize,
    pub path: usize,
}

impl ZipfPicks {
    pub open spec fn valid(&self) -> bool {
        &&& self.app < 8
        &&& self.replica_set < 3
        &&& self.pod < 1024
        &&& self.namespace < 9
        &&& self.path < 8
    }
}

/// The node, level, stream and method of a record (indices into `NODES`,
/// `LEVELS`, `STREAMS` and `METHODS`).
pub struct RecordHead {
    pub node: usize,
    pub level: usize,
    pub stream: usize,
    pub method: usize,
}

impl RecordHead {
    pub open spec fn valid(&self) -> bool {
        &&& self.node < 5
        &&& self.level < 5
        &&& self.stream < 2
        &&& self.method < 5
    }
}

/// The draws between the namespace and the path: a uniform node, then the
/// weighted level, stream and method.
pub fn draw_head(rng: &mut ChaCha8Rng) -> (h: RecordHead)
    ensures
        h.valid(),
        exists|d: int| 0 <= d < weight_total(LEVEL_WEIGHTS@) && in_slot(LEVEL_WEIGHTS@, h.level as int, d),
        exists|d: int|
            0 <= d < weight_total(STREAM_WEIGHTS@) && in_slot(STREAM_WEIGHTS@, h.stream as int, d),
        exists|d: int|
            0 <= d < weight_total(METHOD_WEIGHTS@) && in_slot(METHOD_WEIGHTS@, h.method as int, d),
{
    reveal_with_fuel(weight_total, 6);
    let node = pick_index(rng, NODES.len());
    let level = weighted_pick_index(rng, LEVEL_WEIGHTS.as_slice());
    let stream = weighted_pick_index(rng, STREAM_WEIGHTS.as_slice());
    let method = weighted_pick_index(rng, METHOD_WEIGHTS.as_slice());
    RecordHead { node, level, stream, method }
}

/// WARN and ERROR records carry an exception in their message.
pub open spec fn is_alert_level(level: int) -> bool {
    LEVELS@[level]@ == "ERROR"@ || LEVELS@[level]@ == "WARN"@
}

proof fn lemma_alert_level(level: int)
    requires
        0 <= level < 5,
    ensures
        is_alert_level(level) <==> (level == 1 || level == 2),
{
    reveal_strlit("INFO");
    reveal_strlit("WARN");
    reveal_strlit("ERROR");
    reveal_strlit("DEBUG");
    reveal_strlit("TRACE");
    if level == 0 {
        assert(LEVELS@[0]@[1] != "WARN"@[1]);
        assert(LEVELS@[0]@.len() != "ERROR"@.len());
    } else if level == 3 {
        assert(LEVELS@[3]@.len() != "WARN"@.len());
        assert(LEVELS@[3]@[0] != "ERROR"@[0]);
    } else if level == 4 {
        assert(LEVELS@[4]@.len() != "WARN"@.len());
        assert(LEVELS@[4]@[0] != "ERROR"@[0]);
    }
}

/// The name that a pod's suffix is derived from: `app/replica_set/pod`.
pub open spec fn pod_key_text(app: nat, rs: nat, pod: nat) -> Seq<char> {
    dec(app) + "/"@ + dec(rs) + "/"@ + dec(pod)
}

/// `<app>-<replica set hash>-<first five hex digits of the key's UUID>`.
pub open spec fn pod_name_text(app: int, rs: int, pod: int) -> Seq<char> {
    APPS@[app]@ + "-"@ + REPLICASET_HASHES@[rs]@ + "-"@ + hex_of_bytes(
        uuid_v5_oid(pod_key_text(app as nat, rs as nat, pod as nat)),
    ).take(5)
}

/// The pod name of app `app`, replica set `rs`, pod `pod`.
pub fn pod_name(app: usize, rs: usize, pod: usize) -> (r: String)
    requires
        app < 8,
        rs < 3,
    ensures
        r@ == pod_name_text(app as int, rs as int, pod as int),
        uuid_v5_oid(pod_key_text(app as nat, rs as nat, pod as nat)).len() == 16,
{
    let mut key = String::new();
    push_dec(&mut key, app as u64);
    key.append("/");
    push_dec(&mut key, rs as u64);
    key.append("/");
    push_dec(&mut key, pod as u64);
    assert(key@ =~= pod_key_text(app as nat, rs as nat, pod as nat));
    let id = uuid_v5_oid_simple(key.as_str());
    proof {
        lemma_hex_of_bytes(uuid_v5_oid(key@));
    }
    let suffix = id.as_str().substring_ascii(0, 5);
    let mut r = APPS[app].to_owned();
    r.append("-");
    r.append(REPLICASET_HASHES[rs]);
    r.append("-");
    r.append(suffix);
    assert(id@.subrange(0, 5) =~= id@.take(5));
    assert(r@ =~= pod_name_text(app as int, rs as int, pod as int));
    r
}

/// `10.<app+1>.<rs+1>.<pod+10>`.
pub open spec fn pod_ip_text(app: nat, rs: nat, pod: nat) -> Seq<char> {
    "10."@ + dec(app + 1) + "."@ + dec(rs + 1) + "."@ + dec(pod + 10)
}

fn pod_ip(app: usize, rs: usize, pod: usize) -> (r: String)
    requires
        app < 8,
        rs < 3,
        pod < 1024,
    ensures
        r@ == pod_ip_text(app as nat, rs as nat, pod as nat),
{
    let mut r = String::new();
    r.append("10.");
    push_dec(&mut r, (app + 1) as u64);
    r.append(".");
    push_dec(&mut r, (rs + 1) as u64);
    r.append(".");
    push_dec(&mut r, (pod + 10) as u64);
    assert(r@ =~= pod_ip_text(app as nat, rs as nat, pod as nat));
    r
}

/// The address of client identity `client`: the first octet is chosen by
/// `client % 16`, the others are the low 24 bits of `client / 16`.
pub open spec fn client_ip_text(client: usize) -> Seq<char> {
    let rem = (client / 16) as u32;
    dec(CLIENT_FIRST_OCTETS@[(client % 16) as int] as nat) + "."@ + dec(((rem / 65536) & 0xff) as nat) + "."@
        + dec(((rem >> 8u32) & 0xff) as nat) + "."@ + dec((rem & 0xff) as nat)
}

/// The dotted-quad text of the IPv4 address `a.b.c.d`.
pub open spec fn ipv4_text(a: nat, b: nat, c: nat, d: nat) -> Seq<char> {
    dec(a) + "."@ + dec(b) + "."@ + dec(c) + "."@ + dec(d)
}

/// Equal address texts have equal octets.
pub proof fn lemma_ipv4_text_injective(a: nat, b: nat, c: nat, d: nat, a2: nat, b2: nat, c2: nat, d2: nat)
    requires
        ipv4_text(a, b, c, d) == ipv4_text(a2, b2, c2, d2),
    ensures
        a == a2 && b == b2 && c == c2 && d == d2,
{
    assert(ipv4_text(a, b, c, d) =~= dec(a) + "."@ + (dec(b) + "."@ + (dec(c) + "."@ + dec(d))));
    assert(ipv4_text(a2, b2, c2, d2) =~= dec(a2) + "."@ + (dec(b2) + "."@ + (dec(c2) + "."@ + dec(d2))));
    lemma_dec_dot_split(a, dec(b) + "."@ + (dec(c) + "."@ + dec(d)), a2, dec(b2) + "."@ + (dec(c2) + "."@ + dec(d2)));
    lemma_dec_dot_split(b, dec(c) + "."@ + dec(d), b2, dec(c2) + "."@ + dec(d2));
    lemma_dec_dot_split(c, dec(d), c2, dec(d2));
    lemma_dec_injective(d, d2);
}

/// Pod addresses: `10.<app + 1>.<replica set + 1>.<pod + 10>` for every
/// app, replica set and pod.
pub proof fn law_pod_ip_octets(app: nat, rs: nat, pod: nat)
    ensures
        pod_ip_text(app, rs, pod) == ipv4_text(10, app + 1, rs + 1, pod + 10),
{
    reveal_strlit("10.");
    reveal_strlit(".");
    assert(dec(1) =~= seq!['1']);
    assert(dec(10) =~= seq!['1', '0']);
    assert(pod_ip_text(app, rs, pod) =~= ipv4_text(10, app + 1, rs + 1, pod + 10));
}

/// Distinct pods (app, replica set, pod) get distinct addresses.
pub proof fn law_pod_ips_distinct(app: nat, rs: nat, pod: nat, app2: nat, rs2: nat, pod2: nat)
    requires
        app != app2 || rs != rs2 || pod != pod2,
    ensures
        pod_ip_text(app, rs, pod) != pod_ip_text(app2, rs2, pod2),
{
    law_pod_ip_octets(app, rs, pod);
    law_pod_ip_octets(app2, rs2, pod2);
    if pod_ip_text(app, rs, pod) == pod_ip_text(app2, rs2, pod2) {
        lemma_ipv4_text_injective(10, app + 1, rs + 1, pod + 10, 10, app2 + 1, rs2 + 1, pod2 + 10);
    }
}

/// Client addresses: the first octet is `CLIENT_FIRST_OCTETS[client % 16]`,
/// the other three are the three bytes of `client / 16` (modulo 2^24), most
/// significant first.
pub proof fn law_client_ip_octets(client: usize)
    ensures
        ({
            let q = (client / 16) as int % 0x100_0000;
            client_ip_text(client) == ipv4_text(
                CLIENT_FIRST_OCTETS@[(client % 16) as int] as nat,
                (q / 65536) as nat,
                (q / 256 % 256) as nat,
                (q % 256) as nat,
            )
        }),
{
    let rem = (client / 16) as u32;
    let x: usize = client / 16;
    assert(((x as u32) % 0x100_0000) as usize == x % 0x100_0000) by (bit_vector);
    assert((rem / 65536) & 0xff == (rem % 0x100_0000) / 65536) by (bit_vector);
    assert((rem >> 8u32) & 0xff == (rem % 0x100_0000) / 256 % 256) by (bit_vector);
    assert(rem & 0xff == (rem % 0x100_0000) % 256) by (bit_vector);
}

/// Distinct clients below `16 * 2^24` get distinct addresses: no two client
/// identities of a run share an IP.
pub proof fn law_client_ips_distinct(c1: usize, c2: usize)
    requires
        c1 != c2,
        c1 < 0x1000_0000,
        c2 < 0x1000_0000,
    ensures
        client_ip_text(c1) != client_ip_text(c2),
{
    law_client_ip_octets(c1);
    law_client_ip_octets(c2);
    if client_ip_text(c1) == client_ip_text(c2) {
        let q1 = (c1 / 16) as int % 0x100_0000;
        let q2 = (c2 / 16) as int % 0x100_0000;
        lemma_ipv4_text_injective(
            CLIENT_FIRST_OCTETS@[(c1 % 16) as int] as nat,
            (q1 / 65536) as nat,
            (q1 / 256 % 256) as nat,
            (q1 % 256) as nat,
            CLIENT_FIRST_OCTETS@[(c2 % 16) as int] as nat,
            (q2 / 65536) as nat,
            (q2 / 256 % 256) as nat,
            (q2 % 256) as nat,
        );
        assert(q1 == q1 / 65536 * 65536 + q1 / 256 % 256 * 256 + q1 % 256);
        assert(q2 == q2 / 65536 * 65536 + q2 / 256 % 256 * 256 + q2 % 256);
        assert(c1 % 16 == c2 % 16);
        assert(c1 == 16 * (c1 / 16) + c1 % 16);
        assert(c2 == 16 * (c2 / 16) + c2 % 16);
    }
}

fn client_ip(client: usize) -> (r: String)
    ensures
        r@ == client_ip_text(client),
{
    let first = CLIENT_FIRST_OCTETS[client % 16];
    let rem = (client / 16) as u32;
    let mut r = String::new();
    push_dec(&mut r, first as u64);
    r.append(".");
    push_dec(&mut r, ((rem / 65536) & 0xff) as u64);
    r.append(".");
    push_dec(&mut r, ((rem >> 8u32) & 0xff) as u64);
    r.append(".");
    push_dec(&mut r, (rem & 0xff) as u64);
    assert(r@ =~= client_ip_text(client));
    r
}

/// The trace id of trace `t`: the UUID of its decimal numeral, as 32 hex digits.
pub open spec fn trace_id_text(t: nat) -> Seq<char> {
    hex_of_bytes(uuid_v5_oid(dec(t)))
}

fn trace_id(t: usize) -> (r: String)
    ensures
        r@ == trace_id_text(t as nat),
        uuid_v5_oid(dec(t as nat)).len() == 16,
        r@.len() == 32,
{
    let mut key = String::new();
    push_dec(&mut key, t as u64);
    assert(key@ =~= dec(t as nat));
    uuid_v5_oid_simple(key.as_str())
}

/// One benchmark record.
pub struct LogRecord {
    pub timestamp_us: u64,
    pub level: String,
    pub message: String,
    pub host: String,
    pub stream: String,
    pub namespace: String,
    pub pod_name: String,
    pub container: String,
    pub node: String,
    pub app: String,
    pub version: String,
    pub pod_ip: String,
    pub trace_id: String,
    pub span_id: String,
    pub request_id: String,
    pub http_method: String,
    pub http_path: String,
    pub http_status: u16,
    pub http_latency_ms: u32,
    pub http_bytes_out: u32,
    pub client_ip: String,
    pub ja3: String,
    pub user_id: String,
    pub session_id: String,
    pub region: String,
    pub zone: String,
    pub cluster: String,
}

/// The values drawn inside `make_record`.
pub struct RecordDraws {
    pub status: int,
    pub status_draw: int,
    pub latency_ms: nat,
    pub bytes_out: nat,
    pub trace: nat,
    pub span: Seq<u8>,
    pub client: usize,
    pub ja3: nat,
    pub request: Seq<u8>,
    pub message: MessageDraws,
    pub user: nat,
    pub session: Seq<u8>,
    pub region: int,
    pub region_draw: int,
    pub zone: int,
    pub zone_draw: int,
    pub cluster: int,
    pub cluster_draw: int,
}

/// Weighted draw `draw` selects entry `i`.
pub open spec fn weighted_choice(w: Seq<u32>, i: int, draw: int) -> bool {
    0 <= draw < weight_total(w) && 0 <= i < w.len() && in_slot(w, i, draw)
}

impl RecordDraws {
    pub open spec fn valid(
        self,
        trace_universe: nat,
        ip_universe: nat,
        ja3_universe: nat,
        alert: bool,
    ) -> bool {
        &&& weighted_choice(STATUS_WEIGHTS@, self.status, self.status_draw)
        &&& 1 <= self.latency_ms < 1500
        &&& 64 <= self.bytes_out < 32_768
        &&& self.trace < trace_universe
        &&& self.span.len() == 8
        &&& self.client < ip_universe
        &&& self.ja3 < ja3_universe
        &&& self.request.len() == 16
        &&& self.message.valid(alert)
        &&& 1 <= self.user < 100_000
        &&& self.session.len() == 8
        &&& weighted_choice(REGION_WEIGHTS@, self.region, self.region_draw)
        &&& weighted_choice(ZONE_WEIGHTS@, self.zone, self.zone_draw)
        &&& weighted_choice(CLUSTER_WEIGHTS@, self.cluster, self.cluster_draw)
    }
}

/// The message: the body, then the record's trace, span and request ids.
pub open spec fn message_text(body: Seq<char>, trace: Seq<char>, span: Seq<char>, request: Seq<char>) -> Seq<
    char,
> {
    body + " | trace_id="@ + trace + " span_id="@ + span + " x_request_id="@ + request
}

impl LogRecord {
    /// The record made at `timestamp_us` from the picks, the head and the draws.
    pub open spec fn fits(
        &self,
        timestamp_us: u64,
        picks: ZipfPicks,
        head: RecordHead,
        d: RecordDraws,
    ) -> bool {
        let app = APPS@[picks.app as int]@;
        let pod = pod_name_text(picks.app as int, picks.replica_set as int, picks.pod as int);
        let namespace = NAMESPACES@[picks.namespace as int]@;
        let trace = trace_id_text(d.trace);
        let span = hex_of_bytes(d.span);
        let request = hex_of_bytes(d.request);
        &&& self.timestamp_us == timestamp_us
        &&& uuid_v5_oid(pod_key_text(picks.app as nat, picks.replica_set as nat, picks.pod as nat)).len() == 16
        &&& uuid_v5_oid(dec(d.trace)).len() == 16
        &&& self.level@ == LEVELS@[head.level as int]@
        &&& self.message@ == message_text(
            d.message.text(is_alert_level(head.level as int)),
            trace,
            span,
            request,
        )
        &&& self.host@ == pod + "."@ + namespace + ".svc.cluster.local"@
        &&& self.stream@ == STREAMS@[head.stream as int]@
        &&& self.namespace@ == namespace
        &&& self.pod_name@ == pod
        &&& self.container@ == app + "-container"@
        &&& self.node@ == NODES@[head.node as int]@
        &&& self.app@ == app
        &&& self.version@ == APP_VERSIONS@[picks.app as int]@[picks.replica_set as int]@
        &&& self.pod_ip@ == pod_ip_text(picks.app as nat, picks.replica_set as nat, picks.pod as nat)
        &&& self.trace_id@ == trace
        &&& self.span_id@ == span
        &&& self.request_id@ == request
        &&& self.http_method@ == METHODS@[head.method as int]@
        &&& self.http_path@ == PATHS@[picks.path as int]@
        &&& self.http_status == STATUS@[d.status]
        &&& self.http_latency_ms == d.latency_ms
        &&& self.http_bytes_out == d.bytes_out
        &&& self.client_ip@ == client_ip_text(d.client)
        &&& self.ja3@ == hex_fixed(d.ja3, 32)
        &&& self.user_id@ == "u_"@ + dec(d.user)
        &&& self.session_id@ == hex_of_bytes(d.session)
        &&& self.region@ == REGIONS@[d.region]@
        &&& self.zone@ == "az-"@ + dec(ZONES@[d.zone] as nat)
        &&& self.cluster@ == CLUSTERS@[d.cluster]@
    }
}

fn concat3(a: &str, b: &str, c: &str) -> (r: String)
    ensures
        r@ == a@ + b@ + c@,
{
    let mut r = a.to_owned();
    r.append(b);
    r.append(c);
    r
}

/// One record at `timestamp_us`, given the caller's Zipf picks and the head
/// drawn by `draw_head`; the universes bound the trace, client and JA3 draws.
pub fn make_record(
    rng: &mut ChaCha8Rng,
    timestamp_us: u64,
    trace_universe: usize,
    ip_universe: usize,
    ja3_universe: usize,
    picks: &ZipfPicks,
    head: &RecordHead,
) -> (rec: LogRecord)
    requires
        picks.valid(),
        head.valid(),
        trace_universe > 0,
        ip_universe > 0,
        ja3_universe > 0,
    ensures
        exists|d: RecordDraws|
            d.valid(
                trace_universe as nat,
                ip_universe as nat,
                ja3_universe as nat,
                is_alert_level(head.level as int),
            ) && rec.fits(timestamp_us, *picks, *head, d),
{
    reveal_with_fuel(weight_total, 12);
    let app = APPS[picks.app];
    let pod = pod_name(picks.app, picks.replica_set, picks.pod);
    let mut container = app.to_owned();
    container.append("-container");
    let namespace = NAMESPACES[picks.namespace];
    let si = weighted_pick_index(rng, STATUS_WEIGHTS.as_slice());
    let ghost sd = choose|d: int| 0 <= d < weight_total(STATUS_WEIGHTS@) && in_slot(STATUS_WEIGHTS@, si as int, d);
    let status = STATUS[si];
    let latency_ms = gen_range_u32(rng, 1, 1500);
    let bytes_out = gen_range_u32(rng, 64, 32_768);
    let mut host = concat3(pod.as_str(), ".", namespace);
    host.append(".svc.cluster.local");
    let t = gen_range_usize(rng, 0, trace_universe);
    let trace = trace_id(t);
    let span = hex_id(rng, 8);
    let ghost span_bytes = choose|bs: Seq<u8>| bs.len() == 8 && span@ == hex_of_bytes(bs);
    let client = gen_range_usize(rng, 0, ip_universe);
    let cip = client_ip(client);
    let ja3v = gen_range_u128(rng, 0, ja3_universe as u128);
    let mut ja3 = String::new();
    push_hex_fixed(&mut ja3, ja3v, 32);
    let req = hex_id(rng, 16);
    let ghost req_bytes = choose|bs: Seq<u8>| bs.len() == 16 && req@ == hex_of_bytes(bs);
    proof {
        lemma_alert_level(head.level as int);
    }
    let alert = head.level == 1 || head.level == 2;
    let mut message = rand_message_body(rng, alert);
    let ghost body = message@;
    let ghost md = choose|m: MessageDraws| m.valid(alert) && body == m.text(alert);
    message.append(" | trace_id=");
    message.append(trace.as_str());
    message.append(" span_id=");
    message.append(span.as_str());
    message.append(" x_request_id=");
    message.append(req.as_str());
    let user = gen_range_u32(rng, 1, 100_000);
    let mut user_id = String::new();
    user_id.append("u_");
    push_dec(&mut user_id, user as u64);
    let session = hex_id(rng, 8);
    let ghost session_bytes = choose|bs: Seq<u8>| bs.len() == 8 && session@ == hex_of_bytes(bs);
    let ri = weighted_pick_index(rng, REGION_WEIGHTS.as_slice());
    let ghost rd = choose|d: int| 0 <= d < weight_total(REGION_WEIGHTS@) && in_slot(REGION_WEIGHTS@, ri as int, d);
    let zi = weighted_pick_index(rng, ZONE_WEIGHTS.as_slice());
    let ghost zd = choose|d: int| 0 <= d < weight_total(ZONE_WEIGHTS@) && in_slot(ZONE_WEIGHTS@, zi as int, d);
    let mut zone = String::new();
    zone.append("az-");
    push_dec(&mut zone, ZONES[zi] as u64);
    let ci = weighted_pick_index(rng, CLUSTER_WEIGHTS.as_slice());
    let ghost cd = choose|d: int| 0 <= d < weight_total(CLUSTER_WEIGHTS@) && in_slot(CLUSTER_WEIGHTS@, ci as int, d);
    let rec = LogRecord {
        timestamp_us,
        level: LEVELS[head.level].to_owned(),
        message,
        host,
        stream: STREAMS[head.stream].to_owned(),
        namespace: namespace.to_owned(),
        pod_name: pod,
        container,
        node: NODES[head.node].to_owned(),
        app: app.to_owned(),
        version: APP_VERSIONS[picks.app][picks.replica_set].to_owned(),
        pod_ip: pod_ip(picks.app, picks.replica_set, picks.pod),
        trace_id: trace,
        span_id: span,
        request_id: req,
        http_method: METHODS[head.method].to_owned(),
        http_path: PATHS[picks.path].to_owned(),
        http_status: status,
        http_latency_ms: latency_ms,
        http_bytes_out: bytes_out,
        client_ip: cip,
        ja3,
        user_id,
        session_id: session,
        region: REGIONS[ri].to_owned(),
        zone,
        cluster: CLUSTERS[ci].to_owned(),
    };
    let ghost d = RecordDraws {
        status: si as int,
        status_draw: sd,
        latency_ms: latency_ms as nat,
        bytes_out: bytes_out as nat,
        trace: t as nat,
        span: span_bytes,
        client,
        ja3: ja3v as nat,
        request: req_bytes,
        message: md,
        user: user as nat,
        session: session_bytes,
        region: ri as int,
        region_draw: rd,
        zone: zi as int,
        zone_draw: zd,
        cluster: ci as int,
        cluster_draw: cd,
    };
    assert(rec.message@ =~= message_text(body, trace_id_text(t as nat), span@, req@));
    assert(rec.host@ =~= pod_name_text(picks.app as int, picks.replica_set as int, picks.pod as int) + "."@ + NAMESPACES@[picks.namespace as int]@ + ".svc.cluster.local"@);
    assert(rec.container@ =~= APPS@[picks.app as int]@ + "-container"@);
    assert(rec.user_id@ =~= "u_"@ + dec(user as nat));
    assert(rec.zone@ =~= "az-"@ + dec(ZONES@[zi as int] as nat));
    assert(d.valid(trace_universe as nat, ip_universe as nat, ja3_universe as nat, alert));
    assert(rec.fits(timestamp_us, *picks, *head, d));
    rec
}

/// A field value of a serialised record.
pub enum FieldValue {
    Text(String),
    Number(u64),
}

/// The JSON keys of a record, in order.
pub const RECORD_KEYS: [&'static str; 27] = [
    "_timestamp",
    "level",
    "message",
    "host",
    "stream",
    "kubernetes_namespace_name",
    "kubernetes_pod_name",
    "kubernetes_container_name",
    "kubernetes_node_name",
    "kubernetes_labels_app",
    "kubernetes_labels_version",
    "kubernetes_pod_ip",
    "trace_id",
    "span_id",
    "request_id",
    "http_method",
    "http_path",
    "http_status",
    "http_latency_ms",
    "http_bytes_out",
    "client_ip",
    "ja3",
    "user_id",
    "session_id",
    "region",
    "zone",
    "cluster",
];

impl LogRecord {
    /// The values of the record, in the order of `RECORD_KEYS`.
    pub open spec fn values(self) -> Seq<FieldValue> {
        seq![
            FieldValue::Number(self.timestamp_us),
            FieldValue::Text(self.level),
            FieldValue::Text(self.message),
            FieldValue::Text(self.host),
            FieldValue::Text(self.stream),
            FieldValue::Text(self.namespace),
            FieldValue::Text(self.pod_name),
            FieldValue::Text(self.container),
            FieldValue::Text(self.node),
            FieldValue::Text(self.app),
            FieldValue::Text(self.version),
            FieldValue::Text(self.pod_ip),
            FieldValue::Text(self.trace_id),
            FieldValue::Text(self.span_id),
            FieldValue::Text(self.request_id),
            FieldValue::Text(self.http_method),
            FieldValue::Text(self.http_path),
            FieldValue::Number(self.http_status as u64),
            FieldValue::Number(self.http_latency_ms as u64),
            FieldValue::Number(self.http_bytes_out as u64),
            FieldValue::Text(self.client_ip),
            FieldValue::Text(self.ja3),
            FieldValue::Text(self.user_id),
            FieldValue::Text(self.session_id),
            FieldValue::Text(self.region),
            FieldValue::Text(self.zone),
            FieldValue::Text(self.cluster),
        ]
    }

    /// The record as (key, value) pairs in the order the JSON object lists them.
    pub fn into_fields(self) -> (r: Vec<(&'static str, FieldValue)>)
        ensures
            r@.len() == 27,
            forall|i: int| 0 <= i < 27 ==> #[trigger] r@[i] == (RECORD_KEYS@[i], self.values()[i]),
    {
        let ghost vals = self.values();
        let r = vec![
            (RECORD_KEYS[0], FieldValue::Number(self.timestamp_us)),
            (RECORD_KEYS[1], FieldValue::Text(self.level)),
            (RECORD_KEYS[2], FieldValue::Text(self.message)),
            (RECORD_KEYS[3], FieldValue::Text(self.host)),
            (RECORD_KEYS[4], FieldValue::Text(self.stream)),
            (RECORD_KEYS[5], FieldValue::Text(self.namespace)),
            (RECORD_KEYS[6], FieldValue::Text(self.pod_name)),
            (RECORD_KEYS[7], FieldValue::Text(self.container)),
            (RECORD_KEYS[8], FieldValue::Text(self.node)),
            (RECORD_KEYS[9], FieldValue::Text(self.app)),
            (RECORD_KEYS[10], FieldValue::Text(self.version)),
            (RECORD_KEYS[11], FieldValue::Text(self.pod_ip)),
            (RECORD_KEYS[12], FieldValue::Text(self.trace_id)),
            (RECORD_KEYS[13], FieldValue::Text(self.span_id)),
            (RECORD_KEYS[14], FieldValue::Text(self.request_id)),
            (RECORD_KEYS[15], FieldValue::Text(self.http_method)),
            (RECORD_KEYS[16], FieldValue::Text(self.http_path)),
            (RECORD_KEYS[17], FieldValue::Number(self.http_status as u64)),
            (RECORD_KEYS[18], FieldValue::Number(self.http_latency_ms as u64)),
            (RECORD_KEYS[19], FieldValue::Number(self.http_bytes_out as u64)),
            (RECORD_KEYS[20], FieldValue::Text(self.client_ip)),
            (RECORD_KEYS[21], FieldValue::Text(self.ja3)),
            (RECORD_KEYS[22], FieldValue::Text(self.user_id)),
            (RECORD_KEYS[23], FieldValue::Text(self.session_id)),
            (RECORD_KEYS[24], FieldValue::Text(self.region)),
            (RECORD_KEYS[25], FieldValue::Text(self.zone)),
            (RECORD_KEYS[26], FieldValue::Text(self.cluster)),
        ];
        assert(r@ =~= RECORD_KEYS@.zip_with(vals));
        r
    }
}

} // verus!
