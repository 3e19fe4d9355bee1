//! Log line templates: each fills a fixed skeleton with randomly drawn slot
//! values, and `generate_log_line` chooses among them by fixed weights.
//!
//! For every template, `*_text` says what the line is for given slot values,
//! `valid` which slot values can be drawn, and `is_*_line` that a line is the
//! text of some valid choice: the contracts fix exactly which lines can come out.
use rand_chacha::ChaCha8Rng;
use vstd::prelude::*;
use vstd::set_lib::*;

use crate::rng::{gen_range_u32, gen_range_u64, gen_ratio};
use crate::sampling::pick;
use crate::stamps::{
    is_glog_ts, is_ip, is_iso_ts, is_nginx_ts, is_uuid, rand_glog_ts, rand_hex, rand_ip,
    rand_nginx_ts, rand_parquet_id, rand_timestamp_iso, rand_uuid,
};
use crate::text::{
    chars_of, contains_chars, dec, dec_pad, has_substring, pow10, push_dec, push_dec_pad,
    replace_all, replaced,
};
use crate::vocab::{
    API_PATH_TEMPLATES, COMPONENTS, CPU_COUNTS, LEVELS_UPPER, QUERIER_KINDS, QUERY_LIMITS, ROLES,
    RUST_MODULE_PATHS, DB_NAMES, DB_OPS, DB_TABLES, EXCEPTIONS, GLOG_PREFIX,
    GO_MODULE_PATHS, GRPC_AUTHORITIES, GRPC_CODES, GRPC_METHODS, GRPC_SERVICES, HTTP_METHODS,
    HTTP_STATUSES, HTTP_VERSIONS, K8S_PLURALS, K8S_RESOURCES, KLOG_FUNCS, LEVELS_LOWER, NAMESPACES,
    NGINX_REFERERS, NGINX_USER_AGENTS, ORG_NAMES, SERVICE_ACCOUNTS, SIMPLE_MESSAGES, STACK_FRAMES,
    STREAM_NAMES,
};

verus! {

/// Picks from a table of strings, keeping the index for the proofs.
fn pick_str(rng: &mut ChaCha8Rng, xs: &[&'static str]) -> (r: (&'static str, Ghost<int>))
    requires
        xs@.len() > 0,
    ensures
        0 <= r.1@ < xs@.len(),
        r.0 == xs@[r.1@],
{
    let p = pick(rng, xs);
    let ghost i = choose|i: int| 0 <= i < xs@.len() && *p == xs@[i];
    (*p, Ghost(i))
}

/// `n / 10^places` printed with `places` decimals: what `{:.places$}` prints
/// for the float `n as f64 / 10^places` when `n` is small.
pub open spec fn decimal_fraction(n: nat, places: nat) -> Seq<char> {
    dec(n / pow10(places)) + "."@ + dec_pad(n % pow10(places), places)
}

/// Appends `n / 100` with two decimals.
pub fn push_centis(s: &mut String, n: u32)
    ensures
        final(s)@ == old(s)@ + decimal_fraction(n as nat, 2),
{
    assert(pow10(2) == 100) by {
        reveal_with_fuel(pow10, 3);
    }
    push_dec(s, (n / 100) as u64);
    s.append(".");
    push_dec_pad(s, (n % 100) as u64, 2);
    assert(s@ =~= old(s)@ + decimal_fraction(n as nat, 2));
}

/// Appends `n / 1000` with three decimals.
pub fn push_millis(s: &mut String, n: u32)
    ensures
        final(s)@ == old(s)@ + decimal_fraction(n as nat, 3),
{
    assert(pow10(3) == 1000) by {
        reveal_with_fuel(pow10, 4);
    }
    push_dec(s, (n / 1000) as u64);
    s.append(".");
    push_dec_pad(s, (n % 1000) as u64, 3);
    assert(s@ =~= old(s)@ + decimal_fraction(n as nat, 3));
}

// ---------------------------------------------------------------- API paths

/// `tpl` with `{org}` filled by organisation `org`; then, where `{stream}`
/// remains, filled by stream `stream`; then, where `{uuid}` remains, by `uuid`.
/// A slot that does not occur draws nothing.
pub open spec fn api_path_text(tpl: Seq<char>, org: int, stream: int, uuid: Seq<char>) -> Seq<char> {
    let a = replaced(tpl, "{org}"@, ORG_NAMES@[org]@);
    let b = if has_substring(a, "{stream}"@) {
        replaced(a, "{stream}"@, STREAM_NAMES@[stream]@)
    } else {
        a
    };
    if has_substring(b, "{uuid}"@) {
        replaced(b, "{uuid}"@, uuid)
    } else {
        b
    }
}

pub open spec fn is_api_path(tpl: Seq<char>, p: Seq<char>) -> bool {
    exists|org: int, stream: int, uuid: Seq<char>|
        0 <= org < 12 && 0 <= stream < 14 && is_uuid(uuid) && p == #[trigger] api_path_text(
            tpl,
            org,
            stream,
            uuid,
        )
}

/// Fills the `{org}`, `{stream}` and `{uuid}` slots of an API path template.
pub fn fill_api_path(rng: &mut ChaCha8Rng, tpl: &str) -> (r: String)
    ensures
        is_api_path(tpl@, r@),
{
    proof {
        reveal_strlit("{org}");
        reveal_strlit("{stream}");
        reveal_strlit("{uuid}");
    }
    let (org, Ghost(oi)) = pick_str(rng, ORG_NAMES.as_slice());
    let mut out = replace_all(tpl, "{org}", org);
    let ghost a = out@;
    let mut si: Ghost<int> = Ghost(0);
    let stream_pat = chars_of("{stream}");
    if contains_chars(&chars_of(out.as_str()), &stream_pat) {
        let (stream, Ghost(k)) = pick_str(rng, STREAM_NAMES.as_slice());
        si = Ghost(k);
        out = replace_all(out.as_str(), "{stream}", stream);
    }
    let ghost b = out@;
    let mut uu: Ghost<Seq<char>> = Ghost(uuid_witness());
    let uuid_pat = chars_of("{uuid}");
    if contains_chars(&chars_of(out.as_str()), &uuid_pat) {
        let u = rand_uuid(rng);
        uu = Ghost(u@);
        out = replace_all(out.as_str(), "{uuid}", u.as_str());
    }
    assert(is_api_path(tpl@, out@)) by {
        assert(out@ == api_path_text(tpl@, oi, si@, uu@));
    }
    out
}

/// Some UUID text (all zero bytes), for slots that draw none.
pub open spec fn uuid_witness() -> Seq<char> {
    crate::stamps::uuid_text(Seq::new(16, |i: int| 0u8))
}

// ---------------------------------------------------------------- simple

pub open spec fn is_simple_line(s: Seq<char>) -> bool {
    exists|i: int| 0 <= i < 40 && s == #[trigger] SIMPLE_MESSAGES@[i]@
}

/// One of the fixed plain messages.
pub fn tpl_simple(rng: &mut ChaCha8Rng) -> (r: String)
    ensures
        is_simple_line(r@),
{
    let (m, Ghost(i)) = pick_str(rng, SIMPLE_MESSAGES.as_slice());
    let r = m.to_owned();
    assert(r@ == SIMPLE_MESSAGES@[i]@);
    r
}

// ---------------------------------------------------------------- exception

/// `exception="<exc>" stack="<f1> | <f2> | <f3>"`.
pub open spec fn exception_text(exc: int, f1: int, f2: int, f3: int) -> Seq<char> {
    "exception=\""@ + EXCEPTIONS@[exc]@ + "\" stack=\""@ + STACK_FRAMES@[f1]@ + " | "@
        + STACK_FRAMES@[f2]@ + " | "@ + STACK_FRAMES@[f3]@ + "\""@
}

#[verifier::opaque]
pub open spec fn is_exception_line(s: Seq<char>) -> bool {
    exists|exc: int, f1: int, f2: int, f3: int|
        0 <= exc < 10 && 0 <= f1 < 8 && 0 <= f2 < 8 && 0 <= f3 < 8 && s == #[trigger] exception_text(
            exc,
            f1,
            f2,
            f3,
        )
}

/// An exception with three stack frames.
pub fn tpl_exception(rng: &mut ChaCha8Rng) -> (r: String)
    ensures
        is_exception_line(r@),
{
    let (exc, Ghost(e)) = pick_str(rng, EXCEPTIONS.as_slice());
    let (f1, Ghost(i1)) = pick_str(rng, STACK_FRAMES.as_slice());
    let (f2, Ghost(i2)) = pick_str(rng, STACK_FRAMES.as_slice());
    let (f3, Ghost(i3)) = pick_str(rng, STACK_FRAMES.as_slice());
    let mut s = String::new();
    s.append("exception=\"");
    s.append(exc);
    s.append("\" stack=\"");
    s.append(f1);
    s.append(" | ");
    s.append(f2);
    s.append(" | ");
    s.append(f3);
    s.append("\"");
    assert(s@ =~= exception_text(e, i1, i2, i3));
    reveal(is_exception_line);
    s
}

// ---------------------------------------------------------------- database query

/// The slot values of a database query line.
pub struct DbQuery {
    pub table: int,
    pub op: int,
    pub took_centis: nat,
    pub rows: nat,
    pub id: nat,
    pub db: int,
    pub tenant: int,
    pub trace: Seq<char>,
}

impl DbQuery {
    pub open spec fn valid(self) -> bool {
        &&& 0 <= self.table < 16
        &&& 0 <= self.op < 5
        &&& 1 <= self.took_centis < 5000
        &&& self.rows < 50_000
        &&& 1 <= self.id < 1_000_000
        &&& 0 <= self.db < 5
        &&& 0 <= self.tenant < 12
        &&& is_hex_text(self.trace, 16)
    }

    /// `query=<op> table=<t> rows=<n> took_ms=<x.xx> where id=<id> db=<db> pool=primary tenant=<org> trace_id=<hex>`.
    pub open spec fn text(self) -> Seq<char> {
        "query="@ + DB_OPS@[self.op]@ + " table="@ + DB_TABLES@[self.table]@ + " rows="@ + dec(
            self.rows,
        ) + " took_ms="@ + decimal_fraction(self.took_centis, 2) + " where id="@ + dec(self.id)
            + " db="@ + DB_NAMES@[self.db]@ + " pool=primary tenant="@ + ORG_NAMES@[self.tenant]@
            + " trace_id="@ + self.trace
    }
}

/// `len` lowercase hexadecimal digits.
pub open spec fn is_hex_text(s: Seq<char>, len: nat) -> bool {
    s.len() == len && forall|i: int| 0 <= i < len ==> crate::stamps::is_hex_char(#[trigger] s[i])
}

pub open spec fn is_db_query_line(s: Seq<char>) -> bool {
    exists|q: DbQuery| q.valid() && s == #[trigger] q.text()
}

/// A database query summary line.
pub fn tpl_db_query(rng: &mut ChaCha8Rng) -> (r: String)
    ensures
        is_db_query_line(r@),
{
    let (table, Ghost(ti)) = pick_str(rng, DB_TABLES.as_slice());
    let (op, Ghost(oi)) = pick_str(rng, DB_OPS.as_slice());
    let took = gen_range_u32(rng, 1, 5000);
    let rows = gen_range_u32(rng, 0, 50_000);
    let id = gen_range_u32(rng, 1, 1_000_000);
    let (db, Ghost(di)) = pick_str(rng, DB_NAMES.as_slice());
    let (tenant, Ghost(ni)) = pick_str(rng, ORG_NAMES.as_slice());
    let trace = rand_hex(rng, 16);
    let mut s = String::new();
    s.append("query=");
    s.append(op);
    s.append(" table=");
    s.append(table);
    s.append(" rows=");
    push_dec(&mut s, rows as u64);
    s.append(" took_ms=");
    push_centis(&mut s, took);
    s.append(" where id=");
    push_dec(&mut s, id as u64);
    s.append(" db=");
    s.append(db);
    s.append(" pool=primary tenant=");
    s.append(tenant);
    s.append(" trace_id=");
    s.append(trace.as_str());
    let ghost q = DbQuery {
        table: ti,
        op: oi,
        took_centis: took as nat,
        rows: rows as nat,
        id: id as nat,
        db: di,
        tenant: ni,
        trace: trace@,
    };
    assert(q.valid());
    assert(s@ =~= q.text());
    s
}

// ---------------------------------------------------------------- gRPC

/// The slot values of a gRPC access line.
pub struct GrpcCall {
    pub service: int,
    pub method: int,
    pub code: int,
    pub peer_ip: Seq<char>,
    pub peer_port: nat,
    pub duration_ms: nat,
    pub request_id: Seq<char>,
    pub authority: int,
}

impl GrpcCall {
    pub open spec fn valid(self) -> bool {
        &&& 0 <= self.service < 8
        &&& 0 <= self.method < 10
        &&& 0 <= self.code < 17
        &&& is_ip(self.peer_ip)
        &&& 20_000 <= self.peer_port < 60_000
        &&& 1 <= self.duration_ms < 2000
        &&& is_uuid(self.request_id)
        &&& 0 <= self.authority < 5
    }

    /// `grpc service=<s> method=<m> peer=<ip>:<port> duration_ms=<d> code=<c> request_id=<uuid> authority=<a>.svc.cluster.local`.
    pub open spec fn text(self) -> Seq<char> {
        "grpc service="@ + GRPC_SERVICES@[self.service]@ + " method="@
            + GRPC_METHODS@[self.method]@ + " peer="@ + self.peer_ip + ":"@ + dec(self.peer_port)
            + " duration_ms="@ + dec(self.duration_ms) + " code="@ + GRPC_CODES@[self.code]@
            + " request_id="@ + self.request_id + " authority="@
            + GRPC_AUTHORITIES@[self.authority]@ + ".svc.cluster.local"@
    }
}

pub open spec fn is_grpc_line(s: Seq<char>) -> bool {
    exists|g: GrpcCall| g.valid() && s == #[trigger] g.text()
}

/// A gRPC access line.
pub fn tpl_grpc(rng: &mut ChaCha8Rng) -> (r: String)
    ensures
        is_grpc_line(r@),
{
    let (svc, Ghost(si)) = pick_str(rng, GRPC_SERVICES.as_slice());
    let (m, Ghost(mi)) = pick_str(rng, GRPC_METHODS.as_slice());
    let (code, Ghost(ci)) = pick_str(rng, GRPC_CODES.as_slice());
    let ip = rand_ip(rng);
    let port = gen_range_u32(rng, 20_000, 60_000);
    let dur = gen_range_u32(rng, 1, 2000);
    let request_id = rand_uuid(rng);
    let (authority, Ghost(ai)) = pick_str(rng, GRPC_AUTHORITIES.as_slice());
    let mut s = String::new();
    s.append("grpc service=");
    s.append(svc);
    s.append(" method=");
    s.append(m);
    s.append(" peer=");
    s.append(ip.as_str());
    s.append(":");
    push_dec(&mut s, port as u64);
    s.append(" duration_ms=");
    push_dec(&mut s, dur as u64);
    s.append(" code=");
    s.append(code);
    s.append(" request_id=");
    s.append(request_id.as_str());
    s.append(" authority=");
    s.append(authority);
    s.append(".svc.cluster.local");
    let ghost g = GrpcCall {
        service: si,
        method: mi,
        code: ci,
        peer_ip: ip@,
        peer_port: port as nat,
        duration_ms: dur as nat,
        request_id: request_id@,
        authority: ai,
    };
    assert(g.valid());
    assert(s@ =~= g.text());
    s
}

// ---------------------------------------------------------------- nginx

/// The slot values of an nginx access line.
pub struct NginxAccess {
    pub ip: Seq<char>,
    pub masked_user: bool,
    pub ts: Seq<char>,
    pub method: int,
    pub path_tpl: int,
    pub path: Seq<char>,
    pub http_version: int,
    pub status: int,
    pub body_bytes: nat,
    pub referer: int,
    pub user_agent: int,
    pub request_length: nat,
    pub request_millis: nat,
    pub upstream_ip: Seq<char>,
    pub upstream_port: nat,
    pub upstream_millis: nat,
    pub hash: Seq<char>,
}

impl NginxAccess {
    pub open spec fn valid(self) -> bool {
        &&& is_ip(self.ip)
        &&& is_nginx_ts(self.ts)
        &&& 0 <= self.method < 7
        &&& 0 <= self.path_tpl < 29
        &&& is_api_path(API_PATH_TEMPLATES@[self.path_tpl]@, self.path)
        &&& 0 <= self.http_version < 3
        &&& 0 <= self.status < 19
        &&& 50 <= self.body_bytes < 30_000
        &&& 0 <= self.referer < 9
        &&& 0 <= self.user_agent < 14
        &&& 40 <= self.request_length < 3000
        &&& 1 <= self.request_millis < 2000
        &&& is_ip(self.upstream_ip)
        &&& 3000 <= self.upstream_port < 9000
        &&& self.upstream_millis < 2000
        &&& is_hex_text(self.hash, 32)
    }

    pub open spec fn user(self) -> Seq<char> {
        if self.masked_user {
            "*****@domain.com"@
        } else {
            "-"@
        }
    }

    /// The nginx combined format with the upstream fields of the ingress.
    pub open spec fn text(self) -> Seq<char> {
        let status = dec(HTTP_STATUSES@[self.status] as nat);
        self.ip + " - "@ + self.user() + " "@ + self.ts + " \""@ + HTTP_METHODS@[self.method]@ + " "@
            + self.path + " "@ + HTTP_VERSIONS@[self.http_version]@ + "\" "@ + status + " "@ + dec(
            self.body_bytes,
        ) + " \""@ + NGINX_REFERERS@[self.referer]@ + "\" \""@
            + NGINX_USER_AGENTS@[self.user_agent]@ + "\" "@ + dec(self.request_length) + " "@
            + decimal_fraction(self.request_millis, 3) + " [zinc-cp1-zinc-cp-4082] [] "@
            + self.upstream_ip + ":"@ + dec(self.upstream_port) + " "@ + dec(self.body_bytes) + " "@
            + decimal_fraction(self.upstream_millis, 3) + " "@ + status + " "@ + self.hash
    }
}

pub open spec fn is_nginx_access_line(s: Seq<char>) -> bool {
    exists|a: NginxAccess| a.valid() && s == #[trigger] a.text()
}

/// An nginx access line as the ingress controller writes it.
pub fn tpl_nginx_access(rng: &mut ChaCha8Rng) -> (r: String)
    ensures
        is_nginx_access_line(r@),
{
    let ip = rand_ip(rng);
    let masked = gen_ratio(rng, 1, 2);
    let user = if masked {
        "*****@domain.com"
    } else {
        "-"
    };
    let ts = rand_nginx_ts(rng);
    let (method, Ghost(mi)) = pick_str(rng, HTTP_METHODS.as_slice());
    let (path_tpl, Ghost(pi)) = pick_str(rng, API_PATH_TEMPLATES.as_slice());
    let path = fill_api_path(rng, path_tpl);
    let (http_ver, Ghost(vi)) = pick_str(rng, HTTP_VERSIONS.as_slice());
    let status = *pick(rng, HTTP_STATUSES.as_slice());
    let ghost si = choose|i: int| 0 <= i < 19 && status == HTTP_STATUSES@[i];
    let body_bytes = gen_range_u32(rng, 50, 30_000);
    let (referer, Ghost(ri)) = pick_str(rng, NGINX_REFERERS.as_slice());
    let (ua, Ghost(ui)) = pick_str(rng, NGINX_USER_AGENTS.as_slice());
    let req_len = gen_range_u32(rng, 40, 3000);
    let req_t = gen_range_u32(rng, 1, 2000);
    let upstream_ip = rand_ip(rng);
    let upstream_port = gen_range_u32(rng, 3000, 9000);
    let upstream_resp_t = gen_range_u32(rng, 0, 2000);
    let hash = rand_hex(rng, 32);
    let mut s = String::new();
    s.append(ip.as_str());
    s.append(" - ");
    s.append(user);
    s.append(" ");
    s.append(ts.as_str());
    s.append(" \"");
    s.append(method);
    s.append(" ");
    s.append(path.as_str());
    s.append(" ");
    s.append(http_ver);
    s.append("\" ");
    push_dec(&mut s, status as u64);
    s.append(" ");
    push_dec(&mut s, body_bytes as u64);
    s.append(" \"");
    s.append(referer);
    s.append("\" \"");
    s.append(ua);
    s.append("\" ");
    push_dec(&mut s, req_len as u64);
    s.append(" ");
    push_millis(&mut s, req_t);
    s.append(" [zinc-cp1-zinc-cp-4082] [] ");
    s.append(upstream_ip.as_str());
    s.append(":");
    push_dec(&mut s, upstream_port as u64);
    s.append(" ");
    push_dec(&mut s, body_bytes as u64);
    s.append(" ");
    push_millis(&mut s, upstream_resp_t);
    s.append(" ");
    push_dec(&mut s, status as u64);
    s.append(" ");
    s.append(hash.as_str());
    let ghost a = NginxAccess {
        ip: ip@,
        masked_user: masked,
        ts: ts@,
        method: mi,
        path_tpl: pi,
        path: path@,
        http_version: vi,
        status: si,
        body_bytes: body_bytes as nat,
        referer: ri,
        user_agent: ui,
        request_length: req_len as nat,
        request_millis: req_t as nat,
        upstream_ip: upstream_ip@,
        upstream_port: upstream_port as nat,
        upstream_millis: upstream_resp_t as nat,
        hash: hash@,
    };
    assert(a.valid());
    assert(s@ =~= a.text());
    s
}

// ---------------------------------------------------------------- klog

/// The slot values of a klog line.
pub struct Klog {
    pub ts: Seq<char>,
    pub caller_line: nat,
    pub level: int,
    pub component: int,
    pub func: int,
    pub module: int,
    pub resource: int,
    pub plural: int,
    pub namespace: int,
    pub service_account: int,
}

impl Klog {
    pub open spec fn valid(self) -> bool {
        &&& is_iso_ts(self.ts)
        &&& 50 <= self.caller_line < 400
        &&& 0 <= self.level < 5
        &&& 0 <= self.component < 18
        &&& 0 <= self.func < 7
        &&& 0 <= self.module < 10
        &&& 0 <= self.resource < 18
        &&& 0 <= self.plural < 18
        &&& 0 <= self.namespace < 18
        &&& 0 <= self.service_account < 12
    }

    /// `ts=.. caller=klog.go:N level=.. component=.. func=.. msg="<module>: failed to list ..."`.
    pub open spec fn text(self) -> Seq<char> {
        let plural = K8S_PLURALS@[self.plural]@;
        "ts="@ + self.ts + " caller=klog.go:"@ + dec(self.caller_line) + " level="@
            + LEVELS_LOWER@[self.level]@ + " component="@ + COMPONENTS@[self.component]@
            + " func="@ + KLOG_FUNCS@[self.func]@ + " msg=\""@ + GO_MODULE_PATHS@[self.module]@
            + ": failed to list "@ + K8S_RESOURCES@[self.resource]@ + ": "@ + plural
            + " is forbidden: User \\\"system:serviceaccount:"@ + NAMESPACES@[self.namespace]@ + ":"@
            + SERVICE_ACCOUNTS@[self.service_account]@ + "\\\" cannot list resource \\\""@ + plural
            + "\\\" in API group \\\"\\\" at the cluster scope\""@
    }
}

pub open spec fn is_klog_line(s: Seq<char>) -> bool {
    exists|k: Klog| k.valid() && s == #[trigger] k.text()
}

/// A klog line reporting a forbidden list call.
pub fn tpl_klog(rng: &mut ChaCha8Rng) -> (r: String)
    ensures
        is_klog_line(r@),
{
    let ts = rand_timestamp_iso(rng);
    let caller_line = gen_range_u32(rng, 50, 400);
    let (level, Ghost(li)) = pick_str(rng, LEVELS_LOWER.as_slice());
    let (component, Ghost(ci)) = pick_str(rng, COMPONENTS.as_slice());
    let (func, Ghost(fi)) = pick_str(rng, KLOG_FUNCS.as_slice());
    let (module, Ghost(mi)) = pick_str(rng, GO_MODULE_PATHS.as_slice());
    let (res, Ghost(ri)) = pick_str(rng, K8S_RESOURCES.as_slice());
    let (plural, Ghost(pi)) = pick_str(rng, K8S_PLURALS.as_slice());
    let (ns, Ghost(ni)) = pick_str(rng, NAMESPACES.as_slice());
    let (sa, Ghost(ai)) = pick_str(rng, SERVICE_ACCOUNTS.as_slice());
    let mut s = String::new();
    s.append("ts=");
    s.append(ts.as_str());
    s.append(" caller=klog.go:");
    push_dec(&mut s, caller_line as u64);
    s.append(" level=");
    s.append(level);
    s.append(" component=");
    s.append(component);
    s.append(" func=");
    s.append(func);
    s.append(" msg=\"");
    s.append(module);
    s.append(": failed to list ");
    s.append(res);
    s.append(": ");
    s.append(plural);
    s.append(" is forbidden: User \\\"system:serviceaccount:");
    s.append(ns);
    s.append(":");
    s.append(sa);
    s.append("\\\" cannot list resource \\\"");
    s.append(plural);
    s.append("\\\" in API group \\\"\\\" at the cluster scope\"");
    let ghost k = Klog {
        ts: ts@,
        caller_line: caller_line as nat,
        level: li,
        component: ci,
        func: fi,
        module: mi,
        resource: ri,
        plural: pi,
        namespace: ni,
        service_account: ai,
    };
    assert(k.valid());
    assert(s@ =~= k.text());
    s
}

// ---------------------------------------------------------------- glog

/// The slot values of a glog reflector line.
pub struct GlogReflector {
    pub prefix: int,
    pub ts: Seq<char>,
    pub thread: nat,
    pub line: nat,
    pub module: int,
    pub resource: int,
    pub plural: int,
}

impl GlogReflector {
    pub open spec fn valid(self) -> bool {
        &&& 0 <= self.prefix < 4
        &&& is_glog_ts(self.ts)
        &&& 1 <= self.thread < 50
        &&& 50 <= self.line < 400
        &&& 0 <= self.module < 10
        &&& 0 <= self.resource < 18
        &&& 0 <= self.plural < 18
    }

    /// `E1227 14:10:20.433435       1 reflector.go:138] <module>: Failed to watch ...`.
    pub open spec fn text(self) -> Seq<char> {
        let res = K8S_RESOURCES@[self.resource]@;
        seq![GLOG_PREFIX@[self.prefix]] + self.ts + "       "@ + dec(self.thread) + " reflector.go:"@
            + dec(self.line) + "] "@ + GO_MODULE_PATHS@[self.module]@ + ": Failed to watch "@ + res
            + ": failed to list "@ + res
            + ": the server could not find the requested resource (get "@
            + K8S_PLURALS@[self.plural]@ + ")"@
    }
}

pub open spec fn is_glog_line(s: Seq<char>) -> bool {
    exists|g: GlogReflector| g.valid() && s == #[trigger] g.text()
}

/// A glog reflector failure line.
pub fn tpl_glog_reflector(rng: &mut ChaCha8Rng) -> (r: String)
    ensures
        is_glog_line(r@),
{
    let pfx = *pick(rng, GLOG_PREFIX.as_slice());
    let ghost xi = choose|i: int| 0 <= i < 4 && pfx == GLOG_PREFIX@[i];
    let ts = rand_glog_ts(rng);
    let thread = gen_range_u32(rng, 1, 50);
    let line = gen_range_u32(rng, 50, 400);
    let (module, Ghost(mi)) = pick_str(rng, GO_MODULE_PATHS.as_slice());
    let (res, Ghost(ri)) = pick_str(rng, K8S_RESOURCES.as_slice());
    let (plural, Ghost(pi)) = pick_str(rng, K8S_PLURALS.as_slice());
    let mut s = String::new();
    crate::text::push_char(&mut s, pfx);
    s.append(ts.as_str());
    s.append("       ");
    push_dec(&mut s, thread as u64);
    s.append(" reflector.go:");
    push_dec(&mut s, line as u64);
    s.append("] ");
    s.append(module);
    s.append(": Failed to watch ");
    s.append(res);
    s.append(": failed to list ");
    s.append(res);
    s.append(": the server could not find the requested resource (get ");
    s.append(plural);
    s.append(")");
    let ghost g = GlogReflector {
        prefix: xi,
        ts: ts@,
        thread: thread as nat,
        line: line as nat,
        module: mi,
        resource: ri,
        plural: pi,
    };
    assert(g.valid());
    assert(s@ =~= g.text());
    s
}

// ---------------------------------------------------------------- env_logger

/// The event that an env_logger line reports, with its slot values.
pub enum EnvlogEvent {
    Node {
        id: nat,
        uuid: Seq<char>,
        kind: int,
        suffix: Seq<char>,
        ip: Seq<char>,
        port: nat,
        role: int,
        cpu: int,
    },
    FileList { num: nat, offset: nat },
    Partition { node: nat, is_querier: bool, from: nat, to: nat },
    Search { total: nat, took: nat, scan_size: nat },
    UploadBegin { org: int, stream: int, file_id: nat, size: nat },
    UploadSuccess {
        org: int,
        stream: int,
        file_id: nat,
        remote_org: int,
        remote_stream: int,
        remote_id: nat,
    },
    SqlParse { stream: int, start: nat, end: nat, limit: int },
}

pub open spec fn parquet_id_ok(id: nat) -> bool {
    7_000_000_000_000_000_000 <= id < 7_999_999_999_999_999_999
}

pub open spec fn bool_text(b: bool) -> Seq<char> {
    if b {
        "true"@
    } else {
        "false"@
    }
}

impl EnvlogEvent {
    pub open spec fn valid(self) -> bool {
        match self {
            EnvlogEvent::Node { id, uuid, kind, suffix, ip, port, role, cpu } => {
                &&& 1 <= id < 10
                &&& is_uuid(uuid)
                &&& 0 <= kind < 5
                &&& is_hex_text(suffix, 6)
                &&& is_ip(ip)
                &&& 5080 <= port < 5090
                &&& 0 <= role < 5
                &&& 0 <= cpu < 5
            },
            EnvlogEvent::FileList { num, offset } => num < 200 && offset < 200,
            EnvlogEvent::Partition { node, is_querier, from, to } => 1 <= node < 10 && from < 100
                && 100 <= to < 1000,
            EnvlogEvent::Search { total, took, scan_size } => total < 100_000 && took < 2000
                && scan_size < 10_000_000,
            EnvlogEvent::UploadBegin { org, stream, file_id, size } => 0 <= org < 12 && 0 <= stream
                < 14 && parquet_id_ok(file_id) && 100 <= size < 1_000_000,
            EnvlogEvent::UploadSuccess {
                org,
                stream,
                file_id,
                remote_org,
                remote_stream,
                remote_id,
            } => 0 <= org < 12 && 0 <= stream < 14 && parquet_id_ok(file_id) && 0 <= remote_org < 12
                && 0 <= remote_stream < 14 && parquet_id_ok(remote_id),
            EnvlogEvent::SqlParse { stream, start, end, limit } => 0 <= stream < 14
                && 1_600_000_000_000_000 <= start < 1_700_000_000_000_000
                && 1_700_000_000_000_000 <= end < 1_800_000_000_000_000 && 0 <= limit < 5,
        }
    }

    pub open spec fn text(self) -> Seq<char> {
        match self {
            EnvlogEvent::Node { id, uuid, kind, suffix, ip, port, role, cpu } =>
                "[TRACE] cluster->node: Node { id: "@ + dec(id) + ", uuid: \""@ + uuid
                + "\", name: \"ziox-"@ + QUERIER_KINDS@[kind]@ + "-"@ + suffix
                + "\", addr: \"http://"@ + ip + ":"@ + dec(port) + "\", role: ["@ + ROLES@[role]@
                + "], cpu_num: "@ + dec(CPU_COUNTS@[cpu] as nat) + ", status: Online }"@,
            EnvlogEvent::FileList { num, offset } => "[TRACE] cluster->file_list: num: "@ + dec(num)
                + ", offset: "@ + dec(offset),
            EnvlogEvent::Partition { node, is_querier, from, to } =>
                "[TRACE] cluster->partition: node: "@ + dec(node) + ", is_querier: "@ + bool_text(
                is_querier,
            ) + ", file_range: "@ + dec(from) + "-"@ + dec(to),
            EnvlogEvent::Search { total, took, scan_size } => "[TRACE] cluster->search: total: "@
                + dec(total) + ", took: "@ + dec(took) + ", scan_size: "@ + dec(scan_size),
            EnvlogEvent::UploadBegin { org, stream, file_id, size } =>
                "[JOB] File upload begin: local: data/wal/"@ + ORG_NAMES@[org]@ + "/logs/"@
                + STREAM_NAMES@[stream]@ + "/0_2024_05_28_14_"@ + dec(file_id) + ".json, size: "@
                + dec(size),
            EnvlogEvent::UploadSuccess {
                org,
                stream,
                file_id,
                remote_org,
                remote_stream,
                remote_id,
            } => "[JOB] File upload success: local: data/wal/"@ + ORG_NAMES@[org]@ + "/logs/"@
                + STREAM_NAMES@[stream]@ + "/0_2024_05_28_14_"@ + dec(file_id) + ".json, remote: "@
                + ORG_NAMES@[remote_org]@ + "/logs/"@ + STREAM_NAMES@[remote_stream]@
                + "/2024/05/28/14/"@ + dec(remote_id) + ".parquet"@,
            EnvlogEvent::SqlParse { stream, start, end, limit } =>
                "[TRACE] sqlparser: index -> \""@ + STREAM_NAMES@[stream]@
                + "\", fields -> [], partition_key -> [], full_text -> [], time_range -> Some(("@
                + dec(start) + ", "@ + dec(end) + ")), order_by -> [], limit -> 0,"@ + dec(
                QUERY_LIMITS@[limit] as nat,
            ),
        }
    }
}

pub open spec fn is_envlog_payload(s: Seq<char>) -> bool {
    exists|e: EnvlogEvent| e.valid() && s == #[trigger] e.text()
}

fn push_bool(s: &mut String, b: bool)
    ensures
        final(s)@ == old(s)@ + bool_text(b),
{
    if b {
        s.append("true");
    } else {
        s.append("false");
    }
}

/// The number of an event kind, in the order the selector draw picks them.
pub open spec fn event_kind(e: EnvlogEvent) -> int {
    match e {
        EnvlogEvent::Node { .. } => 0,
        EnvlogEvent::FileList { .. } => 1,
        EnvlogEvent::Partition { .. } => 2,
        EnvlogEvent::Search { .. } => 3,
        EnvlogEvent::UploadBegin { .. } => 4,
        EnvlogEvent::UploadSuccess { .. } => 5,
        EnvlogEvent::SqlParse { .. } => 6,
    }
}

/// The payload of an env_logger line: one of seven event kinds, equally likely.
fn rand_envlog_payload(rng: &mut ChaCha8Rng) -> (r: String)
    ensures
        is_envlog_payload(r@),
{
    let kind = gen_range_u32(rng, 0, 7);
    envlog_payload_of_kind(rng, kind)
}

/// The payload of an env_logger line of event kind `kind`, its slots drawn
/// from `rng`.
pub fn envlog_payload_of_kind(rng: &mut ChaCha8Rng, kind: u32) -> (r: String)
    requires
        kind < 7,
    ensures
        exists|e: EnvlogEvent| e.valid() && event_kind(e) == kind && r@ == #[trigger] e.text(),
{
    let mut s = String::new();
    if kind == 0 {
        let id = gen_range_u32(rng, 1, 10);
        let uuid = rand_uuid(rng);
        let (qk, Ghost(ki)) = pick_str(rng, QUERIER_KINDS.as_slice());
        let suffix = rand_hex(rng, 6);
        let ip = rand_ip(rng);
        let port = gen_range_u32(rng, 5080, 5090);
        let (role, Ghost(ri)) = pick_str(rng, ROLES.as_slice());
        let cpu = *pick(rng, CPU_COUNTS.as_slice());
        let ghost ci = choose|i: int| 0 <= i < 5 && cpu == CPU_COUNTS@[i];
        s.append("[TRACE] cluster->node: Node { id: ");
        push_dec(&mut s, id as u64);
        s.append(", uuid: \"");
        s.append(uuid.as_str());
        s.append("\", name: \"ziox-");
        s.append(qk);
        s.append("-");
        s.append(suffix.as_str());
        s.append("\", addr: \"http://");
        s.append(ip.as_str());
        s.append(":");
        push_dec(&mut s, port as u64);
        s.append("\", role: [");
        s.append(role);
        s.append("], cpu_num: ");
        push_dec(&mut s, cpu as u64);
        s.append(", status: Online }");
        let ghost e = EnvlogEvent::Node {
            id: id as nat,
            uuid: uuid@,
            kind: ki,
            suffix: suffix@,
            ip: ip@,
            port: port as nat,
            role: ri,
            cpu: ci,
        };
        assert(e.valid());
        assert(s@ =~= e.text());
    } else if kind == 1 {
        let num = gen_range_u32(rng, 0, 200);
        let offset = gen_range_u32(rng, 0, 200);
        s.append("[TRACE] cluster->file_list: num: ");
        push_dec(&mut s, num as u64);
        s.append(", offset: ");
        push_dec(&mut s, offset as u64);
        let ghost e = EnvlogEvent::FileList { num: num as nat, offset: offset as nat };
        assert(s@ =~= e.text());
    } else if kind == 2 {
        let node = gen_range_u32(rng, 1, 10);
        let is_querier = gen_ratio(rng, 1, 2);
        let from = gen_range_u32(rng, 0, 100);
        let to = gen_range_u32(rng, 100, 1000);
        s.append("[TRACE] cluster->partition: node: ");
        push_dec(&mut s, node as u64);
        s.append(", is_querier: ");
        push_bool(&mut s, is_querier);
        s.append(", file_range: ");
        push_dec(&mut s, from as u64);
        s.append("-");
        push_dec(&mut s, to as u64);
        let ghost e = EnvlogEvent::Partition {
            node: node as nat,
            is_querier,
            from: from as nat,
            to: to as nat,
        };
        assert(s@ =~= e.text());
    } else if kind == 3 {
        let total = gen_range_u32(rng, 0, 100_000);
        let took = gen_range_u32(rng, 0, 2000);
        let scan_size = gen_range_u32(rng, 0, 10_000_000);
        s.append("[TRACE] cluster->search: total: ");
        push_dec(&mut s, total as u64);
        s.append(", took: ");
        push_dec(&mut s, took as u64);
        s.append(", scan_size: ");
        push_dec(&mut s, scan_size as u64);
        let ghost e = EnvlogEvent::Search {
            total: total as nat,
            took: took as nat,
            scan_size: scan_size as nat,
        };
        assert(s@ =~= e.text());
    } else if kind == 4 {
        let (org, Ghost(oi)) = pick_str(rng, ORG_NAMES.as_slice());
        let (stream, Ghost(si)) = pick_str(rng, STREAM_NAMES.as_slice());
        let file_id = rand_parquet_id(rng);
        let size = gen_range_u32(rng, 100, 1_000_000);
        s.append("[JOB] File upload begin: local: data/wal/");
        s.append(org);
        s.append("/logs/");
        s.append(stream);
        s.append("/0_2024_05_28_14_");
        push_dec(&mut s, file_id);
        s.append(".json, size: ");
        push_dec(&mut s, size as u64);
        let ghost e = EnvlogEvent::UploadBegin {
            org: oi,
            stream: si,
            file_id: file_id as nat,
            size: size as nat,
        };
        assert(s@ =~= e.text());
    } else if kind == 5 {
        let (org, Ghost(oi)) = pick_str(rng, ORG_NAMES.as_slice());
        let (stream, Ghost(si)) = pick_str(rng, STREAM_NAMES.as_slice());
        let file_id = rand_parquet_id(rng);
        let (remote_org, Ghost(roi)) = pick_str(rng, ORG_NAMES.as_slice());
        let (remote_stream, Ghost(rsi)) = pick_str(rng, STREAM_NAMES.as_slice());
        let remote_id = rand_parquet_id(rng);
        s.append("[JOB] File upload success: local: data/wal/");
        s.append(org);
        s.append("/logs/");
        s.append(stream);
        s.append("/0_2024_05_28_14_");
        push_dec(&mut s, file_id);
        s.append(".json, remote: ");
        s.append(remote_org);
        s.append("/logs/");
        s.append(remote_stream);
        s.append("/2024/05/28/14/");
        push_dec(&mut s, remote_id);
        s.append(".parquet");
        let ghost e = EnvlogEvent::UploadSuccess {
            org: oi,
            stream: si,
            file_id: file_id as nat,
            remote_org: roi,
            remote_stream: rsi,
            remote_id: remote_id as nat,
        };
        assert(s@ =~= e.text());
    } else {
        let (stream, Ghost(si)) = pick_str(rng, STREAM_NAMES.as_slice());
        let start = gen_range_u64(rng, 1_600_000_000_000_000, 1_700_000_000_000_000);
        let end = gen_range_u64(rng, 1_700_000_000_000_000, 1_800_000_000_000_000);
        let limit = *pick(rng, QUERY_LIMITS.as_slice());
        let ghost li = choose|i: int| 0 <= i < 5 && limit == QUERY_LIMITS@[i];
        s.append("[TRACE] sqlparser: index -> \"");
        s.append(stream);
        s.append(
            "\", fields -> [], partition_key -> [], full_text -> [], time_range -> Some((",
        );
        push_dec(&mut s, start);
        s.append(", ");
        push_dec(&mut s, end);
        s.append(")), order_by -> [], limit -> 0,");
        push_dec(&mut s, limit as u64);
        let ghost e = EnvlogEvent::SqlParse {
            stream: si,
            start: start as nat,
            end: end as nat,
            limit: li,
        };
        assert(s@ =~= e.text());
    }
    s
}

/// `[<ts> <LEVEL> <module>] <payload>`.
pub open spec fn envlog_text(ts: Seq<char>, level: int, module: int, payload: Seq<char>) -> Seq<
    char,
> {
    "["@ + ts + " "@ + LEVELS_UPPER@[level]@ + " "@ + RUST_MODULE_PATHS@[module]@ + "] "@ + payload
}

pub open spec fn is_envlog_line(s: Seq<char>) -> bool {
    exists|ts: Seq<char>, level: int, module: int, payload: Seq<char>|
        is_iso_ts(ts) && 0 <= level < 5 && 0 <= module < 19 && is_envlog_payload(payload) && s
            == #[trigger] envlog_text(ts, level, module, payload)
}

/// A Rust env_logger line with one of seven event payloads.
pub fn tpl_rust_envlog(rng: &mut ChaCha8Rng) -> (r: String)
    ensures
        is_envlog_line(r@),
{
    let ts = rand_timestamp_iso(rng);
    let (lvl, Ghost(li)) = pick_str(rng, LEVELS_UPPER.as_slice());
    let (module, Ghost(mi)) = pick_str(rng, RUST_MODULE_PATHS.as_slice());
    let payload = rand_envlog_payload(rng);
    let mut s = String::new();
    s.append("[");
    s.append(ts.as_str());
    s.append(" ");
    s.append(lvl);
    s.append(" ");
    s.append(module);
    s.append("] ");
    s.append(payload.as_str());
    assert(s@ =~= envlog_text(ts@, li, mi, payload@));
    s
}

// ---------------------------------------------------------------- selection

/// The templates a log line can come from.
#[derive(Clone, Copy, Debug, PartialEq, Eq, Structural)]
pub enum LineKind {
    NginxAccess,
    RustEnvlog,
    Klog,
    GlogReflector,
    DbQuery,
    Grpc,
    Exception,
    Simple,
}

/// The template that selector draw `k` (of `0..100`) chooses: nginx 25,
/// env_logger 20, klog 15, glog 10, database 10, gRPC 8, exception 5, plain 7.
pub open spec fn kind_of_draw(k: int) -> LineKind {
    if k <= 24 {
        LineKind::NginxAccess
    } else if k <= 44 {
        LineKind::RustEnvlog
    } else if k <= 59 {
        LineKind::Klog
    } else if k <= 69 {
        LineKind::GlogReflector
    } else if k <= 79 {
        LineKind::DbQuery
    } else if k <= 87 {
        LineKind::Grpc
    } else if k <= 92 {
        LineKind::Exception
    } else {
        LineKind::Simple
    }
}

/// The selector draws, out of `0..100`, of each template.
pub open spec fn kind_share(kind: LineKind) -> nat {
    match kind {
        LineKind::NginxAccess => 25,
        LineKind::RustEnvlog => 20,
        LineKind::Klog => 15,
        LineKind::GlogReflector => 10,
        LineKind::DbQuery => 10,
        LineKind::Grpc => 8,
        LineKind::Exception => 5,
        LineKind::Simple => 7,
    }
}

/// The template chosen by selector draw `k`.
pub fn line_kind(k: u32) -> (r: LineKind)
    ensures
        r == kind_of_draw(k as int),
{
    if k <= 24 {
        LineKind::NginxAccess
    } else if k <= 44 {
        LineKind::RustEnvlog
    } else if k <= 59 {
        LineKind::Klog
    } else if k <= 69 {
        LineKind::GlogReflector
    } else if k <= 79 {
        LineKind::DbQuery
    } else if k <= 87 {
        LineKind::Grpc
    } else if k <= 92 {
        LineKind::Exception
    } else {
        LineKind::Simple
    }
}

/// `s` is a line that template `kind` can produce.
pub open spec fn is_line_of(kind: LineKind, s: Seq<char>) -> bool {
    match kind {
        LineKind::NginxAccess => is_nginx_access_line(s),
        LineKind::RustEnvlog => is_envlog_line(s),
        LineKind::Klog => is_klog_line(s),
        LineKind::GlogReflector => is_glog_line(s),
        LineKind::DbQuery => is_db_query_line(s),
        LineKind::Grpc => is_grpc_line(s),
        LineKind::Exception => is_exception_line(s),
        LineKind::Simple => is_simple_line(s),
    }
}

/// `s` is a line of the template chosen by some selector draw.
#[verifier::opaque]
pub open spec fn is_log_line(s: Seq<char>) -> bool {
    exists|k: int| 0 <= k < 100 && #[trigger] is_line_of(kind_of_draw(k), s)
}

/// Template shares: of the 100 selector draws, `kind_share(kind)` choose
/// `kind`, and the shares cover all draws.
pub proof fn law_line_kind_shares(kind: LineKind)
    ensures
        Set::new(|k: int| 0 <= k < 100 && kind_of_draw(k) == kind).finite(),
        Set::new(|k: int| 0 <= k < 100 && kind_of_draw(k) == kind).len() == kind_share(kind),
        kind_share(LineKind::NginxAccess) + kind_share(LineKind::RustEnvlog) + kind_share(
            LineKind::Klog,
        ) + kind_share(LineKind::GlogReflector) + kind_share(LineKind::DbQuery) + kind_share(
            LineKind::Grpc,
        ) + kind_share(LineKind::Exception) + kind_share(LineKind::Simple) == 100,
{
    let (lo, hi): (int, int) = match kind {
        LineKind::NginxAccess => (0, 25),
        LineKind::RustEnvlog => (25, 45),
        LineKind::Klog => (45, 60),
        LineKind::GlogReflector => (60, 70),
        LineKind::DbQuery => (70, 80),
        LineKind::Grpc => (80, 88),
        LineKind::Exception => (88, 93),
        LineKind::Simple => (93, 100),
    };
    assert(Set::new(|k: int| 0 <= k < 100 && kind_of_draw(k) == kind) =~= set_int_range(lo, hi));
    lemma_int_range(lo, hi);
}

/// One log line from a template chosen by the weights of `kind_of_draw`.
pub fn generate_log_line(rng: &mut ChaCha8Rng) -> (r: String)
    ensures
        is_log_line(r@),
{
    let k = gen_range_u32(rng, 0, 100);
    let r = line_of_kind(rng, line_kind(k));
    assert(is_line_of(kind_of_draw(k as int), r@));
    reveal(is_log_line);
    r
}

/// One log line of template `kind`, its slots drawn from `rng`.
pub fn line_of_kind(rng: &mut ChaCha8Rng, kind: LineKind) -> (r: String)
    ensures
        is_line_of(kind, r@),
{
    match kind {
        LineKind::NginxAccess => tpl_nginx_access(rng),
        LineKind::RustEnvlog => tpl_rust_envlog(rng),
        LineKind::Klog => tpl_klog(rng),
        LineKind::GlogReflector => tpl_glog_reflector(rng),
        LineKind::DbQuery => tpl_db_query(rng),
        LineKind::Grpc => tpl_grpc(rng),
        LineKind::Exception => tpl_exception(rng),
        LineKind::Simple => tpl_simple(rng),
    }
}

} // verus!
