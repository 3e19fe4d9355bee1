//! Where batches go: the targets, their endpoints and credentials, the
//! run's arguments, and the progress line.
use base64::Engine;
use vstd::prelude::*;

use crate::text::{chars_of, dec, push_char, push_dec};

verus! {

/// Which backend(s) to ship the generated logs to.
#[derive(Clone, Copy, Debug, PartialEq, Eq, Structural)]
pub enum Target {
    /// ClickHouse, O2-Parquet and O2-Vortex, from the same generated batch
    All,
    /// ClickHouse only
    Clickhouse,
    /// The OpenObserve instance that stores Parquet only
    O2Parquet,
    /// The OpenObserve instance that stores Vortex only
    O2Vortex,
}

impl Target {
    /// ClickHouse receives batches.
    pub fn clickhouse(self) -> (r: bool)
        ensures
            r == (self == Target::All || self == Target::Clickhouse),
    {
        match self {
            Target::All | Target::Clickhouse => true,
            Target::O2Parquet | Target::O2Vortex => false,
        }
    }

    /// O2-Parquet receives batches.
    pub fn o2_parquet(self) -> (r: bool)
        ensures
            r == (self == Target::All || self == Target::O2Parquet),
    {
        match self {
            Target::All | Target::O2Parquet => true,
            Target::Clickhouse | Target::O2Vortex => false,
        }
    }

    /// O2-Vortex receives batches.
    pub fn o2_vortex(self) -> (r: bool)
        ensures
            r == (self == Target::All || self == Target::O2Vortex),
    {
        match self {
            Target::All | Target::O2Vortex => true,
            Target::Clickhouse | Target::O2Parquet => false,
        }
    }

    /// At least one OpenObserve instance receives batches.
    pub fn openobserve(self) -> (r: bool)
        ensures
            r == (self != Target::Clickhouse),
    {
        match self {
            Target::Clickhouse => false,
            Target::All | Target::O2Parquet | Target::O2Vortex => true,
        }
    }
}

/// An argument that makes a run impossible.
#[derive(Clone, Copy, Debug, PartialEq, Eq, Structural)]
pub enum ArgError {
    ZeroTotal,
    ZeroBatchSize,
    ZeroConcurrency,
}

impl ArgError {
    /// The message a run stops with.
    pub fn message(&self) -> (r: &'static str)
        ensures
            r@ == (match self {
                ArgError::ZeroTotal => "--total must be > 0"@,
                ArgError::ZeroBatchSize => "--batch-size must be > 0"@,
                ArgError::ZeroConcurrency => "--concurrency must be > 0"@,
            }),
    {
        match self {
            ArgError::ZeroTotal => "--total must be > 0",
            ArgError::ZeroBatchSize => "--batch-size must be > 0",
            ArgError::ZeroConcurrency => "--concurrency must be > 0",
        }
    }
}

/// Checks the run's sizes, in this order: records, batch size, concurrency.
pub fn check_run_args(total: usize, batch_size: usize, concurrency: usize) -> (r: Result<(), ArgError>)
    ensures
        r == (if total == 0 {
            Err(ArgError::ZeroTotal)
        } else if batch_size == 0 {
            Err(ArgError::ZeroBatchSize)
        } else if concurrency == 0 {
            Err(ArgError::ZeroConcurrency)
        } else {
            Ok(())
        }),
{
    if total == 0 {
        Err(ArgError::ZeroTotal)
    } else if batch_size == 0 {
        Err(ArgError::ZeroBatchSize)
    } else if concurrency == 0 {
        Err(ArgError::ZeroConcurrency)
    } else {
        Ok(())
    }
}

/// `s` without its trailing `/` characters (`trim_end_matches('/')`).
pub open spec fn trim_slashes(s: Seq<char>) -> Seq<char>
    decreases s.len(),
{
    if s.len() > 0 && s.last() == '/' {
        trim_slashes(s.drop_last())
    } else {
        s
    }
}

/// `s.trim_end_matches('/')`.
pub fn trim_trailing_slashes(s: &str) -> (r: String)
    ensures
        r@ == trim_slashes(s@),
{
    let cs = chars_of(s);
    let mut end = cs.len();
    assert(cs@.take(cs@.len() as int) =~= cs@);
    while end > 0 && cs[end - 1] == '/'
        invariant
            end <= cs@.len(),
            trim_slashes(cs@) == trim_slashes(cs@.take(end as int)),
        decreases end,
    {
        assert(cs@.take(end as int).drop_last() =~= cs@.take(end - 1));
        end = end - 1;
    }
    let mut r = String::new();
    let mut i: usize = 0;
    while i < end
        invariant
            end <= cs@.len(),
            i <= end,
            r@ == cs@.take(i as int),
        decreases end - i,
    {
        push_char(&mut r, cs[i]);
        i = i + 1;
        assert(r@ =~= cs@.take(i as int));
    }
    r
}

/// The OpenObserve NDJSON ingest endpoint: `<url>/api/<org>/<stream>/_multi`.
pub open spec fn openobserve_endpoint_text(url: Seq<char>, org: Seq<char>, stream: Seq<char>) -> Seq<
    char,
> {
    trim_slashes(url) + "/api/"@ + org + "/"@ + stream + "/_multi"@
}

pub fn openobserve_endpoint(url: &str, org: &str, stream: &str) -> (r: String)
    ensures
        r@ == openobserve_endpoint_text(url@, org@, stream@),
{
    let mut r = trim_trailing_slashes(url);
    r.append("/api/");
    r.append(org);
    r.append("/");
    r.append(stream);
    r.append("/_multi");
    r
}

/// The digit of the standard base64 alphabet for the six-bit value `v`.
pub open spec fn base64_digit(v: int) -> char {
    "ABCDEFGHIJKLMNOPQRSTUVWXYZabcdefghijklmnopqrstuvwxyz0123456789+/"@[v]
}

/// Standard base64 with padding (RFC 4648): each group of three bytes
/// becomes four digits; a last group of one or two bytes is padded with `=`.
pub open spec fn base64_text(b: Seq<u8>) -> Seq<char>
    decreases b.len(),
{
    if b.len() == 0 {
        Seq::empty()
    } else if b.len() == 1 {
        seq![base64_digit((b[0] as int) / 4), base64_digit((b[0] as int) % 4 * 16), '=', '=']
    } else if b.len() == 2 {
        seq![
            base64_digit((b[0] as int) / 4),
            base64_digit((b[0] as int) % 4 * 16 + (b[1] as int) / 16),
            base64_digit((b[1] as int) % 16 * 4),
            '=',
        ]
    } else {
        seq![
            base64_digit((b[0] as int) / 4),
            base64_digit((b[0] as int) % 4 * 16 + (b[1] as int) / 16),
            base64_digit((b[1] as int) % 16 * 4 + (b[2] as int) / 64),
            base64_digit((b[2] as int) % 64),
        ] + base64_text(b.skip(3))
    }
}

/// `base64::engine::general_purpose::STANDARD.encode(input)`. Claimed: the
/// text is the standard, padded base64 of the input, `base64_text(input)`. (The engine panics only when the encoded
/// length overflows `usize`, which the bound on the input rules out.)
#[verifier::external_body]
fn base64_encode(input: &[u8]) -> (r: String)
    requires
        input@.len() <= usize::MAX / 2,
    ensures
        r@ == base64_text(input@),
{
    base64::engine::general_purpose::STANDARD.encode(input)
}

/// HTTP basic authentication: `Basic ` and the base64 of `user:password`.
pub open spec fn basic_auth_text(user: Seq<char>, password: Seq<char>) -> Seq<char> {
    "Basic "@ + base64_text(vstd::utf8::encode_utf8(user + ":"@ + password))
}

pub fn basic_auth(user: &str, password: &str) -> (r: String)
    requires
        user@.len() + password@.len() < usize::MAX / 16,
    ensures
        r@ == basic_auth_text(user@, password@),
{
    let mut raw = user.to_owned();
    raw.append(":");
    raw.append(password);
    proof {
        reveal_strlit(":");
        crate::text::lemma_encode_utf8_upper(raw@);
    }
    let encoded = base64_encode(raw.as_str().as_bytes());
    let mut r = String::new();
    r.append("Basic ");
    r.append(encoded.as_str());
    r
}

/// The ClickHouse HTTP interface: `<url>/`.
pub fn clickhouse_base(url: &str) -> (r: String)
    ensures
        r@ == trim_slashes(url@) + "/"@,
{
    let mut r = trim_trailing_slashes(url);
    r.append("/");
    r
}

/// The insert that carries the rows: ``INSERT INTO `db`.`table` FORMAT JSONEachRow``.
pub fn clickhouse_insert(database: &str, table: &str) -> (r: String)
    ensures
        r@ == "INSERT INTO `"@ + database@ + "`.`"@ + table@ + "` FORMAT JSONEachRow"@,
{
    let mut r = String::new();
    r.append("INSERT INTO `");
    r.append(database);
    r.append("`.`");
    r.append(table);
    r.append("` FORMAT JSONEachRow");
    r
}

/// `[s]` when `on`, else nothing.
pub open spec fn listed<T>(on: bool, s: T) -> Seq<T> {
    if on {
        seq![s]
    } else {
        Seq::empty()
    }
}

/// The ClickHouse table as the opening line names it: ``<base>`db`.`table` ``.
pub open spec fn clickhouse_table_text(ch_base: Seq<char>, database: Seq<char>, table: Seq<char>) -> Seq<
    char,
> {
    ch_base + "`"@ + database + "`.`"@ + table + "`"@
}

/// Where the run ships to, for the opening line: the ClickHouse table, then
/// the O2-Parquet and O2-Vortex endpoints, each if enabled.
pub fn destinations(
    clickhouse: bool,
    o2_parquet: bool,
    o2_vortex: bool,
    ch_base: &str,
    database: &str,
    table: &str,
    parquet_endpoint: &str,
    vortex_endpoint: &str,
) -> (r: Vec<String>)
    ensures
        r@.map_values(|d: String| d@) == listed(clickhouse, clickhouse_table_text(ch_base@, database@, table@))
            + listed(o2_parquet, parquet_endpoint@) + listed(o2_vortex, vortex_endpoint@),
{
    let mut r: Vec<String> = Vec::new();
    if clickhouse {
        let mut d = ch_base.to_owned();
        d.append("`");
        d.append(database);
        d.append("`.`");
        d.append(table);
        d.append("`");
        r.push(d);
    }
    let ghost a = r@.map_values(|d: String| d@);
    assert(a =~= listed(clickhouse, clickhouse_table_text(ch_base@, database@, table@)));
    if o2_parquet {
        r.push(parquet_endpoint.to_owned());
    }
    let ghost b = r@.map_values(|d: String| d@);
    assert(b =~= a + listed(o2_parquet, parquet_endpoint@));
    if o2_vortex {
        r.push(vortex_endpoint.to_owned());
    }
    assert(r@.map_values(|d: String| d@) =~= b + listed(o2_vortex, vortex_endpoint@));
    r
}

/// The strings joined by `, `.
pub open spec fn comma_list(items: Seq<String>) -> Seq<char>
    decreases items.len(),
{
    if items.len() == 0 {
        Seq::empty()
    } else if items.len() == 1 {
        items[0]@
    } else {
        comma_list(items.drop_last()) + ", "@ + items.last()@
    }
}

/// `shipping <total> records -> [<destinations>] in <n> batch(es) of up to <size>`.
pub fn shipping_summary(total: usize, dests: &Vec<String>, batches: usize, batch_size: usize) -> (r: String)
    ensures
        r@ == "shipping "@ + dec(total as nat) + " records -> ["@ + comma_list(dests@) + "] in "@ + dec(
            batches as nat,
        ) + " batch(es) of up to "@ + dec(batch_size as nat),
{
    let mut r = String::new();
    r.append("shipping ");
    push_dec(&mut r, total as u64);
    r.append(" records -> [");
    let ghost prefix = r@;
    let mut i: usize = 0;
    while i < dests.len()
        invariant
            i <= dests@.len(),
            r@ == prefix + comma_list(dests@.take(i as int)),
        decreases dests@.len() - i,
    {
        if i > 0 {
            r.append(", ");
        }
        r.append(dests[i].as_str());
        proof {
            let t = dests@.take(i + 1);
            assert(t.drop_last() =~= dests@.take(i as int));
            if i == 0 {
                assert(comma_list(dests@.take(0)) =~= Seq::<char>::empty());
            }
        }
        i = i + 1;
        assert(r@ =~= prefix + comma_list(dests@.take(i as int)));
    }
    assert(dests@.take(dests@.len() as int) =~= dests@);
    r.append("] in ");
    push_dec(&mut r, batches as u64);
    r.append(" batch(es) of up to ");
    push_dec(&mut r, batch_size as u64);
    r
}

/// The names of the enabled targets, for the stats summary.
pub fn target_names(clickhouse: bool, o2_parquet: bool, o2_vortex: bool) -> (r: Vec<&'static str>)
    ensures
        r@ == listed(clickhouse, "clickhouse") + listed(o2_parquet, "o2-parquet") + listed(
            o2_vortex,
            "o2-vortex",
        ),
{
    let mut r: Vec<&'static str> = Vec::new();
    if clickhouse {
        r.push("clickhouse");
    }
    if o2_parquet {
        r.push("o2-parquet");
    }
    if o2_vortex {
        r.push("o2-vortex");
    }
    assert(r@ =~= listed(clickhouse, "clickhouse") + listed(o2_parquet, "o2-parquet") + listed(
        o2_vortex,
        "o2-vortex",
    ));
    r
}

/// Records processed so far (sent or failed), capped at the run's total.
pub fn progress_processed(sent: u64, failed: u64, total: u64) -> (r: u64)
    requires
        sent + failed <= u64::MAX,
    ensures
        r == (if sent + failed < total {
            sent + failed
        } else {
            total as int
        }),
{
    let p = sent + failed;
    if p < total {
        p
    } else {
        total
    }
}

/// The counts of a progress line: `<processed>/<total> sent=<s> failed=<f>`.
pub fn progress_counts(processed: u64, total: u64, sent: u64, failed: u64) -> (r: String)
    ensures
        r@ == dec(processed as nat) + "/"@ + dec(total as nat) + " sent="@ + dec(sent as nat) + " failed="@
            + dec(failed as nat),
{
    let mut r = String::new();
    push_dec(&mut r, processed);
    r.append("/");
    push_dec(&mut r, total);
    r.append(" sent=");
    push_dec(&mut r, sent);
    r.append(" failed=");
    push_dec(&mut r, failed);
    r
}

/// A progress bar: `filled` `=` then blanks up to `width`.
pub fn progress_bar(filled: usize, width: usize) -> (r: String)
    requires
        filled <= width,
    ensures
        r@ == Seq::new(filled as nat, |i: int| '=') + Seq::new((width - filled) as nat, |i: int| ' '),
{
    let mut r = String::new();
    let mut i: usize = 0;
    while i < width
        invariant
            filled <= width,
            i <= width,
            r@ == Seq::new(i as nat, |k: int| if k < filled {
                '='
            } else {
                ' '
            }),
        decreases width - i,
    {
        if i < filled {
            push_char(&mut r, '=');
        } else {
            push_char(&mut r, ' ');
        }
        i = i + 1;
        assert(r@ =~= Seq::new(i as nat, |k: int| if k < filled {
            '='
        } else {
            ' '
        }));
    }
    assert(r@ =~= Seq::new(filled as nat, |i: int| '=') + Seq::new((width - filled) as nat, |i: int| ' '));
    r
}

} // verus!
