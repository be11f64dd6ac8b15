//! Structured request logging: the entries a request accumulates, the JSON
//! body the log sink expects, and the decision whether a batch is sent at
//! all. Sending is best-effort and happens elsewhere; nothing here can
//! fail a request.
use vstd::prelude::*;

use crate::hexstr::upper_hex_digit;
use vstd::utf8::encode_utf8;

verus! {

/// Severity of one log entry.
#[derive(Clone, Copy, PartialEq, Eq, Structural, Debug)]
pub enum LogLevel {
    Info,
    Warn,
    Error,
    Debug,
}

/// The metadata the log sink expects beside each message.
#[derive(Clone)]
pub struct LogMetadata {
    pub level: LogLevel,
}

/// One structured log entry.
#[derive(Clone)]
pub struct LogMessage {
    pub metadata: LogMetadata,
    pub message: String,
}

/// Builds one log entry.
pub fn make_log(level: LogLevel, message: String) -> (r: LogMessage)
    ensures
        r.metadata.level == level,
        r.message@ == message@,
{
    LogMessage { metadata: LogMetadata { level }, message }
}

/// The entries one request accumulates, in the order they were recorded;
/// any component may append, and the dispatcher reads the batch once. The
/// buffer itself never refuses an entry — dropping entries on lock trouble
/// is its caller's concern, and never the request's.
pub struct LogBuffer {
    entries: Vec<LogMessage>,
}

impl View for LogBuffer {
    type V = Seq<LogMessage>;

    closed spec fn view(&self) -> Seq<LogMessage> {
        self.entries@
    }
}

impl LogBuffer {
    /// An empty buffer, for one request.
    pub fn new() -> (r: LogBuffer)
        ensures
            r@ == Seq::<LogMessage>::empty(),
    {
        LogBuffer { entries: Vec::new() }
    }

    /// Appends one entry; everything recorded before it stays, in order.
    pub fn push(&mut self, m: LogMessage)
        ensures
            final(self)@ == old(self)@.push(m),
    {
        self.entries.push(m);
    }

    /// The batch recorded so far.
    pub fn entries(&self) -> (r: &Vec<LogMessage>)
        ensures
            r@ == self@,
    {
        &self.entries
    }
}

/// The level's wire spelling.
pub open spec fn level_text(l: LogLevel) -> Seq<char> {
    match l {
        LogLevel::Info => "INFO"@,
        LogLevel::Warn => "WARN"@,
        LogLevel::Error => "ERROR"@,
        LogLevel::Debug => "DEBUG"@,
    }
}

/// The level's wire spelling.
pub fn level_str(l: &LogLevel) -> (r: &'static str)
    ensures
        r@ == level_text(*l),
{
    match l {
        LogLevel::Info => "INFO",
        LogLevel::Warn => "WARN",
        LogLevel::Error => "ERROR",
        LogLevel::Debug => "DEBUG",
    }
}

/// How one byte of message text stands inside a JSON string: quote and
/// backslash are escaped, control bytes become `\u00XX`, everything else
/// (including multi-byte UTF-8) passes through.
pub open spec fn json_escaped_byte(b: u8) -> Seq<u8> {
    if b == 0x22 {
        seq![0x5cu8, 0x22u8]
    } else if b == 0x5c {
        seq![0x5cu8, 0x5cu8]
    } else if b < 0x20 {
        seq![0x5cu8, 0x75u8, 0x30u8, 0x30u8, upper_hex_digit(b / 16) as u8, upper_hex_digit(
            b % 16,
        ) as u8]
    } else {
        seq![b]
    }
}

/// A byte sequence escaped for a JSON string.
pub open spec fn json_escaped(s: Seq<u8>) -> Seq<u8>
    decreases s.len(),
{
    if s.len() == 0 {
        seq![]
    } else {
        json_escaped_byte(s[0]) + json_escaped(s.drop_first())
    }
}

proof fn lemma_json_escaped_append(a: Seq<u8>, b: Seq<u8>)
    ensures
        json_escaped(a + b) == json_escaped(a) + json_escaped(b),
    decreases a.len(),
{
    if a.len() == 0 {
        assert(a + b =~= b);
        assert(json_escaped(a) + json_escaped(b) =~= json_escaped(b));
    } else {
        assert((a + b).drop_first() =~= a.drop_first() + b);
        lemma_json_escaped_append(a.drop_first(), b);
        assert(json_escaped_byte((a + b)[0]) + (json_escaped(a.drop_first()) + json_escaped(b))
            =~= (json_escaped_byte(a[0]) + json_escaped(a.drop_first())) + json_escaped(b));
    }
}

/// The JSON object the sink expects for one entry:
/// `{"metadata":{"level":"<LEVEL>"},"message":"<escaped>"}`.
pub open spec fn spec_entry_json(m: LogMessage) -> Seq<u8> {
    encode_utf8("{\"metadata\":{\"level\":\""@) + encode_utf8(level_text(m.metadata.level))
        + encode_utf8("\"},\"message\":\""@) + json_escaped(encode_utf8(m.message@)) + encode_utf8(
        "\"}"@,
    )
}

/// The entries of a batch, joined with commas, in order.
pub open spec fn spec_batch_items(ms: Seq<LogMessage>) -> Seq<u8>
    decreases ms.len(),
{
    if ms.len() == 0 {
        seq![]
    } else if ms.len() == 1 {
        spec_entry_json(ms[0])
    } else {
        spec_batch_items(ms.drop_last()) + encode_utf8(","@) + spec_entry_json(ms.last())
    }
}

/// The JSON body of one batch: `{"batch":[<entries>]}`.
pub open spec fn spec_batch_json(ms: Seq<LogMessage>) -> Seq<u8> {
    encode_utf8("{\"batch\":["@) + spec_batch_items(ms) + encode_utf8("]}"@)
}

fn push_str_bytes(out: &mut Vec<u8>, s: &str)
    ensures
        final(out)@ == old(out)@ + encode_utf8(s@),
{
    let mut b = s.as_bytes_vec();
    out.append(&mut b);
}

fn hex_digit_byte(v: u8) -> (r: u8)
    requires
        v < 16,
    ensures
        r == upper_hex_digit(v) as u8,
{
    if v < 10 {
        48 + v
    } else {
        55 + v
    }
}

fn push_escaped(out: &mut Vec<u8>, s: &str)
    ensures
        final(out)@ == old(out)@ + json_escaped(encode_utf8(s@)),
{
    let b = s.as_bytes_vec();
    let mut i: usize = 0;
    while i < b.len()
        invariant
            0 <= i <= b@.len(),
            out@ == old(out)@ + json_escaped(b@.take(i as int)),
        decreases b@.len() - i,
    {
        let x = b[i];
        if x == 0x22 {
            out.push(0x5c);
            out.push(0x22);
        } else if x == 0x5c {
            out.push(0x5c);
            out.push(0x5c);
        } else if x < 0x20 {
            out.push(0x5c);
            out.push(0x75);
            out.push(0x30);
            out.push(0x30);
            out.push(hex_digit_byte(x / 16));
            out.push(hex_digit_byte(x % 16));
        } else {
            out.push(x);
        }
        proof {
            assert(b@.take(i + 1) =~= b@.take(i as int) + seq![b@[i as int]]);
            lemma_json_escaped_append(b@.take(i as int), seq![b@[i as int]]);
            let single = seq![b@[i as int]];
            assert(single.drop_first() =~= Seq::<u8>::empty());
            assert(json_escaped(single.drop_first()) =~= Seq::<u8>::empty());
            assert(json_escaped(single) =~= json_escaped_byte(b@[i as int]));
            assert(out@ =~= old(out)@ + json_escaped(b@.take(i + 1)));
        }
        i = i + 1;
    }
    proof {
        assert(b@.take(b@.len() as int) =~= b@);
    }
}

fn push_entry(out: &mut Vec<u8>, m: &LogMessage)
    ensures
        final(out)@ == old(out)@ + spec_entry_json(*m),
{
    push_str_bytes(out, "{\"metadata\":{\"level\":\"");
    push_str_bytes(out, level_str(&m.metadata.level));
    push_str_bytes(out, "\"},\"message\":\"");
    push_escaped(out, m.message.as_str());
    push_str_bytes(out, "\"}");
    proof {
        assert(out@ =~= old(out)@ + spec_entry_json(*m));
    }
}

/// Builds the JSON body for one batch of entries, exactly as the sink's
/// wire contract asks for it.
pub fn batch_json(batch: &Vec<LogMessage>) -> (r: Vec<u8>)
    ensures
        r@ == spec_batch_json(batch@),
{
    let mut out: Vec<u8> = Vec::new();
    push_str_bytes(&mut out, "{\"batch\":[");
    let ghost head = out@;
    let mut i: usize = 0;
    while i < batch.len()
        invariant
            0 <= i <= batch@.len(),
            head == encode_utf8("{\"batch\":["@),
            out@ == head + spec_batch_items(batch@.take(i as int)),
        decreases batch@.len() - i,
    {
        if i > 0 {
            push_str_bytes(&mut out, ",");
        }
        push_entry(&mut out, &batch[i]);
        proof {
            let t = batch@.take(i + 1);
            assert(t.drop_last() =~= batch@.take(i as int));
            assert(t.last() == batch@[i as int]);
            if i == 0 {
                assert(spec_batch_items(t) == spec_entry_json(batch@[0]));
                assert(out@ =~= head + spec_batch_items(t));
            } else {
                assert(out@ =~= head + spec_batch_items(t));
            }
        }
        i = i + 1;
    }
    proof {
        assert(batch@.take(batch@.len() as int) =~= batch@);
    }
    push_str_bytes(&mut out, "]}");
    proof {
        assert(out@ =~= spec_batch_json(batch@));
    }
    out
}

/// The two values that must both be configured before any batch is sent.
pub struct LogSinkConfig {
    pub api_key: String,
    pub source_id: String,
}

/// Reads the sink configuration: dispatch is possible exactly when both
/// the API key and the source identifier are present.
pub fn log_sink_config(api_key: Option<String>, source_id: Option<String>) -> (r: Option<
    LogSinkConfig,
>)
    ensures
        r is Some <==> (api_key is Some && source_id is Some),
        r matches Some(c) ==> ((api_key matches Some(k) && c.api_key@ == k@) && (
        source_id matches Some(s) && c.source_id@ == s@)),
{
    match (api_key, source_id) {
        (Some(api_key), Some(source_id)) => Some(LogSinkConfig { api_key, source_id }),
        _ => None,
    }
}

/// The sink endpoint for a source.
pub open spec fn spec_sink_url(source: Seq<char>) -> Seq<char> {
    "https://api.logflare.app/logs?source="@ + source
}

/// Whether a batch is sent: only when the sink is configured and at least
/// one entry was recorded.
pub open spec fn spec_should_dispatch(configured: bool, entries: nat) -> bool {
    configured && entries > 0
}

/// Everything one dispatch needs: where to post, the key for the
/// `X-API-KEY` header, and the JSON body.
pub struct Dispatch {
    pub url: String,
    pub api_key: String,
    pub body: Vec<u8>,
}

/// The header the sink authenticates by.
pub fn api_key_header() -> (r: &'static str)
    ensures
        r@ == "X-API-KEY"@,
{
    "X-API-KEY"
}

/// Decides whether the request's batch is sent and, when it is, builds the
/// one dispatch: nothing is produced when the sink is unconfigured or the
/// batch is empty.
pub fn dispatch_payload(config: &Option<LogSinkConfig>, batch: &Vec<LogMessage>) -> (r: Option<
    Dispatch,
>)
    ensures
        r is Some <==> spec_should_dispatch(config is Some, batch@.len()),
        r matches Some(d) ==> (config matches Some(c) && d.url@ == spec_sink_url(c.source_id@)
            && d.api_key@ == c.api_key@ && d.body@ == spec_batch_json(batch@)),
{
    match config {
        Some(c) => {
            if batch.len() > 0 {
                let url = String::from_str("https://api.logflare.app/logs?source=").concat(
                    c.source_id.as_str(),
                );
                Some(Dispatch { url, api_key: c.api_key.clone(), body: batch_json(batch) })
            } else {
                None
            }
        },
        None => None,
    }
}

/// Dispatch law: no batch is ever sent when the sink is unconfigured, none
/// is sent for an empty batch, and a configured sink with a non-empty
/// batch sends exactly its one dispatch.
pub proof fn lemma_dispatch_decision(configured: bool, entries: nat)
    ensures
        !configured ==> !spec_should_dispatch(configured, entries),
        entries == 0 ==> !spec_should_dispatch(configured, entries),
        (configured && entries > 0) ==> spec_should_dispatch(configured, entries),
{
}

} // verus!
