//! Decisions of the device WebSocket client: the URL it connects to, how a
//! failed connection is read, the reconnect delay, and the answer to each
//! message from the server.

use vstd::prelude::*;
use vstd::arithmetic::power2::pow2;
use crate::config::opt_view;
use crate::json::{json_quote, json_string};
use crate::text::{
    concat2, concat3, is_prefix_of, owned, starts_with, str_eq, suffix_string, trim_end_char,
    trim_end_char_spec,
};

verus! {

/// The device WebSocket URL for a juicebox instance: `https` becomes `wss`,
/// `http` becomes `ws`, a bare host gets `ws://`; the token goes in the query.
pub open spec fn ws_url_spec(instance: Seq<char>, token: Seq<char>) -> Seq<char> {
    let base = trim_end_char_spec(instance, '/');
    let base = if is_prefix_of("https"@, base) {
        "wss"@ + base.subrange(5, base.len() as int)
    } else if is_prefix_of("http"@, base) {
        "ws"@ + base.subrange(4, base.len() as int)
    } else {
        "ws://"@ + base
    };
    base + "/api/device/ws?token="@ + token
}

/// Builds the device WebSocket URL for `instance` with `token`.
pub fn build_ws_url(instance: &str, token: &str) -> (r: String)
    ensures
        r@ == ws_url_spec(instance@, token@),
{
    proof {
        reveal_strlit("https");
        reveal_strlit("http");
    }
    let base = trim_end_char(instance, '/');
    let b = base.as_str();
    let mut url = if starts_with(b, "https") {
        let rest = suffix_string(b, 5);
        concat2("wss", rest.as_str())
    } else if starts_with(b, "http") {
        let rest = suffix_string(b, 4);
        concat2("ws", rest.as_str())
    } else {
        concat2("ws://", b)
    };
    url.append("/api/device/ws?token=");
    url.append(token);
    url
}

/// Reads a failed connection: `Some(true)` when the server refused the
/// token (HTTP 401 or 403), `Some(false)` for another HTTP answer, `None`
/// when no HTTP answer came (network trouble). `http_status` is the status
/// of the server's HTTP answer, if it gave one.
pub fn classify_ws_error(http_status: Option<u16>) -> (r: Option<bool>)
    ensures
        r == match http_status {
            Some(s) => Some(s == 401 || s == 403),
            None => None,
        },
{
    match http_status {
        Some(s) => Some(s == 401 || s == 403),
        None => None,
    }
}

/// Reads the pairing status check: `Some(false)` when the server no longer
/// knows the device (401 or 403), `Some(true)` for any other answer (200 or
/// something unexpected, taken as still paired), `None` when the server could
/// not be reached.
pub fn device_paired_from_status(http_status: Option<u16>) -> (r: Option<bool>)
    ensures
        r == match http_status {
            Some(s) => Some(!(s == 401 || s == 403)),
            None => None,
        },
{
    match http_status {
        Some(s) => {
            if s == 401 || s == 403 {
                Some(false)
            } else if s == 200 {
                Some(true)
            } else {
                Some(true)
            }
        },
        None => None,
    }
}

/// The delay before the next reconnect after a failure, in seconds: 5 s
/// after a delay below 5 s (the first failure), otherwise twice the last
/// delay, at most 60 s.
pub open spec fn next_backoff_spec(b: u64) -> u64 {
    if b < 5 {
        5
    } else if 2 * b > 60 {
        60
    } else {
        (2 * b) as u64
    }
}

/// The reconnect delay in seconds after a failed connection, given the
/// last delay.
pub fn next_backoff(backoff_secs: u64) -> (r: u64)
    ensures
        r == next_backoff_spec(backoff_secs),
{
    if backoff_secs < 5 {
        5
    } else if backoff_secs > 30 {
        60
    } else {
        2 * backoff_secs
    }
}

/// How a connection attempt ended.
pub enum AttemptOutcome {
    /// The connection was established and later dropped.
    SessionEnded,
    /// The server refused the token (HTTP 401 or 403).
    AuthRejected,
    /// The connection failed otherwise; `paired` is the answer of the
    /// pairing status check (`None` when the server could not be reached).
    Failed { paired: Option<bool> },
}

/// What the client does after an attempt, the last delay being `prev`:
/// `None` to stop (the device is no longer paired), otherwise the delay in
/// seconds before the next attempt. A dropped session is retried at once.
pub open spec fn next_wait_spec(prev: u64, o: AttemptOutcome) -> Option<u64> {
    match o {
        AttemptOutcome::SessionEnded => Some(0),
        AttemptOutcome::AuthRejected => None,
        AttemptOutcome::Failed { paired } => if paired == Some(false) {
            None
        } else {
            Some(next_backoff_spec(prev))
        },
    }
}

/// Decides what follows an attempt: stop, or wait this many seconds.
pub fn next_wait(prev: u64, outcome: &AttemptOutcome) -> (r: Option<u64>)
    ensures
        r == next_wait_spec(prev, *outcome),
{
    match outcome {
        AttemptOutcome::SessionEnded => Some(0),
        AttemptOutcome::AuthRejected => None,
        AttemptOutcome::Failed { paired } => {
            if let Some(false) = paired {
                None
            } else {
                Some(next_backoff(prev))
            }
        },
    }
}

/// Whether the client may connect: it must be paired, have a device id and
/// hold a token.
pub fn may_connect(paired: bool, has_device_id: bool, token: &Option<String>) -> (r: bool)
    ensures
        r == (paired && has_device_id && token is Some),
{
    paired && has_device_id && token.is_some()
}

/// The fields of a message from the server that the client reads, as
/// strings or numbers where the JSON holds them as such.
pub struct DeviceMessage {
    pub kind: Option<String>,
    pub file_id: Option<String>,
    pub filename: Option<String>,
    pub file_size: Option<u64>,
    pub ticket: Option<String>,
    pub juicehost_url: Option<String>,
}

/// A file the server asks the client to upload.
#[derive(Debug)]
pub struct UploadRequest {
    pub file_id: String,
    pub filename: String,
    pub file_size: u64,
    pub ticket: String,
    pub juicehost_url: String,
}

/// The client's answer to a message from the server.
#[derive(Debug)]
pub enum Reaction {
    /// The server accepted the device.
    AuthOk,
    /// The server acknowledged a heartbeat.
    HeartbeatAck,
    /// The server pinged; send this frame back.
    Pong(String),
    /// The server asks for a file.
    Upload(UploadRequest),
    /// A message of another type, named here (empty when it had none).
    Unknown(String),
}

/// `o`'s characters, or `d` where it is absent.
pub open spec fn or_default(o: Option<String>, d: Seq<char>) -> Seq<char> {
    match opt_view(o) {
        Some(s) => s,
        None => d,
    }
}

/// The frame answering a ping.
pub open spec fn pong_frame_spec() -> Seq<char> {
    "{\"type\":\"ping_response\"}"@
}

/// The client's answer to `m`.
pub open spec fn reaction_ok(m: DeviceMessage, r: Reaction) -> bool {
    let kind = or_default(m.kind, Seq::empty());
    if kind == "auth_ok"@ {
        r is AuthOk
    } else if kind == "heartbeat_ack"@ {
        r is HeartbeatAck
    } else if kind == "ping"@ {
        r matches Reaction::Pong(f) && f@ == pong_frame_spec()
    } else if kind == "upload_request"@ {
        r matches Reaction::Upload(u) && u.file_id@ == or_default(m.file_id, Seq::empty())
            && u.filename@ == or_default(m.filename, "upload"@) && u.file_size == (match m.file_size {
            Some(n) => n,
            None => 0,
        }) && u.ticket@ == or_default(m.ticket, Seq::empty()) && u.juicehost_url@ == or_default(
            m.juicehost_url,
            Seq::empty(),
        )
    } else {
        r matches Reaction::Unknown(k) && k@ == kind
    }
}

fn string_or_empty(o: &Option<String>) -> (r: String)
    ensures
        r@ == or_default(*o, Seq::empty()),
{
    match o {
        Some(s) => s.clone(),
        None => String::new(),
    }
}

fn string_or(o: &Option<String>, d: &str) -> (r: String)
    ensures
        r@ == or_default(*o, d@),
{
    match o {
        Some(s) => s.clone(),
        None => owned(d),
    }
}

/// Decides the answer to a message from the server.
pub fn react(m: &DeviceMessage) -> (r: Reaction)
    ensures
        reaction_ok(*m, r),
{
    let kind = string_or_empty(&m.kind);
    let k = kind.as_str();
    if str_eq(k, "auth_ok") {
        Reaction::AuthOk
    } else if str_eq(k, "heartbeat_ack") {
        Reaction::HeartbeatAck
    } else if str_eq(k, "ping") {
        Reaction::Pong(String::from_str("{\"type\":\"ping_response\"}"))
    } else if str_eq(k, "upload_request") {
        Reaction::Upload(
            UploadRequest {
                file_id: string_or_empty(&m.file_id),
                filename: string_or(&m.filename, "upload"),
                file_size: match m.file_size {
                    Some(n) => n,
                    None => 0,
                },
                ticket: string_or_empty(&m.ticket),
                juicehost_url: string_or_empty(&m.juicehost_url),
            },
        )
    } else {
        Reaction::Unknown(kind)
    }
}

/// The heartbeat frame.
pub open spec fn heartbeat_frame_spec() -> Seq<char> {
    "{\"type\":\"heartbeat\"}"@
}

/// What the heartbeat timer does: with the device authenticated, the frame
/// to send; otherwise `None`, ending the session (authentication never
/// came).
pub fn heartbeat(auth_ok: bool) -> (r: Option<String>)
    ensures
        match r {
            Some(f) => auth_ok && f@ == heartbeat_frame_spec(),
            None => !auth_ok,
        },
{
    if auth_ok {
        Some(String::from_str("{\"type\":\"heartbeat\"}"))
    } else {
        None
    }
}

/// The frame telling the server that the user cancelled the upload of
/// `file_id` (keys in `serde_json`'s default, sorted order).
pub open spec fn upload_cancelled_frame_spec(file_id: Seq<char>) -> Seq<char> {
    "{\"file_id\":"@ + json_string(file_id) + ",\"type\":\"upload_cancelled\"}"@
}

/// Builds the frame that reports a cancelled upload.
pub fn upload_cancelled_frame(file_id: &str) -> (r: String)
    ensures
        r@ == upload_cancelled_frame_spec(file_id@),
{
    let q = json_quote(file_id);
    concat3("{\"file_id\":", q.as_str(), ",\"type\":\"upload_cancelled\"}")
}

/// The reconnect delay never exceeds a minute, is at least five seconds
/// after any failure, and never shrinks while failures go on.
pub proof fn law_backoff_bounded(b: u64)
    ensures
        5 <= next_backoff_spec(b) <= 60,
        b <= 60 ==> next_backoff_spec(b) >= b,
{
}

/// From a fresh start, the delays after successive failures are 5, 10, 20,
/// 40, then 60 seconds, and stay at 60.
pub proof fn law_backoff_sequence()
    ensures
        next_backoff_spec(0) == 5,
        next_backoff_spec(5) == 10,
        next_backoff_spec(10) == 20,
        next_backoff_spec(20) == 40,
        next_backoff_spec(40) == 60,
        next_backoff_spec(60) == 60,
{
}

/// The wait after `k` failures in a row from a fresh start (or after a
/// session ended).
pub open spec fn wait_after_failures(k: nat) -> u64
    decreases k,
{
    if k == 0 {
        0
    } else {
        next_backoff_spec(wait_after_failures((k - 1) as nat))
    }
}

/// After `k >= 1` failures in a row, the wait is min(5 * 2^(k-1), 60)
/// seconds: 5, 10, 20, 40, 60, 60, ...
pub proof fn law_backoff_doubles_from_five(k: nat)
    requires
        k >= 1,
    ensures
        wait_after_failures(k) == (if 5 * pow2((k - 1) as nat) < 60 {
            5 * pow2((k - 1) as nat)
        } else {
            60
        }),
    decreases k,
{
    if k == 1 {
        assert(pow2(0) == 1) by {
            vstd::arithmetic::power2::lemma2_to64();
        }
        assert(wait_after_failures(0) == 0);
    } else {
        law_backoff_doubles_from_five((k - 1) as nat);
        vstd::arithmetic::power2::lemma_pow2_unfold((k - 1) as nat);
        vstd::arithmetic::power2::lemma_pow2_pos((k - 2) as nat);
        let p = pow2((k - 2) as nat);
        assert(pow2((k - 1) as nat) == 2 * p);
        assert(wait_after_failures(k) == next_backoff_spec(wait_after_failures((k - 1) as nat)));
    }
}

/// A session that ends is retried at once; a refused token or an unpaired
/// device stops the client; any other failure waits the next backoff delay.
pub proof fn law_next_wait(prev: u64, paired: Option<bool>)
    ensures
        next_wait_spec(prev, AttemptOutcome::SessionEnded) == Some(0u64),
        next_wait_spec(prev, AttemptOutcome::AuthRejected) is None,
        next_wait_spec(prev, AttemptOutcome::Failed { paired: Some(false) }) is None,
        paired != Some(false) ==> next_wait_spec(0, AttemptOutcome::Failed { paired }) == Some(5u64),
        paired != Some(false) ==> next_wait_spec(prev, AttemptOutcome::Failed { paired })
            == Some(next_backoff_spec(prev)),
{
}

/// The URL always ends with the device endpoint and the token, and starts
/// with a WebSocket scheme.
pub proof fn law_ws_url_shape(instance: Seq<char>, token: Seq<char>)
    ensures
        ({
            let u = ws_url_spec(instance, token);
            let tail = "/api/device/ws?token="@ + token;
            &&& u.subrange(u.len() - tail.len(), u.len() as int) == tail
            &&& (is_prefix_of("ws"@, u))
        }),
{
    let u = ws_url_spec(instance, token);
    let tail = "/api/device/ws?token="@ + token;
    let base = trim_end_char_spec(instance, '/');
    reveal_strlit("ws");
    reveal_strlit("wss");
    reveal_strlit("ws://");
    let b2 = if is_prefix_of("https"@, base) {
        "wss"@ + base.subrange(5, base.len() as int)
    } else if is_prefix_of("http"@, base) {
        "ws"@ + base.subrange(4, base.len() as int)
    } else {
        "ws://"@ + base
    };
    assert(u =~= b2 + tail);
    assert(u.subrange(u.len() - tail.len(), u.len() as int) =~= tail);
    assert(u.subrange(0, 2) =~= b2.subrange(0, 2));
    assert(b2.subrange(0, 2) =~= "ws"@);
}

} // verus!

verus! {

/// An upload request is read field by field: the upload's file id, ticket
/// and juicehost URL are the message's `file_id`, `ticket` and
/// `juicehost_url` fields (empty where absent), its file name the message's
/// `filename` (`upload` where absent), its size the message's `file_size`
/// (0 where absent). Messages of the other known types never ask for an
/// upload.
pub proof fn law_upload_request_fields(m: DeviceMessage, r: Reaction)
    requires
        reaction_ok(m, r),
    ensures
        (m.kind is Some && m.kind->Some_0@ == "upload_request"@) ==> ({
            let u = r->Upload_0;
            &&& r is Upload
            &&& m.ticket is Some ==> u.ticket@ == m.ticket->Some_0@
            &&& m.ticket is None ==> u.ticket@.len() == 0
            &&& m.juicehost_url is Some ==> u.juicehost_url@ == m.juicehost_url->Some_0@
            &&& m.juicehost_url is None ==> u.juicehost_url@.len() == 0
            &&& m.file_id is Some ==> u.file_id@ == m.file_id->Some_0@
            &&& m.file_id is None ==> u.file_id@.len() == 0
            &&& m.filename is Some ==> u.filename@ == m.filename->Some_0@
            &&& m.filename is None ==> u.filename@ == "upload"@
            &&& m.file_size is Some ==> u.file_size == m.file_size->Some_0
            &&& m.file_size is None ==> u.file_size == 0
        }),
        (m.kind is Some && (m.kind->Some_0@ == "auth_ok"@ || m.kind->Some_0@ == "heartbeat_ack"@
            || m.kind->Some_0@ == "ping"@)) ==> !(r is Upload),
        m.kind is None ==> (r is Unknown && r->Unknown_0@.len() == 0),
{
    reveal_strlit("upload_request");
    reveal_strlit("auth_ok");
    reveal_strlit("heartbeat_ack");
    reveal_strlit("ping");
    reveal_strlit("upload");
    assert("upload_request"@.len() == 14);
    assert("auth_ok"@.len() == 7);
    assert("heartbeat_ack"@.len() == 13);
    assert("ping"@.len() == 4);
    assert("upload_request"@ != "ping"@);
    assert("upload_request"@ != "auth_ok"@);
    assert("upload_request"@ != "heartbeat_ack"@);
    assert(opt_view(m.kind) == match m.kind {
        Some(k) => Some(k@),
        None => None::<Seq<char>>,
    });
    assert(opt_view(m.ticket) == match m.ticket {
        Some(k) => Some(k@),
        None => None::<Seq<char>>,
    });
    assert(opt_view(m.juicehost_url) == match m.juicehost_url {
        Some(k) => Some(k@),
        None => None::<Seq<char>>,
    });
    assert(opt_view(m.file_id) == match m.file_id {
        Some(k) => Some(k@),
        None => None::<Seq<char>>,
    });
    assert(opt_view(m.filename) == match m.filename {
        Some(k) => Some(k@),
        None => None::<Seq<char>>,
    });
}

} // verus!
