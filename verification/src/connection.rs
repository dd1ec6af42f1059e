//! The connectivity report: how each probe's outcome is judged and shown,
//! and how the firewall state is weighed against the transfer probes.
//!
//! The probes themselves (HTTP requests, WebSocket and QUIC connections)
//! are made by the shell, which hands their outcomes to these functions.

use vstd::prelude::*;
use crate::config::Config;
use crate::firewall::FirewallInfo;
use crate::http::{is_success, status_text, status_text_spec};
use crate::text::{
    after, after_spec, before, before_spec, concat2, concat3, contains_seq, contains_str, count_char,
    decimal, join_spec, lemma_count_concat, lemma_decimal_no_newline, lemma_join_count, lowercase, owned, push_char, str_eq, to_lowercase, trim_end_char,
    trim_end_char_spec, u64_to_decimal,
};

verus! {

/// One line of the connectivity report.
#[derive(Debug)]
pub struct TestResult {
    pub name: &'static str,
    pub ok: bool,
    pub detail: String,
    pub latency_ms: Option<u64>,
}

/// The mathematical content of a [`TestResult`].
pub struct TestView {
    pub name: Seq<char>,
    pub ok: bool,
    pub detail: Seq<char>,
    pub latency_ms: Option<u64>,
}

impl View for TestResult {
    type V = TestView;

    open spec fn view(&self) -> TestView {
        TestView { name: self.name@, ok: self.ok, detail: self.detail@, latency_ms: self.latency_ms }
    }
}

impl TestResult {
    /// A failed check named `name`, with nothing said yet.
    pub fn new(name: &'static str) -> (r: TestResult)
        ensures
            r@ == (TestView {
                name: name@,
                ok: false,
                detail: Seq::empty(),
                latency_ms: None,
            }),
    {
        TestResult { name, ok: false, detail: String::new(), latency_ms: None }
    }
}

/// How one check is shown: a tick or a cross, the name, the latency where
/// measured, and the detail where there is one.
pub open spec fn line_spec(t: TestView) -> Seq<char> {
    (if t.ok {
        "\u{2713}"@
    } else {
        "\u{2717}"@
    }) + " "@ + t.name + match t.latency_ms {
        Some(ms) => " ("@ + decimal(ms as nat) + "ms)"@,
        None => Seq::empty(),
    } + if t.detail.len() > 0 {
        " - "@ + t.detail
    } else {
        Seq::empty()
    }
}

/// The views of a list of results.
pub open spec fn tests_view(rs: Seq<TestResult>) -> Seq<TestView> {
    rs.map_values(|t: TestResult| t@)
}

/// The whole report: one line per check, in order.
pub open spec fn format_results_spec(rs: Seq<TestView>) -> Seq<char> {
    join_spec(rs.map_values(|t: TestView| line_spec(t)), "\n"@)
}

fn format_line(t: &TestResult) -> (r: String)
    ensures
        r@ == line_spec(t@),
{
    let mut line = if t.ok {
        String::from_str("\u{2713}")
    } else {
        String::from_str("\u{2717}")
    };
    line.append(" ");
    line.append(t.name);
    match t.latency_ms {
        Some(ms) => {
            let d = u64_to_decimal(ms);
            line.append(" (");
            line.append(d.as_str());
            line.append("ms)");
        },
        None => {},
    }
    if t.detail.as_str().unicode_len() > 0 {
        line.append(" - ");
        line.append(t.detail.as_str());
    }
    line
}

/// The compact multi-line summary, one line per check.
pub fn format_results(results: &[TestResult]) -> (r: String)
    ensures
        r@ == format_results_spec(tests_view(results@)),
{
    let ghost lines = tests_view(results@).map_values(|t: TestView| line_spec(t));
    let mut r = String::new();
    let n = results.len();
    let mut i: usize = 0;
    while i < n
        invariant
            i <= n,
            n == results@.len(),
            lines == tests_view(results@).map_values(|t: TestView| line_spec(t)),
            r@ == join_spec(lines.subrange(0, i as int), "\n"@),
        decreases n - i,
    {
        assert(lines.subrange(0, i + 1).drop_last() =~= lines.subrange(0, i as int));
        if i > 0 {
            r.append("\n");
        }
        let line = format_line(&results[i]);
        r.append(line.as_str());
        i = i + 1;
        proof {
            if i == 1 {
                assert(join_spec(lines.subrange(0, 1), "\n"@) == lines.subrange(0, 1)[0]);
            }
        }
    }
    assert(lines.subrange(0, n as int) =~= lines);
    r
}

/// Some check named `name` failed.
pub open spec fn failed_named(rs: Seq<TestView>, name: Seq<char>) -> bool {
    exists|i: int| 0 <= i < rs.len() && rs[i].name == name && !rs[i].ok
}

/// The firewall line: the firewall is only blamed when a transfer check
/// (QUIC or juicehost HTTP) also failed.
pub open spec fn check_firewall_spec(rs: Seq<TestView>, active: bool, description: Seq<char>) -> TestView {
    let transfer_failed = failed_named(rs, "Juicehost QUIC (UDP)"@) || failed_named(
        rs,
        "Juicehost (HTTP)"@,
    );
    let (ok, detail) = if active {
        if transfer_failed {
            (false, description + " - transfer checks failed, may be blocked"@)
        } else {
            (true, description + " - transfer checks reach server"@)
        }
    } else if description.len() == 0 {
        (true, "no active firewall detected"@)
    } else {
        (true, description)
    };
    TestView { name: "Firewall"@, ok, detail, latency_ms: None }
}

fn any_failed(results: &[TestResult], name: &str) -> (r: bool)
    ensures
        r == failed_named(tests_view(results@), name@),
{
    let n = results.len();
    let mut i: usize = 0;
    while i < n
        invariant
            i <= n,
            n == results@.len(),
            forall|k: int|
                0 <= k < i ==> !(tests_view(results@)[k].name == name@ && !tests_view(
                    results@,
                )[k].ok),
        decreases n - i,
    {
        if str_eq(results[i].name, name) && !results[i].ok {
            assert(tests_view(results@)[i as int] == results@[i as int]@);
            return true;
        }
        i = i + 1;
    }
    false
}

/// Correlates the transfer checks with the firewall state `info`.
pub fn check_firewall(results: &[TestResult], info: &FirewallInfo) -> (r: TestResult)
    ensures
        r@ == check_firewall_spec(tests_view(results@), info.active, info.description@),
{
    let mut r = TestResult::new("Firewall");
    let transfer_failed = any_failed(results, "Juicehost QUIC (UDP)") || any_failed(
        results,
        "Juicehost (HTTP)",
    );
    if info.active {
        if transfer_failed {
            r.detail = concat2(info.description.as_str(), " - transfer checks failed, may be blocked");
        } else {
            r.ok = true;
            r.detail = concat2(info.description.as_str(), " - transfer checks reach server");
        }
    } else if info.description.as_str().unicode_len() == 0 {
        r.ok = true;
        r.detail = String::from_str("no active firewall detected");
    } else {
        r.ok = true;
        r.detail = info.description.clone();
    }
    r
}

/// What an attempted QUIC connection came to.
#[derive(Debug)]
pub enum QuicOutcome {
    Connected,
    TlsReached,
    TimedOut,
    Closed,
    Other(String),
}

/// The mathematical content of a [`QuicOutcome`].
pub enum QuicView {
    Connected,
    TlsReached,
    TimedOut,
    Closed,
    Other(Seq<char>),
}

impl View for QuicOutcome {
    type V = QuicView;

    open spec fn view(&self) -> QuicView {
        match self {
            QuicOutcome::Connected => QuicView::Connected,
            QuicOutcome::TlsReached => QuicView::TlsReached,
            QuicOutcome::TimedOut => QuicView::TimedOut,
            QuicOutcome::Closed => QuicView::Closed,
            QuicOutcome::Other(m) => QuicView::Other(m@),
        }
    }
}

/// How a QUIC error's message `msg` is classified, from the words of its
/// lower-cased text `l`.
pub open spec fn classify_lowered_spec(l: Seq<char>, msg: Seq<char>) -> QuicView {
    if contains_seq(l, "certificate"@) || contains_seq(l, "unknownissuer"@) || contains_seq(
        l,
        "invalidcertificate"@,
    ) || contains_seq(l, "handshake"@) || contains_seq(l, "crypto"@) || contains_seq(l, "tls"@) {
        QuicView::TlsReached
    } else if contains_seq(l, "timed out"@) || contains_seq(l, "timeout"@) {
        QuicView::TimedOut
    } else if contains_seq(l, "refused"@) || contains_seq(l, "unreachable"@) || contains_seq(
        l,
        "connectionreset"@,
    ) || contains_seq(l, "no route"@) {
        QuicView::Closed
    } else {
        QuicView::Other(msg)
    }
}

/// How a QUIC error's message is classified, by words in its lower case.
pub open spec fn classify_quic_spec(msg: Seq<char>) -> QuicView {
    classify_lowered_spec(lowercase(msg), msg)
}

/// Classifies a QUIC error from `lowered`, its message in lower case: a
/// TLS-level failure means UDP reached the server; an unrecognised error
/// keeps the message `msg` as it was.
pub fn classify_lowered(lowered: &str, msg: &str) -> (r: QuicOutcome)
    ensures
        r@ == classify_lowered_spec(lowered@, msg@),
{
    let l = lowered;
    if contains_str(l, "certificate") || contains_str(l, "unknownissuer") || contains_str(
        l,
        "invalidcertificate",
    ) || contains_str(l, "handshake") || contains_str(l, "crypto") || contains_str(l, "tls") {
        QuicOutcome::TlsReached
    } else if contains_str(l, "timed out") || contains_str(l, "timeout") {
        QuicOutcome::TimedOut
    } else if contains_str(l, "refused") || contains_str(l, "unreachable") || contains_str(
        l,
        "connectionreset",
    ) || contains_str(l, "no route") {
        QuicOutcome::Closed
    } else {
        QuicOutcome::Other(owned(msg))
    }
}

/// Classifies a QUIC connection error from its message: a TLS-level failure
/// means UDP reached the server.
pub fn classify_quic_error(msg: &str) -> (r: QuicOutcome)
    ensures
        r@ == classify_quic_spec(msg@),
{
    let l = to_lowercase(msg);
    classify_lowered(l.as_str(), msg)
}

/// Whether a probe's outcome shows a QUIC server answered on the port (the
/// shell then probes no further port).
pub fn quic_answered(o: &QuicOutcome) -> (r: bool)
    ensures
        r == reached(o@),
{
    match o {
        QuicOutcome::Connected => true,
        QuicOutcome::TlsReached => true,
        _ => false,
    }
}

/// The UDP ports probed for QUIC, in order: juicehost's default QUIC port
/// (its public port plus one), then 443 for proxied setups.
pub fn quic_ports() -> (r: Vec<u16>)
    ensures
        r@ == seq![6403u16, 443u16],
{
    let mut r: Vec<u16> = Vec::new();
    r.push(6403);
    r.push(443);
    assert(r@ =~= seq![6403u16, 443u16]);
    r
}

/// `udp://host:port`.
pub open spec fn udp_target(host: Seq<char>, port: u16) -> Seq<char> {
    "(udp://"@ + host + ":"@ + decimal(port as nat) + ")"@
}

/// The QUIC line after trying `probes` in order: the first port that
/// answers (or reaches TLS) makes the check pass; otherwise the last failure
/// is reported.
pub open spec fn quic_fold(host: Seq<char>, probes: Seq<(u16, QuicView)>, detail: Seq<char>) -> (
    bool,
    Seq<char>,
)
    decreases probes.len(),
{
    if probes.len() == 0 {
        (false, detail)
    } else {
        let (port, o) = probes[0];
        let t = udp_target(host, port);
        match o {
            QuicView::Connected => (true, "QUIC handshake ok "@ + t),
            QuicView::TlsReached => (true, "UDP reachable, TLS cert not trusted "@ + t),
            QuicView::Closed => quic_fold(host, probes.drop_first(), "UDP port closed "@ + t),
            QuicView::TimedOut => quic_fold(
                host,
                probes.drop_first(),
                "UDP filtered or no QUIC server "@ + t,
            ),
            QuicView::Other(m) => quic_fold(host, probes.drop_first(), m + " "@ + t),
        }
    }
}

/// The probes as views.
pub open spec fn probes_view(ps: Seq<(u16, QuicOutcome)>) -> Seq<(u16, QuicView)> {
    ps.map_values(|p: (u16, QuicOutcome)| (p.0, p.1@))
}

fn udp_target_exec(host: &str, port: u16) -> (r: String)
    ensures
        r@ == udp_target(host@, port),
{
    let mut r = concat3("(udp://", host, ":");
    let d = u64_to_decimal(port as u64);
    r.append(d.as_str());
    r.append(")");
    r
}

/// The QUIC check's line from the outcomes of the ports tried, in order
/// (the shell stops probing at the first port that answers).
pub fn quic_check(host: &str, probes: &[(u16, QuicOutcome)]) -> (r: TestResult)
    ensures
        r.name@ == "Juicehost QUIC (UDP)"@,
        r.latency_ms is None,
        (r.ok, r.detail@) == quic_fold(host@, probes_view(probes@), "no QUIC ports responded"@),
{
    let mut r = TestResult::new("Juicehost QUIC (UDP)");
    let mut detail = String::from_str("no QUIC ports responded");
    let n = probes.len();
    let mut i: usize = 0;
    let ghost pv = probes_view(probes@);
    assert(pv.subrange(0, n as int) =~= pv);
    while i < n
        invariant
            i <= n,
            n == probes@.len(),
            pv == probes_view(probes@),
            r.name@ == "Juicehost QUIC (UDP)"@,
            r.latency_ms is None,
            !r.ok,
            quic_fold(host@, pv, "no QUIC ports responded"@) == quic_fold(
                host@,
                pv.subrange(i as int, n as int),
                detail@,
            ),
        decreases n - i,
    {
        let ghost rest = pv.subrange(i as int, n as int);
        assert(rest[0] == pv[i as int]);
        assert(rest.drop_first() =~= pv.subrange(i + 1, n as int));
        assert(pv[i as int] == (probes@[i as int].0, probes@[i as int].1@));
        let port = probes[i].0;
        let t = udp_target_exec(host, port);
        match &probes[i].1 {
            QuicOutcome::Connected => {
                r.ok = true;
                r.detail = concat2("QUIC handshake ok ", t.as_str());
                return r;
            },
            QuicOutcome::TlsReached => {
                r.ok = true;
                r.detail = concat2("UDP reachable, TLS cert not trusted ", t.as_str());
                return r;
            },
            QuicOutcome::Closed => {
                detail = concat2("UDP port closed ", t.as_str());
            },
            QuicOutcome::TimedOut => {
                detail = concat2("UDP filtered or no QUIC server ", t.as_str());
            },
            QuicOutcome::Other(m) => {
                detail = concat3(m.as_str(), " ", t.as_str());
            },
        }
        i = i + 1;
    }
    assert(pv.subrange(n as int, n as int) =~= Seq::<(u16, QuicView)>::empty());
    r.detail = detail;
    r
}

} // verus!

verus! {

/// The juicebox instance without trailing slashes, where one is configured.
pub open spec fn instance_spec(juicebox_instance: Seq<char>) -> Option<Seq<char>> {
    let t = trim_end_char_spec(juicebox_instance, '/');
    if t.len() == 0 {
        None
    } else {
        Some(t)
    }
}

/// The configured juicebox instance without trailing slashes (`None` when
/// none is configured).
pub fn instance(config: &Config) -> (r: Option<String>)
    ensures
        match r {
            Some(s) => instance_spec(config.juicebox_instance@) == Some(s@),
            None => instance_spec(config.juicebox_instance@) is None,
        },
{
    let t = trim_end_char(config.juicebox_instance.as_str(), '/');
    if t.as_str().unicode_len() == 0 {
        None
    } else {
        Some(t)
    }
}

/// The host part of a juicehost URL: after the scheme's `://` (up to a
/// further `://`), or else the whole URL; then up to the first `/` and the
/// first `:`.
pub open spec fn juicehost_host_spec(url: Seq<char>) -> Seq<char> {
    let a = match after_spec(url, "://"@) {
        Some(rest) => before_spec(rest, "://"@),
        None => before_spec(url, "/"@),
    };
    before_spec(before_spec(a, "/"@), ":"@)
}

/// The host name to probe for QUIC, taken from the juicehost URL.
pub fn juicehost_host(url: &str) -> (r: String)
    ensures
        r@ == juicehost_host_spec(url@),
{
    let a = match after(url, "://") {
        Some(rest) => before(rest.as_str(), "://"),
        None => before(url, "/"),
    };
    let b = before(a.as_str(), "/");
    before(b.as_str(), ":")
}

/// The juicehost base URL that the settings name (the storage host without
/// trailing slashes), where they name one; otherwise the one juicebox
/// advertises is used.
pub fn configured_juicehost(config: &Config) -> (r: Option<String>)
    ensures
        match config.storage_host {
            Some(h) => r matches Some(u) && u@ == trim_end_char_spec(h@, '/'),
            None => r is None,
        },
{
    match &config.storage_host {
        Some(h) => Some(trim_end_char(h.as_str(), '/')),
        None => None,
    }
}

/// The local daemon's WebSocket URL (`ws://` or, with TLS, `wss://`).
pub fn daemon_url(config: &Config) -> (r: String)
    ensures
        r@ == (if config.use_tls {
            "wss"@
        } else {
            "ws"@
        }) + "://"@ + config.daemon_address@,
{
    let scheme = if config.use_tls {
        "wss"
    } else {
        "ws"
    };
    concat3(scheme, "://", config.daemon_address.as_str())
}

/// What an HTTP probe came to.
pub enum HttpProbe {
    /// The server answered with this status after this many milliseconds.
    Responded { status: u16, latency_ms: u64 },
    /// The request failed; the error's text.
    Failed(String),
}

/// A probe's status code is one a response can carry.
pub open spec fn http_probe_valid(p: HttpProbe) -> bool {
    p matches HttpProbe::Responded { status, .. } ==> 100 <= status <= 999
}

/// The line of an HTTP check.
pub open spec fn http_check_spec(name: Seq<char>, p: HttpProbe) -> TestView {
    match p {
        HttpProbe::Responded { status, latency_ms } => TestView {
            name,
            ok: is_success(status),
            detail: "HTTP "@ + status_text_spec(status),
            latency_ms: Some(latency_ms),
        },
        HttpProbe::Failed(e) => TestView { name, ok: false, detail: e@, latency_ms: None },
    }
}

/// Judges an HTTP probe: a 2xx answer passes.
pub fn http_check(name: &'static str, probe: &HttpProbe) -> (r: TestResult)
    requires
        http_probe_valid(*probe),
    ensures
        r@ == http_check_spec(name@, *probe),
{
    let mut r = TestResult::new(name);
    match probe {
        HttpProbe::Responded { status, latency_ms } => {
            r.latency_ms = Some(*latency_ms);
            if 200 <= *status && *status <= 299 {
                r.ok = true;
            }
            let t = status_text(*status);
            r.detail = concat2("HTTP ", t.as_str());
        },
        HttpProbe::Failed(e) => {
            r.detail = e.clone();
        },
    }
    r
}

/// What a WebSocket probe came to.
pub enum WsProbe {
    /// The upgrade succeeded after this many milliseconds.
    Connected { latency_ms: u64 },
    /// The server answered the upgrade with an HTTP error response; the
    /// error's text.
    HttpRejected { latency_ms: u64, message: String },
    /// The connection failed otherwise; the error's text.
    Failed(String),
    /// No answer within the check's time limit.
    TimedOut,
}

/// The line of the device WebSocket check: an HTTP refusal still shows the
/// endpoint is alive (it wants a valid token).
pub open spec fn device_ws_check_spec(p: WsProbe) -> TestView {
    let name = "Device WebSocket (WS)"@;
    match p {
        WsProbe::Connected { latency_ms } => TestView {
            name,
            ok: true,
            detail: "connected"@,
            latency_ms: Some(latency_ms),
        },
        WsProbe::HttpRejected { latency_ms, .. } => TestView {
            name,
            ok: true,
            detail: "endpoint responds (auth required)"@,
            latency_ms: Some(latency_ms),
        },
        WsProbe::Failed(e) => TestView { name, ok: false, detail: e@, latency_ms: None },
        WsProbe::TimedOut => TestView { name, ok: false, detail: "timed out"@, latency_ms: None },
    }
}

/// Judges the device WebSocket probe.
pub fn device_ws_check(probe: &WsProbe) -> (r: TestResult)
    ensures
        r@ == device_ws_check_spec(*probe),
{
    let mut r = TestResult::new("Device WebSocket (WS)");
    match probe {
        WsProbe::Connected { latency_ms } => {
            r.ok = true;
            r.latency_ms = Some(*latency_ms);
            r.detail = String::from_str("connected");
        },
        WsProbe::HttpRejected { latency_ms, .. } => {
            r.ok = true;
            r.latency_ms = Some(*latency_ms);
            r.detail = String::from_str("endpoint responds (auth required)");
        },
        WsProbe::Failed(e) => {
            r.detail = e.clone();
        },
        WsProbe::TimedOut => {
            r.detail = String::from_str("timed out");
        },
    }
    r
}

/// The line of the local daemon check: only a completed upgrade passes.
pub open spec fn daemon_check_spec(p: WsProbe) -> TestView {
    let name = "Local daemon (IPC WS)"@;
    match p {
        WsProbe::Connected { latency_ms } => TestView {
            name,
            ok: true,
            detail: "connected"@,
            latency_ms: Some(latency_ms),
        },
        WsProbe::HttpRejected { message, .. } => TestView {
            name,
            ok: false,
            detail: message@,
            latency_ms: None,
        },
        WsProbe::Failed(e) => TestView { name, ok: false, detail: e@, latency_ms: None },
        WsProbe::TimedOut => TestView {
            name,
            ok: false,
            detail: "timed out (daemon not running?)"@,
            latency_ms: None,
        },
    }
}

/// Judges the local daemon probe.
pub fn daemon_check(probe: &WsProbe) -> (r: TestResult)
    ensures
        r@ == daemon_check_spec(*probe),
{
    let mut r = TestResult::new("Local daemon (IPC WS)");
    match probe {
        WsProbe::Connected { latency_ms } => {
            r.ok = true;
            r.latency_ms = Some(*latency_ms);
            r.detail = String::from_str("connected");
        },
        WsProbe::HttpRejected { message, .. } => {
            r.detail = message.clone();
        },
        WsProbe::Failed(e) => {
            r.detail = e.clone();
        },
        WsProbe::TimedOut => {
            r.detail = String::from_str("timed out (daemon not running?)");
        },
    }
    r
}

/// A check that cannot run because `what` is not configured.
pub fn not_configured(name: &'static str, what: &str) -> (r: TestResult)
    ensures
        r@ == (TestView {
            name: name@,
            ok: false,
            detail: what@ + " not configured"@,
            latency_ms: None,
        }),
{
    let mut r = TestResult::new(name);
    r.detail = concat2(what, " not configured");
    r
}

} // verus!

verus! {

/// The firewall is only blamed (its line fails) when it is active and a
/// transfer check also failed.
pub proof fn law_firewall_blamed_only_with_failed_transfer(
    rs: Seq<TestView>,
    active: bool,
    description: Seq<char>,
)
    ensures
        !check_firewall_spec(rs, active, description).ok <==> (active && (failed_named(
            rs,
            "Juicehost QUIC (UDP)"@,
        ) || failed_named(rs, "Juicehost (HTTP)"@))),
{
}

/// A probe outcome that shows UDP reached a QUIC server.
pub open spec fn reached(o: QuicView) -> bool {
    o is Connected || o is TlsReached
}

/// The QUIC check passes exactly when some port answered or reached TLS.
pub proof fn law_quic_ok_iff_some_port_reached(
    host: Seq<char>,
    probes: Seq<(u16, QuicView)>,
    detail: Seq<char>,
)
    ensures
        quic_fold(host, probes, detail).0 <==> exists|i: int|
            0 <= i < probes.len() && reached(#[trigger] probes[i].1),
    decreases probes.len(),
{
    if probes.len() > 0 {
        let t = udp_target(host, probes[0].0);
        let next = match probes[0].1 {
            QuicView::Closed => "UDP port closed "@ + t,
            QuicView::TimedOut => "UDP filtered or no QUIC server "@ + t,
            QuicView::Other(m) => m + " "@ + t,
            _ => detail,
        };
        law_quic_ok_iff_some_port_reached(host, probes.drop_first(), next);
        if exists|i: int| 0 <= i < probes.len() && reached(#[trigger] probes[i].1) {
            let i = choose|i: int| 0 <= i < probes.len() && reached(#[trigger] probes[i].1);
            if i > 0 {
                assert(probes.drop_first()[i - 1] == probes[i]);
            }
        }
        if exists|i: int|
            0 <= i < probes.drop_first().len() && reached(#[trigger] probes.drop_first()[i].1) {
            let i = choose|i: int|
                0 <= i < probes.drop_first().len() && reached(#[trigger] probes.drop_first()[i].1);
            assert(probes[i + 1] == probes.drop_first()[i]);
        }
    }
}

/// A line of the report holds no line break when the check's name and
/// detail hold none.
proof fn lemma_line_no_newline(t: TestView)
    requires
        count_char(t.name, '\n') == 0,
        count_char(t.detail, '\n') == 0,
    ensures
        count_char(line_spec(t), '\n') == 0,
{
    reveal_strlit("\u{2713}");
    reveal_strlit("\u{2717}");
    reveal_strlit(" ");
    reveal_strlit(" (");
    reveal_strlit("ms)");
    reveal_strlit(" - ");
    reveal_with_fuel(count_char, 4);
    let icon = if t.ok {
        "\u{2713}"@
    } else {
        "\u{2717}"@
    };
    let lat = match t.latency_ms {
        Some(ms) => " ("@ + decimal(ms as nat) + "ms)"@,
        None => Seq::empty(),
    };
    let det = if t.detail.len() > 0 {
        " - "@ + t.detail
    } else {
        Seq::empty()
    };
    assert(count_char(icon, '\n') == 0);
    assert(count_char(" "@, '\n') == 0);
    assert(count_char(Seq::<char>::empty(), '\n') == 0);
    if let Some(ms) = t.latency_ms {
        lemma_decimal_no_newline(ms as nat);
        assert(count_char(" ("@, '\n') == 0);
        assert(count_char("ms)"@, '\n') == 0);
        lemma_count_concat(" ("@, decimal(ms as nat), '\n');
        lemma_count_concat(" ("@ + decimal(ms as nat), "ms)"@, '\n');
    }
    if t.detail.len() > 0 {
        assert(count_char(" - "@, '\n') == 0);
        lemma_count_concat(" - "@, t.detail, '\n');
    }
    lemma_count_concat(icon, " "@, '\n');
    lemma_count_concat(icon + " "@, t.name, '\n');
    lemma_count_concat(icon + " "@ + t.name, lat, '\n');
    lemma_count_concat(icon + " "@ + t.name + lat, det, '\n');
}

/// The report has one line per check: for checks whose names and details
/// are single lines, it holds one line break fewer than there are checks.
pub proof fn law_one_line_per_check(rs: Seq<TestView>)
    requires
        rs.len() > 0,
        forall|i: int|
            0 <= i < rs.len() ==> count_char((#[trigger] rs[i]).name, '\n') == 0 && count_char(
                rs[i].detail,
                '\n',
            ) == 0,
    ensures
        count_char(format_results_spec(rs), '\n') == rs.len() - 1,
{
    let lines = rs.map_values(|t: TestView| line_spec(t));
    assert forall|i: int| 0 <= i < lines.len() implies count_char(#[trigger] lines[i], '\n') == 0 by {
        lemma_line_no_newline(rs[i]);
    }
    reveal_strlit("\n");
    reveal_with_fuel(count_char, 2);
    lemma_join_count(lines, "\n"@, '\n');
}

} // verus!

verus! {

/// The device WebSocket check passes exactly when the endpoint answered the
/// upgrade (completed, or refused over HTTP for want of a valid token); a
/// completed upgrade shows "connected" with its latency, a failure shows its
/// error, a timeout "timed out", and failures carry no latency.
pub proof fn law_device_ws_check_judges(p: WsProbe)
    ensures
        device_ws_check_spec(p).name == "Device WebSocket (WS)"@,
        device_ws_check_spec(p).ok <==> (p is Connected || p is HttpRejected),
        p matches WsProbe::Connected { latency_ms } ==> (device_ws_check_spec(p).detail
            == "connected"@ && device_ws_check_spec(p).latency_ms == Some(latency_ms)),
        p matches WsProbe::HttpRejected { latency_ms, .. } ==> (device_ws_check_spec(p).detail
            == "endpoint responds (auth required)"@ && device_ws_check_spec(p).latency_ms == Some(
            latency_ms,
        )),
        p matches WsProbe::Failed(e) ==> (device_ws_check_spec(p).detail == e@
            && device_ws_check_spec(p).latency_ms is None),
        p is TimedOut ==> (device_ws_check_spec(p).detail == "timed out"@
            && device_ws_check_spec(p).latency_ms is None),
{
}

/// The local daemon check passes exactly when the upgrade completed; an HTTP
/// refusal or another failure shows its error, a timeout suggests the daemon
/// is not running.
pub proof fn law_daemon_check_judges(p: WsProbe)
    ensures
        daemon_check_spec(p).name == "Local daemon (IPC WS)"@,
        daemon_check_spec(p).ok <==> p is Connected,
        p matches WsProbe::Connected { latency_ms } ==> (daemon_check_spec(p).detail
            == "connected"@ && daemon_check_spec(p).latency_ms == Some(latency_ms)),
        p matches WsProbe::HttpRejected { message, .. } ==> (daemon_check_spec(p).detail
            == message@ && daemon_check_spec(p).latency_ms is None),
        p matches WsProbe::Failed(e) ==> (daemon_check_spec(p).detail == e@
            && daemon_check_spec(p).latency_ms is None),
        p is TimedOut ==> daemon_check_spec(p).detail == "timed out (daemon not running?)"@,
{
}

/// An HTTP check passes exactly when the server answered with a 2xx status;
/// an answer shows "HTTP " and the status as written, with its latency; a
/// failed request shows its error and no latency.
pub proof fn law_http_check_judges(name: Seq<char>, p: HttpProbe)
    ensures
        http_check_spec(name, p).name == name,
        http_check_spec(name, p).ok <==> (p matches HttpProbe::Responded { status, .. } && 200
            <= status <= 299),
        p matches HttpProbe::Responded { status, latency_ms } ==> (http_check_spec(name, p).detail
            == "HTTP "@ + status_text_spec(status) && http_check_spec(name, p).latency_ms == Some(
            latency_ms,
        )),
        p matches HttpProbe::Failed(e) ==> (http_check_spec(name, p).detail == e@ && http_check_spec(
            name,
            p,
        ).latency_ms is None),
{
}

} // verus!
