use juicebox_plus::connection::{classify_lowered, quic_answered};
use juicebox_plus::firewall::lowered_is_word;
use juicebox_plus::connection::{
    check_firewall, classify_quic_error, configured_juicehost, daemon_check, daemon_url,
    device_ws_check, format_results, http_check, instance, juicehost_host, not_configured,
    quic_check, quic_ports, HttpProbe, QuicOutcome, TestResult, WsProbe,
};
use juicebox_plus::config::Config;
use juicebox_plus::device::{
    build_ws_url, classify_ws_error, device_paired_from_status, heartbeat,
    may_connect, next_backoff, next_wait, react, upload_cancelled_frame, AttemptOutcome, DeviceMessage, Reaction,
};
use juicebox_plus::firewall::{
    detect, ensure_rule, exe_path_failure, netsh_add_args, rule_listed, shell_execute_outcome,
    transfer_block_hint, AddOutcome, FirewallInfo, FirewallProbe, LogLevel,
};
use juicebox_plus::http::status_text;

fn result(name: &'static str, ok: bool, detail: &str, latency: Option<u64>) -> TestResult {
    let mut r = TestResult::new(name);
    r.ok = ok;
    r.detail = detail.to_string();
    r.latency_ms = latency;
    r
}

#[test]
fn report_lines() {
    let rs = vec![
        result("Juicebox API (HTTP)", true, "HTTP 200 OK", Some(12)),
        result("Juicehost QUIC (UDP)", false, "", None),
    ];
    assert_eq!(
        format_results(&rs),
        "\u{2713} Juicebox API (HTTP) (12ms) - HTTP 200 OK\n\u{2717} Juicehost QUIC (UDP)"
    );
    assert_eq!(format_results(&[]), "");
}

#[test]
fn report_has_one_line_per_check() {
    let rs = vec![
        result("Juicebox API (HTTP)", true, "HTTP 200 OK", Some(3)),
        result("Device WebSocket (WS)", true, "connected", Some(40)),
        result("Juicehost (HTTP)", false, "timed out", None),
        result("Firewall", true, "no active firewall detected", None),
    ];
    let report = format_results(&rs);
    assert_eq!(report.matches('\n').count(), rs.len() - 1);
    assert_eq!(report.lines().count(), rs.len());
}

#[test]
fn firewall_blamed_only_with_failed_transfer() {
    let active = FirewallInfo { active: true, description: "ufw active".into() };
    let failed = vec![result("Juicehost (HTTP)", false, "x", None)];
    let r = check_firewall(&failed, &active);
    assert!(!r.ok);
    assert_eq!(r.name, "Firewall");
    assert_eq!(r.detail, "ufw active - transfer checks failed, may be blocked");
    let fine = vec![result("Juicehost (HTTP)", true, "", None), result("Juicebox API (HTTP)", false, "", None)];
    let r = check_firewall(&fine, &active);
    assert!(r.ok);
    assert_eq!(r.detail, "ufw active - transfer checks reach server");
    let r = check_firewall(&failed, &FirewallInfo::default());
    assert!(r.ok);
    assert_eq!(r.detail, "no active firewall detected");
    let r = check_firewall(&failed, &FirewallInfo { active: false, description: "Windows Firewall rule present".into() });
    assert!(r.ok);
    assert_eq!(r.detail, "Windows Firewall rule present");
}

#[test]
fn firewall_detection() {
    let info = detect(&FirewallProbe::Linux {
        ufw: Some("Status: active\n".into()),
        firewalld: Some("RUNNING".into()),
        nft: Some("chain input { policy drop; }".into()),
    });
    assert!(info.active);
    assert_eq!(info.description, "ufw active, firewalld running, nftables drop policy");
    let info = detect(&FirewallProbe::Linux { ufw: Some("Status: inactive".into()), firewalld: None, nft: None });
    assert!(!info.active);
    assert_eq!(info.description, "");
    let info = detect(&FirewallProbe::Linux {
        ufw: Some("Status: inactive\n".into()),
        firewalld: Some("not running\n".into()),
        nft: None,
    });
    assert!(!info.active);
    assert_eq!(info.description, "");
    let info = detect(&FirewallProbe::Linux { ufw: None, firewalld: Some("running\n".into()), nft: None });
    assert!(info.active);
    assert_eq!(info.description, "firewalld running");
    let info = detect(&FirewallProbe::Macos { socketfilterfw: Some("Firewall is enabled. (State = 1)".into()), pfctl: Some("Status: Disabled".into()) });
    assert!(info.active);
    assert_eq!(info.description, "Application Firewall enabled");
    let info = detect(&FirewallProbe::Windows { rule_present: false });
    assert!(info.active);
    assert_eq!(info.description, "Windows Firewall: no juicebox-plus rule");
    assert!(!detect(&FirewallProbe::Other).active);
}

#[test]
fn firewall_hint_and_rule_helpers() {
    let active = FirewallInfo { active: true, description: "pf enabled".into() };
    assert_eq!(transfer_block_hint(true, &active).as_deref(), Some("Possible firewall block: pf enabled - transfer may be blocked"));
    assert_eq!(transfer_block_hint(false, &active), None);
    assert_eq!(transfer_block_hint(true, &FirewallInfo::default()), None);
    assert_eq!(
        netsh_add_args("C:\\app.exe"),
        "advfirewall firewall add rule name=\"Juicebox Plus\" dir=out program=\"C:\\app.exe\" action=allow profile=any"
    );
    assert!(rule_listed("Rule Name: Juicebox Plus\n"));
    assert!(!rule_listed("No rules match the specified criteria. Juicebox Plus"));
    assert!(matches!(shell_execute_outcome(42), AddOutcome::Added));
    assert!(matches!(shell_execute_outcome(5), AddOutcome::Failed(m) if m == "ShellExecuteW returned 5"));
    assert!(matches!(shell_execute_outcome(-3), AddOutcome::Failed(m) if m == "ShellExecuteW returned -3"));
    assert!(matches!(exe_path_failure("gone"), AddOutcome::Failed(m) if m == "cannot resolve exe path: gone"));
    let (lvl, msg) = ensure_rule(&AddOutcome::Failed("denied".into()));
    assert!(matches!(lvl, LogLevel::Warn));
    assert_eq!(msg, "Could not add Windows firewall rule: denied");
    let (lvl, _) = ensure_rule(&AddOutcome::AlreadyPresent);
    assert!(matches!(lvl, LogLevel::Debug));
}

#[test]
fn quic_classification_and_report() {
    assert!(matches!(classify_quic_error("Certificate UnknownIssuer"), QuicOutcome::TlsReached));
    assert!(matches!(classify_quic_error("Connection Timed Out"), QuicOutcome::TimedOut));
    assert!(matches!(classify_quic_error("connection REFUSED"), QuicOutcome::Closed));
    assert!(matches!(classify_quic_error("Weird Thing"), QuicOutcome::Other(m) if m == "Weird Thing"));
    assert_eq!(quic_ports(), vec![6403, 443]);
    let r = quic_check("h.example", &[(6403, QuicOutcome::Closed), (443, QuicOutcome::TimedOut)]);
    assert!(!r.ok);
    assert_eq!(r.detail, "UDP filtered or no QUIC server (udp://h.example:443)");
    let r = quic_check("h.example", &[(6403, QuicOutcome::TlsReached)]);
    assert!(r.ok);
    assert_eq!(r.detail, "UDP reachable, TLS cert not trusted (udp://h.example:6403)");
    let r = quic_check("h", &[]);
    assert_eq!(r.detail, "no QUIC ports responded");
    let r = quic_check("h", &[(1, QuicOutcome::Other("boom".into()))]);
    assert_eq!(r.detail, "boom (udp://h:1)");
}

#[test]
fn probes_and_urls() {
    assert_eq!(status_text(404), "404 Not Found");
    assert_eq!(status_text(299), "299 <unknown status code>");
    let r = http_check("Juicehost (HTTP)", &HttpProbe::Responded { status: 503, latency_ms: 7 });
    assert!(!r.ok);
    assert_eq!(r.detail, "HTTP 503 Service Unavailable");
    assert_eq!(r.latency_ms, Some(7));
    let r = http_check("Juicehost (HTTP)", &HttpProbe::Responded { status: 204, latency_ms: 1 });
    assert!(r.ok);
    let r = device_ws_check(&WsProbe::HttpRejected { latency_ms: 3, message: "401".into() });
    assert!(r.ok);
    assert_eq!(r.detail, "endpoint responds (auth required)");
    let r = daemon_check(&WsProbe::TimedOut);
    assert_eq!(r.detail, "timed out (daemon not running?)");
    let r = not_configured("Juicehost (HTTP)", "juicehost");
    assert_eq!(r.detail, "juicehost not configured");
    let mut c = Config::default();
    assert_eq!(instance(&c).as_deref(), Some("https://box.juicey.dev"));
    c.juicebox_instance = "///".into();
    assert_eq!(instance(&c), None);
    assert_eq!(daemon_url(&c), "ws://127.0.0.1:22100");
    c.use_tls = true;
    assert_eq!(daemon_url(&c), "wss://127.0.0.1:22100");
    c.storage_host = Some("https://host.example/".into());
    assert_eq!(configured_juicehost(&c).as_deref(), Some("https://host.example"));
    assert_eq!(juicehost_host("https://host.example:6402/path"), "host.example");
    assert_eq!(juicehost_host("host.example:8080/x"), "host.example");
    assert_eq!(juicehost_host("http://a://b"), "a");
}

#[test]
fn device_socket_decisions() {
    assert_eq!(build_ws_url("https://box.juicey.dev/", "T"), "wss://box.juicey.dev/api/device/ws?token=T");
    assert_eq!(build_ws_url("http://lan:8080", "x"), "ws://lan:8080/api/device/ws?token=x");
    assert_eq!(build_ws_url("lan", "x"), "ws://lan/api/device/ws?token=x");
    assert_eq!(classify_ws_error(Some(401)), Some(true));
    assert_eq!(classify_ws_error(Some(500)), Some(false));
    assert_eq!(classify_ws_error(None), None);
    assert_eq!(device_paired_from_status(Some(403)), Some(false));
    assert_eq!(device_paired_from_status(Some(200)), Some(true));
    assert_eq!(device_paired_from_status(Some(502)), Some(true));
    assert_eq!(device_paired_from_status(None), None);
    let mut waits = Vec::new();
    let mut w = 0;
    for _ in 0..7 {
        w = next_backoff(w);
        waits.push(w);
    }
    assert_eq!(waits, vec![5, 10, 20, 40, 60, 60, 60]);
    assert_eq!(next_backoff(3), 5);
    assert_eq!(next_backoff(31), 60);
    assert_eq!(next_backoff(u64::MAX), 60);
    assert_eq!(next_wait(20, &AttemptOutcome::Failed { paired: Some(false) }), None);
    assert_eq!(next_wait(20, &AttemptOutcome::Failed { paired: None }), Some(40));
    assert_eq!(next_wait(0, &AttemptOutcome::Failed { paired: Some(true) }), Some(5));
    assert_eq!(next_wait(40, &AttemptOutcome::SessionEnded), Some(0));
    assert_eq!(next_wait(40, &AttemptOutcome::AuthRejected), None);
    assert!(may_connect(true, true, &Some("t".into())));
    assert!(!may_connect(true, false, &Some("t".into())));
    assert!(!may_connect(true, true, &None));
    assert_eq!(heartbeat(true).as_deref(), Some("{\"type\":\"heartbeat\"}"));
    assert_eq!(heartbeat(false), None);
    assert_eq!(upload_cancelled_frame("a\"b\n"), "{\"file_id\":\"a\\\"b\\n\",\"type\":\"upload_cancelled\"}");
}

fn msg(kind: Option<&str>) -> DeviceMessage {
    DeviceMessage { kind: kind.map(|s| s.to_string()), file_id: None, filename: None, file_size: None, ticket: None, juicehost_url: None }
}

#[test]
fn device_message_reactions() {
    assert!(matches!(react(&msg(Some("auth_ok"))), Reaction::AuthOk));
    assert!(matches!(react(&msg(Some("heartbeat_ack"))), Reaction::HeartbeatAck));
    assert!(matches!(react(&msg(Some("ping"))), Reaction::Pong(f) if f == "{\"type\":\"ping_response\"}"));
    assert!(matches!(react(&msg(None)), Reaction::Unknown(k) if k.is_empty()));
    let mut m = msg(Some("upload_request"));
    m.file_id = Some("f1".into());
    m.file_size = Some(99);
    match react(&m) {
        Reaction::Upload(u) => {
            assert_eq!(u.file_id, "f1");
            assert_eq!(u.filename, "upload");
            assert_eq!(u.file_size, 99);
            assert_eq!(u.ticket, "");
            assert_eq!(u.juicehost_url, "");
        }
        other => panic!("unexpected {other:?}"),
    }
}

#[test]
fn lowered_text_decisions() {
    assert!(matches!(classify_lowered("tls alert", "TLS alert"), QuicOutcome::TlsReached));
    assert!(matches!(classify_lowered("connection timed out", "x"), QuicOutcome::TimedOut));
    assert!(matches!(classify_lowered("no route to host", "x"), QuicOutcome::Closed));
    match classify_lowered("weird", "Weird") {
        QuicOutcome::Other(m) => assert_eq!(m, "Weird"),
        other => panic!("unexpected {other:?}"),
    }
    assert!(quic_answered(&QuicOutcome::Connected));
    assert!(quic_answered(&QuicOutcome::TlsReached));
    assert!(!quic_answered(&QuicOutcome::TimedOut));
    assert!(!quic_answered(&QuicOutcome::Other("x".into())));
    assert!(lowered_is_word("  running\n", "running"));
    assert!(!lowered_is_word("not running\n", "running"));
}
