use juicebox_plus::ipc::{not_paired, reserve_refused};
use juicebox_plus::tray::MenuEntry;
use juicebox_plus::config::Config;
use juicebox_plus::dialogs::{
    dialog_answer, dialog_lines, duration_parts, list_choice_answer, macos_escape,
    preselect_index, split_whitespace, DurationUnit,
};
use juicebox_plus::ipc::{
    complete_body, complete_refused, daemon_ws_url, endpoint, file_name_or, final_url,
    frame_text, generate_nonce, guess_mime, job_id, job_payload, mime_for_extension, preflight,
    rand_u16, reservation, telemetry_error_note, upload_complete_note, upload_failure,
    upload_finished, uploads_done_message, uuid_simple, Frame, IpcError,
};
use juicebox_plus::pairing::{
    is_valid_key_format, mark_paired, mark_unpaired, pairing_body, pairing_code,
    pairing_outcome, reply_step, typed_key, NotificationSignal, ReplyStep,
};
use juicebox_plus::progress::ProgressTracker;
use juicebox_plus::token::token_from_file;
use juicebox_plus::tray::{action_for, menu_model, tooltip, MenuChoice};
use juicebox_plus::state::TrayAction;
use juicebox_plus::app_id::register_aumid;

#[test]
fn mime_types() {
    assert_eq!(guess_mime("photo.PNG"), "image/png");
    assert_eq!(guess_mime("/a/b/archive.tar.GZ"), "application/gzip");
    assert_eq!(guess_mime("README"), "application/octet-stream");
    assert_eq!(guess_mime("clip.mov"), "application/octet-stream");
    assert_eq!(guess_mime(".json"), "application/octet-stream");
    assert_eq!(guess_mime("trailing."), "application/octet-stream");
    assert_eq!(guess_mime("dir.d/page.Html"), "text/html");
    assert_eq!(mime_for_extension("svg"), "image/svg+xml");
    assert_eq!(mime_for_extension("htm"), "text/html");
    assert_eq!(mime_for_extension("iso"), "application/x-iso9660-image");
}

#[test]
fn ids_and_names() {
    assert_eq!(generate_nonce(0), "0");
    assert_eq!(generate_nonce(0x1a2b), "1a2b");
    assert_eq!(uuid_simple(0x65, 7, 0xbeef), "00000065-0007-beef");
    assert_eq!(job_id(0x1234_5678_9, 999, 1), "jp_123456789-03e7-0001");
    assert_eq!(rand_u16(0x1_0000_abcd), 0xabcd);
    assert_eq!(file_name_or("/tmp/x/report.pdf", "upload"), "report.pdf");
    assert_eq!(file_name_or("/", "upload"), "upload");
    assert_eq!(file_name_or("notes.txt", "upload"), "notes.txt");
    assert_eq!(file_name_or("a/..", "upload"), "upload");
    assert_eq!(endpoint("https://h//", "/api/config"), "https://h/api/config");
    assert_eq!(daemon_ws_url(None, false), "ws://127.0.0.1:22100");
    assert_eq!(daemon_ws_url(Some("1.2.3.4:5"), true), "wss://1.2.3.4:5");
}

#[test]
fn job_for_the_daemon() {
    let mut c = Config::default();
    c.fec_enabled = false;
    let j = job_payload(&c, "jp_1".into(), "/f", 10, "tok".into());
    assert_eq!(j.fec_mode, "disabled");
    assert_eq!(j.candidate_endpoints, vec!["https://box.juicey.dev/".to_string()]);
    assert_eq!(j.chunk_size_bytes_hint, 33_554_432);
    assert_eq!(j.compression_policy, "auto");
    assert_eq!(j.auth_bearer, "tok");
    c.fec_enabled = true;
    assert_eq!(job_payload(&c, "j".into(), "/f", 1, "t".into()).fec_mode, "adaptive");
}

#[test]
fn upload_replies() {
    assert!(!upload_finished(10, 0));
    assert!(upload_finished(10, 10));
    assert!(!upload_finished(9, 10));
    assert_eq!(upload_complete_note("a.png", 3 * 1_048_576 + 5), "Upload complete: a.png (3 MB)");
    let r = reservation(None, Some("f".into()), None, None);
    assert!(matches!(r, Err(IpcError::ProtocolError(m)) if m == "Missing ticket in reserve response"));
    let r = reservation(Some("t".into()), None, None, None);
    assert!(matches!(r, Err(IpcError::ProtocolError(m)) if m == "Missing file_id in reserve response"));
    let r = reservation(Some("t".into()), Some("f".into()), Some("https://jh".into()), None).unwrap();
    assert_eq!(r.juicehost_url, "https://jh");
    assert_eq!(r.download_url, "");
    assert!(preflight(10, None, false).is_none());
    assert!(preflight(10, Some(10), false).is_none());
    let (note, err) = preflight(5 * 1_048_576, Some(2 * 1_048_576), true).unwrap();
    assert_eq!(note, "File too large: 5 MB exceeds server limit of 2 MB");
    assert_eq!(err.message(), "Connection failed: File too large (5 MB). Server limit is 2 MB. Increase MAX_FILE_SIZE_MB on your juicehost instance.");
    let (_, err) = preflight(5 * 1_048_576, Some(2 * 1_048_576), false).unwrap();
    assert_eq!(err.message(), "Connection failed: File too large (5 MB). Server limit is 2 MB.");
    let (note, err) = upload_failure(413, "big", 4 * 1_048_576, true);
    assert_eq!(note, "File too large (4 MB). Increase MAX_FILE_SIZE_MB on your juicehost instance.");
    assert!(matches!(err, IpcError::ConnectionFailed(m) if m.ends_with(" Server response: big")));
    let (note, _) = upload_failure(413, "", 1, false);
    assert_eq!(note, "Upload failed: HTTP 413 Payload Too Large");
    assert_eq!(complete_refused(500, "oops").message(), "Connection failed: Upload succeeded but juiceback refused to mark it complete (HTTP 500 Internal Server Error): oops");
    assert_eq!(complete_body("id", "a\"b.txt", "text/plain", 42, "tk"),
        "{\"file_id\":\"id\",\"file_size\":42,\"filename\":\"a\\\"b.txt\",\"mime_type\":\"text/plain\",\"ticket\":\"tk\"}");
    assert_eq!(final_url(Some("u1".into()), "u2"), "u1");
    assert_eq!(final_url(None, "u2"), "u2");
    assert_eq!(uploads_done_message(1), "Upload complete!\nLink copied to clipboard");
    assert_eq!(uploads_done_message(3), "3 files uploaded!\nLinks copied to clipboard");
}

#[test]
fn frames_and_errors() {
    assert_eq!(frame_text(Frame::Text("{}".into())).unwrap(), "{}");
    assert!(matches!(frame_text(Frame::Close), Err(IpcError::ConnectionClosed)));
    assert!(matches!(frame_text(Frame::End), Err(IpcError::ConnectionClosed)));
    assert!(matches!(frame_text(Frame::Other), Err(IpcError::ProtocolError(m)) if m == "Unexpected message type"));
    assert_eq!(IpcError::ConnectionClosed.message(), "Connection closed");
    assert_eq!(IpcError::ProtocolError("x".into()).message(), "Protocol error: x");
    assert_eq!(telemetry_error_note(&IpcError::ConnectionClosed), "Upload interrupted - connection lost");
    assert_eq!(telemetry_error_note(&IpcError::ProtocolError("bad".into())), "Upload failed: Protocol error: bad");
}

#[test]
fn pairing_code_checks() {
    assert!(is_valid_key_format("AB12-cd34"));
    assert!(!is_valid_key_format("AB12cd34"));
    assert!(!is_valid_key_format("AB12-cd3"));
    assert!(!is_valid_key_format("AB1!-cd34"));
    assert!(!is_valid_key_format("AB12_cd34"));
    assert!(!is_valid_key_format("\u{e9}B12-cd34"));
    assert_eq!(pairing_code("ab12-cd34").as_deref(), Some("AB12-CD34"));
    assert_eq!(pairing_code("bad"), None);
    assert_eq!(pairing_body("AB12-CD34", "my \"pc\""), "{\"code\":\"AB12-CD34\",\"device_name\":\"my \\\"pc\\\"\"}");
    assert_eq!(typed_key("  AB12-CD34\n").as_deref(), Some("AB12-CD34"));
    assert_eq!(typed_key(" \t"), None);
}

#[test]
fn pairing_answers() {
    let r = pairing_outcome(200, Some("tok".into()), Some("dev".into())).unwrap();
    assert_eq!(r.token, "tok");
    assert_eq!(r.device_id, "dev");
    assert_eq!(pairing_outcome(200, None, Some("d".into())).unwrap_err(), "Missing token in response");
    assert_eq!(pairing_outcome(201, Some("t".into()), None).unwrap_err(), "Missing device_id in response");
    assert_eq!(pairing_outcome(410, None, None).unwrap_err(), "Code expired. Generate a new one.");
    assert_eq!(pairing_outcome(409, None, None).unwrap_err(), "Code already used. Generate a new one.");
    assert_eq!(pairing_outcome(404, None, None).unwrap_err(), "Invalid code. Check and try again.");
    assert_eq!(pairing_outcome(500, None, None).unwrap_err(), "Pairing failed (HTTP 500 Internal Server Error)");
    let mut c = Config::default();
    mark_paired(&mut c, "dev-7".into());
    assert!(c.paired);
    assert_eq!(c.device_id.as_deref(), Some("dev-7"));
    mark_unpaired(&mut c);
    assert!(!c.paired);
    assert_eq!(c.device_id.as_deref(), Some("dev-7"));
}

#[test]
fn notification_signals() {
    let s = NotificationSignal::ActionWithReply { id: 3, action: "inline-reply".into(), reply: "AB12-CD34".into() };
    assert!(matches!(reply_step(&s, 3), ReplyStep::Reply(r) if r == "AB12-CD34"));
    assert!(matches!(reply_step(&s, 4), ReplyStep::Wait));
    let s = NotificationSignal::Action { id: 3, action: "gui".into() };
    assert!(matches!(reply_step(&s, 3), ReplyStep::OpenGui));
    let s = NotificationSignal::Action { id: 3, action: "__closed".into() };
    assert!(matches!(reply_step(&s, 3), ReplyStep::Closed));
    let s = NotificationSignal::Replied { id: 3, reply: "x".into() };
    assert!(matches!(reply_step(&s, 3), ReplyStep::Reply(r) if r == "x"));
    assert!(matches!(reply_step(&NotificationSignal::Other, 3), ReplyStep::Wait));
}

#[test]
fn progress_throttles_to_whole_percent() {
    let mut p = ProgressTracker::start(4 * 1_048_576);
    assert_eq!(p.update(1_048_576, 25).as_deref(), Some("1 MB / 4 MB (25%)"));
    assert_eq!(p.update(1_048_577, 25), None);
    assert_eq!(p.last_pct(), 25);
    assert_eq!(p.finish().as_deref(), Some("4 MB / 4 MB (100%)"));
    assert_eq!(p.finish(), None);
    let mut z = ProgressTracker::start(0);
    assert_eq!(z.update(5, 50), None);
    assert_eq!(z.finish(), None);
    assert_eq!(z.last_pct(), 0);
}

#[test]
fn token_file() {
    assert_eq!(token_from_file("  abc.def\n").as_deref(), Some("abc.def"));
    assert_eq!(token_from_file("\n\n"), None);
    assert_eq!(token_from_file(""), None);
}

#[test]
fn dialog_output() {
    assert_eq!(dialog_answer("hello\n\n").as_deref(), Some("hello"));
    assert_eq!(dialog_answer("\n"), None);
    assert_eq!(list_choice_answer("false\n"), None);
    assert_eq!(list_choice_answer("1 day\n").as_deref(), Some("1 day"));
    assert_eq!(dialog_lines("/a\n\n/b\r\n"), Some(vec!["/a".to_string(), "/b".to_string()]));
    assert_eq!(dialog_lines("/a\r"), Some(vec!["/a\r".to_string()]));
    assert_eq!(dialog_lines("\n\r\n"), None);
    assert_eq!(macos_escape("a\"b\\c\nd"), "a\\\"b\\\\c\\nd");
    let opts = vec!["1 hour".to_string(), "2 hours".to_string(), "2 hours".to_string()];
    assert_eq!(preselect_index(&opts, Some("2 hours")), Some(1));
    assert_eq!(preselect_index(&opts, Some("3 hours")), None);
    assert_eq!(preselect_index(&opts, None), None);
}

#[test]
fn durations() {
    assert_eq!(split_whitespace("  2   days \t x"), vec!["2", "days", "x"]);
    assert!(matches!(duration_parts("30 minutes"), Some((n, DurationUnit::Minutes)) if n == "30"));
    assert!(matches!(duration_parts("1 hour"), Some((n, DurationUnit::Hours)) if n == "1"));
    assert!(matches!(duration_parts(" 7 d "), Some((n, DurationUnit::Days)) if n == "7"));
    assert!(duration_parts("7").is_none());
    assert!(duration_parts("7 weeks").is_none());
}

#[test]
fn tray_menu() {
    let mut c = Config::default();
    let m = menu_model(&c);
    assert!(!m.uploads_enabled);
    assert_eq!(m.pair_label, "\u{2612} Pair Device...");
    assert_eq!(m.settings.len(), 6);
    let checked: Vec<&str> = m.compression.iter().filter(|e| e.checked).map(|e| e.value.as_str()).collect();
    assert_eq!(checked, vec!["auto"]);
    let levels: Vec<&str> = m.log_levels.iter().map(|e| e.label.as_str()).collect();
    assert_eq!(levels, vec!["Error", "Warn", "Info", "Debug", "Trace"]);
    assert!(m.log_levels[2].checked);
    c.paired = true;
    c.compression_mode = "zstd".into();
    let m = menu_model(&c);
    assert!(m.uploads_enabled);
    assert_eq!(m.pair_label, "\u{2611} Paired");
    assert!(m.compression.iter().all(|e| !e.checked));
    assert_eq!(tooltip(true), "juicebox-plus \u{2014} Paired");
    assert_eq!(tooltip(false), "juicebox-plus \u{2014} Not Paired");
    assert!(matches!(action_for(MenuChoice::Fec), TrayAction::ToggleFec));
    assert!(matches!(action_for(MenuChoice::Setting("log_level".into())), TrayAction::Setting(k) if k == "log_level"));
}

#[test]
fn windows_identity() {
    let r = register_aumid();
    assert_eq!(r.app_id, "juicebox-plus");
    assert_eq!(r.key_path, "Software\\Classes\\AppUserModelId\\juicebox-plus");
    assert_eq!(r.value_name, "DisplayName");
    let expected: Vec<u8> = "Juicebox Plus\0".encode_utf16().flat_map(|u| u.to_le_bytes()).collect();
    assert_eq!(r.value_bytes, expected);
}

#[test]
fn upload_refusals_and_menu_layout() {
    assert_eq!(not_paired().message(), "Connection failed: Not paired");
    assert_eq!(reserve_refused("quota").message(), "Connection failed: Reserve failed: quota");
    let m = menu_model(&Config::default());
    assert_eq!(
        m.top,
        vec![
            MenuEntry::Pause,
            MenuEntry::Status,
            MenuEntry::Separator,
            MenuEntry::UploadFile,
            MenuEntry::UploadPaste,
            MenuEntry::Separator,
            MenuEntry::Pair,
            MenuEntry::Settings,
            MenuEntry::Separator,
            MenuEntry::Quit,
        ]
    );
    assert_eq!(
        m.settings_tail,
        vec![MenuEntry::Separator, MenuEntry::Tls, MenuEntry::Fec, MenuEntry::CompressionMenu, MenuEntry::LogLevelMenu]
    );
}
