use juicebox_plus::config::Config;
use juicebox_plus::state::{
    clipboard_path, paste_file_name, setting_label, setting_labels, status_message, App,
    DaemonStatus, Effect, TrayAction,
};

fn notify_bodies(effects: &[Effect]) -> Vec<String> {
    effects
        .iter()
        .filter_map(|e| match e {
            Effect::Notify(s) => Some(s.clone()),
            _ => None,
        })
        .collect()
}

#[test]
fn pause_then_resume_keeps_the_job() {
    let mut app = App::new(Config::default());
    app.status = DaemonStatus::Uploading { job_id: "jp_1".into(), bytes_completed: 5, total_bytes: 10 };
    let e = app.handle_action(TrayAction::PauseResume);
    assert!(matches!(&app.status, DaemonStatus::Paused { job_id } if job_id == "jp_1"));
    assert_eq!(notify_bodies(&e), vec!["Upload paused".to_string()]);
    assert!(matches!(e.last(), Some(Effect::RebuildTray)));
    let e = app.handle_action(TrayAction::PauseResume);
    assert!(matches!(&app.status,
        DaemonStatus::Uploading { job_id, bytes_completed: 0, total_bytes: 0 } if job_id == "jp_1"));
    assert_eq!(notify_bodies(&e), vec!["Upload resumed".to_string()]);
}

#[test]
fn pause_without_upload_only_rebuilds() {
    let mut app = App::new(Config::default());
    let e = app.handle_action(TrayAction::PauseResume);
    assert!(matches!(app.status, DaemonStatus::Disconnected));
    assert_eq!(e.len(), 1);
    assert!(matches!(e[0], Effect::RebuildTray));
}

#[test]
fn toggles_flip_and_announce() {
    let mut app = App::new(Config::default());
    let e = app.handle_action(TrayAction::ToggleTls);
    assert!(app.config.use_tls);
    assert!(matches!(e[0], Effect::SaveConfig));
    assert_eq!(notify_bodies(&e), vec!["TLS enabled".to_string()]);
    let e = app.handle_action(TrayAction::ToggleTls);
    assert!(!app.config.use_tls);
    assert_eq!(notify_bodies(&e), vec!["TLS disabled".to_string()]);
    let e = app.handle_action(TrayAction::ToggleFec);
    assert!(!app.config.fec_enabled);
    assert_eq!(notify_bodies(&e), vec!["FEC disabled".to_string()]);
}

#[test]
fn compression_and_log_level_are_set() {
    let mut app = App::new(Config::default());
    let e = app.handle_action(TrayAction::SetCompressionMode("lz4".into()));
    assert_eq!(app.config.compression_mode, "lz4");
    assert_eq!(notify_bodies(&e), vec!["Compression: lz4".to_string()]);
    assert_eq!(e.len(), 3);
    let e = app.handle_action(TrayAction::SetLogLevel("warn".into()));
    assert_eq!(app.config.log_level, "warn");
    assert_eq!(notify_bodies(&e), vec!["Log level: warn".to_string()]);
}

#[test]
fn uploads_need_pairing() {
    let mut app = App::new(Config::default());
    let e = app.handle_action(TrayAction::UploadFile);
    assert_eq!(notify_bodies(&e), vec!["Pair a device first to upload files".to_string()]);
    let e = app.handle_action(TrayAction::PasteUpload);
    assert_eq!(e.len(), 1);
    app.config.paired = true;
    let e = app.handle_action(TrayAction::UploadFile);
    assert!(matches!(e[..], [Effect::PickFilesAndUpload]));
    let e = app.handle_action(TrayAction::PasteUpload);
    assert!(matches!(e[..], [Effect::UploadFromClipboard]));
}

#[test]
fn connection_events_set_status() {
    let mut app = App::new(Config::default());
    let e = app.handle_action(TrayAction::DeviceConnected);
    assert!(matches!(app.status, DaemonStatus::Connected));
    assert!(matches!(&e[0], Effect::SetTooltip(t) if t == "juicebox-plus - Device connected"));
    assert_eq!(notify_bodies(&e), vec!["Connected to juicebox".to_string()]);
    let e = app.handle_action(TrayAction::DeviceDisconnected);
    assert!(matches!(app.status, DaemonStatus::Disconnected));
    assert_eq!(e.len(), 2);
    app.config.paired = true;
    let e = app.handle_action(TrayAction::DeviceDisconnected);
    assert_eq!(e.len(), 1);
    let e = app.handle_action(TrayAction::IncomingFile("/tmp/a.bin".into()));
    assert!(matches!(app.status, DaemonStatus::Connecting));
    assert!(matches!(&e[..], [Effect::StartUpload(p)] if p == "/tmp/a.bin"));
}

#[test]
fn pairing_complete_names_the_device() {
    let mut app = App::new(Config::default());
    let e = app.handle_action(TrayAction::PairingComplete("laptop".into()));
    assert!(matches!(e[0], Effect::RebuildTray));
    assert!(matches!(e[1], Effect::StartDeviceWs));
    assert!(matches!(&e[2], Effect::SetTooltip(t) if t == "juicebox-plus - Paired as 'laptop'"));
    assert_eq!(notify_bodies(&e), vec!["Connected as 'laptop'".to_string()]);
}

#[test]
fn setting_action_opens_the_right_dialog() {
    let mut app = App::new(Config::default());
    let e = app.handle_action(TrayAction::Setting("upload_ttl_hours".into()));
    assert!(matches!(e[..], [Effect::EditRetention]));
    let e = app.handle_action(TrayAction::Setting("storage_host".into()));
    assert!(matches!(e[..], [Effect::EditStorageHost]));
    let e = app.handle_action(TrayAction::Setting("chunk_size_bytes".into()));
    match &e[..] {
        [Effect::EditSetting { key, label, current }] => {
            assert_eq!(key, "chunk_size_bytes");
            assert_eq!(label, "Chunk Size (bytes)");
            assert_eq!(current, "33554432");
        }
        other => panic!("unexpected {other:?}"),
    }
    let e = app.handle_action(TrayAction::Setting("log_level".into()));
    assert!(matches!(&e[..], [Effect::EditSetting { label, .. }] if label == "log_level"));
}

#[test]
fn setting_edits_are_applied_or_refused() {
    let mut app = App::new(Config::default());
    let e = app.apply_setting_edit("chunk_size_bytes", "Chunk Size (bytes)", "33554432", Some("4096".into()));
    assert_eq!(app.config.chunk_size_bytes, 4096);
    match &e[..] {
        [Effect::SaveConfigThenNotify { on_success, on_failure_prefix }] => {
            assert_eq!(on_success, "Chunk Size (bytes) updated to 4096");
            assert_eq!(on_failure_prefix.as_deref(), Some("Failed to update Chunk Size (bytes): "));
        }
        other => panic!("unexpected {other:?}"),
    }
    let e = app.apply_setting_edit("chunk_size_bytes", "Chunk Size (bytes)", "4096", Some("lots".into()));
    assert_eq!(app.config.chunk_size_bytes, 4096);
    assert_eq!(notify_bodies(&e), vec!["Failed to update Chunk Size (bytes): expected a number".to_string()]);
    assert!(app.apply_setting_edit("chunk_size_bytes", "x", "4096", Some("4096".into())).is_empty());
    assert!(app.apply_setting_edit("chunk_size_bytes", "x", "4096", None).is_empty());
}

#[test]
fn retention_and_storage_host_edits() {
    let mut app = App::new(Config::default());
    let e = app.apply_retention("24", "default", Some("24".into()));
    assert_eq!(app.config.upload_ttl_hours.as_deref(), Some("24"));
    assert!(matches!(&e[..], [Effect::SaveConfigThenNotify { on_success, on_failure_prefix: None }]
        if on_success == "Retention time updated to 24"));
    assert!(app.apply_retention("24", "24", Some("24".into())).is_empty());
    let e = app.apply_storage_host(Some("https://h".into()), "");
    assert!(e.is_empty());
    assert_eq!(app.config.storage_host, None);
}

#[test]
fn status_messages() {
    assert_eq!(status_message(&DaemonStatus::Disconnected, 0), "Daemon: Disconnected");
    assert_eq!(status_message(&DaemonStatus::Connecting, 0), "Daemon: Connecting...");
    assert_eq!(status_message(&DaemonStatus::Connected, 0), "Daemon: Connected, idle");
    let up = DaemonStatus::Uploading { job_id: "jp_9".into(), bytes_completed: 1, total_bytes: 4 };
    assert_eq!(status_message(&up, 25), "Uploading jp_9: 25%");
    assert_eq!(status_message(&DaemonStatus::Paused { job_id: "jp_9".into() }, 0), "Paused: jp_9");
}

#[test]
fn labels_and_paste_helpers() {
    let labels = setting_labels();
    assert_eq!(labels.len(), 6);
    assert_eq!(labels[1], ("storage_host".to_string(), "Juicehost Instance".to_string()));
    assert_eq!(setting_label("pairing_timeout_secs"), "Pairing Timeout (secs)");
    assert_eq!(setting_label("other"), "other");
    assert_eq!(clipboard_path("  file:///home/u/a.png\n"), "/home/u/a.png");
    assert_eq!(clipboard_path("\t/tmp/b.txt "), "/tmp/b.txt");
    assert_eq!(paste_file_name(1700, "png"), "juicebox-paste-1700.png");
}
