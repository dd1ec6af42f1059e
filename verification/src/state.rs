//! The tray application's decisions: how each tray action changes the
//! daemon status and the settings, and what the shell must do in response.

use vstd::prelude::*;
use crate::config::{Config, ConfigView, current_value_spec};
use crate::text::{concat2, concat3, decimal, owned, str_eq, u64_to_decimal};

verus! {

/// What the tray knows of the upload daemon.
#[derive(Debug)]
pub enum DaemonStatus {
    Disconnected,
    Connecting,
    Connected,
    Uploading { job_id: String, bytes_completed: u64, total_bytes: u64 },
    Paused { job_id: String },
}

/// The mathematical content of a [`DaemonStatus`].
pub enum StatusView {
    Disconnected,
    Connecting,
    Connected,
    Uploading { job_id: Seq<char>, bytes_completed: u64, total_bytes: u64 },
    Paused { job_id: Seq<char> },
}

impl View for DaemonStatus {
    type V = StatusView;

    open spec fn view(&self) -> StatusView {
        match self {
            DaemonStatus::Disconnected => StatusView::Disconnected,
            DaemonStatus::Connecting => StatusView::Connecting,
            DaemonStatus::Connected => StatusView::Connected,
            DaemonStatus::Uploading { job_id, bytes_completed, total_bytes } => StatusView::Uploading {
                job_id: job_id@,
                bytes_completed: *bytes_completed,
                total_bytes: *total_bytes,
            },
            DaemonStatus::Paused { job_id } => StatusView::Paused { job_id: job_id@ },
        }
    }
}

impl Clone for DaemonStatus {
    fn clone(&self) -> (r: Self)
        ensures
            r@ == self@,
    {
        match self {
            DaemonStatus::Disconnected => DaemonStatus::Disconnected,
            DaemonStatus::Connecting => DaemonStatus::Connecting,
            DaemonStatus::Connected => DaemonStatus::Connected,
            DaemonStatus::Uploading { job_id, bytes_completed, total_bytes } => {
                DaemonStatus::Uploading {
                    job_id: job_id.clone(),
                    bytes_completed: *bytes_completed,
                    total_bytes: *total_bytes,
                }
            },
            DaemonStatus::Paused { job_id } => DaemonStatus::Paused { job_id: job_id.clone() },
        }
    }
}

/// Something the user or a background task asks of the tray.
#[derive(Debug)]
pub enum TrayAction {
    IncomingFile(String),
    PauseResume,
    ShowStatus,
    PairDevice,
    PairingComplete(String),
    ToggleTls,
    ToggleFec,
    SetCompressionMode(String),
    Setting(String),
    SetLogLevel(String),
    DeviceConnected,
    DeviceDisconnected,
    UploadFile,
    PasteUpload,
    Quit,
}

/// The mathematical content of a [`TrayAction`].
pub enum ActionView {
    IncomingFile(Seq<char>),
    PauseResume,
    ShowStatus,
    PairDevice,
    PairingComplete(Seq<char>),
    ToggleTls,
    ToggleFec,
    SetCompressionMode(Seq<char>),
    Setting(Seq<char>),
    SetLogLevel(Seq<char>),
    DeviceConnected,
    DeviceDisconnected,
    UploadFile,
    PasteUpload,
    Quit,
}

impl View for TrayAction {
    type V = ActionView;

    open spec fn view(&self) -> ActionView {
        match self {
            TrayAction::IncomingFile(p) => ActionView::IncomingFile(p@),
            TrayAction::PauseResume => ActionView::PauseResume,
            TrayAction::ShowStatus => ActionView::ShowStatus,
            TrayAction::PairDevice => ActionView::PairDevice,
            TrayAction::PairingComplete(n) => ActionView::PairingComplete(n@),
            TrayAction::ToggleTls => ActionView::ToggleTls,
            TrayAction::ToggleFec => ActionView::ToggleFec,
            TrayAction::SetCompressionMode(m) => ActionView::SetCompressionMode(m@),
            TrayAction::Setting(k) => ActionView::Setting(k@),
            TrayAction::SetLogLevel(l) => ActionView::SetLogLevel(l@),
            TrayAction::DeviceConnected => ActionView::DeviceConnected,
            TrayAction::DeviceDisconnected => ActionView::DeviceDisconnected,
            TrayAction::UploadFile => ActionView::UploadFile,
            TrayAction::PasteUpload => ActionView::PasteUpload,
            TrayAction::Quit => ActionView::Quit,
        }
    }
}

/// Work the tray shell carries out after a decision, in the order given.
#[derive(Debug)]
pub enum Effect {
    /// Show a desktop notification with this body.
    Notify(String),
    /// Rebuild the tray menu from the current settings.
    RebuildTray,
    /// Set the tray icon's tooltip, where the icon exists.
    SetTooltip(String),
    /// Write the settings file, ignoring a failure.
    SaveConfig,
    /// Write the settings file; then notify `on_success`, or on a failure
    /// notify `on_failure_prefix` followed by the error, where one is given.
    SaveConfigThenNotify { on_success: String, on_failure_prefix: Option<String> },
    /// Hand this file to the upload daemon in the background.
    StartUpload(String),
    /// Run the device pairing prompt in the background.
    StartPairing,
    /// Start the device WebSocket client.
    StartDeviceWs,
    /// Notify the daemon status (see [`status_message`]).
    ShowStatus,
    /// Ask the user for a new value of a setting.
    EditSetting { key: String, label: String, current: String },
    /// Ask the user for the retention time.
    EditRetention,
    /// Ask the user for the storage host.
    EditStorageHost,
    /// Let the user pick files, then upload them.
    PickFilesAndUpload,
    /// Upload what the clipboard holds.
    UploadFromClipboard,
    /// Leave the application.
    Quit,
}

/// The mathematical content of an [`Effect`].
pub enum EffectView {
    Notify(Seq<char>),
    RebuildTray,
    SetTooltip(Seq<char>),
    SaveConfig,
    SaveConfigThenNotify { on_success: Seq<char>, on_failure_prefix: Option<Seq<char>> },
    StartUpload(Seq<char>),
    StartPairing,
    StartDeviceWs,
    ShowStatus,
    EditSetting { key: Seq<char>, label: Seq<char>, current: Seq<char> },
    EditRetention,
    EditStorageHost,
    PickFilesAndUpload,
    UploadFromClipboard,
    Quit,
}

impl View for Effect {
    type V = EffectView;

    open spec fn view(&self) -> EffectView {
        match self {
            Effect::Notify(s) => EffectView::Notify(s@),
            Effect::RebuildTray => EffectView::RebuildTray,
            Effect::SetTooltip(s) => EffectView::SetTooltip(s@),
            Effect::SaveConfig => EffectView::SaveConfig,
            Effect::SaveConfigThenNotify { on_success, on_failure_prefix } => {
                EffectView::SaveConfigThenNotify {
                    on_success: on_success@,
                    on_failure_prefix: match on_failure_prefix {
                        Some(p) => Some(p@),
                        None => None,
                    },
                }
            },
            Effect::StartUpload(s) => EffectView::StartUpload(s@),
            Effect::StartPairing => EffectView::StartPairing,
            Effect::StartDeviceWs => EffectView::StartDeviceWs,
            Effect::ShowStatus => EffectView::ShowStatus,
            Effect::EditSetting { key, label, current } => EffectView::EditSetting {
                key: key@,
                label: label@,
                current: current@,
            },
            Effect::EditRetention => EffectView::EditRetention,
            Effect::EditStorageHost => EffectView::EditStorageHost,
            Effect::PickFilesAndUpload => EffectView::PickFilesAndUpload,
            Effect::UploadFromClipboard => EffectView::UploadFromClipboard,
            Effect::Quit => EffectView::Quit,
        }
    }
}

/// The views of a list of effects, in order.
pub open spec fn effects_view(v: Seq<Effect>) -> Seq<EffectView> {
    v.map_values(|e: Effect| e@)
}

} // verus!

verus! {

/// The settings that the tray's settings menu offers, with their labels, in
/// menu order.
pub open spec fn setting_labels_spec() -> Seq<(Seq<char>, Seq<char>)> {
    seq![
        ("juicebox_instance"@, "Juicebox Instance"@),
        ("storage_host"@, "Juicehost Instance"@),
        ("upload_ttl_hours"@, "Retention time"@),
        ("daemon_address"@, "Daemon Address"@),
        ("chunk_size_bytes"@, "Chunk Size (bytes)"@),
        ("pairing_timeout_secs"@, "Pairing Timeout (secs)"@),
    ]
}

/// The pairs of a list of string pairs, as characters.
pub open spec fn pairs_view(v: Seq<(String, String)>) -> Seq<(Seq<char>, Seq<char>)> {
    v.map_values(|p: (String, String)| (p.0@, p.1@))
}

/// The settings menu entries: each setting's name and label, in menu order.
pub fn setting_labels() -> (r: Vec<(String, String)>)
    ensures
        pairs_view(r@) == setting_labels_spec(),
{
    let mut r: Vec<(String, String)> = Vec::new();
    r.push((String::from_str("juicebox_instance"), String::from_str("Juicebox Instance")));
    r.push((String::from_str("storage_host"), String::from_str("Juicehost Instance")));
    r.push((String::from_str("upload_ttl_hours"), String::from_str("Retention time")));
    r.push((String::from_str("daemon_address"), String::from_str("Daemon Address")));
    r.push((String::from_str("chunk_size_bytes"), String::from_str("Chunk Size (bytes)")));
    r.push((String::from_str("pairing_timeout_secs"), String::from_str("Pairing Timeout (secs)")));
    assert(pairs_view(r@) =~= setting_labels_spec());
    r
}

/// The label of the first menu entry for `key`, or `key` itself where there
/// is none.
pub open spec fn setting_label_spec(key: Seq<char>) -> Seq<char> {
    if key == "juicebox_instance"@ {
        "Juicebox Instance"@
    } else if key == "storage_host"@ {
        "Juicehost Instance"@
    } else if key == "upload_ttl_hours"@ {
        "Retention time"@
    } else if key == "daemon_address"@ {
        "Daemon Address"@
    } else if key == "chunk_size_bytes"@ {
        "Chunk Size (bytes)"@
    } else if key == "pairing_timeout_secs"@ {
        "Pairing Timeout (secs)"@
    } else {
        key
    }
}

/// The label shown for the setting named `key`.
pub fn setting_label(key: &str) -> (r: String)
    ensures
        r@ == setting_label_spec(key@),
{
    if str_eq(key, "juicebox_instance") {
        String::from_str("Juicebox Instance")
    } else if str_eq(key, "storage_host") {
        String::from_str("Juicehost Instance")
    } else if str_eq(key, "upload_ttl_hours") {
        String::from_str("Retention time")
    } else if str_eq(key, "daemon_address") {
        String::from_str("Daemon Address")
    } else if str_eq(key, "chunk_size_bytes") {
        String::from_str("Chunk Size (bytes)")
    } else if str_eq(key, "pairing_timeout_secs") {
        String::from_str("Pairing Timeout (secs)")
    } else {
        owned(key)
    }
}

/// The status notification's text; `pct` is the share of the upload done,
/// in whole percent, which only an upload shows.
pub open spec fn status_message_spec(s: StatusView, pct: u32) -> Seq<char> {
    match s {
        StatusView::Disconnected => "Daemon: Disconnected"@,
        StatusView::Connecting => "Daemon: Connecting..."@,
        StatusView::Connected => "Daemon: Connected, idle"@,
        StatusView::Uploading { job_id, .. } => "Uploading "@ + job_id + ": "@ + decimal(
            pct as nat,
        ) + "%"@,
        StatusView::Paused { job_id } => "Paused: "@ + job_id,
    }
}

/// The text of the status notification. `pct` is the upload's progress in
/// whole percent (0 when the total is unknown); it is computed by the caller
/// from the status's byte counts.
pub fn status_message(status: &DaemonStatus, pct: u32) -> (r: String)
    ensures
        r@ == status_message_spec(status@, pct),
{
    match status {
        DaemonStatus::Disconnected => String::from_str("Daemon: Disconnected"),
        DaemonStatus::Connecting => String::from_str("Daemon: Connecting..."),
        DaemonStatus::Connected => String::from_str("Daemon: Connected, idle"),
        DaemonStatus::Uploading { job_id, .. } => {
            let mut r = concat3("Uploading ", job_id.as_str(), ": ");
            let p = u64_to_decimal(pct as u64);
            r.append(p.as_str());
            r.append("%");
            r
        },
        DaemonStatus::Paused { job_id } => concat2("Paused: ", job_id.as_str()),
    }
}

/// The tray's decision state: the daemon status and the settings.
pub struct App {
    pub status: DaemonStatus,
    pub config: Config,
}

/// The mathematical content of an [`App`].
pub struct AppView {
    pub status: StatusView,
    pub config: ConfigView,
}

impl View for App {
    type V = AppView;

    open spec fn view(&self) -> AppView {
        AppView { status: self.status@, config: self.config@ }
    }
}

/// "enabled" or "disabled".
pub open spec fn enabled_text(b: bool) -> Seq<char> {
    if b {
        "enabled"@
    } else {
        "disabled"@
    }
}

/// The notification asking to pair before uploading.
pub open spec fn pair_first_msg() -> Seq<char> {
    "Pair a device first to upload files"@
}

/// What the tray does on `a` in state `s`: the next state and the effects,
/// in order.
pub open spec fn step(s: AppView, a: ActionView) -> (AppView, Seq<EffectView>) {
    match a {
        ActionView::IncomingFile(p) => (
            AppView { status: StatusView::Connecting, ..s },
            seq![EffectView::StartUpload(p)],
        ),
        ActionView::PauseResume => match s.status {
            StatusView::Uploading { job_id, .. } => (
                AppView { status: StatusView::Paused { job_id }, ..s },
                seq![EffectView::Notify("Upload paused"@), EffectView::RebuildTray],
            ),
            StatusView::Paused { job_id } => (
                AppView {
                    status: StatusView::Uploading { job_id, bytes_completed: 0, total_bytes: 0 },
                    ..s
                },
                seq![EffectView::Notify("Upload resumed"@), EffectView::RebuildTray],
            ),
            _ => (s, seq![EffectView::RebuildTray]),
        },
        ActionView::ShowStatus => (s, seq![EffectView::ShowStatus]),
        ActionView::PairDevice => (s, seq![EffectView::StartPairing]),
        ActionView::PairingComplete(name) => (
            s,
            seq![
                EffectView::RebuildTray,
                EffectView::StartDeviceWs,
                EffectView::SetTooltip("juicebox-plus - Paired as '"@ + name + "'"@),
                EffectView::Notify("Connected as '"@ + name + "'"@),
            ],
        ),
        ActionView::ToggleTls => (
            AppView { config: ConfigView { use_tls: !s.config.use_tls, ..s.config }, ..s },
            seq![
                EffectView::SaveConfig,
                EffectView::Notify("TLS "@ + enabled_text(!s.config.use_tls)),
            ],
        ),
        ActionView::ToggleFec => (
            AppView { config: ConfigView { fec_enabled: !s.config.fec_enabled, ..s.config }, ..s },
            seq![
                EffectView::SaveConfig,
                EffectView::Notify("FEC "@ + enabled_text(!s.config.fec_enabled)),
            ],
        ),
        ActionView::SetCompressionMode(m) => (
            AppView { config: ConfigView { compression_mode: m, ..s.config }, ..s },
            seq![
                EffectView::SaveConfig,
                EffectView::Notify("Compression: "@ + m),
                EffectView::RebuildTray,
            ],
        ),
        ActionView::SetLogLevel(l) => (
            AppView { config: ConfigView { log_level: l, ..s.config }, ..s },
            seq![
                EffectView::SaveConfig,
                EffectView::Notify("Log level: "@ + l),
                EffectView::RebuildTray,
            ],
        ),
        ActionView::Setting(key) => (
            s,
            if key == "upload_ttl_hours"@ {
                seq![EffectView::EditRetention]
            } else if key == "storage_host"@ {
                seq![EffectView::EditStorageHost]
            } else {
                seq![
                    EffectView::EditSetting {
                        key,
                        label: setting_label_spec(key),
                        current: current_value_spec(s.config, key),
                    },
                ]
            },
        ),
        ActionView::UploadFile => (
            s,
            if s.config.paired {
                seq![EffectView::PickFilesAndUpload]
            } else {
                seq![EffectView::Notify(pair_first_msg())]
            },
        ),
        ActionView::PasteUpload => (
            s,
            if s.config.paired {
                seq![EffectView::UploadFromClipboard]
            } else {
                seq![EffectView::Notify(pair_first_msg())]
            },
        ),
        ActionView::DeviceConnected => (
            AppView { status: StatusView::Connected, ..s },
            seq![
                EffectView::SetTooltip("juicebox-plus - Device connected"@),
                EffectView::Notify("Connected to juicebox"@),
            ],
        ),
        ActionView::DeviceDisconnected => (
            AppView { status: StatusView::Disconnected, ..s },
            if s.config.paired {
                seq![EffectView::SetTooltip("juicebox-plus - Juicepipe Upload Daemon"@)]
            } else {
                seq![
                    EffectView::SetTooltip("juicebox-plus - Juicepipe Upload Daemon"@),
                    EffectView::RebuildTray,
                ]
            },
        ),
        ActionView::Quit => (s, seq![EffectView::Quit]),
    }
}

fn enabled_string(b: bool) -> (r: String)
    ensures
        r@ == enabled_text(b),
{
    if b {
        String::from_str("enabled")
    } else {
        String::from_str("disabled")
    }
}

impl App {
    /// A tray that has not reached the daemon yet.
    pub fn new(config: Config) -> (r: App)
        ensures
            r@ == (AppView { status: StatusView::Disconnected, config: config@ }),
    {
        App { status: DaemonStatus::Disconnected, config }
    }

    /// Decides what `action` does: updates the status and settings, and
    /// returns the effects for the shell to carry out, in order.
    pub fn handle_action(&mut self, action: TrayAction) -> (effects: Vec<Effect>)
        ensures
            (final(self)@, effects_view(effects@)) == step(old(self)@, action@),
    {
        let mut effects: Vec<Effect> = Vec::new();
        match action {
            TrayAction::IncomingFile(path) => {
                self.status = DaemonStatus::Connecting;
                effects.push(Effect::StartUpload(path));
            },
            TrayAction::PauseResume => {
                let next = match &self.status {
                    DaemonStatus::Uploading { job_id, .. } => Some(
                        (DaemonStatus::Paused { job_id: job_id.clone() }, "Upload paused"),
                    ),
                    DaemonStatus::Paused { job_id } => Some(
                        (
                            DaemonStatus::Uploading {
                                job_id: job_id.clone(),
                                bytes_completed: 0,
                                total_bytes: 0,
                            },
                            "Upload resumed",
                        ),
                    ),
                    _ => None,
                };
                if let Some((status, msg)) = next {
                    self.status = status;
                    effects.push(Effect::Notify(String::from_str(msg)));
                }
                effects.push(Effect::RebuildTray);
            },
            TrayAction::ShowStatus => {
                effects.push(Effect::ShowStatus);
            },
            TrayAction::PairDevice => {
                effects.push(Effect::StartPairing);
            },
            TrayAction::PairingComplete(name) => {
                effects.push(Effect::RebuildTray);
                effects.push(Effect::StartDeviceWs);
                effects.push(
                    Effect::SetTooltip(concat3("juicebox-plus - Paired as '", name.as_str(), "'")),
                );
                effects.push(Effect::Notify(concat3("Connected as '", name.as_str(), "'")));
            },
            TrayAction::ToggleTls => {
                self.config.use_tls = !self.config.use_tls;
                effects.push(Effect::SaveConfig);
                let e = enabled_string(self.config.use_tls);
                effects.push(Effect::Notify(concat2("TLS ", e.as_str())));
            },
            TrayAction::ToggleFec => {
                self.config.fec_enabled = !self.config.fec_enabled;
                effects.push(Effect::SaveConfig);
                let e = enabled_string(self.config.fec_enabled);
                effects.push(Effect::Notify(concat2("FEC ", e.as_str())));
            },
            TrayAction::SetCompressionMode(mode) => {
                let msg = concat2("Compression: ", mode.as_str());
                self.config.compression_mode = mode;
                effects.push(Effect::SaveConfig);
                effects.push(Effect::Notify(msg));
                effects.push(Effect::RebuildTray);
            },
            TrayAction::SetLogLevel(level) => {
                let msg = concat2("Log level: ", level.as_str());
                self.config.log_level = level;
                effects.push(Effect::SaveConfig);
                effects.push(Effect::Notify(msg));
                effects.push(Effect::RebuildTray);
            },
            TrayAction::Setting(key) => {
                if str_eq(key.as_str(), "upload_ttl_hours") {
                    effects.push(Effect::EditRetention);
                } else if str_eq(key.as_str(), "storage_host") {
                    effects.push(Effect::EditStorageHost);
                } else {
                    let label = setting_label(key.as_str());
                    let current = self.config.current_value(key.as_str());
                    effects.push(Effect::EditSetting { key, label, current });
                }
            },
            TrayAction::UploadFile => {
                if self.config.paired {
                    effects.push(Effect::PickFilesAndUpload);
                } else {
                    effects.push(
                        Effect::Notify(String::from_str("Pair a device first to upload files")),
                    );
                }
            },
            TrayAction::PasteUpload => {
                if self.config.paired {
                    effects.push(Effect::UploadFromClipboard);
                } else {
                    effects.push(
                        Effect::Notify(String::from_str("Pair a device first to upload files")),
                    );
                }
            },
            TrayAction::DeviceConnected => {
                self.status = DaemonStatus::Connected;
                effects.push(Effect::SetTooltip(String::from_str("juicebox-plus - Device connected")));
                effects.push(Effect::Notify(String::from_str("Connected to juicebox")));
            },
            TrayAction::DeviceDisconnected => {
                self.status = DaemonStatus::Disconnected;
                effects.push(
                    Effect::SetTooltip(String::from_str("juicebox-plus - Juicepipe Upload Daemon")),
                );
                if !self.config.paired {
                    effects.push(Effect::RebuildTray);
                }
            },
            TrayAction::Quit => {
                effects.push(Effect::Quit);
            },
        }
        assert(effects_view(effects@) =~= step(old(self)@, action@).1);
        effects
    }
}

} // verus!

verus! {

/// The settings and effects after the user answers an edit dialog with
/// `new_val` (`None` when cancelled). An unchanged or cancelled answer does
/// nothing; an accepted one saves the settings and notifies `ok_msg`; a
/// refused one notifies `fail_prefix` and the refusal, where a prefix is
/// given.
pub open spec fn edit_step(
    c: ConfigView,
    key: Seq<char>,
    current: Seq<char>,
    new_val: Option<Seq<char>>,
    ttl_number: Option<Seq<char>>,
    ok_msg: Seq<char>,
    fail_prefix: Option<Seq<char>>,
) -> (ConfigView, Seq<EffectView>) {
    match new_val {
        None => (c, seq![]),
        Some(v) => if v == current {
            (c, seq![])
        } else {
            match crate::config::update_spec(c, key, v, ttl_number) {
                Ok(c2) => (
                    c2,
                    seq![
                        EffectView::SaveConfigThenNotify {
                            on_success: ok_msg,
                            on_failure_prefix: fail_prefix,
                        },
                    ],
                ),
                Err(e) => (
                    c,
                    match fail_prefix {
                        Some(p) => seq![EffectView::Notify(p + e)],
                        None => seq![],
                    },
                ),
            }
        },
    }
}

/// The characters of an optional string.
pub open spec fn opt_chars(o: Option<String>) -> Option<Seq<char>> {
    crate::config::opt_view(o)
}

impl App {
    fn apply_edit(
        &mut self,
        key: &str,
        current: &str,
        v: String,
        ttl_number: Option<String>,
        ok_msg: String,
        fail_prefix: Option<String>,
    ) -> (effects: Vec<Effect>)
        ensures
            final(self).status@ == old(self).status@,
            (final(self).config@, effects_view(effects@)) == edit_step(
                old(self).config@,
                key@,
                current@,
                Some(v@),
                opt_chars(ttl_number),
                ok_msg@,
                opt_chars(fail_prefix),
            ),
    {
        let mut effects: Vec<Effect> = Vec::new();
        if str_eq(v.as_str(), current) {
            assert(effects_view(effects@) =~= seq![]);
            return effects;
        }
        match self.config.update(key, v.as_str(), ttl_number) {
            Ok(()) => {
                effects.push(
                    Effect::SaveConfigThenNotify { on_success: ok_msg, on_failure_prefix: fail_prefix },
                );
            },
            Err(e) => {
                match fail_prefix {
                    Some(p) => {
                        effects.push(Effect::Notify(concat2(p.as_str(), e.as_str())));
                    },
                    None => {},
                }
            },
        }
        effects
    }

    /// Applies the user's answer to the dialog for the setting `key` (shown
    /// as `label`, holding `current` when asked). An accepted value is saved
    /// and announced as "<label> updated to <value>"; a refused one is
    /// announced as "Failed to update <label>: <reason>".
    pub fn apply_setting_edit(
        &mut self,
        key: &str,
        label: &str,
        current: &str,
        new_val: Option<String>,
    ) -> (effects: Vec<Effect>)
        ensures
            final(self).status@ == old(self).status@,
            (final(self).config@, effects_view(effects@)) == edit_step(
                old(self).config@,
                key@,
                current@,
                opt_chars(new_val),
                None,
                match new_val {
                    Some(v) => label@ + " updated to "@ + v@,
                    None => Seq::empty(),
                },
                Some("Failed to update "@ + label@ + ": "@),
            ),
    {
        match new_val {
            None => {
                let effects: Vec<Effect> = Vec::new();
                assert(effects_view(effects@) =~= seq![]);
                effects
            },
            Some(v) => {
                let ok_msg = concat3(label, " updated to ", v.as_str());
                let fail = concat3("Failed to update ", label, ": ");
                self.apply_edit(key, current, v, None, ok_msg, Some(fail))
            },
        }
    }

    /// Applies the retention time chosen by the user: `value` is the chosen
    /// number of hours as text (or "default"), `current_text` the value
    /// before, and `ttl_number` the number `value` reads as, written back as
    /// text. A change is saved and announced; a refused one is dropped.
    pub fn apply_retention(&mut self, value: &str, current_text: &str, ttl_number: Option<String>) -> (effects: Vec<Effect>)
        ensures
            final(self).status@ == old(self).status@,
            (final(self).config@, effects_view(effects@)) == edit_step(
                old(self).config@,
                "upload_ttl_hours"@,
                current_text@,
                Some(value@),
                opt_chars(ttl_number),
                "Retention time updated to "@ + value@,
                None,
            ),
    {
        let ok_msg = concat2("Retention time updated to ", value);
        self.apply_edit("upload_ttl_hours", current_text, owned(value), ttl_number, ok_msg, None)
    }

    /// Applies the storage host entered by the user (`None` when cancelled),
    /// `current` being the value shown in the dialog.
    pub fn apply_storage_host(&mut self, new_val: Option<String>, current: &str) -> (effects: Vec<
        Effect,
    >)
        ensures
            final(self).status@ == old(self).status@,
            (final(self).config@, effects_view(effects@)) == edit_step(
                old(self).config@,
                "storage_host"@,
                current@,
                opt_chars(new_val),
                None,
                "Juicehost Instance updated"@,
                None,
            ),
    {
        match new_val {
            None => {
                let effects: Vec<Effect> = Vec::new();
                assert(effects_view(effects@) =~= seq![]);
                effects
            },
            Some(v) => {
                let ok_msg = String::from_str("Juicehost Instance updated");
                self.apply_edit("storage_host", current, v, None, ok_msg, None)
            },
        }
    }
}

} // verus!

verus! {

/// Pausing and then resuming an upload returns to uploading the same job,
/// with its byte counts reset; resuming and then pausing a paused job leaves
/// it paused. The settings are untouched.
pub proof fn law_pause_resume_round_trip(s: AppView)
    ensures
        (s.status matches StatusView::Uploading { job_id, .. } ==> step(
            step(s, ActionView::PauseResume).0,
            ActionView::PauseResume,
        ).0 == AppView {
            status: StatusView::Uploading { job_id, bytes_completed: 0, total_bytes: 0 },
            config: s.config,
        }),
        (s.status is Paused ==> step(step(s, ActionView::PauseResume).0, ActionView::PauseResume).0
            == s),
        (!(s.status is Paused) && !(s.status is Uploading)) ==> step(
            s,
            ActionView::PauseResume,
        ).0 == s,
{
}

/// Toggling TLS, or forward error correction, twice restores the settings.
pub proof fn law_toggle_twice_restores(s: AppView)
    ensures
        step(step(s, ActionView::ToggleTls).0, ActionView::ToggleTls).0 == s,
        step(step(s, ActionView::ToggleFec).0, ActionView::ToggleFec).0 == s,
{
}

/// Only the toggles and the compression and log level choices change the
/// settings; every other action leaves them as they were.
pub proof fn law_other_actions_keep_config(s: AppView, a: ActionView)
    requires
        !(a is ToggleTls),
        !(a is ToggleFec),
        !(a is SetCompressionMode),
        !(a is SetLogLevel),
    ensures
        step(s, a).0.config == s.config,
{
}

/// Uploading needs a paired device: unpaired, both upload actions only
/// notify that pairing comes first.
pub proof fn law_upload_needs_pairing(s: AppView, a: ActionView)
    requires
        !s.config.paired,
        a is UploadFile || a is PasteUpload,
    ensures
        step(s, a) == (s, seq![EffectView::Notify(pair_first_msg())]),
{
}

/// The connection events set the status they report, whatever it was.
pub proof fn law_connection_events_set_status(s: AppView, path: Seq<char>)
    ensures
        step(s, ActionView::DeviceConnected).0.status == StatusView::Connected,
        step(s, ActionView::DeviceDisconnected).0.status == StatusView::Disconnected,
        step(s, ActionView::IncomingFile(path)).0.status == StatusView::Connecting,
{
}

/// A cancelled edit, or one that gives back the value shown, changes nothing
/// and does nothing.
pub proof fn law_unchanged_edit_is_noop(
    c: ConfigView,
    key: Seq<char>,
    current: Seq<char>,
    ttl_number: Option<Seq<char>>,
    ok_msg: Seq<char>,
    fail_prefix: Option<Seq<char>>,
)
    ensures
        edit_step(c, key, current, None, ttl_number, ok_msg, fail_prefix) == (c, Seq::<
            EffectView,
        >::empty()),
        edit_step(c, key, current, Some(current), ttl_number, ok_msg, fail_prefix) == (c, Seq::<
            EffectView,
        >::empty()),
{
}

} // verus!

verus! {

/// The clipboard text read as a path: trimmed, with a `file://` prefix
/// dropped.
pub open spec fn clipboard_path_spec(text: Seq<char>) -> Seq<char> {
    let t = crate::text::trim_spec(text);
    if crate::text::is_prefix_of("file://"@, t) {
        t.subrange(7, t.len() as int)
    } else {
        t
    }
}

/// The path that pasted text names (it is uploaded if such a file exists).
pub fn clipboard_path(text: &str) -> (r: String)
    ensures
        r@ == clipboard_path_spec(text@),
{
    proof {
        reveal_strlit("file://");
    }
    let t = crate::text::trim(text);
    if crate::text::starts_with(t.as_str(), "file://") {
        crate::text::suffix_string(t.as_str(), 7)
    } else {
        t
    }
}

/// The name of the temporary file that holds pasted content:
/// `juicebox-paste-<millis>.<ext>`.
pub fn paste_file_name(millis: u64, ext: &str) -> (r: String)
    ensures
        r@ == "juicebox-paste-"@ + decimal(millis as nat) + "."@ + ext@,
{
    let d = u64_to_decimal(millis);
    let mut r = concat3("juicebox-paste-", d.as_str(), ".");
    r.append(ext);
    r
}

} // verus!

verus! {

/// The prompt of a setting's edit dialog: the label, a blank line, then the
/// current value.
pub fn setting_prompt(label: &str, current: &str) -> (r: String)
    ensures
        r@ == label@ + "\n\nCurrent: "@ + current@,
{
    concat3(label, "\n\nCurrent: ", current)
}

/// The storage host dialog: its prompt and the value it starts with (the
/// server's advertised default, or the current value where the server
/// advertised none).
pub fn storage_host_prompt(current: &str, server_default: &str) -> (r: (String, String))
    ensures
        ({
            let d = if server_default@.len() == 0 {
                current@
            } else {
                server_default@
            };
            &&& r.1@ == d
            &&& r.0@ == "Enter Juicehost URL (leave empty to use server default)\n\nCurrent: "@
                + current@ + "\nServer default: "@ + d
        }),
{
    let d = if server_default.unicode_len() == 0 {
        owned(current)
    } else {
        owned(server_default)
    };
    let mut p = concat3(
        "Enter Juicehost URL (leave empty to use server default)\n\nCurrent: ",
        current,
        "\nServer default: ",
    );
    p.append(d.as_str());
    (p, d)
}

} // verus!

verus! {

/// Quitting changes nothing and asks only to quit; no other action ever
/// asks to quit.
pub proof fn law_only_quit_quits(s: AppView, a: ActionView)
    ensures
        step(s, ActionView::Quit) == (s, seq![EffectView::Quit]),
        !(a is Quit) ==> forall|i: int|
            0 <= i < step(s, a).1.len() ==> !(#[trigger] step(s, a).1[i] is Quit),
{
}

} // verus!

verus! {

/// Choosing a compression mode or a log level records exactly that value,
/// saves the settings, announces the new value and rebuilds the menu; the
/// status is untouched.
pub proof fn law_choices_are_recorded(s: AppView, v: Seq<char>)
    ensures
        step(s, ActionView::SetCompressionMode(v)).0 == (AppView {
            config: ConfigView { compression_mode: v, ..s.config },
            ..s
        }),
        step(s, ActionView::SetCompressionMode(v)).1 == seq![
            EffectView::SaveConfig,
            EffectView::Notify("Compression: "@ + v),
            EffectView::RebuildTray,
        ],
        step(s, ActionView::SetLogLevel(v)).0 == (AppView {
            config: ConfigView { log_level: v, ..s.config },
            ..s
        }),
        step(s, ActionView::SetLogLevel(v)).1 == seq![
            EffectView::SaveConfig,
            EffectView::Notify("Log level: "@ + v),
            EffectView::RebuildTray,
        ],
{
}

/// Toggling TLS or forward error correction flips that one setting, saves,
/// and announces the new state ("enabled" when now on).
pub proof fn law_toggles_flip_and_announce(s: AppView)
    ensures
        step(s, ActionView::ToggleTls).0.config.use_tls == !s.config.use_tls,
        step(s, ActionView::ToggleTls).0.status == s.status,
        step(s, ActionView::ToggleTls).1 == seq![
            EffectView::SaveConfig,
            EffectView::Notify(
                "TLS "@ + if !s.config.use_tls {
                    "enabled"@
                } else {
                    "disabled"@
                },
            ),
        ],
        step(s, ActionView::ToggleFec).0.config.fec_enabled == !s.config.fec_enabled,
        step(s, ActionView::ToggleFec).0.status == s.status,
        step(s, ActionView::ToggleFec).1 == seq![
            EffectView::SaveConfig,
            EffectView::Notify(
                "FEC "@ + if !s.config.fec_enabled {
                    "enabled"@
                } else {
                    "disabled"@
                },
            ),
        ],
{
}

/// The actions that hand work to the shell change nothing and ask for just
/// that work: a file from the site is uploaded (the status turns to
/// connecting), pairing starts the prompt, status shows the status, and a
/// paired device's upload actions open the picker or read the clipboard.
pub proof fn law_work_actions(s: AppView, path: Seq<char>)
    ensures
        step(s, ActionView::IncomingFile(path)) == (AppView { status: StatusView::Connecting, ..s }, seq![
            EffectView::StartUpload(path),
        ]),
        step(s, ActionView::PairDevice) == (s, seq![EffectView::StartPairing]),
        step(s, ActionView::ShowStatus) == (s, seq![EffectView::ShowStatus]),
        s.config.paired ==> step(s, ActionView::UploadFile) == (s, seq![EffectView::PickFilesAndUpload]),
        s.config.paired ==> step(s, ActionView::PasteUpload) == (s, seq![EffectView::UploadFromClipboard]),
{
}

/// A completed pairing rebuilds the menu, starts the device connection, and
/// names the device in the tooltip and in a notification.
pub proof fn law_pairing_complete_names_device(s: AppView, name: Seq<char>)
    ensures
        step(s, ActionView::PairingComplete(name)) == (s, seq![
            EffectView::RebuildTray,
            EffectView::StartDeviceWs,
            EffectView::SetTooltip("juicebox-plus - Paired as '"@ + name + "'"@),
            EffectView::Notify("Connected as '"@ + name + "'"@),
        ]),
{
}

/// Choosing a setting opens the dialog for it: the retention time and the
/// storage host have their own dialogs; any other setting is edited in a
/// text box showing its label and current value. Nothing changes yet.
pub proof fn law_setting_opens_its_dialog(s: AppView, key: Seq<char>)
    ensures
        step(s, ActionView::Setting(key)).0 == s,
        key == "upload_ttl_hours"@ ==> step(s, ActionView::Setting(key)).1 == seq![
            EffectView::EditRetention,
        ],
        key == "storage_host"@ ==> step(s, ActionView::Setting(key)).1 == seq![
            EffectView::EditStorageHost,
        ],
        key != "upload_ttl_hours"@ && key != "storage_host"@ ==> step(s, ActionView::Setting(key)).1
            == seq![
            EffectView::EditSetting {
                key,
                label: setting_label_spec(key),
                current: current_value_spec(s.config, key),
            },
        ],
{
    reveal_strlit("upload_ttl_hours");
    reveal_strlit("storage_host");
    assert("upload_ttl_hours"@.len() != "storage_host"@.len());
}

/// A status message names what the daemon is doing; an upload shows its job
/// and the percentage given, a pause its job.
pub proof fn law_status_message(job: Seq<char>, b: u64, t: u64, pct: u32)
    ensures
        status_message_spec(StatusView::Disconnected, pct) == "Daemon: Disconnected"@,
        status_message_spec(StatusView::Connecting, pct) == "Daemon: Connecting..."@,
        status_message_spec(StatusView::Connected, pct) == "Daemon: Connected, idle"@,
        status_message_spec(
            StatusView::Uploading { job_id: job, bytes_completed: b, total_bytes: t },
            pct,
        ) == "Uploading "@ + job + ": "@ + decimal(pct as nat) + "%"@,
        status_message_spec(StatusView::Paused { job_id: job }, pct) == "Paused: "@ + job,
{
}

} // verus!

verus! {

/// Every setting the menu lists is shown under the label the menu gives it;
/// a name the menu does not list is shown as itself.
pub proof fn law_labels_match_menu(key: Seq<char>)
    ensures
        forall|i: int|
            0 <= i < setting_labels_spec().len() ==> setting_label_spec(
                (#[trigger] setting_labels_spec()[i]).0,
            ) == setting_labels_spec()[i].1,
        (forall|i: int| 0 <= i < setting_labels_spec().len() ==> (#[trigger] setting_labels_spec()[i]).0
            != key) ==> setting_label_spec(key) == key,
{
    reveal_strlit("juicebox_instance");
    reveal_strlit("storage_host");
    reveal_strlit("upload_ttl_hours");
    reveal_strlit("daemon_address");
    reveal_strlit("chunk_size_bytes");
    reveal_strlit("pairing_timeout_secs");
    let l = setting_labels_spec();
    assert(l[0].0 == "juicebox_instance"@);
    assert(l[1].0 == "storage_host"@);
    assert(l[2].0 == "upload_ttl_hours"@);
    assert(l[3].0 == "daemon_address"@);
    assert(l[4].0 == "chunk_size_bytes"@);
    assert(l[5].0 == "pairing_timeout_secs"@);
    assert("juicebox_instance"@.len() == 17);
    assert("storage_host"@.len() == 12);
    assert("upload_ttl_hours"@.len() == 16 && "upload_ttl_hours"@[0] == 'u');
    assert("daemon_address"@.len() == 14);
    assert("chunk_size_bytes"@.len() == 16 && "chunk_size_bytes"@[0] == 'c');
    assert("pairing_timeout_secs"@.len() == 20);
    assert forall|i: int| 0 <= i < l.len() implies setting_label_spec((#[trigger] l[i]).0)
        == l[i].1 by {
        if i == 0 {
        } else if i == 1 {
        } else if i == 2 {
        } else if i == 3 {
        } else if i == 4 {
            assert("chunk_size_bytes"@ != "upload_ttl_hours"@);
        } else {
        }
    }
}

} // verus!
