//! The tray menu's content, derived from the settings, and the action each
//! entry sends.

use vstd::prelude::*;
use crate::config::{Config, ConfigView};
use crate::state::{ActionView, TrayAction, setting_labels, setting_labels_spec, pairs_view};
use crate::text::str_eq;

verus! {

/// The compression modes offered, with their labels, in menu order.
pub open spec fn compression_modes_spec() -> Seq<(Seq<char>, Seq<char>)> {
    seq![("auto"@, "Auto"@), ("lz4"@, "LZ4"@), ("disabled"@, "Disabled"@)]
}

/// The log levels offered, with their labels, in menu order.
pub open spec fn log_levels_spec() -> Seq<(Seq<char>, Seq<char>)> {
    seq![
        ("error"@, "Error"@),
        ("warn"@, "Warn"@),
        ("info"@, "Info"@),
        ("debug"@, "Debug"@),
        ("trace"@, "Trace"@),
    ]
}

/// A menu entry that can be checked.
#[derive(Debug)]
pub struct CheckEntry {
    pub value: String,
    pub label: String,
    pub checked: bool,
}

/// What the tray menu shows.
/// An entry of the tray menu or of its settings submenu, in drawing order.
#[derive(Debug, Clone, Copy, PartialEq, Eq, Structural)]
pub enum MenuEntry {
    Pause,
    Status,
    Separator,
    UploadFile,
    UploadPaste,
    /// The pairing entry (labelled `pair_label`).
    Pair,
    /// The settings submenu.
    Settings,
    Quit,
    Tls,
    Fec,
    /// The compression mode submenu.
    CompressionMenu,
    /// The log level submenu.
    LogLevelMenu,
}

/// The tray menu's entries, top to bottom.
pub open spec fn top_layout_spec() -> Seq<MenuEntry> {
    seq![
        MenuEntry::Pause,
        MenuEntry::Status,
        MenuEntry::Separator,
        MenuEntry::UploadFile,
        MenuEntry::UploadPaste,
        MenuEntry::Separator,
        MenuEntry::Pair,
        MenuEntry::Settings,
        MenuEntry::Separator,
        MenuEntry::Quit,
    ]
}

/// The settings submenu's entries after the settings themselves, top to
/// bottom.
pub open spec fn settings_tail_spec() -> Seq<MenuEntry> {
    seq![
        MenuEntry::Separator,
        MenuEntry::Tls,
        MenuEntry::Fec,
        MenuEntry::CompressionMenu,
        MenuEntry::LogLevelMenu,
    ]
}

fn top_layout() -> (r: Vec<MenuEntry>)
    ensures
        r@ == top_layout_spec(),
{
    let mut r: Vec<MenuEntry> = Vec::new();
    r.push(MenuEntry::Pause);
    r.push(MenuEntry::Status);
    r.push(MenuEntry::Separator);
    r.push(MenuEntry::UploadFile);
    r.push(MenuEntry::UploadPaste);
    r.push(MenuEntry::Separator);
    r.push(MenuEntry::Pair);
    r.push(MenuEntry::Settings);
    r.push(MenuEntry::Separator);
    r.push(MenuEntry::Quit);
    assert(r@ =~= top_layout_spec());
    r
}

fn settings_tail() -> (r: Vec<MenuEntry>)
    ensures
        r@ == settings_tail_spec(),
{
    let mut r: Vec<MenuEntry> = Vec::new();
    r.push(MenuEntry::Separator);
    r.push(MenuEntry::Tls);
    r.push(MenuEntry::Fec);
    r.push(MenuEntry::CompressionMenu);
    r.push(MenuEntry::LogLevelMenu);
    assert(r@ =~= settings_tail_spec());
    r
}

/// What the tray menu shows.
#[derive(Debug)]
pub struct MenuModel {
    /// The menu's entries, top to bottom.
    pub top: Vec<MenuEntry>,
    /// The settings submenu's entries after the settings, top to bottom.
    pub settings_tail: Vec<MenuEntry>,
    /// "Upload File..." and "Upload Paste..." can be chosen.
    pub uploads_enabled: bool,
    /// The pairing entry's label.
    pub pair_label: String,
    /// The settings entries: each setting's name and label.
    pub settings: Vec<(String, String)>,
    pub tls_checked: bool,
    pub fec_checked: bool,
    pub compression: Vec<CheckEntry>,
    pub log_levels: Vec<CheckEntry>,
}

/// The check entries for `options`, the one equal to `current` checked.
pub open spec fn checks_spec(options: Seq<(Seq<char>, Seq<char>)>, current: Seq<char>) -> Seq<
    (Seq<char>, Seq<char>, bool),
> {
    options.map_values(|o: (Seq<char>, Seq<char>)| (o.0, o.1, o.0 == current))
}

/// The views of check entries.
pub open spec fn entries_view(v: Seq<CheckEntry>) -> Seq<(Seq<char>, Seq<char>, bool)> {
    v.map_values(|e: CheckEntry| (e.value@, e.label@, e.checked))
}

/// The pairing entry's label: a ballot box with a check when paired.
pub open spec fn pair_label_spec(paired: bool) -> Seq<char> {
    if paired {
        "\u{2611} Paired"@
    } else {
        "\u{2612} Pair Device..."@
    }
}

fn checks(options: Vec<(&'static str, &'static str)>, current: &str) -> (r: Vec<CheckEntry>)
    ensures
        entries_view(r@) == options@.map_values(
            |o: (&'static str, &'static str)| (o.0@, o.1@, o.0@ == current@),
        ),
{
    let mut r: Vec<CheckEntry> = Vec::new();
    let n = options.len();
    let mut i: usize = 0;
    while i < n
        invariant
            i <= n,
            n == options@.len(),
            entries_view(r@) == options@.subrange(0, i as int).map_values(
                |o: (&'static str, &'static str)| (o.0@, o.1@, o.0@ == current@),
            ),
        decreases n - i,
    {
        let (v, l) = options[i];
        let ghost before = entries_view(r@);
        r.push(
            CheckEntry {
                value: String::from_str(v),
                label: String::from_str(l),
                checked: str_eq(v, current),
            },
        );
        assert(entries_view(r@) =~= before.push((v@, l@, v@ == current@)));
        assert(options@.subrange(0, i + 1) =~= options@.subrange(0, i as int).push(
            options@[i as int],
        ));
        i = i + 1;
        assert(entries_view(r@) =~= options@.subrange(0, i as int).map_values(
            |o: (&'static str, &'static str)| (o.0@, o.1@, o.0@ == current@),
        ));
    }
    assert(options@.subrange(0, n as int) =~= options@);
    r
}

/// Builds the menu's content from the settings.
pub fn menu_model(config: &Config) -> (r: MenuModel)
    ensures
        r.top@ == top_layout_spec(),
        r.settings_tail@ == settings_tail_spec(),
        r.uploads_enabled == config.paired,
        r.pair_label@ == pair_label_spec(config.paired),
        pairs_view(r.settings@) == setting_labels_spec(),
        r.tls_checked == config.use_tls,
        r.fec_checked == config.fec_enabled,
        entries_view(r.compression@) == checks_spec(
            compression_modes_spec(),
            config.compression_mode@,
        ),
        entries_view(r.log_levels@) == checks_spec(log_levels_spec(), config.log_level@),
{
    let mut modes: Vec<(&'static str, &'static str)> = Vec::new();
    modes.push(("auto", "Auto"));
    modes.push(("lz4", "LZ4"));
    modes.push(("disabled", "Disabled"));
    let compression = checks(modes, config.compression_mode.as_str());
    let mut levels: Vec<(&'static str, &'static str)> = Vec::new();
    levels.push(("error", "Error"));
    levels.push(("warn", "Warn"));
    levels.push(("info", "Info"));
    levels.push(("debug", "Debug"));
    levels.push(("trace", "Trace"));
    let log_levels = checks(levels, config.log_level.as_str());
    assert(entries_view(compression@) =~= checks_spec(
        compression_modes_spec(),
        config.compression_mode@,
    ));
    assert(entries_view(log_levels@) =~= checks_spec(log_levels_spec(), config.log_level@));
    MenuModel {
        top: top_layout(),
        settings_tail: settings_tail(),
        uploads_enabled: config.paired,
        pair_label: if config.paired {
            String::from_str("\u{2611} Paired")
        } else {
            String::from_str("\u{2612} Pair Device...")
        },
        settings: setting_labels(),
        tls_checked: config.use_tls,
        fec_checked: config.fec_enabled,
        compression,
        log_levels,
    }
}

/// The tray icon's tooltip.
pub fn tooltip(paired: bool) -> (r: String)
    ensures
        r@ == (if paired {
            "juicebox-plus \u{2014} Paired"@
        } else {
            "juicebox-plus \u{2014} Not Paired"@
        }),
{
    if paired {
        String::from_str("juicebox-plus \u{2014} Paired")
    } else {
        String::from_str("juicebox-plus \u{2014} Not Paired")
    }
}

/// A menu entry the user can choose.
pub enum MenuChoice {
    Pause,
    Status,
    UploadFile,
    UploadPaste,
    Pair,
    Quit,
    Tls,
    Fec,
    Compression(String),
    LogLevel(String),
    Setting(String),
}

/// The action sent for a menu entry.
pub open spec fn action_for_spec(c: MenuChoice) -> ActionView {
    match c {
        MenuChoice::Pause => ActionView::PauseResume,
        MenuChoice::Status => ActionView::ShowStatus,
        MenuChoice::UploadFile => ActionView::UploadFile,
        MenuChoice::UploadPaste => ActionView::PasteUpload,
        MenuChoice::Pair => ActionView::PairDevice,
        MenuChoice::Quit => ActionView::Quit,
        MenuChoice::Tls => ActionView::ToggleTls,
        MenuChoice::Fec => ActionView::ToggleFec,
        MenuChoice::Compression(m) => ActionView::SetCompressionMode(m@),
        MenuChoice::LogLevel(l) => ActionView::SetLogLevel(l@),
        MenuChoice::Setting(k) => ActionView::Setting(k@),
    }
}

/// The action a chosen menu entry sends to the tray.
pub fn action_for(choice: MenuChoice) -> (r: TrayAction)
    ensures
        r@ == action_for_spec(choice),
{
    match choice {
        MenuChoice::Pause => TrayAction::PauseResume,
        MenuChoice::Status => TrayAction::ShowStatus,
        MenuChoice::UploadFile => TrayAction::UploadFile,
        MenuChoice::UploadPaste => TrayAction::PasteUpload,
        MenuChoice::Pair => TrayAction::PairDevice,
        MenuChoice::Quit => TrayAction::Quit,
        MenuChoice::Tls => TrayAction::ToggleTls,
        MenuChoice::Fec => TrayAction::ToggleFec,
        MenuChoice::Compression(m) => TrayAction::SetCompressionMode(m),
        MenuChoice::LogLevel(l) => TrayAction::SetLogLevel(l),
        MenuChoice::Setting(k) => TrayAction::Setting(k),
    }
}

} // verus!

verus! {

/// Each menu entry sends the action of the same name, carrying the chosen
/// mode, level or setting.
pub proof fn law_menu_sends_its_action(c: MenuChoice)
    ensures
        c is Pause ==> action_for_spec(c) is PauseResume,
        c is Status ==> action_for_spec(c) is ShowStatus,
        c is UploadFile ==> action_for_spec(c) is UploadFile,
        c is UploadPaste ==> action_for_spec(c) is PasteUpload,
        c is Pair ==> action_for_spec(c) is PairDevice,
        c is Quit ==> action_for_spec(c) is Quit,
        c is Tls ==> action_for_spec(c) is ToggleTls,
        c is Fec ==> action_for_spec(c) is ToggleFec,
        c matches MenuChoice::Compression(m) ==> action_for_spec(c) == ActionView::SetCompressionMode(
            m@,
        ),
        c matches MenuChoice::LogLevel(l) ==> action_for_spec(c) == ActionView::SetLogLevel(l@),
        c matches MenuChoice::Setting(k) ==> action_for_spec(c) == ActionView::Setting(k@),
{
}

/// In a list of choices exactly the entries whose value is the current one
/// are checked; values and labels are kept, in order.
pub proof fn law_only_current_checked(options: Seq<(Seq<char>, Seq<char>)>, current: Seq<char>)
    ensures
        checks_spec(options, current).len() == options.len(),
        forall|i: int|
            0 <= i < options.len() ==> (#[trigger] checks_spec(options, current)[i]).0 == options[i].0
                && checks_spec(options, current)[i].1 == options[i].1 && (checks_spec(
                options,
                current,
            )[i].2 <==> options[i].0 == current),
{
}

/// The pairing entry shows a checked box and "Paired" once paired, and
/// offers pairing otherwise.
pub proof fn law_pair_label(paired: bool)
    ensures
        paired ==> pair_label_spec(paired) == "\u{2611} Paired"@,
        !paired ==> pair_label_spec(paired) == "\u{2612} Pair Device..."@,
{
}

} // verus!
