//! The client's settings: their defaults, how each one is shown, and how a
//! new value typed by the user is applied.

use vstd::prelude::*;
use crate::text::{
    decimal, lemma_parse_decimal_roundtrip, owned, parse_u64, parse_u64_spec, str_eq, trim, trim_spec, u64_to_decimal, concat2,
};

verus! {

/// The client's settings, as stored in its configuration file.
///
/// `upload_ttl_hours` holds the retention time in hours as the text of the
/// number (the number itself is read and written outside this library).
pub struct Config {
    pub daemon_address: String,
    pub juicebox_instance: String,
    pub use_tls: bool,
    pub chunk_size_bytes: u64,
    pub fec_enabled: bool,
    pub compression_mode: String,
    pub pairing_timeout_secs: u64,
    pub upload_ttl_hours: Option<String>,
    pub storage_host: Option<String>,
    pub paired: bool,
    pub device_id: Option<String>,
    pub log_level: String,
}

/// The mathematical content of a [`Config`].
pub struct ConfigView {
    pub daemon_address: Seq<char>,
    pub juicebox_instance: Seq<char>,
    pub use_tls: bool,
    pub chunk_size_bytes: u64,
    pub fec_enabled: bool,
    pub compression_mode: Seq<char>,
    pub pairing_timeout_secs: u64,
    pub upload_ttl_hours: Option<Seq<char>>,
    pub storage_host: Option<Seq<char>>,
    pub paired: bool,
    pub device_id: Option<Seq<char>>,
    pub log_level: Seq<char>,
}

/// The characters of an optional string.
pub open spec fn opt_view(o: Option<String>) -> Option<Seq<char>> {
    match o {
        Some(s) => Some(s@),
        None => None,
    }
}

impl View for Config {
    type V = ConfigView;

    open spec fn view(&self) -> ConfigView {
        ConfigView {
            daemon_address: self.daemon_address@,
            juicebox_instance: self.juicebox_instance@,
            use_tls: self.use_tls,
            chunk_size_bytes: self.chunk_size_bytes,
            fec_enabled: self.fec_enabled,
            compression_mode: self.compression_mode@,
            pairing_timeout_secs: self.pairing_timeout_secs,
            upload_ttl_hours: opt_view(self.upload_ttl_hours),
            storage_host: opt_view(self.storage_host),
            paired: self.paired,
            device_id: opt_view(self.device_id),
            log_level: self.log_level@,
        }
    }
}

/// Copies an optional string.
pub fn clone_opt(o: &Option<String>) -> (r: Option<String>)
    ensures
        opt_view(r) == opt_view(*o),
{
    match o {
        Some(s) => Some(s.clone()),
        None => None,
    }
}

impl Clone for Config {
    fn clone(&self) -> (r: Self)
        ensures
            r@ == self@,
    {
        Config {
            daemon_address: self.daemon_address.clone(),
            juicebox_instance: self.juicebox_instance.clone(),
            use_tls: self.use_tls,
            chunk_size_bytes: self.chunk_size_bytes,
            fec_enabled: self.fec_enabled,
            compression_mode: self.compression_mode.clone(),
            pairing_timeout_secs: self.pairing_timeout_secs,
            upload_ttl_hours: clone_opt(&self.upload_ttl_hours),
            storage_host: clone_opt(&self.storage_host),
            paired: self.paired,
            device_id: clone_opt(&self.device_id),
            log_level: self.log_level.clone(),
        }
    }
}

/// The settings a fresh installation starts with.
pub open spec fn default_config() -> ConfigView {
    ConfigView {
        daemon_address: "127.0.0.1:22100"@,
        juicebox_instance: "https://box.juicey.dev/"@,
        use_tls: false,
        chunk_size_bytes: 33554432,
        fec_enabled: true,
        compression_mode: "auto"@,
        pairing_timeout_secs: 30,
        upload_ttl_hours: None,
        storage_host: None,
        paired: false,
        device_id: None,
        log_level: "info"@,
    }
}

impl Default for Config {
    fn default() -> (r: Self)
        ensures
            r@ == default_config(),
    {
        Config {
            daemon_address: String::from_str("127.0.0.1:22100"),
            juicebox_instance: String::from_str("https://box.juicey.dev/"),
            use_tls: false,
            chunk_size_bytes: 33554432,
            fec_enabled: true,
            compression_mode: String::from_str("auto"),
            pairing_timeout_secs: 30,
            upload_ttl_hours: None,
            storage_host: None,
            paired: false,
            device_id: None,
            log_level: String::from_str("info"),
        }
    }
}

/// The text shown for a `bool` (`"true"` or `"false"`).
pub open spec fn bool_text(b: bool) -> Seq<char> {
    if b {
        "true"@
    } else {
        "false"@
    }
}

/// How the setting named `setting` is shown to the user; an empty text for a
/// name that is not a shown setting.
pub open spec fn current_value_spec(c: ConfigView, setting: Seq<char>) -> Seq<char> {
    if setting == "daemon_address"@ {
        c.daemon_address
    } else if setting == "juicebox_instance"@ {
        c.juicebox_instance
    } else if setting == "chunk_size_bytes"@ {
        decimal(c.chunk_size_bytes as nat)
    } else if setting == "pairing_timeout_secs"@ {
        decimal(c.pairing_timeout_secs as nat)
    } else if setting == "upload_ttl_hours"@ {
        match c.upload_ttl_hours {
            Some(t) => t,
            None => "default"@,
        }
    } else if setting == "paired"@ {
        bool_text(c.paired)
    } else if setting == "device_id"@ {
        match c.device_id {
            Some(d) => d,
            None => Seq::empty(),
        }
    } else if setting == "log_level"@ {
        c.log_level
    } else {
        Seq::empty()
    }
}

/// The message of a rejected number.
pub open spec fn expected_number_msg() -> Seq<char> {
    "expected a number"@
}

/// The retention value means "use the server's default".
pub open spec fn is_default_ttl_text(value: Seq<char>) -> bool {
    trim_spec(value).len() == 0 || value == "default"@
}

/// The settings after the user sets `setting` to `value`, or the message of
/// the refusal. `ttl_number` is `value` read as a number and written back as
/// text, or `None` where `value` is not a number; only the retention setting
/// consults it.
pub open spec fn update_spec(
    c: ConfigView,
    setting: Seq<char>,
    value: Seq<char>,
    ttl_number: Option<Seq<char>>,
) -> Result<ConfigView, Seq<char>> {
    if setting == "daemon_address"@ {
        Ok(ConfigView { daemon_address: value, ..c })
    } else if setting == "juicebox_instance"@ {
        Ok(ConfigView { juicebox_instance: value, ..c })
    } else if setting == "chunk_size_bytes"@ {
        match parse_u64_spec(value) {
            Some(n) => Ok(ConfigView { chunk_size_bytes: n, ..c }),
            None => Err(expected_number_msg()),
        }
    } else if setting == "pairing_timeout_secs"@ {
        match parse_u64_spec(value) {
            Some(n) => Ok(ConfigView { pairing_timeout_secs: n, ..c }),
            None => Err(expected_number_msg()),
        }
    } else if setting == "upload_ttl_hours"@ {
        if is_default_ttl_text(value) {
            Ok(ConfigView { upload_ttl_hours: None, ..c })
        } else {
            match ttl_number {
                Some(t) => Ok(ConfigView { upload_ttl_hours: Some(t), ..c }),
                None => Err(expected_number_msg()),
            }
        }
    } else if setting == "log_level"@ {
        Ok(ConfigView { log_level: value, ..c })
    } else {
        Err("unknown setting: "@ + setting)
    }
}

impl Config {
    /// How the setting named `setting` is shown to the user.
    pub fn current_value(&self, setting: &str) -> (r: String)
        ensures
            r@ == current_value_spec(self@, setting@),
    {
        if str_eq(setting, "daemon_address") {
            self.daemon_address.clone()
        } else if str_eq(setting, "juicebox_instance") {
            self.juicebox_instance.clone()
        } else if str_eq(setting, "chunk_size_bytes") {
            u64_to_decimal(self.chunk_size_bytes)
        } else if str_eq(setting, "pairing_timeout_secs") {
            u64_to_decimal(self.pairing_timeout_secs)
        } else if str_eq(setting, "upload_ttl_hours") {
            match &self.upload_ttl_hours {
                Some(t) => t.clone(),
                None => String::from_str("default"),
            }
        } else if str_eq(setting, "paired") {
            if self.paired {
                String::from_str("true")
            } else {
                String::from_str("false")
            }
        } else if str_eq(setting, "device_id") {
            match &self.device_id {
                Some(d) => d.clone(),
                None => String::new(),
            }
        } else if str_eq(setting, "log_level") {
            self.log_level.clone()
        } else {
            String::new()
        }
    }

    /// Applies a new value for the setting named `setting`. On a refusal the
    /// settings are left as they were and the message says why.
    /// `ttl_number` is `value` read as a number of hours and written back as
    /// text (`None` when `value` is not a number); only the retention setting
    /// (`upload_ttl_hours`) uses it. Writing the file is left to the caller.
    pub fn update(&mut self, setting: &str, value: &str, ttl_number: Option<String>) -> (r: Result<
        (),
        String,
    >)
        ensures
            match update_spec(old(self)@, setting@, value@, opt_view(ttl_number)) {
                Ok(v) => r is Ok && final(self)@ == v,
                Err(e) => r is Err && r->Err_0@ == e && final(self)@ == old(self)@,
            },
    {
        if str_eq(setting, "daemon_address") {
            self.daemon_address = owned(value);
            Ok(())
        } else if str_eq(setting, "juicebox_instance") {
            self.juicebox_instance = owned(value);
            Ok(())
        } else if str_eq(setting, "chunk_size_bytes") {
            match parse_u64(value) {
                Some(n) => {
                    self.chunk_size_bytes = n;
                    Ok(())
                },
                None => Err(String::from_str("expected a number")),
            }
        } else if str_eq(setting, "pairing_timeout_secs") {
            match parse_u64(value) {
                Some(n) => {
                    self.pairing_timeout_secs = n;
                    Ok(())
                },
                None => Err(String::from_str("expected a number")),
            }
        } else if str_eq(setting, "upload_ttl_hours") {
            let trimmed = trim(value);
            if trimmed.as_str().unicode_len() == 0 || str_eq(value, "default") {
                self.upload_ttl_hours = None;
                Ok(())
            } else {
                match ttl_number {
                    Some(t) => {
                        self.upload_ttl_hours = Some(t);
                        Ok(())
                    },
                    None => Err(String::from_str("expected a number")),
                }
            }
        } else if str_eq(setting, "log_level") {
            self.log_level = owned(value);
            Ok(())
        } else {
            Err(concat2("unknown setting: ", setting))
        }
    }
}

} // verus!

verus! {

/// The names of the settings that `update` accepts.
pub open spec fn is_updatable(setting: Seq<char>) -> bool {
    ||| setting == "daemon_address"@
    ||| setting == "juicebox_instance"@
    ||| setting == "chunk_size_bytes"@
    ||| setting == "pairing_timeout_secs"@
    ||| setting == "upload_ttl_hours"@
    ||| setting == "log_level"@
}

/// The lengths and end characters of the setting names, which tell them apart.
proof fn reveal_setting_names()
    ensures
        "daemon_address"@.len() == 14 && "daemon_address"@[0] == 'd' && "daemon_address"@[13] == 's',
        "juicebox_instance"@.len() == 17 && "juicebox_instance"@[0] == 'j' && "juicebox_instance"@[16] == 'e',
        "chunk_size_bytes"@.len() == 16 && "chunk_size_bytes"@[0] == 'c' && "chunk_size_bytes"@[15] == 's',
        "pairing_timeout_secs"@.len() == 20 && "pairing_timeout_secs"@[0] == 'p' && "pairing_timeout_secs"@[19] == 's',
        "upload_ttl_hours"@.len() == 16 && "upload_ttl_hours"@[0] == 'u' && "upload_ttl_hours"@[15] == 's',
        "paired"@.len() == 6 && "paired"@[0] == 'p' && "paired"@[5] == 'd',
        "device_id"@.len() == 9 && "device_id"@[0] == 'd' && "device_id"@[8] == 'd',
        "log_level"@.len() == 9 && "log_level"@[0] == 'l' && "log_level"@[8] == 'l',
        "default"@.len() == 7 && "default"@[0] == 'd' && "default"@[6] == 't',
{
    reveal_strlit("daemon_address");
    reveal_strlit("juicebox_instance");
    reveal_strlit("chunk_size_bytes");
    reveal_strlit("pairing_timeout_secs");
    reveal_strlit("upload_ttl_hours");
    reveal_strlit("paired");
    reveal_strlit("device_id");
    reveal_strlit("log_level");
    reveal_strlit("default");
}

/// A text setting that is set is shown back exactly as it was written.
pub proof fn law_text_setting_reads_back(
    c: ConfigView,
    setting: Seq<char>,
    value: Seq<char>,
    ttl_number: Option<Seq<char>>,
)
    requires
        setting == "daemon_address"@ || setting == "juicebox_instance"@ || setting
            == "log_level"@,
    ensures
        update_spec(c, setting, value, ttl_number) is Ok,
        current_value_spec(update_spec(c, setting, value, ttl_number)->Ok_0, setting) == value,
{
    reveal_setting_names();
}

/// A number setting accepts exactly the texts that read as a 64-bit unsigned
/// number, and then shows that number in decimal.
pub proof fn law_number_setting_reads_back(
    c: ConfigView,
    setting: Seq<char>,
    value: Seq<char>,
    ttl_number: Option<Seq<char>>,
)
    requires
        setting == "chunk_size_bytes"@ || setting == "pairing_timeout_secs"@,
    ensures
        (update_spec(c, setting, value, ttl_number) is Ok) == (parse_u64_spec(value) is Some),
        update_spec(c, setting, value, ttl_number) is Ok ==> current_value_spec(
            update_spec(c, setting, value, ttl_number)->Ok_0,
            setting,
        ) == decimal(parse_u64_spec(value)->Some_0 as nat),
{
    reveal_setting_names();
}

/// Writing back the value that a setting shows leaves the settings as they
/// were. For the retention time this holds when the number that the shown
/// text reads as is written back as that same text.
pub proof fn law_shown_value_writes_back(
    c: ConfigView,
    setting: Seq<char>,
    ttl_number: Option<Seq<char>>,
)
    requires
        is_updatable(setting),
        setting == "upload_ttl_hours"@ ==> (ttl_number == c.upload_ttl_hours && (
        c.upload_ttl_hours matches Some(t) ==> !is_default_ttl_text(t))),
    ensures
        update_spec(c, setting, current_value_spec(c, setting), ttl_number) == Ok::<
            ConfigView,
            Seq<char>,
        >(c),
{
    reveal_setting_names();
    if setting == "chunk_size_bytes"@ {
        lemma_parse_decimal_roundtrip(c.chunk_size_bytes);
    } else if setting == "pairing_timeout_secs"@ {
        lemma_parse_decimal_roundtrip(c.pairing_timeout_secs);
    } else if setting == "upload_ttl_hours"@ {
        if c.upload_ttl_hours is None {
            assert(is_default_ttl_text("default"@));
        }
    }
}

/// Setting one value changes how no other setting is shown.
pub proof fn law_update_changes_only_its_setting(
    c: ConfigView,
    setting: Seq<char>,
    value: Seq<char>,
    ttl_number: Option<Seq<char>>,
    other: Seq<char>,
)
    requires
        other != setting,
        update_spec(c, setting, value, ttl_number) is Ok,
    ensures
        current_value_spec(update_spec(c, setting, value, ttl_number)->Ok_0, other)
            == current_value_spec(c, other),
{
    reveal_setting_names();
}

/// A name that is not a setting is refused with a message that names it.
pub proof fn law_unknown_setting_refused(
    c: ConfigView,
    setting: Seq<char>,
    value: Seq<char>,
    ttl_number: Option<Seq<char>>,
)
    requires
        !is_updatable(setting),
    ensures
        update_spec(c, setting, value, ttl_number) == Err::<ConfigView, Seq<char>>(
            "unknown setting: "@ + setting,
        ),
{
}

} // verus!

verus! {

/// What reading the settings file came to.
pub enum LoadOutcome {
    /// No configuration directory could be determined.
    NoPath,
    /// The file was read and parsed into these settings.
    Parsed(Config),
    /// The file was read but could not be parsed.
    ParseFailed,
    /// There is no file yet.
    NotFound,
    /// The file could not be read.
    ReadFailed,
}

/// The settings to use after reading the file, and whether to write them
/// (the defaults are written when there was no file yet). Anything other
/// than a parsed file gives the defaults.
pub fn settings_after_load(outcome: LoadOutcome) -> (r: (Config, bool))
    ensures
        match outcome {
            LoadOutcome::Parsed(c) => r.0@ == c@ && !r.1,
            LoadOutcome::NotFound => r.0@ == default_config() && r.1,
            _ => r.0@ == default_config() && !r.1,
        },
{
    match outcome {
        LoadOutcome::Parsed(c) => (c, false),
        LoadOutcome::NotFound => (Config::default(), true),
        _ => (Config::default(), false),
    }
}

} // verus!

verus! {

/// A fresh installation talks to the local daemon at 127.0.0.1:22100 and to
/// box.juicey.dev, unpaired, with TLS off, forward error correction on,
/// automatic compression, 32 MiB chunks, a 30 s pairing timeout, the
/// server's retention time and `info` logging; the settings dialog shows
/// these values.
pub proof fn law_defaults_shown()
    ensures
        current_value_spec(default_config(), "daemon_address"@) == "127.0.0.1:22100"@,
        current_value_spec(default_config(), "juicebox_instance"@) == "https://box.juicey.dev/"@,
        current_value_spec(default_config(), "chunk_size_bytes"@) == decimal(33554432),
        current_value_spec(default_config(), "pairing_timeout_secs"@) == decimal(30),
        current_value_spec(default_config(), "upload_ttl_hours"@) == "default"@,
        current_value_spec(default_config(), "log_level"@) == "info"@,
        current_value_spec(default_config(), "paired"@) == "false"@,
        !default_config().use_tls,
        default_config().fec_enabled,
        default_config().compression_mode == "auto"@,
        default_config().storage_host is None,
        default_config().device_id is None,
{
    reveal_setting_names();
}

} // verus!
