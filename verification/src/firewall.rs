//! Firewall state classification and the Windows outbound-rule helpers.
//!
//! What the platform tools print is read by the shell; this module decides
//! what that output means. A firewall is reported active only where it could
//! restrict the client's outbound transfers.

use vstd::prelude::*;
use crate::text::{
    concat2, concat3, contains_seq, contains_str, i64_to_decimal, join, join_spec, lowercase,
    signed_decimal, str_eq, strings_view, to_lowercase, trim, trim_spec,
};

verus! {

/// What the firewall state probe found.
#[derive(Debug)]
pub struct FirewallInfo {
    /// True when a firewall is active that could block outbound transfers.
    pub active: bool,
    /// Human-readable summary of what was detected.
    pub description: String,
}

impl Default for FirewallInfo {
    fn default() -> (r: Self)
        ensures
            !r.active,
            r.description@ == Seq::<char>::empty(),
    {
        FirewallInfo { active: false, description: String::new() }
    }
}

/// What the platform's firewall tools printed (their standard output
/// followed by their standard error), `None` for a tool that could not run.
pub enum FirewallProbe {
    /// `ufw status`, `firewall-cmd --state` and `nft list ruleset`.
    Linux { ufw: Option<String>, firewalld: Option<String>, nft: Option<String> },
    /// `socketfilterfw --getglobalstate` and `pfctl -s info`.
    Macos { socketfilterfw: Option<String>, pfctl: Option<String> },
    /// Whether the client's outbound rule is listed by `netsh`.
    Windows { rule_present: bool },
    /// A platform with no probe.
    Other,
}

/// The output of a tool that ran and printed `needle`.
pub open spec fn output_has(out: Option<String>, needle: Seq<char>) -> bool {
    match out {
        Some(o) => contains_seq(o@, needle),
        None => false,
    }
}

/// The output of a tool that ran and printed exactly `word` (in any case,
/// with surrounding whitespace), as `firewall-cmd --state` prints `running`
/// (and `not running` otherwise).
pub open spec fn output_is_word(out: Option<String>, word: Seq<char>) -> bool {
    match out {
        Some(o) => trim_spec(lowercase(o@)) == word,
        None => false,
    }
}

/// `part` when `cond` holds, else nothing.
pub open spec fn part_if(cond: bool, part: Seq<char>) -> Seq<Seq<char>> {
    if cond {
        seq![part]
    } else {
        seq![]
    }
}

/// The findings of the Linux probe, in the order they are reported.
pub open spec fn linux_parts(
    ufw: Option<String>,
    firewalld: Option<String>,
    nft: Option<String>,
) -> Seq<Seq<char>> {
    part_if(output_has(ufw, "Status: active"@), "ufw active"@) + part_if(
        output_is_word(firewalld, "running"@),
        "firewalld running"@,
    ) + part_if(output_has(nft, "policy drop"@), "nftables drop policy"@)
}

/// The findings of the macOS probe, in the order they are reported.
pub open spec fn macos_parts(socketfilterfw: Option<String>, pfctl: Option<String>) -> Seq<
    Seq<char>,
> {
    part_if(output_has(socketfilterfw, "State = 1"@), "Application Firewall enabled"@) + part_if(
        output_has(pfctl, "Status: Enabled"@),
        "pf enabled"@,
    )
}

/// The firewall summary: `(active, description)` for what a probe found.
pub open spec fn detect_spec(p: FirewallProbe) -> (bool, Seq<char>) {
    match p {
        FirewallProbe::Linux { ufw, firewalld, nft } => {
            let parts = linux_parts(ufw, firewalld, nft);
            (parts.len() > 0, join_spec(parts, ", "@))
        },
        FirewallProbe::Macos { socketfilterfw, pfctl } => {
            let parts = macos_parts(socketfilterfw, pfctl);
            (parts.len() > 0, join_spec(parts, ", "@))
        },
        FirewallProbe::Windows { rule_present } => if rule_present {
            (false, "Windows Firewall rule present"@)
        } else {
            (true, "Windows Firewall: no juicebox-plus rule"@)
        },
        FirewallProbe::Other => (false, Seq::empty()),
    }
}

fn has(out: &Option<String>, needle: &str) -> (r: bool)
    ensures
        r == output_has(*out, needle@),
{
    match out {
        Some(o) => contains_str(o.as_str(), needle),
        None => false,
    }
}

/// Whether a tool's lower-cased output `lowered`, without surrounding
/// whitespace, is exactly `word`.
pub fn lowered_is_word(lowered: &str, word: &str) -> (r: bool)
    ensures
        r == (trim_spec(lowered@) == word@),
{
    let t = trim(lowered);
    str_eq(t.as_str(), word)
}

fn is_word(out: &Option<String>, word: &str) -> (r: bool)
    ensures
        r == output_is_word(*out, word@),
{
    match out {
        Some(o) => {
            let l = to_lowercase(o.as_str());
            lowered_is_word(l.as_str(), word)
        },
        None => false,
    }
}

fn push_if(parts: &mut Vec<String>, cond: bool, part: &str)
    ensures
        strings_view(final(parts)@) == strings_view(old(parts)@) + part_if(cond, part@),
{
    let ghost before = strings_view(parts@);
    if cond {
        parts.push(String::from_str(part));
        assert(strings_view(parts@) =~= before + part_if(cond, part@));
    } else {
        assert(strings_view(parts@) =~= before + part_if(cond, part@));
    }
}

/// Reads the Linux tools' output.
pub fn detect_linux(ufw: &Option<String>, firewalld: &Option<String>, nft: &Option<String>) -> (r: FirewallInfo)
    ensures
        (r.active, r.description@) == detect_spec(
            FirewallProbe::Linux { ufw: *ufw, firewalld: *firewalld, nft: *nft },
        ),
{
    let mut parts: Vec<String> = Vec::new();
    assert(strings_view(parts@) =~= seq![]);
    push_if(&mut parts, has(ufw, "Status: active"), "ufw active");
    push_if(&mut parts, is_word(firewalld, "running"), "firewalld running");
    push_if(&mut parts, has(nft, "policy drop"), "nftables drop policy");
    assert(strings_view(parts@) =~= linux_parts(*ufw, *firewalld, *nft));
    let active = parts.len() > 0;
    FirewallInfo { active, description: join(&parts, ", ") }
}

/// Reads the macOS tools' output.
pub fn detect_macos(socketfilterfw: &Option<String>, pfctl: &Option<String>) -> (r: FirewallInfo)
    ensures
        (r.active, r.description@) == detect_spec(
            FirewallProbe::Macos { socketfilterfw: *socketfilterfw, pfctl: *pfctl },
        ),
{
    let mut parts: Vec<String> = Vec::new();
    assert(strings_view(parts@) =~= seq![]);
    push_if(&mut parts, has(socketfilterfw, "State = 1"), "Application Firewall enabled");
    push_if(&mut parts, has(pfctl, "Status: Enabled"), "pf enabled");
    assert(strings_view(parts@) =~= macos_parts(*socketfilterfw, *pfctl));
    let active = parts.len() > 0;
    FirewallInfo { active, description: join(&parts, ", ") }
}

/// Reads whether the client's Windows outbound rule exists.
pub fn detect_windows(rule_present: bool) -> (r: FirewallInfo)
    ensures
        (r.active, r.description@) == detect_spec(FirewallProbe::Windows { rule_present }),
{
    if rule_present {
        FirewallInfo {
            active: false,
            description: String::from_str("Windows Firewall rule present"),
        }
    } else {
        FirewallInfo {
            active: true,
            description: String::from_str("Windows Firewall: no juicebox-plus rule"),
        }
    }
}

/// The firewall state that the platform's probe output shows.
pub fn detect(probe: &FirewallProbe) -> (r: FirewallInfo)
    ensures
        (r.active, r.description@) == detect_spec(*probe),
{
    match probe {
        FirewallProbe::Linux { ufw, firewalld, nft } => detect_linux(ufw, firewalld, nft),
        FirewallProbe::Macos { socketfilterfw, pfctl } => detect_macos(socketfilterfw, pfctl),
        FirewallProbe::Windows { rule_present } => detect_windows(*rule_present),
        FirewallProbe::Other => FirewallInfo::default(),
    }
}

/// The hint added to a failed transfer's message: only for a network-level
/// failure while a restrictive firewall is active.
pub open spec fn transfer_block_hint_spec(is_network_error: bool, active: bool, description: Seq<
    char,
>) -> Option<Seq<char>> {
    if is_network_error && active {
        Some("Possible firewall block: "@ + description + " - transfer may be blocked"@)
    } else {
        None
    }
}

/// The hint to append to a failed transfer's message, given the firewall
/// state `info` (which the caller need only probe for a network error).
pub fn transfer_block_hint(is_network_error: bool, info: &FirewallInfo) -> (r: Option<String>)
    ensures
        match r {
            Some(h) => transfer_block_hint_spec(is_network_error, info.active, info.description@)
                == Some(h@),
            None => transfer_block_hint_spec(is_network_error, info.active, info.description@)
                is None,
        },
{
    if !is_network_error {
        return None;
    }
    if info.active {
        Some(
            concat3(
                "Possible firewall block: ",
                info.description.as_str(),
                " - transfer may be blocked",
            ),
        )
    } else {
        None
    }
}

/// The name of the client's Windows firewall rule.
pub open spec fn rule_name() -> Seq<char> {
    "Juicebox Plus"@
}

/// The `netsh` arguments that add the client's outbound rule for `exe`.
pub open spec fn netsh_add_args_spec(exe: Seq<char>) -> Seq<char> {
    "advfirewall firewall add rule name=\"Juicebox Plus\" dir=out program=\""@ + exe
        + "\" action=allow profile=any"@
}

/// Builds the `netsh` command line that adds the outbound allow rule for the
/// program `exe` (TCP and UDP, every profile).
pub fn netsh_add_args(exe: &str) -> (r: String)
    ensures
        r@ == netsh_add_args_spec(exe@),
{
    concat3(
        "advfirewall firewall add rule name=\"Juicebox Plus\" dir=out program=\"",
        exe,
        "\" action=allow profile=any",
    )
}

/// Whether `netsh advfirewall firewall show rule` output lists the rule.
pub fn rule_listed(output: &str) -> (r: bool)
    ensures
        r == (contains_seq(output@, rule_name()) && !contains_seq(output@, "No rules match"@)),
{
    contains_str(output, "Juicebox Plus") && !contains_str(output, "No rules match")
}

/// How an attempt to add the Windows firewall rule ended.
#[derive(Debug)]
pub enum AddOutcome {
    AlreadyPresent,
    Added,
    Failed(String),
}

/// The outcome of the elevated `netsh` launch: `ShellExecuteW` reports
/// success with a value above 32.
pub fn shell_execute_outcome(code: i64) -> (r: AddOutcome)
    ensures
        code > 32 ==> r is Added,
        code <= 32 ==> (r matches AddOutcome::Failed(m) && m@ == "ShellExecuteW returned "@
            + signed_decimal(code as int)),
{
    if code > 32 {
        AddOutcome::Added
    } else {
        let d = i64_to_decimal(code);
        AddOutcome::Failed(concat2("ShellExecuteW returned ", d.as_str()))
    }
}

/// The outcome when the client's own program path cannot be found.
pub fn exe_path_failure(err: &str) -> (r: AddOutcome)
    ensures
        r matches AddOutcome::Failed(m) && m@ == "cannot resolve exe path: "@ + err@,
{
    AddOutcome::Failed(concat2("cannot resolve exe path: ", err))
}

/// The severity of a log record.
#[derive(Debug)]
pub enum LogLevel {
    Debug,
    Info,
    Warn,
}

/// The log record written for the outcome of adding the rule at startup.
pub fn ensure_rule(outcome: &AddOutcome) -> (r: (LogLevel, String))
    ensures
        match outcome {
            AddOutcome::AlreadyPresent => r.0 is Debug && r.1@
                == "Windows firewall rule already present"@,
            AddOutcome::Added => r.0 is Info && r.1@ == "Windows firewall rule requested via UAC"@,
            AddOutcome::Failed(e) => r.0 is Warn && r.1@ == "Could not add Windows firewall rule: "@
                + e@,
        },
{
    match outcome {
        AddOutcome::AlreadyPresent => (
            LogLevel::Debug,
            String::from_str("Windows firewall rule already present"),
        ),
        AddOutcome::Added => (LogLevel::Info, String::from_str("Windows firewall rule requested via UAC")),
        AddOutcome::Failed(e) => (
            LogLevel::Warn,
            concat2("Could not add Windows firewall rule: ", e.as_str()),
        ),
    }
}

/// A firewall counts as active exactly when the probe found something that
/// could block transfers; on Linux and macOS the description is empty
/// exactly when nothing was found.
pub proof fn law_active_iff_found(p: FirewallProbe)
    ensures
        p is Linux || p is Macos ==> (detect_spec(p).0 <==> detect_spec(p).1.len() > 0),
{
    reveal_strlit("ufw active");
    reveal_strlit("firewalld running");
    reveal_strlit("nftables drop policy");
    reveal_strlit("Application Firewall enabled");
    reveal_strlit("pf enabled");
    match p {
        FirewallProbe::Linux { ufw, firewalld, nft } => {
            lemma_join_nonempty(linux_parts(ufw, firewalld, nft), ", "@);
        },
        FirewallProbe::Macos { socketfilterfw, pfctl } => {
            lemma_join_nonempty(macos_parts(socketfilterfw, pfctl), ", "@);
        },
        _ => {},
    }
}

proof fn lemma_join_nonempty(parts: Seq<Seq<char>>, sep: Seq<char>)
    requires
        forall|i: int| 0 <= i < parts.len() ==> (#[trigger] parts[i]).len() > 0,
    ensures
        (join_spec(parts, sep).len() > 0) == (parts.len() > 0),
    decreases parts.len(),
{
    if parts.len() > 1 {
        lemma_join_nonempty(parts.drop_last(), sep);
        assert(parts.last() == parts[parts.len() - 1]);
    }
}

} // verus!

verus! {

/// A transfer-block hint is only given for a network-level failure while a
/// firewall is active.
pub proof fn law_hint_only_for_network_failure_behind_active_firewall(
    is_network_error: bool,
    active: bool,
    description: Seq<char>,
)
    ensures
        transfer_block_hint_spec(is_network_error, active, description) is Some <==> (
        is_network_error && active),
{
}

} // verus!

verus! {

/// On Windows the firewall counts as active exactly when the client's
/// outbound rule is missing; the description says which. On a platform
/// without a probe nothing is reported.
pub proof fn law_windows_active_iff_rule_missing(rule_present: bool)
    ensures
        detect_spec(FirewallProbe::Windows { rule_present }).0 == !rule_present,
        rule_present ==> detect_spec(FirewallProbe::Windows { rule_present }).1
            == "Windows Firewall rule present"@,
        !rule_present ==> detect_spec(FirewallProbe::Windows { rule_present }).1
            == "Windows Firewall: no juicebox-plus rule"@,
        detect_spec(FirewallProbe::Other) == (false, Seq::<char>::empty()),
{
}

/// On Linux each tool adds its finding exactly when it shows an active
/// firewall: ufw printing "Status: active", firewalld's state being
/// "running", nftables holding a drop policy; the description lists the
/// findings in that order, separated by ", ".
pub proof fn law_linux_findings(ufw: Option<String>, firewalld: Option<String>, nft: Option<String>)
    ensures
        ({
            let parts = linux_parts(ufw, firewalld, nft);
            let expected = (if ufw is Some && contains_seq(ufw->Some_0@, "Status: active"@) {
                seq!["ufw active"@]
            } else {
                Seq::<Seq<char>>::empty()
            }) + (if firewalld is Some && trim_spec(lowercase(firewalld->Some_0@)) == "running"@ {
                seq!["firewalld running"@]
            } else {
                Seq::<Seq<char>>::empty()
            }) + (if nft is Some && contains_seq(nft->Some_0@, "policy drop"@) {
                seq!["nftables drop policy"@]
            } else {
                Seq::<Seq<char>>::empty()
            });
            &&& parts == expected
            &&& detect_spec(FirewallProbe::Linux { ufw, firewalld, nft }) == (expected.len() > 0,
                join_spec(expected, ", "@))
        }),
{
}

} // verus!
