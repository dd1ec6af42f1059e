//! Device pairing: the code's format, the request and the reading of the
//! server's answer, and the reading of the desktop notification's signals.

use vstd::prelude::*;
use crate::config::{Config, ConfigView, opt_view};
use crate::http::{is_success, status_text, status_text_spec};
use crate::json::{json_quote, json_string};
use crate::text::{concat2, concat3, owned, push_char, str_eq, trim, trim_spec};

verus! {

/// An ASCII letter or digit.
pub open spec fn is_ascii_alnum(c: char) -> bool {
    let u = c as u32;
    (48 <= u <= 57) || (65 <= u <= 90) || (97 <= u <= 122)
}

/// A pairing code's shape: four ASCII letters or digits, `-`, four more.
pub open spec fn valid_key_spec(k: Seq<char>) -> bool {
    &&& k.len() == 9
    &&& forall|i: int| 0 <= i < 9 && i != 4 ==> is_ascii_alnum(#[trigger] k[i])
    &&& k[4] == '-'
}

fn is_alnum(c: char) -> (r: bool)
    ensures
        r == is_ascii_alnum(c),
{
    let u = c as u32;
    (48 <= u && u <= 57) || (65 <= u && u <= 90) || (97 <= u && u <= 122)
}

/// Whether `key` has the pairing code's shape, `XXXX-XXXX`. (Only ASCII
/// characters qualify, so this agrees with a byte-wise check.)
pub fn is_valid_key_format(key: &str) -> (r: bool)
    ensures
        r == valid_key_spec(key@),
{
    let n = key.unicode_len();
    if n != 9 {
        return false;
    }
    let mut i: usize = 0;
    while i < 9
        invariant
            i <= 9,
            n == 9,
            key@.len() == 9,
            forall|j: int| 0 <= j < i && j != 4 ==> is_ascii_alnum(#[trigger] key@[j]),
        decreases 9 - i,
    {
        let c = key.get_char(i);
        if i == 4 {
            if c != '-' {
                return false;
            }
        } else if !is_alnum(c) {
            return false;
        }
        i = i + 1;
    }
    key.get_char(4) == '-'
}

/// The ASCII upper case of a character (others unchanged).
pub open spec fn ascii_upper(c: char) -> char {
    let u = c as u32;
    if 97 <= u <= 122 {
        ((u - 32) as u8) as char
    } else {
        c
    }
}

/// The characters of `s` in ASCII upper case.
pub open spec fn ascii_upper_seq(s: Seq<char>) -> Seq<char> {
    s.map_values(|c: char| ascii_upper(c))
}

/// The code sent to the server for a typed `key`: `None` when the key does
/// not have the code's shape, otherwise the key in upper case (the key is
/// ASCII, so upper case is ASCII upper case).
pub fn pairing_code(key: &str) -> (r: Option<String>)
    ensures
        match r {
            Some(c) => valid_key_spec(key@) && c@ == ascii_upper_seq(key@),
            None => !valid_key_spec(key@),
        },
{
    if !is_valid_key_format(key) {
        return None;
    }
    let mut r = String::new();
    let mut i: usize = 0;
    while i < 9
        invariant
            i <= 9,
            key@.len() == 9,
            r@ == ascii_upper_seq(key@.subrange(0, i as int)),
        decreases 9 - i,
    {
        let c = key.get_char(i);
        let u = c as u32;
        let d = if 97 <= u && u <= 122 {
            ((u - 32) as u8) as char
        } else {
            c
        };
        push_char(&mut r, d);
        i = i + 1;
        assert(r@ =~= ascii_upper_seq(key@.subrange(0, i as int)));
    }
    assert(key@.subrange(0, 9) =~= key@);
    Some(r)
}

/// The message for a typed key that is not a code.
pub open spec fn invalid_format_msg() -> Seq<char> {
    "Invalid format. Code must be XXXX-XXXX."@
}

/// The JSON body of the pairing request (keys in `serde_json`'s default,
/// sorted order).
pub open spec fn pairing_body_spec(code: Seq<char>, device_name: Seq<char>) -> Seq<char> {
    "{\"code\":"@ + json_string(code) + ",\"device_name\":"@ + json_string(device_name) + "}"@
}

/// Builds the body of the pairing request.
pub fn pairing_body(code: &str, device_name: &str) -> (r: String)
    ensures
        r@ == pairing_body_spec(code@, device_name@),
{
    let a = json_quote(code);
    let b = json_quote(device_name);
    let mut r = concat3("{\"code\":", a.as_str(), ",\"device_name\":");
    r.append(b.as_str());
    r.append("}");
    r
}

/// What the server gave a paired device.
#[derive(Debug)]
pub struct PairingResult {
    pub device_id: String,
    pub token: String,
}

/// How the pairing server's answer reads: the status, and (for a success)
/// the `token` and `device_id` fields of the reply where they are strings.
pub open spec fn pairing_outcome_spec(
    status: u16,
    token: Option<Seq<char>>,
    device_id: Option<Seq<char>>,
) -> Result<(Seq<char>, Seq<char>), Seq<char>> {
    if is_success(status) {
        match token {
            None => Err("Missing token in response"@),
            Some(t) => match device_id {
                None => Err("Missing device_id in response"@),
                Some(d) => Ok((d, t)),
            },
        }
    } else if status == 410 {
        Err("Code expired. Generate a new one."@)
    } else if status == 409 {
        Err("Code already used. Generate a new one."@)
    } else if status == 404 {
        Err("Invalid code. Check and try again."@)
    } else {
        Err("Pairing failed (HTTP "@ + status_text_spec(status) + ")"@)
    }
}

/// Reads the pairing server's answer.
pub fn pairing_outcome(status: u16, token: Option<String>, device_id: Option<String>) -> (r: Result<
    PairingResult,
    String,
>)
    requires
        100 <= status <= 999,
    ensures
        match pairing_outcome_spec(status, opt_view(token), opt_view(device_id)) {
            Ok((d, t)) => r matches Ok(p) && p.device_id@ == d && p.token@ == t,
            Err(m) => r matches Err(e) && e@ == m,
        },
{
    if 200 <= status && status <= 299 {
        let token = match token {
            Some(t) => t,
            None => {
                return Err(String::from_str("Missing token in response"));
            },
        };
        let device_id = match device_id {
            Some(d) => d,
            None => {
                return Err(String::from_str("Missing device_id in response"));
            },
        };
        Ok(PairingResult { device_id, token })
    } else if status == 410 {
        Err(String::from_str("Code expired. Generate a new one."))
    } else if status == 409 {
        Err(String::from_str("Code already used. Generate a new one."))
    } else if status == 404 {
        Err(String::from_str("Invalid code. Check and try again."))
    } else {
        let t = status_text(status);
        Err(concat3("Pairing failed (HTTP ", t.as_str(), ")"))
    }
}

/// Records a successful pairing in the settings.
pub fn mark_paired(config: &mut Config, device_id: String)
    ensures
        final(config)@ == (ConfigView {
            paired: true,
            device_id: Some(device_id@),
            ..old(config)@
        }),
{
    config.paired = true;
    config.device_id = Some(device_id);
}

/// Records that the server no longer knows the device.
pub fn mark_unpaired(config: &mut Config)
    ensures
        final(config)@ == (ConfigView { paired: false, ..old(config)@ }),
{
    config.paired = false;
}

/// A signal from the desktop notification service, with the body the
/// client could read from it.
pub enum NotificationSignal {
    /// `ActionInvoked` carrying `(id, action, reply)`.
    ActionWithReply { id: u32, action: String, reply: String },
    /// `ActionInvoked` carrying `(id, action)`.
    Action { id: u32, action: String },
    /// `NotificationReplied` carrying `(id, reply)`.
    Replied { id: u32, reply: String },
    /// Any other signal, or a body of another shape.
    Other,
}

/// What the pairing prompt does with a signal.
#[derive(Debug)]
pub enum ReplyStep {
    /// Keep waiting.
    Wait,
    /// The user typed this code.
    Reply(String),
    /// The notification was closed: no code.
    Closed,
    /// The user asked for the dialog window instead.
    OpenGui,
}

/// The decision for a signal concerning notification `notif_id`.
pub open spec fn reply_step_ok(s: NotificationSignal, notif_id: u32, r: ReplyStep) -> bool {
    match s {
        NotificationSignal::ActionWithReply { id, action, reply } => if id == notif_id
            && action@ == "inline-reply"@ {
            r matches ReplyStep::Reply(x) && x@ == reply@
        } else if id == notif_id && action@ == "__closed"@ {
            r is Closed
        } else {
            r is Wait
        },
        NotificationSignal::Action { id, action } => if id == notif_id && action@ == "gui"@ {
            r is OpenGui
        } else if id == notif_id && action@ == "__closed"@ {
            r is Closed
        } else {
            r is Wait
        },
        NotificationSignal::Replied { id, reply } => if id == notif_id {
            r matches ReplyStep::Reply(x) && x@ == reply@
        } else {
            r is Wait
        },
        NotificationSignal::Other => r is Wait,
    }
}

/// Reads one signal while waiting for the pairing code.
pub fn reply_step(signal: &NotificationSignal, notif_id: u32) -> (r: ReplyStep)
    ensures
        reply_step_ok(*signal, notif_id, r),
{
    match signal {
        NotificationSignal::ActionWithReply { id, action, reply } => {
            if *id == notif_id && str_eq(action.as_str(), "inline-reply") {
                ReplyStep::Reply(reply.clone())
            } else if *id == notif_id && str_eq(action.as_str(), "__closed") {
                ReplyStep::Closed
            } else {
                ReplyStep::Wait
            }
        },
        NotificationSignal::Action { id, action } => {
            if *id == notif_id && str_eq(action.as_str(), "gui") {
                ReplyStep::OpenGui
            } else if *id == notif_id && str_eq(action.as_str(), "__closed") {
                ReplyStep::Closed
            } else {
                ReplyStep::Wait
            }
        },
        NotificationSignal::Replied { id, reply } => {
            if *id == notif_id {
                ReplyStep::Reply(reply.clone())
            } else {
                ReplyStep::Wait
            }
        },
        NotificationSignal::Other => ReplyStep::Wait,
    }
}

/// A code typed into a prompt, trimmed; `None` when nothing was typed.
pub fn typed_key(text: &str) -> (r: Option<String>)
    ensures
        match r {
            Some(k) => k@ == trim_spec(text@) && k@.len() > 0,
            None => trim_spec(text@).len() == 0,
        },
{
    let t = trim(text);
    if t.as_str().unicode_len() == 0 {
        None
    } else {
        Some(t)
    }
}

/// A valid code is nine characters, and stays a valid code in upper case.
pub proof fn law_code_shape_kept(k: Seq<char>)
    requires
        valid_key_spec(k),
    ensures
        ascii_upper_seq(k).len() == 9,
        valid_key_spec(ascii_upper_seq(k)),
{
    let u = ascii_upper_seq(k);
    assert forall|i: int| 0 <= i < 9 && i != 4 implies is_ascii_alnum(#[trigger] u[i]) by {
        let c = k[i];
        assert(is_ascii_alnum(c));
        if 97 <= (c as u32) <= 122 {
            assert(((((c as u32) - 32) as u8) as char) as u32 == (c as u32) - 32);
        }
    }
}

} // verus!

verus! {

/// Only a 2xx answer with both a token and a device id pairs the device.
pub proof fn law_pairing_needs_success_and_both_fields(
    status: u16,
    token: Option<Seq<char>>,
    device_id: Option<Seq<char>>,
)
    ensures
        pairing_outcome_spec(status, token, device_id) is Ok <==> (is_success(status)
            && token is Some && device_id is Some),
{
}

} // verus!

verus! {

/// The pairing server's refusals are explained by their status: 410 means
/// the code expired, 409 that it was used, 404 that it is unknown; any other
/// non-2xx status is named as written.
pub proof fn law_pairing_refusals(
    status: u16,
    token: Option<Seq<char>>,
    device_id: Option<Seq<char>>,
)
    requires
        !(200 <= status <= 299),
    ensures
        status == 410 ==> pairing_outcome_spec(status, token, device_id) == Err::<
            (Seq<char>, Seq<char>),
            Seq<char>,
        >("Code expired. Generate a new one."@),
        status == 409 ==> pairing_outcome_spec(status, token, device_id) == Err::<
            (Seq<char>, Seq<char>),
            Seq<char>,
        >("Code already used. Generate a new one."@),
        status == 404 ==> pairing_outcome_spec(status, token, device_id) == Err::<
            (Seq<char>, Seq<char>),
            Seq<char>,
        >("Invalid code. Check and try again."@),
        status != 410 && status != 409 && status != 404 ==> pairing_outcome_spec(
            status,
            token,
            device_id,
        ) == Err::<(Seq<char>, Seq<char>), Seq<char>>(
            "Pairing failed (HTTP "@ + status_text_spec(status) + ")"@,
        ),
{
}

/// A successful answer gives the device id and token the server sent.
pub proof fn law_pairing_success_gives_fields(status: u16, token: Seq<char>, device_id: Seq<char>)
    requires
        200 <= status <= 299,
    ensures
        pairing_outcome_spec(status, Some(token), Some(device_id)) == Ok::<
            (Seq<char>, Seq<char>),
            Seq<char>,
        >((device_id, token)),
{
}

/// Signals about another notification are ignored; for the pairing
/// notification, a typed reply is taken as the code, closing gives no code,
/// and the "gui" action asks for the dialog.
pub proof fn law_reply_only_from_own_notification(
    s: NotificationSignal,
    notif_id: u32,
    r: ReplyStep,
)
    requires
        reply_step_ok(s, notif_id, r),
    ensures
        match s {
            NotificationSignal::ActionWithReply { id, .. } => id != notif_id ==> r is Wait,
            NotificationSignal::Action { id, .. } => id != notif_id ==> r is Wait,
            NotificationSignal::Replied { id, .. } => id != notif_id ==> r is Wait,
            NotificationSignal::Other => r is Wait,
        },
        s matches NotificationSignal::Replied { id, reply } ==> (id == notif_id ==> (r is Reply
            && r->Reply_0@ == reply@)),
        s matches NotificationSignal::ActionWithReply { id, action, reply } ==> ((id == notif_id
            && action@ == "inline-reply"@) ==> (r is Reply && r->Reply_0@ == reply@)),
        s matches NotificationSignal::Action { id, action } ==> ((id == notif_id && action@
            == "gui"@) ==> r is OpenGui),
        s matches NotificationSignal::Action { id, action } ==> ((id == notif_id && action@
            == "__closed"@) ==> r is Closed),
{
    reveal_strlit("gui");
    reveal_strlit("__closed");
    assert("gui"@.len() != "__closed"@.len());
}

} // verus!
