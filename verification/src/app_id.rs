//! The Windows application identity under which the client's notifications
//! are shown.

use vstd::prelude::*;

verus! {

/// The registry entries that name the client's notifications.
#[derive(Debug)]
pub struct AumidRegistration {
    /// The application user model id set for the process.
    pub app_id: String,
    /// The key created under the current user's hive.
    pub key_path: String,
    /// The value set under the key.
    pub value_name: String,
    /// The value's data: the display name, NUL-terminated, in UTF-16LE.
    pub value_bytes: Vec<u8>,
}

/// The UTF-16LE bytes of ASCII text: each character's code, then a zero.
pub open spec fn utf16le_ascii(s: Seq<char>) -> Seq<u8> {
    Seq::new(2 * s.len(), |i: int| if i % 2 == 0 {
        (s[i / 2] as u32) as u8
    } else {
        0u8
    })
}

fn encode_utf16le_ascii(s: &str) -> (r: Vec<u8>)
    requires
        forall|i: int| 0 <= i < s@.len() ==> (#[trigger] s@[i] as u32) < 128,
    ensures
        r@ == utf16le_ascii(s@),
{
    let n = s.unicode_len();
    let mut r: Vec<u8> = Vec::new();
    let mut i: usize = 0;
    while i < n
        invariant
            i <= n,
            n == s@.len(),
            forall|k: int| 0 <= k < s@.len() ==> (#[trigger] s@[k] as u32) < 128,
            r@ =~= utf16le_ascii(s@.subrange(0, i as int)),
        decreases n - i,
    {
        let c = s.get_char(i);
        assert((c as u32) < 128);
        r.push((c as u32) as u8);
        r.push(0u8);
        i = i + 1;
        assert(r@ =~= utf16le_ascii(s@.subrange(0, i as int)));
    }
    assert(s@.subrange(0, n as int) =~= s@);
    r
}

/// What to write so that Windows shows the client's notifications as
/// "Juicebox Plus": the id `juicebox-plus`, its registry key, and the
/// `DisplayName` value.
pub fn register_aumid() -> (r: AumidRegistration)
    ensures
        r.app_id@ == "juicebox-plus"@,
        r.key_path@ == "Software\\Classes\\AppUserModelId\\juicebox-plus"@,
        r.value_name@ == "DisplayName"@,
        r.value_bytes@ == utf16le_ascii("Juicebox Plus\0"@),
{
    proof {
        reveal_strlit("Juicebox Plus\0");
    }
    let name = "Juicebox Plus\0";
    assert(forall|i: int| 0 <= i < name@.len() ==> (#[trigger] name@[i] as u32) < 128);
    AumidRegistration {
        app_id: String::from_str("juicebox-plus"),
        key_path: String::from_str("Software\\Classes\\AppUserModelId\\juicebox-plus"),
        value_name: String::from_str("DisplayName"),
        value_bytes: encode_utf16le_ascii(name),
    }
}

} // verus!
