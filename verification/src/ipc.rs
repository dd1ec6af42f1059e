//! The upload protocol's decisions: the job handed to the daemon, the
//! URLs and request bodies of the direct upload, and how each reply is read.

use vstd::prelude::*;
use crate::config::{Config, ConfigView, opt_view};
use crate::http::{reason_phrase, status_text, status_text_spec};
use crate::json::{json_quote, json_string};
use crate::text::{
    concat2, concat3, contains_seq, occurs_at, decimal, hex, hex_padded, lowercase, owned, str_eq,
    to_lowercase, trim_end_char, trim_end_char_spec, u64_to_decimal, zero_pad,
};

verus! {

/// Why talking to the daemon or the servers failed.
#[derive(Debug)]
pub enum IpcError {
    ConnectionFailed(String),
    ConnectionClosed,
    ProtocolError(String),
}

/// The mathematical content of an [`IpcError`].
pub enum IpcErrorView {
    ConnectionFailed(Seq<char>),
    ConnectionClosed,
    ProtocolError(Seq<char>),
}

impl View for IpcError {
    type V = IpcErrorView;

    open spec fn view(&self) -> IpcErrorView {
        match self {
            IpcError::ConnectionFailed(m) => IpcErrorView::ConnectionFailed(m@),
            IpcError::ConnectionClosed => IpcErrorView::ConnectionClosed,
            IpcError::ProtocolError(m) => IpcErrorView::ProtocolError(m@),
        }
    }
}

/// How an error is written for the user.
pub open spec fn ipc_error_text(e: IpcErrorView) -> Seq<char> {
    match e {
        IpcErrorView::ConnectionFailed(m) => "Connection failed: "@ + m,
        IpcErrorView::ConnectionClosed => "Connection closed"@,
        IpcErrorView::ProtocolError(m) => "Protocol error: "@ + m,
    }
}

impl IpcError {
    /// The error's text, as shown to the user.
    pub fn message(&self) -> (r: String)
        ensures
            r@ == ipc_error_text(self@),
    {
        match self {
            IpcError::ConnectionFailed(m) => concat2("Connection failed: ", m.as_str()),
            IpcError::ConnectionClosed => String::from_str("Connection closed"),
            IpcError::ProtocolError(m) => concat2("Protocol error: ", m.as_str()),
        }
    }
}

/// The MIME type of a (lower-case) file extension, as the client labels
/// uploads; anything unknown is `application/octet-stream`.
pub open spec fn mime_spec(ext: Seq<char>) -> Seq<char> {
    if ext == "png"@ {
        "image/png"@
    } else if ext == "jpg"@ || ext == "jpeg"@ {
        "image/jpeg"@
    } else if ext == "gif"@ {
        "image/gif"@
    } else if ext == "webp"@ {
        "image/webp"@
    } else if ext == "svg"@ {
        "image/svg+xml"@
    } else if ext == "mp4"@ {
        "video/mp4"@
    } else if ext == "mp3"@ {
        "audio/mpeg"@
    } else if ext == "pdf"@ {
        "application/pdf"@
    } else if ext == "zip"@ {
        "application/zip"@
    } else if ext == "tar"@ {
        "application/x-tar"@
    } else if ext == "gz"@ || ext == "gzip"@ {
        "application/gzip"@
    } else if ext == "json"@ {
        "application/json"@
    } else if ext == "txt"@ || ext == "text"@ {
        "text/plain"@
    } else if ext == "html"@ || ext == "htm"@ {
        "text/html"@
    } else if ext == "css"@ {
        "text/css"@
    } else if ext == "js"@ {
        "application/javascript"@
    } else if ext == "wasm"@ {
        "application/wasm"@
    } else if ext == "iso"@ {
        "application/x-iso9660-image"@
    } else {
        "application/octet-stream"@
    }
}

/// The MIME type for a lower-case extension.
pub fn mime_for_extension(ext: &str) -> (r: String)
    ensures
        r@ == mime_spec(ext@),
{
    let s = if str_eq(ext, "png") {
        "image/png"
    } else if str_eq(ext, "jpg") || str_eq(ext, "jpeg") {
        "image/jpeg"
    } else if str_eq(ext, "gif") {
        "image/gif"
    } else if str_eq(ext, "webp") {
        "image/webp"
    } else if str_eq(ext, "svg") {
        "image/svg+xml"
    } else if str_eq(ext, "mp4") {
        "video/mp4"
    } else if str_eq(ext, "mp3") {
        "audio/mpeg"
    } else if str_eq(ext, "pdf") {
        "application/pdf"
    } else if str_eq(ext, "zip") {
        "application/zip"
    } else if str_eq(ext, "tar") {
        "application/x-tar"
    } else if str_eq(ext, "gz") || str_eq(ext, "gzip") {
        "application/gzip"
    } else if str_eq(ext, "json") {
        "application/json"
    } else if str_eq(ext, "txt") || str_eq(ext, "text") {
        "text/plain"
    } else if str_eq(ext, "html") || str_eq(ext, "htm") {
        "text/html"
    } else if str_eq(ext, "css") {
        "text/css"
    } else if str_eq(ext, "js") {
        "application/javascript"
    } else if str_eq(ext, "wasm") {
        "application/wasm"
    } else if str_eq(ext, "iso") {
        "application/x-iso9660-image"
    } else {
        "application/octet-stream"
    };
    owned(s)
}

/// The last position of `c` in `s`.
pub open spec fn last_index_of(s: Seq<char>, c: char) -> Option<int>
    decreases s.len(),
{
    if s.len() == 0 {
        None
    } else if s.last() == c {
        Some(s.len() - 1)
    } else {
        last_index_of(s.drop_last(), c)
    }
}

/// The part of `p` after its last `/` (all of `p` where it has none).
pub open spec fn last_segment(p: Seq<char>) -> Seq<char> {
    match last_index_of(p, '/') {
        Some(i) => p.subrange(i + 1, p.len() as int),
        None => p,
    }
}

/// A path without `\\`, which only Windows reads as a separator.
pub open spec fn no_backslash(p: Seq<char>) -> bool {
    !p.contains('\\')
}

/// The path begins with two separators (which Windows may read as the
/// prefix of a network share).
pub open spec fn double_separator_start(p: Seq<char>) -> bool {
    p.len() >= 2 && p[0] == '/' && p[1] == '/'
}

/// A path that every platform reads alike at its end: it holds no `\`,
/// does not begin with two separators, and the piece after its last `/` is
/// a plain name (not empty, not `.` or `..`, without `:`).
pub open spec fn plain_path(p: Seq<char>) -> bool {
    let n = last_segment(p);
    &&& no_backslash(p)
    &&& !double_separator_start(p)
    &&& n.len() > 0
    &&& n != "."@
    &&& n != ".."@
    &&& !n.contains(':')
}

/// The extension of a file name: what follows its last `.`, where that
/// `.` is not its first character.
pub open spec fn name_extension(n: Seq<char>) -> Option<Seq<char>> {
    match last_index_of(n, '.') {
        Some(i) => if i == 0 {
            None
        } else {
            Some(n.subrange(i + 1, n.len() as int))
        },
        None => None,
    }
}

/// `Path::new(p).extension()` as text. Path syntax follows the platform the
/// client is built for (`\` and drive prefixes only mean something on
/// Windows), so the result is stated exactly only for a plain path: the
/// part of its final name after the last `.`, as `Path::extension`
/// documents. Of any other path, only what holds on every platform is
/// stated: an extension stands in the path right after a `.` and holds no
/// `.` itself.
#[verifier::external_body]
pub(crate) fn path_extension(p: &str) -> (r: Option<String>)
    ensures
        r matches Some(e) ==> (contains_seq(p@, "."@ + e@) && !e@.contains('.')),
        plain_path(p@) ==> opt_view(r) == name_extension(last_segment(p@)),
{
    std::path::Path::new(p).extension().and_then(|e| e.to_str()).map(|e| e.to_string())
}

/// `Path::new(p).file_name()` as text. For a plain path it is the piece
/// after the last `/`; of any other path only what holds on every platform
/// is stated: a file name is a non-empty piece of the path, without `/`
/// where the path holds no backslash.
#[verifier::external_body]
pub(crate) fn path_file_name(p: &str) -> (r: Option<String>)
    ensures
        r matches Some(n) ==> (n@.len() > 0 && contains_seq(p@, n@) && (no_backslash(p@) ==> !n@.contains('/'))),
        plain_path(p@) ==> opt_view(r) == Some(last_segment(p@)),
{
    std::path::Path::new(p).file_name().and_then(|n| n.to_str()).map(|n| n.to_string())
}

/// An empty extension is not in the table.
proof fn lemma_mime_of_empty()
    ensures
        mime_spec(Seq::empty()) == "application/octet-stream"@,
{
    reveal_strlit("png");
    assert("png"@.len() == 3);
    reveal_strlit("jpg");
    assert("jpg"@.len() == 3);
    reveal_strlit("jpeg");
    assert("jpeg"@.len() == 4);
    reveal_strlit("gif");
    assert("gif"@.len() == 3);
    reveal_strlit("webp");
    assert("webp"@.len() == 4);
    reveal_strlit("svg");
    assert("svg"@.len() == 3);
    reveal_strlit("mp4");
    assert("mp4"@.len() == 3);
    reveal_strlit("mp3");
    assert("mp3"@.len() == 3);
    reveal_strlit("pdf");
    assert("pdf"@.len() == 3);
    reveal_strlit("zip");
    assert("zip"@.len() == 3);
    reveal_strlit("tar");
    assert("tar"@.len() == 3);
    reveal_strlit("gz");
    assert("gz"@.len() == 2);
    reveal_strlit("gzip");
    assert("gzip"@.len() == 4);
    reveal_strlit("json");
    assert("json"@.len() == 4);
    reveal_strlit("txt");
    assert("txt"@.len() == 3);
    reveal_strlit("text");
    assert("text"@.len() == 4);
    reveal_strlit("html");
    assert("html"@.len() == 4);
    reveal_strlit("htm");
    assert("htm"@.len() == 3);
    reveal_strlit("css");
    assert("css"@.len() == 3);
    reveal_strlit("js");
    assert("js"@.len() == 2);
    reveal_strlit("wasm");
    assert("wasm"@.len() == 4);
    reveal_strlit("iso");
    assert("iso"@.len() == 3);
}

/// The MIME type the client sends for a file, from its extension in lower
/// case. A name without an extension is sent as `application/octet-stream`.
pub fn guess_mime(filename: &str) -> (r: String)
    ensures
        plain_path(filename@) ==> r@ == match name_extension(last_segment(filename@)) {
            Some(e) => mime_spec(lowercase(e)),
            None => "application/octet-stream"@,
        },
        exists|e: Seq<char>| r@ == mime_spec(e),
        !contains_seq(filename@, "."@) ==> r@ == "application/octet-stream"@,
{
    match path_extension(filename) {
        Some(e) => {
            let l = to_lowercase(e.as_str());
            let m = mime_for_extension(l.as_str());
            proof {
                reveal_strlit(".");
                let i = choose|i: int| occurs_at(filename@, "."@ + e@, i);
                let w = "."@ + e@;
                assert(filename@.subrange(i, i + w.len()) == w);
                assert(filename@.subrange(i, i + 1) =~= filename@.subrange(i, i + w.len()).subrange(
                    0,
                    1,
                ));
                assert(w.subrange(0, 1) =~= "."@);
                assert(occurs_at(filename@, "."@, i));
            }
            m
        },
        None => {
            proof {
                lemma_mime_of_empty();
            }
            String::from_str("application/octet-stream")
        },
    }
}

/// The file name of a path, or `default` where it has none.
pub fn file_name_or(path: &str, default: &str) -> (r: String)
    ensures
        plain_path(path@) ==> r@ == last_segment(path@),
        r@ == default@ || (r@.len() > 0 && contains_seq(path@, r@)),
{
    match path_file_name(path) {
        Some(n) => n,
        None => owned(default),
    }
}

/// The HELLO nonce: the current time in nanoseconds (`nanos`), in
/// lower-case hex.
pub fn generate_nonce(nanos: u128) -> (r: String)
    ensures
        r@ == hex(nanos as nat),
{
    hex_padded(nanos, 0)
}

/// A unique-enough id: the seconds (8 hex digits at least), the
/// milliseconds and a random number (4 hex digits at least each), joined by
/// `-`.
pub open spec fn uuid_simple_spec(secs: u64, millis: u32, rand: u16) -> Seq<char> {
    zero_pad(hex(secs as nat), 8) + "-"@ + zero_pad(hex(millis as nat), 4) + "-"@ + zero_pad(
        hex(rand as nat),
        4,
    )
}

/// Builds the id from the time since the epoch (`secs`, and `millis` within
/// the second) and a random number.
pub fn uuid_simple(secs: u64, millis: u32, rand: u16) -> (r: String)
    ensures
        r@ == uuid_simple_spec(secs, millis, rand),
{
    let a = hex_padded(secs as u128, 8);
    let b = hex_padded(millis as u128, 4);
    let c = hex_padded(rand as u128, 4);
    let mut r = concat3(a.as_str(), "-", b.as_str());
    r.append("-");
    r.append(c.as_str());
    r
}

/// A job id: `jp_` and the id.
pub fn job_id(secs: u64, millis: u32, rand: u16) -> (r: String)
    ensures
        r@ == "jp_"@ + uuid_simple_spec(secs, millis, rand),
{
    let u = uuid_simple(secs, millis, rand);
    concat2("jp_", u.as_str())
}

/// The random part of an id: the low 16 bits of a randomly seeded hash.
pub fn rand_u16(hash: u64) -> (r: u16)
    ensures
        r == hash % 65536,
{
    (hash % 65536) as u16
}

/// The upload job handed to the daemon.
#[derive(Debug)]
pub struct JobSpec {
    pub job_id: String,
    pub file_path: String,
    pub file_size_bytes: u64,
    pub chunk_size_bytes_hint: u64,
    pub candidate_endpoints: Vec<String>,
    pub auth_bearer: String,
    pub fec_mode: String,
    pub compression_policy: String,
}

/// The forward error correction mode named to the daemon.
pub open spec fn fec_mode_spec(fec_enabled: bool) -> Seq<char> {
    if fec_enabled {
        "adaptive"@
    } else {
        "disabled"@
    }
}

/// The job for uploading `file_path` (of `file_size` bytes) under the
/// settings `config`, authenticated with `token`.
pub fn job_payload(config: &Config, job_id: String, file_path: &str, file_size: u64, token: String) -> (r: JobSpec)
    ensures
        r.job_id@ == job_id@,
        r.file_path@ == file_path@,
        r.file_size_bytes == file_size,
        r.chunk_size_bytes_hint == config.chunk_size_bytes,
        r.candidate_endpoints@.len() == 1,
        r.candidate_endpoints@[0]@ == config.juicebox_instance@,
        r.auth_bearer@ == token@,
        r.fec_mode@ == fec_mode_spec(config.fec_enabled),
        r.compression_policy@ == config.compression_mode@,
{
    let mut endpoints: Vec<String> = Vec::new();
    endpoints.push(config.juicebox_instance.clone());
    JobSpec {
        job_id,
        file_path: owned(file_path),
        file_size_bytes: file_size,
        chunk_size_bytes_hint: config.chunk_size_bytes,
        candidate_endpoints: endpoints,
        auth_bearer: token,
        fec_mode: if config.fec_enabled {
            String::from_str("adaptive")
        } else {
            String::from_str("disabled")
        },
        compression_policy: config.compression_mode.clone(),
    }
}

/// The daemon has reported the whole file sent.
pub fn upload_finished(bytes_completed: u64, total_bytes: u64) -> (r: bool)
    ensures
        r == (bytes_completed >= total_bytes && total_bytes > 0),
{
    bytes_completed >= total_bytes && total_bytes > 0
}

/// Whole mebibytes in `bytes`, as the messages show sizes.
pub open spec fn mib(bytes: u64) -> nat {
    (bytes / 1048576) as nat
}

/// "Upload complete: <name> (<MiB> MB)".
pub open spec fn upload_complete_spec(name: Seq<char>, total: u64) -> Seq<char> {
    "Upload complete: "@ + name + " ("@ + decimal(mib(total)) + " MB)"@
}

/// The completion note shown on the progress notification.
pub fn upload_complete_note(name: &str, total: u64) -> (r: String)
    ensures
        r@ == upload_complete_spec(name@, total),
{
    let mut r = concat3("Upload complete: ", name, " (");
    let d = u64_to_decimal(total / 1048576);
    r.append(d.as_str());
    r.append(" MB)");
    r
}

/// `base` without trailing slashes, followed by `path`.
pub open spec fn endpoint_spec(base: Seq<char>, path: Seq<char>) -> Seq<char> {
    trim_end_char_spec(base, '/') + path
}

/// Joins a base URL (trailing slashes dropped) and a path.
pub fn endpoint(base: &str, path: &str) -> (r: String)
    ensures
        r@ == endpoint_spec(base@, path@),
{
    let b = trim_end_char(base, '/');
    concat2(b.as_str(), path)
}

/// What the reserve reply named: where and with what ticket to upload.
#[derive(Debug)]
pub struct Reservation {
    pub ticket: String,
    pub file_id: String,
    pub juicehost_url: String,
    pub download_url: String,
}

/// Reads the reserve reply's fields (each present when the reply holds it
/// as a string): the ticket and file id are required; the juicehost URL and
/// download URL default to empty.
pub fn reservation(
    ticket: Option<String>,
    file_id: Option<String>,
    juicehost_url: Option<String>,
    url: Option<String>,
) -> (r: Result<Reservation, IpcError>)
    ensures
        ticket is None ==> (r matches Err(e) && e@ == IpcErrorView::ProtocolError(
            "Missing ticket in reserve response"@,
        )),
        ticket is Some && file_id is None ==> (r matches Err(e) && e@
            == IpcErrorView::ProtocolError("Missing file_id in reserve response"@)),
        ticket is Some && file_id is Some ==> (r matches Ok(v) && v.ticket@ == ticket->Some_0@
            && v.file_id@ == file_id->Some_0@ && v.juicehost_url@ == match opt_view(juicehost_url) {
            Some(u) => u,
            None => Seq::empty(),
        } && v.download_url@ == match opt_view(url) {
            Some(u) => u,
            None => Seq::empty(),
        }),
{
    let ticket = match ticket {
        Some(t) => t,
        None => {
            return Err(IpcError::ProtocolError(String::from_str("Missing ticket in reserve response")));
        },
    };
    let file_id = match file_id {
        Some(f) => f,
        None => {
            return Err(
                IpcError::ProtocolError(String::from_str("Missing file_id in reserve response")),
            );
        },
    };
    Ok(
        Reservation {
            ticket,
            file_id,
            juicehost_url: match juicehost_url {
                Some(u) => u,
                None => String::new(),
            },
            download_url: match url {
                Some(u) => u,
                None => String::new(),
            },
        },
    )
}

/// The size check against juicehost's limit: a file larger than the limit
/// is refused before it is sent.
pub open spec fn too_large(total: u64, max_size: Option<u64>) -> bool {
    max_size matches Some(m) && total > m
}

/// The progress note for a refused size.
pub open spec fn too_large_note_spec(total: u64, max: u64) -> Seq<char> {
    "File too large: "@ + decimal(mib(total)) + " MB exceeds server limit of "@ + decimal(mib(max))
        + " MB"@
}

/// The error for a refused size; the daemon-less upload adds a hint for
/// the juicehost operator.
pub open spec fn too_large_error_spec(total: u64, max: u64, hint: bool) -> Seq<char> {
    "File too large ("@ + decimal(mib(total)) + " MB). Server limit is "@ + decimal(mib(max))
        + " MB."@ + if hint {
        " Increase MAX_FILE_SIZE_MB on your juicehost instance."@
    } else {
        Seq::empty()
    }
}

/// Checks the file size against juicehost's advertised limit (`None` when
/// it advertised none). On a refusal, the note for the progress
/// notification and the error to return; `hint` adds the operator hint.
pub fn preflight(total: u64, max_size: Option<u64>, hint: bool) -> (r: Option<(String, IpcError)>)
    ensures
        r is Some == too_large(total, max_size),
        r matches Some(p) ==> (p.0@ == too_large_note_spec(total, max_size->Some_0) && p.1@
            == IpcErrorView::ConnectionFailed(too_large_error_spec(total, max_size->Some_0, hint))),
{
    match max_size {
        Some(max) => {
            if total > max {
                let file_mb = u64_to_decimal(total / 1048576);
                let max_mb = u64_to_decimal(max / 1048576);
                let mut note = concat3("File too large: ", file_mb.as_str(), " MB exceeds server limit of ");
                note.append(max_mb.as_str());
                note.append(" MB");
                let mut err = concat3("File too large (", file_mb.as_str(), " MB). Server limit is ");
                err.append(max_mb.as_str());
                err.append(" MB.");
                if hint {
                    err.append(" Increase MAX_FILE_SIZE_MB on your juicehost instance.");
                }
                Some((note, IpcError::ConnectionFailed(err)))
            } else {
                None
            }
        },
        None => None,
    }
}

/// The note shown when juicehost refuses the upload with `status`: a 413
/// on the direct upload names the limit; anything else names the status.
pub open spec fn upload_failure_note_spec(status: u16, total: u64, hint: bool) -> Seq<char> {
    if hint && status == 413 {
        "File too large ("@ + decimal(mib(total))
            + " MB). Increase MAX_FILE_SIZE_MB on your juicehost instance."@
    } else {
        "Upload failed: HTTP "@ + status_text_spec(status)
    }
}

/// Reads juicehost's refusal of the upload (`status`, with the reply's
/// text `body`): the note for the progress notification, and the error.
pub fn upload_failure(status: u16, body: &str, total: u64, hint: bool) -> (r: (String, IpcError))
    requires
        100 <= status <= 999,
    ensures
        r.0@ == upload_failure_note_spec(status, total, hint),
        r.1@ == IpcErrorView::ConnectionFailed(
            upload_failure_note_spec(status, total, hint) + " Server response: "@ + body@,
        ),
{
    let note = if hint && status == 413 {
        let mb = u64_to_decimal(total / 1048576);
        concat3(
            "File too large (",
            mb.as_str(),
            " MB). Increase MAX_FILE_SIZE_MB on your juicehost instance.",
        )
    } else {
        let t = status_text(status);
        concat2("Upload failed: HTTP ", t.as_str())
    };
    let err = concat3(note.as_str(), " Server response: ", body);
    (note, IpcError::ConnectionFailed(err))
}

/// The error when an upload from the app is asked for without a device
/// token.
pub fn not_paired() -> (r: IpcError)
    ensures
        r@ == IpcErrorView::ConnectionFailed("Not paired"@),
{
    IpcError::ConnectionFailed(String::from_str("Not paired"))
}

/// The error when juicebox refuses to reserve an upload slot, with the
/// reply's text `body`.
pub fn reserve_refused(body: &str) -> (r: IpcError)
    ensures
        r@ == IpcErrorView::ConnectionFailed("Reserve failed: "@ + body@),
{
    IpcError::ConnectionFailed(concat2("Reserve failed: ", body))
}

/// The error when juicebox refuses to mark the upload complete.
pub fn complete_refused(status: u16, body: &str) -> (r: IpcError)
    requires
        100 <= status <= 999,
    ensures
        r@ == IpcErrorView::ConnectionFailed(
            "Upload succeeded but juiceback refused to mark it complete (HTTP "@
                + status_text_spec(status) + "): "@ + body@,
        ),
{
    let t = status_text(status);
    let mut m = concat3(
        "Upload succeeded but juiceback refused to mark it complete (HTTP ",
        t.as_str(),
        "): ",
    );
    m.append(body);
    IpcError::ConnectionFailed(m)
}

/// The JSON body that marks an upload complete (keys in `serde_json`'s
/// default, sorted order).
pub open spec fn complete_body_spec(
    file_id: Seq<char>,
    filename: Seq<char>,
    mime_type: Seq<char>,
    file_size: u64,
    ticket: Seq<char>,
) -> Seq<char> {
    "{\"file_id\":"@ + json_string(file_id) + ",\"file_size\":"@ + decimal(file_size as nat)
        + ",\"filename\":"@ + json_string(filename) + ",\"mime_type\":"@ + json_string(mime_type)
        + ",\"ticket\":"@ + json_string(ticket) + "}"@
}

/// Builds the body that marks an upload complete on juicebox.
pub fn complete_body(file_id: &str, filename: &str, mime_type: &str, file_size: u64, ticket: &str) -> (r: String)
    ensures
        r@ == complete_body_spec(file_id@, filename@, mime_type@, file_size, ticket@),
{
    let a = json_quote(file_id);
    let b = u64_to_decimal(file_size);
    let c = json_quote(filename);
    let d = json_quote(mime_type);
    let e = json_quote(ticket);
    let mut r = concat3("{\"file_id\":", a.as_str(), ",\"file_size\":");
    r.append(b.as_str());
    r.append(",\"filename\":");
    r.append(c.as_str());
    r.append(",\"mime_type\":");
    r.append(d.as_str());
    r.append(",\"ticket\":");
    r.append(e.as_str());
    r.append("}");
    r
}

/// The link to hand out: the one the completion reply names, else
/// `fallback`.
pub fn final_url(reply_url: Option<String>, fallback: &str) -> (r: String)
    ensures
        r@ == match opt_view(reply_url) {
            Some(u) => u,
            None => fallback@,
        },
{
    match reply_url {
        Some(u) => u,
        None => owned(fallback),
    }
}

/// The notification after the file picker's uploads all succeeded.
pub fn uploads_done_message(count: usize) -> (r: String)
    ensures
        r@ == (if count == 1 {
            "Upload complete!\nLink copied to clipboard"@
        } else {
            decimal(count as nat) + " files uploaded!\nLinks copied to clipboard"@
        }),
{
    if count == 1 {
        String::from_str("Upload complete!\nLink copied to clipboard")
    } else {
        let d = u64_to_decimal(count as u64);
        concat2(d.as_str(), " files uploaded!\nLinks copied to clipboard")
    }
}

} // verus!

verus! {

/// The daemon's WebSocket URL: `ws://` (or `wss://` with TLS) and the
/// address, `127.0.0.1:22100` when none is given.
pub fn daemon_ws_url(addr: Option<&str>, use_tls: bool) -> (r: String)
    ensures
        r@ == (if use_tls {
            "wss"@
        } else {
            "ws"@
        }) + "://"@ + match addr {
            Some(a) => a@,
            None => "127.0.0.1:22100"@,
        },
{
    let a = match addr {
        Some(a) => a,
        None => "127.0.0.1:22100",
    };
    let scheme = if use_tls {
        "wss"
    } else {
        "ws"
    };
    concat3(scheme, "://", a)
}

/// A frame received from the daemon.
pub enum Frame {
    Text(String),
    Close,
    Other,
    /// The stream ended.
    End,
}

/// The text of a received frame: closing and the end of the stream mean
/// the connection closed; a frame other than text is a protocol error.
pub fn frame_text(f: Frame) -> (r: Result<String, IpcError>)
    ensures
        match f {
            Frame::Text(t) => r matches Ok(x) && x@ == t@,
            Frame::Close => r matches Err(e) && e@ is ConnectionClosed,
            Frame::End => r matches Err(e) && e@ is ConnectionClosed,
            Frame::Other => r matches Err(e) && e@ == IpcErrorView::ProtocolError(
                "Unexpected message type"@,
            ),
        },
{
    match f {
        Frame::Text(t) => Ok(t),
        Frame::Close => Err(IpcError::ConnectionClosed),
        Frame::End => Err(IpcError::ConnectionClosed),
        Frame::Other => Err(IpcError::ProtocolError(String::from_str("Unexpected message type"))),
    }
}

/// The note that ends the progress notification when telemetry fails: a
/// closed connection interrupts the upload; another error fails it.
pub fn telemetry_error_note(e: &IpcError) -> (r: String)
    ensures
        r@ == match e@ {
            IpcErrorView::ConnectionClosed => "Upload interrupted - connection lost"@,
            v => "Upload failed: "@ + ipc_error_text(v),
        },
{
    match e {
        IpcError::ConnectionClosed => String::from_str("Upload interrupted - connection lost"),
        _ => {
            let m = e.message();
            concat2("Upload failed: ", m.as_str())
        },
    }
}

} // verus!

verus! {

/// A refused direct upload is reported by its status: "Upload failed: HTTP "
/// then the status as written (code and reason phrase), for every status
/// except a 413 on the direct upload, which alone gives the file-too-large
/// note naming the file's size in MB.
pub proof fn law_upload_failure_names_status(status: u16, total: u64, hint: bool)
    ensures
        !(hint && status == 413) ==> upload_failure_note_spec(status, total, hint)
            == "Upload failed: HTTP "@ + decimal(status as nat) + " "@ + match reason_phrase(
            status,
        ) {
            Some(p) => p,
            None => "<unknown status code>"@,
        },
        hint && status == 413 ==> upload_failure_note_spec(status, total, hint) == "File too large ("@
            + decimal((total / 1048576) as nat)
            + " MB). Increase MAX_FILE_SIZE_MB on your juicehost instance."@,
{
    assert(("Upload failed: HTTP "@ + decimal(status as nat) + " "@) + match reason_phrase(status) {
        Some(p) => p,
        None => "<unknown status code>"@,
    } =~= "Upload failed: HTTP "@ + (decimal(status as nat) + " "@ + match reason_phrase(status) {
        Some(p) => p,
        None => "<unknown status code>"@,
    }));
}

} // verus!

verus! {

/// A file is refused before sending exactly when juicehost advertised a
/// limit and the file is larger; the note and the error name both sizes in
/// whole MB, and only the daemon-less upload adds the operator hint.
pub proof fn law_preflight_refuses_only_over_limit(total: u64, max_size: Option<u64>, hint: bool)
    ensures
        too_large(total, max_size) <==> (max_size is Some && total > max_size->Some_0),
        max_size matches Some(m) ==> too_large_note_spec(total, m) == "File too large: "@ + decimal(
            (total / 1048576) as nat,
        ) + " MB exceeds server limit of "@ + decimal((m / 1048576) as nat) + " MB"@,
        max_size matches Some(m) ==> too_large_error_spec(total, m, hint) == "File too large ("@
            + decimal((total / 1048576) as nat) + " MB). Server limit is "@ + decimal(
            (m / 1048576) as nat,
        ) + " MB."@ + if hint {
            " Increase MAX_FILE_SIZE_MB on your juicehost instance."@
        } else {
            Seq::<char>::empty()
        },
{
}

/// The daemon is asked for adaptive forward error correction exactly when
/// it is enabled in the settings.
pub proof fn law_fec_mode_follows_setting(fec_enabled: bool)
    ensures
        fec_mode_spec(fec_enabled) == if fec_enabled {
            "adaptive"@
        } else {
            "disabled"@
        },
{
}

/// The upload is finished exactly when the daemon reports at least the
/// whole (known, non-zero) size sent, and the completion note names the file
/// and its size in whole MB.
pub proof fn law_completion(name: Seq<char>, total: u64)
    ensures
        upload_complete_spec(name, total) == "Upload complete: "@ + name + " ("@ + decimal(
            (total / 1048576) as nat,
        ) + " MB)"@,
{
}

} // verus!
