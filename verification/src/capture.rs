//! Audio capture: which sources a request starts, how many audio frames may
//! wait for the speech worker, and how a frame's samples are carried.
use vstd::prelude::*;
use base64::Engine;
use crate::text::{str_equal, owned};

verus! {

/// The sources a capture request starts.
pub struct CapturePlan {
    pub microphone: bool,
    pub system: bool,
}

pub open spec fn capture_sources(source: Seq<char>) -> (bool, bool) {
    (source == "microphone"@ || source == "both"@, source == "system"@ || source == "both"@)
}

pub open spec fn already_recording_message() -> Seq<char> {
    "Đang ghi âm"@
}

pub open spec fn invalid_source_message() -> Seq<char> {
    "Nguồn âm thanh không hợp lệ"@
}

/// "microphone", "system" or "both"; refused while a capture runs or for any
/// other source name.
pub fn capture_plan(capturing: bool, source: &str) -> (r: Result<CapturePlan, String>)
    ensures
        capturing ==> (r matches Err(e) && e@ == already_recording_message()),
        !capturing && !capture_sources(source@).0 && !capture_sources(source@).1 ==> (r matches Err(e) && e@ == invalid_source_message()),
        !capturing && (capture_sources(source@).0 || capture_sources(source@).1) ==> (r matches Ok(p) && p.microphone == capture_sources(source@).0 && p.system == capture_sources(source@).1),
{
    if capturing {
        return Err(owned("Đang ghi âm"));
    }
    let both = str_equal(source, "both");
    let microphone = both || str_equal(source, "microphone");
    let system = both || str_equal(source, "system");
    if !microphone && !system {
        return Err(owned("Nguồn âm thanh không hợp lệ"));
    }
    Ok(CapturePlan { microphone, system })
}

/// At most this many audio frames wait for the worker; the channel from the
/// capture callbacks holds as many.
pub fn audio_backlog_limit() -> (r: usize)
    ensures
        r == 25,
{
    25
}

/// A frame is forwarded when fewer than the limit are waiting; otherwise it
/// is dropped.
pub fn audio_frame_admitted(waiting: usize) -> (r: bool)
    ensures
        r == (waiting < 25),
{
    waiting < audio_backlog_limit()
}

/// The character of a six-bit value in the standard base64 alphabet
/// (RFC 4648): 'A'..'Z', 'a'..'z', '0'..'9', '+', '/'.
pub open spec fn base64_digit(v: int) -> char {
    if v < 26 {
        (65 + v) as char
    } else if v < 52 {
        (97 + v - 26) as char
    } else if v < 62 {
        (48 + v - 52) as char
    } else if v == 62 {
        '+'
    } else {
        '/'
    }
}

/// Standard base64 with padding: each group of three bytes becomes four
/// characters; a last group of one or two bytes is padded with '='.
pub open spec fn base64_standard(b: Seq<u8>) -> Seq<char>
    decreases b.len(),
{
    if b.len() == 0 {
        Seq::empty()
    } else if b.len() == 1 {
        seq![base64_digit((b[0] as int) / 4), base64_digit(((b[0] as int) % 4) * 16), '=', '=']
    } else if b.len() == 2 {
        seq![
            base64_digit((b[0] as int) / 4),
            base64_digit(((b[0] as int) % 4) * 16 + (b[1] as int) / 16),
            base64_digit(((b[1] as int) % 16) * 4),
            '=',
        ]
    } else {
        seq![
            base64_digit((b[0] as int) / 4),
            base64_digit(((b[0] as int) % 4) * 16 + (b[1] as int) / 16),
            base64_digit(((b[1] as int) % 16) * 4 + (b[2] as int) / 64),
            base64_digit((b[2] as int) % 64),
        ] + base64_standard(b.subrange(3, b.len() as int))
    }
}

/// Four characters for every started group of three bytes.
pub proof fn lemma_base64_standard_len(b: Seq<u8>)
    ensures
        base64_standard(b).len() == (b.len() + 2) / 3 * 4,
    decreases b.len(),
{
    if b.len() >= 3 {
        lemma_base64_standard_len(b.subrange(3, b.len() as int));
    }
}

/// Calls `base64::engine::general_purpose::STANDARD.encode`. The contract
/// claims that the text is the standard padded encoding (the `STANDARD`
/// alphabet with padding). The crate panics when the encoded length does not
/// fit in a `usize`, hence the bound.
#[verifier::external_body]
fn base64_encode(bytes: &[u8]) -> (r: String)
    requires
        (bytes@.len() + 2) / 3 * 4 <= usize::MAX,
    ensures
        r@ == base64_standard(bytes@),
{
    base64::engine::general_purpose::STANDARD.encode(bytes)
}

/// The `pcm` field of an audio message: the little-endian 32-bit float
/// samples, base64 encoded.
pub fn audio_pcm_field(samples_le: &[u8]) -> (r: String)
    requires
        (samples_le@.len() + 2) / 3 * 4 <= usize::MAX,
    ensures
        r@ == base64_standard(samples_le@),
        r@.len() == (samples_le@.len() + 2) / 3 * 4,
{
    proof {
        lemma_base64_standard_len(samples_le@);
    }
    base64_encode(samples_le)
}

/// Whether `audio_pcm_field` accepts this many bytes.
pub fn audio_pcm_encodable(byte_len: usize) -> (r: bool)
    ensures
        r == ((byte_len + 2) / 3 * 4 <= usize::MAX),
{
    let q: usize = byte_len / 3 + if byte_len % 3 == 0 { 0 } else { 1 };
    assert(q == (byte_len + 2) / 3) by (nonlinear_arith)
        requires
            q == byte_len / 3 + if byte_len % 3 == 0 { 0int } else { 1int },
    ;
    assert((q * 4 <= usize::MAX) == (q <= usize::MAX / 4)) by (nonlinear_arith);
    q <= usize::MAX / 4
}

/// The settings page to open for a permission: screen recording or the
/// microphone, on macOS or on Windows.
pub fn permission_settings_target(kind: &str, windows: bool) -> (r: &'static str)
    ensures
        r@ == (if windows {
            if kind@ == "screen"@ { "ms-settings:sound"@ } else { "ms-settings:privacy-microphone"@ }
        } else if kind@ == "screen"@ {
            "x-apple.systempreferences:com.apple.preference.security?Privacy_ScreenCapture"@
        } else {
            "x-apple.systempreferences:com.apple.preference.security?Privacy_Microphone"@
        }),
{
    let screen = str_equal(kind, "screen");
    if windows {
        if screen { "ms-settings:sound" } else { "ms-settings:privacy-microphone" }
    } else if screen {
        "x-apple.systempreferences:com.apple.preference.security?Privacy_ScreenCapture"
    } else {
        "x-apple.systempreferences:com.apple.preference.security?Privacy_Microphone"
    }
}

} // verus!
