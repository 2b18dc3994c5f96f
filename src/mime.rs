//! Content sniffing and MIME negotiation: magic bytes, extension
//! canonicalisation and the browser-safe allowlist.
use vstd::prelude::*;
use crate::text::{same_text, text_of, push_text};

verus! {

/// The MIME types that may be served inline.
pub open spec fn is_browser_safe_spec(s: Seq<char>) -> bool {
    ||| s == "image/png"@
    ||| s == "image/gif"@
    ||| s == "image/jpeg"@
    ||| s == "image/webp"@
    ||| s == "image/avif"@
    ||| s == "image/apng"@
    ||| s == "image/bmp"@
    ||| s == "image/tiff"@
    ||| s == "image/x-icon"@
    ||| s == "audio/opus"@
    ||| s == "video/ogg"@
    ||| s == "audio/ogg"@
    ||| s == "application/ogg"@
    ||| s == "video/quicktime"@
    ||| s == "video/mp4"@
    ||| s == "audio/mp4"@
    ||| s == "video/x-m4v"@
    ||| s == "audio/x-m4a"@
    ||| s == "video/3gpp"@
    ||| s == "video/3gpp2"@
    ||| s == "video/mpeg"@
    ||| s == "audio/mpeg"@
    ||| s == "video/webm"@
    ||| s == "audio/webm"@
    ||| s == "audio/aac"@
    ||| s == "audio/flac"@
    ||| s == "audio/wav"@
    ||| s == "audio/x-flac"@
    ||| s == "audio/vnd.wave"@
}

/// Whether `s` is one of the MIME types that may be served inline.
pub fn is_browser_safe(s: &str) -> (r: bool)
    ensures
        r == is_browser_safe_spec(s@),
{
    same_text(s, "image/png")
    || same_text(s, "image/gif")
    || same_text(s, "image/jpeg")
    || same_text(s, "image/webp")
    || same_text(s, "image/avif")
    || same_text(s, "image/apng")
    || same_text(s, "image/bmp")
    || same_text(s, "image/tiff")
    || same_text(s, "image/x-icon")
    || same_text(s, "audio/opus")
    || same_text(s, "video/ogg")
    || same_text(s, "audio/ogg")
    || same_text(s, "application/ogg")
    || same_text(s, "video/quicktime")
    || same_text(s, "video/mp4")
    || same_text(s, "audio/mp4")
    || same_text(s, "video/x-m4v")
    || same_text(s, "audio/x-m4a")
    || same_text(s, "video/3gpp")
    || same_text(s, "video/3gpp2")
    || same_text(s, "video/mpeg")
    || same_text(s, "audio/mpeg")
    || same_text(s, "video/webm")
    || same_text(s, "audio/webm")
    || same_text(s, "audio/aac")
    || same_text(s, "audio/flac")
    || same_text(s, "audio/wav")
    || same_text(s, "audio/x-flac")
    || same_text(s, "audio/vnd.wave")
}

/// The extension used for a MIME type whose sniffed extension is empty.
pub open spec fn canonical_ext_spec(mime: Seq<char>) -> Option<Seq<char>> {
    if mime == "image/jpeg"@ {
        Some(".jpg"@)
    } else if mime == "image/png"@ {
        Some(".png"@)
    } else if mime == "image/webp"@ {
        Some(".webp"@)
    } else if mime == "image/avif"@ {
        Some(".avif"@)
    } else if mime == "image/apng"@ || mime == "image/vnd.mozilla.apng"@ {
        Some(".apng"@)
    } else {
        None
    }
}

/// The extension used for a MIME type whose sniffed extension is empty.
pub fn canonical_ext(mime: &str) -> (r: Option<String>)
    ensures
        option_view(&r) == canonical_ext_spec(mime@),
{
    if same_text(mime, "image/jpeg") {
        Some(text_of(".jpg"))
    } else if same_text(mime, "image/png") {
        Some(text_of(".png"))
    } else if same_text(mime, "image/webp") {
        Some(text_of(".webp"))
    } else if same_text(mime, "image/avif") {
        Some(text_of(".avif"))
    } else if same_text(mime, "image/apng") || same_text(mime, "image/vnd.mozilla.apng") {
        Some(text_of(".apng"))
    } else {
        None
    }
}

/// The view of an optional string.
pub open spec fn option_view(o: &Option<String>) -> Option<Seq<char>> {
    match o {
        Some(s) => Some(s@),
        None => None,
    }
}

/// The view of what magic-byte sniffing found: a MIME type and an
/// extension without its leading dot.
pub open spec fn detected_view(d: &Option<(String, String)>) -> Option<(Seq<char>, Seq<char>)> {
    match d {
        Some((m, e)) => Some((m@, e@)),
        None => None,
    }
}

/// A negotiated MIME type and the extension (with its leading dot) that
/// goes with it.
pub struct MimeClass {
    pub content_type: String,
    pub ext: Option<String>,
}

impl MimeClass {
    pub open spec fn view(&self) -> (Seq<char>, Option<Seq<char>>) {
        (self.content_type@, option_view(&self.ext))
    }
}

/// The result of negotiation for what sniffing found: the sniffed type
/// with its extension, an empty extension replaced from the canonical
/// table, `image/apng` served as `image/png`, and anything outside the
/// browser-safe allowlist downgraded to `application/octet-stream` with no
/// extension.
pub open spec fn classify_spec(detected: Option<(Seq<char>, Seq<char>)>) -> (Seq<char>, Option<Seq<char>>) {
    match detected {
        None => ("application/octet-stream"@, None),
        Some((m, e)) => {
            let ext = if e.len() == 0 {
                canonical_ext_spec(m)
            } else {
                Some(seq!['.'] + e)
            };
            let ct = if m == "image/apng"@ {
                "image/png"@
            } else {
                m
            };
            if is_browser_safe_spec(ct) {
                (ct, ext)
            } else {
                ("application/octet-stream"@, None)
            }
        },
    }
}

/// Negotiates the MIME type and extension from what sniffing found.
pub fn classify_detected(detected: Option<(String, String)>) -> (r: MimeClass)
    ensures
        r.view() == classify_spec(detected_view(&detected)),
{
    match detected {
        None => MimeClass { content_type: text_of("application/octet-stream"), ext: None },
        Some((m, e)) => {
            let ext = if e.unicode_len() == 0 {
                canonical_ext(m.as_str())
            } else {
                let mut dotted = text_of(".");
                push_text(&mut dotted, e.as_str());
                proof {
                    reveal_strlit(".");
                    assert(dotted@ =~= seq!['.'] + e@);
                }
                Some(dotted)
            };
            let ct = if same_text(m.as_str(), "image/apng") {
                text_of("image/png")
            } else {
                m
            };
            if is_browser_safe(ct.as_str()) {
                MimeClass { content_type: ct, ext }
            } else {
                MimeClass { content_type: text_of("application/octet-stream"), ext: None }
            }
        },
    }
}

/// What magic-byte sniffing finds in a byte prefix: a MIME type and an
/// extension without its leading dot, or nothing.
pub uninterp spec fn sniffed_type(buf: Seq<u8>) -> Option<(Seq<char>, Seq<char>)>;

/// The most Zstandard skippable frames that may lead a buffer handed to
/// the sniffer.
pub const MAX_SKIPPABLE_FRAMES: u64 = 1024;

/// The little-endian `u32` in the four bytes from `at`.
pub open spec fn le32(buf: Seq<u8>, at: int) -> int {
    buf[at] + buf[at + 1] * 256 + buf[at + 2] * 65536 + buf[at + 3] * 16777216
}

/// Whether `buf` opens with a Zstandard skippable frame header: a magic
/// number `0x184D2A5?` followed by the length of the frame's data.
pub open spec fn opens_skippable_frame(buf: Seq<u8>) -> bool {
    &&& buf.len() >= 8
    &&& buf[0] / 16 == 5
    &&& buf[1] == 0x2A
    &&& buf[2] == 0x4D
    &&& buf[3] == 0x18
}

/// How many whole skippable frames lead `buf` before a Zstandard frame,
/// a truncated frame or anything else: the depth to which the sniffer's
/// Zstandard matcher calls itself.
pub open spec fn skippable_frames(buf: Seq<u8>) -> nat
    decreases buf.len(),
{
    if buf.len() > 3 && buf[0] == 0x28 && buf[1] == 0xB5 && buf[2] == 0x2F && buf[3] == 0xFD {
        0
    } else if opens_skippable_frame(buf) && buf.len() >= 8 + le32(buf, 4) {
        1 + skippable_frames(buf.subrange(8 + le32(buf, 4), buf.len() as int))
    } else {
        0
    }
}

/// Whether at most `MAX_SKIPPABLE_FRAMES` skippable frames lead `buf`.
pub fn skippable_frames_bounded(buf: &[u8]) -> (r: bool)
    ensures
        r == (skippable_frames(buf@) <= MAX_SKIPPABLE_FRAMES),
{
    let n = buf.len();
    let mut pos: usize = 0;
    let mut count: u64 = 0;
    assert(buf@.subrange(0, n as int) =~= buf@);
    while count <= MAX_SKIPPABLE_FRAMES
        invariant
            n == buf@.len(),
            pos <= n,
            count <= MAX_SKIPPABLE_FRAMES + 1,
            skippable_frames(buf@) == count + skippable_frames(buf@.subrange(pos as int, n as int)),
        decreases MAX_SKIPPABLE_FRAMES + 1 - count,
    {
        let ghost rest = buf@.subrange(pos as int, n as int);
        if n - pos > 3 && buf[pos] == 0x28 && buf[pos + 1] == 0xB5 && buf[pos + 2] == 0x2F && buf[pos + 3] == 0xFD {
            return true;
        }
        if n - pos < 8 || buf[pos] / 16 != 5 || buf[pos + 1] != 0x2A || buf[pos + 2] != 0x4D || buf[pos + 3] != 0x18 {
            return true;
        }
        let data_len: u64 = buf[pos + 4] as u64 + buf[pos + 5] as u64 * 256 + buf[pos + 6] as u64 * 65536
            + buf[pos + 7] as u64 * 16777216;
        assert(data_len == le32(rest, 4));
        if data_len > (n - pos - 8) as u64 {
            return true;
        }
        let next = pos + 8 + data_len as usize;
        assert(rest.subrange(8 + le32(rest, 4), rest.len() as int) =~= buf@.subrange(next as int, n as int));
        pos = next;
        count = count + 1;
    }
    false
}

/// Relies on `infer::get`: the matcher table is fixed, so what it finds
/// depends on the bytes alone. Its Zstandard matcher calls itself once per
/// leading skippable frame, so their number is bounded here to keep that
/// recursion shallow.
#[verifier::external_body]
fn sniff(buf: &[u8]) -> (r: Option<(String, String)>)
    requires
        skippable_frames(buf@) <= MAX_SKIPPABLE_FRAMES,
    ensures
        detected_view(&r) == sniffed_type(buf@),
{
    match infer::get(buf) {
        Some(kind) => Some((kind.mime_type().to_string(), kind.extension().to_string())),
        None => None,
    }
}

/// What negotiation gives for a file's first bytes.
pub open spec fn classify_bytes_spec(buf: Seq<u8>) -> (Seq<char>, Option<Seq<char>>) {
    if skippable_frames(buf) <= MAX_SKIPPABLE_FRAMES {
        classify_spec(sniffed_type(buf))
    } else {
        classify_spec(None)
    }
}

/// Negotiates the MIME type and extension of a file from its first bytes.
/// Bytes led by more than `MAX_SKIPPABLE_FRAMES` Zstandard skippable frames
/// are not sniffed; they would be Zstandard data, which is not served
/// inline, and are `application/octet-stream` with no extension.
pub fn classify(buf: &[u8]) -> (r: MimeClass)
    ensures
        r.view() == classify_bytes_spec(buf@),
{
    if skippable_frames_bounded(buf) {
        classify_detected(sniff(buf))
    } else {
        classify_detected(None)
    }
}

} // verus!
