//! Finish upload: collect every part's etag from its rendezvous slot,
//! complete the multipart upload, and register the file with the backend.
use vstd::prelude::*;
use crate::backend::RegisterRequest;
use crate::digest::{hex_lower, md5_digest, md5_hex, new_uuid, percent_encode_text, percent_encoded};
use crate::error::UploadError;
use crate::file_meta::FileMetaData;
use crate::session::UploadSession;
use crate::text::{push_text, text_of};

verus! {

/// The JSON body of a finish upload.
#[derive(Clone, Debug)]
pub struct RequestBody {
    pub i: String,
}

/// How many times an unreadable rendezvous slot is read again, a second
/// apart, before the upload is given up.
pub const MAX_SLOT_RETRIES: u32 = 600;

/// What one read of a rendezvous slot gave.
pub enum SlotRead {
    /// The slot held this value; it is now removed.
    Value(String),
    /// The slot is not filled yet, or the cache could not be read.
    Unavailable,
}

/// Collects the etags of a session's parts from their rendezvous slots, in
/// part order.
pub struct PartCollector {
    /// The rendezvous keys, one per part.
    pub keys: Vec<String>,
    /// The parts collected so far, with their 1-based numbers.
    pub parts: Vec<(u32, String)>,
    /// Failed reads of the current slot.
    pub failures: u32,
}

/// Parts numbered 1, 2, ... in order, each with a non-empty etag.
pub open spec fn numbered_parts(parts: Seq<(u32, String)>) -> bool {
    forall|i: int| 0 <= i < parts.len() ==> (#[trigger] parts[i]).0 == i + 1 && parts[i].1@.len() > 0
}

/// What the finish path does next.
pub enum CollectStep {
    /// Read `key` (after waiting a second where `wait`) and hand the result
    /// to `collector`.
    Read { collector: PartCollector, key: String, wait: bool },
    /// A part upload failed or its slot stayed unreadable: abort the
    /// multipart upload.
    Abort,
    /// Every etag is there.
    Complete { parts: Vec<(u32, String)> },
}

impl PartCollector {
    /// Still collecting: some slot is left, every collected part is good,
    /// and the retry budget holds.
    pub open spec fn wf(&self) -> bool {
        &&& self.parts@.len() < self.keys@.len()
        &&& self.keys@.len() <= u32::MAX
        &&& self.failures <= MAX_SLOT_RETRIES
        &&& numbered_parts(self.parts@)
    }

    /// The first step of collecting the etags behind `keys`.
    pub fn start(keys: Vec<String>) -> (r: CollectStep)
        requires
            keys@.len() <= u32::MAX,
        ensures
            keys@.len() == 0 ==> (r matches CollectStep::Complete { parts } && parts@.len() == 0),
            keys@.len() > 0 ==> (r matches CollectStep::Read { collector, key, wait } && collector.wf()
                && collector.keys == keys && collector.parts@.len() == 0 && collector.failures == 0
                && key == keys@[0] && !wait),
    {
        if keys.len() == 0 {
            return CollectStep::Complete { parts: Vec::new() };
        }
        let key = keys[0].clone();
        CollectStep::Read { collector: PartCollector { keys, parts: Vec::new(), failures: 0 }, key, wait: false }
    }

    /// The step after reading the current slot. An empty value means that
    /// the part upload failed; an unreadable slot is read again a second
    /// later, up to `MAX_SLOT_RETRIES` times.
    pub fn on_read(self, read: SlotRead) -> (r: CollectStep)
        requires
            self.wf(),
        ensures
            r matches CollectStep::Read { collector, .. } ==> collector.wf(),
            r matches CollectStep::Complete { parts } ==> numbered_parts(parts@) && parts@.len()
                == self.keys@.len(),
            match read {
                SlotRead::Value(v) => if v@.len() == 0 {
                    r is Abort
                } else {
                    let parts = self.parts@.push(((self.parts@.len() + 1) as u32, v));
                    if parts.len() == self.keys@.len() {
                        r matches CollectStep::Complete { parts: p } && p@ == parts
                    } else {
                        r matches CollectStep::Read { collector, key, wait } && collector.keys
                            == self.keys && collector.parts@ == parts && collector.failures == 0 && key
                            == self.keys@[parts.len() as int] && !wait
                    }
                },
                SlotRead::Unavailable => if self.failures >= MAX_SLOT_RETRIES {
                    r is Abort
                } else {
                    r matches CollectStep::Read { collector, key, wait } && collector.keys == self.keys
                        && collector.parts == self.parts && collector.failures == self.failures + 1
                        && key == self.keys@[self.parts@.len() as int] && wait
                },
            },
    {
        let PartCollector { keys, mut parts, failures } = self;
        match read {
            SlotRead::Value(v) => {
                if v.unicode_len() == 0 {
                    return CollectStep::Abort;
                }
                let number = (parts.len() + 1) as u32;
                parts.push((number, v));
                if parts.len() == keys.len() {
                    CollectStep::Complete { parts }
                } else {
                    let key = keys[parts.len()].clone();
                    CollectStep::Read { collector: PartCollector { keys, parts, failures: 0 }, key, wait: false }
                }
            },
            SlotRead::Unavailable => {
                if failures >= MAX_SLOT_RETRIES {
                    return CollectStep::Abort;
                }
                let key = keys[parts.len()].clone();
                CollectStep::Read { collector: PartCollector { keys, parts, failures: failures + 1 }, key, wait: true }
            },
        }
    }
}

/// A copy of a list of strings.
fn copy_texts(v: &Vec<String>) -> (r: Vec<String>)
    ensures
        r@ == v@,
{
    let mut out: Vec<String> = Vec::new();
    let mut i: usize = 0;
    while i < v.len()
        invariant
            i <= v@.len(),
            out@ == v@.subrange(0, i as int),
        decreases v@.len() - i,
    {
        out.push(v[i].clone());
        i = i + 1;
        assert(out@ =~= v@.subrange(0, i as int));
    }
    assert(v@.subrange(0, v@.len() as int) =~= v@);
    out
}

/// Starts finishing `session`: refused where no part was accepted, else the
/// first step of collecting the etags of its parts.
pub fn begin_finish(session: &UploadSession) -> (r: Result<CollectStep, UploadError>)
    requires
        session.wf(),
    ensures
        session.part_number is None ==> r == Err::<CollectStep, UploadError>(UploadError::NothingUploaded),
        session.part_number is Some ==> (r matches Ok(CollectStep::Read { collector, key, wait })
            && collector.wf() && collector.keys@ == session.part_etag@ && collector.parts@.len() == 0
            && collector.failures == 0 && key == session.part_etag@[0] && !wait),
{
    if session.part_number.is_none() {
        return Err(UploadError::NothingUploaded);
    }
    let keys = copy_texts(&session.part_etag);
    Ok(PartCollector::start(keys))
}

/// The parts collected match the session's counter: one per accepted part.
pub fn check_part_count(session: &UploadSession, parts: &Vec<(u32, String)>) -> (r: Result<(), UploadError>)
    ensures
        match session.part_number {
            None => r == Err::<(), UploadError>(UploadError::NothingUploaded),
            Some(n) => if parts@.len() == n + 1 {
                r is Ok
            } else {
                r == Err::<(), UploadError>(UploadError::PartCountMismatch)
            },
        },
{
    match session.part_number {
        None => Err(UploadError::NothingUploaded),
        Some(n) => if parts.len() as u64 == n as u64 + 1 {
            Ok(())
        } else {
            Err(UploadError::PartCountMismatch)
        },
    }
}

/// The `Cache-Control` value of every stored object.
pub fn cache_control() -> (r: String)
    ensures
        r@ == "max-age=31536000, immutable"@,
{
    text_of("max-age=31536000, immutable")
}

/// The `Content-Disposition` value for a file name.
pub open spec fn content_disposition_spec(name: Seq<char>) -> Seq<char> {
    "inline; filename=\""@ + percent_encoded(vstd::utf8::encode_utf8(name)) + "\""@
}

/// The `Content-Disposition` value for a file name: inline, with the name
/// percent-encoded.
pub fn content_disposition(name: &str) -> (r: String)
    ensures
        r@ == content_disposition_spec(name@),
{
    let mut d = text_of("inline; filename=\"");
    let encoded = percent_encode_text(name);
    push_text(&mut d, encoded.as_str());
    push_text(&mut d, "\"");
    d
}

/// The multipart completion that the object store is asked for.
pub struct Completion {
    pub s3_key: String,
    pub upload_id: String,
    pub parts: Vec<(u32, String)>,
    pub cache_control: String,
    pub content_disposition: String,
}

/// The completion of the session's multipart upload with the collected
/// parts; refused where the session has no multipart upload.
pub fn completion(session: &UploadSession, parts: Vec<(u32, String)>) -> (r: Result<Completion, UploadError>)
    ensures
        match session.upload_id {
            None => r == Err::<Completion, UploadError>(UploadError::ObjectStoreFailure),
            Some(id) => r matches Ok(c) && c.s3_key == session.s3_key && c.upload_id == id && c.parts == parts
                && c.cache_control@ == "max-age=31536000, immutable"@ && c.content_disposition@
                == content_disposition_spec(session.name@),
        },
{
    match &session.upload_id {
        None => Err(UploadError::ObjectStoreFailure),
        Some(id) => Ok(
            Completion {
                s3_key: session.s3_key.clone(),
                upload_id: id.clone(),
                parts,
                cache_control: cache_control(),
                content_disposition: content_disposition(session.name.as_str()),
            },
        ),
    }
}

/// The key of a thumbnail object.
pub open spec fn thumbnail_key_spec(prefix: Seq<char>, id: Seq<char>) -> Seq<char> {
    prefix + "/thumbnail-"@ + id + ".webp"@
}

/// The key of the thumbnail object named by `id`.
pub fn thumbnail_key_for(prefix: &str, id: &str) -> (r: String)
    ensures
        r@ == thumbnail_key_spec(prefix@, id@),
{
    let mut k = text_of(prefix);
    push_text(&mut k, "/thumbnail-");
    push_text(&mut k, id);
    push_text(&mut k, ".webp");
    k
}

/// A fresh thumbnail key.
pub fn new_thumbnail_key(prefix: &str) -> (r: String)
    ensures
        exists|id: Seq<char>| id.len() == 36 && r@ == thumbnail_key_spec(prefix@, id),
{
    let id = new_uuid();
    thumbnail_key_for(prefix, id.as_str())
}

/// `req` registers what was uploaded: the object under `access_key`, with
/// the metadata found (none where `media` is absent) and the thumbnail
/// stored under `thumbnail_key`.
pub open spec fn registers_media(req: RegisterRequest, media: Option<FileMetaData>, thumbnail_key: Option<String>) -> bool {
    &&& req.thumbnail_key == thumbnail_key
    &&& match media {
        Some(m) => {
            &&& req.width == m.width
            &&& req.height == m.height
            &&& req.blurhash == m.blurhash
            &&& req.maybe_sensitive == (m.maybe_sensitive == Some(true))
        },
        None => {
            &&& req.width == 0
            &&& req.height == 0
            &&& req.blurhash is None
            &&& !req.maybe_sensitive
        },
    }
}

/// The register request that finishes `session`.
pub open spec fn finish_registration_spec(
    req: RegisterRequest,
    session: UploadSession,
    base_url: Seq<char>,
    i: String,
    media: Option<FileMetaData>,
    thumbnail_key: Option<String>,
) -> bool {
    &&& req.upload_service_key is None
    &&& req.base_url@ == base_url
    &&& req.access_key == session.s3_key
    &&& req.md5@ == hex_lower(md5_digest(session.content()))
    &&& req.md5@.len() == 32
    &&& req.size == session.content_length
    &&& registers_media(req, media, thumbnail_key)
    &&& req.source_url is None
    &&& req.remote_uri is None
    &&& !req.is_link
    &&& req.folder_id == session.folder_id
    &&& req.name == session.name
    &&& req.comment == session.comment
    &&& req.is_sensitive == session.is_sensitive
    &&& req.content_type == session.content_type
    &&& req.force == session.force
    &&& req.i == Some(i)
    &&& req.user_id is None
}

/// The metadata fields of a register request.
fn media_fields(media: Option<FileMetaData>) -> (r: (u32, u32, Option<String>, bool))
    ensures
        match media {
            Some(m) => r == (m.width, m.height, m.blurhash, m.maybe_sensitive == Some(true)),
            None => r == (0u32, 0u32, None::<String>, false),
        },
{
    match media {
        Some(m) => {
            let sensitive = match m.maybe_sensitive {
                Some(b) => b,
                None => false,
            };
            (m.width, m.height, m.blurhash, sensitive)
        },
        None => (0, 0, None, false),
    }
}

/// The register request that finishes `session`: the hex MD5 of all its
/// parts, their total size, and the metadata of a video's first frame
/// where there is one.
pub fn finish_registration(
    session: UploadSession,
    base_url: &str,
    i: String,
    media: Option<FileMetaData>,
    thumbnail_key: Option<String>,
) -> (r: RegisterRequest)
    ensures
        finish_registration_spec(r, session, base_url@, i, media, thumbnail_key),
{
    let (width, height, blurhash, maybe_sensitive) = media_fields(media);
    let UploadSession { s3_key, content_length, md5_ctx, folder_id, name, comment, is_sensitive, content_type, force, .. } = session;
    let md5 = md5_hex(md5_ctx);
    RegisterRequest {
        upload_service_key: None,
        base_url: text_of(base_url),
        access_key: s3_key,
        thumbnail_key,
        md5,
        blurhash,
        size: content_length,
        width,
        height,
        source_url: None,
        remote_uri: None,
        is_link: false,
        folder_id,
        name,
        comment,
        is_sensitive,
        maybe_sensitive,
        content_type,
        force,
        i: Some(i),
        user_id: None,
    }
}

} // verus!
