//! Partial upload: one part of a chunked upload, accepted in strict order,
//! hashed into the session's running MD5 and handed to a background task
//! whose outcome is left in a rendezvous slot of the cache.
use vstd::prelude::*;
use crate::digest::{md5_consumed, md5_feed, new_uuid};
use crate::error::UploadError;
use crate::mime::{classify, classify_bytes_spec, option_view};
use crate::session::UploadSession;
use crate::text::{push_text, text_of};

verus! {

/// The query string of a partial upload.
#[derive(Clone, Copy, Debug)]
pub struct RequestParams {
    pub partnumber: u32,
}

/// How long a rendezvous slot lives in the cache, in seconds.
pub const RENDEZVOUS_TTL_SECONDS: u64 = 86400;

/// Appends a chunk of the request body, refusing a body that would grow
/// beyond `max` bytes.
pub fn append_body_chunk(body: &mut Vec<u8>, chunk: &[u8], max: u64) -> (r: Result<(), UploadError>)
    ensures
        old(body)@.len() + chunk@.len() <= max ==> r is Ok && final(body)@ == old(body)@ + chunk@,
        old(body)@.len() + chunk@.len() > max ==> r == Err::<(), UploadError>(UploadError::PayloadTooLarge)
            && final(body)@ == old(body)@,
{
    if body.len() as u64 > max || chunk.len() as u64 > max - body.len() as u64 {
        return Err(UploadError::PayloadTooLarge);
    }
    body.extend_from_slice(chunk);
    Ok(())
}

/// Whether part `k` may follow what the session has accepted: the first
/// part is 0 and each later one is one more than the last, with room left
/// for the 1-based number that the object store is given.
pub open spec fn part_accepted(s: UploadSession, k: u32) -> bool {
    match s.part_number {
        None => k == 0,
        Some(n) => k == n + 1 && k < u32::MAX,
    }
}

/// `new` is `old` once part `k` with `body` has been admitted: the counter
/// moves to `k`, and on the first part the type and extension are
/// negotiated from the body.
pub open spec fn advanced(old: UploadSession, new: UploadSession, k: u32, body: Seq<u8>) -> bool {
    &&& part_accepted(old, k)
    &&& match old.part_number {
        None => {
            &&& new == (UploadSession {
                part_number: Some(k),
                content_type: new.content_type,
                ext: new.ext,
                ..old
            })
            &&& (new.content_type@, option_view(&new.ext)) == classify_bytes_spec(body)
        },
        Some(_) => new == (UploadSession { part_number: Some(k), ..old }),
    }
}

/// `new` is `old` once the admitted part has been recorded: the multipart
/// upload is the one just initiated where there is one, the body is
/// hashed and counted, and the part's rendezvous key is appended.
pub open spec fn committed(
    old: UploadSession,
    new: UploadSession,
    initiated: Option<String>,
    body: Seq<u8>,
    key: String,
) -> bool {
    &&& new.upload_id == (if initiated is Some {
        initiated
    } else {
        old.upload_id
    })
    &&& md5_consumed(new.md5_ctx) == md5_consumed(old.md5_ctx) + body
    &&& new.content_length == old.content_length + body.len()
    &&& new.part_etag@ == old.part_etag@.push(key)
    &&& new == (UploadSession {
        upload_id: new.upload_id,
        md5_ctx: new.md5_ctx,
        content_length: new.content_length,
        part_etag: new.part_etag,
        ..old
    })
}

/// The upload of one part that the background task performs.
pub struct PartUpload {
    pub s3_key: String,
    /// The 1-based part number the object store is given.
    pub part_number: u32,
    pub upload_id: String,
    pub content_type: String,
    /// The cache slot that receives the part's etag.
    pub rendezvous_key: String,
}

impl UploadSession {
    /// Admits part `partnumber` with `body`. On the first part the MIME type
    /// and extension are negotiated and the type that the multipart upload
    /// must be initiated with is returned; on a later part nothing is.
    /// An out-of-order part is refused and the session left as it was.
    pub fn advance_part(&mut self, partnumber: u32, body: &[u8]) -> (r: Result<Option<String>, UploadError>)
        requires
            old(self).wf(),
        ensures
            !part_accepted(*old(self), partnumber) ==> r == Err::<Option<String>, UploadError>(
                UploadError::PartOrderViolation,
            ) && *final(self) == *old(self),
            part_accepted(*old(self), partnumber) ==> advanced(*old(self), *final(self), partnumber, body@),
            part_accepted(*old(self), partnumber) && old(self).part_number is None ==> (r matches Ok(
                Some(ct),
            ) && ct@ == final(self).content_type@),
            part_accepted(*old(self), partnumber) && old(self).part_number is Some ==> r matches Ok(None),
    {
        match self.part_number {
            None => {
                if partnumber != 0 {
                    return Err(UploadError::PartOrderViolation);
                }
                let class = classify(body);
                let ct = text_of(class.content_type.as_str());
                self.part_number = Some(0);
                self.content_type = class.content_type;
                self.ext = class.ext;
                Ok(Some(ct))
            },
            Some(n) => {
                if n == u32::MAX || partnumber != n + 1 || partnumber == u32::MAX {
                    return Err(UploadError::PartOrderViolation);
                }
                self.part_number = Some(partnumber);
                Ok(None)
            },
        }
    }

    /// Records the admitted part: sets the multipart upload id where one was
    /// just initiated, hashes and counts the body, appends the rendezvous
    /// key, and returns the upload that the background task must perform.
    pub fn commit_part(&mut self, initiated: Option<String>, body: &[u8], rendezvous_key: String) -> (r: PartUpload)
        requires
            old(self).part_number matches Some(k) && old(self).part_etag@.len() == k && k < u32::MAX,
            old(self).upload_id is Some || initiated is Some,
            old(self).content_length + body@.len() <= u64::MAX,
        ensures
            committed(*old(self), *final(self), initiated, body@, rendezvous_key),
            final(self).wf(),
            r.s3_key == final(self).s3_key,
            r.part_number == old(self).part_number->0 + 1,
            final(self).upload_id == Some(r.upload_id),
            r.content_type == final(self).content_type,
            r.rendezvous_key == rendezvous_key,
    {
        let k = match self.part_number {
            Some(k) => k,
            None => 0,
        };
        if initiated.is_some() {
            self.upload_id = initiated;
        }
        md5_feed(&mut self.md5_ctx, body);
        self.content_length = self.content_length + body.len() as u64;
        self.part_etag.push(rendezvous_key.clone());
        let upload_id = match &self.upload_id {
            Some(id) => id.clone(),
            None => String::new(),
        };
        PartUpload {
            s3_key: self.s3_key.clone(),
            part_number: k + 1,
            upload_id,
            content_type: self.content_type.clone(),
            rendezvous_key,
        }
    }
}

/// Whether `key` names a rendezvous slot.
pub open spec fn is_rendezvous_key(key: Seq<char>) -> bool {
    let p = "s3_wait_etag:"@;
    p.len() <= key.len() && key.subrange(0, p.len() as int) == p
}

/// The rendezvous key built on an identifier.
pub fn rendezvous_key_for(id: &str) -> (r: String)
    ensures
        r@ == "s3_wait_etag:"@ + id@,
        is_rendezvous_key(r@),
{
    let mut k = text_of("s3_wait_etag:");
    push_text(&mut k, id);
    assert(k@.subrange(0, "s3_wait_etag:"@.len() as int) =~= "s3_wait_etag:"@);
    k
}

/// A fresh rendezvous key.
pub fn new_rendezvous_key() -> (r: String)
    ensures
        is_rendezvous_key(r@),
        r@.len() == "s3_wait_etag:"@.len() + 36,
{
    let id = new_uuid();
    rendezvous_key_for(id.as_str())
}

/// What the background task leaves in a rendezvous slot: the etag that the
/// object store returned, or the empty string where the upload failed.
pub fn rendezvous_value(etag: Option<String>) -> (r: String)
    ensures
        match etag {
            Some(e) => r == e,
            None => r@ == Seq::<char>::empty(),
        },
{
    match etag {
        Some(e) => e,
        None => String::new(),
    }
}

} // verus!
