//! The upload session record kept in the coordination cache, how a request
//! names it, and what a lookup of it yields.
use vstd::prelude::*;
use crate::digest::{md5_consumed, md5_start};
use crate::error::UploadError;
use crate::text::{starts_with_text, text_of};

verus! {

/// The server-side record of a chunked upload.
///
/// `part_etag` holds one rendezvous key per accepted part, in part order;
/// `part_number` is the 0-based index of the last accepted part;
/// `md5_ctx` has consumed every accepted byte; `sensitive_threshold` is the
/// bit pattern of the `f32` threshold pinned by preflight.
pub struct UploadSession {
    pub s3_key: String,
    pub upload_id: Option<String>,
    pub content_type: String,
    pub part_etag: Vec<String>,
    pub part_number: Option<u32>,
    pub content_length: u64,
    pub md5_ctx: md5::Context,
    pub ext: Option<String>,
    pub comment: Option<String>,
    pub folder_id: Option<String>,
    pub is_sensitive: bool,
    pub force: bool,
    pub name: String,
    pub sensitive_threshold: u32,
    pub skip_sensitive_detection: bool,
}

impl UploadSession {
    /// One rendezvous key per accepted part, and a multipart upload as soon
    /// as a part has been accepted.
    pub open spec fn wf(&self) -> bool {
        match self.part_number {
            None => self.part_etag@.len() == 0 && self.upload_id is None,
            Some(n) => n < u32::MAX && self.part_etag@.len() == n + 1 && self.upload_id is Some,
        }
    }

    /// The bytes accepted so far, in order.
    pub open spec fn content(&self) -> Seq<u8> {
        md5_consumed(self.md5_ctx)
    }

    /// Whether the record is well formed.
    pub fn is_well_formed(&self) -> (r: bool)
        ensures
            r == self.wf(),
    {
        match self.part_number {
            None => self.part_etag.len() == 0 && self.upload_id.is_none(),
            Some(n) => n < u32::MAX && self.part_etag.len() as u64 == n as u64 + 1 && self.upload_id.is_some(),
        }
    }

    /// A session that has accepted no part yet: no multipart upload, type
    /// `application/octet-stream`, no extension, nothing hashed.
    pub fn fresh(
        s3_key: String,
        name: String,
        comment: Option<String>,
        folder_id: Option<String>,
        is_sensitive: bool,
        force: bool,
        sensitive_threshold: u32,
        skip_sensitive_detection: bool,
    ) -> (r: Self)
        ensures
            r.wf(),
            r.part_number is None,
            r.upload_id is None,
            r.part_etag@.len() == 0,
            r.content_type@ == "application/octet-stream"@,
            r.ext is None,
            r.content_length == 0,
            r.content() == Seq::<u8>::empty(),
            r.s3_key == s3_key,
            r.name == name,
            r.comment == comment,
            r.folder_id == folder_id,
            r.is_sensitive == is_sensitive,
            r.force == force,
            r.sensitive_threshold == sensitive_threshold,
            r.skip_sensitive_detection == skip_sensitive_detection,
    {
        UploadSession {
            s3_key,
            upload_id: None,
            content_type: text_of("application/octet-stream"),
            part_etag: Vec::new(),
            part_number: None,
            content_length: 0,
            md5_ctx: md5_start(),
            ext: None,
            comment,
            folder_id,
            is_sensitive,
            force,
            name,
            sensitive_threshold,
            skip_sensitive_detection,
        }
    }
}

/// The session id carried by an `Authorization` header of the form
/// `Bearer <session id>`.
pub open spec fn bearer_spec(header: Seq<char>) -> Option<Seq<char>> {
    let p = "Bearer "@;
    if p.len() <= header.len() && header.subrange(0, p.len() as int) == p {
        Some(header.subrange(p.len() as int, header.len() as int))
    } else {
        None
    }
}

/// The session id that a request presents. `authorization` is the header's
/// text, or `None` where it is absent or not visible ASCII, which is
/// refused with `AuthMissing`; a header of another form is refused with
/// `AuthMalformed`.
pub fn bearer_session_id(authorization: Option<&str>) -> (r: Result<String, UploadError>)
    ensures
        match authorization {
            Some(h) => match bearer_spec(h@) {
                Some(id) => r matches Ok(s) && s@ == id,
                None => r == Err::<String, UploadError>(UploadError::AuthMalformed),
            },
            None => r == Err::<String, UploadError>(UploadError::AuthMissing),
        },
{
    match authorization {
        None => Err(UploadError::AuthMissing),
        Some(h) => {
            if starts_with_text(h, "Bearer ") {
                proof {
                    reveal_strlit("Bearer ");
                }
                let n = h.unicode_len();
                Ok(text_of(h.substring_char(7, n)))
            } else {
                Err(UploadError::AuthMalformed)
            }
        },
    }
}

/// What reading a session record from the cache gave.
pub enum SessionLookup {
    /// A record was stored and decoded.
    Found(UploadSession),
    /// No record is stored under the key, or the cache could not be read.
    Missing,
    /// A record is stored but does not decode.
    Unreadable,
}

/// The session a lookup yields, or why the request is refused.
pub open spec fn lookup_result_spec(l: SessionLookup) -> Result<UploadSession, UploadError> {
    match l {
        SessionLookup::Found(s) => if s.wf() {
            Ok(s)
        } else {
            Err(UploadError::CorruptSession)
        },
        SessionLookup::Missing => Err(UploadError::SessionMissing),
        SessionLookup::Unreadable => Err(UploadError::CorruptSession),
    }
}

/// The session a lookup yields: a missing record refuses the request with
/// `SessionMissing`, an unreadable or ill-formed one with `CorruptSession`.
pub fn resolve_lookup(l: SessionLookup) -> (r: Result<UploadSession, UploadError>)
    ensures
        r == lookup_result_spec(l),
{
    match l {
        SessionLookup::Found(s) => if s.is_well_formed() {
            Ok(s)
        } else {
            Err(UploadError::CorruptSession)
        },
        SessionLookup::Missing => Err(UploadError::SessionMissing),
        SessionLookup::Unreadable => Err(UploadError::CorruptSession),
    }
}

/// Whether a session may take a part, checked before its body is read: a
/// missing record refuses the request with `UnknownSession`, an unreadable
/// or ill-formed one with `CorruptSession`.
pub fn check_session_exists(l: &SessionLookup) -> (r: Result<(), UploadError>)
    ensures
        match l {
            SessionLookup::Found(s) => if s.wf() {
                r is Ok
            } else {
                r == Err::<(), UploadError>(UploadError::CorruptSession)
            },
            SessionLookup::Missing => r == Err::<(), UploadError>(UploadError::UnknownSession),
            SessionLookup::Unreadable => r == Err::<(), UploadError>(UploadError::CorruptSession),
        },
{
    match l {
        SessionLookup::Found(s) => if s.is_well_formed() {
            Ok(())
        } else {
            Err(UploadError::CorruptSession)
        },
        SessionLookup::Missing => Err(UploadError::UnknownSession),
        SessionLookup::Unreadable => Err(UploadError::CorruptSession),
    }
}

} // verus!
