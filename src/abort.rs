//! Abort: drop a session and, where it started one, its multipart upload.
use vstd::prelude::*;
use crate::session::UploadSession;

verus! {

/// The object key and multipart upload id to abort for a consumed session,
/// or `None` where no part was ever accepted.
pub fn abort_target(session: &UploadSession) -> (r: Option<(String, String)>)
    ensures
        match session.upload_id {
            Some(id) => r == Some((session.s3_key, id)),
            None => r is None,
        },
{
    match &session.upload_id {
        Some(id) => Some((session.s3_key.clone(), id.clone())),
        None => None,
    }
}

} // verus!
