//! The ways an upload request can fail, and the HTTP status each one maps to.
use vstd::prelude::*;

verus! {

/// Why an upload request was refused.
#[derive(Clone, Copy, Debug, PartialEq, Eq, Structural)]
pub enum UploadError {
    /// The `Authorization` header is not `Bearer <session id>`.
    AuthMalformed,
    /// The `Authorization` header is absent or unreadable.
    AuthMissing,
    /// No session is stored under the presented id when a part's body is
    /// about to be read.
    UnknownSession,
    /// No session is stored under the presented id.
    SessionMissing,
    /// The stored session record cannot be used.
    CorruptSession,
    /// A part arrived out of order.
    PartOrderViolation,
    /// Finish-upload was called on a session that holds no part.
    NothingUploaded,
    /// The collected parts do not match the session's part counter.
    PartCountMismatch,
    /// The request body is not the JSON that was expected.
    BadJson,
    /// The request body is larger than allowed.
    PayloadTooLarge,
    /// The request body could not be read.
    BodyUnreadable,
    /// The object store refused an operation, or a part upload failed.
    ObjectStoreFailure,
    /// The coordination cache refused a write.
    CacheFailure,
}

/// The HTTP status for each error.
pub open spec fn status_spec(e: UploadError) -> u16 {
    match e {
        UploadError::AuthMalformed => 400,
        UploadError::AuthMissing => 403,
        UploadError::UnknownSession => 400,
        UploadError::SessionMissing => 403,
        UploadError::CorruptSession => 500,
        UploadError::PartOrderViolation => 400,
        UploadError::NothingUploaded => 400,
        UploadError::PartCountMismatch => 400,
        UploadError::BadJson => 400,
        UploadError::PayloadTooLarge => 413,
        UploadError::BodyUnreadable => 500,
        UploadError::ObjectStoreFailure => 500,
        UploadError::CacheFailure => 500,
    }
}

impl UploadError {
    /// The HTTP status that reports this error.
    pub fn status(&self) -> (r: u16)
        ensures
            r == status_spec(*self),
    {
        match self {
            UploadError::AuthMalformed => 400,
            UploadError::AuthMissing => 403,
            UploadError::UnknownSession => 400,
            UploadError::SessionMissing => 403,
            UploadError::CorruptSession => 500,
            UploadError::PartOrderViolation => 400,
            UploadError::NothingUploaded => 400,
            UploadError::PartCountMismatch => 400,
            UploadError::BadJson => 400,
            UploadError::PayloadTooLarge => 413,
            UploadError::BodyUnreadable => 500,
            UploadError::ObjectStoreFailure => 500,
            UploadError::CacheFailure => 500,
            }
    }
}

} // verus!
