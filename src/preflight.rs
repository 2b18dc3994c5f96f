//! Preflight: ask the backend whether an upload may start, then open a
//! session for it.
use vstd::prelude::*;
use crate::backend::{PreflightRequest, PreflightResponse};
use crate::config::ConfigFile;
use crate::digest::{new_uuid, session_key, session_key_spec};
use crate::session::UploadSession;
use crate::text::{push_text, text_of};

verus! {

/// The JSON body of a preflight.
#[derive(Clone, Debug)]
pub struct RequestParams {
    pub i: String,
    pub content_length: Option<u64>,
    pub folder_id: Option<String>,
    pub name: Option<String>,
    pub is_sensitive: bool,
    pub comment: Option<String>,
    pub force: bool,
}

/// What preflight answers.
#[derive(Clone, Debug)]
pub struct ResponseBody {
    pub allow_upload: bool,
    pub min_split_size: u32,
    pub max_split_size: u64,
    pub session_id: String,
}

/// The smallest part a client should send, 5 MiB.
pub const MIN_SPLIT_SIZE: u32 = 5242880;

/// How long a session that has accepted no part lives, in seconds.
pub const PREFLIGHT_SESSION_TTL: u64 = 30;

/// The preflight request sent to the backend for `params`.
pub fn preflight_request(params: &RequestParams) -> (r: PreflightRequest)
    ensures
        r.upload_service_key is None,
        r.i == Some(params.i),
        r.comment == params.comment,
        r.folder_id == params.folder_id,
        r.is_sensitive == params.is_sensitive,
        r.name == params.name,
        r.size == match params.content_length {
            Some(n) => n,
            None => 0,
        },
        r.ext is None,
        !r.is_link,
        r.url is None,
        r.uri is None,
        r.user_id is None,
{
    PreflightRequest {
        upload_service_key: None,
        folder_id: params.folder_id.clone(),
        name: params.name.clone(),
        is_sensitive: params.is_sensitive,
        comment: params.comment.clone(),
        size: match params.content_length {
            Some(n) => n,
            None => 0,
        },
        ext: None,
        is_link: false,
        url: None,
        uri: None,
        i: Some(params.i.clone()),
        user_id: None,
    }
}

/// A session opened by preflight, the cache key it is stored under, and
/// the answer to the client.
pub struct PreflightPlan {
    pub session: UploadSession,
    pub cache_key: String,
    pub response: ResponseBody,
}

impl ResponseBody {
    /// The answer where the session could not be stored: upload refused.
    pub fn refused(self) -> (r: Self)
        ensures
            !r.allow_upload,
            r.min_split_size == self.min_split_size,
            r.max_split_size == self.max_split_size,
            r.session_id == self.session_id,
    {
        ResponseBody { allow_upload: false, ..self }
    }
}

/// The object key made of a prefix and an identifier.
pub open spec fn object_key_spec(prefix: Seq<char>, id: Seq<char>) -> Seq<char> {
    prefix + "/"@ + id
}

/// The plan for a preflight that the backend allowed: a fresh session whose
/// object lives under `prefix/object_id`, keyed in the cache by the SHA-256
/// image of `session_id`, with the policy that the backend pinned.
pub fn plan_session(
    params: RequestParams,
    answer: PreflightResponse,
    prefix: &str,
    part_max_size: u64,
    session_id: String,
    object_id: &str,
) -> (r: PreflightPlan)
    ensures
        r.session.wf(),
        r.session.part_number is None,
        r.session.upload_id is None,
        r.session.content_type@ == "application/octet-stream"@,
        r.session.ext is None,
        r.session.content_length == 0,
        r.session.content() == Seq::<u8>::empty(),
        r.session.s3_key@ == object_key_spec(prefix@, object_id@),
        r.session.name == answer.detected_name,
        r.session.comment == params.comment,
        r.session.folder_id == params.folder_id,
        r.session.is_sensitive == params.is_sensitive,
        r.session.force == params.force,
        r.session.sensitive_threshold == answer.sensitive_threshold,
        r.session.skip_sensitive_detection == answer.skip_sensitive_detection,
        r.cache_key@ == session_key_spec(session_id@),
        r.cache_key@.len() == 43,
        r.response.allow_upload,
        r.response.min_split_size == MIN_SPLIT_SIZE,
        r.response.max_split_size == part_max_size,
        r.response.session_id == session_id,
{
    let mut s3_key = text_of(prefix);
    push_text(&mut s3_key, "/");
    push_text(&mut s3_key, object_id);
    let cache_key = session_key(session_id.as_str());
    let session = UploadSession::fresh(
        s3_key,
        answer.detected_name,
        params.comment,
        params.folder_id,
        params.is_sensitive,
        params.force,
        answer.sensitive_threshold,
        answer.skip_sensitive_detection,
    );
    PreflightPlan {
        session,
        cache_key,
        response: ResponseBody {
            allow_upload: true,
            min_split_size: MIN_SPLIT_SIZE,
            max_split_size: part_max_size,
            session_id,
        },
    }
}

/// Opens a session for a preflight that the backend allowed, with a fresh
/// session id and a fresh object key under the configured prefix.
pub fn open_session(params: RequestParams, answer: PreflightResponse, config: &ConfigFile) -> (r: PreflightPlan)
    ensures
        r.session.wf(),
        r.session.part_number is None,
        r.session.upload_id is None,
        r.session.content_type@ == "application/octet-stream"@,
        r.session.ext is None,
        r.session.content_length == 0,
        r.session.content() == Seq::<u8>::empty(),
        exists|id: Seq<char>| id.len() == 36 && r.session.s3_key@ == object_key_spec(config.prefix@, id),
        r.session.name == answer.detected_name,
        r.session.comment == params.comment,
        r.session.folder_id == params.folder_id,
        r.session.is_sensitive == params.is_sensitive,
        r.session.force == params.force,
        r.session.sensitive_threshold == answer.sensitive_threshold,
        r.session.skip_sensitive_detection == answer.skip_sensitive_detection,
        r.cache_key@ == session_key_spec(r.response.session_id@),
        r.cache_key@.len() == 43,
        r.response.session_id@.len() == 36,
        r.response.allow_upload,
        r.response.min_split_size == MIN_SPLIT_SIZE,
        r.response.max_split_size == config.part_max_size,
{
    let session_id = new_uuid();
    let object_id = new_uuid();
    plan_session(params, answer, config.prefix.as_str(), config.part_max_size, session_id, object_id.as_str())
}

} // verus!
