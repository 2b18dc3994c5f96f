//! The two calls to the backend service: preflight, which authorises an
//! upload and pins its policy, and register, which commits it.
use vstd::prelude::*;
use crate::text::{text_of, push_text};

verus! {

/// What preflight sends to the backend.
#[derive(Clone, Debug)]
pub struct PreflightRequest {
    pub upload_service_key: Option<String>,
    pub folder_id: Option<String>,
    pub name: Option<String>,
    pub is_sensitive: bool,
    pub comment: Option<String>,
    pub size: u64,
    pub ext: Option<String>,
    pub is_link: bool,
    pub url: Option<String>,
    pub uri: Option<String>,
    pub i: Option<String>,
    pub user_id: Option<String>,
}

impl Default for PreflightRequest {
    fn default() -> (r: Self)
        ensures
            r.upload_service_key is None,
            r.folder_id is None,
            r.name is None,
            !r.is_sensitive,
            r.comment is None,
            r.size == 0,
            r.ext is None,
            !r.is_link,
            r.url is None,
            r.uri is None,
            r.i is None,
            r.user_id is None,
    {
        PreflightRequest {
            upload_service_key: None,
            folder_id: None,
            name: None,
            is_sensitive: false,
            comment: None,
            size: 0,
            ext: None,
            is_link: false,
            url: None,
            uri: None,
            i: None,
            user_id: None,
        }
    }
}

/// What the backend answers to preflight. `sensitive_threshold` is the bit
/// pattern of the `f32` score above which media counts as sensitive.
#[derive(Clone, Debug)]
pub struct PreflightResponse {
    pub skip_sensitive_detection: bool,
    pub sensitive_threshold: u32,
    pub enable_sensitive_media_detection_for_videos: bool,
    pub detected_name: String,
}

/// What register sends to the backend.
#[derive(Clone, Debug)]
pub struct RegisterRequest {
    pub upload_service_key: Option<String>,
    pub base_url: String,
    pub access_key: String,
    pub thumbnail_key: Option<String>,
    pub md5: String,
    pub blurhash: Option<String>,
    pub size: u64,
    pub width: u32,
    pub height: u32,
    pub source_url: Option<String>,
    pub remote_uri: Option<String>,
    pub is_link: bool,
    pub folder_id: Option<String>,
    pub name: String,
    pub comment: Option<String>,
    pub is_sensitive: bool,
    pub maybe_sensitive: bool,
    pub content_type: String,
    pub force: bool,
    pub i: Option<String>,
    pub user_id: Option<String>,
}

impl PreflightRequest {
    /// Stamps the shared secret into the request.
    pub fn authorize(&mut self, key: &str)
        ensures
            final(self).upload_service_key matches Some(k) && k@ == key@,
            final(self).folder_id == old(self).folder_id,
            final(self).name == old(self).name,
            final(self).is_sensitive == old(self).is_sensitive,
            final(self).comment == old(self).comment,
            final(self).size == old(self).size,
            final(self).ext == old(self).ext,
            final(self).is_link == old(self).is_link,
            final(self).url == old(self).url,
            final(self).uri == old(self).uri,
            final(self).i == old(self).i,
            final(self).user_id == old(self).user_id,
    {
        self.upload_service_key = Some(text_of(key));
    }
}

impl RegisterRequest {
    /// Stamps the shared secret into the request.
    pub fn authorize(&mut self, key: &str)
        ensures
            final(self).upload_service_key matches Some(k) && k@ == key@,
            *final(self) == (RegisterRequest { upload_service_key: final(self).upload_service_key, ..*old(self) }),
    {
        self.upload_service_key = Some(text_of(key));
    }
}

/// The URL that preflight is posted to.
pub fn preflight_url(endpoint: &str) -> (r: String)
    ensures
        r@ == endpoint@ + "/drive/files/upload-preflight"@,
{
    let mut u = text_of(endpoint);
    push_text(&mut u, "/drive/files/upload-preflight");
    u
}

/// The URL that register is posted to.
pub fn register_url(endpoint: &str) -> (r: String)
    ensures
        r@ == endpoint@ + "/drive/files/upload-service"@,
{
    let mut u = text_of(endpoint);
    push_text(&mut u, "/drive/files/upload-service");
    u
}

/// The JSON error body sent to the client when the backend's answer could
/// not be read.
pub fn transport_error_body(message: &str) -> (r: String)
    ensures
        r@ == "{\"error\":{\"message\":\""@ + message@ + "\"} }"@,
{
    let mut b = text_of("{\"error\":{\"message\":\"");
    push_text(&mut b, message);
    push_text(&mut b, "\"} }");
    b
}

/// The status passed through from the backend: its own where it is a
/// valid HTTP status code (100 to 999), else 502.
pub open spec fn passthrough_status_spec(code: u16) -> u16 {
    if 100 <= code <= 999 {
        code
    } else {
        502
    }
}

/// The status passed through from the backend.
pub fn passthrough_status(code: u16) -> (r: u16)
    ensures
        r == passthrough_status_spec(code),
{
    if 100 <= code && code <= 999 {
        code
    } else {
        502
    }
}

/// The client's answer to a register call: the backend's status and body,
/// or 400 with the error body where the call itself failed.
pub fn register_reply(outcome: Result<(u16, String), String>) -> (r: (u16, String))
    ensures
        match outcome {
            Ok((code, body)) => r.0 == passthrough_status_spec(code) && r.1 == body,
            Err(e) => r.0 == 400 && r.1 == e,
        },
{
    match outcome {
        Ok((code, body)) => (passthrough_status(code), body),
        Err(e) => (400, e),
    }
}

} // verus!
