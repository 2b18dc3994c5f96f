//! Properties of the upload protocol that span several calls.
use vstd::prelude::*;
use crate::digest::{hex_lower, md5_digest};
use crate::error::{status_spec, UploadError};
use crate::file_meta::FileMetaData;
use crate::finish_upload::{finish_registration_spec, numbered_parts};
use crate::backend::RegisterRequest;
use crate::mime::{classify_bytes_spec, option_view};
use crate::partial_upload::{advanced, committed, is_rendezvous_key};
use crate::session::{lookup_result_spec, SessionLookup, UploadSession};

verus! {

/// One accepted partial upload takes `old` to `new` with `body`: the part
/// is admitted, then recorded.
pub open spec fn part_round(old: UploadSession, new: UploadSession, body: Seq<u8>) -> bool {
    exists|mid: UploadSession, k: u32, initiated: Option<String>, key: String|
        #![trigger advanced(old, mid, k, body), committed(mid, new, initiated, body, key)]
        advanced(old, mid, k, body) && committed(mid, new, initiated, body, key)
}

/// After every accepted partial upload the session holds exactly one
/// rendezvous key per accepted part: `len(part_etag) == part_number + 1`,
/// and a multipart upload exists.
pub proof fn law_part_keeps_counter(
    old: UploadSession,
    mid: UploadSession,
    new: UploadSession,
    k: u32,
    body: Seq<u8>,
    initiated: Option<String>,
    key: String,
)
    requires
        old.wf(),
        advanced(old, mid, k, body),
        committed(mid, new, initiated, body, key),
        old.part_number is None ==> initiated is Some,
    ensures
        new.wf(),
        new.part_number == Some(k),
        new.part_etag@.len() == k + 1,
{
}

/// The content type is decided by the first accepted part: it is what
/// negotiation gives for that part's bytes, and no later part changes it.
pub proof fn law_content_type_fixed(
    old: UploadSession,
    mid: UploadSession,
    new: UploadSession,
    k: u32,
    body: Seq<u8>,
    initiated: Option<String>,
    key: String,
)
    requires
        advanced(old, mid, k, body),
        committed(mid, new, initiated, body, key),
    ensures
        old.part_number is None ==> (new.content_type@, option_view(&new.ext)) == classify_bytes_spec(body),
        old.part_number is Some ==> new.content_type == old.content_type && new.ext == old.ext,
{
}

/// The content of a session that went through a series of accepted partial
/// uploads is the concatenation of their bodies in order, its length is
/// their total size, and the MD5 that finish-upload registers is the MD5
/// of that concatenation.
pub proof fn law_parts_concatenate(sessions: Seq<UploadSession>, bodies: Seq<Seq<u8>>)
    requires
        sessions.len() == bodies.len() + 1,
        sessions[0].content() == Seq::<u8>::empty(),
        sessions[0].content_length == 0,
        forall|i: int| 0 <= i < bodies.len() ==> #[trigger] part_round(sessions[i], sessions[i + 1], bodies[i]),
    ensures
        sessions.last().content() == bodies.flatten(),
        sessions.last().content_length == bodies.flatten().len(),
        forall|req: RegisterRequest, base_url: Seq<char>, i: String, media: Option<FileMetaData>, thumb: Option<String>|
            #[trigger] finish_registration_spec(req, sessions.last(), base_url, i, media, thumb) ==> req.md5@
                == hex_lower(md5_digest(bodies.flatten())) && req.size == bodies.flatten().len(),
    decreases bodies.len(),
{
    if bodies.len() > 0 {
        let n = bodies.len() - 1;
        let front = sessions.drop_last();
        let firsts = bodies.drop_last();
        assert forall|i: int| 0 <= i < firsts.len() implies #[trigger] part_round(front[i], front[i + 1], firsts[i]) by {
            assert(part_round(sessions[i], sessions[i + 1], bodies[i]));
        }
        law_parts_concatenate(front, firsts);
        assert(part_round(sessions[n], sessions[n + 1], bodies[n]));
        let (mid, k, initiated, key) = choose|mid: UploadSession, k: u32, initiated: Option<String>, key: String|
            #![trigger advanced(sessions[n], mid, k, bodies[n]), committed(mid, sessions[n + 1], initiated, bodies[n], key)]
            advanced(sessions[n], mid, k, bodies[n]) && committed(mid, sessions[n + 1], initiated, bodies[n], key);
        assert(firsts.push(bodies[n]) =~= bodies);
        firsts.lemma_flatten_push(bodies[n]);
        assert(front.last() == sessions[n]);
    }
}

/// One accepted partial upload as the service performs it: the part is
/// admitted, a multipart upload id is supplied for a first part, and the
/// part is recorded under a rendezvous key.
pub open spec fn keyed_round(old: UploadSession, new: UploadSession, body: Seq<u8>) -> bool {
    exists|mid: UploadSession, k: u32, initiated: Option<String>, key: String|
        #![trigger advanced(old, mid, k, body), committed(mid, new, initiated, body, key)]
        advanced(old, mid, k, body) && committed(mid, new, initiated, body, key) && is_rendezvous_key(key@)
            && (old.part_number is None ==> initiated is Some)
}

/// After any series of accepted partial uploads on a fresh session, the
/// session is well formed, holds one rendezvous key per part, all of them
/// rendezvous keys, and its counter is the index of the last part.
pub proof fn law_keys_follow_parts(sessions: Seq<UploadSession>, bodies: Seq<Seq<u8>>)
    requires
        sessions.len() == bodies.len() + 1,
        sessions[0].wf(),
        sessions[0].part_number is None,
        forall|i: int| 0 <= i < bodies.len() ==> #[trigger] keyed_round(sessions[i], sessions[i + 1], bodies[i]),
    ensures
        sessions.last().wf(),
        sessions.last().part_etag@.len() == bodies.len(),
        bodies.len() > 0 ==> sessions.last().part_number == Some((bodies.len() - 1) as u32),
        forall|j: int| 0 <= j < bodies.len() ==> is_rendezvous_key(#[trigger] sessions.last().part_etag@[j]@),
    decreases bodies.len(),
{
    if bodies.len() > 0 {
        let n = bodies.len() - 1;
        let front = sessions.drop_last();
        let firsts = bodies.drop_last();
        assert forall|i: int| 0 <= i < firsts.len() implies #[trigger] keyed_round(front[i], front[i + 1], firsts[i]) by {
            assert(keyed_round(sessions[i], sessions[i + 1], bodies[i]));
        }
        law_keys_follow_parts(front, firsts);
        assert(front.last() == sessions[n]);
        assert(keyed_round(sessions[n], sessions[n + 1], bodies[n]));
        let (mid, k, initiated, key) = choose|mid: UploadSession, k: u32, initiated: Option<String>, key: String|
            #![trigger advanced(sessions[n], mid, k, bodies[n]), committed(mid, sessions[n + 1], initiated, bodies[n], key)]
            advanced(sessions[n], mid, k, bodies[n]) && committed(mid, sessions[n + 1], initiated, bodies[n], key)
                && is_rendezvous_key(key@) && (sessions[n].part_number is None ==> initiated is Some);
        law_part_keeps_counter(sessions[n], mid, sessions[n + 1], k, bodies[n], initiated, key);
        assert forall|j: int| 0 <= j < bodies.len() implies is_rendezvous_key(#[trigger] sessions.last().part_etag@[j]@) by {
            if j < n {
                assert(sessions.last().part_etag@[j] == sessions[n].part_etag@[j]);
            }
        }
    }
}

/// Finishing a session that went through a series of accepted partial
/// uploads completes the multipart upload with one part per upload,
/// numbered from 1 in order, and registers the total size and the MD5 of
/// the bodies concatenated in order.
pub proof fn law_finish_after_parts(
    sessions: Seq<UploadSession>,
    bodies: Seq<Seq<u8>>,
    parts: Seq<(u32, String)>,
    req: RegisterRequest,
    base_url: Seq<char>,
    i: String,
    media: Option<FileMetaData>,
    thumb: Option<String>,
)
    requires
        sessions.len() == bodies.len() + 1,
        sessions[0].wf(),
        sessions[0].part_number is None,
        sessions[0].content() == Seq::<u8>::empty(),
        sessions[0].content_length == 0,
        forall|j: int| 0 <= j < bodies.len() ==> #[trigger] keyed_round(sessions[j], sessions[j + 1], bodies[j]),
        numbered_parts(parts),
        parts.len() == sessions.last().part_etag@.len(),
        finish_registration_spec(req, sessions.last(), base_url, i, media, thumb),
    ensures
        parts.len() == bodies.len(),
        forall|j: int| 0 <= j < parts.len() ==> (#[trigger] parts[j]).0 == j + 1 && parts[j].1@.len() > 0,
        req.size == bodies.flatten().len(),
        req.md5@ == hex_lower(md5_digest(bodies.flatten())),
{
    law_keys_follow_parts(sessions, bodies);
    assert forall|j: int| 0 <= j < bodies.len() implies #[trigger] part_round(sessions[j], sessions[j + 1], bodies[j]) by {
        assert(keyed_round(sessions[j], sessions[j + 1], bodies[j]));
    }
    law_parts_concatenate(sessions, bodies);
}

/// The coordination cache's atomic get-and-delete: the cache without the
/// key, and the record that was under it.
pub open spec fn take_record(
    cache: Map<Seq<char>, Seq<char>>,
    key: Seq<char>,
) -> (Map<Seq<char>, Seq<char>>, Option<Seq<char>>) {
    if cache.contains_key(key) {
        (cache.remove(key), Some(cache[key]))
    } else {
        (cache, None)
    }
}

/// Of two requests that consume the same stored session, whichever comes
/// second finds no record and is refused with 403; exactly one gets it.
pub proof fn law_single_consumer(cache: Map<Seq<char>, Seq<char>>, key: Seq<char>)
    requires
        cache.contains_key(key),
    ensures
        take_record(cache, key).1 is Some,
        take_record(take_record(cache, key).0, key).1 is None,
        lookup_result_spec(SessionLookup::Missing) == Err::<UploadSession, UploadError>(UploadError::SessionMissing),
        status_spec(UploadError::SessionMissing) == 403,
{
}

/// A video for which no frame could be analysed, as when no transcoder is
/// configured, is registered with no dimensions, no blurhash, no
/// thumbnail, and not sensitive.
pub proof fn law_video_without_frame(
    req: RegisterRequest,
    session: UploadSession,
    base_url: Seq<char>,
    i: String,
)
    requires
        finish_registration_spec(req, session, base_url, i, None, None),
    ensures
        req.width == 0,
        req.height == 0,
        req.blurhash is None,
        req.thumbnail_key is None,
        !req.maybe_sensitive,
{
}

} // verus!
