use upload_service::backend::PreflightResponse;
use upload_service::error::UploadError;
use upload_service::finish_upload::{
    begin_finish, check_part_count, completion, finish_registration, CollectStep, PartCollector, SlotRead,
};
use upload_service::partial_upload::{
    append_body_chunk, new_rendezvous_key, rendezvous_key_for, rendezvous_value, PartUpload,
};
use upload_service::preflight::{plan_session, RequestParams};
use upload_service::session::{bearer_session_id, check_session_exists, resolve_lookup, SessionLookup, UploadSession};

const MIB: usize = 1024 * 1024;

fn fresh_session() -> UploadSession {
    let params = RequestParams {
        i: "tok".to_string(),
        content_length: Some(15000000),
        folder_id: Some("f1".to_string()),
        name: None,
        is_sensitive: false,
        comment: Some("hello".to_string()),
        force: true,
    };
    let answer = PreflightResponse {
        skip_sensitive_detection: false,
        sensitive_threshold: 0.5f32.to_bits(),
        enable_sensitive_media_detection_for_videos: false,
        detected_name: "photo one.png".to_string(),
    };
    plan_session(params, answer, "prefix", 10 * MIB as u64, "sid".to_string(), "obj").session
}

fn png_part(len: usize) -> Vec<u8> {
    let mut v = vec![0x89, 0x50, 0x4E, 0x47, 0x0D, 0x0A, 0x1A, 0x0A, 0, 0, 0, 13, b'I', b'H', b'D', b'R'];
    v.resize(len, 7);
    v
}

fn accept(session: &mut UploadSession, k: u32, body: &[u8], upload_id: &str) -> PartUpload {
    let first = session.advance_part(k, body).unwrap();
    let initiated = first.map(|_| upload_id.to_string());
    session.commit_part(initiated, body, new_rendezvous_key())
}

fn collect(session: &UploadSession, etags: &[&str]) -> CollectStep {
    let mut step = begin_finish(session).unwrap();
    for e in etags {
        step = match step {
            CollectStep::Read { collector, .. } => collector.on_read(SlotRead::Value(e.to_string())),
            other => return other,
        };
    }
    step
}

#[test]
fn first_part_zero_accepted_one_refused() {
    let mut s = fresh_session();
    let r = s.advance_part(1, &[1, 2, 3]);
    assert_eq!(r, Err(UploadError::PartOrderViolation));
    assert_eq!(UploadError::PartOrderViolation.status(), 400);
    assert!(s.part_number.is_none());
    let r = s.advance_part(0, &[1, 2, 3]);
    assert!(r.is_ok());
    assert_eq!(s.part_number, Some(0));
}

#[test]
fn later_parts_must_follow_in_order() {
    let mut s = fresh_session();
    accept(&mut s, 0, &[1], "up");
    assert_eq!(s.advance_part(0, &[2]), Err(UploadError::PartOrderViolation));
    assert_eq!(s.advance_part(2, &[2]), Err(UploadError::PartOrderViolation));
    assert_eq!(s.advance_part(1, &[2]), Ok(None));
    assert_eq!(s.part_number, Some(1));
}

#[test]
fn body_limit_is_inclusive() {
    let max = 16u64;
    let mut body = vec![];
    assert_eq!(append_body_chunk(&mut body, &[1u8; 10], max), Ok(()));
    assert_eq!(append_body_chunk(&mut body, &[2u8; 6], max), Ok(()));
    assert_eq!(body.len(), 16);
    assert_eq!(append_body_chunk(&mut body, &[3u8; 1], max), Err(UploadError::PayloadTooLarge));
    assert_eq!(body.len(), 16);
    assert_eq!(UploadError::PayloadTooLarge.status(), 413);
    let mut empty = vec![];
    assert_eq!(append_body_chunk(&mut empty, &[0u8; 17], max), Err(UploadError::PayloadTooLarge));
    assert!(empty.is_empty());
}

#[test]
fn first_png_part_sets_type_and_upload() {
    let mut s = fresh_session();
    let body = png_part(5 * MIB);
    let first = s.advance_part(0, &body).unwrap();
    assert_eq!(first.as_deref(), Some("image/png"));
    assert_eq!(s.content_type, "image/png");
    assert_eq!(s.ext.as_deref(), Some(".png"));
    let up = s.commit_part(Some("upload-1".to_string()), &body, rendezvous_key_for("r0"));
    assert_eq!(s.upload_id.as_deref(), Some("upload-1"));
    assert_eq!(up.part_number, 1);
    assert_eq!(up.upload_id, "upload-1");
    assert_eq!(up.content_type, "image/png");
    assert_eq!(up.s3_key, "prefix/obj");
    assert_eq!(up.rendezvous_key, "s3_wait_etag:r0");
    assert_eq!(s.part_etag, vec!["s3_wait_etag:r0".to_string()]);
    assert_eq!(s.content_length, 5 * MIB as u64);
    assert!(s.is_well_formed());
}

#[test]
fn later_part_keeps_first_type() {
    let mut s = fresh_session();
    accept(&mut s, 0, &png_part(64), "up");
    let gif = b"GIF89a\x01\x00\x01\x00".to_vec();
    let up = accept(&mut s, 1, &gif, "ignored");
    assert_eq!(s.content_type, "image/png");
    assert_eq!(s.ext.as_deref(), Some(".png"));
    assert_eq!(s.upload_id.as_deref(), Some("up"));
    assert_eq!(up.part_number, 2);
    assert_eq!(s.part_etag.len(), 2);
    assert_eq!(s.part_number, Some(1));
}

#[test]
fn counter_matches_keys_after_each_part() {
    let mut s = fresh_session();
    for k in 0..5u32 {
        accept(&mut s, k, &[k as u8; 3], "up");
        assert_eq!(s.part_etag.len() as u32, s.part_number.unwrap() + 1);
        assert!(s.is_well_formed());
    }
    assert_eq!(s.content_length, 15);
}

#[test]
fn consumed_session_is_forbidden() {
    let r = resolve_lookup(SessionLookup::Missing);
    assert_eq!(r.err(), Some(UploadError::SessionMissing));
    assert_eq!(UploadError::SessionMissing.status(), 403);
    assert_eq!(resolve_lookup(SessionLookup::Unreadable).err(), Some(UploadError::CorruptSession));
    assert_eq!(UploadError::CorruptSession.status(), 500);
    assert!(resolve_lookup(SessionLookup::Found(fresh_session())).is_ok());
    let mut bad = fresh_session();
    bad.part_number = Some(3);
    assert_eq!(resolve_lookup(SessionLookup::Found(bad)).err(), Some(UploadError::CorruptSession));
}

#[test]
fn two_consumers_one_wins() {
    let mut cache = std::collections::HashMap::new();
    cache.insert("key".to_string(), "record".to_string());
    let first = match cache.remove("key") {
        Some(_) => resolve_lookup(SessionLookup::Found(fresh_session())).map(|_| 204u16).unwrap(),
        None => resolve_lookup(SessionLookup::Missing).err().unwrap().status(),
    };
    let second = match cache.remove("key") {
        Some(_) => 204u16,
        None => resolve_lookup(SessionLookup::Missing).err().unwrap().status(),
    };
    assert_eq!((first, second), (204, 403));
}

#[test]
fn bearer_header_parsing() {
    assert_eq!(bearer_session_id(Some("Bearer abc-123")), Ok("abc-123".to_string()));
    assert_eq!(bearer_session_id(Some("Bearer ")), Ok(String::new()));
    assert_eq!(bearer_session_id(Some("bearer abc")), Err(UploadError::AuthMalformed));
    assert_eq!(bearer_session_id(Some("Token abc")), Err(UploadError::AuthMalformed));
    assert_eq!(bearer_session_id(None), Err(UploadError::AuthMissing));
    assert_eq!(UploadError::AuthMalformed.status(), 400);
    assert_eq!(UploadError::AuthMissing.status(), 403);
}

#[test]
fn finish_two_parts_completes_in_order() {
    let mut s = fresh_session();
    let a = png_part(5 * MIB);
    let b = vec![9u8; 5 * MIB];
    accept(&mut s, 0, &a, "upload-9");
    accept(&mut s, 1, &b, "unused");
    let parts = match collect(&s, &["etag0", "etag1"]) {
        CollectStep::Complete { parts } => parts,
        _ => panic!("collection did not complete"),
    };
    assert_eq!(parts, vec![(1, "etag0".to_string()), (2, "etag1".to_string())]);
    assert_eq!(check_part_count(&s, &parts), Ok(()));
    let c = completion(&s, parts).ok().unwrap();
    assert_eq!(c.s3_key, "prefix/obj");
    assert_eq!(c.upload_id, "upload-9");
    assert_eq!(c.cache_control, "max-age=31536000, immutable");
    assert_eq!(c.content_disposition, "inline; filename=\"photo%20one%2Epng\"");
    let mut whole = a.clone();
    whole.extend_from_slice(&b);
    let expected = format!("{:x}", md5::compute(&whole));
    let req = finish_registration(s, "https://files.example.com/", "tok".to_string(), None, None);
    assert_eq!(req.size, 10485760);
    assert_eq!(req.md5, expected);
    assert_eq!(req.access_key, "prefix/obj");
    assert_eq!(req.content_type, "image/png");
    assert_eq!(req.folder_id.as_deref(), Some("f1"));
    assert_eq!(req.comment.as_deref(), Some("hello"));
    assert_eq!(req.name, "photo one.png");
    assert_eq!(req.i.as_deref(), Some("tok"));
    assert!(req.force);
    assert!(req.upload_service_key.is_none());
}

#[test]
fn concatenation_of_parts_is_hashed() {
    let bodies: Vec<Vec<u8>> = vec![b"hello ".to_vec(), vec![], b"world".to_vec(), vec![0xff; 70]];
    let mut s = fresh_session();
    for (k, b) in bodies.iter().enumerate() {
        accept(&mut s, k as u32, b, "up");
    }
    let whole: Vec<u8> = bodies.concat();
    let req = finish_registration(s, "", "tok".to_string(), None, None);
    assert_eq!(req.md5, format!("{:x}", md5::compute(&whole)));
    assert_eq!(req.size, whole.len() as u64);
}

#[test]
fn empty_slot_aborts() {
    let mut s = fresh_session();
    accept(&mut s, 0, &[1], "up");
    accept(&mut s, 1, &[2], "up");
    assert!(matches!(collect(&s, &["etag0", ""]), CollectStep::Abort));
    assert!(matches!(collect(&s, &[""]), CollectStep::Abort));
}

#[test]
fn unreadable_slot_retried_then_aborted() {
    let mut s = fresh_session();
    accept(&mut s, 0, &[1], "up");
    let key = s.part_etag[0].clone();
    let mut step = begin_finish(&s).unwrap();
    for n in 0..600 {
        step = match step {
            CollectStep::Read { collector, key: k, wait } => {
                assert_eq!(k, key);
                assert_eq!(wait, n > 0);
                collector.on_read(SlotRead::Unavailable)
            },
            _ => panic!("gave up too early"),
        };
    }
    let after_retries = match step {
        CollectStep::Read { collector, wait, .. } => {
            assert!(wait);
            assert_eq!(collector.failures, 600);
            collector
        },
        _ => panic!("gave up too early"),
    };
    let again = PartCollector { keys: after_retries.keys, parts: after_retries.parts, failures: 600 };
    assert!(matches!(again.on_read(SlotRead::Unavailable), CollectStep::Abort));
}

#[test]
fn finish_without_parts_refused() {
    let s = fresh_session();
    assert_eq!(begin_finish(&s).err(), Some(UploadError::NothingUploaded));
    assert_eq!(check_part_count(&s, &vec![]), Err(UploadError::NothingUploaded));
    assert_eq!(UploadError::NothingUploaded.status(), 400);
    assert_eq!(completion(&s, vec![]).err(), Some(UploadError::ObjectStoreFailure));
}

#[test]
fn part_count_mismatch_refused() {
    let mut s = fresh_session();
    accept(&mut s, 0, &[1], "up");
    accept(&mut s, 1, &[2], "up");
    let one = vec![(1u32, "e".to_string())];
    assert_eq!(check_part_count(&s, &one), Err(UploadError::PartCountMismatch));
    let three = vec![(1u32, "a".to_string()), (2, "b".to_string()), (3, "c".to_string())];
    assert_eq!(check_part_count(&s, &three), Err(UploadError::PartCountMismatch));
    assert_eq!(UploadError::PartCountMismatch.status(), 400);
}

#[test]
fn abort_after_first_part_targets_upload() {
    let mut s = fresh_session();
    assert!(upload_service::abort::abort_target(&s).is_none());
    accept(&mut s, 0, &png_part(32), "upload-7");
    assert_eq!(
        upload_service::abort::abort_target(&s),
        Some(("prefix/obj".to_string(), "upload-7".to_string()))
    );
}

#[test]
fn rendezvous_keys_and_values() {
    let k = new_rendezvous_key();
    assert!(k.starts_with("s3_wait_etag:"));
    assert_eq!(k.len(), "s3_wait_etag:".len() + 36);
    assert_ne!(k, new_rendezvous_key());
    assert_eq!(rendezvous_value(Some("\"abc\"".to_string())), "\"abc\"");
    assert_eq!(rendezvous_value(None), "");
    assert_eq!(upload_service::partial_upload::RENDEZVOUS_TTL_SECONDS, 86400);
}

#[test]
fn existence_check_before_body() {
    assert_eq!(check_session_exists(&SessionLookup::Missing), Err(UploadError::UnknownSession));
    assert_eq!(UploadError::UnknownSession.status(), 400);
    assert_eq!(check_session_exists(&SessionLookup::Unreadable), Err(UploadError::CorruptSession));
    assert_eq!(check_session_exists(&SessionLookup::Found(fresh_session())), Ok(()));
}

#[test]
fn repeated_first_part_on_stored_session_is_out_of_order() {
    let mut s = fresh_session();
    accept(&mut s, 0, &png_part(64), "up");
    assert_eq!(s.advance_part(0, &png_part(64)), Err(UploadError::PartOrderViolation));
    assert_eq!(s.part_etag.len(), 1);
}
