use base64::Engine;
use sha2::Digest;
use upload_service::config::ResizeKernel;
use upload_service::backend::{PreflightResponse, RegisterRequest};
use upload_service::config::{Backend, ConfigFile, FilterType, RedisConfig, S3Config};
use upload_service::digest::session_key;
use upload_service::preflight::{plan_session, RequestParams};
use upload_service::session::UploadSession;

fn config(ffmpeg: Option<&str>) -> ConfigFile {
    ConfigFile {
        bind_addr: "0.0.0.0:12200".to_string(),
        public_base_url: "https://files.example.com/".to_string(),
        prefix: "prefix".to_string(),
        thumbnail_filter: FilterType::Lanczos3,
        thumbnail_quality: 50f32.to_bits(),
        allow_origin: "http://localhost:3000".to_string(),
        ffmpeg: ffmpeg.map(|s| s.to_string()),
        ffmpeg_base_url: None,
        s3: S3Config {
            endpoint: "localhost:9000".to_string(),
            bucket: "files".to_string(),
            region: "us-east-1".to_string(),
            access_key: "example-user".to_string(),
            secret_key: "example-password".to_string(),
            timeout: 5000,
            path_style: true,
        },
        redis: RedisConfig { endpoint: "localhost:6379".to_string(), session_ttl: 600 },
        part_max_size: 10 * 1024 * 1024,
        max_size: 20 * 1024 * 1024,
        backend: Backend { endpoint: "http://localhost:3000/api".to_string(), key: "k".to_string() },
    }
}

fn params() -> RequestParams {
    RequestParams {
        i: "tok".to_string(),
        content_length: Some(15000000),
        folder_id: None,
        name: Some("clip.png".to_string()),
        is_sensitive: false,
        comment: None,
        force: false,
    }
}

fn answer() -> PreflightResponse {
    PreflightResponse {
        skip_sensitive_detection: false,
        sensitive_threshold: 0.5f32.to_bits(),
        enable_sensitive_media_detection_for_videos: false,
        detected_name: "clip.png".to_string(),
    }
}

fn fresh_session() -> UploadSession {
    plan_session(params(), answer(), "prefix", 10 * 1024 * 1024, "sid".to_string(), "obj").session
}

#[test]
fn preflight_scenario_allows_upload() {
    let cfg = config(None);
    let plan = plan_session(params(), answer(), &cfg.prefix, cfg.part_max_size, "0b7c".to_string(), "obj");
    assert!(plan.response.allow_upload);
    assert_eq!(plan.response.min_split_size, 5242880);
    assert_eq!(plan.response.max_split_size, cfg.part_max_size);
    assert_eq!(plan.response.session_id, "0b7c");
    assert_eq!(plan.session.s3_key, "prefix/obj");
    assert_eq!(plan.session.content_type, "application/octet-stream");
    assert!(plan.session.part_number.is_none());
    assert!(plan.session.upload_id.is_none());
    assert_eq!(plan.session.name, "clip.png");
    let refused = plan.response.refused();
    assert!(!refused.allow_upload);
    assert_eq!(refused.session_id, "0b7c");
}

#[test]
fn session_key_is_hash_image_of_id() {
    let id = "3f1c1b9e-7c3e-4f57-9d0c-1d2b3c4d5e6f";
    let expected =
        base64::engine::general_purpose::URL_SAFE_NO_PAD.encode(sha2::Sha256::digest(id.as_bytes()));
    let key = session_key(id);
    assert_eq!(key, expected);
    assert_ne!(key, id);
    assert!(!key.contains(id));
    assert_eq!(key.len(), 43);
    let plan = plan_session(params(), answer(), "prefix", 1, id.to_string(), "obj");
    assert_eq!(plan.cache_key, expected);
}

#[test]
fn open_session_uses_fresh_ids() {
    let cfg = config(None);
    let a = upload_service::preflight::open_session(params(), answer(), &cfg);
    let b = upload_service::preflight::open_session(params(), answer(), &cfg);
    assert_ne!(a.response.session_id, b.response.session_id);
    assert!(a.session.s3_key.starts_with("prefix/"));
    assert_eq!(a.session.s3_key.len(), "prefix/".len() + 36);
    assert_eq!(a.cache_key, session_key(&a.response.session_id));
    assert_eq!(a.cache_key.len(), 43);
    assert_eq!(a.response.session_id.len(), 36);
    assert_eq!(a.session.name, "clip.png");
    assert!(!a.session.force);
    assert!(a.session.comment.is_none());
    assert_eq!(a.session.content_type, "application/octet-stream");
}

#[test]
fn preflight_request_carries_params() {
    let p = params();
    let r = upload_service::preflight::preflight_request(&p);
    assert_eq!(r.i.as_deref(), Some("tok"));
    assert_eq!(r.size, 15000000);
    assert_eq!(r.name.as_deref(), Some("clip.png"));
    assert!(r.upload_service_key.is_none());
    let mut q = params();
    q.content_length = None;
    assert_eq!(upload_service::preflight::preflight_request(&q).size, 0);
}

#[test]
fn fresh_session_is_well_formed() {
    let s = fresh_session();
    assert!(s.is_well_formed());
    assert_eq!(s.content_length, 0);
    assert!(s.part_etag.is_empty());
}

#[test]
fn cors_headers_are_stamped() {
    let cfg = config(None);
    let h = cfg.cors_headers();
    assert_eq!(h.len(), 2);
    assert_eq!(h[0], ("Access-Control-Allow-Origin".to_string(), "http://localhost:3000".to_string()));
    assert_eq!(h[1], ("Access-Control-Allow-Headers".to_string(), "Origin, Authorization".to_string()));
}

#[test]
fn filter_kernels() {
    assert_eq!(FilterType::Nearest.kernel(), ResizeKernel::Box);
    assert_eq!(FilterType::Triangle.kernel(), ResizeKernel::Bilinear);
    assert_eq!(FilterType::CatmullRom.kernel(), ResizeKernel::CatmullRom);
    assert_eq!(FilterType::Gaussian.kernel(), ResizeKernel::Mitchell);
    assert_eq!(FilterType::Lanczos3.kernel(), ResizeKernel::Lanczos3);
}

#[test]
fn transcoder_absent_or_empty_gives_nothing() {
    let cfg = config(None);
    assert!(upload_service::file_meta::transcoder_command(&cfg, "prefix/a.mp4").is_none());
    let cfg = config(Some(""));
    assert!(upload_service::file_meta::transcoder_command(&cfg, "prefix/a.mp4").is_none());
}

#[test]
fn transcoder_reads_first_frame() {
    let mut cfg = config(Some("ffmpeg"));
    let c = upload_service::file_meta::transcoder_command(&cfg, "prefix/a.mp4").unwrap();
    assert_eq!(c.program, "ffmpeg");
    assert_eq!(
        c.args,
        vec!["-loglevel", "quiet", "-i", "https://files.example.com/prefix/a.mp4", "-frames:v", "1", "-f", "image2pipe", "-"]
    );
    cfg.ffmpeg_base_url = Some("http://minio:9000/files/".to_string());
    let c = upload_service::file_meta::transcoder_command(&cfg, "prefix/a.mp4").unwrap();
    assert_eq!(c.args[3], "http://minio:9000/files/prefix/a.mp4");
}

#[test]
fn video_without_transcoder_registers_no_media() {
    let cfg = config(None);
    assert!(upload_service::file_meta::transcoder_command(&cfg, "prefix/v").is_none());
    let mut s = fresh_session();
    s.content_type = "video/mp4".to_string();
    let req: RegisterRequest =
        upload_service::finish_upload::finish_registration(s, &cfg.public_base_url, "tok".to_string(), None, None);
    assert_eq!(req.width, 0);
    assert_eq!(req.height, 0);
    assert!(req.blurhash.is_none());
    assert!(req.thumbnail_key.is_none());
    assert!(!req.maybe_sensitive);
    assert_eq!(req.content_type, "video/mp4");
}
