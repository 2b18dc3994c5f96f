//! The service configuration.
use vstd::prelude::*;
use crate::text::text_of;

verus! {

/// The resampling filter named in the configuration.
#[derive(Clone, Copy, Debug, PartialEq, Eq, Structural)]
pub enum FilterType {
    Nearest,
    Triangle,
    CatmullRom,
    Gaussian,
    Lanczos3,
}

/// The convolution kernel that performs a resize.
#[derive(Clone, Copy, Debug, PartialEq, Eq, Structural)]
pub enum ResizeKernel {
    Box,
    Bilinear,
    CatmullRom,
    Mitchell,
    Lanczos3,
}

/// The kernel that each configured filter resizes with.
pub open spec fn kernel_spec(f: FilterType) -> ResizeKernel {
    match f {
        FilterType::Nearest => ResizeKernel::Box,
        FilterType::Triangle => ResizeKernel::Bilinear,
        FilterType::CatmullRom => ResizeKernel::CatmullRom,
        FilterType::Gaussian => ResizeKernel::Mitchell,
        FilterType::Lanczos3 => ResizeKernel::Lanczos3,
    }
}

impl FilterType {
    /// The convolution kernel this filter resizes with.
    pub fn kernel(self) -> (r: ResizeKernel)
        ensures
            r == kernel_spec(self),
    {
        match self {
            FilterType::Nearest => ResizeKernel::Box,
            FilterType::Triangle => ResizeKernel::Bilinear,
            FilterType::CatmullRom => ResizeKernel::CatmullRom,
            FilterType::Gaussian => ResizeKernel::Mitchell,
            FilterType::Lanczos3 => ResizeKernel::Lanczos3,
        }
    }
}

/// Where the backend service is and the secret shared with it.
#[derive(Clone, Debug)]
pub struct Backend {
    pub endpoint: String,
    pub key: String,
}

/// The object store.
#[derive(Clone, Debug)]
pub struct S3Config {
    pub endpoint: String,
    pub bucket: String,
    pub region: String,
    pub access_key: String,
    pub secret_key: String,
    pub timeout: u64,
    pub path_style: bool,
}

/// The coordination cache, and how long an active session lives in it.
#[derive(Clone, Debug)]
pub struct RedisConfig {
    pub endpoint: String,
    pub session_ttl: u64,
}

/// The whole configuration. `thumbnail_quality` is the bit pattern of the
/// `f32` WebP quality (0 to 100); the library only carries it.
#[derive(Clone, Debug)]
pub struct ConfigFile {
    pub bind_addr: String,
    pub public_base_url: String,
    pub prefix: String,
    pub thumbnail_filter: FilterType,
    pub thumbnail_quality: u32,
    pub allow_origin: String,
    pub ffmpeg: Option<String>,
    pub ffmpeg_base_url: Option<String>,
    pub s3: S3Config,
    pub redis: RedisConfig,
    pub part_max_size: u64,
    pub max_size: u64,
    pub backend: Backend,
}

impl ConfigFile {
    /// The CORS headers that every response carries, as name and value.
    pub fn cors_headers(&self) -> (r: Vec<(String, String)>)
        ensures
            r@.len() == 2,
            r@[0].0@ == "Access-Control-Allow-Origin"@,
            r@[0].1@ == self.allow_origin@,
            r@[1].0@ == "Access-Control-Allow-Headers"@,
            r@[1].1@ == "Origin, Authorization"@,
    {
        let mut v: Vec<(String, String)> = Vec::new();
        v.push((text_of("Access-Control-Allow-Origin"), self.allow_origin.clone()));
        v.push((text_of("Access-Control-Allow-Headers"), text_of("Origin, Authorization")));
        v
    }
}

} // verus!
