//! Media metadata: the decisions around image analysis (sensitivity
//! verdict, blurhash, thumbnail bounds) and the transcoder invocation that
//! extracts a video's first frame.
use vstd::prelude::*;
use crate::config::ConfigFile;
use crate::text::{push_text, starts_with_text, text_of};

verus! {

/// What analysis of an upload found.
#[derive(Debug)]
pub struct FileMetaData {
    /// Whether the media may be sensitive; `None` where detection was
    /// skipped or the model gave no answer.
    pub maybe_sensitive: Option<bool>,
    pub blurhash: Option<String>,
    pub width: u32,
    pub height: u32,
    /// The WebP thumbnail.
    pub thumbnail: Option<Vec<u8>>,
}

impl FileMetaData {
    /// Metadata that says nothing.
    pub open spec fn is_empty(&self) -> bool {
        &&& self.maybe_sensitive is None
        &&& self.blurhash is None
        &&& self.width == 0
        &&& self.height == 0
        &&& self.thumbnail is None
    }
}

impl Default for FileMetaData {
    fn default() -> (r: Self)
        ensures
            r.is_empty(),
    {
        FileMetaData { maybe_sensitive: None, blurhash: None, width: 0, height: 0, thumbnail: None }
    }
}

/// The side length of the square preview that the classifier and the
/// blurhash are computed on.
pub const PREVIEW_SIZE: u32 = 224;

/// The side of the square that thumbnails are fitted into.
pub const THUMBNAIL_SIZE: u32 = 2048;

/// The classes that the sensitivity classifier scores.
#[derive(Clone, Copy, Debug, PartialEq, Eq, Structural)]
pub enum NsfwClass {
    Drawings,
    Neutral,
    Hentai,
    Porn,
    Sexy,
}

/// The classes whose score can make media sensitive.
pub open spec fn counts_as_sensitive(c: NsfwClass) -> bool {
    c is Hentai || c is Porn || c is Sexy
}

/// Whether some class that counts scored above the threshold.
pub open spec fn verdict_spec(scores: Seq<(NsfwClass, bool)>) -> bool {
    exists|i: int| 0 <= i < scores.len() && counts_as_sensitive(#[trigger] scores[i].0) && scores[i].1
}

/// The sensitivity verdict from the classifier's scores, each given with
/// whether it lies above the threshold: sensitive iff `Hentai`, `Porn` or
/// `Sexy` does; `Drawings` and `Neutral` are ignored.
pub fn sensitivity_verdict(scores: &Vec<(NsfwClass, bool)>) -> (r: bool)
    ensures
        r == verdict_spec(scores@),
{
    let mut i: usize = 0;
    while i < scores.len()
        invariant
            i <= scores@.len(),
            forall|j: int| 0 <= j < i ==> !(counts_as_sensitive(#[trigger] scores@[j].0) && scores@[j].1),
        decreases scores@.len() - i,
    {
        let (class, above) = scores[i];
        let counts = match class {
            NsfwClass::Hentai | NsfwClass::Porn | NsfwClass::Sexy => true,
            NsfwClass::Drawings | NsfwClass::Neutral => false,
        };
        if counts && above {
            assert(counts_as_sensitive(scores@[i as int].0) && scores@[i as int].1);
            return true;
        }
        i = i + 1;
    }
    false
}

/// Relies on `blurhash::encode` with 5 by 5 components, which lie in its
/// accepted range, so it always succeeds; it reads four bytes per pixel and
/// computes `4 * width` and `width * height` in `u32`. Its characters come
/// from floating-point cosines and powers whose precision std leaves to the
/// platform, so only the length is promised: a size flag, a maximum, four
/// characters of DC and two for each of the 24 AC components.
#[verifier::external_body]
fn blurhash_5x5(width: u32, height: u32, rgba: &[u8]) -> (r: Option<String>)
    requires
        1 <= width,
        1 <= height,
        rgba@.len() == 4 * width * height,
        4 * width * height <= u32::MAX,
    ensures
        r is Some,
        r->0@.len() == 54,
{
    blurhash::encode(5, 5, width, height, rgba).ok()
}

/// The preview: the image resized to `PREVIEW_SIZE` square with alpha
/// premultiplied, four bytes per pixel, row by row.
pub struct Preview {
    pub width: u32,
    pub height: u32,
    pub rgba: Vec<u8>,
}

impl Preview {
    /// The image is not empty and the pixel buffer matches its size.
    pub open spec fn wf(&self) -> bool {
        &&& 1 <= self.width
        &&& 1 <= self.height
        &&& self.rgba@.len() == 4 * self.width * self.height
        &&& 4 * self.width * self.height <= u32::MAX
    }

    /// Whether the image is not empty and the pixel buffer matches its size.
    pub fn is_well_formed(&self) -> (r: bool)
        ensures
            r == self.wf(),
    {
        let w = self.width as u64;
        let h = self.height as u64;
        assert(w * h <= 0xffff_ffff * 0xffff_ffff) by (nonlinear_arith)
            requires
                w <= 0xffff_ffff,
                h <= 0xffff_ffff,
        ;
        let area = w * h;
        assert(4 * self.width * self.height == 4 * area) by (nonlinear_arith)
            requires
                area == w * h,
                w == self.width,
                h == self.height,
        ;
        1 <= self.width && 1 <= self.height && area <= 0x3fff_ffff && self.rgba.len() as u64 == 4 * area
    }
}

/// The metadata of an image of `width` by `height` pixels. `preview` is the
/// square preview, absent where resizing failed, which leaves no metadata.
/// `scores` are the classifier's scores with whether each lies above the
/// threshold, absent where the model gave no answer; with
/// `skip_sensitive_detection` no verdict is given at all.
pub fn image_metadata(
    width: u32,
    height: u32,
    preview: Option<Preview>,
    scores: Option<Vec<(NsfwClass, bool)>>,
    skip_sensitive_detection: bool,
    thumbnail: Option<Vec<u8>>,
) -> (r: FileMetaData)
    requires
        preview matches Some(p) ==> p.wf(),
    ensures
        preview is None ==> r.is_empty(),
        preview matches Some(p) ==> {
            &&& r.width == width
            &&& r.height == height
            &&& r.blurhash matches Some(b) && b@.len() == 54
            &&& r.thumbnail == thumbnail
            &&& r.maybe_sensitive == if skip_sensitive_detection {
                None
            } else {
                match scores {
                    Some(s) => Some(verdict_spec(s@)),
                    None => None,
                }
            }
        },
{
    match preview {
        None => FileMetaData::default(),
        Some(p) => {
            let maybe_sensitive = if skip_sensitive_detection {
                None
            } else {
                match &scores {
                    Some(s) => Some(sensitivity_verdict(s)),
                    None => None,
                }
            };
            let blurhash = blurhash_5x5(p.width, p.height, p.rgba.as_slice());
            FileMetaData { maybe_sensitive, blurhash, width, height, thumbnail }
        },
    }
}

/// The box a thumbnail is fitted into: the thumbnail square, but never
/// larger than the image itself.
pub fn thumbnail_bounds(size: u32, width: u32, height: u32) -> (r: (u32, u32))
    ensures
        r.0 == if size <= width { size } else { width },
        r.1 == if size <= height { size } else { height },
{
    (if size <= width { size } else { width }, if size <= height { size } else { height })
}

/// Whether a content type is a video type.
pub fn is_video(content_type: &str) -> (r: bool)
    ensures
        r == ("video/"@.len() <= content_type@.len() && content_type@.subrange(0, "video/"@.len() as int)
            == "video/"@),
{
    starts_with_text(content_type, "video/")
}

/// A transcoder run: the program and its arguments.
pub struct TranscoderCommand {
    pub program: String,
    pub args: Vec<String>,
}

/// The views of a list of strings.
pub open spec fn texts_view(v: Seq<String>) -> Seq<Seq<char>> {
    v.map_values(|s: String| s@)
}

/// The URL the transcoder reads an object from: the transcoder's base URL,
/// or the public one, followed by the object key.
pub open spec fn source_url_spec(config: ConfigFile, s3_key: Seq<char>) -> Seq<char> {
    match config.ffmpeg_base_url {
        Some(b) => b@ + s3_key,
        None => config.public_base_url@ + s3_key,
    }
}

/// The arguments that make the transcoder write the first video frame of
/// `url` to its standard output as an image, quietly.
pub open spec fn transcoder_args_spec(url: Seq<char>) -> Seq<Seq<char>> {
    seq!["-loglevel"@, "quiet"@, "-i"@, url, "-frames:v"@, "1"@, "-f"@, "image2pipe"@, "-"@]
}

/// How to run the configured transcoder on an object, or `None` where no
/// transcoder is configured.
pub fn transcoder_command(config: &ConfigFile, s3_key: &str) -> (r: Option<TranscoderCommand>)
    ensures
        match config.ffmpeg {
            Some(p) if p@.len() > 0 => r matches Some(c) && c.program@ == p@ && texts_view(c.args@)
                == transcoder_args_spec(source_url_spec(*config, s3_key@)),
            _ => r is None,
        },
{
    let program = match &config.ffmpeg {
        Some(p) => p,
        None => return None,
    };
    if program.unicode_len() == 0 {
        return None;
    }
    let mut url = match &config.ffmpeg_base_url {
        Some(b) => text_of(b.as_str()),
        None => text_of(config.public_base_url.as_str()),
    };
    push_text(&mut url, s3_key);
    let mut args: Vec<String> = Vec::new();
    args.push(text_of("-loglevel"));
    args.push(text_of("quiet"));
    args.push(text_of("-i"));
    args.push(url);
    args.push(text_of("-frames:v"));
    args.push(text_of("1"));
    args.push(text_of("-f"));
    args.push(text_of("image2pipe"));
    args.push(text_of("-"));
    let c = TranscoderCommand { program: text_of(program.as_str()), args };
    assert(texts_view(c.args@) =~= transcoder_args_spec(source_url_spec(*config, s3_key@)));
    Some(c)
}

} // verus!
