//! Full upload: a whole file in one multipart form, stored with a single
//! PUT and registered at once.
use vstd::prelude::*;
use crate::backend::{PreflightRequest, RegisterRequest};
use crate::digest::{hex_lower, md5_digest, md5_feed, md5_hex, md5_start, new_uuid};
use crate::file_meta::FileMetaData;
use crate::finish_upload::registers_media;
use crate::mime::option_view;
use crate::preflight::object_key_spec;
use crate::text::{push_text, text_of};

verus! {

/// The fields of a full-upload form, as they arrive.
pub struct FullUploadForm {
    pub request: PreflightRequest,
    pub force: bool,
    pub file: Option<Vec<u8>>,
}

/// The UTF-8 bytes of a string view.
pub open spec fn utf8_of(s: Seq<char>) -> Seq<u8> {
    vstd::utf8::encode_utf8(s)
}

/// Relies on `String::from_utf8`: it succeeds exactly on valid UTF-8, and
/// the string then holds exactly those bytes.
#[verifier::external_body]
fn utf8_text(data: Vec<u8>) -> (r: Option<String>)
    ensures
        r is Some <==> vstd::utf8::valid_utf8(data@),
        r is Some ==> utf8_of(r->0@) == data@,
{
    String::from_utf8(data).ok()
}

/// The value of a string of decimal digits.
pub open spec fn digits_value(d: Seq<u8>) -> int
    decreases d.len(),
{
    if d.len() == 0 {
        0
    } else {
        digits_value(d.drop_last()) * 10 + (d.last() - 48)
    }
}

/// Whether every byte is an ASCII digit.
pub open spec fn all_digits(d: Seq<u8>) -> bool {
    forall|i: int| 0 <= i < d.len() ==> 48 <= #[trigger] d[i] <= 57
}

/// A base-10 `u64`: an optional `+` and at least one digit, nothing else,
/// and a value that fits.
pub open spec fn decimal_spec(b: Seq<u8>) -> Option<u64> {
    let d = if b.len() > 0 && b[0] == 43 {
        b.drop_first()
    } else {
        b
    };
    if d.len() > 0 && all_digits(d) && digits_value(d) <= u64::MAX {
        Some(digits_value(d) as u64)
    } else {
        None
    }
}

proof fn lemma_digits_value_nonneg(d: Seq<u8>)
    requires
        all_digits(d),
    ensures
        digits_value(d) >= 0,
    decreases d.len(),
{
    if d.len() > 0 {
        lemma_digits_value_nonneg(d.drop_last());
    }
}

/// Reads a base-10 `u64`.
pub fn parse_decimal(b: &[u8]) -> (r: Option<u64>)
    ensures
        r == decimal_spec(b@),
{
    let start: usize = if b.len() > 0 && b[0] == 43 { 1 } else { 0 };
    let ghost d = if b@.len() > 0 && b@[0] == 43 { b@.drop_first() } else { b@ };
    if b.len() == start {
        return None;
    }
    assert(d =~= b@.subrange(start as int, b@.len() as int));
    let mut value: u64 = 0;
    let mut i: usize = start;
    while i < b.len()
        invariant
            start <= i <= b@.len(),
            start == (if b@.len() > 0 && b@[0] == 43 { 1usize } else { 0usize }),
            d == (if b@.len() > 0 && b@[0] == 43 { b@.drop_first() } else { b@ }),
            d == b@.subrange(start as int, b@.len() as int),
            all_digits(b@.subrange(start as int, i as int)),
            value == digits_value(b@.subrange(start as int, i as int)),
        decreases b@.len() - i,
    {
        let c = b[i];
        let ghost prefix = b@.subrange(start as int, i as int);
        let ghost next = b@.subrange(start as int, i + 1);
        assert(next.drop_last() =~= prefix);
        assert(next.last() == c);
        if c < 48 || c > 57 {
            assert(d[i - start] == c);
            assert(!all_digits(d));
            assert(decimal_spec(b@) is None);
            return None;
        }
        assert(all_digits(next)) by {
            assert forall|j: int| 0 <= j < next.len() implies 48 <= #[trigger] next[j] <= 57 by {
                if j < next.len() - 1 {
                    assert(next[j] == prefix[j]);
                }
            }
        }
        let digit = (c - 48) as u64;
        assert(digits_value(next) == value * 10 + digit);
        if value > (u64::MAX - digit) / 10 {
            proof {
                assert(digits_value(next) > u64::MAX) by (nonlinear_arith)
                    requires
                        digits_value(next) == value * 10 + digit,
                        value > (u64::MAX - digit) / 10,
                        digit <= 9,
                ;
                if all_digits(d) {
                    lemma_prefix_value_bound(d, (i + 1 - start) as int);
                    assert(d.subrange(0, (i + 1 - start) as int) =~= next);
                }
                assert(decimal_spec(b@) is None);
            }
            return None;
        }
        assert(value * 10 + digit <= u64::MAX) by (nonlinear_arith)
            requires
                value <= (u64::MAX - digit) / 10,
                digit <= 9,
        ;
        value = value * 10 + digit;
        i = i + 1;
    }
    assert(b@.subrange(start as int, b@.len() as int) =~= d);
    Some(value)
}

/// A number's value is at least that of any of its leading digits.
proof fn lemma_prefix_value_bound(d: Seq<u8>, n: int)
    requires
        0 <= n <= d.len(),
        all_digits(d),
    ensures
        digits_value(d.subrange(0, n)) <= digits_value(d),
    decreases d.len(),
{
    if n < d.len() {
        lemma_prefix_value_bound(d.drop_last(), n);
        assert(d.drop_last().subrange(0, n) =~= d.subrange(0, n));
        lemma_digits_value_nonneg(d.drop_last());
        assert(all_digits(d.drop_last()));
    } else {
        assert(d.subrange(0, n) =~= d);
    }
}

/// Whether a form value is the literal `true`.
pub open spec fn is_true_spec(data: Seq<u8>) -> bool {
    data == seq![116u8, 114u8, 117u8, 101u8]
}

fn is_true(data: &[u8]) -> (r: bool)
    ensures
        r == is_true_spec(data@),
{
    let r = data.len() == 4 && data[0] == 116 && data[1] == 114 && data[2] == 117 && data[3] == 101;
    proof {
        if r {
            assert(data@ =~= seq![116u8, 114u8, 117u8, 101u8]);
        }
    }
    r
}

/// The text of a form value: present exactly where the value is UTF-8,
/// and then holding exactly its bytes.
pub open spec fn field_text_ok(o: Option<String>, data: Seq<u8>) -> bool {
    &&& o is Some <==> vstd::utf8::valid_utf8(data)
    &&& o is Some ==> utf8_of(o->0@) == data
}

impl FullUploadForm {
    /// A form with no field read yet.
    pub fn new() -> (r: Self)
        ensures
            r.request.name is None,
            r.request.ext is None,
            r.request.folder_id is None,
            r.request.i is None,
            r.request.comment is None,
            r.request.user_id is None,
            !r.request.is_sensitive,
            r.request.size == 0,
            !r.force,
            r.file is None,
    {
        FullUploadForm { request: PreflightRequest::default(), force: false, file: None }
    }

    /// Reads one form field. `name`, `ext`, `folder_id` and `i` are kept
    /// where they are UTF-8; `isSensitive` and `force` are true only when
    /// literally `true`; `size` is a base-10 `u64`, else 0; `file` is the
    /// content. Other fields are ignored.
    pub fn apply_field(&mut self, field: &str, data: Vec<u8>)
        ensures
            if field@ == "name"@ {
                field_text_ok(final(self).request.name, data@)
                    && *final(self) == (FullUploadForm { request: PreflightRequest { name: final(self).request.name, ..old(self).request }, ..*old(self) })
            } else if field@ == "ext"@ {
                field_text_ok(final(self).request.ext, data@)
                    && *final(self) == (FullUploadForm { request: PreflightRequest { ext: final(self).request.ext, ..old(self).request }, ..*old(self) })
            } else if field@ == "folder_id"@ {
                field_text_ok(final(self).request.folder_id, data@)
                    && *final(self) == (FullUploadForm { request: PreflightRequest { folder_id: final(self).request.folder_id, ..old(self).request }, ..*old(self) })
            } else if field@ == "i"@ {
                field_text_ok(final(self).request.i, data@)
                    && *final(self) == (FullUploadForm { request: PreflightRequest { i: final(self).request.i, ..old(self).request }, ..*old(self) })
            } else if field@ == "isSensitive"@ {
                *final(self) == (FullUploadForm { request: PreflightRequest { is_sensitive: is_true_spec(data@), ..old(self).request }, ..*old(self) })
            } else if field@ == "force"@ {
                *final(self) == (FullUploadForm { force: is_true_spec(data@), ..*old(self) })
            } else if field@ == "size"@ {
                *final(self) == (FullUploadForm { request: PreflightRequest { size: match decimal_spec(data@) {
                    Some(n) => n,
                    None => 0,
                }, ..old(self).request }, ..*old(self) })
            } else if field@ == "file"@ {
                *final(self) == (FullUploadForm { file: Some(data), ..*old(self) })
            } else {
                *final(self) == *old(self)
            },
    {
        if crate::text::same_text(field, "name") {
            self.request.name = utf8_text(data);
        } else if crate::text::same_text(field, "ext") {
            self.request.ext = utf8_text(data);
        } else if crate::text::same_text(field, "folder_id") {
            self.request.folder_id = utf8_text(data);
        } else if crate::text::same_text(field, "i") {
            self.request.i = utf8_text(data);
        } else if crate::text::same_text(field, "isSensitive") {
            self.request.is_sensitive = is_true(data.as_slice());
        } else if crate::text::same_text(field, "force") {
            self.force = is_true(data.as_slice());
        } else if crate::text::same_text(field, "size") {
            self.request.size = match parse_decimal(data.as_slice()) {
                Some(n) => n,
                None => 0,
            };
        } else if crate::text::same_text(field, "file") {
            self.file = Some(data);
        }
    }
}

impl FullUploadForm {
    /// The preflight request for this form, with the extension that
    /// negotiation gave in place of the one the client named.
    pub fn preflight_request(&self, ext: Option<String>) -> (r: PreflightRequest)
        ensures
            r == (PreflightRequest { ext, ..self.request }),
    {
        PreflightRequest {
            upload_service_key: self.request.upload_service_key.clone(),
            folder_id: self.request.folder_id.clone(),
            name: self.request.name.clone(),
            is_sensitive: self.request.is_sensitive,
            comment: self.request.comment.clone(),
            size: self.request.size,
            ext,
            is_link: self.request.is_link,
            url: self.request.url.clone(),
            uri: self.request.uri.clone(),
            i: self.request.i.clone(),
            user_id: self.request.user_id.clone(),
        }
    }
}

/// The object key of a full upload: prefix, identifier and extension.
pub open spec fn full_key_spec(prefix: Seq<char>, id: Seq<char>, ext: Option<Seq<char>>) -> Seq<char> {
    object_key_spec(prefix, id) + match ext {
        Some(e) => e,
        None => Seq::empty(),
    }
}

/// The object key of a full upload named by `id`.
pub fn full_key_for(prefix: &str, id: &str, ext: &Option<String>) -> (r: String)
    ensures
        r@ == full_key_spec(prefix@, id@, option_view(ext)),
{
    let mut k = text_of(prefix);
    push_text(&mut k, "/");
    push_text(&mut k, id);
    match ext {
        Some(e) => push_text(&mut k, e.as_str()),
        None => {},
    }
    k
}

/// A fresh object key for a full upload.
pub fn new_full_key(prefix: &str, ext: &Option<String>) -> (r: String)
    ensures
        exists|id: Seq<char>| id.len() == 36 && r@ == full_key_spec(prefix@, id, option_view(ext)),
{
    let id = new_uuid();
    full_key_for(prefix, id.as_str(), ext)
}

/// The lowercase hex MD5 digest of `data`.
pub fn md5_hex_of(data: &[u8]) -> (r: String)
    ensures
        r@ == hex_lower(md5_digest(data@)),
        r@.len() == 32,
{
    let mut ctx = md5_start();
    md5_feed(&mut ctx, data);
    assert(Seq::<u8>::empty() + data@ =~= data@);
    md5_hex(ctx)
}

/// The register request of a full upload of `file`, stored under `s3_key`.
pub open spec fn full_registration_spec(
    req: RegisterRequest,
    request: PreflightRequest,
    force: bool,
    file: Seq<u8>,
    content_type: String,
    s3_key: String,
    detected_name: String,
    base_url: Seq<char>,
    media: FileMetaData,
    thumbnail_key: Option<String>,
) -> bool {
    &&& req.upload_service_key is None
    &&& req.base_url@ == base_url
    &&& req.access_key == s3_key
    &&& req.md5@ == hex_lower(md5_digest(file))
    &&& req.md5@.len() == 32
    &&& req.size == file.len()
    &&& registers_media(req, Some(media), thumbnail_key)
    &&& req.source_url is None
    &&& req.remote_uri is None
    &&& !req.is_link
    &&& req.folder_id == request.folder_id
    &&& req.name == detected_name
    &&& req.comment == request.comment
    &&& req.is_sensitive == request.is_sensitive
    &&& req.content_type == content_type
    &&& req.force == force
    &&& req.i == request.i
    &&& req.user_id == request.user_id
}

/// The register request of a full upload: the hex MD5 and the size of the
/// whole file, the key it was stored under, and what analysis found.
pub fn full_registration(
    request: PreflightRequest,
    force: bool,
    file: &[u8],
    content_type: String,
    s3_key: String,
    detected_name: String,
    base_url: &str,
    media: FileMetaData,
    thumbnail_key: Option<String>,
) -> (r: RegisterRequest)
    ensures
        full_registration_spec(
            r,
            request,
            force,
            file@,
            content_type,
            s3_key,
            detected_name,
            base_url@,
            media,
            thumbnail_key,
        ),
{
    let md5 = md5_hex_of(file);
    let maybe_sensitive = match media.maybe_sensitive {
        Some(b) => b,
        None => false,
    };
    let PreflightRequest { folder_id, comment, is_sensitive, i, user_id, .. } = request;
    RegisterRequest {
        upload_service_key: None,
        base_url: text_of(base_url),
        access_key: s3_key,
        thumbnail_key,
        md5,
        blurhash: media.blurhash,
        size: file.len() as u64,
        width: media.width,
        height: media.height,
        source_url: None,
        remote_uri: None,
        is_link: false,
        folder_id,
        name: detected_name,
        comment,
        is_sensitive,
        maybe_sensitive,
        content_type,
        force,
        i,
        user_id,
    }
}

} // verus!
