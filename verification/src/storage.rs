//! Image uploads: assembling the multipart form, and naming the stored
//! blobs and their resized variants.

use vstd::prelude::*;
use vstd::string::*;
use vstd::utf8::*;

use crate::error::AppError;
use crate::text::{str_concat, decimal, is_prefix, is_suffix, parse_i64, parse_i64_spec, starts_with, str_eq, trim, trimmed, u64_to_string};

verus! {

/// The largest accepted upload, in bytes (10 MB).
pub const MAX_UPLOAD_SIZE: usize = 10485760;

/// A field of the upload form, as read from the multipart body: its name,
/// its bytes, and for files the declared content type and file name.
#[derive(Debug, Clone)]
pub struct FormField {
    pub name: Option<String>,
    pub data: Vec<u8>,
    pub content_type: Option<String>,
    pub filename: Option<String>,
}

/// The uploaded file.
#[derive(Debug, Clone)]
pub struct UploadedFile {
    pub data: Vec<u8>,
    pub filename: String,
    pub content_type: String,
}

/// The upload form as read so far.
#[derive(Debug, Clone)]
pub struct UploadForm {
    pub record_type: Option<String>,
    pub record_id: Option<i64>,
    pub attachment_name: Option<String>,
    pub file: Option<UploadedFile>,
}

/// A complete upload request.
#[derive(Debug, Clone)]
pub struct UploadRequest {
    pub record_type: String,
    pub record_id: i64,
    pub attachment_name: String,
    pub file: UploadedFile,
}

/// The text of UTF-8 bytes, as `String::from_utf8` decodes it.
#[verifier::external_body]
fn utf8_text(bytes: Vec<u8>) -> (r: Option<String>)
    ensures
        r is Some <==> valid_utf8(bytes@),
        r matches Some(s) ==> s@ == decode_utf8(bytes@),
{
    String::from_utf8(bytes).ok()
}

fn validation(msg: &str) -> (e: AppError)
    ensures
        e == AppError::Validation(e->Validation_0) && e->Validation_0@ == msg@,
{
    AppError::Validation(String::from_str(msg))
}

impl UploadForm {
    /// A form with nothing read yet.
    pub fn new() -> (f: UploadForm)
        ensures
            f.record_type is None && f.record_id is None && f.attachment_name is None
                && f.file is None,
    {
        UploadForm { record_type: None, record_id: None, attachment_name: None, file: None }
    }
}

/// The message with which a field is refused, if it is: a field without a
/// name; a text field that is not UTF-8; a record id that is not an integer;
/// a file that is too large, has no content type, or is not an image.
pub open spec fn field_refusal(f: FormField) -> Option<Seq<char>> {
    match f.name {
        None => Some("Field name is required"@),
        Some(n) => if n@ == "record_type"@ {
            if valid_utf8(f.data@) { None } else { Some("Invalid record_type"@) }
        } else if n@ == "record_id"@ {
            if !valid_utf8(f.data@) {
                Some("Invalid record_id"@)
            } else if parse_i64_spec(trimmed(decode_utf8(f.data@))) is None {
                Some("record_id must be an integer"@)
            } else {
                None
            }
        } else if n@ == "name"@ {
            if valid_utf8(f.data@) { None } else { Some("Invalid name"@) }
        } else if n@ == "file"@ {
            if f.data@.len() > MAX_UPLOAD_SIZE {
                Some("File too large. Maximum size is 10MB"@)
            } else if f.content_type is None {
                Some("Content type is required"@)
            } else if !is_prefix("image/"@, f.content_type->0@) {
                Some("Only image files are allowed"@)
            } else {
                None
            }
        } else {
            None
        },
    }
}

/// Whether a field other than the file is larger than the reader takes:
/// such a field is refused as a failed read, before its name is looked at.
pub open spec fn over_read_limit(f: FormField) -> bool {
    f.name is Some && f.name->0@ != "file"@ && f.data@.len() > MAX_UPLOAD_SIZE
}

/// The message of a field that is larger than the reader takes.
pub open spec fn read_limit_message() -> Seq<char> {
    "Failed to read field: size limit exceeded while collecting field data"@
}

/// The contents of an upload form.
pub struct FormView {
    pub record_type: Option<Seq<char>>,
    pub record_id: Option<i64>,
    pub attachment_name: Option<Seq<char>>,
    /// The file's bytes, file name and content type.
    pub file: Option<(Seq<u8>, Seq<char>, Seq<char>)>,
}

impl View for UploadForm {
    type V = FormView;

    open spec fn view(&self) -> FormView {
        FormView {
            record_type: match self.record_type {
                Some(s) => Some(s@),
                None => None,
            },
            record_id: self.record_id,
            attachment_name: match self.attachment_name {
                Some(s) => Some(s@),
                None => None,
            },
            file: match self.file {
                Some(f) => Some((f.data@, f.filename@, f.content_type@)),
                None => None,
            },
        }
    }
}

/// What a field that is not refused sets in the form; fields with other
/// names are ignored, and a later field replaces an earlier one.
pub open spec fn form_after(form: FormView, f: FormField) -> FormView {
    let n = f.name->0@;
    let text = decode_utf8(f.data@);
    if n == "record_type"@ {
        FormView { record_type: Some(text), ..form }
    } else if n == "record_id"@ {
        FormView { record_id: parse_i64_spec(trimmed(text)), ..form }
    } else if n == "name"@ {
        FormView { attachment_name: Some(text), ..form }
    } else if n == "file"@ {
        FormView {
            file: Some(
                (
                    f.data@,
                    match f.filename {
                        Some(x) => x@,
                        None => "upload"@,
                    },
                    f.content_type->0@,
                ),
            ),
            ..form
        }
    } else {
        form
    }
}

/// Reads one field into the form, or refuses it. A field other than the
/// file that is over the 10 MB read limit is refused as a failed read
/// (a storage error); the file is refused over that size as too large.
pub fn apply_field(form: UploadForm, field: FormField) -> (r: Result<UploadForm, AppError>)
    ensures
        over_read_limit(field) ==> (r matches Err(AppError::Storage(x)) && x@ == read_limit_message()),
        !over_read_limit(field) ==> (field_refusal(field) matches Some(m) ==> (r matches Err(
            AppError::Validation(x),
        ) && x@ == m)),
        !over_read_limit(field) ==> (field_refusal(field) is None ==> (r matches Ok(g) && g@
            == form_after(form@, field))),
{
    proof {
        reveal_strlit("image/");
    }
    let name = match &field.name {
        Some(n) => n.clone(),
        None => return Err(validation("Field name is required")),
    };
    if !str_eq(name.as_str(), "file") && field.data.len() > MAX_UPLOAD_SIZE {
        return Err(AppError::Storage(
            String::from_str("Failed to read field: size limit exceeded while collecting field data"),
        ));
    }
    let mut form = form;
    if str_eq(name.as_str(), "record_type") {
        match utf8_text(field.data) {
            Some(t) => form.record_type = Some(t),
            None => return Err(validation("Invalid record_type")),
        }
    } else if str_eq(name.as_str(), "record_id") {
        let t = match utf8_text(field.data) {
            Some(t) => t,
            None => return Err(validation("Invalid record_id")),
        };
        let trimmed_text = trim(t.as_str());
        match parse_i64(trimmed_text.as_str()) {
            Some(v) => form.record_id = Some(v),
            None => return Err(validation("record_id must be an integer")),
        }
    } else if str_eq(name.as_str(), "name") {
        match utf8_text(field.data) {
            Some(t) => form.attachment_name = Some(t),
            None => return Err(validation("Invalid name")),
        }
    } else if str_eq(name.as_str(), "file") {
        if field.data.len() > MAX_UPLOAD_SIZE {
            return Err(validation("File too large. Maximum size is 10MB"));
        }
        let ct = match &field.content_type {
            Some(c) => c.clone(),
            None => return Err(validation("Content type is required")),
        };
        if !starts_with(ct.as_str(), "image/") {
            return Err(validation("Only image files are allowed"));
        }
        let filename = match &field.filename {
            Some(f) => f.clone(),
            None => String::from_str("upload"),
        };
        form.file = Some(UploadedFile { data: field.data, filename, content_type: ct });
    }
    Ok(form)
}

/// The message with which a finished form is refused, if it is: the first
/// missing part.
pub open spec fn form_refusal(form: FormView) -> Option<Seq<char>> {
    if form.record_type is None {
        Some("record_type is required"@)
    } else if form.record_id is None {
        Some("record_id is required"@)
    } else if form.attachment_name is None {
        Some("name (attachment name) is required"@)
    } else if form.file is None {
        Some("file is required"@)
    } else {
        None
    }
}

/// Checks that every part of the form was given.
pub fn finish_form(form: UploadForm) -> (r: Result<UploadRequest, AppError>)
    ensures
        form_refusal(form@) matches Some(m) ==> (r matches Err(AppError::Validation(x)) && x@ == m),
        form_refusal(form@) is None ==> (r matches Ok(q) && Some(q.record_type@)
            == form@.record_type && Some(q.record_id) == form@.record_id && Some(
            q.attachment_name@,
        ) == form@.attachment_name && Some((q.file.data@, q.file.filename@, q.file.content_type@))
            == form@.file),
{
    let record_type = match form.record_type {
        Some(t) => t,
        None => return Err(validation("record_type is required")),
    };
    let record_id = match form.record_id {
        Some(v) => v,
        None => return Err(validation("record_id is required")),
    };
    let attachment_name = match form.attachment_name {
        Some(t) => t,
        None => return Err(validation("name (attachment name) is required")),
    };
    let file = match form.file {
        Some(f) => f,
        None => return Err(validation("file is required")),
    };
    Ok(UploadRequest { record_type, record_id, attachment_name, file })
}

/// The storage key of an original upload.
pub open spec fn original_key_of(uuid: Seq<char>, filename: Seq<char>) -> Seq<char> {
    "blobs/"@ + uuid + "/"@ + filename
}

/// The storage key of an original upload: `blobs/<uuid>/<file name>`.
pub fn original_key(uuid: &str, filename: &str) -> (r: String)
    ensures
        r@ == original_key_of(uuid@, filename@),
{
    let mut s = str_concat("blobs/", uuid);
    s.append("/");
    s.append(filename);
    s
}

/// The extension `std::path::Path::extension` finds in a file name (empty
/// when there is none).
pub uninterp spec fn path_extension(name: Seq<char>) -> Seq<char>;

/// `Path::new(name).extension()`, as text, or empty when there is none.
#[verifier::external_body]
fn file_extension(name: &str) -> (r: String)
    ensures
        r@ == path_extension(name@),
{
    std::path::Path::new(name).extension().and_then(|e| e.to_str()).unwrap_or("").to_string()
}

/// The file name of a resized variant: the original name with its
/// extension text cut off the end (the dot stays), followed by `.webp`.
pub open spec fn variant_filename_of(original: Seq<char>) -> Seq<char> {
    let ext = path_extension(original);
    let stem = if is_suffix(ext, original) {
        original.subrange(0, original.len() - ext.len())
    } else {
        original
    };
    stem + ".webp"@
}

/// Whether `s` ends with `p`.
fn ends_with(s: &str, p: &str) -> (r: bool)
    ensures
        r == is_suffix(p@, s@),
{
    let n = s.unicode_len();
    let m = p.unicode_len();
    if m > n {
        return false;
    }
    let tail = s.substring_char(n - m, n);
    str_eq(tail, p)
}

/// The file name of a resized variant of `original`, whose extension (as
/// `Path::extension` finds it, empty when none) is `ext`: `original` with
/// `ext` cut off its end when it ends with it, followed by `.webp`.
pub fn variant_filename_with(original: &str, ext: &str) -> (r: String)
    ensures
        r@ == (if is_suffix(ext@, original@) {
            original@.subrange(0, original@.len() - ext@.len())
        } else {
            original@
        }) + ".webp"@,
{
    let mut stem = if ends_with(original, ext) {
        let n = original.unicode_len();
        let m = ext.unicode_len();
        original.substring_char(0, n - m).to_owned()
    } else {
        original.to_owned()
    };
    stem.append(".webp");
    stem
}

/// The file name of a resized variant of `original`.
pub fn variant_filename(original: &str) -> (r: String)
    ensures
        r@ == variant_filename_of(original@),
{
    let ext = file_extension(original);
    variant_filename_with(original, ext.as_str())
}

/// The storage key of a resized variant.
pub open spec fn variant_key_of(uuid: Seq<char>, width: u32, name: Seq<char>) -> Seq<char> {
    "variants/"@ + uuid + "/"@ + decimal(width as nat) + "/"@ + name
}

/// The storage key of a resized variant:
/// `variants/<uuid>/<max width>/<variant file name>`.
pub fn variant_key(uuid: &str, max_width: u32, variant_name: &str) -> (r: String)
    ensures
        r@ == variant_key_of(uuid@, max_width, variant_name@),
{
    let mut s = str_concat("variants/", uuid);
    s.append("/");
    s.append(u64_to_string(max_width as u64).as_str());
    s.append("/");
    s.append(variant_name);
    s
}

/// The widths, in pixels, of the variants made of each upload: a medium
/// size and a thumbnail.
pub fn variant_widths() -> (r: Vec<u32>)
    ensures
        r@ == seq![512u32, 100u32],
{
    let mut v = Vec::new();
    v.push(512u32);
    v.push(100u32);
    v
}

/// Whether `s` has the shape of a random UUID in hyphenated text form:
/// 36 characters, with hyphens at positions 8, 13, 18 and 23 and the
/// version digit `4` at position 14.
pub open spec fn uuid_v4_text(s: Seq<char>) -> bool {
    &&& s.len() == 36
    &&& s[8] == '-' && s[13] == '-' && s[18] == '-' && s[23] == '-'
    &&& s[14] == '4'
}

/// A fresh random UUID, `uuid::Uuid::new_v4()`, in its hyphenated text
/// form. Which UUID comes out is left open: it is drawn from the operating
/// system's random number generator (the call panics if that fails).
#[verifier::external_body]
fn new_uuid_text() -> (r: String)
    ensures
        uuid_v4_text(r@),
{
    uuid::Uuid::new_v4().to_string()
}

/// Names a new upload: a fresh UUID and the key `blobs/<uuid>/<file name>`
/// under which the original is stored.
pub fn new_original_key(filename: &str) -> (r: (String, String))
    ensures
        uuid_v4_text(r.0@),
        r.1@ == original_key_of(r.0@, filename@),
{
    let uuid = new_uuid_text();
    let key = original_key(uuid.as_str(), filename);
    (uuid, key)
}

/// The answer to a successful upload.
#[derive(Debug, Clone)]
pub struct UploadResponse {
    pub id: i64,
    pub key: String,
    pub filename: String,
    pub content_type: String,
    pub byte_size: i64,
    pub url: String,
    pub thumbnail_url: String,
}

/// The answer to an upload stored as blob `id` under `key`, with the URLs
/// of the original and of its thumbnail.
pub fn upload_response(
    id: i64,
    key: String,
    file: UploadedFile,
    url: String,
    thumbnail_url: String,
) -> (r: UploadResponse)
    ensures
        r.id == id,
        r.key@ == key@,
        r.filename@ == file.filename@,
        r.content_type@ == file.content_type@,
        r.byte_size == file.data@.len() as i64,
        file.data@.len() <= i64::MAX ==> r.byte_size == file.data@.len(),
        r.url@ == url@,
        r.thumbnail_url@ == thumbnail_url@,
{
    let byte_size = file.data.len() as i64;
    UploadResponse {
        id,
        key,
        filename: file.filename,
        content_type: file.content_type,
        byte_size,
        url,
        thumbnail_url,
    }
}

} // verus!
