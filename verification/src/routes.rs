//! The decisions behind the HTTP routes: the bookkeeping of an upload as its
//! chunks arrive, where an upload is kept, and the headers a download is served with.

use vstd::prelude::*;
use vstd::string::{StrSliceExecFns, StringExecFns};
use axum::http::HeaderValue;
use axum::http::header::InvalidHeaderValue;
use mime_guess::MimeGuess;
use crate::error::Error;
use crate::digest::{absorbed, sha256_finalize, sha256_new, sha256_of, sha256_update, Sha256Hasher};
use crate::model::{Media, MediaUploadInfo, true_filename_of};
use crate::text::{
    decimal, hex_upper, is_hex_upper_char, lemma_hex_upper_alphabet, lemma_hex_upper_len, push_decimal,
    to_hex_upper,
};

verus! {

/// An upload in progress: the size and running SHA-256 of the bytes received.
pub struct UploadProgress {
    file_size: i64,
    hasher: Sha256Hasher,
}

impl View for UploadProgress {
    type V = Seq<u8>;

    /// The bytes received so far, in order.
    closed spec fn view(&self) -> Seq<u8> {
        absorbed(self.hasher)
    }
}

/// The checksum recorded for an upload's content: the upper-case hexadecimal
/// SHA-256 of its bytes.
pub open spec fn upload_checksum(content: Seq<u8>) -> Seq<char> {
    hex_upper(sha256_of(content))
}

/// Chunks received one after another (each `add_chunk` appends its chunk, so
/// the bytes received are `flatten_alt` of the chunks) get the checksum of
/// their concatenation (`flatten`): two splittings of the same bytes get the
/// same checksum.
pub proof fn lemma_checksum_ignores_chunking(chunks_a: Seq<Seq<u8>>, chunks_b: Seq<Seq<u8>>)
    requires
        chunks_a.flatten() == chunks_b.flatten(),
    ensures
        upload_checksum(chunks_a.flatten_alt()) == upload_checksum(chunks_b.flatten_alt()),
{
    chunks_a.lemma_flatten_and_flatten_alt_are_equivalent();
    chunks_b.lemma_flatten_and_flatten_alt_are_equivalent();
}

impl UploadProgress {
    #[verifier::type_invariant]
    closed spec fn size_matches(self) -> bool {
        self.file_size == absorbed(self.hasher).len()
    }

    /// An upload that has received nothing yet.
    pub fn new() -> (p: UploadProgress)
        ensures
            p@ == Seq::<u8>::empty(),
    {
        UploadProgress { file_size: 0, hasher: sha256_new() }
    }

    /// The number of bytes received so far.
    pub fn file_size(&self) -> (n: i64)
        ensures
            n == self@.len(),
    {
        proof { use_type_invariant(self); }
        self.file_size
    }

    /// Records a chunk received after all earlier ones. The running size stays
    /// an `i64` (the database's column type).
    pub fn add_chunk(&mut self, chunk: &[u8])
        requires
            old(self)@.len() + chunk@.len() <= i64::MAX,
        ensures
            final(self)@ == old(self)@ + chunk@,
    {
        let mut taken = UploadProgress::new();
        std::mem::swap(&mut taken, self);
        proof { use_type_invariant(&taken); }
        let UploadProgress { file_size, mut hasher } = taken;
        sha256_update(&mut hasher, chunk);
        *self = UploadProgress { file_size: file_size + chunk.len() as i64, hasher };
    }

    /// The check-in record for the finished upload: its name, size, upper-case
    /// hexadecimal SHA-256 of all bytes received, and start time.
    pub fn finish(self, file_name: String, upload_start_time: i64) -> (info: MediaUploadInfo)
        ensures
            info.file_name == file_name,
            info.file_size == self@.len(),
            info.file_hash@ == upload_checksum(self@),
            info.file_hash@.len() == 64,
            forall|i: int| 0 <= i < 64 ==> is_hex_upper_char(#[trigger] info.file_hash@[i]),
            info.upload_start_time == upload_start_time,
    {
        proof { use_type_invariant(&self); }
        let file_size = self.file_size;
        let digest = sha256_finalize(self.hasher);
        let file_hash = to_hex_upper(digest.as_slice());
        proof {
            lemma_hex_upper_len(digest@);
            lemma_hex_upper_alphabet(digest@);
        }
        MediaUploadInfo { file_name, file_size, file_hash, upload_start_time }
    }
}

/// `./tmp_{uploaded_time}_{name}`.
pub open spec fn temp_file_name_of(uploaded_time: int, name: Seq<char>) -> Seq<char> {
    "./tmp_"@ + decimal(uploaded_time) + "_"@ + name
}

/// The name, inside the save directory, of the file an upload is written to
/// while it arrives.
pub fn temp_file_name(uploaded_time: i64, name: &str) -> (path: String)
    ensures
        path@ == temp_file_name_of(uploaded_time as int, name@),
{
    let mut path = String::from_str("./tmp_");
    push_decimal(&mut path, uploaded_time);
    path.append("_");
    path.append(name);
    path
}

/// What becomes of a fully received upload's temporary file.
#[derive(Clone, Debug, PartialEq, Eq)]
pub enum StoredUpload {
    /// The content was already stored: the temporary file is removed.
    DiscardDuplicate,
    /// New content: the temporary file is renamed to `file_name` in the save directory.
    KeepAs { file_name: String },
}

/// Decides what becomes of the temporary file of the upload that started at
/// `uploaded_time`, from the row the check-in returned: when the row carries
/// another upload time it belongs to another upload, and the file is
/// discarded; otherwise the file is kept under the row's stored name. (The
/// check-in of this server inserts and returns a new row for every upload, so
/// the times match and the file is kept.)
pub fn settle_upload(uploaded_time: i64, media: &Media) -> (r: StoredUpload)
    ensures
        uploaded_time != media.uploaded_time ==> r is DiscardDuplicate,
        uploaded_time == media.uploaded_time ==> (r matches StoredUpload::KeepAs { file_name }
            && file_name@ == true_filename_of(media.id as int, media.file_hash@)),
{
    if uploaded_time != media.uploaded_time {
        StoredUpload::DiscardDuplicate
    } else {
        StoredUpload::KeepAs { file_name: media.true_filename() }
    }
}

/// `mime_guess::MimeGuess`, carried opaquely; what it holds is [`guessed_types`].
#[verifier::external_type_specification]
#[verifier::external_body]
pub struct ExMimeGuess(MimeGuess);

/// `http::HeaderValue` (re-exported by `axum`), carried opaquely.
#[verifier::external_type_specification]
#[verifier::external_body]
pub struct ExHeaderValue(HeaderValue);

/// `http::header::InvalidHeaderValue`, the error of `HeaderValue::from_str`.
#[verifier::external_type_specification]
#[verifier::external_body]
pub struct ExInvalidHeaderValue(InvalidHeaderValue);

/// The MIME types, in order, that `mime_guess` maps a path's extension to
/// (its built-in table, looked up by `Path::extension`). For a file name
/// without path separators this is the same on every platform.
pub uninterp spec fn mime_types_for_path(path: Seq<char>) -> Seq<Seq<char>>;

/// The MIME types a guess holds, in order.
pub uninterp spec fn guessed_types(g: MimeGuess) -> Seq<Seq<char>>;

/// `mime_guess::from_path`: the guess for a path, made from its extension
/// alone (no disk access). The table lookup is named, not stated.
#[verifier::external_body]
fn guess_from_path(path: &str) -> (g: MimeGuess)
    ensures
        guessed_types(g) == mime_types_for_path(path@),
{
    mime_guess::from_path(path)
}

/// `MimeGuess::first_raw`: the first type of the guess, if any.
#[verifier::external_body]
fn first_raw(g: &MimeGuess) -> (m: Option<&'static str>)
    ensures
        match m {
            Some(t) => guessed_types(*g).len() > 0 && t@ == guessed_types(*g)[0],
            None => guessed_types(*g).len() == 0,
        },
{
    g.first_raw()
}

/// A character `HeaderValue::from_str` accepts: its UTF-8 bytes are all
/// `>= 32` and not `127`, or it is a tab. Bytes of a non-ASCII character are
/// all `>= 128`, so every such character is accepted.
pub open spec fn header_char_ok(c: char) -> bool {
    (c as u32 >= 32 && c as u32 != 127) || c == '\t'
}

pub open spec fn header_value_ok(s: Seq<char>) -> bool {
    forall|i: int| 0 <= i < s.len() ==> header_char_ok(#[trigger] s[i])
}

/// `HeaderValue::from_str`: succeeds exactly when every byte is `>= 32` and
/// not `127`, or a tab.
#[verifier::external_body]
fn header_value_from_str(value: &str) -> (r: core::result::Result<HeaderValue, InvalidHeaderValue>)
    ensures
        r is Ok <==> header_value_ok(value@),
{
    HeaderValue::from_str(value)
}

fn has_prefix(s: &str, prefix: &str) -> (r: bool)
    ensures
        r == prefix@.is_prefix_of(s@),
{
    let n = prefix.unicode_len();
    if n > s.unicode_len() {
        return false;
    }
    for i in 0..n
        invariant
            n == prefix@.len(),
            n <= s@.len(),
            forall|j: int| 0 <= j < i ==> prefix@[j] == s@[j],
    {
        if prefix.get_char(i) != s.get_char(i) {
            return false;
        }
    }
    true
}

/// The content type a file name is served with: the first type guessed from
/// its extension, else `application/octet-stream`.
pub open spec fn content_type_of(file_name: Seq<char>) -> Seq<char> {
    let types = mime_types_for_path(file_name);
    if types.len() > 0 {
        types[0]
    } else {
        "application/octet-stream"@
    }
}

/// Video, audio and images are served for the browser's own player or viewer;
/// anything else is served as an attachment.
pub open spec fn served_inline(content_type: Seq<char>) -> bool {
    "video/"@.is_prefix_of(content_type) || "audio/"@.is_prefix_of(content_type)
        || "image/"@.is_prefix_of(content_type)
}

/// Exactly the content types under `video/`, `audio/` and `image/` are served
/// inline; every other type (`application/pdf`, `text/plain`, ...) is an
/// attachment.
pub proof fn lemma_served_inline_prefixes(content_type: Seq<char>)
    ensures
        served_inline(content_type) <==> ("video/"@.is_prefix_of(content_type)
            || "audio/"@.is_prefix_of(content_type) || "image/"@.is_prefix_of(content_type)),
{
}

/// `attachment; filename="{file_name}"`.
pub open spec fn attachment_of(file_name: Seq<char>) -> Seq<char> {
    "attachment; filename=\""@ + file_name + "\""@
}

/// The headers a stored file is served with.
#[derive(Clone, Debug, PartialEq, Eq)]
pub struct MediaHeaders {
    pub content_type: String,
    pub content_disposition: Option<String>,
}

/// The `Content-Type` and, unless the file is served inline, the
/// `Content-Disposition` for a file requested by `file_name`. Fails with
/// "Parse error" when the disposition is not a valid header value.
pub fn media_headers(file_name: &str) -> (r: core::result::Result<MediaHeaders, Error>)
    ensures
        served_inline(content_type_of(file_name@)) ==> (r matches Ok(h)
            && h.content_type@ == content_type_of(file_name@) && h.content_disposition is None),
        !served_inline(content_type_of(file_name@)) && header_value_ok(attachment_of(file_name@))
            ==> (r matches Ok(h) && h.content_type@ == content_type_of(file_name@)
            && h.content_disposition is Some && h.content_disposition->0@ == attachment_of(file_name@)),
        !served_inline(content_type_of(file_name@)) && !header_value_ok(attachment_of(file_name@))
            ==> (r matches Err(Error::Error { why }) && why@ == "Parse error"@),
        r matches Ok(h) ==> (h.content_disposition is None <==> ("video/"@.is_prefix_of(h.content_type@)
            || "audio/"@.is_prefix_of(h.content_type@) || "image/"@.is_prefix_of(h.content_type@))),
        r matches Ok(h) ==> (h.content_disposition is Some ==> h.content_disposition->0@
            == "attachment; filename=\""@ + file_name@ + "\""@),
        r is Err ==> !("video/"@.is_prefix_of(content_type_of(file_name@))
            || "audio/"@.is_prefix_of(content_type_of(file_name@))
            || "image/"@.is_prefix_of(content_type_of(file_name@))),
{
    let guess = guess_from_path(file_name);
    let content_type = match first_raw(&guess) {
        Some(t) => t,
        None => "application/octet-stream",
    };
    let inline = has_prefix(content_type, "video/") || has_prefix(content_type, "audio/")
        || has_prefix(content_type, "image/");
    if inline {
        return Ok(MediaHeaders { content_type: String::from_str(content_type), content_disposition: None });
    }
    let mut disposition = String::from_str("attachment; filename=\"");
    disposition.append(file_name);
    disposition.append("\"");
    match header_value_from_str(disposition.as_str()) {
        Ok(_) => Ok(MediaHeaders {
            content_type: String::from_str(content_type),
            content_disposition: Some(disposition),
        }),
        Err(_) => Err(Error::Error { why: String::from_str("Parse error") }),
    }
}

} // verus!
