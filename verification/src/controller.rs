//! What the media controller makes of the database's answers.

use vstd::prelude::*;
use crate::cdn_model::{Media, MediaUploadInfo};
use crate::error::{Error, Result};

verus! {

/// The outcome of checking an upload in.
#[derive(Clone, Debug, PartialEq, Eq)]
pub struct MediaCheckinResult {
    /// The row inserted for this upload.
    pub media: Media,
    /// Whether a row with the same checksum existed before the insert.
    pub is_duplicate: bool,
}

/// The outcome of deleting one media row.
#[derive(Clone, Debug, PartialEq, Eq)]
pub struct MediaDeleteResult {
    pub deleted: Media,
    /// How many rows still refer to the deleted row's file; at zero the file
    /// may be removed from disk.
    pub remaining_references: u32,
}

/// The column values of the row inserted for an upload (the id is the database's).
#[derive(Clone, Debug, PartialEq, Eq)]
pub struct MediaInsert {
    pub uploaded_time: i64,
    pub accessed_time: i64,
    pub expiring_time: i64,
    pub file_size: i64,
    pub file_name: String,
    pub file_hash: String,
}

impl MediaInsert {
    /// An upload is inserted as uploaded and last accessed at its start time,
    /// with no expiry (0).
    pub fn from_upload(info: &MediaUploadInfo) -> (row: MediaInsert)
        ensures
            row.uploaded_time == info.upload_start_time,
            row.accessed_time == info.upload_start_time,
            row.expiring_time == 0,
            row.file_size == info.file_size,
            row.file_name == info.file_name,
            row.file_hash == info.file_hash,
    {
        MediaInsert {
            uploaded_time: info.upload_start_time,
            accessed_time: info.upload_start_time,
            expiring_time: 0,
            file_size: info.file_size,
            file_name: info.file_name.clone(),
            file_hash: info.file_hash.clone(),
        }
    }
}

impl MediaCheckinResult {
    /// The check-in outcome, given the row found by checksum before the insert
    /// (if any) and the row inserted.
    pub fn from_lookup(existing: Option<Media>, media: Media) -> (r: MediaCheckinResult)
        ensures
            r.media == media,
            r.is_duplicate == (existing is Some),
    {
        MediaCheckinResult { media, is_duplicate: existing.is_some() }
    }
}

/// The media a lookup by id and checksum found, or `NoMediaFound`.
pub fn found_media(found: Option<Media>) -> (r: Result<Media>)
    ensures
        match found {
            Some(m) => r == Ok::<Media, Error>(m),
            None => r == Err::<Media, Error>(Error::NoMediaFound),
        },
{
    match found {
        Some(m) => Ok(m),
        None => Err(Error::NoMediaFound),
    }
}

impl MediaDeleteResult {
    /// The deletion outcome, given the deleted row and the count of rows with
    /// its checksum that the database reports alongside it. That count
    /// includes the deleted row itself, so one is taken off; the count is read
    /// as a `u32` first.
    pub fn from_deleted_row(deleted: Media, count: i64) -> (r: MediaDeleteResult)
        requires
            (count as u32) >= 1,
        ensures
            r.deleted == deleted,
            r.remaining_references == (count as u32) - 1,
    {
        let remaining_references: u32 = count as u32 - 1;
        MediaDeleteResult { deleted, remaining_references }
    }
}

} // verus!
