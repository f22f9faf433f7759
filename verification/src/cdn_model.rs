//! The CDN's media records (one row of the `media` table) and how a stored
//! file is named and addressed.

use vstd::prelude::*;
use vstd::string::StringExecFns;
use crate::text::{decimal, push_decimal};

verus! {

/// A row from the database.
#[derive(Clone, Debug, PartialEq, Eq)]
pub struct Media {
    pub id: i64,
    /// Unix timestamp in milliseconds.
    pub uploaded_time: i64,
    /// Unix timestamp in milliseconds.
    pub accessed_time: i64,
    /// Unix timestamp in milliseconds.
    pub expiring_time: i64,
    /// Size of the file in bytes.
    pub file_size: i64,
    /// The name of the file as uploaded, including the extension.
    pub file_name: String,
    /// The SHA-256 checksum of the file, in upper-case hexadecimal.
    pub file_hash: String,
}

/// `/{file_name}?id={id}&checksum={file_hash}`.
pub open spec fn rel_endpoint_of(file_name: Seq<char>, id: int, file_hash: Seq<char>) -> Seq<char> {
    "/"@ + file_name + "?id="@ + decimal(id) + "&checksum="@ + file_hash
}

impl Media {
    /// A URL relative to the CDN's base URL at which this media is served.
    pub fn rel_endpoint(&self) -> (url: String)
        ensures
            url@ == rel_endpoint_of(self.file_name@, self.id as int, self.file_hash@),
            url@ == "/"@ + self.file_name@ + "?id="@ + decimal(self.id as int) + "&checksum="@
                + self.file_hash@,
            url@[0] == '/',
            url@.subrange(1, self.file_name@.len() as int + 1) == self.file_name@,
            url@[self.file_name@.len() as int + 1] == '?',
    {
        let mut url = String::from_str("/");
        url.append(self.file_name.as_str());
        url.append("?id=");
        push_decimal(&mut url, self.id);
        url.append("&checksum=");
        url.append(self.file_hash.as_str());
        proof {
            reveal_strlit("/");
            reveal_strlit("?id=");
            let n = self.file_name@.len() as int;
            assert(url@[0] == "/"@[0]);
            assert(url@.subrange(1, n + 1) =~= self.file_name@);
            assert(url@[n + 1] == "?id="@[0]);
        }
        url
    }

    /// The name of the stored file on the host machine: the file's checksum,
    /// so uploads with the same content share one stored file.
    pub fn true_filename(&self) -> (name: String)
        ensures
            name@ == self.file_hash@,
    {
        self.file_hash.clone()
    }
}

/// What an upload hands to the database when it is checked in.
#[derive(Clone, Debug, PartialEq, Eq)]
pub struct MediaUploadInfo {
    pub file_name: String,
    pub file_size: i64,
    pub file_hash: String,
    pub upload_start_time: i64,
}

/// What a request for one media names: the row's id, the file name and its checksum.
#[derive(Clone, Debug, PartialEq, Eq)]
pub struct MediaAccessInfo {
    pub id: i64,
    pub file_name: String,
    pub file_hash: String,
}

/// CDN settings: the directory that stored files live in.
#[derive(Clone, Debug, PartialEq, Eq)]
pub struct CdnSettings {
    pub save_dir: String,
}

} // verus!
