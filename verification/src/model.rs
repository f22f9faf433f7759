//! The server's media records (one row of the `media` table) and how a stored
//! file is named and addressed.

use vstd::prelude::*;
use vstd::string::StringExecFns;
use crate::text::{decimal, is_decimal_char, lemma_decimal_alphabet, lemma_decimal_injective, push_decimal};

verus! {

/// A row from the database.
#[derive(Clone, Debug, PartialEq, Eq)]
pub struct Media {
    pub id: i64,
    /// Unix timestamp in milliseconds.
    pub uploaded_time: i64,
    /// Unix timestamp in milliseconds.
    pub accessed_time: i64,
    /// Unix timestamp in milliseconds.
    pub expiring_time: i64,
    /// Size of the file in bytes.
    pub file_size: i64,
    /// The name of the file as uploaded, including the extension.
    pub file_name: String,
    /// The SHA-256 checksum of the file, in upper-case hexadecimal.
    pub file_hash: String,
}

/// `/{file_name}?id={id}&checksum={file_hash}`.
pub open spec fn rel_endpoint_of(file_name: Seq<char>, id: int, file_hash: Seq<char>) -> Seq<char> {
    "/"@ + file_name + "?id="@ + decimal(id) + "&checksum="@ + file_hash
}

/// `{id}_{file_hash}`.
pub open spec fn true_filename_of(id: int, file_hash: Seq<char>) -> Seq<char> {
    decimal(id) + "_"@ + file_hash
}

/// Two rows share a stored file name only when they have the same id and the
/// same checksum: the id's digits never contain the `_` that follows them.
pub proof fn lemma_true_filename_identifies_row(id1: int, hash1: Seq<char>, id2: int, hash2: Seq<char>)
    requires
        true_filename_of(id1, hash1) == true_filename_of(id2, hash2),
    ensures
        id1 == id2,
        hash1 == hash2,
{
    let d1 = decimal(id1);
    let d2 = decimal(id2);
    let t = true_filename_of(id1, hash1);
    reveal_strlit("_");
    assert("_"@ =~= seq!['_']);
    lemma_decimal_alphabet(id1);
    lemma_decimal_alphabet(id2);
    if d1.len() < d2.len() {
        assert(t[d1.len() as int] == '_');
        assert(t[d1.len() as int] == d2[d1.len() as int]);
        assert(is_decimal_char(d2[d1.len() as int]));
    } else if d2.len() < d1.len() {
        assert(t[d2.len() as int] == '_');
        assert(t[d2.len() as int] == d1[d2.len() as int]);
        assert(is_decimal_char(d1[d2.len() as int]));
    } else {
        assert(d1 =~= t.subrange(0, d1.len() as int));
        assert(d2 =~= t.subrange(0, d1.len() as int));
        lemma_decimal_injective(id1, id2);
        assert(hash1 =~= t.subrange(d1.len() as int + 1, t.len() as int));
        assert(hash2 =~= t.subrange(d1.len() as int + 1, t.len() as int));
    }
}

impl Media {
    /// A URL relative to the CDN's base URL at which this media is served.
    pub fn rel_endpoint(&self) -> (url: String)
        ensures
            url@ == rel_endpoint_of(self.file_name@, self.id as int, self.file_hash@),
            url@ == "/"@ + self.file_name@ + "?id="@ + decimal(self.id as int) + "&checksum="@
                + self.file_hash@,
            url@[0] == '/',
            url@.subrange(1, self.file_name@.len() as int + 1) == self.file_name@,
            url@[self.file_name@.len() as int + 1] == '?',
    {
        let mut url = String::from_str("/");
        url.append(self.file_name.as_str());
        url.append("?id=");
        push_decimal(&mut url, self.id);
        url.append("&checksum=");
        url.append(self.file_hash.as_str());
        proof {
            reveal_strlit("/");
            reveal_strlit("?id=");
            let n = self.file_name@.len() as int;
            assert(url@[0] == "/"@[0]);
            assert(url@.subrange(1, n + 1) =~= self.file_name@);
            assert(url@[n + 1] == "?id="@[0]);
        }
        url
    }

    /// The name of the stored file on the host machine.
    pub fn true_filename(&self) -> (name: String)
        ensures
            name@ == true_filename_of(self.id as int, self.file_hash@),
    {
        let mut name = String::new();
        push_decimal(&mut name, self.id);
        name.append("_");
        name.append(self.file_hash.as_str());
        name
    }
}

/// What an upload hands to the database when it is checked in.
#[derive(Clone, Debug, PartialEq, Eq)]
pub struct MediaUploadInfo {
    pub file_name: String,
    pub file_size: i64,
    pub file_hash: String,
    pub upload_start_time: i64,
}

/// What a download request names: the row's id, the file name and its checksum.
#[derive(Clone, Debug, PartialEq, Eq)]
pub struct MediaRequestInfo {
    pub id: i64,
    pub file_name: String,
    pub file_hash: String,
}

/// CDN settings: the directory that stored files live in.
#[derive(Clone, Debug, PartialEq, Eq)]
pub struct CdnSettings {
    pub save_dir: String,
}

} // verus!
