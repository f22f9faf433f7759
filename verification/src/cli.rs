//! The command-line client: its configuration and the URLs and answers of an upload.

use vstd::prelude::*;
use vstd::string::StringExecFns;
use crate::cdn_model::rel_endpoint_of;
use crate::text::decimal;

verus! {

/// The client's configuration: the base URL of the cloud, ending in `/`.
#[derive(Clone, Debug, PartialEq, Eq)]
pub struct Config {
    pub cloud_url: String,
}

/// Why an upload failed.
#[derive(Clone, Debug, PartialEq, Eq)]
pub enum UploadError {
    /// The file to upload could not be read.
    NoFileFound,
    /// The request could not be sent or its answer read; the HTTP client's message.
    ReqwestError { err: String },
    /// The server answered with a status outside `200..300`.
    FailStatusCode { status_code: u16 },
}

/// A status code counts as success when it is in `200..300`
/// (`StatusCode::is_success`).
pub open spec fn is_success(status_code: u16) -> bool {
    200 <= status_code < 300
}

impl Config {
    /// `{cloud_url}media`: where files are posted.
    pub fn media_post_url(&self) -> (url: String)
        ensures
            url@ == self.cloud_url@ + "media"@,
    {
        let mut url = self.cloud_url.clone();
        url.append("media");
        url
    }

    /// `{cloud_url}media/{media_endpoint}`: the link to an uploaded file, from
    /// the relative endpoint the server answered with.
    pub fn media_link(&self, media_endpoint: &str) -> (url: String)
        ensures
            url@ == self.cloud_url@ + "media/"@ + media_endpoint@,
    {
        let mut url = self.cloud_url.clone();
        url.append("media/");
        url.append(media_endpoint);
        url
    }
}

/// A status counts as success exactly in `200..300`: every informational
/// (1xx), redirection (3xx), client error (4xx) and server error (5xx) status
/// fails the upload.
pub proof fn lemma_success_range(status_code: u16)
    ensures
        is_success(status_code) <==> (200 <= status_code && status_code < 300),
        status_code >= 300 ==> !is_success(status_code),
        status_code < 200 ==> !is_success(status_code),
{
}

/// The link the client shows for an upload is the cloud URL, `media/`, then
/// the endpoint the CDN answers with, which itself begins with `/`: so
/// `media//{file_name}?id={id}&checksum={file_hash}`. That the endpoint's
/// query reads back as the id and checksum is
/// `endpoint::lemma_cdn_endpoint_reads_back`.
pub proof fn lemma_link_names_media_route(
    cloud_url: Seq<char>,
    file_name: Seq<char>,
    id: int,
    file_hash: Seq<char>,
)
    ensures
        cloud_url + "media/"@ + rel_endpoint_of(file_name, id, file_hash) == cloud_url + "media/"@
            + "/"@ + file_name + "?id="@ + decimal(id) + "&checksum="@ + file_hash,
{
    assert(cloud_url + "media/"@ + rel_endpoint_of(file_name, id, file_hash) =~= cloud_url
        + "media/"@ + "/"@ + file_name + "?id="@ + decimal(id) + "&checksum="@ + file_hash);
}

/// Accepts the server's answer to an upload when its status is a success.
pub fn check_upload_status(status_code: u16) -> (r: Result<(), UploadError>)
    ensures
        is_success(status_code) ==> r is Ok,
        r is Ok <==> (200 <= status_code && status_code < 300),
        !(200 <= status_code && status_code < 300) ==> r == Err::<(), UploadError>(
            UploadError::FailStatusCode { status_code },
        ),
        !is_success(status_code) ==> r == Err::<(), UploadError>(
            UploadError::FailStatusCode { status_code },
        ),
{
    if 200 <= status_code && status_code < 300 {
        Ok(())
    } else {
        Err(UploadError::FailStatusCode { status_code })
    }
}

} // verus!
