//! The URLs and storage paths of the service.

use vstd::prelude::*;
use crate::ids::{format_id, id_text};
use crate::text::join3;

verus! {

/// The URL of a job's live log stream.
pub open spec fn stream_url_text(base_url: Seq<char>, job_id: u128) -> Seq<char> {
    base_url + "/api/v1/jobs/"@ + id_text(job_id) + "/logs"@
}

/// The URL to which the archive of a job is uploaded.
pub open spec fn upload_url_text(base_url: Seq<char>, job_id: u128) -> Seq<char> {
    base_url + "/api/v1/jobs/"@ + id_text(job_id) + "/upload"@
}

/// The storage key of a job's source archive: named after the commit where
/// one is given, so that the same commit shares one archive, and after the
/// job otherwise.
pub open spec fn storage_key_text(commit_sha: Option<Seq<char>>, job_id: u128) -> Seq<char> {
    "sources/"@ + match commit_sha {
        Some(sha) => sha,
        None => id_text(job_id),
    } + ".zip"@
}

/// The public URL of a storage object.
pub open spec fn public_url_text(storage_url: Seq<char>, key: Seq<char>) -> Seq<char> {
    storage_url + "/storage/v1/object/public/"@ + key
}

/// The URL under which a storage object is written.
pub open spec fn object_url_text(storage_url: Seq<char>, path: Seq<char>) -> Seq<char> {
    storage_url + "/storage/v1/object/"@ + path
}

/// The storage path of a job's log file.
pub open spec fn log_path_text(job_id: u128) -> Seq<char> {
    "logs/"@ + id_text(job_id) + ".log"@
}

/// The storage path of one artifact of a job.
pub open spec fn artifact_path_text(job_id: u128, file_name: Seq<char>) -> Seq<char> {
    "artifacts/"@ + id_text(job_id) + "/"@ + file_name
}

/// The URL of a job's live log stream.
pub fn stream_url(base_url: &str, job_id: u128) -> (url: String)
    ensures
        url@ == stream_url_text(base_url@, job_id),
{
    let mut url = join3(base_url, "/api/v1/jobs/", format_id(job_id).as_str());
    url.push_str("/logs");
    url
}

/// The URL to which the archive of a job is uploaded.
pub fn upload_url(base_url: &str, job_id: u128) -> (url: String)
    ensures
        url@ == upload_url_text(base_url@, job_id),
{
    let mut url = join3(base_url, "/api/v1/jobs/", format_id(job_id).as_str());
    url.push_str("/upload");
    url
}

/// The storage key of a job's source archive.
pub fn storage_key(commit_sha: Option<&str>, job_id: u128) -> (key: String)
    ensures
        key@ == storage_key_text(
            match commit_sha {
                Some(s) => Some(s@),
                None => None,
            },
            job_id,
        ),
{
    match commit_sha {
        Some(sha) => join3("sources/", sha, ".zip"),
        None => join3("sources/", format_id(job_id).as_str(), ".zip"),
    }
}

/// The public URL of a storage object.
pub fn public_url(storage_url: &str, key: &str) -> (url: String)
    ensures
        url@ == public_url_text(storage_url@, key@),
{
    join3(storage_url, "/storage/v1/object/public/", key)
}

/// The URL under which a storage object is written.
pub fn object_url(storage_url: &str, path: &str) -> (url: String)
    ensures
        url@ == object_url_text(storage_url@, path@),
{
    join3(storage_url, "/storage/v1/object/", path)
}

/// The storage path of a job's log file.
pub fn log_path(job_id: u128) -> (path: String)
    ensures
        path@ == log_path_text(job_id),
{
    join3("logs/", format_id(job_id).as_str(), ".log")
}

/// The storage path of one artifact of a job.
pub fn artifact_path(job_id: u128, file_name: &str) -> (path: String)
    ensures
        path@ == artifact_path_text(job_id, file_name@),
{
    let mut path = join3("artifacts/", format_id(job_id).as_str(), "/");
    path.push_str(file_name);
    path
}

/// Deduplication: two upload requests that name the same commit get the
/// same storage key and the same download URL, whatever their jobs.
pub proof fn law_same_commit_same_archive(
    storage_url: Seq<char>,
    commit_sha: Seq<char>,
    first_job: u128,
    second_job: u128,
)
    ensures
        storage_key_text(Some(commit_sha), first_job) == storage_key_text(
            Some(commit_sha),
            second_job,
        ),
        public_url_text(storage_url, storage_key_text(Some(commit_sha), first_job))
            == public_url_text(storage_url, storage_key_text(Some(commit_sha), second_job)),
{
}

} // verus!
