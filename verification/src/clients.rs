//! The addresses that the worker and the orchestrator call: the worker's
//! client of the orchestrator, and the orchestrator's client of the
//! storage service.

use vstd::prelude::*;
use crate::auth::WORKER_SECRET_HEADER;
use crate::ids::{format_id, id_text};
use crate::text::{join2, join3, opt_view};
use crate::urls::{artifact_path, artifact_path_text, log_path, log_path_text};

verus! {

/// The worker's client of the orchestrator.
#[derive(Debug, Clone)]
pub struct OrchestratorClient {
    pub base_url: String,
    /// The secret that the worker presents, if one is configured.
    pub worker_secret_key: Option<String>,
}

impl OrchestratorClient {
    /// A client of the orchestrator at `base_url`.
    pub fn new(base_url: &str, worker_secret_key: Option<String>) -> (client: OrchestratorClient)
        ensures
            client.base_url@ == base_url@,
            opt_view(client.worker_secret_key) == opt_view(worker_secret_key),
    {
        OrchestratorClient { base_url: String::from_str(base_url), worker_secret_key }
    }

    /// The header that authenticates the worker: its name and the secret,
    /// where one is configured.
    pub fn with_auth(&self) -> (header: Option<(&'static str, String)>)
        ensures
            match header {
                Some((name, value)) => name@ == "X-Worker-Secret"@ && opt_view(
                    self.worker_secret_key,
                ) == Some(value@),
                None => self.worker_secret_key is None,
            },
    {
        match &self.worker_secret_key {
            Some(secret) => Some((WORKER_SECRET_HEADER, secret.clone())),
            None => None,
        }
    }

    /// The URL of the registration.
    pub fn register(&self) -> (url: String)
        ensures
            url@ == self.base_url@ + "/api/v1/workers/register"@,
    {
        join2(self.base_url.as_str(), "/api/v1/workers/register")
    }

    /// The URL of the heartbeat.
    pub fn heartbeat(&self) -> (url: String)
        ensures
            url@ == self.base_url@ + "/api/v1/workers/heartbeat"@,
    {
        join2(self.base_url.as_str(), "/api/v1/workers/heartbeat")
    }

    /// The URL of the claim.
    pub fn claim_job(&self) -> (url: String)
        ensures
            url@ == self.base_url@ + "/api/v1/workers/claim"@,
    {
        join2(self.base_url.as_str(), "/api/v1/workers/claim")
    }

    fn worker_url(&self, worker_id: u128, suffix: &str) -> (url: String)
        ensures
            url@ == self.base_url@ + "/api/v1/workers/"@ + id_text(worker_id) + suffix@,
    {
        let mut url = join3(
            self.base_url.as_str(),
            "/api/v1/workers/",
            format_id(worker_id).as_str(),
        );
        url.push_str(suffix);
        url
    }

    /// The URL of the deregistration of a worker.
    pub fn deregister(&self, worker_id: u128) -> (url: String)
        ensures
            url@ == self.base_url@ + "/api/v1/workers/"@ + id_text(worker_id) + "/deregister"@,
    {
        self.worker_url(worker_id, "/deregister")
    }

    /// The URL of the completion report of a worker.
    pub fn complete_job(&self, worker_id: u128) -> (url: String)
        ensures
            url@ == self.base_url@ + "/api/v1/workers/"@ + id_text(worker_id) + "/complete"@,
    {
        self.worker_url(worker_id, "/complete")
    }

    /// The URL of the log push of a worker.
    pub fn push_log(&self, worker_id: u128) -> (url: String)
        ensures
            url@ == self.base_url@ + "/api/v1/workers/"@ + id_text(worker_id) + "/log"@,
    {
        self.worker_url(worker_id, "/log")
    }

    /// The URL of the upload of a job's log file.
    pub fn upload_log_file(&self, job_id: u128) -> (url: String)
        ensures
            url@ == self.base_url@ + "/api/v1/jobs/"@ + id_text(job_id) + "/logs/upload"@,
    {
        let mut url = join3(self.base_url.as_str(), "/api/v1/jobs/", format_id(job_id).as_str());
        url.push_str("/logs/upload");
        url
    }

    /// The URL of the upload of one artifact of a job.
    pub fn upload_artifact(&self, job_id: u128, file_name: &str) -> (url: String)
        ensures
            url@ == self.base_url@ + "/api/v1/jobs/"@ + id_text(job_id) + "/artifacts/"@
                + file_name@,
    {
        let mut url = join3(self.base_url.as_str(), "/api/v1/jobs/", format_id(job_id).as_str());
        url.push_str("/artifacts/");
        url.push_str(file_name);
        url
    }
}

/// The orchestrator's client of the storage service.
#[derive(Debug, Clone)]
pub struct SupabaseClient {
    pub base_url: String,
    pub api_key: String,
}

impl SupabaseClient {
    /// A client of the service at `base_url`, with its key.
    pub fn new(base_url: &str, api_key: &str) -> (client: SupabaseClient)
        ensures
            client.base_url@ == base_url@,
            client.api_key@ == api_key@,
    {
        SupabaseClient { base_url: String::from_str(base_url), api_key: String::from_str(api_key) }
    }

    /// The root of the service's table API.
    pub fn rest_url(&self) -> (url: String)
        ensures
            url@ == self.base_url@ + "/rest/v1"@,
    {
        join2(self.base_url.as_str(), "/rest/v1")
    }

    /// The root of the service's storage API.
    pub fn storage_url(&self) -> (url: String)
        ensures
            url@ == self.base_url@ + "/storage/v1"@,
    {
        join2(self.base_url.as_str(), "/storage/v1")
    }

    /// The value of the Authorization header of a call to the service.
    pub fn bearer(&self) -> (value: String)
        ensures
            value@ == "Bearer "@ + self.api_key@,
    {
        join2("Bearer ", self.api_key.as_str())
    }

    /// The URL under which the log file of a job is written.
    pub fn upload_log_file(&self, job_id: u128) -> (url: String)
        ensures
            url@ == self.base_url@ + "/storage/v1"@ + "/object/"@ + log_path_text(job_id),
    {
        let mut url = self.storage_url();
        url.push_str("/object/");
        url.push_str(log_path(job_id).as_str());
        url
    }

    /// The URL from which the log file of a job is read.
    pub fn download_log_file(&self, job_id: u128) -> (url: String)
        ensures
            url@ == self.base_url@ + "/storage/v1"@ + "/object/authenticated/"@ + log_path_text(
                job_id,
            ),
    {
        let mut url = self.storage_url();
        url.push_str("/object/authenticated/");
        url.push_str(log_path(job_id).as_str());
        url
    }

    /// The URL under which an artifact of a job is written, and the public
    /// URL under which it can be downloaded afterwards.
    pub fn upload_artifact_file(&self, job_id: u128, file_name: &str) -> (urls: (String, String))
        ensures
            urls.0@ == self.base_url@ + "/storage/v1"@ + "/object/"@ + artifact_path_text(
                job_id,
                file_name@,
            ),
            urls.1@ == self.base_url@ + "/storage/v1"@ + "/object/public/"@ + artifact_path_text(
                job_id,
                file_name@,
            ),
    {
        let path = artifact_path(job_id, file_name);
        let mut write = self.storage_url();
        write.push_str("/object/");
        write.push_str(path.as_str());
        let mut read = self.storage_url();
        read.push_str("/object/public/");
        read.push_str(path.as_str());
        (write, read)
    }
}

} // verus!
