//! The file access coordinator: one request end-to-end.
//!
//! Every request is handled in two verified steps around the single external
//! effect (the storage backend's read or write). `begin_upload` and
//! `authorize_download` resolve the authorization decision first — nothing may
//! touch stored bytes before it — and `finish_upload` / `finish_download` map
//! the backend's outcome to the response, rolling back a brand-new claim whose
//! dependent write failed so that the filename can be claimed again.

use vstd::prelude::*;

use crate::registry::claim_decision;
use crate::registry::claim_result;
use crate::registry::credentials_present;
use crate::registry::Credentials;
use crate::registry::CredentialsView;
use crate::registry::AuthDecision;
use crate::registry::Registry;

verus! {

/// The registry's abstract state: filename to owning credentials.
pub type RegistryView = Map<Seq<char>, CredentialsView>;

/// One failure kind per way a request can be turned away.
#[derive(Debug)]
pub enum ServerError {
    /// A credential field was missing from the request.
    Unauthenticated,
    /// Credentials that do not match the filename's owner, or a download of an
    /// unclaimed filename.
    PermissionDenied,
    /// The registry has an owner but the backend has no bytes for the
    /// filename.
    NotFound,
    /// The storage backend failed; `detail` carries its message.
    Internal { detail: String },
}

impl ServerError {
    /// A human-readable message for this failure, as the client sees it.
    pub fn message(&self) -> (m: String)
        ensures
            self matches ServerError::Internal { detail } ==> m@ == detail@,
    {
        match self {
            ServerError::Unauthenticated => "Username or password missing".to_string(),
            ServerError::PermissionDenied => "Invalid username or password".to_string(),
            ServerError::NotFound => "File not found".to_string(),
            ServerError::Internal { detail } => detail.clone(),
        }
    }
}

/// The successful response to either request: a confirmation message, plus
/// the file's bytes for a download (empty for an upload).
pub struct FileResponse {
    pub message: String,
    pub data: Vec<u8>,
}

/// What `begin_upload` tells the caller to do next: answer with an error, or
/// write the payload to storage and report back through `finish_upload`.
pub enum UploadStep {
    Reject(ServerError),
    Store { new_owner: bool },
}

/// The storage backend's answer to a read: the bytes, no file behind the
/// filename, or an I/O failure with its message.
pub enum DownloadRead {
    Found(Vec<u8>),
    Missing,
    Failed(String),
}

/// What `begin_upload` decides: missing credentials are turned away before the
/// registry is consulted; otherwise the claim-or-verify rule speaks.
pub open spec fn spec_upload_step(reg: RegistryView, f: Seq<char>, c: CredentialsView) -> UploadStep {
    if !credentials_present(c) {
        UploadStep::Reject(ServerError::Unauthenticated)
    } else {
        match claim_decision(reg, f, c) {
            AuthDecision::Authorized { new_owner } => UploadStep::Store { new_owner },
            AuthDecision::Denied => UploadStep::Reject(ServerError::PermissionDenied),
        }
    }
}

/// The registry after `begin_upload`: only a present, authorized candidate can
/// claim an unclaimed filename; every other request leaves it untouched.
pub open spec fn spec_upload_registry(
    reg: RegistryView,
    f: Seq<char>,
    c: CredentialsView,
) -> RegistryView {
    if !credentials_present(c) {
        reg
    } else {
        claim_result(reg, f, c)
    }
}

/// The registry after `finish_upload`: a brand-new claim whose storage write
/// failed is rolled back; everything else stays.
pub open spec fn spec_upload_rollback(
    reg: RegistryView,
    f: Seq<char>,
    new_owner: bool,
    write_ok: bool,
) -> RegistryView {
    if !write_ok && new_owner {
        reg.remove(f)
    } else {
        reg
    }
}

/// What `authorize_download` decides: missing credentials fail first; an
/// unclaimed filename or a mismatched pair is denied; only the recorded owner
/// may read.
pub open spec fn spec_download_auth(reg: RegistryView, f: Seq<char>, c: CredentialsView) -> Result<
    (),
    ServerError,
> {
    if !credentials_present(c) {
        Err(ServerError::Unauthenticated)
    } else if !reg.contains_key(f) {
        Err(ServerError::PermissionDenied)
    } else if reg[f] != c {
        Err(ServerError::PermissionDenied)
    } else {
        Ok(())
    }
}

/// The request handler: owns the ownership registry and resolves every
/// authorization decision before any storage I/O is allowed.
pub struct MyFileServer {
    registry: Registry,
}

impl View for MyFileServer {
    type V = RegistryView;

    closed spec fn view(&self) -> RegistryView {
        self.registry@
    }
}

impl Default for MyFileServer {
    /// A fresh server: nothing is claimed.
    fn default() -> (r: MyFileServer)
        ensures
            r.wf(),
            r@ == Map::<Seq<char>, CredentialsView>::empty(),
    {
        MyFileServer { registry: Registry::new() }
    }
}

impl MyFileServer {
    /// The registry holds at most one record per filename.
    pub closed spec fn wf(&self) -> bool {
        self.registry.wf()
    }

    /// A fresh server: nothing is claimed.
    pub fn new() -> (r: MyFileServer)
        ensures
            r.wf(),
            r@ == Map::<Seq<char>, CredentialsView>::empty(),
    {
        MyFileServer { registry: Registry::new() }
    }

    /// First half of an upload: validate the credentials, then claim or verify
    /// ownership of the filename in one atomic registry step. Returns either
    /// the error to answer with — the registry then stands exactly as before —
    /// or the directive to write the payload, which the caller must follow
    /// with `finish_upload` before releasing the server.
    pub fn begin_upload(&mut self, filename: &String, credentials: &Credentials) -> (step:
        UploadStep)
        requires
            old(self).wf(),
            filename@.len() > 0,
        ensures
            final(self).wf(),
            step == spec_upload_step(old(self)@, filename@, credentials@),
            final(self)@ == spec_upload_registry(old(self)@, filename@, credentials@),
    {
        if !credentials.is_present() {
            return UploadStep::Reject(ServerError::Unauthenticated);
        }
        match self.registry.claim_or_verify(filename, credentials) {
            AuthDecision::Authorized { new_owner } => UploadStep::Store { new_owner },
            AuthDecision::Denied => UploadStep::Reject(ServerError::PermissionDenied),
        }
    }

    /// Second half of an upload: fold the storage backend's write outcome into
    /// the response. A success confirms the upload; a failure surfaces the
    /// backend's message as `Internal`, and if the write belonged to a
    /// brand-new claim the claim is rolled back so a retry can claim the
    /// filename afresh.
    pub fn finish_upload(
        &mut self,
        filename: &String,
        new_owner: bool,
        write_result: Result<(), String>,
    ) -> (r: Result<FileResponse, ServerError>)
        requires
            old(self).wf(),
        ensures
            final(self).wf(),
            final(self)@ == spec_upload_rollback(
                old(self)@,
                filename@,
                new_owner,
                write_result is Ok,
            ),
            write_result is Ok ==> (r matches Ok(resp) && resp.message@
                == "File uploaded successfully"@ && resp.data@ == Seq::<u8>::empty()),
            write_result matches Err(m) ==> r == Err::<FileResponse, ServerError>(
                ServerError::Internal { detail: m },
            ),
    {
        match write_result {
            Ok(()) => Ok(
                FileResponse {
                    message: "File uploaded successfully".to_string(),
                    data: Vec::new(),
                },
            ),
            Err(detail) => {
                if new_owner {
                    self.registry.remove_record(filename);
                }
                Err(ServerError::Internal { detail })
            },
        }
    }

    /// First half of a download: validate the credentials, then admit only the
    /// filename's recorded owner. An unclaimed filename is denied exactly like
    /// a mismatch — never `NotFound` — so the response does not reveal whether
    /// the filename exists. No registry mutation, and no storage read may
    /// happen unless this returns `Ok`.
    pub fn authorize_download(&self, filename: &String, credentials: &Credentials) -> (r: Result<
        (),
        ServerError,
    >)
        requires
            self.wf(),
            filename@.len() > 0,
        ensures
            r == spec_download_auth(self@, filename@, credentials@),
    {
        if !credentials.is_present() {
            return Err(ServerError::Unauthenticated);
        }
        match self.registry.lookup(filename) {
            None => Err(ServerError::PermissionDenied),
            Some(owner) => {
                if owner.username == credentials.username && owner.password
                    == credentials.password {
                    Ok(())
                } else {
                    Err(ServerError::PermissionDenied)
                }
            },
        }
    }

    /// Second half of a download: fold the storage backend's read outcome into
    /// the response. The bytes the backend found are returned exactly as they
    /// are; a missing file is `NotFound` (the registry and the backend
    /// diverged); an I/O failure surfaces as `Internal` with its message.
    pub fn finish_download(read_result: DownloadRead) -> (r: Result<FileResponse, ServerError>)
        ensures
            read_result matches DownloadRead::Found(b) ==> (r matches Ok(resp) && resp.data
                == b && resp.message@ == "File downloaded successfully"@),
            read_result is Missing ==> r == Err::<FileResponse, ServerError>(
                ServerError::NotFound,
            ),
            read_result matches DownloadRead::Failed(m) ==> r == Err::<FileResponse, ServerError>(
                ServerError::Internal { detail: m },
            ),
    {
        match read_result {
            DownloadRead::Found(data) => Ok(
                FileResponse { message: "File downloaded successfully".to_string(), data },
            ),
            DownloadRead::Missing => Err(ServerError::NotFound),
            DownloadRead::Failed(detail) => Err(ServerError::Internal { detail }),
        }
    }
}

} // verus!
