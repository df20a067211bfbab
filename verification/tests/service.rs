//! End-to-end exercises of the coordinator and the registry against an
//! instrumented in-memory storage backend, the way the surrounding server
//! drives them: authorize first, then perform the storage step, then fold its
//! outcome back in.

use fileserver::registry::AuthDecision;
use fileserver::registry::Credentials;
use fileserver::registry::Registry;
use fileserver::server::DownloadRead;
use fileserver::server::FileResponse;
use fileserver::server::MyFileServer;
use fileserver::server::ServerError;
use fileserver::server::UploadStep;

/// An in-memory stand-in for the filesystem that counts every call, can be
/// told to fail the next write, and can lose a file behind the registry's
/// back.
struct FakeStorage {
    files: Vec<(String, Vec<u8>)>,
    writes: usize,
    reads: usize,
    fail_next_write: bool,
}

impl FakeStorage {
    fn new() -> FakeStorage {
        FakeStorage { files: Vec::new(), writes: 0, reads: 0, fail_next_write: false }
    }

    fn write(&mut self, name: &str, data: &[u8]) -> Result<(), String> {
        self.writes += 1;
        if self.fail_next_write {
            self.fail_next_write = false;
            return Err("disk full".to_string());
        }
        for entry in self.files.iter_mut() {
            if entry.0 == name {
                entry.1 = data.to_vec();
                return Ok(());
            }
        }
        self.files.push((name.to_string(), data.to_vec()));
        Ok(())
    }

    fn read(&mut self, name: &str) -> DownloadRead {
        self.reads += 1;
        for entry in self.files.iter() {
            if entry.0 == name {
                return DownloadRead::Found(entry.1.clone());
            }
        }
        DownloadRead::Missing
    }

    fn lose(&mut self, name: &str) {
        self.files.retain(|entry| entry.0 != name);
    }
}

fn creds(username: &str, password: &str) -> Credentials {
    Credentials { username: username.to_string(), password: password.to_string() }
}

fn upload(
    server: &mut MyFileServer,
    storage: &mut FakeStorage,
    filename: &str,
    username: &str,
    password: &str,
    data: &[u8],
) -> Result<FileResponse, ServerError> {
    let f = filename.to_string();
    let c = creds(username, password);
    match server.begin_upload(&f, &c) {
        UploadStep::Reject(e) => Err(e),
        UploadStep::Store { new_owner } => {
            let write_result = storage.write(filename, data);
            server.finish_upload(&f, new_owner, write_result)
        }
    }
}

fn download(
    server: &MyFileServer,
    storage: &mut FakeStorage,
    filename: &str,
    username: &str,
    password: &str,
) -> Result<FileResponse, ServerError> {
    let f = filename.to_string();
    let c = creds(username, password);
    match server.authorize_download(&f, &c) {
        Err(e) => Err(e),
        Ok(()) => MyFileServer::finish_download(storage.read(filename)),
    }
}

#[test]
fn first_upload_then_download_returns_bytes() {
    let mut server = MyFileServer::new();
    let mut storage = FakeStorage::new();
    let r = upload(&mut server, &mut storage, "report.pdf", "alice", "pw1", b"contents");
    assert!(r.is_ok());
    assert_eq!(r.unwrap().message, "File uploaded successfully");
    let d = download(&server, &mut storage, "report.pdf", "alice", "pw1").unwrap();
    assert_eq!(d.data, b"contents".to_vec());
    assert_eq!(d.message, "File downloaded successfully");
}

#[test]
fn upload_with_wrong_credentials_denied_and_content_kept() {
    let mut server = MyFileServer::new();
    let mut storage = FakeStorage::new();
    upload(&mut server, &mut storage, "a.txt", "alice", "pw1", b"original").unwrap();
    let r = upload(&mut server, &mut storage, "a.txt", "mallory", "guess", b"overwrite");
    assert!(matches!(r, Err(ServerError::PermissionDenied)));
    let d = download(&server, &mut storage, "a.txt", "alice", "pw1").unwrap();
    assert_eq!(d.data, b"original".to_vec());
}

#[test]
fn wrong_password_same_username_denied() {
    let mut server = MyFileServer::new();
    let mut storage = FakeStorage::new();
    upload(&mut server, &mut storage, "a.txt", "alice", "pw1", b"x").unwrap();
    let r = upload(&mut server, &mut storage, "a.txt", "alice", "pw2", b"y");
    assert!(matches!(r, Err(ServerError::PermissionDenied)));
    let d = download(&server, &mut storage, "a.txt", "alice", "pw2");
    assert!(matches!(d, Err(ServerError::PermissionDenied)));
}

#[test]
fn download_with_wrong_credentials_denied() {
    let mut server = MyFileServer::new();
    let mut storage = FakeStorage::new();
    upload(&mut server, &mut storage, "a.txt", "alice", "pw1", b"secret").unwrap();
    let d = download(&server, &mut storage, "a.txt", "bob", "pw2");
    assert!(matches!(d, Err(ServerError::PermissionDenied)));
}

#[test]
fn download_of_unclaimed_filename_is_permission_denied_not_not_found() {
    let server = MyFileServer::new();
    let mut storage = FakeStorage::new();
    let d = download(&server, &mut storage, "never-uploaded.txt", "alice", "pw1");
    assert!(!matches!(d, Err(ServerError::NotFound)));
    assert!(matches!(d, Err(ServerError::PermissionDenied)));
}

#[test]
fn reupload_identical_bytes_by_owner_is_idempotent() {
    let mut server = MyFileServer::new();
    let mut storage = FakeStorage::new();
    upload(&mut server, &mut storage, "a.txt", "alice", "pw1", b"same").unwrap();
    let step = server.begin_upload(&"a.txt".to_string(), &creds("alice", "pw1"));
    assert!(matches!(step, UploadStep::Store { new_owner: false }));
    let w = storage.write("a.txt", b"same");
    server.finish_upload(&"a.txt".to_string(), false, w).unwrap();
    let d = download(&server, &mut storage, "a.txt", "alice", "pw1").unwrap();
    assert_eq!(d.data, b"same".to_vec());
    // Ownership unchanged: a third party is still denied.
    let r = upload(&mut server, &mut storage, "a.txt", "bob", "pw2", b"other");
    assert!(matches!(r, Err(ServerError::PermissionDenied)));
}

#[test]
fn owner_may_overwrite_with_new_bytes() {
    let mut server = MyFileServer::new();
    let mut storage = FakeStorage::new();
    upload(&mut server, &mut storage, "a.txt", "alice", "pw1", b"v1").unwrap();
    upload(&mut server, &mut storage, "a.txt", "alice", "pw1", b"v2").unwrap();
    let d = download(&server, &mut storage, "a.txt", "alice", "pw1").unwrap();
    assert_eq!(d.data, b"v2".to_vec());
}

#[test]
fn competing_first_claims_grant_exactly_one_owner() {
    let mut server = MyFileServer::new();
    let mut storage = FakeStorage::new();
    // Five requests race for one unclaimed filename; the registry serializes
    // them, so they arrive as five claim-or-verify steps.
    let rivals = [("u1", "p1"), ("u2", "p2"), ("u3", "p3"), ("u4", "p4"), ("u5", "p5")];
    let mut new_owner_grants: usize = 0;
    let mut denials: usize = 0;
    for (u, p) in rivals.iter() {
        match server.begin_upload(&"shared.txt".to_string(), &creds(u, p)) {
            UploadStep::Store { new_owner: true } => {
                let w = storage.write("shared.txt", u.as_bytes());
                server
                    .finish_upload(&"shared.txt".to_string(), true, w)
                    .unwrap();
                new_owner_grants += 1;
            }
            UploadStep::Store { new_owner: false } => panic!("no rival shares credentials"),
            UploadStep::Reject(e) => {
                assert!(matches!(e, ServerError::PermissionDenied));
                denials += 1;
            }
        }
    }
    assert_eq!(new_owner_grants, 1);
    assert_eq!(denials, 4);
    // The winner was the first in line.
    let d = download(&server, &mut storage, "shared.txt", "u1", "p1").unwrap();
    assert_eq!(d.data, b"u1".to_vec());
}

#[test]
fn missing_credentials_fail_before_any_storage_access() {
    let mut server = MyFileServer::new();
    let mut storage = FakeStorage::new();
    let r = upload(&mut server, &mut storage, "a.txt", "", "pw1", b"x");
    assert!(matches!(r, Err(ServerError::Unauthenticated)));
    let r = upload(&mut server, &mut storage, "a.txt", "alice", "", b"x");
    assert!(matches!(r, Err(ServerError::Unauthenticated)));
    let d = download(&server, &mut storage, "a.txt", "", "pw1");
    assert!(matches!(d, Err(ServerError::Unauthenticated)));
    let d = download(&server, &mut storage, "a.txt", "alice", "");
    assert!(matches!(d, Err(ServerError::Unauthenticated)));
    assert_eq!(storage.writes, 0);
    assert_eq!(storage.reads, 0);
}

#[test]
fn scenario_notes_txt() {
    let mut server = MyFileServer::new();
    let mut storage = FakeStorage::new();
    let r = upload(&mut server, &mut storage, "notes.txt", "alice", "pw1", b"hello");
    assert!(r.is_ok());
    let d = download(&server, &mut storage, "notes.txt", "alice", "pw1").unwrap();
    assert_eq!(d.data, b"hello".to_vec());
    let d = download(&server, &mut storage, "notes.txt", "bob", "pw2");
    assert!(matches!(d, Err(ServerError::PermissionDenied)));
    let r = upload(&mut server, &mut storage, "notes.txt", "bob", "pw2", b"hijack");
    assert!(matches!(r, Err(ServerError::PermissionDenied)));
    let d = download(&server, &mut storage, "notes.txt", "alice", "pw1").unwrap();
    assert_eq!(d.data, b"hello".to_vec());
}

#[test]
fn write_failure_on_first_claim_surfaces_internal_and_releases_the_name() {
    let mut server = MyFileServer::new();
    let mut storage = FakeStorage::new();
    storage.fail_next_write = true;
    let r = upload(&mut server, &mut storage, "a.txt", "alice", "pw1", b"x");
    match r {
        Err(ServerError::Internal { detail }) => assert_eq!(detail, "disk full"),
        _ => panic!("expected an internal storage error"),
    }
    // The brand-new claim was rolled back: another pair can claim the name.
    let r = upload(&mut server, &mut storage, "a.txt", "bob", "pw2", b"y");
    assert!(r.is_ok());
    let d = download(&server, &mut storage, "a.txt", "bob", "pw2").unwrap();
    assert_eq!(d.data, b"y".to_vec());
}

#[test]
fn write_failure_on_reupload_keeps_ownership() {
    let mut server = MyFileServer::new();
    let mut storage = FakeStorage::new();
    upload(&mut server, &mut storage, "a.txt", "alice", "pw1", b"v1").unwrap();
    storage.fail_next_write = true;
    let r = upload(&mut server, &mut storage, "a.txt", "alice", "pw1", b"v2");
    assert!(matches!(r, Err(ServerError::Internal { .. })));
    // Ownership survived the failed overwrite.
    let r = upload(&mut server, &mut storage, "a.txt", "bob", "pw2", b"z");
    assert!(matches!(r, Err(ServerError::PermissionDenied)));
    let d = download(&server, &mut storage, "a.txt", "alice", "pw1").unwrap();
    assert_eq!(d.data, b"v1".to_vec());
}

#[test]
fn download_when_backing_file_vanished_is_not_found() {
    let mut server = MyFileServer::new();
    let mut storage = FakeStorage::new();
    upload(&mut server, &mut storage, "a.txt", "alice", "pw1", b"x").unwrap();
    storage.lose("a.txt");
    let d = download(&server, &mut storage, "a.txt", "alice", "pw1");
    assert!(matches!(d, Err(ServerError::NotFound)));
}

#[test]
fn download_read_failure_is_internal() {
    let r = MyFileServer::finish_download(DownloadRead::Failed("device gone".to_string()));
    match r {
        Err(ServerError::Internal { detail }) => assert_eq!(detail, "device gone"),
        _ => panic!("expected an internal storage error"),
    }
}

#[test]
fn error_messages() {
    assert_eq!(ServerError::Unauthenticated.message(), "Username or password missing");
    assert_eq!(ServerError::PermissionDenied.message(), "Invalid username or password");
    assert_eq!(ServerError::NotFound.message(), "File not found");
    let e = ServerError::Internal { detail: "disk full".to_string() };
    assert_eq!(e.message(), "disk full");
}

#[test]
fn registry_claim_or_verify_decisions() {
    let mut reg = Registry::new();
    let f = "a.txt".to_string();
    let alice = creds("alice", "pw1");
    let bob = creds("bob", "pw2");
    assert!(reg.lookup(&f).is_none());
    assert!(matches!(
        reg.claim_or_verify(&f, &alice),
        AuthDecision::Authorized { new_owner: true }
    ));
    assert!(matches!(
        reg.claim_or_verify(&f, &alice),
        AuthDecision::Authorized { new_owner: false }
    ));
    assert!(matches!(reg.claim_or_verify(&f, &bob), AuthDecision::Denied));
    let owner = reg.lookup(&f).unwrap();
    assert_eq!(owner.username, "alice");
    assert_eq!(owner.password, "pw1");
    reg.remove_record(&f);
    assert!(reg.lookup(&f).is_none());
    assert!(matches!(
        reg.claim_or_verify(&f, &bob),
        AuthDecision::Authorized { new_owner: true }
    ));
}

#[test]
fn default_server_has_no_claims() {
    let mut server: MyFileServer = Default::default();
    let mut storage = FakeStorage::new();
    let d = download(&server, &mut storage, "a.txt", "alice", "pw1");
    assert!(matches!(d, Err(ServerError::PermissionDenied)));
    let r = upload(&mut server, &mut storage, "a.txt", "alice", "pw1", b"x");
    assert!(r.is_ok());
}

#[test]
fn credentials_presence() {
    assert!(creds("alice", "pw1").is_present());
    assert!(!creds("", "pw1").is_present());
    assert!(!creds("alice", "").is_present());
    assert!(!creds("", "").is_present());
}

#[test]
fn upload_response_has_empty_data() {
    let mut server = MyFileServer::new();
    let mut storage = FakeStorage::new();
    let r = upload(&mut server, &mut storage, "a.txt", "alice", "pw1", b"abc").unwrap();
    assert!(r.data.is_empty());
}
