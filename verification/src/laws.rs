//! The guarantees of the ownership model, stated and proved over the same
//! spec-level transition functions that the coordinator's contracts use.
//!
//! Each law quantifies over an arbitrary registry state, so it holds at every
//! point of a server's life, for any interleaving of requests: the coordinator
//! serializes registry steps, so a run of the service is exactly a sequence of
//! these transitions.

use vstd::prelude::*;

use crate::registry::credentials_present;
use crate::registry::CredentialsView;
use crate::server::spec_download_auth;
use crate::server::spec_upload_registry;
use crate::server::spec_upload_rollback;
use crate::server::spec_upload_step;
use crate::server::RegistryView;
use crate::server::ServerError;
use crate::server::UploadStep;

verus! {

/// A first upload of an unclaimed filename with present credentials is
/// granted as the new owner, records exactly those credentials, and a
/// download with the same pair is then authorized.
pub proof fn lemma_first_upload_grants_ownership(reg: RegistryView, f: Seq<char>, c: CredentialsView)
    requires
        !reg.contains_key(f),
        credentials_present(c),
    ensures
        spec_upload_step(reg, f, c) == (UploadStep::Store { new_owner: true }),
        spec_upload_registry(reg, f, c).contains_key(f),
        spec_upload_registry(reg, f, c)[f] == c,
        spec_download_auth(spec_upload_registry(reg, f, c), f, c) == Ok::<(), ServerError>(()),
{
}

/// Whatever is attempted against a claimed filename with credentials other
/// than its owner's fails with `PermissionDenied` — uploads regardless of
/// payload (the payload never reaches the decision), downloads alike — and
/// the registry stands unchanged.
pub proof fn lemma_wrong_credentials_denied(
    reg: RegistryView,
    f: Seq<char>,
    other: CredentialsView,
)
    requires
        reg.contains_key(f),
        other != reg[f],
        credentials_present(other),
    ensures
        spec_upload_step(reg, f, other) == UploadStep::Reject(ServerError::PermissionDenied),
        spec_upload_registry(reg, f, other) == reg,
        spec_download_auth(reg, f, other) == Err::<(), ServerError>(ServerError::PermissionDenied),
{
}

/// Downloading a filename that was never uploaded fails with
/// `PermissionDenied`, not `NotFound`: an unclaimed filename is never
/// readable, and the response does not betray that it is unclaimed.
pub proof fn lemma_unclaimed_download_denied(reg: RegistryView, f: Seq<char>, c: CredentialsView)
    requires
        !reg.contains_key(f),
        credentials_present(c),
    ensures
        spec_download_auth(reg, f, c) == Err::<(), ServerError>(ServerError::PermissionDenied),
{
}

/// Re-uploading with the recorded owner's credentials is authorized as a
/// returning owner, never as a new one, and leaves the ownership record
/// exactly as it was — whatever the write outcome, no rollback touches it.
pub proof fn lemma_reupload_idempotent(reg: RegistryView, f: Seq<char>, c: CredentialsView)
    requires
        reg.contains_key(f),
        reg[f] == c,
        credentials_present(c),
    ensures
        spec_upload_step(reg, f, c) == (UploadStep::Store { new_owner: false }),
        spec_upload_registry(reg, f, c) == reg,
        forall|ok: bool| spec_upload_rollback(reg, f, false, ok) == reg,
{
}

/// Once a filename is claimed, no upload whatsoever changes its owner, and no
/// later claimant is ever granted `new_owner`. With
/// `lemma_first_upload_grants_ownership` this pins the concurrent case: of any
/// number of serialized first uploads of one filename, exactly the first is
/// granted as new owner.
pub proof fn lemma_owner_never_changes(reg: RegistryView, f: Seq<char>, c: CredentialsView)
    requires
        reg.contains_key(f),
    ensures
        spec_upload_registry(reg, f, c).contains_key(f),
        spec_upload_registry(reg, f, c)[f] == reg[f],
        spec_upload_step(reg, f, c) != (UploadStep::Store { new_owner: true }),
{
}

/// Two rivals for one unclaimed filename: whichever claim the registry serves
/// first wins it, and the other — presenting a different pair — is denied
/// outright, with the registry left exactly as the winner's claim made it.
pub proof fn lemma_exactly_one_first_claim(
    reg: RegistryView,
    f: Seq<char>,
    winner: CredentialsView,
    rival: CredentialsView,
)
    requires
        !reg.contains_key(f),
        credentials_present(winner),
        credentials_present(rival),
        rival != winner,
    ensures
        spec_upload_step(reg, f, winner) == (UploadStep::Store { new_owner: true }),
        spec_upload_step(spec_upload_registry(reg, f, winner), f, rival) == UploadStep::Reject(
            ServerError::PermissionDenied,
        ),
        spec_upload_registry(spec_upload_registry(reg, f, winner), f, rival)
            == spec_upload_registry(reg, f, winner),
{
}

/// A request that omits a credential field fails `Unauthenticated` and the
/// registry stands untouched; in particular no upload is ever directed to
/// write, so storage is never reached.
pub proof fn lemma_missing_credentials_rejected_first(
    reg: RegistryView,
    f: Seq<char>,
    c: CredentialsView,
)
    requires
        !credentials_present(c),
    ensures
        spec_upload_step(reg, f, c) == UploadStep::Reject(ServerError::Unauthenticated),
        spec_upload_registry(reg, f, c) == reg,
        spec_download_auth(reg, f, c) == Err::<(), ServerError>(ServerError::Unauthenticated),
{
}

/// The hardening around a failed first write: rolling back the brand-new
/// claim restores the registry exactly, so a retry finds the filename
/// claimable again.
pub proof fn lemma_failed_new_claim_released(reg: RegistryView, f: Seq<char>, c: CredentialsView)
    requires
        !reg.contains_key(f),
        credentials_present(c),
    ensures
        spec_upload_rollback(spec_upload_registry(reg, f, c), f, true, false) == reg,
{
    assert(spec_upload_rollback(spec_upload_registry(reg, f, c), f, true, false) =~= reg);
}

/// Every owner on record is a present credential pair: presence is checked
/// before any claim is recorded, and no transition rewrites a record.
pub proof fn lemma_recorded_owners_stay_present(
    reg: RegistryView,
    f: Seq<char>,
    c: CredentialsView,
)
    requires
        forall|k: Seq<char>| #[trigger]
            reg.contains_key(k) ==> credentials_present(reg[k]),
    ensures
        forall|k: Seq<char>| #[trigger]
            spec_upload_registry(reg, f, c).contains_key(k) ==> credentials_present(
                spec_upload_registry(reg, f, c)[k],
            ),
{
}

} // verus!
