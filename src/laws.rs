use vstd::prelude::*;

use crate::crypto::{crypto_name, lemma_crypto_name_differs, CRYPTO_FLAVOUR};
use crate::error::ErrorModel;
use crate::nexus::{NexusModel, ShareActionModel, UnshareActionModel};
use crate::protocol::{candidate, ShareProtocol};

verus! {

/// A share that succeeds, or that stops before recording a protocol, leaves
/// "no protocol recorded exactly when no device is shared" true. The share
/// that records a protocol and then fails (the `Nvmf` candidate, a failed
/// encryption device, a failed exporter) is left out: it keeps the protocol
/// without a handle.
pub proof fn lemma_share_keeps_protocol_matching_handle<D, T>(
    n: NexusModel<D, T>,
    raw: i32,
    key: Option<Seq<char>>,
    crypto_status: i32,
    nbd: Option<(D, Seq<char>)>,
    iscsi: Option<(T, Seq<char>)>,
)
    requires
        n.wf(),
        n.protocol_matches_handle(),
        n.nbd is Some || n.handle is None,
        raw != ShareProtocol::Nvmf.spec_code(),
        key is Some ==> crypto_status == 0,
        candidate(raw) == Some(ShareProtocol::Nbd) ==> nbd is Some,
        candidate(raw) == Some(ShareProtocol::Iscsi) ==> iscsi is Some,
    ensures
        n.share_outcome(raw, key, crypto_status, nbd, iscsi).0.wf(),
        n.share_outcome(raw, key, crypto_status, nbd, iscsi).0.protocol_matches_handle(),
{
}

/// Every unshare, whatever the outside operations report, leaves "no
/// protocol recorded exactly when no device is shared" true.
pub proof fn lemma_unshare_keeps_protocol_matching_handle<D, T>(
    n: NexusModel<D, T>,
    found: Option<Seq<char>>,
    crypto_status: i32,
)
    requires
        n.wf(),
        n.protocol_matches_handle(),
    ensures
        n.unshare_outcome(found, crypto_status).0.wf(),
        n.unshare_outcome(found, crypto_status).0.protocol_matches_handle(),
{
}

/// A successful share followed by an unshare gives back the share state
/// that the nexus had before: protocol, handle and both exports.
pub proof fn lemma_share_unshare_round_trip<D, T>(
    n: NexusModel<D, T>,
    raw: i32,
    key: Option<Seq<char>>,
    crypto_status: i32,
    nbd: Option<(D, Seq<char>)>,
    iscsi: Option<(T, Seq<char>)>,
    found: Option<Seq<char>>,
    destroy_status: i32,
)
    requires
        n.wf(),
        n.protocol_matches_handle(),
        n.nbd is Some || n.handle is None,
        n.share_outcome(raw, key, crypto_status, nbd, iscsi).1 is Ok,
    ensures
        n.share_outcome(raw, key, crypto_status, nbd, iscsi).0.unshare_step().1 is Ok,
        n.share_outcome(raw, key, crypto_status, nbd, iscsi).0.unshare_outcome(
            found,
            destroy_status,
        ).0 == n,
{
}

/// After an NBD share without a key, a second such share is refused as
/// already shared, and changes nothing.
pub proof fn lemma_second_nbd_share_refused<D, T>(
    n: NexusModel<D, T>,
    crypto_status: i32,
    disk: D,
    path: Seq<char>,
    iscsi: Option<(T, Seq<char>)>,
)
    requires
        n.wf(),
        n.nbd is Some || n.handle is None,
    ensures
        ({
            let s = n.share_outcome(
                ShareProtocol::Nbd.spec_code(),
                None,
                crypto_status,
                Some((disk, path)),
                iscsi,
            ).0;
            s.share_step(ShareProtocol::Nbd.spec_code(), None) == (
                s,
                Err::<ShareActionModel, ErrorModel>(ErrorModel::AlreadyShared(n.name)),
            )
        }),
{
}

/// A nexus that was never shared cannot be unshared.
pub proof fn lemma_unshare_fresh_not_shared<D, T>(
    name: Seq<char>,
    found: Option<Seq<char>>,
    crypto_status: i32,
)
    ensures
        NexusModel::<D, T>::fresh(name).unshare_outcome(found, crypto_status) == (
            NexusModel::<D, T>::fresh(name),
            Err::<(), ErrorModel>(ErrorModel::NotShared(name)),
        ),
{
}

/// A raw protocol value that names no candidate is refused with that value,
/// before anything is recorded.
pub proof fn lemma_invalid_protocol_refused<D, T>(
    n: NexusModel<D, T>,
    raw: i32,
    key: Option<Seq<char>>,
)
    requires
        n.nbd is None,
        candidate(raw) is None,
    ensures
        n.share_step(raw, key) == (
            n,
            Err::<ShareActionModel, ErrorModel>(ErrorModel::InvalidShareProtocol(raw)),
        ),
{
}

/// An encrypted NBD share creates the encryption device `crypto-<name>` on
/// the nexus first, then exports that device and returns the exporter's
/// path. Unsharing then destroys the export first, and after it the
/// encryption device found under the shared name.
pub proof fn lemma_encrypted_nbd_share_order<D, T>(
    n: NexusModel<D, T>,
    key: Seq<char>,
    disk: D,
    path: Seq<char>,
)
    requires
        n.wf(),
        n.protocol_matches_handle(),
        n.handle is None,
    ensures
        ({
            let derived = crypto_name(n.name);
            let (s1, a1) = n.share_step(ShareProtocol::Nbd.spec_code(), Some(key));
            let (s2, r2) = s1.nbd_step(derived, Some((disk, path)));
            let (s3, a3) = s2.unshare_step();
            &&& a1 == Ok::<ShareActionModel, ErrorModel>(
                ShareActionModel::CreateCrypto {
                    base: n.name,
                    name: derived,
                    flavour: CRYPTO_FLAVOUR@,
                    key,
                },
            )
            &&& s1.crypto_step(derived, 0) == Ok::<ShareActionModel, ErrorModel>(
                ShareActionModel::CreateNbd(derived),
            )
            &&& r2 == Ok::<Seq<char>, ErrorModel>(path)
            &&& s2.handle == Some(derived)
            &&& a3 == Ok::<UnshareActionModel<D, T>, ErrorModel>(
                UnshareActionModel::DestroyNbd(disk, derived),
            )
            &&& s3.crypto_teardown_needed(Some(derived))
        }),
{
    lemma_crypto_name_differs(n.name);
}

/// Asking for `Nvmf` without a key always fails as an invalid protocol,
/// whatever the outside operations would report, and leaves the handle and
/// both exports as they were.
pub proof fn lemma_nvmf_refused<D, T>(
    n: NexusModel<D, T>,
    crypto_status: i32,
    nbd: Option<(D, Seq<char>)>,
    iscsi: Option<(T, Seq<char>)>,
)
    requires
        n.nbd is None,
    ensures
        ({
            let (s, r) = n.share_outcome(
                ShareProtocol::Nvmf.spec_code(),
                None,
                crypto_status,
                nbd,
                iscsi,
            );
            &&& r == Err::<Seq<char>, ErrorModel>(
                ErrorModel::InvalidShareProtocol(ShareProtocol::Nvmf.spec_code()),
            )
            &&& s.handle == n.handle
            &&& s.nbd == n.nbd
            &&& s.iscsi == n.iscsi
        }),
{
}

/// When the exporter fails after the encryption device was created, the
/// share fails with the protocol recorded and no handle or export, so
/// nothing remains that would tear the encryption device down: a later
/// unshare is refused as not shared.
pub proof fn lemma_export_failure_keeps_crypto_device<D, T>(
    n: NexusModel<D, T>,
    raw: i32,
    key: Seq<char>,
)
    requires
        n.wf(),
        n.handle is None,
        candidate(raw) == Some(ShareProtocol::Nbd) || candidate(raw) == Some(
            ShareProtocol::Iscsi,
        ),
    ensures
        n.share_step(raw, Some(key)).1 is Ok,
        n.share_step(raw, Some(key)).1->Ok_0 is CreateCrypto,
        ({
            let (s, r) = n.share_outcome(raw, Some(key), 0, None, None);
            &&& s == NexusModel { protocol: candidate(raw)->Some_0, ..n }
            &&& r == Err::<Seq<char>, ErrorModel>(
                if candidate(raw) == Some(ShareProtocol::Nbd) {
                    ErrorModel::ShareNexus(n.name)
                } else {
                    ErrorModel::ShareIscsiNexus(n.name)
                },
            )
            &&& s.unshare_step() == (
                s,
                Err::<UnshareActionModel<D, T>, ErrorModel>(ErrorModel::NotShared(n.name)),
            )
        }),
{
}

} // verus!
