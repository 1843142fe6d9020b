use vstd::prelude::*;
use vstd::string::StringExecFns;

use crate::completion::errno_result;
use crate::crypto::{crypto_bdev_name, crypto_name, CryptoRequest, CRYPTO_FLAVOUR};
use crate::error::{Error, ErrorModel};
use crate::protocol::{candidate, validate_frontend_protocol, ShareProtocol};

verus! {

/// An optional value seen through its view.
pub open spec fn opt_view<A: View>(o: Option<A>) -> Option<A::V> {
    match o {
        Some(a) => Some(a@),
        None => None,
    }
}

/// A result seen through the views of its value and of its error.
pub open spec fn result_view<A: View>(r: Result<A, Error>) -> Result<A::V, ErrorModel> {
    match r {
        Ok(a) => Ok(a@),
        Err(e) => Err(e@),
    }
}

/// A device published through the NBD front end: the exporter's handle and
/// the device path that it returned.
pub struct NbdShare<D> {
    pub disk: D,
    pub path: String,
}

impl<D> View for NbdShare<D> {
    type V = (D, Seq<char>);

    open spec fn view(&self) -> (D, Seq<char>) {
        (self.disk, self.path@)
    }
}

/// A device published as an iSCSI target: the exporter's handle and the
/// target's qualified name.
pub struct IscsiShare<T> {
    pub target: T,
    pub iqn: String,
}

impl<T> View for IscsiShare<T> {
    type V = (T, Seq<char>);

    open spec fn view(&self) -> (T, Seq<char>) {
        (self.target, self.iqn@)
    }
}

/// The share state of a nexus. `D` is the handle of an NBD export and `T`
/// the handle of an iSCSI target; both are owned here while the export lives.
pub struct Nexus<D, T> {
    name: String,
    share_protocol: ShareProtocol,
    share_handle: Option<String>,
    nbd_disk: Option<NbdShare<D>>,
    iscsi_target: Option<IscsiShare<T>>,
}

/// The share state of a nexus, as values.
pub struct NexusModel<D, T> {
    /// The name of the nexus, which is also its base device.
    pub name: Seq<char>,
    pub protocol: ShareProtocol,
    /// The name of the device handed to the exporter.
    pub handle: Option<Seq<char>>,
    /// The NBD export and its device path.
    pub nbd: Option<(D, Seq<char>)>,
    /// The iSCSI target and its qualified name.
    pub iscsi: Option<(T, Seq<char>)>,
}

impl<D, T> View for Nexus<D, T> {
    type V = NexusModel<D, T>;

    closed spec fn view(&self) -> NexusModel<D, T> {
        NexusModel {
            name: self.name@,
            protocol: self.share_protocol,
            handle: opt_view(self.share_handle),
            nbd: opt_view(self.nbd_disk),
            iscsi: opt_view(self.iscsi_target),
        }
    }
}

/// What the caller of a share step is to do next.
pub enum ShareAction {
    /// Create the encryption device, then report its status to
    /// `Nexus::crypto_created`.
    CreateCrypto(CryptoRequest),
    /// Publish the named device through NBD, then report to
    /// `Nexus::nbd_created`.
    CreateNbd(String),
    /// Publish the named device as an iSCSI target, then report to
    /// `Nexus::iscsi_created`.
    CreateIscsi(String),
}

pub enum ShareActionModel {
    CreateCrypto { base: Seq<char>, name: Seq<char>, flavour: Seq<char>, key: Seq<char> },
    CreateNbd(Seq<char>),
    CreateIscsi(Seq<char>),
}

impl View for ShareAction {
    type V = ShareActionModel;

    open spec fn view(&self) -> ShareActionModel {
        match self {
            ShareAction::CreateCrypto(req) => ShareActionModel::CreateCrypto {
                base: req.base@,
                name: req.name@,
                flavour: req.flavour@,
                key: req.key@,
            },
            ShareAction::CreateNbd(name) => ShareActionModel::CreateNbd(name@),
            ShareAction::CreateIscsi(name) => ShareActionModel::CreateIscsi(name@),
        }
    }
}

/// The export that `Nexus::unshare` hands back for tearing down, with the
/// name of the shared device. Once the export is gone, the caller looks that
/// device up and asks `Nexus::crypto_teardown_needed` what to do with it.
pub enum UnshareAction<D, T> {
    /// Destroy the NBD export, synchronously.
    DestroyNbd { disk: D, device: String },
    /// Destroy the iSCSI target and wait for it.
    DestroyIscsi { target: T, device: String },
}

pub enum UnshareActionModel<D, T> {
    DestroyNbd(D, Seq<char>),
    DestroyIscsi(T, Seq<char>),
}

impl<D, T> View for UnshareAction<D, T> {
    type V = UnshareActionModel<D, T>;

    open spec fn view(&self) -> UnshareActionModel<D, T> {
        match self {
            UnshareAction::DestroyNbd { disk, device } => UnshareActionModel::DestroyNbd(
                *disk,
                device@,
            ),
            UnshareAction::DestroyIscsi { target, device } => UnshareActionModel::DestroyIscsi(
                *target,
                device@,
            ),
        }
    }
}

impl<D, T> NexusModel<D, T> {
    /// A nexus that has never been shared.
    pub open spec fn fresh(name: Seq<char>) -> Self {
        NexusModel { name, protocol: ShareProtocol::Unshared, handle: None, nbd: None, iscsi: None }
    }

    /// The exporters and the share handle agree: a handle is held exactly
    /// while an export lives, and each export matches the protocol.
    pub open spec fn wf(self) -> bool {
        &&& (self.handle is Some <==> (self.nbd is Some || self.iscsi is Some))
        &&& (self.nbd is Some ==> self.protocol == ShareProtocol::Nbd)
        &&& (self.iscsi is Some ==> self.protocol == ShareProtocol::Iscsi)
    }

    /// No protocol is recorded exactly when no device is shared.
    pub open spec fn protocol_matches_handle(self) -> bool {
        (self.protocol == ShareProtocol::Unshared) <==> (self.handle is None)
    }

    /// The exporter to run on `export_name` for `protocol`.
    pub open spec fn export_step(protocol: ShareProtocol, export_name: Seq<char>) -> Result<
        ShareActionModel,
        ErrorModel,
    > {
        match protocol {
            ShareProtocol::Nbd => Ok(ShareActionModel::CreateNbd(export_name)),
            ShareProtocol::Iscsi => Ok(ShareActionModel::CreateIscsi(export_name)),
            _ => Err(ErrorModel::InvalidShareProtocol(protocol.spec_code())),
        }
    }

    /// The first step of sharing with the raw protocol `raw` and an optional
    /// encryption key: the new state and what to do next.
    pub open spec fn share_step(self, raw: i32, key: Option<Seq<char>>) -> (
        Self,
        Result<ShareActionModel, ErrorModel>,
    ) {
        if self.nbd is Some {
            (self, Err(ErrorModel::AlreadyShared(self.name)))
        } else {
            match candidate(raw) {
                None => (self, Err(ErrorModel::InvalidShareProtocol(raw))),
                Some(p) => {
                    let next = NexusModel { protocol: p, ..self };
                    match key {
                        Some(k) => (
                            next,
                            Ok(
                                ShareActionModel::CreateCrypto {
                                    base: self.name,
                                    name: crypto_name(self.name),
                                    flavour: CRYPTO_FLAVOUR@,
                                    key: k,
                                },
                            ),
                        ),
                        None => (next, Self::export_step(p, self.name)),
                    }
                },
            }
        }
    }

    /// What follows the creation of the encryption device `device` that
    /// completed with `errno`.
    pub open spec fn crypto_step(self, device: Seq<char>, errno: i32) -> Result<
        ShareActionModel,
        ErrorModel,
    > {
        if errno == 0 {
            Self::export_step(self.protocol, device)
        } else {
            Err(ErrorModel::CreateCryptoBdev(self.name, errno))
        }
    }

    /// The NBD exporter was run on `device` and published `created`, if
    /// anything.
    pub open spec fn nbd_step(self, device: Seq<char>, created: Option<(D, Seq<char>)>) -> (
        Self,
        Result<Seq<char>, ErrorModel>,
    ) {
        match created {
            Some(export) => (
                NexusModel { handle: Some(device), nbd: Some(export), ..self },
                Ok(export.1),
            ),
            None => (self, Err(ErrorModel::ShareNexus(self.name))),
        }
    }

    /// The iSCSI exporter was run on `device` and published `created`, if
    /// anything.
    pub open spec fn iscsi_step(self, device: Seq<char>, created: Option<(T, Seq<char>)>) -> (
        Self,
        Result<Seq<char>, ErrorModel>,
    ) {
        match created {
            Some(export) => (
                NexusModel { handle: Some(device), iscsi: Some(export), ..self },
                Ok(export.1),
            ),
            None => (self, Err(ErrorModel::ShareIscsiNexus(self.name))),
        }
    }

    /// The first step of unsharing: the new state and the export to tear
    /// down.
    pub open spec fn unshare_step(self) -> (Self, Result<UnshareActionModel<D, T>, ErrorModel>) {
        match self.protocol {
            ShareProtocol::Unshared => (self, Err(ErrorModel::NotShared(self.name))),
            ShareProtocol::Nvmf => (
                self,
                Err(ErrorModel::InvalidShareProtocol(ShareProtocol::Nvmf.spec_code())),
            ),
            ShareProtocol::Nbd => match self.nbd {
                Some(export) => (
                    NexusModel {
                        protocol: ShareProtocol::Unshared,
                        handle: None,
                        nbd: None,
                        ..self
                    },
                    Ok(UnshareActionModel::DestroyNbd(export.0, self.handle->0)),
                ),
                None => (self, Err(ErrorModel::NotShared(self.name))),
            },
            ShareProtocol::Iscsi => match self.iscsi {
                Some(export) => (
                    NexusModel {
                        protocol: ShareProtocol::Unshared,
                        handle: None,
                        iscsi: None,
                        ..self
                    },
                    Ok(UnshareActionModel::DestroyIscsi(export.0, self.handle->0)),
                ),
                None => (self, Err(ErrorModel::NotShared(self.name))),
            },
        }
    }

    /// Whether the device that the registry holds under the shared name,
    /// `found`, is an encryption layer over the nexus that is to be removed.
    pub open spec fn crypto_teardown_needed(self, found: Option<Seq<char>>) -> bool {
        match found {
            Some(device) => device != self.name,
            None => false,
        }
    }

    /// What follows the removal of the encryption device that completed with
    /// `errno`.
    pub open spec fn crypto_destroy_step(self, errno: i32) -> Result<(), ErrorModel> {
        if errno == 0 {
            Ok(())
        } else {
            Err(ErrorModel::DestroyCryptoBdev(self.name, errno))
        }
    }

    /// A whole `share`, given what the outside operations report: the status
    /// of the encryption device's creation, and what each exporter published.
    /// Only the steps that the request reaches look at these.
    pub open spec fn share_outcome(
        self,
        raw: i32,
        key: Option<Seq<char>>,
        crypto_status: i32,
        nbd: Option<(D, Seq<char>)>,
        iscsi: Option<(T, Seq<char>)>,
    ) -> (Self, Result<Seq<char>, ErrorModel>) {
        let (s1, r1) = self.share_step(raw, key);
        let r2 = match r1 {
            Ok(ShareActionModel::CreateCrypto { name, .. }) => s1.crypto_step(name, crypto_status),
            other => other,
        };
        match r2 {
            Ok(ShareActionModel::CreateNbd(device)) => s1.nbd_step(device, nbd),
            Ok(ShareActionModel::CreateIscsi(device)) => s1.iscsi_step(device, iscsi),
            // a crypto step never asks for another encryption device
            Ok(ShareActionModel::CreateCrypto { .. }) => (s1, Err(ErrorModel::InvalidShareProtocol(raw))),
            Err(e) => (s1, Err(e)),
        }
    }

    /// A whole `unshare`, given the name of the device that the registry
    /// holds under the shared name once the export is gone (`None` when there
    /// is none), and the status of the encryption device's removal.
    pub open spec fn unshare_outcome(self, found: Option<Seq<char>>, crypto_status: i32) -> (
        Self,
        Result<(), ErrorModel>,
    ) {
        let (s1, r1) = self.unshare_step();
        match r1 {
            Err(e) => (s1, Err(e)),
            Ok(_) => if s1.crypto_teardown_needed(found) {
                (s1, s1.crypto_destroy_step(crypto_status))
            } else {
                (s1, Ok(()))
            },
        }
    }
}

impl<D, T> Nexus<D, T> {
    pub open spec fn wf(&self) -> bool {
        self@.wf()
    }

    /// A nexus named `name` that is not shared.
    pub fn new(name: String) -> (r: Self)
        ensures
            r@ == NexusModel::<D, T>::fresh(name@),
            r.wf(),
    {
        Nexus {
            name,
            share_protocol: ShareProtocol::Unshared,
            share_handle: None,
            nbd_disk: None,
            iscsi_target: None,
        }
    }

    /// The exporter to run on `export_name` for the recorded protocol.
    fn export_action(&self, export_name: String) -> (r: Result<ShareAction, Error>)
        ensures
            result_view(r) == NexusModel::<D, T>::export_step(self.share_protocol, export_name@),
    {
        match self.share_protocol {
            ShareProtocol::Nbd => Ok(ShareAction::CreateNbd(export_name)),
            ShareProtocol::Iscsi => Ok(ShareAction::CreateIscsi(export_name)),
            _ => Err(Error::InvalidShareProtocol { sp_value: self.share_protocol.code() }),
        }
    }

    /// Starts sharing the nexus through the protocol with raw value
    /// `share_proto`, behind an encryption layer when a `key` is given.
    /// Refuses a second NBD export and a protocol that is no candidate; any
    /// other request records the protocol and names the first outside step.
    pub fn share(&mut self, share_proto: i32, key: Option<String>) -> (r: Result<ShareAction, Error>)
        requires
            old(self).wf(),
            old(self)@.nbd is Some || old(self)@.handle is None,
        ensures
            final(self).wf(),
            (final(self)@, result_view(r)) == old(self)@.share_step(share_proto, key.deep_view()),
    {
        if self.nbd_disk.is_some() {
            return Err(Error::AlreadyShared { name: self.name.clone() });
        }
        let protocol = match validate_frontend_protocol(share_proto) {
            Ok(p) => p,
            Err(e) => return Err(e),
        };
        self.share_protocol = protocol;
        match key {
            Some(key) => {
                let name = crypto_bdev_name(self.name.as_str());
                let request = CryptoRequest {
                    base: self.name.clone(),
                    name,
                    flavour: String::from_str(CRYPTO_FLAVOUR),
                    key,
                };
                Ok(ShareAction::CreateCrypto(request))
            },
            None => self.export_action(self.name.clone()),
        }
    }

    /// Continues a share once the encryption device of `request` was created
    /// with status `errno`: the exporter to run on it, or the failure.
    pub fn crypto_created(&self, request: CryptoRequest, errno: i32) -> (r: Result<ShareAction, Error>)
        ensures
            result_view(r) == self@.crypto_step(request.name@, errno),
    {
        match errno_result(request.name, errno) {
            Ok(device) => self.export_action(device),
            Err(errno) => Err(Error::CreateCryptoBdev { name: self.name.clone(), errno }),
        }
    }

    /// Ends a share once the NBD exporter was run on `device`: on success
    /// records the export and returns its device path.
    pub fn nbd_created(&mut self, device: String, created: Option<NbdShare<D>>) -> (r: Result<
        String,
        Error,
    >)
        requires
            old(self).wf(),
            old(self)@.protocol == ShareProtocol::Nbd,
            old(self)@.nbd is None,
        ensures
            final(self).wf(),
            (final(self)@, result_view(r)) == old(self)@.nbd_step(device@, opt_view(created)),
    {
        match created {
            Some(export) => {
                let path = export.path.clone();
                self.share_handle = Some(device);
                self.nbd_disk = Some(export);
                Ok(path)
            },
            None => Err(Error::ShareNexus { name: self.name.clone() }),
        }
    }

    /// Ends a share once the iSCSI exporter was run on `device`: on success
    /// records the target and returns its qualified name.
    pub fn iscsi_created(&mut self, device: String, created: Option<IscsiShare<T>>) -> (r: Result<
        String,
        Error,
    >)
        requires
            old(self).wf(),
            old(self)@.protocol == ShareProtocol::Iscsi,
            old(self)@.iscsi is None,
        ensures
            final(self).wf(),
            (final(self)@, result_view(r)) == old(self)@.iscsi_step(device@, opt_view(created)),
    {
        match created {
            Some(export) => {
                let iqn = export.iqn.clone();
                self.share_handle = Some(device);
                self.iscsi_target = Some(export);
                Ok(iqn)
            },
            None => Err(Error::ShareIscsiNexus { name: self.name.clone() }),
        }
    }

    /// Starts undoing a share: clears the share state and hands back the
    /// export to destroy, which must go before anything beneath it.
    pub fn unshare(&mut self) -> (r: Result<UnshareAction<D, T>, Error>)
        requires
            old(self).wf(),
        ensures
            final(self).wf(),
            (final(self)@, result_view(r)) == old(self)@.unshare_step(),
    {
        if validate_frontend_protocol(self.share_protocol.code()).is_err() {
            return Err(Error::NotShared { name: self.name.clone() });
        }
        match self.share_protocol {
            ShareProtocol::Nbd => match self.nbd_disk.take() {
                Some(export) => {
                    self.share_protocol = ShareProtocol::Unshared;
                    let device = self.share_handle.take().unwrap();
                    Ok(UnshareAction::DestroyNbd { disk: export.disk, device })
                },
                None => Err(Error::NotShared { name: self.name.clone() }),
            },
            ShareProtocol::Iscsi => match self.iscsi_target.take() {
                Some(export) => {
                    self.share_protocol = ShareProtocol::Unshared;
                    let device = self.share_handle.take().unwrap();
                    Ok(UnshareAction::DestroyIscsi { target: export.target, device })
                },
                None => Err(Error::NotShared { name: self.name.clone() }),
            },
            _ => Err(Error::InvalidShareProtocol { sp_value: self.share_protocol.code() }),
        }
    }

    /// Whether the device found under the shared name once the export is gone
    /// is an encryption layer to remove. A device that is missing is taken as
    /// removed already.
    pub fn crypto_teardown_needed(&self, found: Option<String>) -> (r: bool)
        ensures
            r == self@.crypto_teardown_needed(opt_view(found)),
    {
        match found {
            Some(device) => device != self.name,
            None => false,
        }
    }

    /// Ends an unshare once the encryption device was removed with status
    /// `errno`.
    pub fn crypto_destroyed(&self, errno: i32) -> (r: Result<(), Error>)
        ensures
            result_view(r) == self@.crypto_destroy_step(errno),
    {
        match errno_result((), errno) {
            Ok(()) => Ok(()),
            Err(errno) => Err(Error::DestroyCryptoBdev { name: self.name.clone(), errno }),
        }
    }

    /// The device path of the NBD export, if there is one. An iSCSI target is
    /// not reported here.
    pub fn get_share_path(&self) -> (r: Option<String>)
        ensures
            opt_view(r) == match self@.nbd {
                Some(export) => Some(export.1),
                None => None::<Seq<char>>,
            },
    {
        match &self.nbd_disk {
            Some(export) => Some(export.path.clone()),
            None => None,
        }
    }

    /// The name of the nexus.
    pub fn name(&self) -> (r: &String)
        ensures
            r@ == self@.name,
    {
        &self.name
    }

    /// The protocol recorded for the nexus.
    pub fn share_protocol(&self) -> (r: ShareProtocol)
        ensures
            r == self@.protocol,
    {
        self.share_protocol
    }

    /// The name of the device handed to the exporter, while one is shared.
    pub fn share_handle(&self) -> (r: Option<String>)
        ensures
            opt_view(r) == self@.handle,
    {
        self.share_handle.clone()
    }

    /// Whether an NBD export is held.
    pub fn has_nbd_disk(&self) -> (r: bool)
        ensures
            r == self@.nbd is Some,
    {
        self.nbd_disk.is_some()
    }

    /// Whether an iSCSI target is held.
    pub fn has_iscsi_target(&self) -> (r: bool)
        ensures
            r == self@.iscsi is Some,
    {
        self.iscsi_target.is_some()
    }
}

} // verus!
