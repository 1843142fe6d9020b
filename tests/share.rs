use nexus_share::completion::errno_result;
use nexus_share::crypto::{crypto_bdev_name, CryptoRequest, CRYPTO_FLAVOUR};
use nexus_share::error::Error;
use nexus_share::nexus::{IscsiShare, NbdShare, Nexus, ShareAction, UnshareAction};
use nexus_share::protocol::{validate_frontend_protocol, ShareProtocol};

#[derive(Debug, PartialEq, Eq)]
struct Disk(u32);

#[derive(Debug, PartialEq, Eq)]
struct Target(u32);

fn nexus(name: &str) -> Nexus<Disk, Target> {
    Nexus::new(name.to_string())
}

fn nbd(id: u32, path: &str) -> Option<NbdShare<Disk>> {
    Some(NbdShare { disk: Disk(id), path: path.to_string() })
}

fn iscsi(id: u32, iqn: &str) -> Option<IscsiShare<Target>> {
    Some(IscsiShare { target: Target(id), iqn: iqn.to_string() })
}

fn protocol_agrees(n: &Nexus<Disk, Target>) -> bool {
    (n.share_protocol() == ShareProtocol::Unshared) == n.share_handle().is_none()
}

/// Shares through NBD without a key, all the way.
fn share_nbd_plain(n: &mut Nexus<Disk, Target>, path: &str) -> Result<String, Error> {
    match n.share(ShareProtocol::Nbd.code(), None)? {
        ShareAction::CreateNbd(device) => n.nbd_created(device, nbd(1, path)),
        _ => panic!("unexpected step"),
    }
}

#[test]
fn protocol_codes() {
    assert_eq!(ShareProtocol::Unshared.code(), 0);
    assert_eq!(ShareProtocol::Nvmf.code(), 1);
    assert_eq!(ShareProtocol::Iscsi.code(), 2);
    assert_eq!(ShareProtocol::Nbd.code(), 3);
}

#[test]
fn validate_accepts_candidates() {
    assert_eq!(validate_frontend_protocol(1), Ok(ShareProtocol::Nvmf));
    assert_eq!(validate_frontend_protocol(2), Ok(ShareProtocol::Iscsi));
    assert_eq!(validate_frontend_protocol(3), Ok(ShareProtocol::Nbd));
}

#[test]
fn validate_rejects_others() {
    assert_eq!(validate_frontend_protocol(0), Err(Error::InvalidShareProtocol { sp_value: 0 }));
    assert_eq!(validate_frontend_protocol(99), Err(Error::InvalidShareProtocol { sp_value: 99 }));
    assert_eq!(validate_frontend_protocol(-1), Err(Error::InvalidShareProtocol { sp_value: -1 }));
}

#[test]
fn errno_result_converts_status() {
    assert_eq!(errno_result("dev", 0), Ok("dev"));
    assert_eq!(errno_result("dev", -22), Err(-22));
}

#[test]
fn crypto_name_is_prefixed() {
    assert_eq!(crypto_bdev_name("nexus0"), "crypto-nexus0");
    assert_eq!(crypto_bdev_name(""), "crypto-");
}

#[test]
fn fresh_nexus_is_unshared() {
    let n = nexus("n0");
    assert_eq!(n.name(), "n0");
    assert_eq!(n.share_protocol(), ShareProtocol::Unshared);
    assert_eq!(n.share_handle(), None);
    assert!(!n.has_nbd_disk());
    assert!(!n.has_iscsi_target());
    assert_eq!(n.get_share_path(), None);
}

#[test]
fn share_nbd_without_key() {
    let mut n = nexus("n0");
    assert_eq!(share_nbd_plain(&mut n, "/dev/nbd0"), Ok("/dev/nbd0".to_string()));
    assert_eq!(n.share_protocol(), ShareProtocol::Nbd);
    assert_eq!(n.share_handle(), Some("n0".to_string()));
    assert!(n.has_nbd_disk());
    assert_eq!(n.get_share_path(), Some("/dev/nbd0".to_string()));
    assert!(protocol_agrees(&n));
}

#[test]
fn share_iscsi_without_key() {
    let mut n = nexus("n0");
    let step = n.share(ShareProtocol::Iscsi.code(), None).unwrap();
    let device = match step {
        ShareAction::CreateIscsi(device) => device,
        _ => panic!("unexpected step"),
    };
    assert_eq!(device, "n0");
    let iqn = "iqn.2019-05.io.openebs:n0";
    assert_eq!(n.iscsi_created(device, iscsi(7, iqn)), Ok(iqn.to_string()));
    assert_eq!(n.share_protocol(), ShareProtocol::Iscsi);
    assert_eq!(n.share_handle(), Some("n0".to_string()));
    assert!(n.has_iscsi_target());
    assert!(!n.has_nbd_disk());
    // the path accessor reports NBD exports only
    assert_eq!(n.get_share_path(), None);
    assert!(protocol_agrees(&n));
}

#[test]
fn share_then_unshare_restores_state() {
    let mut n = nexus("n0");
    share_nbd_plain(&mut n, "/dev/nbd0").unwrap();
    match n.unshare() {
        Ok(UnshareAction::DestroyNbd { disk, device }) => {
            assert_eq!(disk, Disk(1));
            assert_eq!(device, "n0");
            // the device found under the handle is the nexus itself
            assert!(!n.crypto_teardown_needed(Some(device)));
        },
        _ => panic!("unexpected step"),
    }
    assert_eq!(n.share_protocol(), ShareProtocol::Unshared);
    assert_eq!(n.share_handle(), None);
    assert!(!n.has_nbd_disk());
    assert!(!n.has_iscsi_target());
    assert!(protocol_agrees(&n));
}

#[test]
fn iscsi_share_then_unshare_restores_state() {
    let mut n = nexus("n1");
    match n.share(ShareProtocol::Iscsi.code(), None) {
        Ok(ShareAction::CreateIscsi(device)) => {
            n.iscsi_created(device, iscsi(3, "iqn:n1")).unwrap();
        },
        _ => panic!("unexpected step"),
    }
    match n.unshare() {
        Ok(UnshareAction::DestroyIscsi { target, device }) => {
            assert_eq!(target, Target(3));
            assert_eq!(device, "n1");
        },
        _ => panic!("unexpected step"),
    }
    assert_eq!(n.share_protocol(), ShareProtocol::Unshared);
    assert_eq!(n.share_handle(), None);
    assert!(!n.has_iscsi_target());
}

#[test]
fn second_nbd_share_is_already_shared() {
    let mut n = nexus("n0");
    share_nbd_plain(&mut n, "/dev/nbd0").unwrap();
    assert_eq!(
        n.share(ShareProtocol::Nbd.code(), None).err(),
        Some(Error::AlreadyShared { name: "n0".to_string() })
    );
    assert_eq!(n.share_handle(), Some("n0".to_string()));
    assert_eq!(n.get_share_path(), Some("/dev/nbd0".to_string()));
}

#[test]
fn unshare_never_shared() {
    let mut n = nexus("n0");
    assert_eq!(n.unshare().err(), Some(Error::NotShared { name: "n0".to_string() }));
    assert!(protocol_agrees(&n));
}

#[test]
fn share_out_of_range_protocol() {
    let mut n = nexus("n0");
    assert_eq!(
        n.share(99, None).err(),
        Some(Error::InvalidShareProtocol { sp_value: 99 })
    );
    assert_eq!(n.share_protocol(), ShareProtocol::Unshared);
    assert_eq!(n.share_handle(), None);
    assert!(!n.has_nbd_disk());
    assert!(!n.has_iscsi_target());
}

#[test]
fn share_unshared_protocol_is_invalid() {
    let mut n = nexus("n0");
    assert_eq!(
        n.share(ShareProtocol::Unshared.code(), Some("k".to_string())).err(),
        Some(Error::InvalidShareProtocol { sp_value: 0 })
    );
    assert_eq!(n.share_protocol(), ShareProtocol::Unshared);
}

#[test]
fn encrypted_nbd_share_order() {
    let mut n = nexus("n0");
    let request = match n.share(ShareProtocol::Nbd.code(), Some("secret".to_string())) {
        Ok(ShareAction::CreateCrypto(request)) => request,
        _ => panic!("unexpected step"),
    };
    assert_eq!(
        request,
        CryptoRequest {
            base: "n0".to_string(),
            name: "crypto-n0".to_string(),
            flavour: CRYPTO_FLAVOUR.to_string(),
            key: "secret".to_string(),
        }
    );
    assert_eq!(request.flavour, "crypto_aesni_mb");
    // nothing is exported before the encryption device exists
    assert_eq!(n.share_handle(), None);
    let device = match n.crypto_created(request, 0) {
        Ok(ShareAction::CreateNbd(device)) => device,
        _ => panic!("unexpected step"),
    };
    assert_eq!(device, "crypto-n0");
    assert_eq!(n.nbd_created(device, nbd(4, "/dev/nbd4")), Ok("/dev/nbd4".to_string()));
    assert_eq!(n.share_handle(), Some("crypto-n0".to_string()));
    assert_eq!(n.get_share_path(), Some("/dev/nbd4".to_string()));

    // the export goes first, then the encryption device beneath it
    let device = match n.unshare() {
        Ok(UnshareAction::DestroyNbd { disk, device }) => {
            assert_eq!(disk, Disk(4));
            device
        },
        _ => panic!("unexpected step"),
    };
    assert_eq!(device, "crypto-n0");
    assert!(n.crypto_teardown_needed(Some(device)));
    assert_eq!(n.crypto_destroyed(0), Ok(()));
    assert_eq!(n.share_handle(), None);
    assert_eq!(n.share_protocol(), ShareProtocol::Unshared);
}

#[test]
fn missing_device_needs_no_teardown() {
    let n = nexus("n0");
    assert!(!n.crypto_teardown_needed(None));
    assert!(!n.crypto_teardown_needed(Some("n0".to_string())));
    assert!(n.crypto_teardown_needed(Some("crypto-n0".to_string())));
}

#[test]
fn crypto_destroy_failure() {
    let n = nexus("n0");
    assert_eq!(
        n.crypto_destroyed(-5),
        Err(Error::DestroyCryptoBdev { name: "n0".to_string(), errno: -5 })
    );
}

#[test]
fn nvmf_share_is_refused() {
    let mut n = nexus("n0");
    assert_eq!(
        n.share(ShareProtocol::Nvmf.code(), None).err(),
        Some(Error::InvalidShareProtocol { sp_value: 1 })
    );
    assert_eq!(n.share_handle(), None);
    assert!(!n.has_nbd_disk());
    assert!(!n.has_iscsi_target());
    // the protocol is recorded before it is found unsupported
    assert_eq!(n.share_protocol(), ShareProtocol::Nvmf);
}

#[test]
fn nvmf_share_with_key_fails_after_crypto() {
    let mut n = nexus("n0");
    let request = match n.share(ShareProtocol::Nvmf.code(), Some("k".to_string())) {
        Ok(ShareAction::CreateCrypto(request)) => request,
        _ => panic!("unexpected step"),
    };
    assert_eq!(
        n.crypto_created(request, 0).err(),
        Some(Error::InvalidShareProtocol { sp_value: 1 })
    );
}

#[test]
fn unshare_nvmf_is_invalid() {
    let mut n = nexus("n0");
    let _ = n.share(ShareProtocol::Nvmf.code(), None);
    assert_eq!(n.unshare().err(), Some(Error::InvalidShareProtocol { sp_value: 1 }));
    assert_eq!(n.share_protocol(), ShareProtocol::Nvmf);
}

#[test]
fn crypto_creation_failure() {
    let mut n = nexus("n0");
    let request = match n.share(ShareProtocol::Iscsi.code(), Some("k".to_string())) {
        Ok(ShareAction::CreateCrypto(request)) => request,
        _ => panic!("unexpected step"),
    };
    assert_eq!(
        n.crypto_created(request, -12).err(),
        Some(Error::CreateCryptoBdev { name: "n0".to_string(), errno: -12 })
    );
    assert_eq!(n.share_protocol(), ShareProtocol::Iscsi);
    assert_eq!(n.share_handle(), None);
}

#[test]
fn exporter_failure_after_crypto_leaves_partial_state() {
    let mut n = nexus("n0");
    let request = match n.share(ShareProtocol::Nbd.code(), Some("k".to_string())) {
        Ok(ShareAction::CreateCrypto(request)) => request,
        _ => panic!("unexpected step"),
    };
    let device = match n.crypto_created(request, 0) {
        Ok(ShareAction::CreateNbd(device)) => device,
        _ => panic!("unexpected step"),
    };
    assert_eq!(n.nbd_created(device, None).err(), Some(Error::ShareNexus { name: "n0".to_string() }));
    assert_eq!(n.share_protocol(), ShareProtocol::Nbd);
    assert_eq!(n.share_handle(), None);
    assert!(!n.has_nbd_disk());
    assert!(!protocol_agrees(&n));
    // nothing holds the encryption device's name for a teardown
    assert_eq!(n.unshare().err(), Some(Error::NotShared { name: "n0".to_string() }));
}

#[test]
fn iscsi_exporter_failure() {
    let mut n = nexus("n0");
    let device = match n.share(ShareProtocol::Iscsi.code(), None) {
        Ok(ShareAction::CreateIscsi(device)) => device,
        _ => panic!("unexpected step"),
    };
    assert_eq!(
        n.iscsi_created(device, None).err(),
        Some(Error::ShareIscsiNexus { name: "n0".to_string() })
    );
    assert_eq!(n.share_protocol(), ShareProtocol::Iscsi);
    assert!(!n.has_iscsi_target());
}

#[test]
fn share_again_after_unshare() {
    let mut n = nexus("n0");
    share_nbd_plain(&mut n, "/dev/nbd0").unwrap();
    assert!(n.unshare().is_ok());
    assert_eq!(share_nbd_plain(&mut n, "/dev/nbd1"), Ok("/dev/nbd1".to_string()));
    assert_eq!(n.get_share_path(), Some("/dev/nbd1".to_string()));
}
