use vstd::prelude::*;

use crate::error::Error;

verus! {

/// The front-end protocols through which a nexus can be exposed.
#[derive(Clone, Copy, Debug, PartialEq, Eq, Structural)]
pub enum ShareProtocol {
    Unshared,
    Nvmf,
    Iscsi,
    Nbd,
}

impl ShareProtocol {
    /// The raw wire value of the protocol.
    pub open spec fn spec_code(self) -> i32 {
        match self {
            ShareProtocol::Unshared => 0,
            ShareProtocol::Nvmf => 1,
            ShareProtocol::Iscsi => 2,
            ShareProtocol::Nbd => 3,
        }
    }

    pub fn code(self) -> (r: i32)
        ensures
            r == self.spec_code(),
    {
        match self {
            ShareProtocol::Unshared => 0,
            ShareProtocol::Nvmf => 1,
            ShareProtocol::Iscsi => 2,
            ShareProtocol::Nbd => 3,
        }
    }
}

/// The protocol that a raw value names, among those that may be asked for:
/// `Nvmf`, `Iscsi` and `Nbd`. Any other value, `Unshared` included, is none.
pub open spec fn candidate(raw: i32) -> Option<ShareProtocol> {
    if raw == ShareProtocol::Nvmf.spec_code() {
        Some(ShareProtocol::Nvmf)
    } else if raw == ShareProtocol::Iscsi.spec_code() {
        Some(ShareProtocol::Iscsi)
    } else if raw == ShareProtocol::Nbd.spec_code() {
        Some(ShareProtocol::Nbd)
    } else {
        None
    }
}

/// Accepts a raw protocol value that names a front-end candidate, and rejects
/// anything else with the raw value kept for diagnostics.
pub fn validate_frontend_protocol(raw: i32) -> (r: Result<ShareProtocol, Error>)
    ensures
        r == match candidate(raw) {
            Some(p) => Ok::<ShareProtocol, Error>(p),
            None => Err(Error::InvalidShareProtocol { sp_value: raw }),
        },
{
    if raw == 1 {
        Ok(ShareProtocol::Nvmf)
    } else if raw == 2 {
        Ok(ShareProtocol::Iscsi)
    } else if raw == 3 {
        Ok(ShareProtocol::Nbd)
    } else {
        Err(Error::InvalidShareProtocol { sp_value: raw })
    }
}

} // verus!
