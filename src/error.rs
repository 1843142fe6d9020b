use vstd::prelude::*;

verus! {

/// What can go wrong while sharing or unsharing a nexus. Each error names the
/// nexus it concerns, or the protocol value that was refused.
#[derive(Clone, Debug, PartialEq, Eq)]
pub enum Error {
    /// `share` was asked while an NBD export already exists.
    AlreadyShared { name: String },
    /// `unshare` was asked while no recognised export is active.
    NotShared { name: String },
    /// The protocol value is not a front-end candidate, or not one that can
    /// be exported yet.
    InvalidShareProtocol { sp_value: i32 },
    /// Creating the encryption device failed with the given status.
    CreateCryptoBdev { name: String, errno: i32 },
    /// Removing the encryption device failed with the given status.
    DestroyCryptoBdev { name: String, errno: i32 },
    /// The NBD exporter could not publish the device.
    ShareNexus { name: String },
    /// The iSCSI exporter could not publish the device.
    ShareIscsiNexus { name: String },
}

/// An error with its names as character sequences.
pub enum ErrorModel {
    AlreadyShared(Seq<char>),
    NotShared(Seq<char>),
    InvalidShareProtocol(i32),
    CreateCryptoBdev(Seq<char>, i32),
    DestroyCryptoBdev(Seq<char>, i32),
    ShareNexus(Seq<char>),
    ShareIscsiNexus(Seq<char>),
}

impl View for Error {
    type V = ErrorModel;

    open spec fn view(&self) -> ErrorModel {
        match self {
            Error::AlreadyShared { name } => ErrorModel::AlreadyShared(name@),
            Error::NotShared { name } => ErrorModel::NotShared(name@),
            Error::InvalidShareProtocol { sp_value } => ErrorModel::InvalidShareProtocol(*sp_value),
            Error::CreateCryptoBdev { name, errno } => ErrorModel::CreateCryptoBdev(name@, *errno),
            Error::DestroyCryptoBdev { name, errno } => ErrorModel::DestroyCryptoBdev(name@, *errno),
            Error::ShareNexus { name } => ErrorModel::ShareNexus(name@),
            Error::ShareIscsiNexus { name } => ErrorModel::ShareIscsiNexus(name@),
        }
    }
}

} // verus!
