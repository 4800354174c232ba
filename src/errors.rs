//! The failures that the relay reports at its boundaries.
use vstd::prelude::*;

verus! {

#[derive(Clone, Debug)]
pub enum Error {
    /// A string that does not name an address.
    InvalidAddress(String),
    /// A contract ABI that could not be loaded.
    InvalidContractAbi,
    /// A configuration path that is not valid text.
    InvalidConfigFilePath,
    /// An anchor frequency of zero.
    InvalidAnchorFrequency,
    /// A confirmation depth that is not below the anchor frequency.
    InvalidConfirmations,
    /// A failure of the RPC transport.
    Transport(String),
}

} // verus!
