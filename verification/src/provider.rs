//! The vocabulary between a session and the native provider that performs
//! its calls. The session decides which call comes next and what an answer
//! means; the provider performs the call and reports what came of it.

use crate::windows::pair::PairingKind;
use crate::BluetoothError;
use vstd::prelude::*;

verus! {

/// A remote device that the provider has resolved.
#[derive(Clone, Copy, Debug, PartialEq, Eq, Structural)]
pub struct DeviceHandle(pub u64);

/// A serial service that the provider has found on a device.
#[derive(Clone, Copy, Debug, PartialEq, Eq, Structural)]
pub struct ServiceHandle(pub u64);

/// A stream socket that the provider has opened and connected.
#[derive(Clone, Copy, Debug, PartialEq, Eq, Structural)]
pub struct SocketHandle(pub u64);

/// One native read or write that the provider has started.
#[derive(Clone, Copy, Debug, PartialEq, Eq, Structural)]
pub struct OperationHandle(pub u64);

/// What the provider knows of the bond with a device.
#[derive(Clone, Copy, Debug, PartialEq, Eq, Structural)]
pub struct PairingState {
    pub can_pair: bool,
    pub is_paired: bool,
}

/// How a native call failed.
#[derive(Debug, PartialEq, Eq)]
pub enum ProviderError {
    /// The call failed, or found nothing, in the way its stage expects. The
    /// text is the provider's own and is not shown to the caller.
    Failed(String),
    /// The provider has already placed the failure in the taxonomy.
    Classified(BluetoothError),
    /// A failure of no expected shape, with the provider's diagnostic text.
    Unrecoverable(String),
}

impl Clone for ProviderError {
    fn clone(&self) -> (copy: Self)
        ensures
            copy == *self,
    {
        match self {
            ProviderError::Failed(text) => ProviderError::Failed(text.clone()),
            ProviderError::Classified(kind) => ProviderError::Classified(kind.clone()),
            ProviderError::Unrecoverable(text) => ProviderError::Unrecoverable(text.clone()),
        }
    }
}

/// A call that the session asks the provider to make.
#[derive(Clone, Copy, Debug, PartialEq, Eq, Structural)]
pub enum ProviderCall {
    /// Look up the peer by its address.
    ResolveDevice { address: u64 },
    /// Ask whether the device can be paired and whether it already is.
    QueryPairing { device: DeviceHandle },
    /// Pair with the device, offering the given kind of ceremony.
    Pair { device: DeviceHandle, kind: PairingKind },
    /// List the services on the device that carry the given identifier.
    FindServices { device: DeviceHandle, uuid: u128 },
    /// Open a fresh socket and connect it to the service.
    ConnectSocket { service: ServiceHandle },
}

/// What a look at a native operation shows.
#[derive(Clone, Copy, Debug, PartialEq, Eq, Structural)]
pub enum Progress {
    /// The operation is still under way.
    Running,
    /// The operation has ended, having moved this many bytes.
    Moved(usize),
    /// The operation has failed.
    Failed,
}

/// What came of a call.
#[derive(Debug, PartialEq, Eq)]
pub enum ProviderReply {
    Device(Result<DeviceHandle, ProviderError>),
    Pairing(Result<PairingState, ProviderError>),
    Paired(Result<(), ProviderError>),
    Services(Result<Vec<ServiceHandle>, ProviderError>),
    Socket(Result<SocketHandle, ProviderError>),
}

} // verus!
