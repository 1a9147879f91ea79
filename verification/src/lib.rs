//! Serial-port sessions over Bluetooth, written so that every decision is
//! made by verified code and every native call is left to the embedder.

use crate::common::device::BluetoothDevice;
use std::time::Duration;
use vstd::prelude::*;

pub mod common;
pub mod mock;
pub mod provider;
pub mod windows;

verus! {

/// Why a connection attempt, or the session built on it, failed.
#[derive(Debug, PartialEq, Eq)]
pub enum BluetoothError {
    PermissionDenied,
    DeviceNotFound,
    DeviceNotPairing,
    ServiceNotFound,
    NotConnected,
    /// The deadline of the given length passed before the attempt finished.
    TimedOut(Duration),
    /// A failure outside the taxonomy, with the provider's diagnostic text.
    RuntimeError(String),
}

impl Clone for BluetoothError {
    fn clone(&self) -> (copy: Self)
        ensures
            copy == *self,
    {
        match self {
            BluetoothError::PermissionDenied => BluetoothError::PermissionDenied,
            BluetoothError::DeviceNotFound => BluetoothError::DeviceNotFound,
            BluetoothError::DeviceNotPairing => BluetoothError::DeviceNotPairing,
            BluetoothError::ServiceNotFound => BluetoothError::ServiceNotFound,
            BluetoothError::NotConnected => BluetoothError::NotConnected,
            BluetoothError::TimedOut(limit) => BluetoothError::TimedOut(*limit),
            BluetoothError::RuntimeError(text) => BluetoothError::RuntimeError(text.clone()),
        }
    }
}

/// The answer to one poll of an operation that may still be under way.
#[derive(Debug, PartialEq, Eq)]
pub enum Poll<T> {
    Ready(T),
    Pending,
}

/// The result of an attempt that ran against a deadline of length `timeout`.
/// `finished` holds what the attempt produced if it ended before the
/// deadline, and is `None` if the deadline came first.
pub fn timeout_result<T>(finished: Option<Result<T, BluetoothError>>, timeout: Duration) -> (result:
    Result<T, BluetoothError>)
    ensures
        result == match finished {
            Some(own) => own,
            None => Err(BluetoothError::TimedOut(timeout)),
        },
{
    match finished {
        Some(own) => own,
        None => Err(BluetoothError::TimedOut(timeout)),
    }
}

/// A session as its user sees it: connect, with a deadline or without one,
/// and ask for the peer.
pub trait BluetoothSppSession {
    /// The peer of the latest attempt.
    spec fn peer(&self) -> BluetoothDevice;

    /// Whether an attempt on this session would never end by itself.
    spec fn stalls(&self) -> bool;

    /// Connects to the serial port service of `device`.
    fn connect(&mut self, device: &BluetoothDevice, need_pairing: bool) -> (result: Result<
        (),
        BluetoothError,
    >)
        requires
            !old(self).stalls(),
        ensures
            final(self).peer() == *device,
            !(result matches Err(BluetoothError::TimedOut(_))),
    ;

    /// Connects to the serial port service of `device`, or gives up after
    /// `timeout`.
    fn connect_timeout(&mut self, device: &BluetoothDevice, need_pairing: bool, timeout: Duration) -> (result:
        Result<(), BluetoothError>)
        ensures
            final(self).peer() == *device,
            old(self).stalls() ==> result == Err::<(), BluetoothError>(BluetoothError::TimedOut(timeout)),
            result matches Err(BluetoothError::TimedOut(limit)) ==> limit == timeout,
    ;

    /// Connects to the service `uuid` of `device`.
    fn connect_by_uuid(&mut self, device: &BluetoothDevice, uuid: u128, need_pairing: bool) -> (result:
        Result<(), BluetoothError>)
        requires
            !old(self).stalls(),
        ensures
            final(self).peer() == *device,
            !(result matches Err(BluetoothError::TimedOut(_))),
    ;

    /// Connects to the service `uuid` of `device`, or gives up after
    /// `timeout`.
    fn connect_by_uuid_timeout(
        &mut self,
        device: &BluetoothDevice,
        uuid: u128,
        need_pairing: bool,
        timeout: Duration,
    ) -> (result: Result<(), BluetoothError>)
        ensures
            final(self).peer() == *device,
            old(self).stalls() ==> result == Err::<(), BluetoothError>(BluetoothError::TimedOut(timeout)),
            result matches Err(BluetoothError::TimedOut(limit)) ==> limit == timeout,
    ;

    /// The peer of the latest attempt.
    fn device(&self) -> (device: &BluetoothDevice)
        ensures
            *device == self.peer(),
    ;

    /// The peer of the latest attempt, the session given up for it.
    fn into_device(self) -> (device: BluetoothDevice)
        ensures
            device == self.peer(),
    ;
}

} // verus!
