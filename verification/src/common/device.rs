//! The remote peer of a session.

use crate::common::mac::{mac_string_to_u64, mac_text, mac_u64_to_string, parse_mac};
use vstd::prelude::*;

verus! {

/// The service identifier of the serial port profile,
/// `00001101-0000-1000-8000-00805F9B34FB`, used where a caller names none.
pub const SPP_UUID: u128 = 0x0000_1101_0000_1000_8000_0080_5F9B_34FB;

/// A peer: a name to show, and the 48-bit address that identifies it.
pub struct BluetoothDevice {
    pub name: String,
    pub addr: u64,
}

impl Clone for BluetoothDevice {
    fn clone(&self) -> (copy: Self)
        ensures
            copy == *self,
    {
        BluetoothDevice { name: self.name.clone(), addr: self.addr }
    }
}

impl BluetoothDevice {
    pub fn new(name: String, addr: u64) -> (device: BluetoothDevice)
        ensures
            device.name == name,
            device.addr == addr,
    {
        BluetoothDevice { name, addr }
    }

    /// A device whose address is read from text. Fails exactly when the text
    /// is no address.
    pub fn new_by_addr_string(name: String, addr: &String) -> (made: Result<BluetoothDevice, ()>)
        ensures
            match made {
                Ok(device) => device.name == name && parse_mac(addr@) == Some(device.addr),
                Err(_) => parse_mac(addr@) is None,
            },
    {
        match mac_string_to_u64(addr) {
            Some(value) => Ok(BluetoothDevice { name, addr: value }),
            None => Err(()),
        }
    }

    /// The device with no name and address zero.
    pub fn empty() -> (device: BluetoothDevice)
        ensures
            device.name@ == Seq::<char>::empty(),
            device.addr == 0,
    {
        BluetoothDevice::new(String::new(), 0)
    }

    pub fn name(&self) -> (name: String)
        ensures
            name == self.name,
    {
        self.name.clone()
    }

    pub fn addr(&self) -> (addr: u64)
        ensures
            addr == self.addr,
    {
        self.addr
    }

    /// The address in canonical text.
    pub fn addr_string(&self) -> (text: String)
        ensures
            text@ == mac_text(self.addr),
    {
        mac_u64_to_string(self.addr)
    }
}

} // verus!
