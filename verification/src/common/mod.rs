//! Values shared by every kind of session: the peer and its address.

pub mod device;
pub mod mac;
