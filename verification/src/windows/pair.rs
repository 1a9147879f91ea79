//! The answer to a pairing request.

use vstd::prelude::*;

verus! {

/// The ceremony that a pairing request asks for.
#[derive(Clone, Copy, Debug, PartialEq, Eq, Structural)]
pub enum PairingKind {
    ConfirmOnly,
    DisplayPin,
    ProvidePin,
    ConfirmPinMatch,
    ProvidePasswordCredential,
    /// Any kind that this library does not know by name.
    Other,
}

/// Whether to accept a pairing request. `None` stands for a notification
/// that carries no request, and nothing is accepted then.
///
/// A request that only asks for confirmation is accepted. So is, for now,
/// a request of every other kind.
pub fn pair_handler(request: Option<PairingKind>) -> (accept: bool)
    ensures
        accept == request is Some,
{
    match request {
        Some(PairingKind::ConfirmOnly) => true,
        Some(_) => true,
        None => false,
    }
}

} // verus!
