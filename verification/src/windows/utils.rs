//! From what a native call reports to what the caller of a session is told.

use crate::provider::ProviderError;
use crate::BluetoothError;
use vstd::prelude::*;

verus! {

/// Keeps a success. A failure becomes `RuntimeError` with the failure's text.
pub fn winrt_error_wrap<T>(result: Result<T, String>) -> (wrapped: Result<T, BluetoothError>)
    ensures
        wrapped == match result {
            Ok(value) => Ok::<T, BluetoothError>(value),
            Err(text) => Err(BluetoothError::RuntimeError(text)),
        },
{
    match result {
        Ok(value) => Ok(value),
        Err(text) => Err(BluetoothError::RuntimeError(text)),
    }
}

/// `winrt_error_wrap` for a call that returns nothing.
pub fn winrt_none_error_wrap(result: Result<(), String>) -> (wrapped: Result<(), BluetoothError>)
    ensures
        wrapped == match result {
            Ok(_) => Ok::<(), BluetoothError>(()),
            Err(text) => Err(BluetoothError::RuntimeError(text)),
        },
{
    match result {
        Ok(_) => Ok(()),
        Err(text) => Err(BluetoothError::RuntimeError(text)),
    }
}

/// Keeps a success. A failure becomes `error`, and its text is dropped.
pub fn winrt_none_error_wrap_with_error(result: Result<(), String>, error: BluetoothError) -> (wrapped:
    Result<(), BluetoothError>)
    ensures
        wrapped == match result {
            Ok(_) => Ok::<(), BluetoothError>(()),
            Err(_) => Err(error),
        },
{
    match result {
        Ok(_) => Ok(()),
        Err(_) => Err(error),
    }
}

/// Keeps a success. A failure becomes `error`, and its text is dropped.
pub fn winrt_error_wrap_with_error<T>(result: Result<T, String>, error: BluetoothError) -> (wrapped:
    Result<T, BluetoothError>)
    ensures
        wrapped == match result {
            Ok(value) => Ok::<T, BluetoothError>(value),
            Err(_) => Err(error),
        },
{
    match result {
        Ok(value) => Ok(value),
        Err(_) => Err(error),
    }
}

/// What a failed call means at a stage whose own failure is `stage`.
/// A failure of the expected shape is the stage's failure. One that the
/// provider has classified counts as classified only while the socket is
/// being connected, and as the stage's failure before that. Any other is a
/// `RuntimeError` with the provider's text.
pub open spec fn classified(failure: ProviderError, stage: BluetoothError, connecting: bool) -> BluetoothError {
    match failure {
        ProviderError::Failed(_) => stage,
        ProviderError::Classified(kind) => if connecting {
            kind
        } else {
            stage
        },
        ProviderError::Unrecoverable(text) => BluetoothError::RuntimeError(text),
    }
}

/// Keeps a success and classifies a failure.
pub fn classify<T>(reply: Result<T, ProviderError>, stage: BluetoothError, connecting: bool) -> (result:
    Result<T, BluetoothError>)
    ensures
        result == match reply {
            Ok(value) => Ok::<T, BluetoothError>(value),
            Err(failure) => Err(classified(failure, stage, connecting)),
        },
{
    match reply {
        Ok(value) => Ok(value),
        Err(ProviderError::Failed(text)) => winrt_error_wrap_with_error(Err(text), stage),
        Err(ProviderError::Classified(kind)) => if connecting {
            Err(kind)
        } else {
            Err(stage)
        },
        Err(ProviderError::Unrecoverable(text)) => winrt_error_wrap(Err(text)),
    }
}

} // verus!
