//! What this library takes on trust from the standard library's bounded
//! channel.

use vstd::prelude::*;
use std::sync::mpsc::{SyncSender, TrySendError};

verus! {

/// `std::sync::mpsc::SyncSender`, opaque to proofs.
#[verifier::external_type_specification]
#[verifier::external_body]
#[verifier::reject_recursive_types(T)]
pub struct ExSyncSender<T>(SyncSender<T>);

/// `std::sync::mpsc::TrySendError`, opaque to proofs.
#[verifier::external_type_specification]
#[verifier::external_body]
#[verifier::reject_recursive_types(T)]
pub struct ExTrySendError<T>(TrySendError<T>);

/// `SyncSender::try_send` puts a value into the channel without waiting, or
/// says that it could not: the channel is full, or the receiver is gone.
/// Nothing is claimed of which of these it will be.
pub assume_specification<T>[ SyncSender::<T>::try_send ](
    sender: &SyncSender<T>,
    value: T,
) -> (sent: Result<(), TrySendError<T>>)
;

} // verus!
