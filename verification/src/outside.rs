//! What the library takes from `tokio` and `prost` without proof.
use vstd::prelude::*;

verus! {

/// The sending half of a one-shot channel of `tokio`.
#[verifier::external_type_specification]
#[verifier::external_body]
#[verifier::reject_recursive_types(T)]
pub struct ExOneshotSender<T>(tokio::sync::oneshot::Sender<T>);

/// The receiving half of a one-shot channel of `tokio`.
#[verifier::external_type_specification]
#[verifier::external_body]
#[verifier::reject_recursive_types(T)]
pub struct ExOneshotReceiver<T>(tokio::sync::oneshot::Receiver<T>);

/// The error that a one-shot receiver of `tokio` gives when its sender is gone.
#[verifier::external_type_specification]
#[verifier::external_body]
pub struct ExRecvError(tokio::sync::oneshot::error::RecvError);

/// The sending half of a bounded channel of `tokio`.
#[verifier::external_type_specification]
#[verifier::external_body]
#[verifier::reject_recursive_types(T)]
pub struct ExMpscSender<T>(tokio::sync::mpsc::Sender<T>);

/// The receiving half of a bounded channel of `tokio`.
#[verifier::external_type_specification]
#[verifier::external_body]
#[verifier::reject_recursive_types(T)]
pub struct ExMpscReceiver<T>(tokio::sync::mpsc::Receiver<T>);

/// The error of a failed decoding in `prost`.
#[verifier::external_type_specification]
#[verifier::external_body]
pub struct ExDecodeError(prost::DecodeError);

/// The error of a failed encoding in `prost`.
#[verifier::external_type_specification]
#[verifier::external_body]
pub struct ExEncodeError(prost::EncodeError);

/// `prost::DecodeError::clone`: the copy holds what the error holds.
pub assume_specification[ <prost::DecodeError as Clone>::clone ](
    error: &prost::DecodeError,
) -> (copy: prost::DecodeError)
    ensures
        copy == *error,
;

/// `prost::EncodeError::clone`: the copy holds what the error holds.
pub assume_specification[ <prost::EncodeError as Clone>::clone ](
    error: &prost::EncodeError,
) -> (copy: prost::EncodeError)
    ensures
        copy == *error,
;

/// `tokio::sync::mpsc::Sender::clone`: the copy is a handle to the same channel. A handle holds
/// nothing but its channel, so the two are the same value.
pub assume_specification<T>[ <tokio::sync::mpsc::Sender<T> as Clone>::clone ](
    sender: &tokio::sync::mpsc::Sender<T>,
) -> (copy: tokio::sync::mpsc::Sender<T>)
    ensures
        copy == *sender,
;

/// `tokio::sync::mpsc::channel`: the two halves of a new channel. The capacity must be positive
/// and no more than the permits that a semaphore of `tokio` can have. That the halves belong to
/// one channel is not stated.
pub assume_specification<T>[ tokio::sync::mpsc::channel::<T> ](buffer: usize) -> (halves: (
    tokio::sync::mpsc::Sender<T>,
    tokio::sync::mpsc::Receiver<T>,
))
    requires
        0 < buffer <= usize::MAX / 8,
;

/// `tokio::sync::oneshot::channel`: the two halves of a new channel. That they belong to one
/// channel is not stated.
pub assume_specification<T>[ tokio::sync::oneshot::channel::<T> ]() -> (halves: (
    tokio::sync::oneshot::Sender<T>,
    tokio::sync::oneshot::Receiver<T>,
))
;

/// `tokio::sync::oneshot::Sender::send`: a value that cannot be delivered comes back. Whether it
/// can be depends on the task that holds the receiver.
pub assume_specification<T>[ tokio::sync::oneshot::Sender::<T>::send ](
    sender: tokio::sync::oneshot::Sender<T>,
    value: T,
) -> (sent: Result<(), T>)
    ensures
        sent matches Err(back) ==> back == value,
;

} // verus!
