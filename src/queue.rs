use vstd::prelude::*;

use std::sync::mpsc::{Receiver, RecvError, SendError, SyncSender};

verus! {

#[verifier::external_type_specification]
#[verifier::external_body]
#[verifier::reject_recursive_types(T)]
pub struct ExSyncSender<T>(SyncSender<T>);

#[verifier::external_type_specification]
#[verifier::external_body]
#[verifier::reject_recursive_types(T)]
pub struct ExReceiver<T>(Receiver<T>);

#[verifier::external_type_specification]
#[verifier::external_body]
#[verifier::reject_recursive_types(T)]
pub struct ExSendError<T>(SendError<T>);

#[verifier::external_type_specification]
#[verifier::external_body]
pub struct ExRecvError(RecvError);

/// Relies on std::sync::mpsc::sync_channel: a bounded channel whose sends
/// block while `bound` messages wait (with `bound == 0`, until a receive takes
/// the message). Nothing is stated of the two ends.
pub assume_specification<T>[ std::sync::mpsc::sync_channel::<T> ](bound: usize) -> (SyncSender<T>, Receiver<T>);

/// Relies on std::sync::mpsc::SyncSender::send: blocks until the message is
/// queued, or fails once the receiving end is gone. Which of the two happens
/// depends on the other thread, so nothing is stated.
pub assume_specification<T>[ SyncSender::<T>::send ](sender: &SyncSender<T>, t: T) -> Result<(), SendError<T>>;

/// Relies on std::sync::mpsc::Receiver::recv: blocks until a message comes, or
/// fails once every sending end is gone. Nothing is stated of the outcome.
pub assume_specification<T>[ Receiver::<T>::recv ](receiver: &Receiver<T>) -> Result<T, RecvError>;

} // verus!
