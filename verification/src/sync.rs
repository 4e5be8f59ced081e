//! The channels, locks and clock of the standard library that the supervisor
//! uses. What they answer depends on other threads and on time, so nothing is
//! claimed of it: the callers are verified for every answer.

use std::sync::mpsc::{Receiver, Sender};
use std::sync::Mutex;
use std::time::{Duration, Instant};
use vstd::prelude::*;

verus! {

/// `std::sync::mpsc::Sender`, the sending half of a channel. Nothing is
/// claimed of what such a value holds.
#[verifier::external_type_specification]
#[verifier::external_body]
#[verifier::reject_recursive_types(T)]
pub struct ExSender<T>(Sender<T>);

/// `std::sync::mpsc::Receiver`, the receiving half of a channel. Nothing is
/// claimed of what such a value holds.
#[verifier::external_type_specification]
#[verifier::external_body]
#[verifier::reject_recursive_types(T)]
pub struct ExReceiver<T>(Receiver<T>);

/// `std::sync::Mutex`. Nothing is claimed of what such a value holds.
#[verifier::external_type_specification]
#[verifier::external_body]
#[verifier::reject_recursive_types(T)]
pub struct ExMutex<T: ?Sized>(Mutex<T>);

/// `std::time::Instant`. Nothing is claimed of what such a value holds.
#[verifier::external_type_specification]
#[verifier::external_body]
pub struct ExInstant(Instant);

/// Calls `std::sync::mpsc::channel`: the two halves of a new channel.
/// Nothing is claimed of them.
#[verifier::external_body]
pub(crate) fn channel<T>() -> (halves: (Sender<T>, Receiver<T>)) {
    std::sync::mpsc::channel()
}

/// Calls `Sender::send` and says whether the value was taken. The receiver
/// may be gone at any time, so nothing is claimed of the answer.
#[verifier::external_body]
pub(crate) fn send<T>(sender: &Sender<T>, value: T) -> (taken: bool) {
    sender.send(value).is_ok()
}

/// Calls `Receiver::try_recv`: a value that was waiting, or `None` where
/// none was or the senders are gone. Other threads send, so nothing is
/// claimed of the answer.
#[verifier::external_body]
pub(crate) fn try_recv<T>(receiver: &Receiver<T>) -> (waiting: Option<T>) {
    receiver.try_recv().ok()
}

/// Calls `Mutex::new`. Nothing is claimed of the result.
#[verifier::external_body]
pub(crate) fn new_mutex<T>(value: T) -> (cell: Mutex<T>) {
    Mutex::new(value)
}

/// Calls `Mutex::lock` and copies out what the lock guards; `None` where
/// the lock is poisoned. Other threads write, so nothing is claimed of the
/// answer. The lock is released before the function returns, and the
/// calling thread must not hold it.
#[verifier::external_body]
pub(crate) fn load<T: Copy>(cell: &Mutex<T>) -> (held: Option<T>) {
    match cell.lock() {
        Ok(guard) => Some(*guard),
        Err(_) => None,
    }
}

/// Calls `Mutex::lock` and puts `value` in place of what the lock guards;
/// `false` where the lock is poisoned. The lock is released before the
/// function returns, and the calling thread must not hold it.
#[verifier::external_body]
pub(crate) fn store<T>(cell: &Mutex<T>, value: T) -> (stored: bool) {
    match cell.lock() {
        Ok(mut guard) => {
            *guard = value;
            true
        },
        Err(_) => false,
    }
}

/// Calls `Instant::now`. Nothing is claimed of the result.
#[verifier::external_body]
pub(crate) fn now() -> (instant: Instant) {
    Instant::now()
}

/// Calls `Instant::elapsed`: the time that has passed since `start`.
/// Nothing is claimed of the result.
#[verifier::external_body]
pub(crate) fn elapsed(start: &Instant) -> (passed: Duration) {
    start.elapsed()
}

/// Calls `Duration::as_nanos`: the length of `duration` in nanoseconds.
/// Nothing is claimed of the number.
#[verifier::external_body]
pub(crate) fn duration_nanos(duration: &Duration) -> (nanos: u128) {
    duration.as_nanos()
}

} // verus!
