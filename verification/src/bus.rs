//! The broadcast bus that routes control messages.
//!
//! The bus itself is tokio's multi-producer, multi-subscriber broadcast
//! channel; the library states only what the channel's source plainly
//! shows about the synchronous half of its interface, and the runner
//! logic is verified against those statements.  Receiving is asynchronous
//! and happens outside the library.

use vstd::prelude::*;

verus! {

/// Relies on tokio's broadcast sender type, used opaquely as the publishing
/// half of the control bus.
#[verifier::external_type_specification]
#[verifier::external_body]
#[verifier::reject_recursive_types(T)]
pub struct ExSender<T>(tokio::sync::broadcast::Sender<T>);

/// Relies on tokio's broadcast receiver type, used opaquely as the
/// subscribing half of the control bus.
#[verifier::external_type_specification]
#[verifier::external_body]
#[verifier::reject_recursive_types(T)]
pub struct ExReceiver<T>(tokio::sync::broadcast::Receiver<T>);

/// Relies on tokio's broadcast send error, a wrapper that hands the
/// undelivered value back; its one field is public.
#[verifier::external_type_specification]
#[verifier::reject_recursive_types(T)]
pub struct ExSendError<T>(tokio::sync::broadcast::error::SendError<T>);

/// Relies on tokio's `broadcast::channel`: it panics only when the capacity
/// is zero or above `usize::MAX / 2`, and otherwise returns the two halves
/// of a fresh channel.
pub assume_specification<T: Clone>[ tokio::sync::broadcast::channel::<T> ](
    capacity: usize,
) -> (r: (tokio::sync::broadcast::Sender<T>, tokio::sync::broadcast::Receiver<T>))
    requires
        1 <= capacity <= usize::MAX / 2,
;

/// Relies on tokio's `Sender::send`: it delivers the value to every current
/// subscriber and returns how many there were (at least one), or hands the
/// value back inside the error when nobody is subscribed.  It can also
/// panic on allocation failure, as any allocating call can.
pub assume_specification<T>[ tokio::sync::broadcast::Sender::<T>::send ](
    s: &tokio::sync::broadcast::Sender<T>,
    value: T,
) -> (r: Result<usize, tokio::sync::broadcast::error::SendError<T>>)
    ensures
        r matches Ok(n) ==> n >= 1,
        r matches Err(e) ==> e.0 == value,
;

/// A bus endpoint holding both halves of one broadcast channel.
#[verifier::reject_recursive_types(T)]
pub struct DefaultChannel<T> {
    /// The publishing half, cloned by everyone who issues commands.
    pub sender: tokio::sync::broadcast::Sender<T>,
    /// The receiving half kept at creation, so that the channel never
    /// closes while the endpoint lives.
    pub receiver: tokio::sync::broadcast::Receiver<T>,
}

/// The backlog of the control bus: a publisher never blocks, and a
/// subscriber lagging more than this many messages behind observes a lag
/// instead of stalling anyone.
pub const CHANNEL_BACKLOG: usize = 100;

impl<T: Clone> Default for DefaultChannel<T> {
    /// A fresh bus with the default backlog.
    fn default() -> Self {
        let (sender, receiver) = tokio::sync::broadcast::channel(CHANNEL_BACKLOG);
        DefaultChannel { sender, receiver }
    }
}

} // verus!
