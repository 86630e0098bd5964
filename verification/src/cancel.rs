//! The one-shot cancel signal of a recording or playback.
//!
//! The signal is a broadcast channel of the async runtime: the session keeps
//! the sending end while a pipeline is live and hands the receiving end to
//! whoever waits for the cancellation. Verus sees both ends as opaque values;
//! nothing is proved of the channel itself.

use tokio::sync::broadcast::{Receiver, Sender};
use vstd::prelude::*;

verus! {

/// The sending end of `tokio::sync::broadcast`, carried as an opaque value.
#[verifier::external_type_specification]
#[verifier::external_body]
#[verifier::reject_recursive_types(T)]
pub struct ExSender<T>(tokio::sync::broadcast::Sender<T>);

/// The receiving end of `tokio::sync::broadcast`, carried as an opaque value.
#[verifier::external_type_specification]
#[verifier::external_body]
#[verifier::reject_recursive_types(T)]
pub struct ExReceiver<T>(tokio::sync::broadcast::Receiver<T>);

/// Number of messages a cancel signal can hold: it is fired at most once.
pub const SIGNAL_CAPACITY: usize = 1;

/// Calls `tokio::sync::broadcast::channel`, which makes a channel that holds
/// up to `capacity` messages and returns its two ends. That function panics
/// on a capacity of zero or above `usize::MAX / 2`, which the precondition
/// leaves out. Nothing is claimed of the ends.
#[verifier::external_body]
pub(crate) fn fresh_signal(capacity: usize) -> (ends: (Sender<()>, Receiver<()>))
    requires
        1 <= capacity <= usize::MAX / 2,
{
    tokio::sync::broadcast::channel(capacity)
}

/// Calls `Sender::send` with the unit message and drops the sender. `send`
/// reports how many receivers were subscribed, or an error when none was;
/// either way the caller has nothing to do, so the report is dropped.
#[verifier::external_body]
pub(crate) fn fire(sender: Sender<()>) {
    let _ = sender.send(());
}

} // verus!
