//! The bounded channels that carry messages between the tasks of a session.
//!
//! The channels are `tokio`'s. Nothing here looks into one or sends on one:
//! the ends are made, handed on and dropped. What is taken on trust of them
//! is said at the two functions below, which make them.

use crate::message::Message;
use tokio::sync::mpsc::{Receiver, Sender};
use vstd::prelude::*;

verus! {

/// The sending end of a bounded `tokio` channel, `tokio::sync::mpsc::Sender`.
#[verifier::external_type_specification]
#[verifier::external_body]
#[verifier::reject_recursive_types(T)]
pub struct ExSender<T>(Sender<T>);

/// The receiving end of a bounded `tokio` channel,
/// `tokio::sync::mpsc::Receiver`.
#[verifier::external_type_specification]
#[verifier::external_body]
#[verifier::reject_recursive_types(T)]
pub struct ExReceiver<T>(Receiver<T>);

/// The largest number of messages that `tokio` lets a bounded channel hold.
pub const LARGEST_BOUND: usize = usize::MAX / 8;

/// The number of messages that the channel behind a sending end was made to
/// hold: what `Sender::max_capacity` returns.
pub uninterp spec fn sender_bound(end: Sender<Message>) -> nat;

/// Makes a channel with `tokio::sync::mpsc::channel`, which panics on a
/// bound of zero and on one above `LARGEST_BOUND`. Taken on trust: the
/// sending end reports the bound that the channel was made with.
#[verifier::external_body]
pub(crate) fn bounded(bound: usize) -> (ends: (Sender<Message>, Receiver<Message>))
    requires
        0 < bound <= LARGEST_BOUND,
    ensures
        sender_bound(ends.0) == bound,
{
    tokio::sync::mpsc::channel(bound)
}

/// Makes one more sending end for the same channel with `Sender::clone`.
/// Taken on trust: the new end is an end of the very channel of the old one
/// (`Sender::same_channel` says so of the two). Nothing that a sending end
/// offers tells two ends of one channel apart, so here an end, as a value,
/// stands for its channel, and the new end is the old one.
#[verifier::external_body]
pub(crate) fn another(end: &Sender<Message>) -> (twin: Sender<Message>)
    ensures
        twin == *end,
{
    end.clone()
}

} // verus!
