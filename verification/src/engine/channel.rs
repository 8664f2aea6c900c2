//! The channel over which the engine and its workers hand messages to each other.
//!
//! The channel is `crossbeam`'s bounded channel. Whether it takes a message, and
//! what comes out of it, depends on what the other threads do, so neither is
//! claimed here. What is claimed is that no message is lost on the way in: a
//! message that the channel does not take is handed back.

use crossbeam::channel::{Receiver, Sender};
use vstd::prelude::*;

use crate::engine::message::Message;

verus! {

/// The sending side of `crossbeam`'s channel, opaque to the verifier.
#[verifier::external_type_specification]
#[verifier::external_body]
#[verifier::reject_recursive_types(T)]
pub struct ExSender<T>(Sender<T>);

/// The receiving side of `crossbeam`'s channel, opaque to the verifier.
#[verifier::external_type_specification]
#[verifier::external_body]
#[verifier::reject_recursive_types(T)]
pub struct ExReceiver<T>(Receiver<T>);

/// The largest capacity with which a channel is opened here.
pub const MAX_CAPACITY: usize = 65536;

/// Calls `crossbeam::channel::bounded`, which makes a channel that holds at most
/// `capacity` messages at a time and hands out its two sides. Nothing is claimed
/// of them. The outside function panics where the capacity is too large to
/// allocate, so large capacities are left out.
#[verifier::external_body]
pub(crate) fn open(capacity: usize) -> (sides: (Sender<Message>, Receiver<Message>))
    requires
        capacity <= MAX_CAPACITY,
{
    crossbeam::channel::bounded::<Message>(capacity)
}

/// Calls `Sender::clone`, which hands out one more sending side of the same
/// channel. Nothing is claimed of it.
#[verifier::external_body]
pub(crate) fn another_sender(sender: &Sender<Message>) -> (another: Sender<Message>) {
    sender.clone()
}

/// Calls `Receiver::clone`, which hands out one more receiving side of the same
/// channel. Nothing is claimed of it.
#[verifier::external_body]
pub(crate) fn another_receiver(receiver: &Receiver<Message>) -> (another: Receiver<Message>) {
    receiver.clone()
}

/// Calls `Sender::send`, which waits while the channel is full and then puts the
/// message into it. The message does not go in once every receiving side is
/// gone: the outside function then hands it back inside its error, and this
/// function hands back that very message. Whether the message goes in is not
/// claimed.
#[verifier::external_body]
pub(crate) fn send(sender: &Sender<Message>, message: Message) -> (result: Result<(), Message>)
    ensures
        result matches Err(returned) ==> returned == message,
{
    match sender.send(message) {
        Ok(()) => Ok(()),
        Err(error) => Err(error.into_inner()),
    }
}

/// Calls `Receiver::recv`, which waits while the channel is empty and then takes
/// the next message out of it. Returns nothing once the channel is empty and
/// every sending side is gone. Nothing is claimed of what is returned.
#[verifier::external_body]
pub(crate) fn receive(receiver: &Receiver<Message>) -> (message: Option<Message>) {
    receiver.recv().ok()
}

/// What became of messages that were to go into the channel, one after the other.
#[derive(Debug)]
pub struct Delivery {
    /// How many of the messages went in: the first `sent` of them.
    pub sent: usize,
    /// The messages that did not go in, in their order: the first one that the
    /// channel did not take, and all that come after it.
    pub unsent: Vec<Message>,
}

/// Tells which message is handed to the channel next: the first of those that
/// wait, with the others left to wait in their order. Nothing is next where
/// none waits.
pub fn next_waiting(waiting: Vec<Message>) -> (next: Option<(Message, Vec<Message>)>)
    ensures
        match next {
            Some((message, rest)) => waiting@.len() > 0 && message == waiting@[0] && rest@
                == waiting@.skip(1),
            None => waiting@.len() == 0,
        },
{
    let mut rest = waiting;
    if rest.len() == 0 {
        None
    } else {
        let message = rest.remove(0);
        proof {
            assert(rest@ =~= waiting@.skip(1));
        }
        Some((message, rest))
    }
}

/// Tells how the sending goes on after the channel has answered for one
/// message, when `sent` messages had gone in before it and `rest` wait behind
/// it. A message that went in is one more sent, and the rest goes on waiting.
/// A message that was handed back ends the sending: a channel that does not
/// take a message takes none ever after, so that message and the rest are what
/// is left unsent.
pub fn after_send(sent: usize, rest: Vec<Message>, outcome: Result<(), Message>) -> (next: Result<
    (usize, Vec<Message>),
    Delivery,
>)
    requires
        sent < usize::MAX,
    ensures
        match outcome {
            Ok(_) => next matches Ok((n, r)) && n == sent + 1 && r@ == rest@,
            Err(m) => next matches Err(d) && d.sent == sent && d.unsent@ == seq![m] + rest@,
        },
{
    match outcome {
        Ok(_) => Ok((sent + 1, rest)),
        Err(returned) => {
            let mut unsent = rest;
            unsent.insert(0, returned);
            proof {
                assert(unsent@ =~= seq![returned] + rest@);
            }
            Err(Delivery { sent, unsent })
        },
    }
}

/// Sends the messages in their order, up to the first one that the channel does
/// not take; that message and those after it are handed back.
pub fn send_all(sender: &Sender<Message>, messages: Vec<Message>) -> (delivery: Delivery)
    ensures
        delivery.sent <= messages@.len(),
        delivery.unsent@ == messages@.skip(delivery.sent as int),
{
    let total = messages.len();
    let mut waiting = messages;
    let mut sent: usize = 0;
    proof {
        assert(waiting@ =~= messages@.skip(0));
    }
    loop
        invariant
            total == messages@.len(),
            sent + waiting@.len() == total,
            waiting@ == messages@.skip(sent as int),
        decreases waiting@.len(),
    {
        let ghost before = waiting@;
        match next_waiting(waiting) {
            None => {
                proof {
                    assert(messages@.skip(sent as int) =~= Seq::<Message>::empty());
                }
                return Delivery { sent, unsent: Vec::new() };
            },
            Some((message, rest)) => match after_send(sent, rest, send(sender, message)) {
                Ok((count, rest)) => {
                    sent = count;
                    waiting = rest;
                    proof {
                        assert(waiting@ =~= messages@.skip(sent as int));
                    }
                },
                Err(delivery) => {
                    proof {
                        assert(delivery.unsent@ =~= before);
                    }
                    return delivery;
                },
            },
        }
    }
}

} // verus!
