//! The decisions of the relay that serves one connection.
//!
//! A relay sits between one client and the rest of the server. It sees two
//! streams of events: what arrives from its client, and what other relays and
//! the controller put into its own channel. For each event it is told here what
//! to do.

use crate::message::{Message, MessageView};
use crate::registry::{notices, without, Delivery, DeliveryView, UserView, Users};
use vstd::prelude::*;

verus! {

/// Something that happened on the client's side of a relay.
#[derive(Debug, PartialEq, Eq)]
pub enum ClientEvent {
    /// The client sent this message.
    Received(Message),
    /// The client sent bytes that are no message.
    Undecodable,
    /// Reading from the client failed, or the client hung up.
    Lost,
}

/// Mathematical value of a [`ClientEvent`].
pub enum ClientEventView {
    Received(MessageView),
    Undecodable,
    Lost,
}

impl View for ClientEvent {
    type V = ClientEventView;

    open spec fn view(&self) -> ClientEventView {
        match self {
            ClientEvent::Received(message) => ClientEventView::Received(message@),
            ClientEvent::Undecodable => ClientEventView::Undecodable,
            ClientEvent::Lost => ClientEventView::Lost,
        }
    }
}

impl ClientEventView {
    /// The client goes: it said `Close`, or its connection is gone.
    pub open spec fn leaves(self) -> bool {
        self is Lost || (self matches ClientEventView::Received(message) && message is Close)
    }
}

/// What a relay does about an event on its client's side.
#[derive(Debug)]
pub enum ClientAction {
    /// The player is off the roster. The remaining players are due these
    /// `Kick`s, and the relay ends.
    Leave(Vec<Delivery>),
    /// The other players are due these copies of a gameplay action. The relay
    /// goes on.
    Relay(Vec<Delivery>),
    /// The message is for the controller. The relay goes on.
    Forward(Message),
    /// The connection is given up without a word to anybody. The relay ends.
    Abandon,
}

/// Mathematical value of a [`ClientAction`].
pub enum ClientActionView {
    Leave(Seq<DeliveryView>),
    Relay(Seq<DeliveryView>),
    Forward(MessageView),
    Abandon,
}

impl View for ClientAction {
    type V = ClientActionView;

    open spec fn view(&self) -> ClientActionView {
        match self {
            ClientAction::Leave(kicks) => ClientActionView::Leave(kicks.deep_view()),
            ClientAction::Relay(copies) => ClientActionView::Relay(copies.deep_view()),
            ClientAction::Forward(message) => ClientActionView::Forward(message@),
            ClientAction::Abandon => ClientActionView::Abandon,
        }
    }
}

impl ClientActionView {
    /// After this action the relay stops serving its connection.
    pub open spec fn ends_relay(self) -> bool {
        self is Leave || self is Abandon
    }
}

impl ClientAction {
    /// Whether the relay stops after this action.
    pub fn ends_relay(&self) -> (ends: bool)
        ensures
            ends == self@.ends_relay(),
    {
        match self {
            ClientAction::Leave(_) | ClientAction::Abandon => true,
            _ => false,
        }
    }
}

/// What the relay of the player at `ip` does about an event on its client's
/// side, given the roster at that moment.
pub open spec fn client_action(
    roster: Seq<UserView>,
    ip: Seq<char>,
    event: ClientEventView,
) -> ClientActionView {
    match event {
        ClientEventView::Lost => ClientActionView::Leave(
            notices(without(roster, ip), MessageView::Kick(ip)),
        ),
        ClientEventView::Undecodable => ClientActionView::Abandon,
        ClientEventView::Received(message) => if message is Close {
            ClientActionView::Leave(notices(without(roster, ip), MessageView::Kick(ip)))
        } else if message.is_action() {
            ClientActionView::Relay(notices(without(roster, ip), message))
        } else {
            ClientActionView::Forward(message)
        },
    }
}

/// The roster after an event on the client's side of the relay of the player
/// at `ip`.
pub open spec fn roster_after_client(
    roster: Seq<UserView>,
    ip: Seq<char>,
    event: ClientEventView,
) -> Seq<UserView> {
    if event.leaves() {
        without(roster, ip)
    } else {
        roster
    }
}

/// Decides what the relay of the player at `ip` does about an event on its
/// client's side.
///
/// `Close` and a lost connection are one and the same: the player leaves the
/// roster and every remaining player is due a `Kick` with the address. A
/// gameplay action is copied, unchanged, to every other player on the roster
/// and never back to its sender. Any other message is for the controller.
/// Bytes that are no message end the relay and tell nobody.
pub fn on_client_event(users: &mut Users, ip: &String, event: ClientEvent) -> (action: ClientAction)
    ensures
        action@ == client_action(old(users)@, ip@, event@),
        final(users)@ == roster_after_client(old(users)@, ip@, event@),
        final(users).capacity() == old(users).capacity(),
        final(users).well_formed(),
{
    proof {
        use_type_invariant(&*users);
    }
    match event {
        ClientEvent::Lost => ClientAction::Leave(leave(users, ip)),
        ClientEvent::Undecodable => ClientAction::Abandon,
        ClientEvent::Received(message) => {
            match message {
                Message::Close => ClientAction::Leave(leave(users, ip)),
                Message::Raise(_) | Message::Call | Message::Fold | Message::Check => {
                    ClientAction::Relay(users.notify_others(ip, &message))
                },
                other => ClientAction::Forward(other),
            }
        },
    }
}

/// Takes the player at `ip` off the roster and lists the `Kick`s that the
/// remaining players are due.
pub fn leave(users: &mut Users, ip: &String) -> (kicks: Vec<Delivery>)
    ensures
        final(users)@ == without(old(users)@, ip@),
        final(users).capacity() == old(users).capacity(),
        final(users).well_formed(),
        kicks.deep_view() == notices(without(old(users)@, ip@), MessageView::Kick(ip@)),
{
    let _ = users.remove(ip);
    users.notify_all(&Message::Kick(ip.clone()))
}

/// What a relay does with what it took from its own channel.
#[derive(Debug, PartialEq, Eq)]
pub enum PeerAction {
    /// Send the message to the client and go on.
    Deliver(Message),
    /// Send the message to the client and end the relay.
    DeliverLast(Message),
    /// End the relay and send nothing.
    Stop,
}

/// Mathematical value of a [`PeerAction`].
pub enum PeerActionView {
    Deliver(MessageView),
    DeliverLast(MessageView),
    Stop,
}

impl View for PeerAction {
    type V = PeerActionView;

    open spec fn view(&self) -> PeerActionView {
        match self {
            PeerAction::Deliver(message) => PeerActionView::Deliver(message@),
            PeerAction::DeliverLast(message) => PeerActionView::DeliverLast(message@),
            PeerAction::Stop => PeerActionView::Stop,
        }
    }
}

impl PeerActionView {
    /// After this action the relay stops serving its connection.
    pub open spec fn ends_relay(self) -> bool {
        self is DeliverLast || self is Stop
    }
}

impl PeerAction {
    /// Whether the relay stops after this action.
    pub fn ends_relay(&self) -> (ends: bool)
        ensures
            ends == self@.ends_relay(),
    {
        match self {
            PeerAction::DeliverLast(_) | PeerAction::Stop => true,
            _ => false,
        }
    }
}

/// What the relay of the player at `ip` does with what it took from its own
/// channel; `None` stands for a channel that has been closed.
pub open spec fn peer_action(ip: Seq<char>, message: Option<MessageView>) -> PeerActionView {
    match message {
        None => PeerActionView::Stop,
        Some(MessageView::Close) => PeerActionView::Stop,
        Some(MessageView::Kick(target)) => if target == ip {
            PeerActionView::DeliverLast(MessageView::BeKick)
        } else {
            PeerActionView::Deliver(MessageView::Kick(target))
        },
        Some(other) => PeerActionView::Deliver(other),
    }
}

/// Decides what the relay of the player at `ip` does with what it took from its
/// own channel; `None` stands for a channel that has been closed.
///
/// A `Kick` with the relay's own address is turned into `BeKick` for the
/// client, and the relay ends. A `Kick` with another address goes to the client
/// as it is. `Close` and a closed channel end the relay at once. Everything
/// else goes to the client as it is.
pub fn on_relay_message(ip: &String, message: Option<Message>) -> (action: PeerAction)
    ensures
        action@ == peer_action(ip@, message.deep_view()),
{
    match message {
        None => PeerAction::Stop,
        Some(Message::Close) => PeerAction::Stop,
        Some(Message::Kick(target)) => {
            if target == *ip {
                PeerAction::DeliverLast(Message::BeKick)
            } else {
                PeerAction::Deliver(Message::Kick(target))
            }
        },
        Some(other) => PeerAction::Deliver(other),
    }
}

} // verus!
