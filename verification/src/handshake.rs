//! Admission of a new connection.
//!
//! The first message of a connection names the player and presents a room
//! code. The answer is one of three: the handshake has failed, the room is
//! full, or the player is admitted and is sent the roster. A first message
//! that cannot be read gets no answer at all.

use crate::channel::{bounded, sender_bound};
use crate::message::{Message, MessageView, UserInfo, UserInfoView};
use crate::registry::{
    has_ip, notices, roster_infos, Delivery, DeliveryView, User, UserView, Users,
};
use tokio::sync::mpsc::{Receiver, Sender};
use vstd::prelude::*;

verus! {

/// How many messages each of the two channels of a player holds before a
/// sender has to wait.
pub const CHANNEL_CAPACITY: usize = 50;

/// Where the server listens and which code it expects. Fixed for the life of
/// a session.
#[derive(Debug, PartialEq, Eq)]
pub struct GameInteraction {
    /// Address that the server binds.
    pub server_ip: String,
    /// Code that a client must present to be admitted.
    pub code: String,
}

impl Default for GameInteraction {
    fn default() -> (room: Self)
        ensures
            room.server_ip@ == "127.0.0.1:3000"@,
            room.code@ == "TEST"@,
    {
        GameInteraction { server_ip: "127.0.0.1:3000".to_owned(), code: "TEST".to_owned() }
    }
}

impl Clone for GameInteraction {
    fn clone(&self) -> (copy: Self)
        ensures
            copy == *self,
    {
        GameInteraction { server_ip: self.server_ip.clone(), code: self.code.clone() }
    }
}

/// First message of a connection, client to server.
#[derive(Debug, PartialEq, Eq)]
pub struct NetConnect {
    pub name: String,
    pub code: String,
}

/// Answer to the first message, server to client.
#[derive(Debug, PartialEq, Eq)]
pub enum NetReceiver {
    /// Admitted; the roster with the new player at its end.
    Success(Vec<UserInfo>),
    /// The code was not the room's code.
    Failed,
    /// The room had no place left.
    Full,
}

/// Mathematical value of a [`NetReceiver`].
pub enum NetReceiverView {
    Success(Seq<UserInfoView>),
    Failed,
    Full,
}

impl View for NetReceiver {
    type V = NetReceiverView;

    open spec fn view(&self) -> NetReceiverView {
        match self {
            NetReceiver::Success(roster) => NetReceiverView::Success(roster.deep_view()),
            NetReceiver::Failed => NetReceiverView::Failed,
            NetReceiver::Full => NetReceiverView::Full,
        }
    }
}

/// The relay's ends of the two channels of a player who has been admitted.
/// The other two ends are in the player's entry on the roster.
#[derive(Debug)]
pub struct RelayEnds {
    /// Where the relay finds the messages for its client.
    pub recever: Receiver<Message>,
    /// Where the relay puts what its client sent for the game.
    pub sender: Sender<Message>,
}

/// What the server does with a connection after its first message.
#[derive(Debug)]
pub struct Admission {
    /// The answer to send to the new connection.
    pub reply: NetReceiver,
    /// The `Join` messages for the players who were there before.
    pub notices: Vec<Delivery>,
    /// On admission, what the relay of the new player works with.
    pub relay: Option<RelayEnds>,
}

impl Admission {
    /// Whether the connection was admitted, so that it needs its channels and
    /// its relay.
    pub fn admitted(&self) -> (yes: bool)
        ensures
            yes == (self.reply@ is Success),
    {
        match &self.reply {
            NetReceiver::Success(_) => true,
            _ => false,
        }
    }
}

/// A connection from the address `ip` that presents `code` is admitted to the
/// roster: the code is the room's, there is a place left, and no player on
/// the roster has the address.
pub open spec fn admits(
    room_code: Seq<char>,
    roster: Seq<UserView>,
    capacity: nat,
    ip: Seq<char>,
    code: Seq<char>,
) -> bool {
    code == room_code && roster.len() < capacity && !has_ip(roster, ip)
}

/// The answer to a first message. The code is looked at first, then the
/// room's occupancy, then the address: a wrong code fails, the right code
/// finds a room without a place full, and an address that is on the roster
/// already fails, for an address is admitted once.
pub open spec fn reply_for(
    room_code: Seq<char>,
    roster: Seq<UserView>,
    capacity: nat,
    entrant: UserInfoView,
    code: Seq<char>,
) -> NetReceiverView {
    if code != room_code {
        NetReceiverView::Failed
    } else if roster.len() >= capacity {
        NetReceiverView::Full
    } else if has_ip(roster, entrant.ip) {
        NetReceiverView::Failed
    } else {
        NetReceiverView::Success(roster_infos(roster).push(entrant))
    }
}

/// The roster after a first message, where `entrant` is the entry that is
/// made for the connection if it is admitted.
pub open spec fn roster_after_handshake(
    room_code: Seq<char>,
    roster: Seq<UserView>,
    capacity: nat,
    entrant: UserView,
    code: Seq<char>,
) -> Seq<UserView> {
    if admits(room_code, roster, capacity, entrant.ip, code) {
        roster.push(entrant)
    } else {
        roster
    }
}

/// The messages that a first message brings about: on admission a `Join` for
/// each player who was there before, else none.
pub open spec fn join_notices(
    room_code: Seq<char>,
    roster: Seq<UserView>,
    capacity: nat,
    entrant: UserInfoView,
    code: Seq<char>,
) -> Seq<DeliveryView> {
    if admits(room_code, roster, capacity, entrant.ip, code) {
        notices(roster, MessageView::Join(entrant))
    } else {
        Seq::empty()
    }
}

/// `outcome` is what is decided on the first message `request` of a
/// connection from the address `ip`, and `after` is the roster that the
/// decision leaves, where `before` was the roster when the message came.
pub open spec fn decided(
    room_code: Seq<char>,
    before: Seq<UserView>,
    capacity: nat,
    ip: Seq<char>,
    request: NetConnect,
    after: Seq<UserView>,
    outcome: Admission,
) -> bool {
    let entrant = UserInfoView { name: request.name@, ip };
    &&& outcome.reply@ == reply_for(room_code, before, capacity, entrant, request.code@)
    &&& outcome.notices.deep_view() == join_notices(
        room_code,
        before,
        capacity,
        entrant,
        request.code@,
    )
    &&& outcome.relay is Some <==> admits(room_code, before, capacity, ip, request.code@)
    &&& outcome.relay matches Some(ends) ==> sender_bound(ends.sender) == CHANNEL_CAPACITY
    &&& if admits(room_code, before, capacity, ip, request.code@) {
        &&& after == before.push(after.last())
        &&& after.last().info() == entrant
        &&& sender_bound(after.last().send_message) == CHANNEL_CAPACITY
    } else {
        after == before
    }
}

/// Decides on the connection from the address `ip` whose first message was
/// `request`.
///
/// A wrong code is answered with `Failed`, a full room with `Full`, and an
/// address that is on the roster already with `Failed`; none of the three
/// touches the roster nor tells anybody. Otherwise every player on the roster
/// is due a `Join`, the new player goes to the end of the roster, and the
/// answer is `Success` with the roster as it then stands.
///
/// A player who is admitted gets two channels of `CHANNEL_CAPACITY` messages
/// each, one towards the client and one towards the game; one end of each
/// goes on the roster and the other to the player's relay.
pub fn handshake(room: &GameInteraction, users: &mut Users, ip: String, request: NetConnect) -> (outcome:
    Admission)
    ensures
        decided(
            room.code@,
            old(users)@,
            old(users).capacity() as nat,
            ip@,
            request,
            final(users)@,
            outcome,
        ),
        final(users)@ == roster_after_handshake(
            room.code@,
            old(users)@,
            old(users).capacity() as nat,
            final(users)@.last(),
            request.code@,
        ),
        final(users).capacity() == old(users).capacity(),
        final(users).well_formed(),
        old(users)@.len() <= final(users)@.len() <= old(users)@.len() + 1,
        outcome.reply@ is Success <==> admits(
            room.code@,
            old(users)@,
            old(users).capacity() as nat,
            ip@,
            request.code@,
        ),
        request.code@ != room.code@ ==> {
            &&& outcome.reply@ is Failed
            &&& final(users)@ == old(users)@
            &&& outcome.notices@.len() == 0
        },
        old(users)@.len() >= old(users).capacity() ==> {
            &&& request.code@ == room.code@ ==> outcome.reply@ is Full
            &&& !(outcome.reply@ is Success)
            &&& final(users)@ == old(users)@
            &&& outcome.notices@.len() == 0
        },
        has_ip(old(users)@, ip@) ==> {
            &&& !(outcome.reply@ is Success)
            &&& outcome.relay is None
            &&& final(users)@ == old(users)@
            &&& outcome.notices@.len() == 0
        },
{
    proof {
        use_type_invariant(&*users);
    }
    if !(request.code == room.code) {
        let outcome = Admission { reply: NetReceiver::Failed, notices: Vec::new(), relay: None };
        assert(outcome.notices.deep_view() =~= Seq::<DeliveryView>::empty());
        return outcome;
    }
    if users.is_full() {
        let outcome = Admission { reply: NetReceiver::Full, notices: Vec::new(), relay: None };
        assert(outcome.notices.deep_view() =~= Seq::<DeliveryView>::empty());
        return outcome;
    }
    if users.contains_ip(&ip) {
        let outcome = Admission { reply: NetReceiver::Failed, notices: Vec::new(), relay: None };
        assert(outcome.notices.deep_view() =~= Seq::<DeliveryView>::empty());
        return outcome;
    }
    let (send_message, recever) = bounded(CHANNEL_CAPACITY);
    let (sender, recv_message) = bounded(CHANNEL_CAPACITY);
    let entrant = UserInfo { name: request.name.clone(), ip: ip.clone() };
    let notices = users.notify_all(&Message::Join(entrant));
    users.add(User { ip, name: request.name, send_message, recv_message });
    let roster = users.snapshot();
    proof {
        assert(roster_infos(users@) =~= roster_infos(old(users)@).push(
            UserInfoView { name: request.name@, ip: ip@ },
        ));
    }
    Admission {
        reply: NetReceiver::Success(roster),
        notices,
        relay: Some(RelayEnds { recever, sender }),
    }
}

/// Decides on a new connection from the address `ip`, where `first` is the
/// first message of the connection, or `None` where none could be read or
/// what was read is no first message.
///
/// Without a first message the connection is given up: it gets no answer,
/// the roster stays as it is and nobody is told. With one, the decision is
/// that of [`handshake`].
pub fn on_first_message(
    room: &GameInteraction,
    users: &mut Users,
    ip: String,
    first: Option<NetConnect>,
) -> (outcome: Option<Admission>)
    ensures
        final(users).capacity() == old(users).capacity(),
        final(users).well_formed(),
        old(users)@.len() <= final(users)@.len() <= old(users)@.len() + 1,
        first is None ==> outcome is None && final(users)@ == old(users)@,
        first matches Some(request) ==> outcome matches Some(admission) && decided(
            room.code@,
            old(users)@,
            old(users).capacity() as nat,
            ip@,
            request,
            final(users)@,
            admission,
        ),
{
    match first {
        None => {
            proof {
                use_type_invariant(&*users);
            }
            None
        },
        Some(request) => Some(handshake(room, users, ip, request)),
    }
}

} // verus!
