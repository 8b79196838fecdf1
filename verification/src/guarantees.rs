//! What holds of the server as a whole, whatever its clients do.

use crate::handshake::{
    admits, join_notices, reply_for, roster_after_handshake, NetReceiverView,
};
use crate::message::MessageView;
use crate::registry::{
    distinct_ips, has_ip, lemma_push_keeps_distinct, lemma_without_drops_ip,
    lemma_without_keeps_others, lemma_without_keeps_valid, notices, roster_infos, roster_valid,
    without, DeliveryView, UserView,
};
use crate::relay::{
    client_action, peer_action, roster_after_client, ClientActionView, ClientEventView,
    PeerActionView,
};
use vstd::prelude::*;

verus! {

/// One thing that can happen to the roster of a session.
pub enum RosterEvent {
    /// A connection presents `code`; `entrant` is the entry that is made for
    /// it if it is admitted.
    Handshake { entrant: UserView, code: Seq<char> },
    /// A connection comes and no first message of it can be read.
    Unreadable,
    /// The relay of the player at `ip` sees `event` on its client's side.
    Client { ip: Seq<char>, event: ClientEventView },
    /// The relay of the player at `ip` ends and takes its entry away.
    RelayEnds { ip: Seq<char> },
    /// The session is torn down.
    Teardown,
}

/// The roster after one event.
pub open spec fn roster_step(
    room_code: Seq<char>,
    capacity: nat,
    roster: Seq<UserView>,
    event: RosterEvent,
) -> Seq<UserView> {
    match event {
        RosterEvent::Handshake { entrant, code } => roster_after_handshake(
            room_code,
            roster,
            capacity,
            entrant,
            code,
        ),
        RosterEvent::Unreadable => roster,
        RosterEvent::Client { ip, event } => roster_after_client(roster, ip, event),
        RosterEvent::RelayEnds { ip } => without(roster, ip),
        RosterEvent::Teardown => Seq::empty(),
    }
}

/// The roster after a run of events on a roster that was empty.
pub open spec fn roster_run(room_code: Seq<char>, capacity: nat, events: Seq<RosterEvent>) -> Seq<
    UserView,
>
    decreases events.len(),
{
    if events.len() == 0 {
        Seq::empty()
    } else {
        roster_step(
            room_code,
            capacity,
            roster_run(room_code, capacity, events.drop_last()),
            events.last(),
        )
    }
}

/// One event, whatever it is, keeps a valid roster valid, and makes it longer
/// by one entry at most.
pub proof fn lemma_step_keeps_valid(
    room_code: Seq<char>,
    capacity: nat,
    roster: Seq<UserView>,
    event: RosterEvent,
)
    requires
        roster_valid(roster, capacity),
    ensures
        roster_valid(roster_step(room_code, capacity, roster, event), capacity),
        roster_step(room_code, capacity, roster, event).len() <= roster.len() + 1,
{
    match event {
        RosterEvent::Handshake { entrant, code } => {
            if admits(room_code, roster, capacity, entrant.ip, code) {
                lemma_push_keeps_distinct(roster, entrant);
            }
        },
        RosterEvent::Unreadable => {},
        RosterEvent::Client { ip, event } => {
            lemma_without_keeps_valid(roster, capacity, ip);
            lemma_without_drops_ip(roster, ip);
        },
        RosterEvent::RelayEnds { ip } => {
            lemma_without_keeps_valid(roster, capacity, ip);
            lemma_without_drops_ip(roster, ip);
        },
        RosterEvent::Teardown => {},
    }
}

/// Whatever first messages, client events, relay ends and teardowns follow
/// one another, from whatever addresses and with whatever codes, the roster
/// never holds two players with one address and never more players than the
/// capacity.
pub proof fn lemma_roster_always_valid(
    room_code: Seq<char>,
    capacity: nat,
    events: Seq<RosterEvent>,
)
    ensures
        roster_valid(roster_run(room_code, capacity, events), capacity),
    decreases events.len(),
{
    if events.len() > 0 {
        lemma_roster_always_valid(room_code, capacity, events.drop_last());
        lemma_step_keeps_valid(
            room_code,
            capacity,
            roster_run(room_code, capacity, events.drop_last()),
            events.last(),
        );
    }
}

/// A first message from an address that is on the roster adds no entry, tells
/// nobody and is not answered with `Success`, whatever code it presents.
pub proof fn lemma_known_address_is_refused(
    room_code: Seq<char>,
    roster: Seq<UserView>,
    capacity: nat,
    entrant: UserView,
    code: Seq<char>,
)
    requires
        has_ip(roster, entrant.ip),
    ensures
        !admits(room_code, roster, capacity, entrant.ip, code),
        roster_after_handshake(room_code, roster, capacity, entrant, code) == roster,
        join_notices(room_code, roster, capacity, entrant.info(), code).len() == 0,
        !(reply_for(room_code, roster, capacity, entrant.info(), code) is Success),
{
}

/// Some delivery of the list is bound for this player and goes through the
/// player's own end.
pub open spec fn reaches(deliveries: Seq<DeliveryView>, user: UserView) -> bool {
    exists|k: int|
        0 <= k < deliveries.len() && (#[trigger] deliveries[k]).to == user.ip
            && deliveries[k].channel == user.send_message
}

/// Some delivery of the list is bound for the address `ip`.
pub open spec fn bound_for(deliveries: Seq<DeliveryView>, ip: Seq<char>) -> bool {
    exists|k: int| 0 <= k < deliveries.len() && (#[trigger] deliveries[k]).to == ip
}

/// The delivery is bound for a player on the roster and goes through that
/// player's own end.
pub open spec fn for_one_of(roster: Seq<UserView>, delivery: DeliveryView) -> bool {
    exists|i: int|
        0 <= i < roster.len() && (#[trigger] roster[i]).ip == delivery.to
            && roster[i].send_message == delivery.channel
}

/// When a connection is admitted, each player who was there before is due one
/// `Join` that names the newcomer, the newcomer is due none, and the roster
/// that the newcomer is sent is the roster as it stands from then on: those
/// who were there, in their order, and the newcomer last.
pub proof fn lemma_admission_tells_those_before(
    room_code: Seq<char>,
    roster: Seq<UserView>,
    capacity: nat,
    entrant: UserView,
    code: Seq<char>,
)
    requires
        admits(room_code, roster, capacity, entrant.ip, code),
    ensures
        roster_after_handshake(room_code, roster, capacity, entrant, code) == roster.push(
            entrant,
        ),
        reply_for(room_code, roster, capacity, entrant.info(), code) == NetReceiverView::Success(
            roster_infos(roster_after_handshake(room_code, roster, capacity, entrant, code)),
        ),
        join_notices(room_code, roster, capacity, entrant.info(), code).len() == roster.len(),
        forall|i: int|
            0 <= i < roster.len() ==> #[trigger] join_notices(
                room_code,
                roster,
                capacity,
                entrant.info(),
                code,
            )[i] == (DeliveryView {
                to: roster[i].ip,
                channel: roster[i].send_message,
                message: MessageView::Join(entrant.info()),
            }),
        !bound_for(join_notices(room_code, roster, capacity, entrant.info(), code), entrant.ip),
{
    let joins = join_notices(room_code, roster, capacity, entrant.info(), code);
    assert(roster_infos(roster.push(entrant)) =~= roster_infos(roster).push(entrant.info()));
    assert(!bound_for(joins, entrant.ip)) by {
        if bound_for(joins, entrant.ip) {
            let k = choose|k: int| 0 <= k < joins.len() && (#[trigger] joins[k]).to == entrant.ip;
            assert(roster[k].ip == entrant.ip);
        }
    }
}

/// A connection that is not admitted changes nothing and tells nobody: a
/// wrong code is answered with `Failed` whatever else holds, the right code
/// with `Full` when the room has no place left, and with `Failed` when there
/// is a place but the address is on the roster already.
pub proof fn lemma_refusal_changes_nothing(
    room_code: Seq<char>,
    roster: Seq<UserView>,
    capacity: nat,
    entrant: UserView,
    code: Seq<char>,
)
    requires
        !admits(room_code, roster, capacity, entrant.ip, code),
    ensures
        roster_after_handshake(room_code, roster, capacity, entrant, code) == roster,
        join_notices(room_code, roster, capacity, entrant.info(), code).len() == 0,
        code != room_code ==> reply_for(room_code, roster, capacity, entrant.info(), code)
            == NetReceiverView::Failed,
        code == room_code && roster.len() >= capacity ==> reply_for(
            room_code,
            roster,
            capacity,
            entrant.info(),
            code,
        ) == NetReceiverView::Full,
        code == room_code && roster.len() < capacity ==> reply_for(
            room_code,
            roster,
            capacity,
            entrant.info(),
            code,
        ) == NetReceiverView::Failed,
{
}

/// A gameplay action that the player at `sender` sends is due, unchanged, to
/// every other player on the roster, once each and through that player's own
/// end, and to nobody else: not to the sender, and not to anybody who is not
/// on the roster.
pub proof fn lemma_action_reaches_exactly_the_others(
    roster: Seq<UserView>,
    sender: Seq<char>,
    message: MessageView,
)
    requires
        distinct_ips(roster),
        message.is_action(),
    ensures
        client_action(roster, sender, ClientEventView::Received(message))
            == ClientActionView::Relay(notices(without(roster, sender), message)),
        roster_after_client(roster, sender, ClientEventView::Received(message)) == roster,
        forall|k: int|
            0 <= k < notices(without(roster, sender), message).len() ==> {
                let copy = #[trigger] notices(without(roster, sender), message)[k];
                &&& copy.message == message
                &&& copy.to != sender
                &&& for_one_of(roster, copy)
            },
        forall|i: int|
            0 <= i < roster.len() && (#[trigger] roster[i]).ip != sender ==> reaches(
                notices(without(roster, sender), message),
                roster[i],
            ),
        forall|k: int, l: int|
            0 <= k < l < notices(without(roster, sender), message).len() ==> (#[trigger] notices(
                without(roster, sender),
                message,
            )[k]).to != (#[trigger] notices(without(roster, sender), message)[l]).to,
{
    let others = without(roster, sender);
    let copies = notices(others, message);
    lemma_without_drops_ip(roster, sender);
    lemma_without_keeps_valid(roster, roster.len(), sender);
    assert forall|k: int| 0 <= k < copies.len() implies {
        let copy = #[trigger] copies[k];
        &&& copy.message == message
        &&& copy.to != sender
        &&& for_one_of(roster, copy)
    } by {
        assert(others[k].ip != sender);
        assert(roster.contains(others[k]));
        let i = choose|i: int| 0 <= i < roster.len() && roster[i] == others[k];
        assert(roster[i].ip == copies[k].to && roster[i].send_message == copies[k].channel);
    }
    assert forall|i: int| 0 <= i < roster.len() && (#[trigger] roster[i]).ip != sender implies reaches(
        copies,
        roster[i],
    ) by {
        lemma_without_keeps_others(roster, sender, i);
        let k = choose|k: int| 0 <= k < others.len() && others[k] == roster[i];
        assert(copies[k].to == roster[i].ip && copies[k].channel == roster[i].send_message);
    }
    assert forall|k: int, l: int| 0 <= k < l < copies.len() implies (#[trigger] copies[k]).to != (
    #[trigger] copies[l]).to by {
        assert(others[k].ip != others[l].ip);
    }
}

/// When a `Kick` with the address `target` is put into the channel of every
/// player on the roster, the relay of the player at `target` tells its client
/// `BeKick` and ends, and it is the only one: every other relay passes the
/// `Kick` on to its client and goes on.
pub proof fn lemma_kick_ends_only_the_target(roster: Seq<UserView>, target: Seq<char>)
    requires
        distinct_ips(roster),
    ensures
        notices(roster, MessageView::Kick(target)).len() == roster.len(),
        forall|i: int|
            0 <= i < roster.len() ==> {
                let notice = #[trigger] notices(roster, MessageView::Kick(target))[i];
                &&& notice.to == roster[i].ip
                &&& notice.channel == roster[i].send_message
                &&& notice.message == MessageView::Kick(target)
                &&& peer_action(notice.to, Some(notice.message)) == if roster[i].ip == target {
                    PeerActionView::DeliverLast(MessageView::BeKick)
                } else {
                    PeerActionView::Deliver(MessageView::Kick(target))
                }
            },
        forall|i: int, j: int|
            0 <= i < roster.len() && 0 <= j < roster.len() && peer_action(
                (#[trigger] roster[i]).ip,
                Some(MessageView::Kick(target)),
            ).ends_relay() && peer_action(
                (#[trigger] roster[j]).ip,
                Some(MessageView::Kick(target)),
            ).ends_relay() ==> i == j,
{
    assert forall|i: int, j: int|
        0 <= i < roster.len() && 0 <= j < roster.len() && peer_action(
            (#[trigger] roster[i]).ip,
            Some(MessageView::Kick(target)),
        ).ends_relay() && peer_action(
            (#[trigger] roster[j]).ip,
            Some(MessageView::Kick(target)),
        ).ends_relay() implies i == j by {
        if i < j {
            assert(roster[i].ip != roster[j].ip);
        } else if j < i {
            assert(roster[j].ip != roster[i].ip);
        }
    }
}

/// A relay tells its client `BeKick` only on a `Kick` with its own address,
/// ends on nothing else but that, a `Close` and a closed channel, and passes
/// every other message on to its client as it is.
pub proof fn lemma_relay_passes_on_verbatim(ip: Seq<char>, message: Option<MessageView>)
    ensures
        peer_action(ip, message) is DeliverLast <==> message == Some(MessageView::Kick(ip)),
        peer_action(ip, message) is DeliverLast ==> peer_action(ip, message)
            == PeerActionView::DeliverLast(MessageView::BeKick),
        peer_action(ip, message) is Stop <==> message is None || message == Some(
            MessageView::Close,
        ),
        peer_action(ip, message) matches PeerActionView::Deliver(passed) ==> message == Some(
            passed,
        ),
{
}

/// Of what a client sends, only the four gameplay actions are copied to other
/// players; `Close` takes the sender off the roster; everything else goes to
/// the controller and to no player.
pub proof fn lemma_only_actions_are_relayed(
    roster: Seq<UserView>,
    sender: Seq<char>,
    message: MessageView,
)
    ensures
        client_action(roster, sender, ClientEventView::Received(message)) is Relay
            <==> message.is_action(),
        client_action(roster, sender, ClientEventView::Received(message)) is Leave
            <==> message is Close,
        !message.is_action() && !(message is Close) ==> client_action(
            roster,
            sender,
            ClientEventView::Received(message),
        ) == ClientActionView::Forward(message),
{
}

/// When a player leaves, by `Close` or by a lost connection, the player is
/// off the roster, and exactly the players that remain are due a `Kick` with
/// the leaver's address, each through the player's own end.
pub proof fn lemma_leave_tells_the_rest(
    roster: Seq<UserView>,
    leaver: Seq<char>,
    event: ClientEventView,
)
    requires
        event.leaves(),
    ensures
        !has_ip(roster_after_client(roster, leaver, event), leaver),
        client_action(roster, leaver, event) == ClientActionView::Leave(
            notices(roster_after_client(roster, leaver, event), MessageView::Kick(leaver)),
        ),
        forall|i: int|
            0 <= i < roster.len() && (#[trigger] roster[i]).ip != leaver ==> reaches(
                notices(roster_after_client(roster, leaver, event), MessageView::Kick(leaver)),
                roster[i],
            ),
        !bound_for(
            notices(roster_after_client(roster, leaver, event), MessageView::Kick(leaver)),
            leaver,
        ),
{
    let rest = without(roster, leaver);
    let kicks = notices(rest, MessageView::Kick(leaver));
    lemma_without_drops_ip(roster, leaver);
    assert forall|i: int| 0 <= i < roster.len() && (#[trigger] roster[i]).ip != leaver implies reaches(
        kicks,
        roster[i],
    ) by {
        lemma_without_keeps_others(roster, leaver, i);
        let k = choose|k: int| 0 <= k < rest.len() && rest[k] == roster[i];
        assert(kicks[k].to == roster[i].ip && kicks[k].channel == roster[i].send_message);
    }
    assert(!bound_for(kicks, leaver)) by {
        if bound_for(kicks, leaver) {
            let k = choose|k: int| 0 <= k < kicks.len() && (#[trigger] kicks[k]).to == leaver;
            assert(rest[k].ip == leaver);
        }
    }
}

} // verus!
