use room_server::handshake::{handshake, GameInteraction, NetConnect, RelayEnds};
use room_server::message::{Message, UserInfo};
use room_server::registry::{Delivery, Users};
use room_server::relay::{
    leave, on_client_event, on_relay_message, ClientAction, ClientEvent, PeerAction,
};
use tokio::sync::mpsc::error::TryRecvError;

const ANN: &str = "10.0.0.1:4000";
const BOB: &str = "10.0.0.2:4000";
const CYD: &str = "10.0.0.3:4000";

/// A room with ann, bob and cyd in it and, in that order, what their relays
/// work with.
fn three() -> (Users, Vec<RelayEnds>) {
    let room = GameInteraction { server_ip: "127.0.0.1:3000".to_string(), code: "TEST".to_string() };
    let mut users = Users::new(4);
    let mut relays = Vec::new();
    for (name, ip) in [("ann", ANN), ("bob", BOB), ("cyd", CYD)] {
        let outcome = handshake(
            &room,
            &mut users,
            ip.to_string(),
            NetConnect { name: name.to_string(), code: "TEST".to_string() },
        );
        relays.push(outcome.relay.unwrap());
    }
    (users, relays)
}

fn sent(deliveries: &[Delivery]) -> Vec<(String, Message)> {
    deliveries.iter().map(|d| (d.to.clone(), d.message.clone())).collect()
}

fn to(ip: &str, message: Message) -> (String, Message) {
    (ip.to_string(), message)
}

fn perform(deliveries: Vec<Delivery>) {
    for delivery in deliveries {
        delivery.channel.try_send(delivery.message).unwrap();
    }
}

fn relayed(action: ClientAction) -> Vec<Delivery> {
    match action {
        ClientAction::Relay(copies) => copies,
        other => panic!("not relayed: {:?}", other),
    }
}

fn left(action: ClientAction) -> Vec<Delivery> {
    match action {
        ClientAction::Leave(kicks) => kicks,
        other => panic!("not left: {:?}", other),
    }
}

#[test]
fn a_raise_goes_unchanged_to_every_other_player_and_not_to_its_sender() {
    let (mut users, mut relays) = three();
    let action =
        on_client_event(&mut users, &ANN.to_string(), ClientEvent::Received(Message::Raise(120)));
    assert!(!action.ends_relay());
    let copies = relayed(action);
    assert_eq!(sent(&copies), vec![to(BOB, Message::Raise(120)), to(CYD, Message::Raise(120))]);
    assert_eq!(users.len(), 3);

    perform(copies);
    assert_eq!(relays[0].recever.try_recv(), Err(TryRecvError::Empty));
    assert_eq!(relays[1].recever.try_recv(), Ok(Message::Raise(120)));
    assert_eq!(relays[1].recever.try_recv(), Err(TryRecvError::Empty));
    assert_eq!(relays[2].recever.try_recv(), Ok(Message::Raise(120)));
    assert_eq!(relays[2].recever.try_recv(), Err(TryRecvError::Empty));
}

#[test]
fn call_fold_and_check_are_relayed_like_a_raise() {
    for message in [Message::Call, Message::Fold, Message::Check, Message::Raise(0)] {
        let (mut users, _relays) = three();
        let action =
            on_client_event(&mut users, &BOB.to_string(), ClientEvent::Received(message.clone()));
        assert_eq!(
            sent(&relayed(action)),
            vec![to(ANN, message.clone()), to(CYD, message.clone())]
        );
        assert_eq!(users.snapshot(), three().0.snapshot());
    }
}

#[test]
fn an_action_of_the_only_player_reaches_nobody() {
    let (mut users, _relays) = three();
    users.remove(&BOB.to_string());
    users.remove(&CYD.to_string());
    let action = on_client_event(&mut users, &ANN.to_string(), ClientEvent::Received(Message::Check));
    assert!(relayed(action).is_empty());
}

#[test]
fn close_takes_the_sender_off_the_roster_and_tells_the_rest() {
    let room = GameInteraction { server_ip: "127.0.0.1:3000".to_string(), code: "TEST".to_string() };
    let mut users = Users::new(2);
    let mut ann = handshake(
        &room,
        &mut users,
        ANN.to_string(),
        NetConnect { name: "ann".to_string(), code: "TEST".to_string() },
    )
    .relay
    .unwrap();
    let mut bob = handshake(
        &room,
        &mut users,
        BOB.to_string(),
        NetConnect { name: "bob".to_string(), code: "TEST".to_string() },
    )
    .relay
    .unwrap();
    assert_eq!(users.len(), 2);

    let action = on_client_event(&mut users, &ANN.to_string(), ClientEvent::Received(Message::Close));
    assert!(action.ends_relay());
    let kicks = left(action);
    assert_eq!(sent(&kicks), vec![to(BOB, Message::Kick(ANN.to_string()))]);
    assert_eq!(users.len(), 1);
    assert_eq!(
        users.snapshot(),
        vec![UserInfo { name: "bob".to_string(), ip: BOB.to_string() }]
    );

    perform(kicks);
    assert_eq!(bob.recever.try_recv(), Ok(Message::Kick(ANN.to_string())));
    assert_eq!(bob.recever.try_recv(), Err(TryRecvError::Empty));
    assert_eq!(ann.recever.try_recv(), Err(TryRecvError::Disconnected));
}

#[test]
fn a_lost_connection_is_a_close() {
    let (mut lost, _a) = three();
    let (mut closed, _b) = three();
    let on_lost = left(on_client_event(&mut lost, &BOB.to_string(), ClientEvent::Lost));
    let on_close =
        left(on_client_event(&mut closed, &BOB.to_string(), ClientEvent::Received(Message::Close)));
    assert_eq!(
        sent(&on_lost),
        vec![to(ANN, Message::Kick(BOB.to_string())), to(CYD, Message::Kick(BOB.to_string()))]
    );
    assert_eq!(sent(&on_lost), sent(&on_close));
    assert_eq!(lost.snapshot(), closed.snapshot());
    assert!(!lost.contains_ip(&BOB.to_string()));
}

#[test]
fn the_last_player_leaves_an_empty_roster_and_tells_nobody() {
    let (mut users, _relays) = three();
    users.remove(&BOB.to_string());
    users.remove(&CYD.to_string());
    let action = on_client_event(&mut users, &ANN.to_string(), ClientEvent::Lost);
    assert!(left(action).is_empty());
    assert_eq!(users.len(), 0);
}

#[test]
fn a_close_from_somebody_off_the_roster_still_tells_everybody() {
    let (mut users, _relays) = three();
    users.remove(&BOB.to_string());
    let action = on_client_event(&mut users, &BOB.to_string(), ClientEvent::Received(Message::Close));
    assert_eq!(
        sent(&left(action)),
        vec![to(ANN, Message::Kick(BOB.to_string())), to(CYD, Message::Kick(BOB.to_string()))]
    );
    assert_eq!(users.len(), 2);
}

#[test]
fn leave_lists_a_kick_for_each_player_who_stays() {
    let (mut users, _relays) = three();
    let kicks = leave(&mut users, &CYD.to_string());
    assert_eq!(
        sent(&kicks),
        vec![to(ANN, Message::Kick(CYD.to_string())), to(BOB, Message::Kick(CYD.to_string()))]
    );
    assert_eq!(users.len(), 2);
}

#[test]
fn every_other_message_of_a_client_is_for_the_controller() {
    let others = vec![
        Message::Kick(BOB.to_string()),
        Message::Start,
        Message::Join(UserInfo { name: "eve".to_string(), ip: "10.0.0.9:1".to_string() }),
        Message::BeKick,
        Message::Over,
        Message::Reset,
    ];
    for message in others {
        let (mut users, _relays) = three();
        let action =
            on_client_event(&mut users, &ANN.to_string(), ClientEvent::Received(message.clone()));
        assert!(!action.ends_relay());
        match action {
            ClientAction::Forward(forwarded) => assert_eq!(forwarded, message),
            other => panic!("not forwarded: {:?}", other),
        }
        assert_eq!(users.snapshot(), three().0.snapshot());
    }
}

#[test]
fn bytes_that_are_no_message_end_the_relay_in_silence() {
    let (mut users, _relays) = three();
    let action = on_client_event(&mut users, &ANN.to_string(), ClientEvent::Undecodable);
    assert!(action.ends_relay());
    assert!(matches!(action, ClientAction::Abandon));
    assert_eq!(users.snapshot(), three().0.snapshot());
}

#[test]
fn a_kick_with_the_own_address_becomes_bekick_and_ends_the_relay() {
    let action = on_relay_message(&BOB.to_string(), Some(Message::Kick(BOB.to_string())));
    assert_eq!(action, PeerAction::DeliverLast(Message::BeKick));
    assert!(action.ends_relay());
}

#[test]
fn a_kick_with_another_address_is_passed_on() {
    let action = on_relay_message(&BOB.to_string(), Some(Message::Kick(ANN.to_string())));
    assert_eq!(action, PeerAction::Deliver(Message::Kick(ANN.to_string())));
    assert!(!action.ends_relay());
}

#[test]
fn a_kick_put_to_every_player_ends_the_relay_of_the_target_alone() {
    let (users, mut relays) = three();
    let kicks = users.notify_all(&Message::Kick(BOB.to_string()));
    assert_eq!(kicks.len(), 3);
    perform(kicks);

    let mut ended = Vec::new();
    for (ip, relay) in [ANN, BOB, CYD].into_iter().zip(relays.iter_mut()) {
        let action = on_relay_message(&ip.to_string(), relay.recever.try_recv().ok());
        if ip == BOB {
            assert_eq!(action, PeerAction::DeliverLast(Message::BeKick));
        } else {
            assert_eq!(action, PeerAction::Deliver(Message::Kick(BOB.to_string())));
        }
        if action.ends_relay() {
            ended.push(ip);
        }
    }
    assert_eq!(ended, vec![BOB]);
}

#[test]
fn close_in_the_channel_ends_the_relay_and_sends_nothing() {
    let action = on_relay_message(&ANN.to_string(), Some(Message::Close));
    assert_eq!(action, PeerAction::Stop);
    assert!(action.ends_relay());
}

#[test]
fn a_closed_channel_ends_the_relay() {
    let action = on_relay_message(&ANN.to_string(), None);
    assert_eq!(action, PeerAction::Stop);
    assert!(action.ends_relay());
}

#[test]
fn everything_else_in_the_channel_goes_to_the_client_as_it_is() {
    let passed = vec![
        Message::Start,
        Message::Join(UserInfo { name: "bob".to_string(), ip: BOB.to_string() }),
        Message::BeKick,
        Message::Over,
        Message::Raise(7),
        Message::Call,
        Message::Fold,
        Message::Check,
        Message::Reset,
    ];
    for message in passed {
        let action = on_relay_message(&ANN.to_string(), Some(message.clone()));
        assert_eq!(action, PeerAction::Deliver(message));
        assert!(!action.ends_relay());
    }
}
