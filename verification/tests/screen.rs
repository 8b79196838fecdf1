use room_server::handshake::{handshake, GameInteraction, NetConnect, RelayEnds};
use room_server::message::Message;
use room_server::players::{GameOperation, Player, PlayerInfos};
use room_server::registry::Users;
use room_server::screen::{game_over, roster_rows, Row};

/// A room with two players in it and what their relays work with.
fn two() -> (Users, Vec<RelayEnds>) {
    let room = GameInteraction::default();
    let mut users = Users::new(4);
    let mut relays = Vec::new();
    for (name, ip) in [("ann", "10.0.0.1:4000"), ("bob", "10.0.0.2:4000")] {
        let outcome = handshake(
            &room,
            &mut users,
            ip.to_string(),
            NetConnect { name: name.to_string(), code: "TEST".to_string() },
        );
        relays.push(outcome.relay.unwrap());
    }
    (users, relays)
}

#[test]
fn init_makes_fresh_seats_and_an_empty_pot() {
    let table = PlayerInfos::init(3);
    assert_eq!(table.players.len(), 3);
    assert_eq!(table.game_pos, 0);
    assert_eq!(table.money, 0);
    for seat in &table.players {
        assert_eq!(
            seat,
            &Player { money: 0, pos: 0, op: GameOperation::Check, pay_money: 0 }
        );
    }
}

#[test]
fn init_with_no_seats_makes_an_empty_table() {
    let table = PlayerInfos::init(0);
    assert!(table.players.is_empty());
    assert_eq!(table.game_pos, 0);
    assert_eq!(table.money, 0);
}

#[test]
fn a_fresh_seat_has_checked_and_holds_nothing() {
    assert_eq!(GameOperation::default(), GameOperation::Check);
    let seat = Player::default();
    assert_eq!(seat, Player { money: 0, pos: 0, op: GameOperation::Check, pay_money: 0 });
    assert_eq!(seat.clone(), seat);
    assert_eq!(GameOperation::Raise(9).clone(), GameOperation::Raise(9));
}

#[test]
fn each_row_shows_a_player_with_the_money_of_the_seat() {
    let (users, _relays) = two();
    let mut table = PlayerInfos::init(3);
    table.players[0].money = 1500;
    table.players[1].money = 20;
    table.players[2].money = 777;
    assert_eq!(
        roster_rows(&users, &table),
        vec![
            Row { name: "ann".to_string(), ip: "10.0.0.1:4000".to_string(), money: 1500 },
            Row { name: "bob".to_string(), ip: "10.0.0.2:4000".to_string(), money: 20 },
        ]
    );
}

#[test]
fn an_empty_roster_has_no_rows() {
    assert!(roster_rows(&Users::new(2), &PlayerInfos::init(0)).is_empty());
}

#[test]
fn the_end_of_the_game_is_told_to_every_player() {
    let (users, mut relays) = two();
    let overs = game_over(&users);
    assert_eq!(
        overs.iter().map(|d| (d.to.as_str(), d.message.clone())).collect::<Vec<_>>(),
        vec![("10.0.0.1:4000", Message::Over), ("10.0.0.2:4000", Message::Over)]
    );
    for over in overs {
        over.channel.try_send(over.message).unwrap();
    }
    for relay in relays.iter_mut() {
        assert_eq!(relay.recever.try_recv(), Ok(Message::Over));
    }
    assert!(game_over(&Users::new(2)).is_empty());
}
