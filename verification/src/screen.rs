//! What the host's screen shows while the game runs, and what its one button
//! does.

use crate::message::{Message, MessageView};
use crate::players::{Player, PlayerInfos};
use crate::registry::{notices, roster_infos, Delivery, UserView, Users};
use vstd::prelude::*;

verus! {

/// One line of the list of players on the host's screen.
#[derive(Debug, PartialEq, Eq)]
pub struct Row {
    pub name: String,
    pub ip: String,
    pub money: u64,
}

/// Mathematical value of a [`Row`].
pub struct RowView {
    pub name: Seq<char>,
    pub ip: Seq<char>,
    pub money: u64,
}

impl View for Row {
    type V = RowView;

    open spec fn view(&self) -> RowView {
        RowView { name: self.name@, ip: self.ip@, money: self.money }
    }
}

impl DeepView for Row {
    type V = RowView;

    open spec fn deep_view(&self) -> RowView {
        self@
    }
}

/// The list of players as the screen shows it: the roster in its order, each
/// player with the money of the seat that has the player's place in the
/// roster.
pub open spec fn rows_of(roster: Seq<UserView>, seats: Seq<Player>) -> Seq<RowView> {
    Seq::new(
        roster.len(),
        |i: int| RowView { name: roster[i].name, ip: roster[i].ip, money: seats[i].money },
    )
}

/// Lists the players for the screen. There must be a seat for every player
/// on the roster.
pub fn roster_rows(users: &Users, table: &PlayerInfos) -> (rows: Vec<Row>)
    requires
        users@.len() <= table.players@.len(),
    ensures
        rows.deep_view() == rows_of(users@, table.players@),
{
    let list = users.snapshot();
    let mut rows: Vec<Row> = Vec::new();
    let mut i: usize = 0;
    proof {
        assert(list.deep_view().len() == roster_infos(users@).len());
    }
    while i < list.len()
        invariant
            i <= list.len(),
            list@.len() == users@.len(),
            list.deep_view() == roster_infos(users@),
            users@.len() <= table.players@.len(),
            rows.deep_view() == rows_of(users@, table.players@).take(i as int),
        decreases list.len() - i,
    {
        let ghost before = rows.deep_view();
        rows.push(
            Row {
                name: list[i].name.clone(),
                ip: list[i].ip.clone(),
                money: table.players[i].money,
            },
        );
        proof {
            assert(list.deep_view()[i as int] == list@[i as int]@);
            assert(roster_infos(users@)[i as int] == users@[i as int].info());
            let row = rows_of(users@, table.players@)[i as int];
            assert(rows.deep_view() =~= before.push(row));
            assert(rows_of(users@, table.players@).take(i + 1) =~= before.push(row));
        }
        i += 1;
    }
    proof {
        assert(rows_of(users@, table.players@).take(i as int) =~= rows_of(
            users@,
            table.players@,
        ));
    }
    rows
}

/// The host ends the game: every player on the roster is due an `Over`.
pub fn game_over(users: &Users) -> (overs: Vec<Delivery>)
    ensures
        overs.deep_view() == notices(users@, MessageView::Over),
{
    users.notify_all(&Message::Over)
}

} // verus!
