//! The roster of connected players.
//!
//! A roster is an ordered list of players in the order in which they were
//! admitted. No two of its entries share an address, and it never holds more
//! entries than the capacity it was made with.

use crate::channel::another;
use crate::message::{Message, MessageView, UserInfo, UserInfoView};
use tokio::sync::mpsc::{Receiver, Sender};
use vstd::prelude::*;

verus! {

/// A connected player as the roster holds it: who the player is, and the
/// player's ends of the two channels that tie the player's relay to the rest
/// of the server. When the entry is dropped the channels close, and that
/// tells the relay to stop.
#[derive(Debug)]
pub struct User {
    /// Peer address; unique among the entries of a roster.
    pub ip: String,
    /// Display label.
    pub name: String,
    /// Where messages for the player's client are put.
    pub send_message: Sender<Message>,
    /// Where the messages that the player's client sent for the game come
    /// out.
    pub recv_message: Receiver<Message>,
}

/// Mathematical value of a [`User`]: who the player is, the end through
/// which the player is reached, and the end at which what the player sent for
/// the game comes out.
pub struct UserView {
    pub name: Seq<char>,
    pub ip: Seq<char>,
    pub send_message: Sender<Message>,
    pub recv_message: Receiver<Message>,
}

impl UserView {
    /// The part that other players may see.
    pub open spec fn info(self) -> UserInfoView {
        UserInfoView { name: self.name, ip: self.ip }
    }
}

impl View for User {
    type V = UserView;

    open spec fn view(&self) -> UserView {
        UserView {
            name: self.name@,
            ip: self.ip@,
            send_message: self.send_message,
            recv_message: self.recv_message,
        }
    }
}

impl DeepView for User {
    type V = UserView;

    open spec fn deep_view(&self) -> UserView {
        self@
    }
}

impl User {
    /// The part of the entry that other players may see. It holds no end of
    /// any channel.
    pub fn info(&self) -> (info: UserInfo)
        ensures
            info@ == self@.info(),
    {
        UserInfo { name: self.name.clone(), ip: self.ip.clone() }
    }
}

/// One message bound for one player, with a sending end of that player's
/// channel, so that the message can be sent when the roster is no longer
/// held.
#[derive(Debug)]
pub struct Delivery {
    /// Address of the player who is to receive the message.
    pub to: String,
    /// A sending end of that player's channel.
    pub channel: Sender<Message>,
    pub message: Message,
}

/// Mathematical value of a [`Delivery`]: to whom, through which end, and
/// what.
pub struct DeliveryView {
    pub to: Seq<char>,
    pub channel: Sender<Message>,
    pub message: MessageView,
}

impl View for Delivery {
    type V = DeliveryView;

    open spec fn view(&self) -> DeliveryView {
        DeliveryView { to: self.to@, channel: self.channel, message: self.message@ }
    }
}

impl DeepView for Delivery {
    type V = DeliveryView;

    open spec fn deep_view(&self) -> DeliveryView {
        self@
    }
}

/// Some entry of the roster has this address.
pub open spec fn has_ip(roster: Seq<UserView>, ip: Seq<char>) -> bool {
    exists|i: int| 0 <= i < roster.len() && (#[trigger] roster[i]).ip == ip
}

/// No two entries of the roster share an address.
pub open spec fn distinct_ips(roster: Seq<UserView>) -> bool {
    forall|i: int, j: int|
        0 <= i < j < roster.len() ==> (#[trigger] roster[i]).ip != (#[trigger] roster[j]).ip
}

/// What a roster must satisfy at all times.
pub open spec fn roster_valid(roster: Seq<UserView>, capacity: nat) -> bool {
    distinct_ips(roster) && roster.len() <= capacity
}

/// The players whose address is not `ip`.
pub open spec fn other_than(ip: Seq<char>) -> spec_fn(UserView) -> bool {
    |user: UserView| user.ip != ip
}

/// The roster without the entries that have this address, the others in their order.
pub open spec fn without(roster: Seq<UserView>, ip: Seq<char>) -> Seq<UserView> {
    roster.filter(other_than(ip))
}

/// One delivery of `message` to each entry of the roster, in roster order,
/// each through the end that the entry holds.
pub open spec fn notices(roster: Seq<UserView>, message: MessageView) -> Seq<DeliveryView> {
    Seq::new(
        roster.len(),
        |i: int|
            DeliveryView { to: roster[i].ip, channel: roster[i].send_message, message },
    )
}

/// What the other players may see of each entry, in roster order.
pub open spec fn roster_infos(roster: Seq<UserView>) -> Seq<UserInfoView> {
    Seq::new(roster.len(), |i: int| roster[i].info())
}

/// The roster that a list of entries stands for.
pub open spec fn roster_of(entries: Seq<User>) -> Seq<UserView> {
    Seq::new(entries.len(), |i: int| entries[i]@)
}

/// Taking out an entry whose address nothing else shares is the same as
/// dropping every entry with that address.
pub proof fn lemma_without_present(roster: Seq<UserView>, ip: Seq<char>, at: int)
    requires
        distinct_ips(roster),
        0 <= at < roster.len(),
        roster[at].ip == ip,
    ensures
        without(roster, ip) == roster.remove(at),
    decreases roster.len(),
{
    let front = roster.drop_last();
    let keep = other_than(ip);
    assert(roster == front.push(roster.last()));
    Seq::lemma_filter_push(front, roster.last(), keep);
    if at == roster.len() - 1 {
        assert(!keep(roster.last()));
        assert(!has_ip(front, ip)) by {
            if has_ip(front, ip) {
                let k = choose|k: int| 0 <= k < front.len() && (#[trigger] front[k]).ip == ip;
                assert(roster[k].ip == roster[at].ip);
            }
        }
        lemma_without_absent(front, ip);
        assert(roster.remove(at) =~= front);
    } else {
        assert(roster[at].ip != roster[roster.len() - 1].ip);
        assert(keep(roster.last()));
        assert(distinct_ips(front)) by {
            assert forall|i: int, j: int| 0 <= i < j < front.len() implies (#[trigger] front[i]).ip
                != (#[trigger] front[j]).ip by {
                assert(roster[i].ip != roster[j].ip);
            }
        }
        lemma_without_present(front, ip, at);
        assert(roster.remove(at) =~= front.remove(at).push(roster.last()));
    }
}

/// Dropping an address that no entry has changes nothing.
pub proof fn lemma_without_absent(roster: Seq<UserView>, ip: Seq<char>)
    requires
        !has_ip(roster, ip),
    ensures
        without(roster, ip) == roster,
    decreases roster.len(),
{
    if roster.len() == 0 {
        reveal(Seq::filter);
    } else {
        let front = roster.drop_last();
        assert(roster == front.push(roster.last()));
        Seq::lemma_filter_push(front, roster.last(), other_than(ip));
        assert(roster[roster.len() - 1].ip != ip);
        assert(!has_ip(front, ip)) by {
            if has_ip(front, ip) {
                let k = choose|k: int| 0 <= k < front.len() && (#[trigger] front[k]).ip == ip;
                assert(roster[k].ip == ip);
            }
        }
        lemma_without_absent(front, ip);
    }
}

/// The roster of a session, with the capacity it was made with.
#[derive(Debug)]
pub struct Users {
    users: Vec<User>,
    capacity: usize,
}

impl View for Users {
    type V = Seq<UserView>;

    closed spec fn view(&self) -> Seq<UserView> {
        roster_of(self.users@)
    }
}

impl Users {
    /// The largest number of players that the roster admits.
    pub closed spec fn spec_capacity(&self) -> usize {
        self.capacity
    }

    /// No two entries share an address, and there are no more entries than
    /// the capacity allows. This holds of every roster at all times.
    #[verifier::type_invariant]
    pub open spec fn well_formed(&self) -> bool {
        roster_valid(self@, self.capacity() as nat)
    }

    /// An empty roster for at most `capacity` players.
    pub fn new(capacity: usize) -> (users: Users)
        ensures
            users@ == Seq::<UserView>::empty(),
            users.capacity() == capacity,
            users.well_formed(),
    {
        let users = Users { users: Vec::new(), capacity };
        assert(users@ =~= Seq::<UserView>::empty());
        users
    }

    /// The capacity that the roster was made with.
    #[verifier::when_used_as_spec(spec_capacity)]
    pub fn capacity(&self) -> (capacity: usize)
        ensures
            capacity == self.spec_capacity(),
    {
        self.capacity
    }

    /// Number of players on the roster. It never exceeds the capacity.
    pub fn len(&self) -> (n: usize)
        ensures
            n == self@.len(),
            n <= self.capacity(),
            self.well_formed(),
    {
        proof {
            use_type_invariant(self);
        }
        self.users.len()
    }

    /// Whether the roster has no room for another player.
    pub fn is_full(&self) -> (full: bool)
        ensures
            full == (self@.len() >= self.capacity()),
            full == (self@.len() == self.capacity()),
    {
        proof {
            use_type_invariant(self);
        }
        self.users.len() >= self.capacity
    }

    /// Index of the entry with this address, if there is one.
    pub fn position(&self, ip: &String) -> (at: Option<usize>)
        ensures
            match at {
                Some(i) => i < self@.len() && self@[i as int].ip == ip@,
                None => !has_ip(self@, ip@),
            },
    {
        let mut i: usize = 0;
        while i < self.users.len()
            invariant
                i <= self.users.len(),
                forall|k: int| 0 <= k < i ==> (#[trigger] self@[k]).ip != ip@,
            decreases self.users.len() - i,
        {
            if self.users[i].ip == *ip {
                return Some(i);
            }
            i += 1;
        }
        None
    }

    /// Whether some player on the roster has this address.
    pub fn contains_ip(&self, ip: &String) -> (found: bool)
        ensures
            found == has_ip(self@, ip@),
    {
        self.position(ip).is_some()
    }

    /// Puts a player at the end of the roster.
    ///
    /// The address must be new to the roster and the roster must have room.
    pub fn add(&mut self, user: User)
        requires
            !has_ip(old(self)@, user@.ip),
            old(self)@.len() < old(self).capacity(),
        ensures
            final(self)@ == old(self)@.push(user@),
            final(self).capacity() == old(self).capacity(),
            final(self).well_formed(),
    {
        proof {
            use_type_invariant(&*self);
            lemma_push_keeps_distinct(self@, user@);
            assert(roster_of(self.users@.push(user)) =~= self@.push(user@));
        }
        let mut entries: Vec<User> = Vec::new();
        core::mem::swap(&mut self.users, &mut entries);
        entries.push(user);
        core::mem::swap(&mut self.users, &mut entries);
    }

    /// Takes the player with this address off the roster and hands the entry
    /// back. The other entries keep their order. Where no entry has the
    /// address, nothing changes.
    pub fn remove(&mut self, ip: &String) -> (gone: Option<User>)
        ensures
            final(self)@ == without(old(self)@, ip@),
            final(self).capacity() == old(self).capacity(),
            final(self).well_formed(),
            gone is Some <==> has_ip(old(self)@, ip@),
            gone matches Some(user) ==> user@.ip == ip@ && old(self)@.contains(user@),
    {
        proof {
            use_type_invariant(&*self);
        }
        match self.position(ip) {
            Some(i) => {
                proof {
                    lemma_without_present(self@, ip@, i as int);
                    lemma_remove_keeps_distinct(self@, i as int);
                    assert(roster_of(self.users@.remove(i as int)) =~= self@.remove(i as int));
                    assert(self@[i as int] == self.users@[i as int]@);
                }
                let mut entries: Vec<User> = Vec::new();
                core::mem::swap(&mut self.users, &mut entries);
                let user = entries.remove(i);
                core::mem::swap(&mut self.users, &mut entries);
                Some(user)
            },
            None => {
                proof {
                    lemma_without_absent(self@, ip@);
                }
                None
            },
        }
    }

    /// Empties the roster.
    pub fn clear(&mut self)
        ensures
            final(self)@ == Seq::<UserView>::empty(),
            final(self).capacity() == old(self).capacity(),
            final(self).well_formed(),
    {
        proof {
            assert(roster_of(Seq::<User>::empty()) =~= Seq::<UserView>::empty());
        }
        let mut entries: Vec<User> = Vec::new();
        core::mem::swap(&mut self.users, &mut entries);
    }

    /// The roster as the clients are shown it: every player, in the order of
    /// admission.
    pub fn snapshot(&self) -> (list: Vec<UserInfo>)
        ensures
            list.deep_view() == roster_infos(self@),
    {
        let mut list: Vec<UserInfo> = Vec::new();
        let mut i: usize = 0;
        while i < self.users.len()
            invariant
                i <= self.users.len(),
                list.deep_view() == roster_infos(self@.take(i as int)),
            decreases self.users.len() - i,
        {
            let ghost before = list.deep_view();
            list.push(self.users[i].info());
            proof {
                assert(list.deep_view() =~= before.push(self@[i as int].info()));
                assert(roster_infos(self@.take(i + 1)) =~= before.push(self@[i as int].info()));
            }
            i += 1;
        }
        proof {
            assert(self@.take(i as int) =~= self@);
        }
        list
    }

    /// One delivery of `message` for every player on the roster, in roster
    /// order.
    pub fn notify_all(&self, message: &Message) -> (out: Vec<Delivery>)
        ensures
            out.deep_view() == notices(self@, message@),
    {
        let mut out: Vec<Delivery> = Vec::new();
        let mut i: usize = 0;
        while i < self.users.len()
            invariant
                i <= self.users.len(),
                out.deep_view() == notices(self@.take(i as int), message@),
            decreases self.users.len() - i,
        {
            let ghost before = out.deep_view();
            out.push(
                Delivery {
                    to: self.users[i].ip.clone(),
                    channel: another(&self.users[i].send_message),
                    message: message.clone(),
                },
            );
            proof {
                let notice = DeliveryView {
                    to: self@[i as int].ip,
                    channel: self@[i as int].send_message,
                    message: message@,
                };
                assert(out.deep_view() =~= before.push(notice));
                assert(notices(self@.take(i + 1), message@) =~= notices(
                    self@.take(i as int),
                    message@,
                ).push(notice));
            }
            i += 1;
        }
        proof {
            assert(self@.take(i as int) =~= self@);
        }
        out
    }

    /// One delivery of `message` for every player on the roster but the one
    /// with the address `excluding_ip`, in roster order.
    pub fn notify_others(&self, excluding_ip: &String, message: &Message) -> (out: Vec<Delivery>)
        ensures
            out.deep_view() == notices(without(self@, excluding_ip@), message@),
    {
        let mut out: Vec<Delivery> = Vec::new();
        let mut i: usize = 0;
        proof {
            reveal(Seq::filter);
            assert(self@.take(0) =~= Seq::<UserView>::empty());
        }
        while i < self.users.len()
            invariant
                i <= self.users.len(),
                out.deep_view() == notices(without(self@.take(i as int), excluding_ip@), message@),
            decreases self.users.len() - i,
        {
            proof {
                assert(self@.take(i + 1) =~= self@.take(i as int).push(self@[i as int]));
                Seq::lemma_filter_push(
                    self@.take(i as int),
                    self@[i as int],
                    other_than(excluding_ip@),
                );
            }
            if !(self.users[i].ip == *excluding_ip) {
                let ghost before = out.deep_view();
                out.push(
                Delivery {
                    to: self.users[i].ip.clone(),
                    channel: another(&self.users[i].send_message),
                    message: message.clone(),
                },
            );
                proof {
                    let notice = DeliveryView {
                        to: self@[i as int].ip,
                        channel: self@[i as int].send_message,
                        message: message@,
                    };
                    let kept = without(self@.take(i as int), excluding_ip@);
                    assert(out.deep_view() =~= before.push(notice));
                    assert(notices(kept.push(self@[i as int]), message@) =~= notices(
                        kept,
                        message@,
                    ).push(notice));
                }
            }
            i += 1;
        }
        proof {
            assert(self@.take(i as int) =~= self@);
        }
        out
    }
}

/// A new address at the end keeps the addresses distinct.
pub proof fn lemma_push_keeps_distinct(roster: Seq<UserView>, user: UserView)
    requires
        distinct_ips(roster),
        !has_ip(roster, user.ip),
    ensures
        distinct_ips(roster.push(user)),
{
    let longer = roster.push(user);
    assert forall|i: int, j: int| 0 <= i < j < longer.len() implies (#[trigger] longer[i]).ip != (
    #[trigger] longer[j]).ip by {
        if j == roster.len() {
            assert(roster[i].ip != user.ip);
        } else {
            assert(roster[i].ip != roster[j].ip);
        }
    }
}

/// Taking an entry out keeps the addresses distinct.
pub proof fn lemma_remove_keeps_distinct(roster: Seq<UserView>, at: int)
    requires
        distinct_ips(roster),
        0 <= at < roster.len(),
    ensures
        distinct_ips(roster.remove(at)),
{
    let shorter = roster.remove(at);
    assert forall|i: int, j: int| 0 <= i < j < shorter.len() implies (#[trigger] shorter[i]).ip != (
    #[trigger] shorter[j]).ip by {
        let i0 = if i < at { i } else { i + 1 };
        let j0 = if j < at { j } else { j + 1 };
        assert(roster[i0].ip != roster[j0].ip);
    }
}

/// Without an address, no entry has that address, and every entry that is
/// left was there before.
pub proof fn lemma_without_drops_ip(roster: Seq<UserView>, ip: Seq<char>)
    ensures
        !has_ip(without(roster, ip), ip),
        forall|k: int|
            0 <= k < without(roster, ip).len() ==> roster.contains(
                #[trigger] without(roster, ip)[k],
            ),
        without(roster, ip).len() <= roster.len(),
{
    let rest = without(roster, ip);
    Seq::lemma_filter_len(roster, other_than(ip));
    assert forall|k: int| 0 <= k < rest.len() implies (#[trigger] rest[k]).ip != ip
        && roster.contains(rest[k]) by {
        Seq::lemma_filter_pred(roster, other_than(ip), k);
        assert(rest.contains(rest[k]));
        Seq::lemma_filter_contains_rev(roster, other_than(ip), rest[k]);
    }
}

/// Without an address, every entry with another address is still there.
pub proof fn lemma_without_keeps_others(roster: Seq<UserView>, ip: Seq<char>, at: int)
    requires
        0 <= at < roster.len(),
        roster[at].ip != ip,
    ensures
        without(roster, ip).contains(roster[at]),
        has_ip(without(roster, ip), roster[at].ip),
{
    let rest = without(roster, ip);
    Seq::lemma_filter_contains(roster, other_than(ip), at);
    let k = choose|k: int| 0 <= k < rest.len() && rest[k] == roster[at];
    assert(rest[k].ip == roster[at].ip);
}

/// Dropping an address keeps a roster valid.
pub proof fn lemma_without_keeps_valid(roster: Seq<UserView>, capacity: nat, ip: Seq<char>)
    requires
        roster_valid(roster, capacity),
    ensures
        roster_valid(without(roster, ip), capacity),
{
    if has_ip(roster, ip) {
        let at = choose|i: int| 0 <= i < roster.len() && (#[trigger] roster[i]).ip == ip;
        lemma_without_present(roster, ip, at);
        lemma_remove_keeps_distinct(roster, at);
    } else {
        lemma_without_absent(roster, ip);
    }
}

/// In the roster, the entry `first` stands before the entry `second`.
pub open spec fn comes_before(roster: Seq<UserView>, first: UserView, second: UserView) -> bool {
    exists|i: int, j: int|
        0 <= i < j < roster.len() && #[trigger] roster[i] == first && #[trigger] roster[j]
            == second
}

/// Dropping an address keeps the players who stay in the order they had.
pub proof fn lemma_without_keeps_order(roster: Seq<UserView>, ip: Seq<char>)
    requires
        distinct_ips(roster),
    ensures
        forall|a: int, b: int|
            0 <= a < b < without(roster, ip).len() ==> comes_before(
                roster,
                #[trigger] without(roster, ip)[a],
                #[trigger] without(roster, ip)[b],
            ),
{
    let rest = without(roster, ip);
    if has_ip(roster, ip) {
        let at = choose|i: int| 0 <= i < roster.len() && (#[trigger] roster[i]).ip == ip;
        lemma_without_present(roster, ip, at);
        assert forall|a: int, b: int| 0 <= a < b < rest.len() implies comes_before(
            roster,
            #[trigger] rest[a],
            #[trigger] rest[b],
        ) by {
            let i = if a < at { a } else { a + 1 };
            let j = if b < at { b } else { b + 1 };
            assert(roster[i] == rest[a] && roster[j] == rest[b]);
        }
    } else {
        lemma_without_absent(roster, ip);
        assert forall|a: int, b: int| 0 <= a < b < rest.len() implies comes_before(
            roster,
            #[trigger] rest[a],
            #[trigger] rest[b],
        ) by {
            assert(roster[a] == rest[a] && roster[b] == rest[b]);
        }
    }
}

/// Dropping an address a second time changes nothing.
pub proof fn lemma_without_twice(roster: Seq<UserView>, ip: Seq<char>)
    ensures
        without(without(roster, ip), ip) == without(roster, ip),
{
    lemma_without_drops_ip(roster, ip);
    lemma_without_absent(without(roster, ip), ip);
}

} // verus!
