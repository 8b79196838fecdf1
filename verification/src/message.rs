//! The messages that travel between the server and its clients.

use vstd::prelude::*;

verus! {

/// What the other players may know of a connected player.
#[derive(Debug, PartialEq, Eq)]
pub struct UserInfo {
    /// Display label; two players may share one.
    pub name: String,
    /// Peer address; the key by which a player is found.
    pub ip: String,
}

/// Mathematical value of a [`UserInfo`].
pub struct UserInfoView {
    pub name: Seq<char>,
    pub ip: Seq<char>,
}

impl View for UserInfo {
    type V = UserInfoView;

    open spec fn view(&self) -> UserInfoView {
        UserInfoView { name: self.name@, ip: self.ip@ }
    }
}

impl DeepView for UserInfo {
    type V = UserInfoView;

    open spec fn deep_view(&self) -> UserInfoView {
        self@
    }
}

impl Clone for UserInfo {
    fn clone(&self) -> (copy: Self)
        ensures
            copy == *self,
    {
        UserInfo { name: self.name.clone(), ip: self.ip.clone() }
    }
}

/// A message of the steady-state protocol.
#[derive(Debug, PartialEq, Eq)]
pub enum Message {
    /// The player with this address has left or is being removed.
    Kick(String),
    Start,
    /// The sender leaves, or the session is over.
    Close,
    /// A player has joined.
    Join(UserInfo),
    /// Told to the one player who is being removed.
    BeKick,
    Over,
    Raise(u64),
    Call,
    Fold,
    Check,
    Reset,
}

/// Mathematical value of a [`Message`].
pub enum MessageView {
    Kick(Seq<char>),
    Start,
    Close,
    Join(UserInfoView),
    BeKick,
    Over,
    Raise(u64),
    Call,
    Fold,
    Check,
    Reset,
}

impl MessageView {
    /// A gameplay action is relayed to all other players and to nobody else.
    pub open spec fn is_action(self) -> bool {
        self is Raise || self is Call || self is Fold || self is Check
    }
}

impl View for Message {
    type V = MessageView;

    open spec fn view(&self) -> MessageView {
        match self {
            Message::Kick(ip) => MessageView::Kick(ip@),
            Message::Start => MessageView::Start,
            Message::Close => MessageView::Close,
            Message::Join(info) => MessageView::Join(info@),
            Message::BeKick => MessageView::BeKick,
            Message::Over => MessageView::Over,
            Message::Raise(amount) => MessageView::Raise(*amount),
            Message::Call => MessageView::Call,
            Message::Fold => MessageView::Fold,
            Message::Check => MessageView::Check,
            Message::Reset => MessageView::Reset,
        }
    }
}

impl DeepView for Message {
    type V = MessageView;

    open spec fn deep_view(&self) -> MessageView {
        self@
    }
}

impl Clone for Message {
    fn clone(&self) -> (copy: Self)
        ensures
            copy == *self,
    {
        match self {
            Message::Kick(ip) => Message::Kick(ip.clone()),
            Message::Start => Message::Start,
            Message::Close => Message::Close,
            Message::Join(info) => Message::Join(info.clone()),
            Message::BeKick => Message::BeKick,
            Message::Over => Message::Over,
            Message::Raise(amount) => Message::Raise(*amount),
            Message::Call => Message::Call,
            Message::Fold => Message::Fold,
            Message::Check => Message::Check,
            Message::Reset => Message::Reset,
        }
    }
}

impl Message {
    /// Whether the message is one of the four gameplay actions.
    pub fn is_action(&self) -> (yes: bool)
        ensures
            yes == self@.is_action(),
    {
        match self {
            Message::Raise(_) | Message::Call | Message::Fold | Message::Check => true,
            _ => false,
        }
    }
}

} // verus!
