//! The life of a session, from waiting for players to its end.

use crate::message::{Message, MessageView};
use crate::registry::{notices, Delivery, UserView, Users};
use vstd::prelude::*;

verus! {

/// Seconds between two ticks while the game runs.
pub const TICK_SECONDS: u64 = 1;

/// Milliseconds that the last `Close` to a player may wait for room in the
/// player's channel before it is dropped.
pub const TEARDOWN_SEND_TIMEOUT_MS: u64 = 500;

/// How many signals of the host may wait to be taken in.
pub const SIGNAL_CHANNEL_CAPACITY: usize = 1;

/// Signal from the host that drives the session.
#[derive(Clone, Copy, Debug, PartialEq, Eq, Structural)]
pub enum GameSignType {
    /// Start the game.
    Start,
    /// End the session.
    End,
}

/// Where a session stands in its life.
#[derive(Clone, Copy, Debug, PartialEq, Eq, Structural)]
pub enum Phase {
    /// Connections are accepted; the game has not begun.
    WaitingForPlayers,
    /// The game runs; no connection is accepted any more.
    Running,
    /// The players are being told to go and the roster is being emptied.
    Closing,
    /// The session is over for good.
    Terminated,
}

impl Phase {
    /// How far along a phase is. A session never moves to a lower rank.
    pub open spec fn rank(self) -> nat {
        match self {
            Phase::WaitingForPlayers => 0,
            Phase::Running => 1,
            Phase::Closing => 2,
            Phase::Terminated => 3,
        }
    }
}

/// What the task that owns a session has to do next.
#[derive(Clone, Copy, Debug, PartialEq, Eq, Structural)]
pub enum Step {
    /// Wait for a new connection or for a signal, whichever comes first.
    AcceptOrSignal,
    /// Wait for the next tick or for a signal, whichever comes first.
    TickOrSignal,
    /// Tear the session down now.
    TearDown,
    /// Nothing is left to do.
    Done,
}

/// What there is to do in a phase.
pub open spec fn step_of(phase: Phase) -> Step {
    match phase {
        Phase::WaitingForPlayers => Step::AcceptOrSignal,
        Phase::Running => Step::TickOrSignal,
        Phase::Closing => Step::TearDown,
        Phase::Terminated => Step::Done,
    }
}

/// The phase after the host's signal channel yielded `signal`; `None` stands
/// for a channel that has been closed.
///
/// While waiting, `Start` begins the game and anything else ends the session.
/// While the game runs, whatever comes next ends the session.
pub open spec fn next_phase(phase: Phase, signal: Option<GameSignType>) -> Phase {
    match phase {
        Phase::WaitingForPlayers => if signal == Some(GameSignType::Start) {
            Phase::Running
        } else {
            Phase::Closing
        },
        Phase::Running => Phase::Closing,
        Phase::Closing => Phase::Closing,
        Phase::Terminated => Phase::Terminated,
    }
}

/// The phase after a run of signals.
pub open spec fn phase_after(phase: Phase, signals: Seq<Option<GameSignType>>) -> Phase
    decreases signals.len(),
{
    if signals.len() == 0 {
        phase
    } else {
        next_phase(phase_after(phase, signals.drop_last()), signals.last())
    }
}

/// The task that owns a session's life.
#[derive(Debug)]
pub struct Controller {
    phase: Phase,
}

impl Controller {
    /// The phase that the session is in.
    pub closed spec fn spec_phase(&self) -> Phase {
        self.phase
    }

    /// A session that waits for its players.
    pub fn new() -> (controller: Controller)
        ensures
            controller.phase() == Phase::WaitingForPlayers,
    {
        Controller { phase: Phase::WaitingForPlayers }
    }

    /// The phase that the session is in.
    #[verifier::when_used_as_spec(spec_phase)]
    pub fn phase(&self) -> (phase: Phase)
        ensures
            phase == self.spec_phase(),
    {
        self.phase
    }

    /// What the owning task has to do next. New connections are accepted
    /// only while the session waits for players.
    pub fn step(&self) -> (step: Step)
        ensures
            step == step_of(self.phase()),
    {
        match self.phase {
            Phase::WaitingForPlayers => Step::AcceptOrSignal,
            Phase::Running => Step::TickOrSignal,
            Phase::Closing => Step::TearDown,
            Phase::Terminated => Step::Done,
        }
    }

    /// Takes in what the host's signal channel yielded; `None` stands for a
    /// channel that has been closed.
    pub fn on_signal(&mut self, signal: Option<GameSignType>)
        ensures
            final(self).phase() == next_phase(old(self).phase(), signal),
    {
        let next = match self.phase {
            Phase::WaitingForPlayers => match signal {
                Some(GameSignType::Start) => Phase::Running,
                _ => Phase::Closing,
            },
            Phase::Running => Phase::Closing,
            Phase::Closing => Phase::Closing,
            Phase::Terminated => Phase::Terminated,
        };
        self.phase = next;
    }

    /// Ends a session that is closing: every player on the roster is due a
    /// `Close`, the roster is emptied, and the session is terminated. In any
    /// other phase nothing happens.
    pub fn teardown(&mut self, users: &mut Users) -> (closes: Vec<Delivery>)
        ensures
            final(users).capacity() == old(users).capacity(),
            final(users).well_formed(),
            old(self).phase() == Phase::Closing ==> {
                &&& closes.deep_view() == notices(old(users)@, MessageView::Close)
                &&& final(users)@ == Seq::<UserView>::empty()
                &&& final(self).phase() == Phase::Terminated
            },
            old(self).phase() != Phase::Closing ==> {
                &&& closes@.len() == 0
                &&& final(users)@ == old(users)@
                &&& final(self).phase() == old(self).phase()
            },
    {
        proof {
            use_type_invariant(&*users);
        }
        match self.phase {
            Phase::Closing => {
                let closes = users.notify_all(&Message::Close);
                users.clear();
                self.phase = Phase::Terminated;
                closes
            },
            _ => Vec::new(),
        }
    }
}

/// A signal never takes a session back to a phase that it has left.
pub proof fn lemma_phase_never_goes_back(phase: Phase, signal: Option<GameSignType>)
    ensures
        phase.rank() <= next_phase(phase, signal).rank(),
{
}

/// Once a session is terminated, no run of signals brings it back.
pub proof fn lemma_terminated_is_final(signals: Seq<Option<GameSignType>>)
    ensures
        phase_after(Phase::Terminated, signals) == Phase::Terminated,
    decreases signals.len(),
{
    if signals.len() > 0 {
        lemma_terminated_is_final(signals.drop_last());
    }
}

/// `End` closes a session that waits or runs, and so does a signal channel
/// that has been closed.
pub proof fn lemma_end_closes(phase: Phase)
    requires
        phase == Phase::WaitingForPlayers || phase == Phase::Running,
    ensures
        next_phase(phase, Some(GameSignType::End)) == Phase::Closing,
        next_phase(phase, None) == Phase::Closing,
{
}

} // verus!
