//! One running game: its fixed facts, its latest state, and the exchange of
//! one turn at a time.
//!
//! A turn is played in two steps. `begin_act` decides whether a request may
//! go out and, if so, hands out the request; `complete_act` takes what came
//! back on the channel and settles the turn. Between the two steps the turn
//! is in flight, and while one is in flight no other can begin.

use vstd::prelude::*;
use vstd::string::StringExecFns;
use crate::action::DirectedAction;
use crate::error::{ActError, TransportCause};
use crate::replay::{ReplayEntry, ReplayLog, ReplayRecorder};
use crate::state::GameState;
use crate::status::GameStatus;

verus! {

/// The request of one turn: the action, tagged with the game it is for.
#[derive(Clone, Debug, PartialEq, Eq)]
pub struct ActRequest {
    pub game_id: String,
    pub action: DirectedAction,
}

/// What the channel produced for a turn that was in flight.
#[derive(Clone, Copy, Debug, PartialEq, Eq, Structural)]
pub enum TurnOutcome {
    /// The server answered with this snapshot.
    Reply(GameState),
    /// An answer arrived that holds no snapshot that can be read, such as
    /// one with a status that the game does not have.
    Unreadable,
    /// The channel failed before an answer arrived.
    Failed(TransportCause),
}

/// What the server grants when it accepts a start request: the facts of the
/// new game and its first snapshot.
#[derive(Clone, Debug, PartialEq, Eq)]
pub struct SessionGrant {
    pub game_id: String,
    pub seed: i32,
    pub map_height: i32,
    pub map_width: i32,
    pub visibility_range: i32,
    pub state: GameState,
}

impl SessionGrant {
    /// A grant describes a game when the map has a positive size and the
    /// visibility range is not negative.
    pub open spec fn usable(self) -> bool {
        &&& self.map_height > 0
        &&& self.map_width > 0
        &&& self.visibility_range >= 0
    }

    /// The session that a usable grant opens: the granted facts, the first
    /// snapshot, no turn in flight and an empty replay log, which is closed
    /// at once if the game is already over.
    pub open spec fn opened(self, recording: bool) -> SessionModel {
        SessionModel {
            game_id: self.game_id@,
            seed: self.seed,
            map_height: self.map_height,
            map_width: self.map_width,
            visibility_range: self.visibility_range,
            state: self.state,
            pending: None,
            replay: if self.state.status.is_terminal() {
                ReplayLog::fresh(recording).finalize()
            } else {
                ReplayLog::fresh(recording)
            },
        }
    }

    /// Whether the grant describes a game.
    pub fn is_usable(&self) -> (usable: bool)
        ensures
            usable == self.usable(),
    {
        self.map_height > 0 && self.map_width > 0 && self.visibility_range >= 0
    }
}

/// The two phases of a session. A session is active until an answer carries a
/// terminal status, and terminal from then on.
#[derive(Clone, Copy, Debug, PartialEq, Eq, Structural)]
pub enum SessionPhase {
    /// Turns may be played.
    Active,
    /// The game is over, with the status that ended it.
    Terminal(GameStatus),
}

/// The mathematical content of a `GameSession`.
pub struct SessionModel {
    /// The identifier that the server gave to the game.
    pub game_id: Seq<char>,
    /// The seed that the server used.
    pub seed: i32,
    pub map_height: i32,
    pub map_width: i32,
    pub visibility_range: i32,
    /// The latest snapshot accepted from the server.
    pub state: GameState,
    /// The action of the turn in flight, if one is.
    pub pending: Option<DirectedAction>,
    /// The replay log of the game.
    pub replay: ReplayLog,
}

impl SessionModel {
    /// Well-formedness: the map has a positive size, the visibility range is
    /// not negative, a turn is in flight only while the game is active, and
    /// the log of a game that is over takes no more entries.
    pub open spec fn wf(self) -> bool {
        &&& self.map_height > 0
        &&& self.map_width > 0
        &&& self.visibility_range >= 0
        &&& self.pending is Some ==> self.is_active()
        &&& self.replay.wf()
        &&& !self.is_active() ==> !self.replay.accepts()
    }

    /// Whether the game is still being played.
    pub open spec fn is_active(self) -> bool {
        self.state.status == GameStatus::Active
    }

    /// The name of the file that the replay of the game is stored in.
    pub open spec fn replay_file_name(self) -> Seq<char> {
        self.game_id + ".replay"@
    }

    /// The phase of the session, read off the status of its state.
    pub open spec fn phase(self) -> SessionPhase {
        if self.is_active() {
            SessionPhase::Active
        } else {
            SessionPhase::Terminal(self.state.status)
        }
    }

    /// Whether a turn may begin: the game is active and no turn is in flight.
    pub open spec fn can_begin(self) -> bool {
        self.is_active() && self.pending is None
    }

    /// Why a turn may not begin. A game that is over comes first.
    pub open spec fn begin_error(self) -> ActError {
        if !self.is_active() {
            ActError::SessionTerminated
        } else {
            ActError::ProtocolViolation
        }
    }

    /// The session after `begin_act`: the action is in flight if the turn may
    /// begin, and nothing has changed if it may not.
    pub open spec fn begin(self, action: DirectedAction) -> SessionModel {
        if self.can_begin() {
            SessionModel { pending: Some(action), ..self }
        } else {
            self
        }
    }

    /// What `complete_act` returns.
    pub open spec fn complete_result(self, outcome: TurnOutcome) -> Result<(), ActError> {
        match (self.pending, outcome) {
            (None, _) => Err(ActError::ProtocolViolation),
            (Some(_), TurnOutcome::Failed(cause)) => Err(ActError::Transport(cause)),
            (Some(_), TurnOutcome::Unreadable) => Err(ActError::ProtocolViolation),
            (Some(_), TurnOutcome::Reply(next)) => if self.state.may_precede(next) {
                Ok(())
            } else {
                Err(ActError::ProtocolViolation)
            },
        }
    }

    /// The replay log after a turn with `action` was answered by `next`: the
    /// turn is appended, and the log is closed if the game is over.
    pub open spec fn replay_after(self, action: DirectedAction, next: GameState) -> ReplayLog {
        let appended = self.replay.record(ReplayEntry { tick: next.tick, action, state: next });
        if next.status.is_terminal() {
            appended.finalize()
        } else {
            appended
        }
    }

    /// The session after `complete_act`. The turn in flight is settled
    /// whatever came back. Only an accepted answer changes anything else: it
    /// replaces the state and is recorded.
    pub open spec fn complete(self, outcome: TurnOutcome) -> SessionModel {
        match (self.pending, outcome) {
            (Some(action), TurnOutcome::Reply(next)) => if self.state.may_precede(next) {
                SessionModel {
                    state: next,
                    pending: None,
                    replay: self.replay_after(action, next),
                    ..self
                }
            } else {
                SessionModel { pending: None, ..self }
            },
            _ => SessionModel { pending: None, ..self },
        }
    }

    /// The session after `finalize_replay`.
    pub open spec fn finalize_replay(self) -> SessionModel {
        SessionModel { replay: self.replay.finalize(), ..self }
    }

    /// The session after `replay_write_completed`.
    pub open spec fn replay_write_completed(self, stored: bool) -> SessionModel {
        SessionModel { replay: self.replay.write_completed(stored), ..self }
    }
}

/// One game on one channel, from its creation to its end.
#[derive(Debug)]
pub struct GameSession {
    game_id: String,
    seed: i32,
    map_height: i32,
    map_width: i32,
    visibility_range: i32,
    state: GameState,
    pending: Option<DirectedAction>,
    replay: ReplayRecorder,
}

impl GameSession {
    /// The content of the session.
    pub closed spec fn view(&self) -> SessionModel {
        SessionModel {
            game_id: self.game_id@,
            seed: self.seed,
            map_height: self.map_height,
            map_width: self.map_width,
            visibility_range: self.visibility_range,
            state: self.state,
            pending: self.pending,
            replay: self.replay@,
        }
    }

    /// Opens the session that `grant` describes.
    pub(crate) fn open(grant: SessionGrant, recording: bool) -> (session: GameSession)
        requires
            grant.usable(),
        ensures
            session@ == grant.opened(recording),
            session@.wf(),
    {
        let mut replay = ReplayRecorder::new(recording);
        if !grant.state.status.is_active() {
            replay.finalize();
        }
        GameSession {
            game_id: grant.game_id,
            seed: grant.seed,
            map_height: grant.map_height,
            map_width: grant.map_width,
            visibility_range: grant.visibility_range,
            state: grant.state,
            pending: None,
            replay,
        }
    }

    /// Begins a turn. On success the action is in flight and the request to
    /// send is returned. The turn is refused, and the session left as it
    /// was, with `SessionTerminated` when the game is over and with
    /// `ProtocolViolation` when another turn is still in flight.
    pub fn begin_act(&mut self, action: DirectedAction) -> (outcome: Result<ActRequest, ActError>)
        ensures
            final(self)@ == old(self)@.begin(action),
            match outcome {
                Ok(request) => {
                    &&& old(self)@.can_begin()
                    &&& request.game_id@ == old(self)@.game_id
                    &&& request.action == action
                },
                Err(error) => !old(self)@.can_begin() && error == old(self)@.begin_error(),
            },
            old(self)@.wf() ==> final(self)@.wf(),
    {
        if !self.state.status.is_active() {
            Err(ActError::SessionTerminated)
        } else if self.pending.is_some() {
            Err(ActError::ProtocolViolation)
        } else {
            self.pending = Some(action);
            Ok(ActRequest { game_id: self.game_id.clone(), action })
        }
    }

    /// Settles the turn in flight with what the channel produced.
    ///
    /// An answer whose clock is not behind the session's replaces the state,
    /// is recorded, and closes the log if it ends the game. An answer whose
    /// clock went backwards, or that cannot be read, is a
    /// `ProtocolViolation`; a failure of the channel is `Transport`; all of
    /// them leave the state as it was. With no turn in flight the call is a
    /// `ProtocolViolation` and changes nothing.
    pub fn complete_act(&mut self, outcome: TurnOutcome) -> (result: Result<(), ActError>)
        ensures
            final(self)@ == old(self)@.complete(outcome),
            result == old(self)@.complete_result(outcome),
            old(self)@.wf() ==> final(self)@.wf(),
    {
        let action = match self.pending {
            None => {
                return Err(ActError::ProtocolViolation);
            },
            Some(action) => action,
        };
        self.pending = None;
        match outcome {
            TurnOutcome::Failed(cause) => Err(ActError::Transport(cause)),
            TurnOutcome::Unreadable => Err(ActError::ProtocolViolation),
            TurnOutcome::Reply(next) => {
                if !self.state.accepts_successor(&next) {
                    return Err(ActError::ProtocolViolation);
                }
                self.state = next;
                self.replay.record(next.tick, action, next);
                if !next.status.is_active() {
                    self.replay.finalize();
                }
                Ok(())
            },
        }
    }

    /// Plays one whole turn over a channel that answers while the caller
    /// waits: begins the turn, hands the request to `exchange`, and settles
    /// the turn with what `exchange` returns.
    ///
    /// When no turn may begin, `exchange` is not called, the session is left
    /// as it was and the error is the one that `begin_act` gives. Otherwise
    /// `exchange` is called once, with the request that `begin_act` makes,
    /// and session and result are what `complete_act` makes of its answer.
    pub fn act<F: FnOnce(ActRequest) -> TurnOutcome>(
        &mut self,
        action: DirectedAction,
        exchange: F,
    ) -> (result: Result<(), ActError>)
        requires
            forall|request: ActRequest|
                request.game_id@ == old(self)@.game_id && request.action == action
                    ==> call_requires(exchange, (request,)),
        ensures
            !old(self)@.can_begin() ==> final(self)@ == old(self)@ && result == Err::<(), ActError>(
                old(self)@.begin_error(),
            ),
            old(self)@.can_begin() ==> exists|request: ActRequest, outcome: TurnOutcome|
                {
                    &&& request.game_id@ == old(self)@.game_id
                    &&& request.action == action
                    &&& call_ensures(exchange, (request,), outcome)
                    &&& final(self)@ == old(self)@.begin(action).complete(outcome)
                    &&& result == old(self)@.begin(action).complete_result(outcome)
                },
            old(self)@.wf() ==> final(self)@.wf(),
    {
        match self.begin_act(action) {
            Err(error) => Err(error),
            Ok(request) => {
                let outcome = exchange(request);
                self.complete_act(outcome)
            },
        }
    }

    /// The identifier that the server gave to the game.
    pub fn game_id(&self) -> (text: &String)
        ensures
            text@ == self@.game_id,
    {
        &self.game_id
    }

    /// The name of the file that the replay of the game is stored in: the
    /// identifier of the game with the ending `.replay`.
    pub fn replay_file_name(&self) -> (name: String)
        ensures
            name@ == self@.replay_file_name(),
    {
        self.game_id.clone().concat(".replay")
    }

    /// The seed that the server used for the game.
    pub fn seed(&self) -> (seed: i32)
        ensures
            seed == self@.seed,
    {
        self.seed
    }

    /// The height of the map.
    pub fn map_height(&self) -> (height: i32)
        ensures
            height == self@.map_height,
    {
        self.map_height
    }

    /// The width of the map.
    pub fn map_width(&self) -> (width: i32)
        ensures
            width == self@.map_width,
    {
        self.map_width
    }

    /// How far the player sees.
    pub fn visibility_range(&self) -> (range: i32)
        ensures
            range == self@.visibility_range,
    {
        self.visibility_range
    }

    /// The latest snapshot accepted from the server.
    pub fn state(&self) -> (state: GameState)
        ensures
            state == self@.state,
    {
        self.state
    }

    /// The clock of the latest snapshot.
    pub fn tick(&self) -> (tick: i32)
        ensures
            tick == self@.state.tick,
    {
        self.state.tick
    }

    /// The status of the latest snapshot.
    pub fn status(&self) -> (status: GameStatus)
        ensures
            status == self@.state.status,
    {
        self.state.status
    }

    /// Whether the game is still being played.
    pub fn is_active(&self) -> (active: bool)
        ensures
            active == self@.is_active(),
    {
        self.state.status.is_active()
    }

    /// The phase of the session.
    pub fn phase(&self) -> (phase: SessionPhase)
        ensures
            phase == self@.phase(),
    {
        if self.state.status.is_active() {
            SessionPhase::Active
        } else {
            SessionPhase::Terminal(self.state.status)
        }
    }

    /// The action of the turn in flight, if one is.
    pub fn pending_action(&self) -> (action: Option<DirectedAction>)
        ensures
            action == self@.pending,
    {
        self.pending
    }

    /// The replay recorder of the game.
    pub fn replay(&self) -> (recorder: &ReplayRecorder)
        ensures
            recorder@ == self@.replay,
    {
        &self.replay
    }

    /// Closes the replay log, as a caller does that gives the game up.
    pub fn finalize_replay(&mut self)
        ensures
            final(self)@ == old(self)@.finalize_replay(),
            old(self)@.wf() ==> final(self)@.wf(),
    {
        self.replay.finalize();
    }

    /// The oldest recorded turn that still has to be stored, if there is one.
    pub fn replay_pending_write(&self) -> (entry: Option<ReplayEntry>)
        ensures
            entry == self@.replay.pending_write(),
    {
        self.replay.pending_write()
    }

    /// Takes note of how the write of the pending replay entry went. Returns
    /// whether the caller should go on draining. However the write went, the
    /// game itself is untouched.
    pub fn replay_write_completed(&mut self, stored: bool) -> (go_on: bool)
        ensures
            final(self)@ == old(self)@.replay_write_completed(stored),
            go_on == (stored && old(self)@.replay.pending_write() is Some
                && final(self)@.replay.pending_write() is Some),
            old(self)@.wf() ==> final(self)@.wf(),
    {
        self.replay.write_completed(stored)
    }
}

} // verus!
