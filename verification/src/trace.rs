//! What holds of a session over any sequence of calls.
//!
//! A session is changed by four operations only: a turn begins, a turn is
//! settled, the replay log is finalized, the write of a replay entry is
//! reported. An event names one such call with its arguments, and `run`
//! replays a sequence of events on the content of a session. The proof
//! functions below state what no sequence of events can break.

use vstd::prelude::*;
use crate::action::DirectedAction;
use crate::error::ActError;
use crate::replay::{ReplayEntry, ReplayLog};
use crate::session::{SessionModel, TurnOutcome};
use crate::state::GameState;

verus! {

/// One call on a session.
pub enum SessionEvent {
    /// `begin_act` with this action.
    Begin(DirectedAction),
    /// `complete_act` with this outcome.
    Complete(TurnOutcome),
    /// `finalize_replay`.
    FinalizeReplay,
    /// `replay_write_completed` with this report.
    ReplayWrite(bool),
}

/// The session after one event.
pub open spec fn apply(s: SessionModel, event: SessionEvent) -> SessionModel {
    match event {
        SessionEvent::Begin(action) => s.begin(action),
        SessionEvent::Complete(outcome) => s.complete(outcome),
        SessionEvent::FinalizeReplay => s.finalize_replay(),
        SessionEvent::ReplayWrite(stored) => s.replay_write_completed(stored),
    }
}

/// The session after a sequence of events, the first event first.
pub open spec fn run(s: SessionModel, events: Seq<SessionEvent>) -> SessionModel
    decreases events.len(),
{
    if events.len() == 0 {
        s
    } else {
        apply(run(s, events.drop_last()), events.last())
    }
}

/// The number of turns in flight: one or none.
pub open spec fn in_flight(s: SessionModel) -> nat {
    if s.pending is Some {
        1
    } else {
        0
    }
}

/// The number of requests that the events hand out: the `Begin` events that
/// find a session in which a turn may begin.
pub open spec fn requests_sent(s: SessionModel, events: Seq<SessionEvent>) -> nat
    decreases events.len(),
{
    if events.len() == 0 {
        0
    } else {
        let before = run(s, events.drop_last());
        let earlier = requests_sent(s, events.drop_last());
        if events.last() is Begin && before.can_begin() {
            earlier + 1
        } else {
            earlier
        }
    }
}

/// The number of turns that the events settle: the `Complete` events that
/// find a turn in flight.
pub open spec fn turns_settled(s: SessionModel, events: Seq<SessionEvent>) -> nat
    decreases events.len(),
{
    if events.len() == 0 {
        0
    } else {
        let before = run(s, events.drop_last());
        let earlier = turns_settled(s, events.drop_last());
        if events.last() is Complete && before.pending is Some {
            earlier + 1
        } else {
            earlier
        }
    }
}

/// One turn that went through: the action that was sent and the snapshot
/// that came back.
pub struct PlayedTurn {
    pub action: DirectedAction,
    pub reply: GameState,
}

impl PlayedTurn {
    /// The replay entry that stands for the turn.
    pub open spec fn entry(self) -> ReplayEntry {
        ReplayEntry { tick: self.reply.tick, action: self.action, state: self.reply }
    }
}

/// The session after the turns were played one after the other, each begun
/// and then settled with its answer.
pub open spec fn play(s: SessionModel, turns: Seq<PlayedTurn>) -> SessionModel
    decreases turns.len(),
{
    if turns.len() == 0 {
        s
    } else {
        play(s, turns.drop_last()).begin(turns.last().action).complete(
            TurnOutcome::Reply(turns.last().reply),
        )
    }
}

/// Whether every one of the turns succeeds: each finds a session in which a
/// turn may begin, and each answer shows a clock that is not behind.
pub open spec fn all_succeed(s: SessionModel, turns: Seq<PlayedTurn>) -> bool
    decreases turns.len(),
{
    turns.len() == 0 || {
        let before = play(s, turns.drop_last());
        &&& all_succeed(s, turns.drop_last())
        &&& before.can_begin()
        &&& before.state.may_precede(turns.last().reply)
    }
}

/// The replay entries of the turns, in the order of the turns.
pub open spec fn entries_of(turns: Seq<PlayedTurn>) -> Seq<ReplayEntry> {
    Seq::new(turns.len(), |i: int| turns[i].entry())
}

/// Whether `a` is an initial part of `b`.
pub open spec fn is_prefix<T>(a: Seq<T>, b: Seq<T>) -> bool {
    a.len() <= b.len() && forall|i: int| 0 <= i < a.len() ==> a[i] == b[i]
}

/// One event keeps a well-formed session well-formed, keeps the facts of the
/// game, never turns the clock back, and only ever adds to the replay log.
pub proof fn lemma_apply(s: SessionModel, event: SessionEvent)
    ensures
        s.wf() ==> apply(s, event).wf(),
        apply(s, event).game_id == s.game_id,
        apply(s, event).seed == s.seed,
        apply(s, event).map_height == s.map_height,
        apply(s, event).map_width == s.map_width,
        apply(s, event).visibility_range == s.visibility_range,
        apply(s, event).state.tick >= s.state.tick,
        is_prefix(s.replay.entries, apply(s, event).replay.entries),
        s.replay.wf() ==> is_prefix(s.replay.artifact(), apply(s, event).replay.artifact()),
{
}

/// Every prefix of a run is a run: replaying the first `n` events and then
/// the rest gives what replaying all of them gives.
pub proof fn lemma_run_split(s: SessionModel, events: Seq<SessionEvent>, n: int)
    requires
        0 <= n <= events.len(),
    ensures
        run(s, events) == run(run(s, events.take(n)), events.skip(n)),
    decreases events.len(),
{
    if n == events.len() {
        assert(events.take(n) == events);
        assert(events.skip(n).len() == 0);
    } else {
        let shorter = events.drop_last();
        lemma_run_split(s, shorter, n);
        assert(shorter.take(n) == events.take(n));
        assert(shorter.skip(n) == events.skip(n).drop_last());
        assert(events.skip(n).last() == events.last());
    }
}

/// No sequence of calls breaks the well-formedness of a session.
pub proof fn lemma_run_preserves_wf(s: SessionModel, events: Seq<SessionEvent>)
    requires
        s.wf(),
    ensures
        run(s, events).wf(),
    decreases events.len(),
{
    if events.len() > 0 {
        lemma_run_preserves_wf(s, events.drop_last());
        lemma_apply(run(s, events.drop_last()), events.last());
    }
}

/// The identifier, the seed, the size of the map and the visibility range
/// are fixed for the lifetime of a session.
pub proof fn lemma_facts_are_fixed(s: SessionModel, events: Seq<SessionEvent>)
    ensures
        run(s, events).game_id == s.game_id,
        run(s, events).seed == s.seed,
        run(s, events).map_height == s.map_height,
        run(s, events).map_width == s.map_width,
        run(s, events).visibility_range == s.visibility_range,
    decreases events.len(),
{
    if events.len() > 0 {
        lemma_facts_are_fixed(s, events.drop_last());
        lemma_apply(run(s, events.drop_last()), events.last());
    }
}

/// The clock of a session never goes back: after any sequence of calls it
/// is at least what it was before.
pub proof fn lemma_tick_never_decreases(s: SessionModel, events: Seq<SessionEvent>)
    ensures
        run(s, events).state.tick >= s.state.tick,
    decreases events.len(),
{
    if events.len() > 0 {
        lemma_tick_never_decreases(s, events.drop_last());
        lemma_apply(run(s, events.drop_last()), events.last());
    }
}

/// Along any sequence of calls the clock is monotonic: of two moments, the
/// later one shows a clock that is not behind the earlier one's.
pub proof fn lemma_tick_is_monotonic(
    s: SessionModel,
    events: Seq<SessionEvent>,
    earlier: int,
    later: int,
)
    requires
        0 <= earlier <= later <= events.len(),
    ensures
        run(s, events.take(earlier)).state.tick <= run(s, events.take(later)).state.tick,
{
    let upto = events.take(later);
    lemma_run_split(s, upto, earlier);
    assert(upto.take(earlier) == events.take(earlier));
    lemma_tick_never_decreases(run(s, events.take(earlier)), upto.skip(earlier));
}

/// A turn that succeeds leaves a clock that is not behind the one it found,
/// and an answer whose clock is behind is refused as a violation of the
/// protocol and changes neither state nor log.
pub proof fn lemma_turn_and_clock(s: SessionModel, action: DirectedAction, next: GameState)
    requires
        s.can_begin(),
    ensures
        s.begin(action).complete_result(TurnOutcome::Reply(next)) is Ok <==> s.state.tick
            <= next.tick,
        s.state.tick <= next.tick ==> s.begin(action).complete(TurnOutcome::Reply(next)).state
            == next,
        s.state.tick > next.tick ==> {
            &&& s.begin(action).complete_result(TurnOutcome::Reply(next)) == Err::<(), ActError>(
                ActError::ProtocolViolation,
            )
            &&& s.begin(action).complete(TurnOutcome::Reply(next)) == s
        },
{
}

/// Terminal is absorbing. Once the status of a well-formed session is not
/// `Active`, no sequence of calls changes its state or puts a turn in
/// flight, no request goes out, and a turn that is begun is refused with
/// `SessionTerminated`.
pub proof fn lemma_terminal_is_absorbing(s: SessionModel, events: Seq<SessionEvent>)
    requires
        s.wf(),
        !s.is_active(),
    ensures
        run(s, events).state == s.state,
        run(s, events).pending is None,
        run(s, events).replay.entries == s.replay.entries,
        requests_sent(s, events) == 0,
        !run(s, events).can_begin(),
        run(s, events).begin_error() == ActError::SessionTerminated,
        forall|action: DirectedAction| #[trigger] run(s, events).begin(action) == run(s, events),
    decreases events.len(),
{
    if events.len() > 0 {
        lemma_terminal_is_absorbing(s, events.drop_last());
        lemma_run_preserves_wf(s, events.drop_last());
    }
}

/// The answer that ends the game ends the session: right after an accepted
/// answer with a terminal status the session is not active, and the next
/// turn is refused with `SessionTerminated` and sends nothing.
pub proof fn lemma_terminal_answer_ends_session(
    s: SessionModel,
    action: DirectedAction,
    next: GameState,
    after: DirectedAction,
)
    requires
        s.can_begin(),
        s.state.may_precede(next),
    ensures
        s.begin(action).complete(TurnOutcome::Reply(next)).is_active()
            == !next.status.is_terminal(),
        next.status.is_terminal() ==> {
            let ended = s.begin(action).complete(TurnOutcome::Reply(next));
            &&& !ended.can_begin()
            &&& ended.begin_error() == ActError::SessionTerminated
            &&& ended.begin(after) == ended
            &&& !ended.replay.accepts()
        },
{
}

/// While a turn is in flight no other begins: the second of two calls made
/// before the first is settled is refused and changes nothing, and in a
/// well-formed session the refusal is a `ProtocolViolation`.
pub proof fn lemma_second_turn_is_refused(
    s: SessionModel,
    first: DirectedAction,
    second: DirectedAction,
)
    requires
        s.can_begin(),
    ensures
        s.begin(first).pending == Some(first),
        !s.begin(first).can_begin(),
        s.begin(first).begin(second) == s.begin(first),
        s.begin(first).begin_error() == ActError::ProtocolViolation,
{
}

/// At most one request is in flight at any time. Over any sequence of calls
/// the requests handed out and the turns settled differ by the number of
/// turns in flight, which is one or none.
pub proof fn lemma_one_request_in_flight(s: SessionModel, events: Seq<SessionEvent>)
    ensures
        in_flight(s) + requests_sent(s, events) == turns_settled(s, events) + in_flight(
            run(s, events),
        ),
        in_flight(run(s, events)) <= 1,
    decreases events.len(),
{
    if events.len() > 0 {
        lemma_one_request_in_flight(s, events.drop_last());
    }
}

/// Neither the replay log nor what happens to it has any say in a turn. Two
/// sessions that differ in their logs only begin and settle turns alike:
/// same results, same state, same turn in flight.
pub proof fn lemma_replay_never_affects_turns(
    s: SessionModel,
    other_log: ReplayLog,
    event: SessionEvent,
)
    ensures
        ({
            let t = SessionModel { replay: other_log, ..s };
            &&& apply(t, event).state == apply(s, event).state
            &&& apply(t, event).pending == apply(s, event).pending
            &&& t.can_begin() == s.can_begin()
            &&& t.begin_error() == s.begin_error()
            &&& forall|outcome: TurnOutcome| #[trigger]
                t.complete_result(outcome) == s.complete_result(outcome)
        }),
{
}

/// The report of a replay write, good or bad, leaves the game alone: state
/// and turn in flight are what they were.
pub proof fn lemma_replay_write_leaves_game_alone(s: SessionModel, stored: bool)
    ensures
        s.replay_write_completed(stored).state == s.state,
        s.replay_write_completed(stored).pending == s.pending,
        s.replay_write_completed(stored).replay.entries == s.replay.entries,
{
}

/// Successful turns are recorded one for one and in order. After turns that
/// all succeed, a log that was taking entries holds what it held before,
/// followed by one entry for each turn, each with the action sent and the
/// snapshot received; a recorder that is disabled holds nothing.
pub proof fn lemma_turns_are_recorded_in_order(s: SessionModel, turns: Seq<PlayedTurn>)
    requires
        s.wf(),
        all_succeed(s, turns),
    ensures
        s.replay.accepts() ==> play(s, turns).replay.entries == s.replay.entries + entries_of(
            turns,
        ),
        !s.replay.enabled ==> play(s, turns).replay.entries.len() == 0,
        play(s, turns).wf(),
        play(s, turns).is_active() ==> play(s, turns).replay.accepts() == s.replay.accepts(),
        turns.len() > 0 ==> play(s, turns).state == turns.last().reply,
    decreases turns.len(),
{
    if turns.len() > 0 {
        let earlier = turns.drop_last();
        lemma_turns_are_recorded_in_order(s, earlier);
        assert(entries_of(turns) =~= entries_of(earlier).push(turns.last().entry()));
        assert((s.replay.entries + entries_of(earlier)).push(turns.last().entry())
            =~= s.replay.entries + entries_of(turns));
    } else {
        assert(s.replay.entries + entries_of(turns) =~= s.replay.entries);
    }
}

/// The replay log is append-only. Over any sequence of calls the entries
/// recorded before are an initial part of the entries recorded after, and
/// what was stored before is an initial part of what is stored after.
pub proof fn lemma_replay_is_append_only(s: SessionModel, events: Seq<SessionEvent>)
    requires
        s.wf(),
    ensures
        is_prefix(s.replay.entries, run(s, events).replay.entries),
        is_prefix(s.replay.artifact(), run(s, events).replay.artifact()),
        is_prefix(run(s, events).replay.artifact(), run(s, events).replay.entries),
    decreases events.len(),
{
    if events.len() > 0 {
        let before = run(s, events.drop_last());
        lemma_replay_is_append_only(s, events.drop_last());
        lemma_run_preserves_wf(s, events.drop_last());
        lemma_apply(before, events.last());
    }
    lemma_run_preserves_wf(s, events);
}

} // verus!
