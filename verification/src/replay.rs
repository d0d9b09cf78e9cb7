//! Append-only record of the turns of one game, kept for offline playback.
//!
//! The recorder buffers entries in the order in which turns succeed. Whoever
//! owns the storage drains the buffer: it asks for the oldest unwritten
//! entry, tries to store it, and reports how that went. A failed write
//! leaves the entry pending, so what has been stored is always a prefix of
//! what was recorded.

use vstd::prelude::*;
use crate::action::DirectedAction;
use crate::state::GameState;

verus! {

/// One recorded turn: the clock after the turn, the action that was sent and
/// the snapshot that came back.
#[derive(Clone, Copy, Debug, PartialEq, Eq, Structural)]
pub struct ReplayEntry {
    pub tick: i32,
    pub action: DirectedAction,
    pub state: GameState,
}

/// The mathematical content of a recorder.
pub struct ReplayLog {
    /// Whether recording was asked for when the recorder was made.
    pub enabled: bool,
    /// Whether the log has been finalized; a closed log takes no more entries.
    pub closed: bool,
    /// Every entry recorded so far, oldest first.
    pub entries: Seq<ReplayEntry>,
    /// How many entries, counted from the oldest, have been stored.
    pub written: nat,
    /// How many writes were reported as failed.
    pub failed_writes: nat,
}

impl ReplayLog {
    /// Well-formedness: no more is stored than was recorded, and a recorder
    /// that was never enabled holds nothing.
    pub open spec fn wf(self) -> bool {
        &&& self.written <= self.entries.len()
        &&& self.failed_writes <= u64::MAX
        &&& !self.enabled ==> self.entries.len() == 0 && !self.closed && self.failed_writes == 0
    }

    /// A fresh log.
    pub open spec fn fresh(enabled: bool) -> ReplayLog {
        ReplayLog { enabled, closed: false, entries: Seq::empty(), written: 0, failed_writes: 0 }
    }

    /// Whether `record` appends.
    pub open spec fn accepts(self) -> bool {
        self.enabled && !self.closed
    }

    /// The log after `record`.
    pub open spec fn record(self, entry: ReplayEntry) -> ReplayLog {
        if self.accepts() {
            ReplayLog { entries: self.entries.push(entry), ..self }
        } else {
            self
        }
    }

    /// The log after `finalize`.
    pub open spec fn finalize(self) -> ReplayLog {
        if self.enabled {
            ReplayLog { closed: true, ..self }
        } else {
            self
        }
    }

    /// The oldest entry that has not been stored yet.
    pub open spec fn pending_write(self) -> Option<ReplayEntry> {
        if self.written < self.entries.len() {
            Some(self.entries[self.written as int])
        } else {
            None
        }
    }

    /// The log after the storage reported on the write of the pending entry.
    pub open spec fn write_completed(self, stored: bool) -> ReplayLog {
        if self.written >= self.entries.len() {
            self
        } else if stored {
            ReplayLog { written: self.written + 1, ..self }
        } else if self.failed_writes < u64::MAX {
            ReplayLog { failed_writes: self.failed_writes + 1, ..self }
        } else {
            self
        }
    }

    /// The log after a sequence of write reports, the first report first.
    pub open spec fn drain(self, reports: Seq<bool>) -> ReplayLog
        decreases reports.len(),
    {
        if reports.len() == 0 {
            self
        } else {
            self.drain(reports.drop_last()).write_completed(reports.last())
        }
    }

    /// What has been stored: the written prefix of the entries.
    pub open spec fn artifact(self) -> Seq<ReplayEntry> {
        self.entries.take(self.written as int)
    }

    /// Whether everything recorded has been stored.
    pub open spec fn flushed(self) -> bool {
        self.written >= self.entries.len()
    }
}

/// The number of reports that say "stored".
pub open spec fn stored_count(reports: Seq<bool>) -> nat
    decreases reports.len(),
{
    if reports.len() == 0 {
        0
    } else if reports.last() {
        stored_count(reports.drop_last()) + 1
    } else {
        stored_count(reports.drop_last())
    }
}

/// Finalizing once is enough and twice is harmless: a second `finalize`
/// changes nothing, a recorder that was never enabled is not changed by any,
/// and a finalized log takes no more entries and loses none.
pub proof fn lemma_finalize_closes_for_good(log: ReplayLog, entry: ReplayEntry)
    ensures
        log.finalize().finalize() == log.finalize(),
        !log.enabled ==> log.finalize() == log,
        log.finalize().entries == log.entries,
        log.finalize().written == log.written,
        log.finalize().record(entry) == log.finalize(),
{
}

/// A failed write loses nothing: the entries, the stored part and the entry
/// that is pending are what they were, so that the entry is tried again.
pub proof fn lemma_failed_write_keeps_entry(log: ReplayLog)
    ensures
        log.write_completed(false).entries == log.entries,
        log.write_completed(false).written == log.written,
        log.write_completed(false).pending_write() == log.pending_write(),
        log.write_completed(false).artifact() == log.artifact(),
{
}

/// Draining stores the entries in the order in which they were recorded.
/// After any sequence of write reports the entries are unchanged, and the
/// number stored has grown by the number of good reports, up to the number
/// of entries: failed writes in between delay the stored part and take
/// nothing out of it.
pub proof fn lemma_drain_stores_in_order(log: ReplayLog, reports: Seq<bool>)
    requires
        log.wf(),
    ensures
        log.drain(reports).wf(),
        log.drain(reports).entries == log.entries,
        log.drain(reports).written == if log.written + stored_count(reports)
            <= log.entries.len() {
            log.written + stored_count(reports)
        } else {
            log.entries.len()
        },
        log.written + stored_count(reports) >= log.entries.len() ==> log.drain(
            reports,
        ).artifact() == log.entries,
    decreases reports.len(),
{
    if reports.len() > 0 {
        lemma_drain_stores_in_order(log, reports.drop_last());
    }
    if log.written + stored_count(reports) >= log.entries.len() {
        assert(log.drain(reports).artifact() =~= log.entries);
    }
}

/// Buffers the turns of one game until they are stored.
#[derive(Debug)]
pub struct ReplayRecorder {
    enabled: bool,
    closed: bool,
    entries: Vec<ReplayEntry>,
    written: usize,
    failed_writes: u64,
}

impl ReplayRecorder {
    /// The content of the recorder.
    pub closed spec fn view(&self) -> ReplayLog {
        ReplayLog {
            enabled: self.enabled,
            closed: self.closed,
            entries: self.entries@,
            written: self.written as nat,
            failed_writes: self.failed_writes as nat,
        }
    }

    /// A recorder with nothing in it. With `enabled` false it stays empty
    /// whatever is done to it.
    pub fn new(enabled: bool) -> (recorder: ReplayRecorder)
        ensures
            recorder@ == ReplayLog::fresh(enabled),
            recorder@.wf(),
    {
        ReplayRecorder { enabled, closed: false, entries: Vec::new(), written: 0, failed_writes: 0 }
    }

    /// Appends one entry, unless recording is disabled or the log is closed.
    /// Returns whether the entry was taken.
    pub fn record(&mut self, tick: i32, action: DirectedAction, state: GameState) -> (taken: bool)
        ensures
            final(self)@ == old(self)@.record(ReplayEntry { tick, action, state }),
            taken == old(self)@.accepts(),
            old(self)@.wf() ==> final(self)@.wf(),
    {
        if self.enabled && !self.closed {
            self.entries.push(ReplayEntry { tick, action, state });
            true
        } else {
            false
        }
    }

    /// Closes the log: nothing is appended after this. Calling it again, or
    /// on a recorder that was never enabled, changes nothing.
    pub fn finalize(&mut self)
        ensures
            final(self)@ == old(self)@.finalize(),
            old(self)@.wf() ==> final(self)@.wf(),
    {
        if self.enabled {
            self.closed = true;
        }
    }

    /// The oldest entry that still has to be stored, if there is one.
    pub fn pending_write(&self) -> (entry: Option<ReplayEntry>)
        ensures
            entry == self@.pending_write(),
    {
        if self.written < self.entries.len() {
            Some(self.entries[self.written])
        } else {
            None
        }
    }

    /// Takes note of how the write of the pending entry went. A stored entry
    /// is no longer pending; a failed write is counted and the entry stays
    /// pending. Returns whether the caller should go on draining: the write
    /// succeeded and more entries wait.
    pub fn write_completed(&mut self, stored: bool) -> (go_on: bool)
        ensures
            final(self)@ == old(self)@.write_completed(stored),
            go_on == (stored && old(self)@.written < old(self)@.entries.len()
                && final(self)@.pending_write() is Some),
            old(self)@.wf() ==> final(self)@.wf(),
    {
        if self.written >= self.entries.len() {
            false
        } else if stored {
            self.written = self.written + 1;
            self.written < self.entries.len()
        } else {
            if self.failed_writes < u64::MAX {
                self.failed_writes = self.failed_writes + 1;
            }
            false
        }
    }

    /// Whether recording was asked for.
    pub fn is_enabled(&self) -> (enabled: bool)
        ensures
            enabled == self@.enabled,
    {
        self.enabled
    }

    /// Whether the log has been finalized.
    pub fn is_closed(&self) -> (closed: bool)
        ensures
            closed == self@.closed,
    {
        self.closed
    }

    /// Whether every recorded entry has been stored.
    pub fn is_flushed(&self) -> (flushed: bool)
        ensures
            flushed == self@.flushed(),
    {
        self.written >= self.entries.len()
    }

    /// The number of entries recorded so far.
    pub fn len(&self) -> (count: usize)
        ensures
            count == self@.entries.len(),
    {
        self.entries.len()
    }

    /// The number of entries stored so far.
    pub fn written(&self) -> (count: usize)
        ensures
            count == self@.written,
    {
        self.written
    }

    /// The number of writes reported as failed, counted up to `u64::MAX`.
    pub fn failed_writes(&self) -> (count: u64)
        ensures
            count == self@.failed_writes,
    {
        self.failed_writes
    }

    /// The entry at `index`, oldest first, if there is one.
    pub fn entry(&self, index: usize) -> (entry: Option<ReplayEntry>)
        ensures
            entry == (if index < self@.entries.len() {
                Some(self@.entries[index as int])
            } else {
                None
            }),
    {
        if index < self.entries.len() {
            Some(self.entries[index])
        } else {
            None
        }
    }
}

} // verus!
