//! The stored form of replay entries.
//!
//! An entry is stored as a record of ten bytes: the clock of the turn as a
//! big-endian two's complement number of four bytes, one byte for the
//! action, the clock of the snapshot in four bytes, one byte for the status.
//! A replay is its records one after the other. Every entry has exactly one
//! record and every record is read back as the entry it was written from.

use vstd::prelude::*;
use vstd::slice::slice_subrange;
use crate::action::{action_code, action_of_code, DirectedAction};
use crate::replay::{ReplayEntry, ReplayLog};
use crate::state::GameState;
use crate::status::{status_code, status_of_code, GameStatus};

verus! {

/// The number of bytes of one record.
pub const RECORD_LEN: usize = 10;

/// The number below 2^32 that has the two's complement bits of `value`.
pub open spec fn unsigned_of(value: i32) -> int {
    if value < 0 {
        value + 0x1_0000_0000
    } else {
        value as int
    }
}

/// The four bytes of `value`, the most significant first.
pub open spec fn be_bytes(value: i32) -> Seq<u8> {
    let u = unsigned_of(value);
    seq![
        (u / 0x100_0000) as u8,
        (u / 0x1_0000 % 0x100) as u8,
        (u / 0x100 % 0x100) as u8,
        (u % 0x100) as u8,
    ]
}

/// The number whose four bytes, the most significant first, start at
/// `bytes[at]`.
pub open spec fn be_value(bytes: Seq<u8>, at: int) -> i32 {
    let u = ((bytes[at] * 0x100 + bytes[at + 1]) * 0x100 + bytes[at + 2]) * 0x100 + bytes[at + 3];
    if u >= 0x8000_0000 {
        (u - 0x1_0000_0000) as i32
    } else {
        u as i32
    }
}

/// The record of an entry.
pub open spec fn encoded(entry: ReplayEntry) -> Seq<u8> {
    be_bytes(entry.tick).push(action_code(entry.action)) + be_bytes(entry.state.tick).push(
        status_code(entry.state.status),
    )
}

/// The entry that a record holds, if the bytes are a record.
pub open spec fn decoded(bytes: Seq<u8>) -> Option<ReplayEntry> {
    if bytes.len() != RECORD_LEN {
        None
    } else {
        match (action_of_code(bytes[4]), status_of_code(bytes[9])) {
            (Some(action), Some(status)) => Some(
                ReplayEntry {
                    tick: be_value(bytes, 0),
                    action,
                    state: GameState { tick: be_value(bytes, 5), status },
                },
            ),
            _ => None,
        }
    }
}

/// The stored form of a sequence of entries: their records in order.
pub open spec fn encoded_log(entries: Seq<ReplayEntry>) -> Seq<u8>
    decreases entries.len(),
{
    if entries.len() == 0 {
        Seq::empty()
    } else {
        encoded_log(entries.drop_last()) + encoded(entries.last())
    }
}

/// The entries that a stored replay holds, if the bytes are records from end
/// to end.
pub open spec fn decoded_log(bytes: Seq<u8>) -> Option<Seq<ReplayEntry>>
    decreases bytes.len(),
{
    if bytes.len() == 0 {
        Some(Seq::empty())
    } else if bytes.len() < RECORD_LEN {
        None
    } else {
        let cut = bytes.len() - RECORD_LEN;
        match (decoded_log(bytes.take(cut)), decoded(bytes.skip(cut))) {
            (Some(earlier), Some(entry)) => Some(earlier.push(entry)),
            _ => None,
        }
    }
}

/// Reading a record gives back the entry it was written from.
pub proof fn lemma_decode_inverts_encode(entry: ReplayEntry)
    ensures
        encoded(entry).len() == RECORD_LEN,
        decoded(encoded(entry)) == Some(entry),
{
}

/// Four bytes are the bytes of the number they are read as.
proof fn lemma_be_bytes_of_value(bytes: Seq<u8>, at: int)
    requires
        0 <= at,
        at + 4 <= bytes.len(),
    ensures
        be_bytes(be_value(bytes, at)) == bytes.subrange(at, at + 4),
{
    let b0 = bytes[at] as int;
    let b1 = bytes[at + 1] as int;
    let b2 = bytes[at + 2] as int;
    let b3 = bytes[at + 3] as int;
    let u = ((b0 * 0x100 + b1) * 0x100 + b2) * 0x100 + b3;
    assert(0 <= u < 0x1_0000_0000);
    let value = be_value(bytes, at);
    assert(unsigned_of(value) == u);
    assert(u / 0x100_0000 == b0);
    assert(u / 0x1_0000 % 0x100 == b1);
    assert(u / 0x100 % 0x100 == b2);
    assert(u % 0x100 == b3);
    assert(be_bytes(value) =~= bytes.subrange(at, at + 4));
}

/// Every record is the record of the entry it holds: no two records hold the
/// same entry.
pub proof fn lemma_encode_inverts_decode(bytes: Seq<u8>)
    requires
        decoded(bytes) is Some,
    ensures
        encoded(decoded(bytes).unwrap()) == bytes,
{
    let entry = decoded(bytes).unwrap();
    lemma_be_bytes_of_value(bytes, 0);
    lemma_be_bytes_of_value(bytes, 5);
    assert(action_code(entry.action) == bytes[4]);
    assert(status_code(entry.state.status) == bytes[9]);
    let front = be_bytes(entry.tick).push(action_code(entry.action));
    let back = be_bytes(entry.state.tick).push(status_code(entry.state.status));
    assert(front =~= bytes.subrange(0, 5));
    assert(back =~= bytes.subrange(5, 10));
    assert(front + back =~= bytes);
}

/// The stored form of `n` entries has `n` records.
pub proof fn lemma_encoded_log_len(entries: Seq<ReplayEntry>)
    ensures
        encoded_log(entries).len() == entries.len() * RECORD_LEN,
    decreases entries.len(),
{
    if entries.len() > 0 {
        lemma_encoded_log_len(entries.drop_last());
        lemma_decode_inverts_encode(entries.last());
    }
}

/// Reading a stored replay gives back the entries it was written from, in
/// their order.
pub proof fn lemma_decode_log_inverts_encode_log(entries: Seq<ReplayEntry>)
    ensures
        decoded_log(encoded_log(entries)) == Some(entries),
    decreases entries.len(),
{
    if entries.len() > 0 {
        let earlier = entries.drop_last();
        let bytes = encoded_log(entries);
        lemma_decode_log_inverts_encode_log(earlier);
        lemma_decode_inverts_encode(entries.last());
        lemma_encoded_log_len(earlier);
        let cut = bytes.len() - RECORD_LEN;
        assert(bytes.take(cut) =~= encoded_log(earlier));
        assert(bytes.skip(cut) =~= encoded(entries.last()));
        assert(earlier.push(entries.last()) =~= entries);
    }
}

/// A stored replay that can be read is made of whole records.
pub proof fn lemma_decoded_log_len(bytes: Seq<u8>)
    requires
        decoded_log(bytes) is Some,
    ensures
        bytes.len() == decoded_log(bytes).unwrap().len() * RECORD_LEN,
    decreases bytes.len(),
{
    if bytes.len() > 0 {
        lemma_decoded_log_len(bytes.take(bytes.len() - RECORD_LEN));
    }
}

/// Every replay that can be read is the stored form of the entries read
/// from it.
pub proof fn lemma_encode_log_inverts_decode_log(bytes: Seq<u8>)
    requires
        decoded_log(bytes) is Some,
    ensures
        encoded_log(decoded_log(bytes).unwrap()) == bytes,
    decreases bytes.len(),
{
    if bytes.len() > 0 {
        let cut = bytes.len() - RECORD_LEN;
        let earlier = decoded_log(bytes.take(cut)).unwrap();
        let entry = decoded(bytes.skip(cut)).unwrap();
        lemma_encode_log_inverts_decode_log(bytes.take(cut));
        lemma_encode_inverts_decode(bytes.skip(cut));
        assert(earlier.push(entry).drop_last() =~= earlier);
        assert(bytes.take(cut) + bytes.skip(cut) =~= bytes);
    } else {
        assert(bytes =~= Seq::<u8>::empty());
    }
}

/// In a stored replay that can be read, every initial part made of whole
/// records can be read, and so can the record that follows it.
proof fn lemma_decoded_log_prefix(bytes: Seq<u8>, k: int)
    requires
        decoded_log(bytes) is Some,
        0 <= k <= bytes.len(),
        k % (RECORD_LEN as int) == 0,
    ensures
        decoded_log(bytes.take(k)) is Some,
        k < bytes.len() ==> k + RECORD_LEN <= bytes.len() && decoded(
            bytes.subrange(k, k + RECORD_LEN),
        ) is Some,
    decreases bytes.len(),
{
    lemma_decoded_log_len(bytes);
    if k == bytes.len() {
        assert(bytes.take(k) =~= bytes);
    } else {
        let cut = bytes.len() - RECORD_LEN;
        assert(k <= cut);
        if k == cut {
            assert(bytes.skip(cut) =~= bytes.subrange(k, k + RECORD_LEN));
        } else {
            lemma_decoded_log_prefix(bytes.take(cut), k);
            assert(bytes.take(cut).take(k) =~= bytes.take(k));
            assert(bytes.take(cut).subrange(k, k + RECORD_LEN) =~= bytes.subrange(
                k,
                k + RECORD_LEN,
            ));
        }
    }
}

/// Storing one more entry appends its record to what is stored.
pub proof fn lemma_encoded_log_push(entries: Seq<ReplayEntry>, entry: ReplayEntry)
    ensures
        encoded_log(entries.push(entry)) == encoded_log(entries) + encoded(entry),
{
    assert(entries.push(entry).drop_last() =~= entries);
}

/// A file that holds the stored part of a log, and to which the record of
/// the pending entry is appended when its write is reported as stored,
/// holds the stored part of the log again.
pub proof fn lemma_stored_write_appends_record(log: ReplayLog)
    requires
        log.pending_write() is Some,
    ensures
        encoded_log(log.write_completed(true).artifact()) == encoded_log(log.artifact()) + encoded(
            log.pending_write().unwrap(),
        ),
{
    let entry = log.pending_write().unwrap();
    assert(log.write_completed(true).artifact() =~= log.artifact().push(entry));
    lemma_encoded_log_push(log.artifact(), entry);
}

/// Appends the four bytes of `value` to `out`, the most significant first.
fn push_be(out: &mut Vec<u8>, value: i32)
    ensures
        final(out)@ == old(out)@ + be_bytes(value),
{
    let u: u64 = if value < 0 {
        (value as i64 + 0x1_0000_0000) as u64
    } else {
        value as u64
    };
    out.push((u / 0x100_0000) as u8);
    out.push((u / 0x1_0000 % 0x100) as u8);
    out.push((u / 0x100 % 0x100) as u8);
    out.push((u % 0x100) as u8);
    assert(out@ =~= old(out)@ + be_bytes(value));
}

/// Reads the number whose four bytes start at `bytes[at]`.
fn read_be(bytes: &[u8], at: usize) -> (value: i32)
    requires
        at + 4 <= bytes@.len(),
    ensures
        value == be_value(bytes@, at as int),
{
    let u: i64 = ((bytes[at] as i64 * 0x100 + bytes[at + 1] as i64) * 0x100 + bytes[at
        + 2] as i64) * 0x100 + bytes[at + 3] as i64;
    if u >= 0x8000_0000 {
        (u - 0x1_0000_0000) as i32
    } else {
        u as i32
    }
}

/// Appends the record of `entry` to `out`.
pub fn write_entry(out: &mut Vec<u8>, entry: &ReplayEntry)
    ensures
        final(out)@ == old(out)@ + encoded(*entry),
{
    push_be(out, entry.tick);
    out.push(entry.action.code());
    push_be(out, entry.state.tick);
    out.push(entry.state.status.code());
    assert(out@ =~= old(out)@ + encoded(*entry));
}

/// The record of `entry`.
pub fn encode_entry(entry: &ReplayEntry) -> (bytes: Vec<u8>)
    ensures
        bytes@ == encoded(*entry),
        bytes@.len() == RECORD_LEN,
{
    let mut out: Vec<u8> = Vec::new();
    write_entry(&mut out, entry);
    assert(out@ =~= encoded(*entry));
    out
}

/// Reads one record. Returns `None` unless `bytes` is ten bytes long and
/// holds the code of an action and the code of a status where a record has
/// them.
pub fn decode_entry(bytes: &[u8]) -> (entry: Option<ReplayEntry>)
    ensures
        entry == decoded(bytes@),
{
    if bytes.len() != RECORD_LEN {
        return None;
    }
    let action = match DirectedAction::from_code(bytes[4]) {
        Some(action) => action,
        None => {
            return None;
        },
    };
    let status = match GameStatus::from_code(bytes[9]) {
        Some(status) => status,
        None => {
            return None;
        },
    };
    Some(
        ReplayEntry {
            tick: read_be(bytes, 0),
            action,
            state: GameState { tick: read_be(bytes, 5), status },
        },
    )
}

/// The stored form of `entries`: their records in order.
pub fn encode_log(entries: &Vec<ReplayEntry>) -> (bytes: Vec<u8>)
    ensures
        bytes@ == encoded_log(entries@),
{
    let mut out: Vec<u8> = Vec::new();
    let mut i: usize = 0;
    while i < entries.len()
        invariant
            i <= entries.len(),
            out@ == encoded_log(entries@.take(i as int)),
        decreases entries.len() - i,
    {
        proof {
            lemma_encoded_log_push(entries@.take(i as int), entries@[i as int]);
            assert(entries@.take(i as int).push(entries@[i as int]) =~= entries@.take(i + 1));
        }
        write_entry(&mut out, &entries[i]);
        i = i + 1;
    }
    assert(entries@.take(i as int) =~= entries@);
    out
}

/// Reads a stored replay. Returns the entries in their order when `bytes` is
/// made of records from end to end, and `None` when it is not.
pub fn decode_log(bytes: &[u8]) -> (entries: Option<Vec<ReplayEntry>>)
    ensures
        match entries {
            Some(list) => decoded_log(bytes@) == Some(list@),
            None => decoded_log(bytes@) is None,
        },
{
    let n = bytes.len();
    if n % RECORD_LEN != 0 {
        proof {
            if decoded_log(bytes@) is Some {
                lemma_decoded_log_len(bytes@);
            }
        }
        return None;
    }
    let mut out: Vec<ReplayEntry> = Vec::new();
    let mut at: usize = 0;
    while at < n
        invariant
            at <= n,
            n == bytes@.len(),
            n % RECORD_LEN == 0,
            at % RECORD_LEN == 0,
            decoded_log(bytes@.take(at as int)) == Some(out@),
        decreases n - at,
    {
        let record = slice_subrange(bytes, at, at + RECORD_LEN);
        match decode_entry(record) {
            Some(entry) => {
                proof {
                    let longer = bytes@.take(at + RECORD_LEN);
                    assert(longer.take(at as int) =~= bytes@.take(at as int));
                    assert(longer.skip(at as int) =~= record@);
                }
                out.push(entry);
            },
            None => {
                proof {
                    if decoded_log(bytes@) is Some {
                        lemma_decoded_log_prefix(bytes@, at as int);
                    }
                }
                return None;
            },
        }
        at = at + RECORD_LEN;
    }
    assert(bytes@.take(at as int) =~= bytes@);
    Some(out)
}

} // verus!
