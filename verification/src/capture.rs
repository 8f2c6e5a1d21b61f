//! The capture log's state machine.
//!
//! The capture log is a process-wide diagnostic sink that serializes every
//! distinct tree update to an append-only file. Its state machine lives
//! here, fully verified; the file handle, the environment lookup and the
//! write/flush/sync sequence are outside work that the surrounding program
//! performs between these calls, under one process-wide lock. Transitions
//! are one-way: uninitialized becomes disabled or enabled exactly once, and
//! enabled never reverts. Capture is purely observational — it never
//! alters, delays or fails the data flow it observes, and every failure of
//! the outside work merely abandons that one capture.

use vstd::prelude::*;
use crate::eq;
use crate::record;
use crate::tree::TreeUpdate;
use crate::tree::TreeUpdateAbs;

verus! {

/// What an enabled capture log remembers: the last update it recorded,
/// for deduplication.
pub struct CaptureState {
    pub last: Option<TreeUpdate>,
}

/// The lifecycle of the capture log.
pub enum CaptureLog {
    /// No capture attempt has been observed yet.
    Uninitialized,
    /// Capture is off for the rest of the process: no configuration, or
    /// the configured file could not be opened.
    Disabled,
    /// Capture is on, appending to the configured file.
    Enabled(CaptureState),
}

/// True when the update equals the last one recorded: recording it again
/// is skipped.
pub open spec fn is_duplicate(log: CaptureLog, update: TreeUpdate) -> bool {
    log matches CaptureLog::Enabled(st) && st.last matches Some(l) && l@ == update@
}

/// One line of the capture file: a record and the record separator.
pub open spec fn record_line(u: TreeUpdateAbs) -> Seq<u8> {
    record::update_record(u) + seq![record::B_NEWLINE]
}

/// What a capture call writes: a fresh record line when capture is enabled
/// and the update is not a consecutive duplicate, nothing otherwise.
pub open spec fn spec_step_record(log: CaptureLog, update: TreeUpdate) -> Option<Seq<u8>> {
    if log matches CaptureLog::Enabled(st) && !is_duplicate(log, update) {
        Some(record_line(update@))
    } else {
        None
    }
}

/// The state after a record of `update` has durably reached the file.
pub open spec fn spec_commit(update: TreeUpdate) -> CaptureLog {
    CaptureLog::Enabled(CaptureState { last: Some(update) })
}

/// Whether the configuration asks for capture at all: a missing or empty
/// path disables it.
pub fn wants_capture(config: &Option<Vec<char>>) -> (b: bool)
    ensures
        b == (config matches Some(path) && path@.len() > 0),
{
    match config {
        None => false,
        Some(path) => path.len() > 0,
    }
}

/// Resolves the one-time initialization: `opened` reports whether the
/// configured file was opened for append. Either way the log leaves the
/// uninitialized state for good; a failed open disables capture for the
/// rest of the process, never fatally.
pub fn apply_init(log: &mut CaptureLog, opened: bool)
    requires
        *old(log) is Uninitialized,
    ensures
        opened ==> *final(log) == CaptureLog::Enabled((CaptureState { last: None })),
        !opened ==> *final(log) is Disabled,
{
    if opened {
        *log = CaptureLog::Enabled(CaptureState { last: None });
    } else {
        *log = CaptureLog::Disabled;
    }
}

/// One capture call, after initialization: decides whether this update is
/// recorded and serializes it if so. The log itself does not change here —
/// the update becomes the remembered one only once `commit` reports that
/// the line durably reached the file, so a failed write abandons only this
/// capture.
pub fn capture_step(log: &CaptureLog, update: &TreeUpdate) -> (line: Option<Vec<u8>>)
    requires
        !(*log is Uninitialized),
    ensures
        spec_step_record(*log, *update) is None ==> line is None,
        spec_step_record(*log, *update) matches Some(expected) ==> line matches Some(bytes)
            && bytes@ == expected,
{
    match log {
        CaptureLog::Enabled(st) => {
            let duplicate = match &st.last {
                Some(l) => eq::update_eq(l, update),
                None => false,
            };
            if duplicate {
                None
            } else {
                let mut bytes = record::update_record_bytes(update);
                bytes.push(record::B_NEWLINE);
                proof {
                    assert(bytes@ =~= record_line(update@));
                }
                Some(bytes)
            }
        },
        _ => None,
    }
}

/// Records that the line for `update` reached the file: the update becomes
/// the one deduplicated against.
pub fn commit(log: &mut CaptureLog, update: TreeUpdate)
    requires
        *old(log) matches CaptureLog::Enabled(_),
    ensures
        *final(log) == spec_commit(update),
{
    *log = CaptureLog::Enabled(CaptureState { last: Some(update) });
}

/// Capture dedup, first half: once an update's record is committed,
/// submitting a structurally equal update writes nothing — the pair of
/// submissions produces exactly one record.
pub proof fn lemma_capture_dedup(log: CaptureLog, first: TreeUpdate, second: TreeUpdate)
    requires
        spec_step_record(log, first) is Some,
        second@ == first@,
    ensures
        spec_step_record(spec_commit(first), second) is None,
{
}

/// Capture dedup, second half: after an update's record is committed, a
/// structurally different update is recorded too — both records are
/// written, in submission order.
pub proof fn lemma_capture_distinct(log: CaptureLog, first: TreeUpdate, second: TreeUpdate)
    requires
        spec_step_record(log, first) is Some,
        second@ != first@,
    ensures
        spec_step_record(spec_commit(first), second) == Some(record_line(second@)),
{
}

/// Capture resilience: once disabled, every capture call is a no-op that
/// writes nothing, for any update whatsoever.
pub proof fn lemma_capture_disabled(update: TreeUpdate)
    ensures
        spec_step_record(CaptureLog::Disabled, update) is None,
{
}

} // verus!
