//! The session controller: opens an edit buffer on the shared timer's run,
//! commits it back, discards it, and decides what closing the editor does.
//! The caller holds the timer's lock, writes files and asks the user, and
//! hands in what came of it.

use vstd::prelude::*;
use livesplit_core::{Run, Timer};
use crate::buffer::{BufferView, EditBuffer};
use crate::editor::{
    copy_run, current_phase, fixed_data, replace_timer_run, run_data, run_fits, run_fits_check,
    run_names, timer_data, timer_names, timer_phase, timer_run, RunData,
};
use crate::timer::TimerPhase;

verus! {

/// Editing was asked for while the timer is running or paused.
#[derive(Clone, Copy, Debug, PartialEq, Eq, Structural)]
pub struct EditorUnavailable;

/// Why a commit did not fully succeed.
#[derive(Clone, Copy, Debug, PartialEq, Eq, Structural)]
pub enum CommitError {
    /// The splits file could not be written; the timer took the run anyway.
    PersistFailed,
    /// The timer is running or paused and was left alone; the buffer keeps
    /// its unsaved changes.
    ReplaceRejected,
    /// The run stores times so large that the timer could not add them up
    /// without overflow; the timer was left alone and the buffer keeps its
    /// unsaved changes.
    TimesTooLarge,
}

/// What came of writing the buffer's run to its file.
#[derive(Clone, Copy, Debug, PartialEq, Eq, Structural)]
pub enum PersistOutcome {
    /// The run has no file, so nothing was written.
    NoPath,
    Written,
    Failed,
}

/// The user's answer when closing an editor with unsaved changes.
#[derive(Clone, Copy, Debug, PartialEq, Eq, Structural)]
pub enum CloseAnswer {
    /// Save first: the run was written with the given outcome.
    Save(PersistOutcome),
    /// Close without saving.
    Discard,
    /// Keep the editor open.
    Cancel,
}

/// Whether a commit publishes: the timer is not running or paused, and
/// the run has `room` (its stored times are small).
pub open spec fn publishes(phase: TimerPhase, room: bool) -> bool {
    !phase.timing() && room
}

/// The buffer after a commit: clean when the timer took its run.
pub open spec fn committed(b: BufferView, phase: TimerPhase, room: bool) -> BufferView {
    if publishes(phase, room) {
        BufferView { dirty: false, ..b }
    } else {
        b
    }
}

/// What the timer holds after a commit of a buffer holding `edited`: the
/// edited run, fixed as the timer fixes every run it takes.
pub open spec fn timer_after_commit(
    edited: RunData,
    phase: TimerPhase,
    room: bool,
    before: RunData,
) -> RunData {
    if publishes(phase, room) {
        fixed_data(edited)
    } else {
        before
    }
}

/// What a commit reports.
pub open spec fn commit_result(phase: TimerPhase, room: bool, p: PersistOutcome) -> Result<
    (),
    CommitError,
> {
    if phase.timing() {
        Err(CommitError::ReplaceRejected)
    } else if !room {
        Err(CommitError::TimesTooLarge)
    } else if p == PersistOutcome::Failed {
        Err(CommitError::PersistFailed)
    } else {
        Ok(())
    }
}

/// Opens an edit buffer on the timer's run, unless the timer is running or
/// paused.
pub fn begin_edit(timer: &Timer) -> (r: Result<EditBuffer, EditorUnavailable>)
    ensures
        r is Err <==> timer_phase(*timer).timing(),
        match r {
            Ok(b) => b@.is_fresh(timer_names(*timer)) && b@.wf() && b.data() == fixed_data(
                timer_data(*timer),
            ),
            Err(_) => true,
        },
{
    if current_phase(timer).is_timing() {
        return Err(EditorUnavailable);
    }
    match EditBuffer::open(timer_run(timer)) {
        Some(b) => Ok(b),
        None => Err(EditorUnavailable),
    }
}

/// A fresh buffer on a copy of the timer's current run, whatever the old
/// buffer held; the caller asks for confirmation first when that buffer is
/// dirty.
pub fn discard(timer: &Timer) -> (r: Option<EditBuffer>)
    ensures
        match r {
            Some(b) => b@.is_fresh(timer_names(*timer)) && b@.wf() && b.data() == fixed_data(
                timer_data(*timer),
            ),
            None => false,
        },
{
    EditBuffer::open(timer_run(timer))
}

/// Whether changes may be thrown away: at once when the buffer is clean,
/// else as the user answered.
pub fn request_discard_confirmation(buffer: &EditBuffer, user_agrees: bool) -> (r: bool)
    ensures
        r == (!buffer@.dirty || user_agrees),
{
    !buffer.dirty() || user_agrees
}

/// Publishes a copy of the buffer's run to the timer, after the caller has
/// tried to write it to its file with outcome `persisted`. The timer takes
/// it unless it is running or paused, or the run stores times too large to
/// add up; the buffer is then clean. A failed write is reported but does
/// not hold the timer back.
pub fn commit(buffer: &mut EditBuffer, timer: &mut Timer, persisted: PersistOutcome) -> (r: Result<
    (),
    CommitError,
>)
    requires
        old(buffer)@.wf(),
    ensures
        final(buffer)@ == committed(old(buffer)@, timer_phase(*old(timer)), old(buffer).room()),
        final(buffer).data() == old(buffer).data(),
        final(buffer)@.wf(),
        timer_data(*final(timer)) == timer_after_commit(
            old(buffer).data(),
            timer_phase(*old(timer)),
            old(buffer).room(),
            timer_data(*old(timer)),
        ),
        !publishes(timer_phase(*old(timer)), old(buffer).room()) ==> *final(timer) == *old(timer),
        r == commit_result(timer_phase(*old(timer)), old(buffer).room(), persisted),
{
    if current_phase(timer).is_timing() {
        return Err(CommitError::ReplaceRejected);
    }
    let run = buffer.run();
    if !run_fits_check(&run) {
        return Err(CommitError::TimesTooLarge);
    }
    let _ = replace_timer_run(timer, run, false);
    buffer.mark_clean();
    if persisted == PersistOutcome::Failed {
        Err(CommitError::PersistFailed)
    } else {
        Ok(())
    }
}

/// Closes the editor. A clean buffer closes at once. With unsaved changes
/// the user's answer decides: cancel keeps the editor open and changes
/// nothing, discard closes without saving, save commits first (whatever
/// the commit reports) and closes.
pub fn close(buffer: &mut EditBuffer, timer: &mut Timer, answer: CloseAnswer) -> (r: bool)
    requires
        old(buffer)@.wf(),
    ensures
        r == (!old(buffer)@.dirty || answer != CloseAnswer::Cancel),
        final(buffer)@.wf(),
        final(buffer).data() == old(buffer).data(),
        match answer {
            CloseAnswer::Save(_) if old(buffer)@.dirty => final(buffer)@ == committed(
                old(buffer)@,
                timer_phase(*old(timer)),
                old(buffer).room(),
            ) && timer_data(*final(timer)) == timer_after_commit(
                old(buffer).data(),
                timer_phase(*old(timer)),
                old(buffer).room(),
                timer_data(*old(timer)),
            ),
            _ => final(buffer)@ == old(buffer)@ && *final(timer) == *old(timer),
        },
{
    if !buffer.dirty() {
        return true;
    }
    match answer {
        CloseAnswer::Save(p) => {
            let _ = commit(buffer, timer, p);
            true
        },
        CloseAnswer::Discard => true,
        CloseAnswer::Cancel => false,
    }
}

/// Installs a run loaded from a file, with the timer's splits updated: the
/// timer takes it unless it is running or paused, or the run has no
/// segment or stores times too large to add up, and an open editor then
/// starts over on it. Gives back the
/// timer's previous run, or the refused one.
pub fn install_loaded_run(timer: &mut Timer, editor: &mut Option<EditBuffer>, run: Run) -> (r:
    Result<Run, Run>)
    ensures
        match r {
            Ok(prev) => !timer_phase(*old(timer)).timing() && run_names(run).len() > 0 && run_fits(
                run,
            ) && (timer_phase(*old(timer)) == TimerPhase::NotRunning ==> run_data(prev)
                == timer_data(*old(timer))) && timer_data(*final(timer)) == fixed_data(run_data(run))
                && match *old(editor) {
                Some(_) => match *final(editor) {
                    Some(b) => b@.is_fresh(run_names(run)) && b@.wf(),
                    None => false,
                },
                None => *final(editor) is None,
            },
            Err(back) => (timer_phase(*old(timer)).timing() || run_names(run).len() == 0
                || !run_fits(run)) && run_data(back) == run_data(run) && timer_data(*final(timer))
                == timer_data(*old(timer)) && *final(editor) == *old(editor),
        },
{
    if current_phase(timer).is_timing() || !run_fits_check(&run) {
        return Err(run);
    }
    let fresh = copy_run(&run);
    match replace_timer_run(timer, run, true) {
        Ok(prev) => {
            let reopen = editor.is_some();
            if reopen {
                *editor = EditBuffer::open(fresh);
            }
            Ok(prev)
        },
        Err(back) => Err(back),
    }
}

} // verus!
