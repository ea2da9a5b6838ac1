//! Properties of editing sessions that span several operations.

use vstd::prelude::*;
use crate::buffer::{commit_takes, field_index_ok, BufferView, FieldCommit};
use crate::count::count_of_text;
use crate::field::{FieldKind, FieldStatus};
use crate::editor::RunData;
use crate::session::{committed, timer_after_commit};
use crate::timer::TimerPhase;

verus! {

/// Text typed into one field and then committed.
pub struct FieldEdit {
    pub index: int,
    pub kind: FieldKind,
    pub text: Seq<char>,
}

/// What the buffer models of its run: segment names, game and category
/// names, and the attempt count.
pub struct RunModel {
    pub names: Seq<Seq<char>>,
    pub game: Seq<char>,
    pub category: Seq<char>,
    pub attempts: u32,
}

pub open spec fn model(v: BufferView) -> RunModel {
    RunModel { names: v.names, game: v.game, category: v.category, attempts: v.attempts }
}

/// `m` with the value of edit `e` stored; times are not part of the model.
pub open spec fn apply_edit(m: RunModel, e: FieldEdit) -> RunModel {
    match e.kind {
        FieldKind::Name => RunModel { names: m.names.update(e.index, e.text), ..m },
        FieldKind::GameName => RunModel { game: e.text, ..m },
        FieldKind::CategoryName => RunModel { category: e.text, ..m },
        FieldKind::AttemptCount => RunModel { attempts: count_of_text(e.text).unwrap(), ..m },
        _ => m,
    }
}

/// `m` with the value of each edit stored in turn.
pub open spec fn apply_all(m: RunModel, edits: Seq<FieldEdit>) -> RunModel
    decreases edits.len(),
{
    if edits.len() == 0 {
        m
    } else {
        apply_edit(apply_all(m, edits.drop_last()), edits.last())
    }
}

/// The buffer after each edit of `edits`, in order, is typed and committed,
/// with `room` telling whether the run's stored times are small.
pub open spec fn replay(v: BufferView, edits: Seq<FieldEdit>, room: bool) -> BufferView
    decreases edits.len(),
{
    if edits.len() == 0 {
        v
    } else {
        let e = edits.last();
        replay(v, edits.drop_last(), room).after_set(e.index, e.kind, e.text).after_commit(
            e.index,
            e.kind,
            room,
        )
    }
}

/// Whether every edit names a field of a buffer with `n` segments and has
/// text a commit takes.
pub open spec fn valid_edits(n: int, edits: Seq<FieldEdit>, room: bool) -> bool {
    forall|j: int|
        0 <= j < edits.len() ==> ((#[trigger] edits[j]).kind.per_segment() ==> 0 <= edits[j].index
            < n) && commit_takes(edits[j].kind, edits[j].text, room, n)
}

/// Typing text into fields and committing it, with text the editor takes,
/// stores each value in the order of the edits; the buffer is dirty
/// exactly when it was already or at least one edit was made.
pub proof fn lemma_valid_edits_apply_in_order(v: BufferView, edits: Seq<FieldEdit>, room: bool)
    requires
        v.wf(),
        valid_edits(v.names.len() as int, edits, room),
    ensures
        model(replay(v, edits, room)) == apply_all(model(v), edits),
        replay(v, edits, room).dirty == (v.dirty || edits.len() > 0),
        replay(v, edits, room).wf(),
        replay(v, edits, room).names.len() == v.names.len(),
    decreases edits.len(),
{
    if edits.len() > 0 {
        let e = edits.last();
        let prefix = edits.drop_last();
        assert forall|j: int| 0 <= j < prefix.len() implies ((#[trigger] prefix[j]).kind.per_segment()
            ==> 0 <= prefix[j].index < v.names.len()) && commit_takes(
            prefix[j].kind,
            prefix[j].text,
            room,
            v.names.len() as int,
        ) by {
            assert(prefix[j] == edits[j]);
        }
        assert(edits[edits.len() - 1] == e);
        lemma_valid_edits_apply_in_order(v, prefix, room);
        let w = replay(v, prefix, room);
        let s = w.after_set(e.index, e.kind, e.text);
        assert(s.field(e.index, e.kind) == FieldStatus::Pending(e.text));
        assert(s.typed(e.index, e.kind) == Some(e.text));
        let b = s.commit_base(e.index, e.kind);
        assert(b.stored(e.index, e.kind, e.text).with_field(e.index, e.kind, FieldStatus::Synced).names
            == apply_edit(model(w), e).names);
    }
}

/// A commit whose text the editor refuses never changes the run model or
/// the dirty flag. Text refused for the first time stays in the field;
/// text refused again is dropped.
pub proof fn lemma_refused_commit_keeps_run(v: BufferView, i: int, kind: FieldKind, room: bool)
    requires
        v.wf(),
        field_index_ok(v, i, kind),
        v.typed(i, kind) is Some,
        !commit_takes(kind, v.typed(i, kind).unwrap(), room, v.names.len() as int),
    ensures
        model(v.after_commit(i, kind, room)) == model(v),
        v.after_commit(i, kind, room).dirty == v.dirty,
        v.field(i, kind) is Pending ==> v.commit_outcome(i, kind, room) == FieldCommit::Rejected
            && v.after_commit(i, kind, room).field(i, kind) == FieldStatus::Rejected(
            v.typed(i, kind).unwrap(),
        ) && v.after_commit(i, kind, room).typed(i, kind) == v.typed(i, kind),
        v.field(i, kind) is Rejected ==> v.commit_outcome(i, kind, room) == FieldCommit::Resynced
            && v.after_commit(i, kind, room).field(i, kind) == FieldStatus::Synced,
{
}

/// Committing twice with no edit in between, while the timer is not running
/// or paused and the run's times are small: the second commit publishes
/// the same run as the first, and the buffer is clean after both.
pub proof fn lemma_commit_twice(
    b: BufferView,
    edited: RunData,
    phase: TimerPhase,
    later: TimerPhase,
    before: RunData,
)
    requires
        b.wf(),
        !phase.timing(),
        !later.timing(),
    ensures
        !committed(b, phase, true).dirty,
        committed(committed(b, phase, true), later, true) == committed(b, phase, true),
        timer_after_commit(edited, later, true, timer_after_commit(edited, phase, true, before))
            == timer_after_commit(edited, phase, true, before),
{
}

} // verus!
