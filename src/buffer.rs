//! The edit buffer: the timing library's run editor over a private copy of
//! a run, the text being typed into its fields, and whether it holds
//! changes that were not committed.

use vstd::prelude::*;
use livesplit_core::run::Editor;
use livesplit_core::Run;
use crate::count::{count_of_text, count_to_text, decimal_text};
use crate::editor::{
    cleared_times, editor_fits, editor_history_empty, editor_times, fixed, fixed_data,
    run_data, run_fits, run_fits_check, run_values, editor_values, editor_data, segment_text,
    small, time_text, with_segment_time, active_after_removal, RunData, TimesData,
    clear_history, clear_times, editor_active, editor_attempts, editor_category, editor_game,
    editor_names, editor_ok, editor_selection, editor_texts, edited_run, insert_segment_above,
    insert_segment_below, move_segments_down, move_segments_up, only, open_editor,
    parse_and_set_attempt_count, parse_and_set_best_segment_time, parse_and_set_offset,
    parse_and_set_segment_time, parse_and_set_split_time, remove_segments, run_names,
    select_additionally, select_only, set_active_name, set_category_name, set_game_name,
};
use crate::field::{accepts, FieldKind, FieldState, FieldStatus};
use crate::time::{parse_time, parsed_time, TIME_LIMIT};
use crate::order::{
    kept, lemma_kept_len, lemma_kept_step, lemma_lowered_len, lemma_raised_len, lowered, raised,
    swap_adjacent,
};

verus! {

/// The text states of one segment's fields.
#[derive(Debug)]
pub struct SegmentLocal {
    pub name: FieldState,
    pub split_time: FieldState,
    pub segment_time: FieldState,
    pub best_segment_time: FieldState,
}

/// The mathematical value of a [`SegmentLocal`].
pub struct LocalView {
    pub name: FieldStatus,
    pub split_time: FieldStatus,
    pub segment_time: FieldStatus,
    pub best_segment_time: FieldStatus,
}

impl View for SegmentLocal {
    type V = LocalView;

    open spec fn view(&self) -> LocalView {
        LocalView {
            name: self.name@,
            split_time: self.split_time@,
            segment_time: self.segment_time@,
            best_segment_time: self.best_segment_time@,
        }
    }
}

impl LocalView {
    /// Every field synced.
    pub open spec fn fresh() -> LocalView {
        LocalView {
            name: FieldStatus::Synced,
            split_time: FieldStatus::Synced,
            segment_time: FieldStatus::Synced,
            best_segment_time: FieldStatus::Synced,
        }
    }
}

impl SegmentLocal {
    pub fn fresh() -> (r: SegmentLocal)
        ensures
            r@ == LocalView::fresh(),
    {
        SegmentLocal {
            name: FieldState::Synced,
            split_time: FieldState::Synced,
            segment_time: FieldState::Synced,
            best_segment_time: FieldState::Synced,
        }
    }

    pub fn duplicate(&self) -> (r: SegmentLocal)
        ensures
            r@ == self@,
    {
        SegmentLocal {
            name: self.name.duplicate(),
            split_time: self.split_time.duplicate(),
            segment_time: self.segment_time.duplicate(),
            best_segment_time: self.best_segment_time.duplicate(),
        }
    }
}

/// Where a new segment goes, relative to the active one.
#[derive(Clone, Copy, Debug, PartialEq, Eq, Structural)]
pub enum Position {
    Above,
    Below,
}

/// What a commit attempt on a field did.
#[derive(Clone, Copy, Debug, PartialEq, Eq, Structural)]
pub enum FieldCommit {
    /// The field had no typed text.
    NothingPending,
    /// The editor took the text.
    Applied,
    /// The text was refused and kept for correction.
    Rejected,
    /// The text was refused a second time and replaced by the run's value.
    Resynced,
}

/// An editing session over a private copy of a run.
pub struct EditBuffer {
    editor: Editor,
    locals: Vec<SegmentLocal>,
    game_field: FieldState,
    category_field: FieldState,
    offset_field: FieldState,
    attempts_field: FieldState,
    dirty: bool,
}

/// The mathematical value of an [`EditBuffer`]: what the editor holds of
/// the run, and the buffer's own text states.
pub struct BufferView {
    pub names: Seq<Seq<char>>,
    pub selection: Seq<bool>,
    /// The segment that insertions are relative to; always selected.
    pub active: int,
    pub game: Seq<char>,
    pub category: Seq<char>,
    pub attempts: u32,
    pub locals: Seq<LocalView>,
    pub game_field: FieldStatus,
    pub category_field: FieldStatus,
    pub offset_field: FieldStatus,
    pub attempts_field: FieldStatus,
    pub dirty: bool,
}

impl View for EditBuffer {
    type V = BufferView;

    closed spec fn view(&self) -> BufferView {
        BufferView {
            names: editor_names(self.editor),
            selection: editor_selection(self.editor),
            active: editor_active(self.editor),
            game: editor_game(self.editor),
            category: editor_category(self.editor),
            attempts: editor_attempts(self.editor),
            locals: self.locals@.map_values(|l: SegmentLocal| l@),
            game_field: self.game_field@,
            category_field: self.category_field@,
            offset_field: self.offset_field@,
            attempts_field: self.attempts_field@,
            dirty: self.dirty,
        }
    }
}

/// Whether `i` names a field of `kind` in `v`: any index for a field of the
/// run, an existing segment for a field of a segment.
pub open spec fn field_index_ok(v: BufferView, i: int, kind: FieldKind) -> bool {
    kind.per_segment() ==> 0 <= i < v.locals.len()
}

/// Whether a commit takes `text` for field `kind` of a run with `n`
/// segments: the editor must accept it, and a segment time is only handed
/// over while the run has `room` (its stored times are small) and the time
/// is small too, so that the editor's sums stay in range.
pub open spec fn commit_takes(kind: FieldKind, text: Seq<char>, room: bool, n: int) -> bool {
    &&& accepts(kind, text)
    &&& kind == FieldKind::SegmentTime ==> room && match parsed_time(text) {
        Some(t) => small(t, n),
        None => true,
    }
}

/// The editor's times after it takes `text` for field `kind` of segment `i`.
pub open spec fn times_after(t: TimesData, i: int, kind: FieldKind, text: Seq<char>) -> TimesData {
    let v = parsed_time(text).unwrap();
    match kind {
        FieldKind::SplitTime => fixed(TimesData { splits: t.splits.update(i, v), ..t }),
        FieldKind::BestSegmentTime => fixed(TimesData { bests: t.bests.update(i, v), ..t }),
        FieldKind::SegmentTime => with_segment_time(t, i, v),
        FieldKind::Offset => TimesData { offset: v.unwrap(), ..t },
        _ => t,
    }
}

impl BufferView {
    pub open spec fn wf(self) -> bool {
        let n = self.names.len();
        &&& n > 0
        &&& self.selection.len() == n
        &&& 0 <= self.active < n
        &&& self.selection[self.active]
        &&& self.locals.len() == n
    }

    /// Whether this is a buffer just opened on a run with segments `names`:
    /// every field synced, the first segment selected and active, nothing
    /// to save.
    pub open spec fn is_fresh(self, names: Seq<Seq<char>>) -> bool {
        &&& self.names == names
        &&& self.selection == only(names.len() as int, 0)
        &&& self.active == 0
        &&& self.locals == Seq::new(names.len(), |j: int| LocalView::fresh())
        &&& self.game_field == FieldStatus::Synced
        &&& self.category_field == FieldStatus::Synced
        &&& self.offset_field == FieldStatus::Synced
        &&& self.attempts_field == FieldStatus::Synced
        &&& !self.dirty
    }

    /// The text state of field `kind` of segment `i`.
    pub open spec fn field(self, i: int, kind: FieldKind) -> FieldStatus {
        match kind {
            FieldKind::Name => self.locals[i].name,
            FieldKind::SplitTime => self.locals[i].split_time,
            FieldKind::SegmentTime => self.locals[i].segment_time,
            FieldKind::BestSegmentTime => self.locals[i].best_segment_time,
            FieldKind::GameName => self.game_field,
            FieldKind::CategoryName => self.category_field,
            FieldKind::Offset => self.offset_field,
            FieldKind::AttemptCount => self.attempts_field,
        }
    }

    /// This buffer with field `kind` of segment `i` in state `st`.
    pub open spec fn with_field(self, i: int, kind: FieldKind, st: FieldStatus) -> BufferView {
        let l = self.locals[i];
        match kind {
            FieldKind::Name => BufferView {
                locals: self.locals.update(i, LocalView { name: st, ..l }),
                ..self
            },
            FieldKind::SplitTime => BufferView {
                locals: self.locals.update(i, LocalView { split_time: st, ..l }),
                ..self
            },
            FieldKind::SegmentTime => BufferView {
                locals: self.locals.update(i, LocalView { segment_time: st, ..l }),
                ..self
            },
            FieldKind::BestSegmentTime => BufferView {
                locals: self.locals.update(i, LocalView { best_segment_time: st, ..l }),
                ..self
            },
            FieldKind::GameName => BufferView { game_field: st, ..self },
            FieldKind::CategoryName => BufferView { category_field: st, ..self },
            FieldKind::Offset => BufferView { offset_field: st, ..self },
            FieldKind::AttemptCount => BufferView { attempts_field: st, ..self },
        }
    }

    /// The buffer after `text` is typed into field `kind` of segment `i`.
    pub open spec fn after_set(self, i: int, kind: FieldKind, text: Seq<char>) -> BufferView {
        self.with_field(i, kind, FieldStatus::Pending(text))
    }

    /// The text a field holds for committing, if any.
    pub open spec fn typed(self, i: int, kind: FieldKind) -> Option<Seq<char>> {
        match self.field(i, kind) {
            FieldStatus::Synced => None,
            FieldStatus::Pending(t) => Some(t),
            FieldStatus::Rejected(t) => Some(t),
        }
    }

    /// The buffer with segment `i` the only one selected, and active.
    pub open spec fn after_select_only(self, i: int) -> BufferView {
        BufferView { selection: only(self.names.len() as int, i), active: i, ..self }
    }

    /// The buffer with segment `i` selected as well, and active.
    pub open spec fn after_select_additionally(self, i: int) -> BufferView {
        BufferView { selection: self.selection.update(i, true), active: i, ..self }
    }

    /// What the editor holds once it took `text` for field `kind` of segment
    /// `i`, as far as the buffer models it: names and the attempt count.
    /// Times are stored by the editor in its own way.
    pub open spec fn stored(self, i: int, kind: FieldKind, text: Seq<char>) -> BufferView {
        match kind {
            FieldKind::Name => BufferView { names: self.names.update(i, text), ..self },
            FieldKind::GameName => BufferView { game: text, ..self },
            FieldKind::CategoryName => BufferView { category: text, ..self },
            FieldKind::AttemptCount => BufferView {
                attempts: count_of_text(text).unwrap(),
                ..self
            },
            _ => self,
        }
    }

    /// The buffer a commit of field `kind` of segment `i` starts from: a
    /// segment's field first selects that segment alone.
    pub open spec fn commit_base(self, i: int, kind: FieldKind) -> BufferView {
        if kind.per_segment() {
            self.after_select_only(i)
        } else {
            self
        }
    }

    /// What committing field `kind` of segment `i` reports, where `room`
    /// tells whether the run's stored times are small.
    pub open spec fn commit_outcome(self, i: int, kind: FieldKind, room: bool) -> FieldCommit {
        match self.typed(i, kind) {
            None => FieldCommit::NothingPending,
            Some(t) => if commit_takes(kind, t, room, self.names.len() as int) {
                FieldCommit::Applied
            } else {
                match self.field(i, kind) {
                    FieldStatus::Pending(_) => FieldCommit::Rejected,
                    _ => FieldCommit::Resynced,
                }
            },
        }
    }

    /// The buffer after committing field `kind` of segment `i`: text the
    /// editor takes is stored, the field synced and the buffer dirty;
    /// refused text leaves the run alone, kept on the first refusal and
    /// dropped on the second.
    pub open spec fn after_commit(self, i: int, kind: FieldKind, room: bool) -> BufferView {
        match self.typed(i, kind) {
            None => self,
            Some(t) => {
                let b = self.commit_base(i, kind);
                if commit_takes(kind, t, room, self.names.len() as int) {
                    BufferView {
                        dirty: true,
                        ..b.stored(i, kind, t).with_field(i, kind, FieldStatus::Synced)
                    }
                } else {
                    match self.field(i, kind) {
                        FieldStatus::Pending(_) => b.with_field(i, kind, FieldStatus::Rejected(t)),
                        _ => b.with_field(i, kind, FieldStatus::Synced),
                    }
                }
            },
        }
    }

    /// The text the run holds for field `kind` of segment `i`, with the
    /// editor's times `times`, as the editor shows it.
    pub open spec fn run_text(self, times: TimesData, i: int, kind: FieldKind) -> Seq<char> {
        match kind {
            FieldKind::Name => self.names[i],
            FieldKind::SplitTime => time_text(times.splits[i]),
            FieldKind::SegmentTime => segment_text(times, i),
            FieldKind::BestSegmentTime => time_text(times.bests[i]),
            FieldKind::GameName => self.game,
            FieldKind::CategoryName => self.category,
            FieldKind::Offset => time_text(Some(times.offset)),
            FieldKind::AttemptCount => decimal_text(self.attempts as nat),
        }
    }

    /// The buffer after an empty segment is inserted next to the active one;
    /// it becomes the only selected segment, and active.
    pub open spec fn after_insert(self, pos: Position) -> BufferView {
        let p = match pos {
            Position::Above => self.active,
            Position::Below => self.active + 1,
        };
        BufferView {
            names: self.names.insert(p, Seq::empty()),
            selection: only(self.names.len() + 1 as int, p),
            active: p,
            locals: self.locals.insert(p, LocalView::fresh()),
            dirty: true,
            ..self
        }
    }

    /// The buffer after the selected segments are removed with their text
    /// states, unless every segment is selected. The first remaining segment
    /// from the active one on, or else the last one, becomes the only
    /// selected one, and active.
    pub open spec fn after_remove(self) -> BufferView {
        let sel = self.selection;
        let left = kept(self.names, sel);
        if left.len() == 0 {
            BufferView { dirty: true, ..self }
        } else {
            let a = active_after_removal(self.names, sel, self.active);
            BufferView {
                names: left,
                selection: only(left.len() as int, a),
                active: a,
                locals: kept(self.locals, sel),
                dirty: true,
                ..self
            }
        }
    }

    /// The buffer after every selected segment moves one place up with its
    /// text states, unless the first segment is selected.
    pub open spec fn after_move_up(self) -> BufferView {
        let sel = self.selection;
        let n = self.names.len() as int;
        if sel[0] {
            BufferView { dirty: true, ..self }
        } else {
            BufferView {
                names: raised(self.names, sel, n),
                selection: Seq::new(n as nat, |j: int| j + 1 < n && sel[j + 1]),
                active: self.active - 1,
                locals: raised(self.locals, sel, n),
                dirty: true,
                ..self
            }
        }
    }

    /// The buffer after every selected segment moves one place down with its
    /// text states, unless the last segment is selected.
    pub open spec fn after_move_down(self) -> BufferView {
        let sel = self.selection;
        let n = self.names.len() as int;
        if sel.last() {
            BufferView { dirty: true, ..self }
        } else {
            BufferView {
                names: lowered(self.names, sel, 0),
                selection: Seq::new(n as nat, |j: int| j > 0 && sel[j - 1]),
                active: self.active + 1,
                locals: lowered(self.locals, sel, 0),
                dirty: true,
                ..self
            }
        }
    }

    /// Every field shows the run's value again.
    pub open spec fn resynced(self) -> BufferView {
        BufferView {
            locals: Seq::new(self.locals.len(), |j: int| LocalView::fresh()),
            game_field: FieldStatus::Synced,
            category_field: FieldStatus::Synced,
            offset_field: FieldStatus::Synced,
            attempts_field: FieldStatus::Synced,
            ..self
        }
    }

    /// The buffer after the run's histories are cleared by the editor.
    pub open spec fn after_discard_history(self) -> BufferView {
        BufferView { dirty: true, ..self.resynced() }
    }

    /// The buffer after the editor clears the run's times, which resets the
    /// attempt count.
    pub open spec fn after_discard_times(self) -> BufferView {
        BufferView { attempts: 0, dirty: true, ..self.resynced() }
    }
}

impl EditBuffer {
    /// The real-time offset, split and best segment times the editor holds.
    pub closed spec fn times(&self) -> TimesData {
        editor_times(self.editor)
    }

    /// What the editor holds of its run.
    pub closed spec fn data(&self) -> RunData {
        editor_data(self.editor)
    }

    /// Every time the editor's run stores.
    pub closed spec fn values(&self) -> crate::editor::RunValues {
        editor_values(self.editor)
    }

    /// Whether every time the run stores is small enough for the editor to
    /// add them up without overflow.
    pub closed spec fn room(&self) -> bool {
        editor_fits(self.editor)
    }

    /// Whether the run holds no attempt or segment history.
    pub closed spec fn history_cleared(&self) -> bool {
        editor_history_empty(self.editor)
    }

    /// Starts editing `run`, unless it has no segment: every field shows the
    /// run's value, the first segment is selected, and nothing is unsaved.
    pub fn open(run: Run) -> (r: Option<EditBuffer>)
        ensures
            r is None <==> run_names(run).len() == 0,
            match r {
                Some(b) => b@.is_fresh(run_names(run)) && b@.wf() && b.data() == fixed_data(
                    run_data(run),
                ),
                None => true,
            },
    {
        let editor = match open_editor(run) {
            Some(e) => e,
            None => {
                return None;
            },
        };
        let ghost n = editor_names(editor).len();
        let mut locals: Vec<SegmentLocal> = Vec::new();
        let mut texts_editor = editor;
        let count = editor_texts(&mut texts_editor).segments.len();
        let mut j: usize = 0;
        while j < count
            invariant
                j <= count == n,
                locals.len() == j,
                forall|k: int| 0 <= k < j ==> (#[trigger] locals@[k])@ == LocalView::fresh(),
            decreases count - j,
        {
            locals.push(SegmentLocal::fresh());
            j += 1;
        }
        let b = EditBuffer {
            editor: texts_editor,
            locals,
            game_field: FieldState::Synced,
            category_field: FieldState::Synced,
            offset_field: FieldState::Synced,
            attempts_field: FieldState::Synced,
            dirty: false,
        };
        assert(b@.locals =~= Seq::new(n, |j: int| LocalView::fresh()));
        Some(b)
    }

    /// Whether the buffer holds changes that were not committed.
    pub fn dirty(&self) -> (r: bool)
        ensures
            r == self@.dirty,
    {
        self.dirty
    }

    /// A copy of the run as edited so far.
    pub fn run(&self) -> (r: Run)
        ensures
            run_names(r) == self@.names,
            run_data(r) == self.data(),
            run_values(r) == self.values(),
            run_fits(r) == self.room(),
    {
        edited_run(&self.editor)
    }

    /// The number of segments.
    pub fn len(&self) -> (r: usize)
        requires
            self@.wf(),
        ensures
            r == self@.names.len(),
    {
        self.locals.len()
    }

    /// Which segments are selected.
    pub fn selection(&mut self) -> (r: Vec<bool>)
        requires
            old(self)@.wf(),
        ensures
            r@ == old(self)@.selection,
            final(self)@ == old(self)@,
            final(self).data() == old(self).data(),
            final(self).room() == old(self).room(),
    {
        let texts = editor_texts(&mut self.editor);
        let mut r: Vec<bool> = Vec::new();
        let mut j: usize = 0;
        while j < texts.segments.len()
            invariant
                j <= texts.segments.len(),
                r.len() == j,
                texts.segments.len() == old(self)@.selection.len(),
                forall|k: int| 0 <= k < texts.segments.len() ==> (#[trigger] texts.segments@[k]).selected == old(self)@.selection[k],
                forall|k: int| 0 <= k < j ==> r@[k] == texts.segments@[k].selected,
            decreases texts.segments.len() - j,
        {
            r.push(texts.segments[j].selected);
            j += 1;
        }
        assert(r@ =~= old(self)@.selection);
        r
    }

    /// The segment that insertions are relative to.
    pub fn active_index(&mut self) -> (r: usize)
        requires
            old(self)@.wf(),
        ensures
            r == old(self)@.active,
            final(self)@ == old(self)@,
            final(self).data() == old(self).data(),
            final(self).room() == old(self).room(),
    {
        let texts = editor_texts(&mut self.editor);
        let mut j: usize = 0;
        while j < texts.segments.len()
            invariant
                j <= texts.segments.len(),
                texts.segments.len() == old(self)@.names.len(),
                self@ == old(self)@,
                self.data() == old(self).data(),
                self.room() == old(self).room(),
                !(0 <= old(self)@.active < j),
                forall|k: int| 0 <= k < texts.segments.len() ==> (#[trigger] texts.segments@[k]).active == (k == old(self)@.active),
            decreases texts.segments.len() - j,
        {
            if texts.segments[j].active {
                return j;
            }
            j += 1;
        }
        0
    }

    fn field_state(&self, i: usize, kind: FieldKind) -> (r: &FieldState)
        requires
            field_index_ok(self@, i as int, kind),
        ensures
            r@ == self@.field(i as int, kind),
    {
        match kind {
            FieldKind::Name => &self.locals[i].name,
            FieldKind::SplitTime => &self.locals[i].split_time,
            FieldKind::SegmentTime => &self.locals[i].segment_time,
            FieldKind::BestSegmentTime => &self.locals[i].best_segment_time,
            FieldKind::GameName => &self.game_field,
            FieldKind::CategoryName => &self.category_field,
            FieldKind::Offset => &self.offset_field,
            FieldKind::AttemptCount => &self.attempts_field,
        }
    }

    fn put_field_state(&mut self, i: usize, kind: FieldKind, st: FieldState)
        requires
            field_index_ok(old(self)@, i as int, kind),
        ensures
            final(self)@ == old(self)@.with_field(i as int, kind, st@),
            final(self).editor == old(self).editor,
    {
        match kind {
            FieldKind::Name => { self.locals[i].name = st; },
            FieldKind::SplitTime => { self.locals[i].split_time = st; },
            FieldKind::SegmentTime => { self.locals[i].segment_time = st; },
            FieldKind::BestSegmentTime => { self.locals[i].best_segment_time = st; },
            FieldKind::GameName => { self.game_field = st; },
            FieldKind::CategoryName => { self.category_field = st; },
            FieldKind::Offset => { self.offset_field = st; },
            FieldKind::AttemptCount => { self.attempts_field = st; },
        }
        assert(self@.locals =~= old(self)@.with_field(i as int, kind, st@).locals);
    }

    /// Records `text` as typed into field `kind` of segment `i` (the index is
    /// ignored for the run's own fields). The run is not changed.
    pub fn set_field(&mut self, i: usize, kind: FieldKind, text: &str)
        requires
            old(self)@.wf(),
            field_index_ok(old(self)@, i as int, kind),
        ensures
            final(self)@ == old(self)@.after_set(i as int, kind, text@),
            final(self)@.wf(),
            final(self).data() == old(self).data(),
            final(self).room() == old(self).room(),
    {
        self.put_field_state(i, kind, FieldState::Pending(text.to_owned()));
    }

    /// Whether every time the run stores is small enough for the editor to
    /// add them up without overflow.
    pub fn has_room(&self) -> (r: bool)
        ensures
            r == self.room(),
    {
        run_fits_check(&self.run())
    }

    /// Whether the editor's run has room for a segment time read from
    /// `text`: every stored time and the new one are small.
    fn room_for(&self, text: &String) -> (r: bool)
        requires
            editor_ok(self.editor),
            self@.wf(),
        ensures
            r == (self.room() && match parsed_time(text@) {
                Some(t) => small(t, self@.names.len() as int),
                None => true,
            }),
    {
        let run = self.run();
        if !run_fits_check(&run) {
            return false;
        }
        let n = self.locals.len();
        let limit: i128 = TIME_LIMIT / (4 * (n as i128) + 8);
        match parse_time(text.as_str()) {
            Some(Some(t)) => -limit <= t && t <= limit,
            _ => true,
        }
    }

    /// Hands `text` for field `kind` of the active segment to the editor.
    fn store_text(&mut self, kind: FieldKind, text: &String) -> (ok: bool)
        requires
            editor_ok(old(self).editor),
            old(self)@.wf(),
        ensures
            ok == commit_takes(kind, text@, old(self).room(), old(self)@.names.len() as int),
            ok ==> final(self)@ == old(self)@.stored(old(self)@.active, kind, text@)
                && final(self).times() == times_after(old(self).times(), old(self)@.active, kind, text@),
            !ok ==> final(self)@ == old(self)@ && final(self).times() == old(self).times(),
    {
        match kind {
            FieldKind::Name => {
                set_active_name(&mut self.editor, text.as_str());
                true
            },
            FieldKind::GameName => {
                set_game_name(&mut self.editor, text.as_str());
                true
            },
            FieldKind::CategoryName => {
                set_category_name(&mut self.editor, text.as_str());
                true
            },
            FieldKind::SplitTime => parse_and_set_split_time(&mut self.editor, text.as_str()),
            FieldKind::SegmentTime => {
                if !self.room_for(text) {
                    return false;
                }
                parse_and_set_segment_time(&mut self.editor, text.as_str())
            },
            FieldKind::BestSegmentTime => parse_and_set_best_segment_time(
                &mut self.editor,
                text.as_str(),
            ),
            FieldKind::Offset => parse_and_set_offset(&mut self.editor, text.as_str()),
            FieldKind::AttemptCount => parse_and_set_attempt_count(&mut self.editor, text.as_str()),
        }
    }

    /// Commits the text typed into field `kind` of segment `i`; a segment's
    /// field first selects that segment alone. Text the editor takes marks
    /// the buffer dirty. Refused text never changes the run: the first
    /// refusal keeps it for correction, the next one resynchronizes the field.
    pub fn commit_field(&mut self, i: usize, kind: FieldKind) -> (r: FieldCommit)
        requires
            old(self)@.wf(),
            field_index_ok(old(self)@, i as int, kind),
        ensures
            r == old(self)@.commit_outcome(i as int, kind, old(self).room()),
            final(self)@ == old(self)@.after_commit(i as int, kind, old(self).room()),
            final(self)@.wf(),
            final(self).times() == match old(self)@.typed(i as int, kind) {
                Some(t) => if commit_takes(kind, t, old(self).room(), old(self)@.names.len() as int) {
                    times_after(old(self).times(), i as int, kind, t)
                } else {
                    old(self).times()
                },
                None => old(self).times(),
            },
    {
        let (text, was_pending) = match self.field_state(i, kind) {
            FieldState::Synced => {
                return FieldCommit::NothingPending;
            },
            FieldState::Pending(t) => (t.clone(), true),
            FieldState::Rejected(t) => (t.clone(), false),
        };
        if kind.is_per_segment() {
            select_only(&mut self.editor, i);
        }
        if self.store_text(kind, &text) {
            self.put_field_state(i, kind, FieldState::Synced);
            self.dirty = true;
            FieldCommit::Applied
        } else if was_pending {
            self.put_field_state(i, kind, FieldState::Rejected(text));
            FieldCommit::Rejected
        } else {
            self.put_field_state(i, kind, FieldState::Synced);
            FieldCommit::Resynced
        }
    }

    /// The text shown in field `kind` of segment `i`: what the user typed, if
    /// anything, else the editor's text for the run's value.
    pub fn field_text(&mut self, i: usize, kind: FieldKind) -> (r: String)
        requires
            old(self)@.wf(),
            field_index_ok(old(self)@, i as int, kind),
        ensures
            final(self)@ == old(self)@,
            r@ == match old(self)@.typed(i as int, kind) {
                Some(t) => t,
                None => old(self)@.run_text(old(self).times(), i as int, kind),
            },
            final(self).data() == old(self).data(),
            final(self).room() == old(self).room(),
    {
        match self.field_state(i, kind) {
            FieldState::Pending(t) => {
                return t.clone();
            },
            FieldState::Rejected(t) => {
                return t.clone();
            },
            FieldState::Synced => {},
        }
        let texts = editor_texts(&mut self.editor);
        match kind {
            FieldKind::Name => texts.segments[i].name.clone(),
            FieldKind::SplitTime => texts.segments[i].split_time.clone(),
            FieldKind::SegmentTime => texts.segments[i].segment_time.clone(),
            FieldKind::BestSegmentTime => texts.segments[i].best_segment_time.clone(),
            FieldKind::GameName => texts.game,
            FieldKind::CategoryName => texts.category,
            FieldKind::Offset => texts.offset,
            FieldKind::AttemptCount => count_to_text(texts.attempts),
        }
    }

    /// Selects segment `i` alone and makes it active.
    pub fn select_only(&mut self, i: usize)
        requires
            old(self)@.wf(),
            i < old(self)@.names.len(),
        ensures
            final(self)@ == old(self)@.after_select_only(i as int),
            final(self)@.wf(),
            final(self).times() == old(self).times(),
    {
        select_only(&mut self.editor, i);
    }

    /// Selects segment `i` as well and makes it active.
    pub fn select_additionally(&mut self, i: usize)
        requires
            old(self)@.wf(),
            i < old(self)@.names.len(),
        ensures
            final(self)@ == old(self)@.after_select_additionally(i as int),
            final(self)@.wf(),
            final(self).times() == old(self).times(),
    {
        select_additionally(&mut self.editor, i);
    }

    /// Records that the run was published: nothing is unsaved.
    pub(crate) fn mark_clean(&mut self)
        ensures
            final(self)@ == (BufferView { dirty: false, ..old(self)@ }),
            final(self).data() == old(self).data(),
            final(self).room() == old(self).room(),
    {
        self.dirty = false;
    }


    /// Inserts an empty segment above or below the active one; it becomes
    /// the only selected segment, and active.
    pub fn insert_segment(&mut self, pos: Position)
        requires
            old(self)@.wf(),
        ensures
            final(self)@ == old(self)@.after_insert(pos),
            final(self)@.wf(),
    {
        let a = self.active_index();
        let ghost v0 = self@;
        assert(self@.locals.len() == self.locals.len());
        let p = match pos {
            Position::Above => a,
            Position::Below => a + 1,
        };
        match pos {
            Position::Above => insert_segment_above(&mut self.editor),
            Position::Below => insert_segment_below(&mut self.editor),
        }
        self.locals.insert(p, SegmentLocal::fresh());
        self.dirty = true;
        assert(self@.locals =~= v0.locals.insert(p as int, LocalView::fresh()));
    }

    /// The text states of the segments not marked in `sel`, in order.
    fn unselected_locals(&self, sel: &Vec<bool>) -> (r: Vec<SegmentLocal>)
        requires
            sel.len() == self.locals.len(),
        ensures
            r@.map_values(|l: SegmentLocal| l@) == kept(self@.locals, sel@),
    {
        let ghost ls = self@.locals;
        let n = self.locals.len();
        let mut out: Vec<SegmentLocal> = Vec::new();
        let mut j: usize = 0;
        while j < n
            invariant
                j <= n == self.locals.len() == sel.len(),
                ls == self@.locals,
                out@.map_values(|l: SegmentLocal| l@) == kept(ls.take(j as int), sel@),
            decreases n - j,
        {
            proof {
                lemma_kept_step(ls, sel@, j as int);
                assert(ls[j as int] == self.locals@[j as int]@);
            }
            if !sel[j] {
                let ghost o0 = out@;
                out.push(self.locals[j].duplicate());
                assert(out@.map_values(|l: SegmentLocal| l@) =~= o0.map_values(|l: SegmentLocal| l@).push(
                    ls[j as int],
                ));
            }
            j += 1;
        }
        assert(ls.take(n as int) =~= ls);
        out
    }

    /// Removes the selected segments and their text states, unless every
    /// segment is selected. The editor adds up the times of removed
    /// segments, so nothing is done when the run stores times too large.
    pub fn remove_selected_segments(&mut self)
        requires
            old(self)@.wf(),
        ensures
            old(self).room() ==> final(self)@ == old(self)@.after_remove(),
            !old(self).room() ==> final(self)@ == old(self)@ && final(self).data() == old(self).data(),
            final(self)@.wf(),
    {
        if !self.has_room() {
            return;
        }
        let sel = self.selection();
        let ghost v0 = self@;
        let locs = self.unselected_locals(&sel);
        proof {
            lemma_kept_len(v0.names, v0.locals, sel@);
        }
        remove_segments(&mut self.editor);
        if locs.len() > 0 {
            self.locals = locs;
        }
        self.dirty = true;
    }

    /// Exchanges the text states of segments `j` and `j + 1`.
    fn swap_locals(&mut self, j: usize)
        requires
            j + 1 < old(self).locals.len(),
        ensures
            final(self)@ == (BufferView {
                locals: swap_adjacent(old(self)@.locals, j as int),
                ..old(self)@
            }),
            final(self).locals.len() == old(self).locals.len(),
    {
        let loc = self.locals.remove(j + 1);
        self.locals.insert(j, loc);
        assert(self@.locals =~= swap_adjacent(old(self)@.locals, j as int));
    }

    /// Moves every selected segment one place up with its text states,
    /// unless the first segment is selected. The editor recomputes
    /// comparison times by adding neighbouring ones, so nothing is done when
    /// the run stores times too large.
    pub fn move_selected_up(&mut self)
        requires
            old(self)@.wf(),
        ensures
            old(self).room() ==> final(self)@ == old(self)@.after_move_up(),
            !old(self).room() ==> final(self)@ == old(self)@ && final(self).data() == old(self).data(),
            final(self)@.wf(),
    {
        if !self.has_room() {
            return;
        }
        let sel = self.selection();
        let ghost v0 = self@;
        assert(self@.locals.len() == self.locals.len());
        move_segments_up(&mut self.editor);
        self.dirty = true;
        if sel[0] {
            return;
        }
        let ghost mid = self@;
        proof {
            lemma_raised_len(v0.names, v0.selection, v0.names.len() as int);
        }
        let n = self.locals.len();
        let mut j: usize = 1;
        while j < n
            invariant
                1 <= j <= n == self.locals.len() == sel.len(),
                n == v0.locals.len(),
                sel@ == v0.selection,
                self@ == (BufferView { locals: raised(v0.locals, sel@, j as int), ..mid }),
            decreases n - j,
        {
            if sel[j] {
                self.swap_locals(j - 1);
            }
            j += 1;
        }
        assert(self@.locals.len() == self.locals.len());
    }

    /// Moves every selected segment one place down with its text states,
    /// unless the last segment is selected; nothing is done when the run
    /// stores times too large.
    pub fn move_selected_down(&mut self)
        requires
            old(self)@.wf(),
        ensures
            old(self).room() ==> final(self)@ == old(self)@.after_move_down(),
            !old(self).room() ==> final(self)@ == old(self)@ && final(self).data() == old(self).data(),
            final(self)@.wf(),
    {
        if !self.has_room() {
            return;
        }
        let sel = self.selection();
        let ghost v0 = self@;
        assert(self@.locals.len() == self.locals.len());
        move_segments_down(&mut self.editor);
        self.dirty = true;
        let n = self.locals.len();
        if sel[n - 1] {
            return;
        }
        let ghost mid = self@;
        proof {
            lemma_lowered_len(v0.names, v0.selection, 0);
        }
        let mut j: usize = n - 1;
        while j > 0
            invariant
                0 <= j < n == self.locals.len() == sel.len(),
                n == v0.locals.len(),
                sel@ == v0.selection,
                self@ == (BufferView { locals: lowered(v0.locals, sel@, j as int), ..mid }),
            decreases j,
        {
            let k = j - 1;
            if sel[k] {
                self.swap_locals(k);
            }
            j = k;
        }
        assert(self@.locals.len() == self.locals.len());
    }

    /// Drops all typed text: every field shows the run's value again.
    fn resync_fields(&mut self)
        ensures
            final(self)@ == old(self)@.resynced(),
            final(self).editor == old(self).editor,
    {
        let n = self.locals.len();
        let mut locals: Vec<SegmentLocal> = Vec::new();
        let mut j: usize = 0;
        while j < n
            invariant
                j <= n,
                locals.len() == j,
                forall|k: int| 0 <= k < j ==> (#[trigger] locals@[k])@ == LocalView::fresh(),
            decreases n - j,
        {
            locals.push(SegmentLocal::fresh());
            j += 1;
        }
        self.locals = locals;
        self.game_field = FieldState::Synced;
        self.category_field = FieldState::Synced;
        self.offset_field = FieldState::Synced;
        self.attempts_field = FieldState::Synced;
        assert(self@.locals =~= old(self)@.resynced().locals);
    }

    /// Has the editor clear the run's attempt and segment histories; every
    /// field is resynchronized and the buffer marked dirty.
    pub fn discard_history(&mut self)
        requires
            old(self)@.wf(),
        ensures
            final(self)@ == old(self)@.after_discard_history(),
            final(self)@.wf(),
            final(self).history_cleared(),
            final(self).times() == old(self).times(),
    {
        clear_history(&mut self.editor);
        self.resync_fields();
        self.dirty = true;
    }

    /// Has the editor clear the run's times and histories and reset the
    /// attempt count; every field is resynchronized and the buffer marked
    /// dirty.
    pub fn discard_times(&mut self)
        requires
            old(self)@.wf(),
        ensures
            final(self)@ == old(self)@.after_discard_times(),
            final(self)@.wf(),
            final(self).history_cleared(),
            final(self).times() == cleared_times(old(self).times()),
    {
        clear_times(&mut self.editor);
        self.resync_fields();
        self.dirty = true;
    }
}

} // verus!
