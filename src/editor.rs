//! The timing library's run editor, run and timer, as the session sees them:
//! what each holds, named, and the calls made on them, with what the
//! library's source shows they do.

use vstd::prelude::*;
use livesplit_core::run::editor::SelectionState;
use livesplit_core::run::Editor;
use livesplit_core::timing::formatter::{none_wrapper::EmptyWrapper, Accuracy, SegmentTime, TimeFormatter};
use livesplit_core::{Run, Segment, TimeSpan, Timer, TimerPhase as CorePhase};
use crate::count::count_of_text;
use crate::order::{kept, lowered, raised};
use crate::time::{parsed_time, TIME_LIMIT};
use crate::timer::TimerPhase;

verus! {

#[verifier::external_type_specification]
#[verifier::external_body]
pub struct ExEditor(livesplit_core::run::Editor);

#[verifier::external_type_specification]
#[verifier::external_body]
pub struct ExRun(livesplit_core::Run);

#[verifier::external_type_specification]
#[verifier::external_body]
pub struct ExTimer(livesplit_core::Timer);

/// The names of the editor's segments, in order.
pub uninterp spec fn editor_names(e: Editor) -> Seq<Seq<char>>;

/// Which of the editor's segments are selected.
pub uninterp spec fn editor_selection(e: Editor) -> Seq<bool>;

/// The editor's active segment: the one most recently selected.
pub uninterp spec fn editor_active(e: Editor) -> int;

/// The game name of the edited run.
pub uninterp spec fn editor_game(e: Editor) -> Seq<char>;

/// The category name of the edited run.
pub uninterp spec fn editor_category(e: Editor) -> Seq<char>;

/// The attempt count of the edited run.
pub uninterp spec fn editor_attempts(e: Editor) -> u32;

/// The editor's run's real-time offset, personal best split times and
/// best segment times, in nanoseconds.
pub uninterp spec fn editor_times(e: Editor) -> TimesData;

/// Whether the editor's run holds no attempt history and no segment history.
pub uninterp spec fn editor_history_empty(e: Editor) -> bool;

/// The names, metadata and real times of a run.
pub uninterp spec fn run_data(r: Run) -> RunData;

/// Every time a run stores, both timing methods: per segment its
/// comparisons, best segment and segment history; and its attempt history.
pub uninterp spec fn run_values(r: Run) -> RunValues;

/// The names, metadata and real times of the timer's run.
pub uninterp spec fn timer_data(t: Timer) -> RunData;

/// The text the library's editor shows for an optional time: the
/// `SegmentTime` formatter at hundredths, blank for no time.
pub uninterp spec fn time_text(t: Option<i128>) -> Seq<char>;

/// The real-time figures of a run, in nanoseconds.
pub struct TimesData {
    pub offset: i128,
    pub splits: Seq<Option<i128>>,
    pub bests: Seq<Option<i128>>,
}

/// What the session reads of a run.
pub struct RunData {
    pub names: Seq<Seq<char>>,
    pub game: Seq<char>,
    pub category: Seq<char>,
    pub attempts: u32,
    pub times: TimesData,
}

/// Every stored time of a run, in nanoseconds.
pub struct RunValues {
    pub segments: Seq<Seq<Option<i128>>>,
    pub attempts: Seq<Option<i128>>,
}

/// The names of a run's segments.
pub open spec fn run_names(r: Run) -> Seq<Seq<char>> {
    run_data(r).names
}

/// The names of the segments of the timer's run.
pub open spec fn timer_names(t: Timer) -> Seq<Seq<char>> {
    timer_data(t).names
}

/// What the editor holds of its run.
pub open spec fn editor_data(e: Editor) -> RunData {
    RunData {
        names: editor_names(e),
        game: editor_game(e),
        category: editor_category(e),
        attempts: editor_attempts(e),
        times: editor_times(e),
    }
}

/// Whether a time is small enough that the library can add up to `4n + 8`
/// such times of a run with `n` segments without overflow.
pub open spec fn small(v: Option<i128>, n: int) -> bool {
    match v {
        Some(t) => -((TIME_LIMIT as int) / (4 * n + 8)) <= t <= (TIME_LIMIT as int) / (4 * n + 8),
        None => true,
    }
}

/// Whether every stored time of a run with `n` segments is small.
pub open spec fn values_fit(v: RunValues, n: int) -> bool {
    &&& forall|i: int, j: int|
        0 <= i < v.segments.len() && 0 <= j < v.segments[i].len() ==> small(
            #[trigger] v.segments[i][j],
            n,
        )
    &&& forall|j: int| 0 <= j < v.attempts.len() ==> small(#[trigger] v.attempts[j], n)
}

/// Whether the library can combine the times of `r` without overflow.
pub open spec fn run_fits(r: Run) -> bool {
    run_data(r).names.len() == run_values(r).segments.len() && values_fit(
        run_values(r),
        run_data(r).names.len() as int,
    )
}

/// Split times with each one raised to the latest one before it, starting
/// from zero: what fixing a run does to its personal best.
pub open spec fn raise_splits(s: Seq<Option<i128>>, floor: i128) -> Seq<Option<i128>>
    decreases s.len(),
{
    if s.len() == 0 {
        s
    } else {
        match s[0] {
            Some(t) => {
                let u = if t < floor { floor } else { t };
                seq![Some(u)] + raise_splits(s.drop_first(), u)
            },
            None => seq![None::<i128>] + raise_splits(s.drop_first(), floor),
        }
    }
}

/// The split time segment `i` starts from: the latest earlier split, or zero.
pub open spec fn start_of(s: Seq<Option<i128>>, i: int) -> int
    decreases i,
{
    if i <= 0 {
        0
    } else {
        match s[i - 1] {
            Some(t) => t as int,
            None => start_of(s, i - 1),
        }
    }
}

/// The segment times that split times give.
pub open spec fn segment_times(s: Seq<Option<i128>>) -> Seq<Option<int>> {
    Seq::new(s.len(), |i: int| match s[i] {
        Some(t) => Some(t - start_of(s, i)),
        None => None,
    })
}

/// The split times that segment times give, each counted from the latest
/// earlier split.
pub open spec fn splits_from(g: Seq<Option<int>>, from: int) -> Seq<Option<int>>
    decreases g.len(),
{
    if g.len() == 0 {
        Seq::empty()
    } else {
        match g[0] {
            Some(d) => seq![Some(from + d)] + splits_from(g.drop_first(), from + d),
            None => seq![None::<int>] + splits_from(g.drop_first(), from),
        }
    }
}

/// Best segment times after fixing: none negative, and none slower than
/// the personal best's own segment.
pub open spec fn fix_bests(splits: Seq<Option<i128>>, bests: Seq<Option<i128>>) -> Seq<Option<i128>> {
    Seq::new(bests.len(), |i: int| {
        let b = match bests[i] {
            Some(t) => if t < 0 {
                None
            } else {
                Some(t)
            },
            None => None,
        };
        match segment_times(splits)[i] {
            Some(g) => match b {
                Some(t) => if t > g {
                    Some(g as i128)
                } else {
                    Some(t)
                },
                None => Some(g as i128),
            },
            None => b,
        }
    })
}

/// Times as fixing a run leaves them: `Run::fix_splits` on the personal
/// best and the best segments.
pub open spec fn fixed(t: TimesData) -> TimesData {
    let s = raise_splits(t.splits, 0);
    TimesData { offset: t.offset, splits: s, bests: fix_bests(s, t.bests) }
}

/// `d` with fixed times.
pub open spec fn fixed_data(d: RunData) -> RunData {
    RunData { times: fixed(d.times), ..d }
}

/// The timer's phase.
pub uninterp spec fn timer_phase(t: Timer) -> TimerPhase;

/// A mask of `n` places with only place `i` marked.
pub open spec fn only(n: int, i: int) -> Seq<bool> {
    Seq::new(n as nat, |j: int| j == i)
}

/// What an editor always holds: a segment, one selection flag per segment,
/// and a selected active segment.
pub open spec fn editor_ok(e: Editor) -> bool {
    let n = editor_names(e).len();
    &&& n > 0
    &&& editor_selection(e).len() == n
    &&& 0 <= editor_active(e) < n
    &&& editor_selection(e)[editor_active(e)]
}

/// Whether the library takes `text` as a split, segment or best segment
/// time: blank (no time) or a time that is not negative.
pub open spec fn time_accepted(text: Seq<char>) -> bool {
    match parsed_time(text) {
        Some(None) => true,
        Some(Some(t)) => t >= 0,
        None => false,
    }
}

/// Whether the library takes `text` as an offset: any time, not blank.
pub open spec fn offset_accepted(text: Seq<char>) -> bool {
    match parsed_time(text) {
        Some(Some(_)) => true,
        _ => false,
    }
}

/// Every stored time of the editor's run, as `run_values` has it.
pub uninterp spec fn editor_values(e: Editor) -> RunValues;

/// Whether the library can combine the times of the editor's run without
/// overflow.
pub open spec fn editor_fits(e: Editor) -> bool {
    editor_values(e).segments.len() == editor_names(e).len() && values_fit(
        editor_values(e),
        editor_names(e).len() as int,
    )
}

/// Optional nanosecond counts as `i128`.
pub open spec fn as_times(g: Seq<Option<int>>) -> Seq<Option<i128>> {
    Seq::new(g.len(), |i: int| match g[i] {
        Some(t) => Some(t as i128),
        None => None,
    })
}

/// The editor's times after segment `i` is given segment time `t`: every
/// split is recomputed from the segment times, then the run is fixed.
pub open spec fn with_segment_time(times: TimesData, i: int, t: Option<i128>) -> TimesData {
    let g = segment_times(times.splits).update(
        i,
        match t {
            Some(d) => Some(d as int),
            None => None,
        },
    );
    fixed(TimesData { splits: as_times(splits_from(g, 0)), ..times })
}

/// Whether the metadata, names and selection of two editors agree.
pub open spec fn same_shape(a: Editor, b: Editor) -> bool {
    &&& editor_names(a) == editor_names(b)
    &&& editor_selection(a) == editor_selection(b)
    &&& editor_active(a) == editor_active(b)
    &&& editor_game(a) == editor_game(b)
    &&& editor_category(a) == editor_category(b)
    &&& editor_attempts(a) == editor_attempts(b)
}

/// Whether two editors hold the same segments, selection and metadata.
pub open spec fn same_model(a: Editor, b: Editor) -> bool {
    &&& editor_names(a) == editor_names(b)
    &&& editor_selection(a) == editor_selection(b)
    &&& editor_active(a) == editor_active(b)
    &&& editor_game(a) == editor_game(b)
    &&& editor_category(a) == editor_category(b)
    &&& editor_attempts(a) == editor_attempts(b)
    &&& editor_times(a) == editor_times(b)
}

/// The texts the editor shows for one segment.
pub struct SegmentTexts {
    pub name: String,
    pub split_time: String,
    pub segment_time: String,
    pub best_segment_time: String,
    pub selected: bool,
    pub active: bool,
}

/// The texts the editor shows for its run.
pub struct EditorTexts {
    pub game: String,
    pub category: String,
    pub offset: String,
    pub attempts: u32,
    pub segments: Vec<SegmentTexts>,
}

/// The segment time text of segment `i`.
pub open spec fn segment_text(times: TimesData, i: int) -> Seq<char> {
    time_text(as_times(segment_times(times.splits))[i])
}

/// Relies on `Editor::new`, which refuses a run without segments and
/// otherwise fixes its splits and selects only the first segment.
#[verifier::external_body]
pub(crate) fn open_editor(run: Run) -> (r: Option<Editor>)
    ensures
        r is None <==> run_names(run).len() == 0,
        match r {
            Some(e) => editor_data(e) == fixed_data(run_data(run)) && editor_selection(e) == only(
                run_names(run).len() as int,
                0,
            ) && editor_active(e) == 0,
            None => true,
        },
{
    Editor::new(run).ok()
}

/// Relies on `Editor::state`, which formats the run for display with the
/// `SegmentTime` formatter at hundredths and changes nothing the session reads.
#[verifier::external_body]
pub(crate) fn editor_texts(e: &mut Editor) -> (r: EditorTexts)
    ensures
        same_model(*final(e), *old(e)),
        editor_history_empty(*final(e)) == editor_history_empty(*old(e)),
        editor_values(*final(e)) == editor_values(*old(e)),
        r.segments.len() == editor_names(*old(e)).len(),
        r.game@ == editor_game(*old(e)),
        r.category@ == editor_category(*old(e)),
        r.attempts == editor_attempts(*old(e)),
        r.offset@ == time_text(Some(editor_times(*old(e)).offset)),
        forall|i: int| 0 <= i < r.segments.len() ==> {
            &&& (#[trigger] r.segments@[i]).name@ == editor_names(*old(e))[i]
            &&& r.segments@[i].selected == editor_selection(*old(e))[i]
            &&& r.segments@[i].active == (i == editor_active(*old(e)))
            &&& r.segments@[i].split_time@ == time_text(editor_times(*old(e)).splits[i])
            &&& r.segments@[i].segment_time@ == segment_text(editor_times(*old(e)), i)
            &&& r.segments@[i].best_segment_time@ == time_text(editor_times(*old(e)).bests[i])
        },
{
    let s = e.state();
    let segments = s.segments.into_iter().map(|g| SegmentTexts {
        selected: g.selected.is_selected_or_active(),
        active: matches!(g.selected, SelectionState::Active),
        name: g.name,
        split_time: g.split_time,
        segment_time: g.segment_time,
        best_segment_time: g.best_segment_time,
    }).collect();
    EditorTexts { game: s.game, category: s.category, offset: s.offset, attempts: s.attempts, segments }
}

/// Relies on `Editor::select_only`: segment `i` alone is selected, and active.
#[verifier::external_body]
pub(crate) fn select_only(e: &mut Editor, i: usize)
    requires
        editor_ok(*old(e)),
        i < editor_names(*old(e)).len(),
    ensures
        editor_names(*final(e)) == editor_names(*old(e)),
        editor_selection(*final(e)) == only(editor_names(*old(e)).len() as int, i as int),
        editor_active(*final(e)) == i,
        editor_game(*final(e)) == editor_game(*old(e)),
        editor_category(*final(e)) == editor_category(*old(e)),
        editor_attempts(*final(e)) == editor_attempts(*old(e)),
        editor_times(*final(e)) == editor_times(*old(e)),
        editor_values(*final(e)) == editor_values(*old(e)),
        editor_history_empty(*final(e)) == editor_history_empty(*old(e)),
{
    e.select_only(i)
}

/// Relies on `Editor::select_additionally`: segment `i` is selected as
/// well, and active.
#[verifier::external_body]
pub(crate) fn select_additionally(e: &mut Editor, i: usize)
    requires
        editor_ok(*old(e)),
        i < editor_names(*old(e)).len(),
    ensures
        editor_names(*final(e)) == editor_names(*old(e)),
        editor_selection(*final(e)) == editor_selection(*old(e)).update(i as int, true),
        editor_active(*final(e)) == i,
        editor_game(*final(e)) == editor_game(*old(e)),
        editor_category(*final(e)) == editor_category(*old(e)),
        editor_attempts(*final(e)) == editor_attempts(*old(e)),
        editor_times(*final(e)) == editor_times(*old(e)),
        editor_values(*final(e)) == editor_values(*old(e)),
        editor_history_empty(*final(e)) == editor_history_empty(*old(e)),
{
    e.select_additionally(i)
}

/// Relies on `Editor::set_game_name`.
#[verifier::external_body]
pub(crate) fn set_game_name(e: &mut Editor, text: &str)
    ensures
        editor_game(*final(e)) == text@,
        editor_names(*final(e)) == editor_names(*old(e)),
        editor_selection(*final(e)) == editor_selection(*old(e)),
        editor_active(*final(e)) == editor_active(*old(e)),
        editor_category(*final(e)) == editor_category(*old(e)),
        editor_attempts(*final(e)) == editor_attempts(*old(e)),
        editor_times(*final(e)) == editor_times(*old(e)),
        editor_values(*final(e)) == editor_values(*old(e)),
        editor_history_empty(*final(e)) == editor_history_empty(*old(e)),
{
    e.set_game_name(text)
}

/// Relies on `Editor::set_category_name`.
#[verifier::external_body]
pub(crate) fn set_category_name(e: &mut Editor, text: &str)
    ensures
        editor_category(*final(e)) == text@,
        editor_names(*final(e)) == editor_names(*old(e)),
        editor_selection(*final(e)) == editor_selection(*old(e)),
        editor_active(*final(e)) == editor_active(*old(e)),
        editor_game(*final(e)) == editor_game(*old(e)),
        editor_attempts(*final(e)) == editor_attempts(*old(e)),
        editor_times(*final(e)) == editor_times(*old(e)),
        editor_values(*final(e)) == editor_values(*old(e)),
        editor_history_empty(*final(e)) == editor_history_empty(*old(e)),
{
    e.set_category_name(text)
}

/// Relies on `Editor::parse_and_set_offset`, which reads the text with
/// `TimeSpan::from_str` (it succeeds exactly when `TimeSpan::parse_opt`
/// finds a time) and stores it as the offset, touching nothing else.
#[verifier::external_body]
pub(crate) fn parse_and_set_offset(e: &mut Editor, text: &str) -> (r: bool)
    ensures
        r == offset_accepted(text@),
        r ==> parsed_time(text@) is Some,
        same_shape(*final(e), *old(e)),
        editor_values(*final(e)) == editor_values(*old(e)),
        editor_history_empty(*final(e)) == editor_history_empty(*old(e)),
        editor_times(*final(e)) == (if r {
            TimesData { offset: parsed_time(text@).unwrap().unwrap(), ..editor_times(*old(e)) }
        } else {
            editor_times(*old(e))
        }),
{
    e.parse_and_set_offset(text).is_ok()
}

/// Relies on `Editor::parse_and_set_attempt_count`, which reads the text
/// as a `u32`.
#[verifier::external_body]
pub(crate) fn parse_and_set_attempt_count(e: &mut Editor, text: &str) -> (r: bool)
    ensures
        r == count_of_text(text@) is Some,
        editor_attempts(*final(e)) == match count_of_text(text@) {
            Some(n) => n,
            None => editor_attempts(*old(e)),
        },
        editor_names(*final(e)) == editor_names(*old(e)),
        editor_selection(*final(e)) == editor_selection(*old(e)),
        editor_active(*final(e)) == editor_active(*old(e)),
        editor_game(*final(e)) == editor_game(*old(e)),
        editor_category(*final(e)) == editor_category(*old(e)),
        editor_times(*final(e)) == editor_times(*old(e)),
        editor_values(*final(e)) == editor_values(*old(e)),
        editor_history_empty(*final(e)) == editor_history_empty(*old(e)),
{
    e.parse_and_set_attempt_count(text).is_ok()
}

/// Relies on `SegmentRow::set_name` on the active segment.
#[verifier::external_body]
pub(crate) fn set_active_name(e: &mut Editor, text: &str)
    requires
        editor_ok(*old(e)),
    ensures
        editor_names(*final(e)) == editor_names(*old(e)).update(editor_active(*old(e)), text@),
        editor_selection(*final(e)) == editor_selection(*old(e)),
        editor_active(*final(e)) == editor_active(*old(e)),
        editor_game(*final(e)) == editor_game(*old(e)),
        editor_category(*final(e)) == editor_category(*old(e)),
        editor_attempts(*final(e)) == editor_attempts(*old(e)),
        editor_times(*final(e)) == editor_times(*old(e)),
        editor_values(*final(e)) == editor_values(*old(e)),
        editor_history_empty(*final(e)) == editor_history_empty(*old(e)),
{
    e.active_segment().set_name(text)
}

/// Relies on `SegmentRow::parse_and_set_split_time` on the active segment,
/// which takes blank text or a time that is not negative, stores it as the
/// personal best split and fixes the run; refused text changes nothing.
#[verifier::external_body]
pub(crate) fn parse_and_set_split_time(e: &mut Editor, text: &str) -> (r: bool)
    requires
        editor_ok(*old(e)),
    ensures
        r == time_accepted(text@),
        same_shape(*final(e), *old(e)),
        r ==> editor_times(*final(e)) == fixed(
            TimesData {
                splits: editor_times(*old(e)).splits.update(
                    editor_active(*old(e)),
                    parsed_time(text@).unwrap(),
                ),
                ..editor_times(*old(e))
            },
        ),
        !r ==> same_model(*final(e), *old(e)) && editor_values(*final(e)) == editor_values(
            *old(e),
        ),
{
    e.active_segment().parse_and_set_split_time(text).is_ok()
}

/// Relies on `SegmentRow::parse_and_set_segment_time` on the active
/// segment: blank text or a time that is not negative becomes its segment
/// time, every split is recomputed from the segment times by adding them
/// up, and the run is fixed; refused text changes nothing. The sums stay
/// in range when every stored time is small.
#[verifier::external_body]
pub(crate) fn parse_and_set_segment_time(e: &mut Editor, text: &str) -> (r: bool)
    requires
        editor_ok(*old(e)),
        editor_fits(*old(e)),
        match parsed_time(text@) {
            Some(t) => small(t, editor_names(*old(e)).len() as int),
            None => true,
        },
    ensures
        r == time_accepted(text@),
        same_shape(*final(e), *old(e)),
        r ==> editor_times(*final(e)) == with_segment_time(
            editor_times(*old(e)),
            editor_active(*old(e)),
            parsed_time(text@).unwrap(),
        ),
        !r ==> same_model(*final(e), *old(e)) && editor_values(*final(e)) == editor_values(
            *old(e),
        ),
{
    e.active_segment().parse_and_set_segment_time(text).is_ok()
}

/// Relies on `SegmentRow::parse_and_set_best_segment_time` on the active
/// segment, which takes blank text or a time that is not negative, stores
/// it and fixes the run; refused text changes nothing.
#[verifier::external_body]
pub(crate) fn parse_and_set_best_segment_time(e: &mut Editor, text: &str) -> (r: bool)
    requires
        editor_ok(*old(e)),
    ensures
        r == time_accepted(text@),
        same_shape(*final(e), *old(e)),
        r ==> editor_times(*final(e)) == fixed(
            TimesData {
                bests: editor_times(*old(e)).bests.update(
                    editor_active(*old(e)),
                    parsed_time(text@).unwrap(),
                ),
                ..editor_times(*old(e))
            },
        ),
        !r ==> same_model(*final(e), *old(e)) && editor_values(*final(e)) == editor_values(
            *old(e),
        ),
{
    e.active_segment().parse_and_set_best_segment_time(text).is_ok()
}

/// Where `insert_segment_above` (`below` false) or `_below` puts the new segment.
pub open spec fn insert_place(e: Editor, below: bool) -> int {
    if below {
        editor_active(e) + 1
    } else {
        editor_active(e)
    }
}

/// What inserting an empty segment next to the active one leaves: the new
/// segment is the only one selected, and active.
pub open spec fn inserted(old: Editor, new: Editor, below: bool) -> bool {
    let p = insert_place(old, below);
    &&& editor_names(new) == editor_names(old).insert(p, Seq::empty())
    &&& editor_selection(new) == only(editor_names(old).len() + 1 as int, p)
    &&& editor_active(new) == p
    &&& editor_game(new) == editor_game(old)
    &&& editor_category(new) == editor_category(old)
    &&& editor_attempts(new) == editor_attempts(old)
}

/// Relies on `Editor::insert_segment_above`.
#[verifier::external_body]
pub(crate) fn insert_segment_above(e: &mut Editor)
    requires
        editor_ok(*old(e)),
    ensures
        inserted(*old(e), *final(e), false),
{
    e.insert_segment_above()
}

/// Relies on `Editor::insert_segment_below`.
#[verifier::external_body]
pub(crate) fn insert_segment_below(e: &mut Editor)
    requires
        editor_ok(*old(e)),
    ensures
        inserted(*old(e), *final(e), true),
{
    e.insert_segment_below()
}

/// The active segment after the segments marked in `sel` are removed: the
/// first remaining one from the old active segment on, or else the last one.
pub open spec fn active_after_removal(names: Seq<Seq<char>>, sel: Seq<bool>, active: int) -> int {
    let left = kept(names, sel).len() as int;
    let before = kept(sel.take(active), sel).len() as int;
    if before >= left {
        left - 1
    } else {
        before
    }
}

/// The active segment after the editor's selected segments are removed.
pub open spec fn active_after_remove(e: Editor) -> int {
    active_after_removal(editor_names(e), editor_selection(e), editor_active(e))
}

/// Relies on `Editor::remove_segments`: unless every segment is selected,
/// the selected ones go and the rest keep their order. Each removed
/// segment's best segment and history times are added to the next
/// segment's; the sums stay in range when every stored time is small.
#[verifier::external_body]
pub(crate) fn remove_segments(e: &mut Editor)
    requires
        editor_ok(*old(e)),
        editor_fits(*old(e)),
    ensures
        kept(editor_names(*old(e)), editor_selection(*old(e))).len() == 0 ==> same_model(
            *final(e),
            *old(e),
        ),
        kept(editor_names(*old(e)), editor_selection(*old(e))).len() > 0 ==> {
            &&& editor_names(*final(e)) == kept(editor_names(*old(e)), editor_selection(*old(e)))
            &&& editor_selection(*final(e)) == only(
                editor_names(*final(e)).len() as int,
                active_after_remove(*old(e)),
            )
            &&& editor_active(*final(e)) == active_after_remove(*old(e))
            &&& editor_game(*final(e)) == editor_game(*old(e))
            &&& editor_category(*final(e)) == editor_category(*old(e))
            &&& editor_attempts(*final(e)) == editor_attempts(*old(e))
        },
{
    e.remove_segments()
}

/// Relies on `Editor::move_segments_up`: unless the first segment is
/// selected, each selected segment, in order, changes places with the one
/// above it, and the selection moves along. Comparison times are
/// recomputed by adding and subtracting neighbouring times; they stay in
/// range when every stored time is small.
#[verifier::external_body]
pub(crate) fn move_segments_up(e: &mut Editor)
    requires
        editor_ok(*old(e)),
        editor_fits(*old(e)),
    ensures
        editor_selection(*old(e))[0] ==> same_model(*final(e), *old(e)),
        !editor_selection(*old(e))[0] ==> {
            let n = editor_names(*old(e)).len() as int;
            let sel = editor_selection(*old(e));
            &&& editor_names(*final(e)) == raised(editor_names(*old(e)), sel, n)
            &&& editor_selection(*final(e)) == Seq::new(n as nat, |j: int| j + 1 < n && sel[j + 1])
            &&& editor_active(*final(e)) == editor_active(*old(e)) - 1
            &&& editor_game(*final(e)) == editor_game(*old(e))
            &&& editor_category(*final(e)) == editor_category(*old(e))
            &&& editor_attempts(*final(e)) == editor_attempts(*old(e))
        },
{
    e.move_segments_up()
}

/// Relies on `Editor::move_segments_down`: unless the last segment is
/// selected, each selected segment, from the bottom, changes places with
/// the one below it, and the selection moves along. Comparison times are
/// recomputed as when moving up.
#[verifier::external_body]
pub(crate) fn move_segments_down(e: &mut Editor)
    requires
        editor_ok(*old(e)),
        editor_fits(*old(e)),
    ensures
        editor_selection(*old(e)).last() ==> same_model(*final(e), *old(e)),
        !editor_selection(*old(e)).last() ==> {
            let n = editor_names(*old(e)).len() as int;
            let sel = editor_selection(*old(e));
            &&& editor_names(*final(e)) == lowered(editor_names(*old(e)), sel, 0)
            &&& editor_selection(*final(e)) == Seq::new(n as nat, |j: int| j > 0 && sel[j - 1])
            &&& editor_active(*final(e)) == editor_active(*old(e)) + 1
            &&& editor_game(*final(e)) == editor_game(*old(e))
            &&& editor_category(*final(e)) == editor_category(*old(e))
            &&& editor_attempts(*final(e)) == editor_attempts(*old(e))
        },
{
    e.move_segments_down()
}

/// Relies on `Editor::clear_history`, which clears the attempt and segment
/// histories only.
#[verifier::external_body]
pub(crate) fn clear_history(e: &mut Editor)
    ensures
        same_model(*final(e), *old(e)),
        editor_history_empty(*final(e)),
{
    e.clear_history()
}

/// Relies on `Editor::clear_times`: histories, personal best and other
/// comparison times and best segments are cleared and the attempt count
/// set to 0; names and the offset stay.
#[verifier::external_body]
pub(crate) fn clear_times(e: &mut Editor)
    ensures
        editor_attempts(*final(e)) == 0,
        editor_history_empty(*final(e)),
        editor_names(*final(e)) == editor_names(*old(e)),
        editor_selection(*final(e)) == editor_selection(*old(e)),
        editor_active(*final(e)) == editor_active(*old(e)),
        editor_game(*final(e)) == editor_game(*old(e)),
        editor_category(*final(e)) == editor_category(*old(e)),
        editor_times(*final(e)) == cleared_times(editor_times(*old(e))),
{
    e.clear_times()
}

/// Times with every split and best segment cleared.
pub open spec fn cleared_times(t: TimesData) -> TimesData {
    TimesData {
        offset: t.offset,
        splits: Seq::new(t.splits.len(), |i: int| None::<i128>),
        bests: Seq::new(t.bests.len(), |i: int| None::<i128>),
    }
}

/// Relies on `Editor::run` and `Run::clone`.
#[verifier::external_body]
pub(crate) fn edited_run(e: &Editor) -> (r: Run)
    ensures
        run_data(r) == editor_data(*e),
        run_values(r) == editor_values(*e),
{
    e.run().clone()
}

/// Relies on `Run::clone`.
#[verifier::external_body]
pub(crate) fn copy_run(run: &Run) -> (r: Run)
    ensures
        run_data(r) == run_data(*run),
        run_values(r) == run_values(*run),
{
    run.clone()
}

/// Relies on `Run::len`, which counts the segments.
#[verifier::external_body]
pub(crate) fn run_len(run: &Run) -> (r: usize)
    ensures
        r == run_data(*run).names.len(),
        r == run_values(*run).segments.len(),
{
    run.len()
}

/// Relies on `Run::custom_comparisons`, `Segment::comparison`,
/// `best_segment_time` and `segment_history`: every time segment `i`
/// stores, both timing methods, in nanoseconds.
#[verifier::external_body]
pub(crate) fn segment_values(run: &Run, i: usize) -> (r: Vec<Option<i128>>)
    requires
        i < run_values(*run).segments.len(),
    ensures
        r@ == run_values(*run).segments[i as int],
{
    let s = &run.segments()[i];
    let mut times: Vec<_> = run.custom_comparisons().iter().map(|c| s.comparison(c)).collect();
    times.push(s.best_segment_time());
    times.extend(s.segment_history().iter().map(|p| p.1));
    times.iter().flat_map(|t| [t.real_time, t.game_time])
        .map(|o| o.map(|x| x.to_duration().whole_nanoseconds())).collect()
}

/// Relies on `Run::attempt_history` and `Attempt::time`: every attempt
/// time, both timing methods, in nanoseconds.
#[verifier::external_body]
pub(crate) fn attempt_values(run: &Run) -> (r: Vec<Option<i128>>)
    ensures
        r@ == run_values(*run).attempts,
{
    run.attempt_history().iter().flat_map(|a| [a.time().real_time, a.time().game_time])
        .map(|o| o.map(|x| x.to_duration().whole_nanoseconds())).collect()
}

/// Relies on `Run::new`: no segments, blank names, no attempts, zero offset.
#[verifier::external_body]
pub(crate) fn new_run() -> (r: Run)
    ensures
        run_data(r) == (RunData {
            names: Seq::empty(),
            game: Seq::empty(),
            category: Seq::empty(),
            attempts: 0,
            times: TimesData { offset: 0, splits: Seq::empty(), bests: Seq::empty() },
        }),
{
    Run::new()
}

/// Relies on `Run::set_game_name`.
#[verifier::external_body]
pub(crate) fn run_set_game_name(run: &mut Run, name: &str)
    ensures
        run_data(*final(run)) == (RunData { game: name@, ..run_data(*old(run)) }),
{
    run.set_game_name(name)
}

/// Relies on `Run::set_category_name`.
#[verifier::external_body]
pub(crate) fn run_set_category_name(run: &mut Run, name: &str)
    ensures
        run_data(*final(run)) == (RunData { category: name@, ..run_data(*old(run)) }),
{
    run.set_category_name(name)
}

/// Relies on `Run::push_segment` with `Segment::new(name)`: a segment
/// without times.
#[verifier::external_body]
pub(crate) fn push_segment(run: &mut Run, name: &str)
    ensures
        run_data(*final(run)) == (RunData {
            names: run_data(*old(run)).names.push(name@),
            times: TimesData {
                splits: run_data(*old(run)).times.splits.push(None),
                bests: run_data(*old(run)).times.bests.push(None),
                ..run_data(*old(run)).times
            },
            ..run_data(*old(run))
        }),
{
    run.push_segment(Segment::new(name))
}

/// Relies on `Timer::current_phase`.
#[verifier::external_body]
pub(crate) fn current_phase(t: &Timer) -> (r: TimerPhase)
    ensures
        r == timer_phase(*t),
{
    match t.current_phase() {
        CorePhase::NotRunning => TimerPhase::NotRunning,
        CorePhase::Running => TimerPhase::Running,
        CorePhase::Ended => TimerPhase::Ended,
        CorePhase::Paused => TimerPhase::Paused,
    }
}

/// Relies on `Timer::run` and `Run::clone`; a timer only ever holds a run
/// with segments (`Timer::new` and `Timer::replace_run` refuse others).
#[verifier::external_body]
pub(crate) fn timer_run(t: &Timer) -> (r: Run)
    ensures
        run_data(r) == timer_data(*t),
        run_names(r).len() > 0,
{
    t.run().clone()
}

/// Relies on `Timer::replace_run`: a run without segments is handed back
/// and the timer left alone. Otherwise the attempt is reset (which updates
/// the previous run only with `update_splits` and an attempt under way),
/// the run is fixed and its comparisons regenerated, which adds up its
/// times (in range when every stored time is small), and the previous run
/// is handed back.
#[verifier::external_body]
pub(crate) fn replace_timer_run(t: &mut Timer, run: Run, update_splits: bool) -> (r: Result<Run, Run>)
    requires
        run_fits(run),
    ensures
        match r {
            Ok(prev) => run_names(run).len() > 0 && timer_data(*final(t)) == fixed_data(
                run_data(run),
            ) && ((!update_splits || timer_phase(*old(t)) == TimerPhase::NotRunning) ==> run_data(
                prev,
            ) == timer_data(*old(t))),
            Err(back) => run_names(run).len() == 0 && run_data(back) == run_data(run)
                && timer_data(*final(t)) == timer_data(*old(t)) && timer_phase(*final(t))
                == timer_phase(*old(t)),
        },
{
    t.replace_run(run, update_splits)
}

/// Whether the library can combine the times of `run` without overflow.
pub fn run_fits_check(run: &Run) -> (r: bool)
    ensures
        r == run_fits(*run),
{
    let n = run_len(run);
    let limit: i128 = TIME_LIMIT / (4 * (n as i128) + 8);
    let mut i: usize = 0;
    while i < n
        invariant
            i <= n == run_values(*run).segments.len() == run_data(*run).names.len(),
            limit == (TIME_LIMIT as int) / (4 * n + 8),
            forall|k: int, j: int|
                0 <= k < i && 0 <= j < run_values(*run).segments[k].len() ==> small(
                    #[trigger] run_values(*run).segments[k][j],
                    n as int,
                ),
        decreases n - i,
    {
        let vals = segment_values(run, i);
        let mut j: usize = 0;
        while j < vals.len()
            invariant
                i < n == run_values(*run).segments.len(),
                limit == (TIME_LIMIT as int) / (4 * n + 8),
                vals@ == run_values(*run).segments[i as int],
                j <= vals.len(),
                forall|m: int| 0 <= m < j ==> small(#[trigger] vals@[m], n as int),
            decreases vals.len() - j,
        {
            match vals[j] {
                Some(t) => {
                    if t < -limit || t > limit {
                        assert(!small(run_values(*run).segments[i as int][j as int], n as int));
                        return false;
                    }
                },
                None => {},
            }
            j += 1;
        }
        i += 1;
    }
    let vals = attempt_values(run);
    let mut j: usize = 0;
    while j < vals.len()
        invariant
            n == run_values(*run).segments.len() == run_data(*run).names.len(),
            limit == (TIME_LIMIT as int) / (4 * n + 8),
            vals@ == run_values(*run).attempts,
            j <= vals.len(),
            forall|m: int| 0 <= m < j ==> small(#[trigger] vals@[m], n as int),
            forall|k: int, m: int|
                0 <= k < n && 0 <= m < run_values(*run).segments[k].len() ==> small(
                    #[trigger] run_values(*run).segments[k][m],
                    n as int,
                ),
        decreases vals.len() - j,
    {
        match vals[j] {
            Some(t) => {
                if t < -limit || t > limit {
                    assert(!small(run_values(*run).attempts[j as int], n as int));
                    return false;
                }
            },
            None => {},
        }
        j += 1;
    }
    true
}

/// The run used when no splits file can be loaded: an untitled game and
/// category with a single segment called "Time".
pub fn default_run() -> (r: Run)
    ensures
        run_names(r) == seq!["Time"@],
        run_data(r).game == "untitled"@,
        run_data(r).category == "untitled"@,
        run_data(r).attempts == 0,
{
    let mut run = new_run();
    run_set_game_name(&mut run, "untitled");
    run_set_category_name(&mut run, "untitled");
    push_segment(&mut run, "Time");
    assert(run_names(run) =~= seq!["Time"@]);
    run
}

} // verus!
