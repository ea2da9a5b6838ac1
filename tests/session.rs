use livesplit_core::{Run, Segment, TimeSpan, Timer};
use lsod::buffer::{EditBuffer, FieldCommit, Position};
use lsod::editor::default_run;
use lsod::field::FieldKind;
use lsod::session::{
    begin_edit, close, commit, discard, install_loaded_run, request_discard_confirmation,
    CloseAnswer, CommitError, EditorUnavailable, PersistOutcome,
};

fn three_segment_run() -> Run {
    let mut run = Run::new();
    run.set_game_name("Game");
    run.set_category_name("Any%");
    run.set_attempt_count(5);
    run.push_segment(Segment::new("Start"));
    run.push_segment(Segment::new("Middle"));
    run.push_segment(Segment::new("End"));
    run
}

fn timer_with(run: Run) -> Timer {
    Timer::new(run).unwrap()
}

fn names(run: &Run) -> Vec<String> {
    run.segments().iter().map(|s| s.name().to_string()).collect()
}

fn split(run: &Run, i: usize) -> Option<TimeSpan> {
    run.segments()[i].personal_best_split_time().real_time
}

fn best(run: &Run, i: usize) -> Option<TimeSpan> {
    run.segments()[i].best_segment_time().real_time
}

fn time(text: &str) -> TimeSpan {
    text.parse().unwrap()
}

fn edit(buffer: &mut EditBuffer, i: usize, kind: FieldKind, text: &str) -> FieldCommit {
    buffer.set_field(i, kind, text);
    buffer.commit_field(i, kind)
}

#[test]
fn scenario_split_edit_then_remove_then_commit() {
    let mut timer = timer_with(three_segment_run());
    let mut buffer = begin_edit(&timer).unwrap();
    assert_eq!(edit(&mut buffer, 1, FieldKind::SplitTime, "1:23.45"), FieldCommit::Applied);
    assert_eq!(split(&buffer.run(), 1), Some(time("83.45")));
    assert!(buffer.dirty());

    buffer.select_only(0);
    buffer.remove_selected_segments();
    assert_eq!(names(&buffer.run()), vec!["Middle", "End"]);
    assert_eq!(split(&buffer.run(), 0), Some(time("83.45")));
    assert_eq!(buffer.field_text(0, FieldKind::SplitTime), "1:23.45");
    assert!(buffer.dirty());

    assert_eq!(commit(&mut buffer, &mut timer, PersistOutcome::Written), Ok(()));
    assert_eq!(timer.run().segments().len(), 2);
    assert_eq!(names(timer.run()), vec!["Middle", "End"]);
    assert!(!buffer.dirty());
}

#[test]
fn pending_edit_moves_with_its_segment() {
    let timer = timer_with(three_segment_run());
    let mut buffer = begin_edit(&timer).unwrap();
    buffer.set_field(1, FieldKind::BestSegmentTime, "12.5");
    buffer.select_only(0);
    buffer.remove_selected_segments();
    assert_eq!(buffer.field_text(0, FieldKind::BestSegmentTime), "12.5");
    assert_eq!(buffer.commit_field(0, FieldKind::BestSegmentTime), FieldCommit::Applied);
    assert_eq!(best(&buffer.run(), 0), Some(time("12.5")));
    assert_eq!(names(&buffer.run())[0], "Middle");
}

#[test]
fn begin_edit_refused_while_running() {
    let mut timer = timer_with(three_segment_run());
    timer.start();
    let attempts = timer.run().attempt_count();
    assert!(matches!(begin_edit(&timer), Err(EditorUnavailable)));
    assert_eq!(names(timer.run()), vec!["Start", "Middle", "End"]);
    assert_eq!(timer.run().attempt_count(), attempts);
}

#[test]
fn begin_edit_depends_only_on_phase() {
    let mut timer = timer_with(three_segment_run());
    assert!(begin_edit(&timer).is_ok());
    timer.start();
    assert!(begin_edit(&timer).is_err());
    timer.pause();
    assert!(begin_edit(&timer).is_err());
    timer.resume();
    timer.split();
    timer.split();
    timer.split();
    assert!(begin_edit(&timer).is_ok());
}

#[test]
fn close_cancelled_keeps_everything() {
    let mut timer = timer_with(three_segment_run());
    let mut buffer = begin_edit(&timer).unwrap();
    assert_eq!(edit(&mut buffer, 0, FieldKind::Name, "Begin"), FieldCommit::Applied);
    assert!(!close(&mut buffer, &mut timer, CloseAnswer::Cancel));
    assert!(buffer.dirty());
    assert_eq!(names(&buffer.run())[0], "Begin");
    assert_eq!(names(timer.run()), vec!["Start", "Middle", "End"]);
}

#[test]
fn close_clean_buffer_proceeds() {
    let mut timer = timer_with(three_segment_run());
    let mut buffer = begin_edit(&timer).unwrap();
    assert!(close(&mut buffer, &mut timer, CloseAnswer::Cancel));
}

#[test]
fn close_with_save_publishes() {
    let mut timer = timer_with(three_segment_run());
    let mut buffer = begin_edit(&timer).unwrap();
    edit(&mut buffer, 0, FieldKind::GameName, "Other Game");
    assert!(close(&mut buffer, &mut timer, CloseAnswer::Save(PersistOutcome::Written)));
    assert_eq!(timer.run().game_name(), "Other Game");
    assert!(!buffer.dirty());
}

#[test]
fn close_without_saving_leaves_timer() {
    let mut timer = timer_with(three_segment_run());
    let mut buffer = begin_edit(&timer).unwrap();
    edit(&mut buffer, 0, FieldKind::GameName, "Other Game");
    assert!(close(&mut buffer, &mut timer, CloseAnswer::Discard));
    assert_eq!(timer.run().game_name(), "Game");
}

#[test]
fn valid_edits_apply_in_order() {
    let timer = timer_with(three_segment_run());
    let mut buffer = begin_edit(&timer).unwrap();
    assert!(!buffer.dirty());
    edit(&mut buffer, 0, FieldKind::Name, "First");
    edit(&mut buffer, 0, FieldKind::Name, "Second");
    edit(&mut buffer, 2, FieldKind::SplitTime, "1:00");
    edit(&mut buffer, 0, FieldKind::AttemptCount, "12");
    edit(&mut buffer, 0, FieldKind::CategoryName, "100%");
    let run = buffer.run();
    assert_eq!(names(&run)[0], "Second");
    assert_eq!(split(&run, 2), Some(time("60")));
    assert_eq!(run.attempt_count(), 12);
    assert_eq!(run.category_name(), "100%");
    assert!(buffer.dirty());
}

#[test]
fn typing_alone_does_not_change_the_run() {
    let timer = timer_with(three_segment_run());
    let mut buffer = begin_edit(&timer).unwrap();
    buffer.set_field(0, FieldKind::Name, "Typed");
    assert_eq!(names(&buffer.run())[0], "Start");
    assert_eq!(buffer.field_text(0, FieldKind::Name), "Typed");
    assert!(!buffer.dirty());
}

#[test]
fn refused_text_is_kept_then_resynced() {
    let timer = timer_with(three_segment_run());
    let mut buffer = begin_edit(&timer).unwrap();
    buffer.set_field(0, FieldKind::AttemptCount, "lots");
    assert_eq!(buffer.commit_field(0, FieldKind::AttemptCount), FieldCommit::Rejected);
    assert_eq!(buffer.run().attempt_count(), 5);
    assert_eq!(buffer.field_text(0, FieldKind::AttemptCount), "lots");
    assert!(!buffer.dirty());
    assert_eq!(buffer.commit_field(0, FieldKind::AttemptCount), FieldCommit::Resynced);
    assert_eq!(buffer.field_text(0, FieldKind::AttemptCount), "5");
    assert_eq!(buffer.commit_field(0, FieldKind::AttemptCount), FieldCommit::NothingPending);
}

#[test]
fn refused_time_keeps_split() {
    let timer = timer_with(three_segment_run());
    let mut buffer = begin_edit(&timer).unwrap();
    edit(&mut buffer, 1, FieldKind::SplitTime, "30");
    assert_eq!(edit(&mut buffer, 1, FieldKind::SplitTime, "1:xx"), FieldCommit::Rejected);
    assert_eq!(split(&buffer.run(), 1), Some(time("30")));
    assert_eq!(buffer.field_text(1, FieldKind::SplitTime), "1:xx");
}

#[test]
fn negative_split_time_refused() {
    let timer = timer_with(three_segment_run());
    let mut buffer = begin_edit(&timer).unwrap();
    assert_eq!(edit(&mut buffer, 0, FieldKind::SplitTime, "-5"), FieldCommit::Rejected);
    assert_eq!(split(&buffer.run(), 0), None);
}

#[test]
fn blank_split_time_clears_it() {
    let timer = timer_with(three_segment_run());
    let mut buffer = begin_edit(&timer).unwrap();
    edit(&mut buffer, 0, FieldKind::SplitTime, "10");
    assert_eq!(edit(&mut buffer, 0, FieldKind::SplitTime, ""), FieldCommit::Applied);
    assert_eq!(split(&buffer.run(), 0), None);
    assert_eq!(buffer.field_text(0, FieldKind::SplitTime), "");
}

#[test]
fn segment_time_shifts_later_splits() {
    let timer = timer_with(three_segment_run());
    let mut buffer = begin_edit(&timer).unwrap();
    edit(&mut buffer, 0, FieldKind::SplitTime, "10");
    edit(&mut buffer, 1, FieldKind::SplitTime, "20");
    edit(&mut buffer, 2, FieldKind::SplitTime, "30");
    assert_eq!(edit(&mut buffer, 0, FieldKind::SegmentTime, "5"), FieldCommit::Applied);
    let run = buffer.run();
    assert_eq!(split(&run, 0), Some(time("5")));
    assert_eq!(split(&run, 1), Some(time("15")));
    assert_eq!(split(&run, 2), Some(time("25")));
    assert_eq!(buffer.field_text(1, FieldKind::SegmentTime), "10.00");
}

#[test]
fn moving_keeps_segment_durations() {
    let mut run = Run::new();
    run.push_segment(Segment::new("A"));
    run.push_segment(Segment::new("B"));
    let timer = timer_with(run);
    let mut buffer = begin_edit(&timer).unwrap();
    edit(&mut buffer, 0, FieldKind::SplitTime, "10");
    edit(&mut buffer, 1, FieldKind::SplitTime, "30");
    buffer.select_only(1);
    buffer.move_selected_up();
    let run = buffer.run();
    assert_eq!(names(&run), vec!["B", "A"]);
    assert_eq!(split(&run, 0), Some(time("20")));
    assert_eq!(split(&run, 1), Some(time("30")));
}

#[test]
fn offset_takes_negative_but_not_blank() {
    let timer = timer_with(three_segment_run());
    let mut buffer = begin_edit(&timer).unwrap();
    assert_eq!(edit(&mut buffer, 0, FieldKind::Offset, "-1.5"), FieldCommit::Applied);
    assert_eq!(buffer.run().offset(), time("-1.5"));
    assert_eq!(buffer.field_text(0, FieldKind::Offset), "\u{2212}1.50");
    assert_eq!(edit(&mut buffer, 0, FieldKind::Offset, ""), FieldCommit::Rejected);
    assert_eq!(buffer.run().offset(), time("-1.5"));
}

#[test]
fn attempt_count_text_forms() {
    let timer = timer_with(three_segment_run());
    let mut buffer = begin_edit(&timer).unwrap();
    assert_eq!(edit(&mut buffer, 0, FieldKind::AttemptCount, "+7"), FieldCommit::Applied);
    assert_eq!(buffer.run().attempt_count(), 7);
    assert_eq!(edit(&mut buffer, 0, FieldKind::AttemptCount, "4294967296"), FieldCommit::Rejected);
    assert_eq!(edit(&mut buffer, 0, FieldKind::AttemptCount, " 8"), FieldCommit::Rejected);
    assert_eq!(buffer.field_text(0, FieldKind::AttemptCount), " 8");
    assert_eq!(buffer.commit_field(0, FieldKind::AttemptCount), FieldCommit::Resynced);
    assert_eq!(buffer.run().attempt_count(), 7);
    assert_eq!(buffer.field_text(0, FieldKind::AttemptCount), "7");
}

#[test]
fn discard_takes_fresh_snapshot() {
    let timer = timer_with(three_segment_run());
    let mut buffer = begin_edit(&timer).unwrap();
    edit(&mut buffer, 0, FieldKind::Name, "Changed");
    buffer.set_field(1, FieldKind::SplitTime, "bad");
    buffer.insert_segment(Position::Below);
    assert!(!request_discard_confirmation(&buffer, false));
    assert!(request_discard_confirmation(&buffer, true));
    let mut fresh = discard(&timer).unwrap();
    assert!(!fresh.dirty());
    assert_eq!(names(&fresh.run()), vec!["Start", "Middle", "End"]);
    assert_eq!(fresh.field_text(1, FieldKind::SplitTime), "");
    assert!(request_discard_confirmation(&fresh, false));
}

#[test]
fn commit_twice_is_stable() {
    let mut timer = timer_with(three_segment_run());
    let mut buffer = begin_edit(&timer).unwrap();
    edit(&mut buffer, 2, FieldKind::Name, "Finish");
    assert_eq!(commit(&mut buffer, &mut timer, PersistOutcome::Written), Ok(()));
    assert!(!buffer.dirty());
    let first = names(timer.run());
    assert_eq!(commit(&mut buffer, &mut timer, PersistOutcome::Written), Ok(()));
    assert!(!buffer.dirty());
    assert_eq!(names(timer.run()), first);
    assert_eq!(names(&buffer.run()), first);
}

#[test]
fn commit_reports_failed_write_but_publishes() {
    let mut timer = timer_with(three_segment_run());
    let mut buffer = begin_edit(&timer).unwrap();
    edit(&mut buffer, 0, FieldKind::Name, "Intro");
    assert_eq!(
        commit(&mut buffer, &mut timer, PersistOutcome::Failed),
        Err(CommitError::PersistFailed)
    );
    assert_eq!(names(timer.run())[0], "Intro");
    assert!(!buffer.dirty());
}

#[test]
fn commit_refused_while_running_keeps_dirty() {
    let mut timer = timer_with(three_segment_run());
    let mut buffer = begin_edit(&timer).unwrap();
    edit(&mut buffer, 0, FieldKind::Name, "Intro");
    timer.start();
    timer.pause();
    assert_eq!(
        commit(&mut buffer, &mut timer, PersistOutcome::Written),
        Err(CommitError::ReplaceRejected)
    );
    assert_eq!(names(timer.run())[0], "Start");
    assert!(buffer.dirty());
}

#[test]
fn commit_without_path() {
    let mut timer = timer_with(three_segment_run());
    let mut buffer = begin_edit(&timer).unwrap();
    edit(&mut buffer, 0, FieldKind::Name, "Intro");
    assert_eq!(commit(&mut buffer, &mut timer, PersistOutcome::NoPath), Ok(()));
    assert_eq!(names(timer.run())[0], "Intro");
}

#[test]
fn insert_above_and_below() {
    let timer = timer_with(three_segment_run());
    let mut buffer = begin_edit(&timer).unwrap();
    buffer.select_only(1);
    buffer.insert_segment(Position::Above);
    assert_eq!(names(&buffer.run()), vec!["Start", "", "Middle", "End"]);
    assert_eq!(buffer.active_index(), 1);
    assert_eq!(buffer.selection(), vec![false, true, false, false]);
    buffer.insert_segment(Position::Below);
    assert_eq!(names(&buffer.run()), vec!["Start", "", "", "Middle", "End"]);
    assert_eq!(buffer.active_index(), 2);
    assert!(buffer.dirty());
}

#[test]
fn remove_refused_when_all_selected() {
    let timer = timer_with(three_segment_run());
    let mut buffer = begin_edit(&timer).unwrap();
    buffer.select_only(0);
    buffer.select_additionally(1);
    buffer.select_additionally(2);
    buffer.remove_selected_segments();
    assert_eq!(buffer.len(), 3);
    buffer.select_only(2);
    buffer.remove_selected_segments();
    assert_eq!(names(&buffer.run()), vec!["Start", "Middle"]);
    assert_eq!(buffer.active_index(), 1);
}

#[test]
fn move_segments_up_and_down() {
    let timer = timer_with(three_segment_run());
    let mut buffer = begin_edit(&timer).unwrap();
    buffer.select_only(2);
    buffer.set_field(2, FieldKind::Name, "Last");
    buffer.move_selected_up();
    assert_eq!(names(&buffer.run()), vec!["Start", "End", "Middle"]);
    assert_eq!(buffer.active_index(), 1);
    assert_eq!(buffer.field_text(1, FieldKind::Name), "Last");
    buffer.move_selected_up();
    assert_eq!(names(&buffer.run()), vec!["End", "Start", "Middle"]);
    buffer.move_selected_up();
    assert_eq!(names(&buffer.run()), vec!["End", "Start", "Middle"]);
    buffer.move_selected_down();
    buffer.move_selected_down();
    assert_eq!(names(&buffer.run()), vec!["Start", "Middle", "End"]);
    assert_eq!(buffer.active_index(), 2);
}

#[test]
fn move_block_of_segments() {
    let timer = timer_with(three_segment_run());
    let mut buffer = begin_edit(&timer).unwrap();
    buffer.select_only(1);
    buffer.select_additionally(2);
    buffer.move_selected_up();
    assert_eq!(names(&buffer.run()), vec!["Middle", "End", "Start"]);
    assert_eq!(buffer.selection(), vec![true, true, false]);
}

#[test]
fn discard_times_clears_times_and_attempts() {
    let timer = timer_with(three_segment_run());
    let mut buffer = begin_edit(&timer).unwrap();
    edit(&mut buffer, 0, FieldKind::BestSegmentTime, "9");
    buffer.set_field(1, FieldKind::SplitTime, "typing");
    buffer.discard_times();
    assert_eq!(best(&buffer.run(), 0), None);
    assert_eq!(buffer.run().attempt_count(), 0);
    assert_eq!(buffer.field_text(1, FieldKind::SplitTime), "");
    assert_eq!(buffer.field_text(0, FieldKind::AttemptCount), "0");
}

#[test]
fn discard_history_resyncs_fields() {
    let timer = timer_with(three_segment_run());
    let mut buffer = begin_edit(&timer).unwrap();
    buffer.set_field(0, FieldKind::GameName, "typing");
    buffer.discard_history();
    assert_eq!(buffer.field_text(0, FieldKind::GameName), "Game");
    assert_eq!(buffer.run().attempt_count(), 5);
    assert!(buffer.dirty());
}

#[test]
fn open_refuses_empty_run() {
    assert!(EditBuffer::open(Run::new()).is_none());
}

#[test]
fn loaded_run_restarts_open_editor() {
    let mut timer = timer_with(three_segment_run());
    let mut editor = Some(begin_edit(&timer).unwrap());
    let prev = install_loaded_run(&mut timer, &mut editor, default_run()).ok().unwrap();
    assert_eq!(names(&prev), vec!["Start", "Middle", "End"]);
    assert_eq!(names(timer.run()), vec!["Time"]);
    assert_eq!(names(&editor.as_ref().unwrap().run()), vec!["Time"]);
    let mut none: Option<EditBuffer> = None;
    assert!(install_loaded_run(&mut timer, &mut none, Run::new()).is_err());
    timer.start();
    assert!(install_loaded_run(&mut timer, &mut none, three_segment_run()).is_err());
    assert!(none.is_none());
    assert_eq!(names(timer.run()), vec!["Time"]);
}

#[test]
fn default_run_shape() {
    let run = default_run();
    assert_eq!(run.game_name(), "untitled");
    assert_eq!(run.category_name(), "untitled");
    assert_eq!(names(&run), vec!["Time"]);
}

#[test]
fn huge_segment_time_is_refused_without_panic() {
    let timer = timer_with(three_segment_run());
    let mut buffer = begin_edit(&timer).unwrap();
    edit(&mut buffer, 0, FieldKind::SplitTime, "1");
    assert!(buffer.has_room());
    assert_eq!(
        edit(&mut buffer, 1, FieldKind::SegmentTime, "9223372036854775807"),
        FieldCommit::Rejected
    );
    assert_eq!(split(&buffer.run(), 1), None);
    assert_eq!(split(&buffer.run(), 0), Some(time("1")));
}

#[test]
fn huge_best_segments_block_removal_and_commit() {
    let mut timer = timer_with(three_segment_run());
    let mut buffer = begin_edit(&timer).unwrap();
    edit(&mut buffer, 0, FieldKind::BestSegmentTime, "9223372036854775807");
    edit(&mut buffer, 1, FieldKind::BestSegmentTime, "9223372036854775807");
    assert!(!buffer.has_room());
    buffer.select_only(0);
    buffer.remove_selected_segments();
    assert_eq!(names(&buffer.run()), vec!["Start", "Middle", "End"]);
    buffer.move_selected_down();
    assert_eq!(names(&buffer.run()), vec!["Start", "Middle", "End"]);
    assert_eq!(
        commit(&mut buffer, &mut timer, PersistOutcome::Written),
        Err(CommitError::TimesTooLarge)
    );
    assert!(buffer.dirty());
    assert_eq!(best(timer.run(), 0), None);
}

#[test]
fn discard_history_empties_attempt_history() {
    let mut timer = timer_with(three_segment_run());
    timer.start();
    timer.split();
    timer.split();
    timer.split();
    timer.reset(true);
    assert!(!timer.run().attempt_history().is_empty());
    let mut buffer = begin_edit(&timer).unwrap();
    buffer.discard_history();
    let run = buffer.run();
    assert!(run.attempt_history().is_empty());
    assert!(run.segments().iter().all(|s| s.segment_history().iter().next().is_none()));
}

#[test]
fn synced_time_fields_show_formatted_times() {
    let timer = timer_with(three_segment_run());
    let mut buffer = begin_edit(&timer).unwrap();
    edit(&mut buffer, 0, FieldKind::SplitTime, "65");
    edit(&mut buffer, 0, FieldKind::BestSegmentTime, "61.5");
    assert_eq!(buffer.field_text(0, FieldKind::SplitTime), "1:05.00");
    assert_eq!(buffer.field_text(0, FieldKind::SegmentTime), "1:05.00");
    assert_eq!(buffer.field_text(0, FieldKind::BestSegmentTime), "1:01.50");
    assert_eq!(buffer.field_text(0, FieldKind::Offset), "0.00");
}

#[test]
fn commit_publishes_times_and_metadata() {
    let mut timer = timer_with(three_segment_run());
    let mut buffer = begin_edit(&timer).unwrap();
    edit(&mut buffer, 1, FieldKind::SplitTime, "40");
    edit(&mut buffer, 0, FieldKind::Offset, "2");
    edit(&mut buffer, 0, FieldKind::GameName, "G2");
    assert_eq!(commit(&mut buffer, &mut timer, PersistOutcome::NoPath), Ok(()));
    assert_eq!(split(timer.run(), 1), Some(time("40")));
    assert_eq!(timer.run().offset(), time("2"));
    assert_eq!(timer.run().game_name(), "G2");
}
