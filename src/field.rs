//! Editable fields and the text a user is typing into them.

use vstd::prelude::*;
use crate::count::count_of_text;
use crate::editor::{offset_accepted, time_accepted};

verus! {

/// The fields of a run that can be edited as text.
#[derive(Clone, Copy, Debug, PartialEq, Eq, Structural)]
pub enum FieldKind {
    Name,
    SplitTime,
    SegmentTime,
    BestSegmentTime,
    GameName,
    CategoryName,
    Offset,
    AttemptCount,
}

impl FieldKind {
    /// Whether the field belongs to a segment rather than to the run.
    pub open spec fn per_segment(self) -> bool {
        match self {
            FieldKind::Name | FieldKind::SplitTime | FieldKind::SegmentTime
            | FieldKind::BestSegmentTime => true,
            _ => false,
        }
    }

    /// Whether the field belongs to a segment rather than to the run.
    pub fn is_per_segment(self) -> (r: bool)
        ensures
            r == self.per_segment(),
    {
        match self {
            FieldKind::Name | FieldKind::SplitTime | FieldKind::SegmentTime
            | FieldKind::BestSegmentTime => true,
            _ => false,
        }
    }
}

/// The text state of one field.
#[derive(Debug)]
pub enum FieldState {
    /// The field shows the run's current value.
    Synced,
    /// The user has typed text that is not applied yet.
    Pending(String),
    /// The typed text was refused once; it is kept for correction until the
    /// next commit attempt, which resynchronizes the field if it fails too.
    Rejected(String),
}

/// The mathematical value of a [`FieldState`].
pub enum FieldStatus {
    Synced,
    Pending(Seq<char>),
    Rejected(Seq<char>),
}

impl View for FieldState {
    type V = FieldStatus;

    open spec fn view(&self) -> FieldStatus {
        match self {
            FieldState::Synced => FieldStatus::Synced,
            FieldState::Pending(s) => FieldStatus::Pending(s@),
            FieldState::Rejected(s) => FieldStatus::Rejected(s@),
        }
    }
}

impl FieldState {
    /// A copy of this state.
    pub fn duplicate(&self) -> (r: FieldState)
        ensures
            r@ == self@,
    {
        match self {
            FieldState::Synced => FieldState::Synced,
            FieldState::Pending(s) => FieldState::Pending(s.clone()),
            FieldState::Rejected(s) => FieldState::Rejected(s.clone()),
        }
    }
}

/// Whether the library takes `text` for a field of `kind`: names take any
/// text, times and the attempt count what their parsers accept.
pub open spec fn accepts(kind: FieldKind, text: Seq<char>) -> bool {
    match kind {
        FieldKind::Name | FieldKind::GameName | FieldKind::CategoryName => true,
        FieldKind::SplitTime | FieldKind::SegmentTime | FieldKind::BestSegmentTime => time_accepted(
            text,
        ),
        FieldKind::Offset => offset_accepted(text),
        FieldKind::AttemptCount => count_of_text(text) is Some,
    }
}

} // verus!
