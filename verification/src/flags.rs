//! Flag types passed to the host's API as raw bit masks.

use vstd::prelude::*;

verus! {

/// The raw mask meaning that everything could have been affected.
pub const UNDO_STATE_ALL: u32 = 0xFFFFFFFF;

/// Part of a project that could have been affected by an undoable
/// operation.
#[derive(Clone, Copy, PartialEq, Eq, Structural, Debug, Hash)]
pub enum ProjectPart {
    /// Freeze state.
    Freeze,
    /// Track master FX.
    Fx,
    /// Track items.
    Items,
    /// Loop selection, markers, regions and extensions.
    MiscCfg,
    /// Track/master volume, pan, routing and all envelopes.
    TrackCfg,
}

/// The single raw bit the host uses for each project part.
pub open spec fn project_part_bit(p: ProjectPart) -> u32 {
    match p {
        ProjectPart::Freeze => 16u32,
        ProjectPart::Fx => 2u32,
        ProjectPart::Items => 4u32,
        ProjectPart::MiscCfg => 8u32,
        ProjectPart::TrackCfg => 1u32,
    }
}

impl ProjectPart {
    /// Converts this part to the raw bit the host's API expects.
    pub fn to_raw(self) -> (r: u32)
        ensures
            r == project_part_bit(self),
    {
        match self {
            ProjectPart::Freeze => 16,
            ProjectPart::Fx => 2,
            ProjectPart::Items => 4,
            ProjectPart::MiscCfg => 8,
            ProjectPart::TrackCfg => 1,
        }
    }
}

/// When creating an undo point, what parts of the project might have been
/// affected by the undoable operation: everything, or a combination of
/// project parts given as a bit mask of `ProjectPart` bits.
#[derive(Clone, Copy, PartialEq, Eq, Structural, Debug)]
pub enum UndoScope {
    /// Everything could have been affected: the safest choice, but it can
    /// lead to very large undo states.
    All,
    /// A combination of the given project parts could have been affected.
    Scoped(u32),
}

impl UndoScope {
    /// Converts this scope to the integer the host's API expects.
    pub fn to_raw(self) -> (r: i32)
        ensures
            self is All ==> r == UNDO_STATE_ALL as i32,
            self matches UndoScope::Scoped(bits) ==> r == bits as i32,
    {
        match self {
            UndoScope::All => #[verifier::truncate] (UNDO_STATE_ALL as i32),
            UndoScope::Scoped(bits) => #[verifier::truncate] (bits as i32),
        }
    }
}

/// Behaviors that can be activated when inserting a media file.
#[derive(Clone, Copy, PartialEq, Eq, Structural, Debug, Hash)]
pub enum InsertMediaFlag {
    StretchLoopToFitTimeSelection,
    TryToMatchTempo1X,
    TryToMatchTempo05X,
    TryToMatchTempo2X,
    DontPreservePitchWhenMatchingTempo,
    NoLoopSectionIfStartPctEndPctSet,
    /// Force loop regardless of the global preference for looping imported
    /// items.
    ForceLoopRegardlessOfGlobalPreference,
    /// Move to the source's preferred position (BWF start offset).
    MoveSourceToPreferredPosition,
}

/// The single raw bit the host uses for each insert-media behavior.
pub open spec fn insert_media_flag_bit(f: InsertMediaFlag) -> u32 {
    match f {
        InsertMediaFlag::StretchLoopToFitTimeSelection => 4u32,
        InsertMediaFlag::TryToMatchTempo1X => 8u32,
        InsertMediaFlag::TryToMatchTempo05X => 16u32,
        InsertMediaFlag::TryToMatchTempo2X => 32u32,
        InsertMediaFlag::DontPreservePitchWhenMatchingTempo => 64u32,
        InsertMediaFlag::NoLoopSectionIfStartPctEndPctSet => 128u32,
        InsertMediaFlag::ForceLoopRegardlessOfGlobalPreference => 256u32,
        InsertMediaFlag::MoveSourceToPreferredPosition => 4096u32,
    }
}

impl InsertMediaFlag {
    /// Converts this behavior to the raw bit the host's API expects.
    pub fn to_raw(self) -> (r: u32)
        ensures
            r == insert_media_flag_bit(self),
    {
        match self {
            InsertMediaFlag::StretchLoopToFitTimeSelection => 4,
            InsertMediaFlag::TryToMatchTempo1X => 8,
            InsertMediaFlag::TryToMatchTempo05X => 16,
            InsertMediaFlag::TryToMatchTempo2X => 32,
            InsertMediaFlag::DontPreservePitchWhenMatchingTempo => 64,
            InsertMediaFlag::NoLoopSectionIfStartPctEndPctSet => 128,
            InsertMediaFlag::ForceLoopRegardlessOfGlobalPreference => 256,
            InsertMediaFlag::MoveSourceToPreferredPosition => 4096,
        }
    }
}

} // verus!
