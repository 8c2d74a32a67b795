//! Commit-message classifier: maps the prefix of a commit message to the kind
//! of track-level action the commit represents, or to none for playlist-level
//! actions and unrecognized messages.

use vstd::prelude::*;
use crate::strutil::{spec_starts_with, str_starts_with};

verus! {

/// The kind of track-level event a log commit represents.
#[derive(Clone, Copy, PartialEq, Eq, Debug, Structural)]
pub enum TrackRelatedActionType {
    Addition,
    Removal,
    Transfer,
    Modification,
}

/// The classification of a commit message: playlist-level prefixes are
/// checked first (they are supersets of the track-level prefixes) and yield
/// none; then the first matching track-level prefix wins.
pub open spec fn spec_classify(m: Seq<char>) -> Option<TrackRelatedActionType> {
    if spec_starts_with(m, ":new: Create :file_folder: "@)
        || spec_starts_with(m, ":negative_squared_cross_mark: Delete :file_folder: "@)
        || spec_starts_with(m, ":pencil2: Modify :file_folder: "@) {
        None
    } else if spec_starts_with(m, ":new: "@) {
        Some(TrackRelatedActionType::Addition)
    } else if spec_starts_with(m, ":negative_squared_cross_mark: "@) {
        Some(TrackRelatedActionType::Removal)
    } else if spec_starts_with(m, ":truck: "@) {
        Some(TrackRelatedActionType::Transfer)
    } else if spec_starts_with(m, ":pencil2: "@) {
        Some(TrackRelatedActionType::Modification)
    } else {
        None
    }
}

/// Returns the track-level action type a commit message announces, or `None`
/// when the commit is playlist-level or unrecognized.
pub fn commit_message_to_track_related_action_type(
    message: &str,
) -> (r: Option<TrackRelatedActionType>)
    ensures
        r == spec_classify(message@),
{
    if str_starts_with(message, ":new: Create :file_folder: ")
        || str_starts_with(message, ":negative_squared_cross_mark: Delete :file_folder: ")
        || str_starts_with(message, ":pencil2: Modify :file_folder: ") {
        return None;
    }
    if str_starts_with(message, ":new: ") {
        return Some(TrackRelatedActionType::Addition);
    }
    if str_starts_with(message, ":negative_squared_cross_mark: ") {
        return Some(TrackRelatedActionType::Removal);
    }
    if str_starts_with(message, ":truck: ") {
        return Some(TrackRelatedActionType::Transfer);
    }
    if str_starts_with(message, ":pencil2: ") {
        return Some(TrackRelatedActionType::Modification);
    }
    None
}

} // verus!
