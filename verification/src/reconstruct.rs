//! Event reconstructor: turns a hydrated commit into at most one typed
//! track-related action, and a commit sequence into the action stream.

use vstd::prelude::*;
use crate::classify::{
    TrackRelatedActionType, commit_message_to_track_related_action_type, spec_classify,
};
use crate::commit::{Commit, CommitView};
use crate::differ::{
    identify_extra_track, identify_modified_track, spec_identify_extra_track,
    spec_identify_modified_track,
};
use crate::playlist::{Track, TrackView};
use crate::snapshot::{parse_playlist_snapshot, spec_parse_playlist};
use crate::strutil::{str_eq, view_opt_str};

verus! {

/// The first instant of the log: commits strictly earlier than
/// 2019-10-03T00:00:00Z are not log commits.
pub const LOG_STARTED_AT_TIMESTAMP: i64 = 1570060800;

/// Mathematical view of a [`TrackRelatedAction`].
pub struct TrackRelatedActionView {
    pub datetime: i64,
    pub action_type: TrackRelatedActionType,
    pub source_playlist_id: Option<Seq<char>>,
    pub destination_playlist_id: Option<Seq<char>>,
    pub track: TrackView,
}

/// A typed playlist-mutation event derived from one log commit. `datetime`
/// is the commit's committer date as a UTC unix timestamp in seconds.
#[derive(Debug)]
pub struct TrackRelatedAction {
    pub datetime: i64,
    pub action_type: TrackRelatedActionType,
    pub source_playlist_id: Option<String>,
    pub destination_playlist_id: Option<String>,
    pub track: Track,
}

impl View for TrackRelatedAction {
    type V = TrackRelatedActionView;

    open spec fn view(&self) -> TrackRelatedActionView {
        TrackRelatedActionView {
            datetime: self.datetime,
            action_type: self.action_type,
            source_playlist_id: view_opt_str(self.source_playlist_id),
            destination_playlist_id: view_opt_str(self.destination_playlist_id),
            track: self.track@,
        }
    }
}

/// The view of an optional action.
pub open spec fn view_opt_action(o: Option<TrackRelatedAction>) -> Option<
    TrackRelatedActionView,
> {
    match o {
        Some(a) => Some(a@),
        None => None,
    }
}

/// The addition event a log commit denotes: its single file's snapshots
/// parse, and the after snapshot holds the extra track. The destination is
/// the playlist; there is no source.
pub open spec fn spec_reconstruct_addition(c: CommitView) -> Option<TrackRelatedActionView> {
    if c.files.len() < 1 {
        None
    } else {
        match (spec_parse_playlist(c.files[0].before), spec_parse_playlist(c.files[0].after)) {
            (Some(before), Some(after)) => match spec_identify_extra_track(before, after) {
                Some(t) => Some(
                    TrackRelatedActionView {
                        datetime: c.datetime,
                        action_type: TrackRelatedActionType::Addition,
                        source_playlist_id: None,
                        destination_playlist_id: Some(after.id),
                        track: t,
                    },
                ),
                None => None,
            },
            _ => None,
        }
    }
}

/// The removal event a log commit denotes: as for an addition, but the extra
/// track sits in the before snapshot, which is the source.
pub open spec fn spec_reconstruct_removal(c: CommitView) -> Option<TrackRelatedActionView> {
    if c.files.len() < 1 {
        None
    } else {
        match (spec_parse_playlist(c.files[0].before), spec_parse_playlist(c.files[0].after)) {
            (Some(before), Some(after)) => match spec_identify_extra_track(before, after) {
                Some(t) => Some(
                    TrackRelatedActionView {
                        datetime: c.datetime,
                        action_type: TrackRelatedActionType::Removal,
                        source_playlist_id: Some(before.id),
                        destination_playlist_id: None,
                        track: t,
                    },
                ),
                None => None,
            },
            _ => None,
        }
    }
}

/// The transfer event a two-file log commit denotes: the file with added
/// lines is the destination, the other the source; the track is the one
/// added to the destination.
pub open spec fn spec_reconstruct_transfer(c: CommitView) -> Option<TrackRelatedActionView> {
    if c.files.len() < 2 {
        None
    } else {
        let source_file = if c.files[0].added_line_count > 0 {
            c.files[1]
        } else {
            c.files[0]
        };
        let destination_file = if c.files[0].added_line_count > 0 {
            c.files[0]
        } else {
            c.files[1]
        };
        match (
            spec_parse_playlist(source_file.before),
            spec_parse_playlist(destination_file.before),
            spec_parse_playlist(destination_file.after),
        ) {
            (Some(before_source), Some(before_destination), Some(after_destination)) => match
                spec_identify_extra_track(before_destination, after_destination) {
                Some(t) => Some(
                    TrackRelatedActionView {
                        datetime: c.datetime,
                        action_type: TrackRelatedActionType::Transfer,
                        source_playlist_id: Some(before_source.id),
                        destination_playlist_id: Some(after_destination.id),
                        track: t,
                    },
                ),
                None => None,
            },
            _ => None,
        }
    }
}

/// The modification event a log commit denotes: the modified track of the
/// after snapshot; source and destination are both the playlist itself.
pub open spec fn spec_reconstruct_modification(c: CommitView) -> Option<TrackRelatedActionView> {
    if c.files.len() < 1 {
        None
    } else {
        match (spec_parse_playlist(c.files[0].before), spec_parse_playlist(c.files[0].after)) {
            (Some(before), Some(after)) => match spec_identify_modified_track(before, after) {
                Some(t) => Some(
                    TrackRelatedActionView {
                        datetime: c.datetime,
                        action_type: TrackRelatedActionType::Modification,
                        source_playlist_id: Some(after.id),
                        destination_playlist_id: Some(after.id),
                        track: t,
                    },
                ),
                None => None,
            },
            _ => None,
        }
    }
}

/// The action a commit denotes, if any: none when the committer is not the
/// automation account, when the commit predates the log start, when the
/// message is not a track-level action, or when snapshots or the differ fail.
pub open spec fn spec_reconstruct(c: CommitView) -> Option<TrackRelatedActionView> {
    if c.committer_name != "GitHub Actions"@ {
        None
    } else if c.datetime < LOG_STARTED_AT_TIMESTAMP {
        None
    } else {
        match spec_classify(c.message) {
            None => None,
            Some(TrackRelatedActionType::Addition) => spec_reconstruct_addition(c),
            Some(TrackRelatedActionType::Removal) => spec_reconstruct_removal(c),
            Some(TrackRelatedActionType::Transfer) => spec_reconstruct_transfer(c),
            Some(TrackRelatedActionType::Modification) => spec_reconstruct_modification(c),
        }
    }
}

/// Reconstructs the at-most-one action a commit represents; `None` for any
/// commit that is not a well-formed log commit.
pub fn commit_to_track_related_action(commit: &Commit) -> (r: Option<TrackRelatedAction>)
    ensures
        view_opt_action(r) == spec_reconstruct(commit@),
{
    if !str_eq(commit.committer_name.as_str(), "GitHub Actions") {
        return None;
    }
    if commit.datetime < LOG_STARTED_AT_TIMESTAMP {
        return None;
    }
    let action_type = match commit_message_to_track_related_action_type(commit.message.as_str()) {
        Some(t) => t,
        None => { return None; },
    };
    match action_type {
        TrackRelatedActionType::Addition => {
            if commit.files.len() < 1 {
                return None;
            }
            let before = match parse_playlist_snapshot(commit.files[0].before.as_str()) {
                Ok(p) => p,
                Err(_) => { return None; },
            };
            let after = match parse_playlist_snapshot(commit.files[0].after.as_str()) {
                Ok(p) => p,
                Err(_) => { return None; },
            };
            let track = match identify_extra_track(&before, &after) {
                Some(t) => t,
                None => { return None; },
            };
            Some(
                TrackRelatedAction {
                    datetime: commit.datetime,
                    action_type,
                    source_playlist_id: None,
                    destination_playlist_id: Some(after.id),
                    track,
                },
            )
        },
        TrackRelatedActionType::Removal => {
            if commit.files.len() < 1 {
                return None;
            }
            let before = match parse_playlist_snapshot(commit.files[0].before.as_str()) {
                Ok(p) => p,
                Err(_) => { return None; },
            };
            let after = match parse_playlist_snapshot(commit.files[0].after.as_str()) {
                Ok(p) => p,
                Err(_) => { return None; },
            };
            let track = match identify_extra_track(&before, &after) {
                Some(t) => t,
                None => { return None; },
            };
            Some(
                TrackRelatedAction {
                    datetime: commit.datetime,
                    action_type,
                    source_playlist_id: Some(before.id),
                    destination_playlist_id: None,
                    track,
                },
            )
        },
        TrackRelatedActionType::Transfer => {
            if commit.files.len() < 2 {
                return None;
            }
            let (source_index, destination_index): (usize, usize) = if commit.files[0]
                .added_line_count > 0 {
                (1, 0)
            } else {
                (0, 1)
            };
            let before_source = match parse_playlist_snapshot(
                commit.files[source_index].before.as_str(),
            ) {
                Ok(p) => p,
                Err(_) => { return None; },
            };
            let before_destination = match parse_playlist_snapshot(
                commit.files[destination_index].before.as_str(),
            ) {
                Ok(p) => p,
                Err(_) => { return None; },
            };
            let after_destination = match parse_playlist_snapshot(
                commit.files[destination_index].after.as_str(),
            ) {
                Ok(p) => p,
                Err(_) => { return None; },
            };
            let track = match identify_extra_track(&before_destination, &after_destination) {
                Some(t) => t,
                None => { return None; },
            };
            Some(
                TrackRelatedAction {
                    datetime: commit.datetime,
                    action_type,
                    source_playlist_id: Some(before_source.id),
                    destination_playlist_id: Some(after_destination.id),
                    track,
                },
            )
        },
        TrackRelatedActionType::Modification => {
            if commit.files.len() < 1 {
                return None;
            }
            let before = match parse_playlist_snapshot(commit.files[0].before.as_str()) {
                Ok(p) => p,
                Err(_) => { return None; },
            };
            let after = match parse_playlist_snapshot(commit.files[0].after.as_str()) {
                Ok(p) => p,
                Err(_) => { return None; },
            };
            let track = match identify_modified_track(&before, &after) {
                Some(t) => t,
                None => { return None; },
            };
            let destination = after.id.clone();
            Some(
                TrackRelatedAction {
                    datetime: commit.datetime,
                    action_type,
                    source_playlist_id: Some(after.id),
                    destination_playlist_id: Some(destination),
                    track,
                },
            )
        },
    }
}

/// The action stream a commit sequence denotes, in commit order.
pub open spec fn spec_actions_of(cs: Seq<CommitView>) -> Seq<TrackRelatedActionView>
    decreases cs.len(),
{
    if cs.len() == 0 {
        Seq::empty()
    } else {
        spec_actions_of(cs.drop_last()) + match spec_reconstruct(cs.last()) {
            Some(a) => seq![a],
            None => Seq::empty(),
        }
    }
}

/// Reconstructs the action stream of a commit sequence, in commit order.
pub fn actions_from_commits(commits: &Vec<Commit>) -> (r: Vec<TrackRelatedAction>)
    ensures
        r@.map_values(|a: TrackRelatedAction| a@) == spec_actions_of(
            commits@.map_values(|c: Commit| c@),
        ),
{
    let ghost cv = commits@.map_values(|c: Commit| c@);
    let mut r: Vec<TrackRelatedAction> = Vec::new();
    proof {
        assert(cv.take(0) =~= Seq::<CommitView>::empty());
    }
    let mut i: usize = 0;
    while i < commits.len()
        invariant
            i <= commits@.len(),
            cv == commits@.map_values(|c: Commit| c@),
            r@.map_values(|a: TrackRelatedAction| a@) == spec_actions_of(cv.take(i as int)),
        decreases commits@.len() - i,
    {
        let ghost prev = r@;
        let action = commit_to_track_related_action(&commits[i]);
        match action {
            Some(a) => {
                r.push(a);
            },
            None => {},
        }
        proof {
            assert(cv.take(i as int + 1).drop_last() =~= cv.take(i as int));
            assert(cv.take(i as int + 1).last() == cv[i as int]);
            assert(r@.map_values(|a: TrackRelatedAction| a@) =~= spec_actions_of(
                cv.take(i as int + 1),
            ));
        }
        i += 1;
    }
    proof {
        assert(cv.take(cv.len() as int) =~= cv);
    }
    r
}

/// A reconstructed action's optional fields fit the addition pattern: no
/// source, a destination.
pub open spec fn spec_addition_shape(a: TrackRelatedActionView) -> bool {
    a.source_playlist_id is None && a.destination_playlist_id is Some
}

/// The removal pattern: a source, no destination.
pub open spec fn spec_removal_shape(a: TrackRelatedActionView) -> bool {
    a.source_playlist_id is Some && a.destination_playlist_id is None
}

/// The transfer pattern: source and destination both set and distinct.
pub open spec fn spec_transfer_shape(a: TrackRelatedActionView) -> bool {
    a.source_playlist_id is Some && a.destination_playlist_id is Some
        && a.source_playlist_id != a.destination_playlist_id
}

/// The modification pattern: source and destination both set and equal.
pub open spec fn spec_modification_shape(a: TrackRelatedActionView) -> bool {
    a.source_playlist_id is Some && a.destination_playlist_id is Some
        && a.source_playlist_id == a.destination_playlist_id
}

/// Exactly one of the four optional-field patterns holds of the action.
pub open spec fn spec_exactly_one_shape(a: TrackRelatedActionView) -> bool {
    ||| (spec_addition_shape(a) && !spec_removal_shape(a) && !spec_transfer_shape(a)
        && !spec_modification_shape(a))
    ||| (!spec_addition_shape(a) && spec_removal_shape(a) && !spec_transfer_shape(a)
        && !spec_modification_shape(a))
    ||| (!spec_addition_shape(a) && !spec_removal_shape(a) && spec_transfer_shape(a)
        && !spec_modification_shape(a))
    ||| (!spec_addition_shape(a) && !spec_removal_shape(a) && !spec_transfer_shape(a)
        && spec_modification_shape(a))
}

/// Law: a commit whose message does not classify as a track-level action
/// reconstructs to none.
pub proof fn lemma_unclassified_commit_yields_none(c: CommitView)
    requires
        spec_classify(c.message) is None,
    ensures
        spec_reconstruct(c) is None,
{
}

/// Law: a commit by anyone but the automation account, or from before the
/// log start, reconstructs to none.
pub proof fn lemma_non_log_commit_yields_none(c: CommitView)
    requires
        c.committer_name != "GitHub Actions"@ || c.datetime < LOG_STARTED_AT_TIMESTAMP,
    ensures
        spec_reconstruct(c) is None,
{
}

/// Law: every reconstructed action satisfies exactly one of the four
/// optional-field patterns.
pub proof fn lemma_action_has_exactly_one_shape(c: CommitView, a: TrackRelatedActionView)
    requires
        spec_reconstruct(c) == Some(a),
    ensures
        spec_exactly_one_shape(a),
{
}

/// Law: a reconstructed action's optional fields agree with its type: an
/// addition carries only a destination, a removal only a source, a transfer
/// and a modification both (a transfer's may coincide only when the log
/// recorded a transfer between identically-identified playlists).
pub proof fn lemma_action_shape_matches_type(c: CommitView, a: TrackRelatedActionView)
    requires
        spec_reconstruct(c) == Some(a),
    ensures
        a.action_type is Addition ==> spec_addition_shape(a),
        a.action_type is Removal ==> spec_removal_shape(a),
        a.action_type is Transfer ==> a.source_playlist_id is Some
            && a.destination_playlist_id is Some,
        a.action_type is Modification ==> spec_modification_shape(a),
{
}

/// Law: a reconstructed modification action carries equal (and set) source
/// and destination playlist ids.
pub proof fn lemma_modification_source_equals_destination(c: CommitView, a: TrackRelatedActionView)
    requires
        spec_reconstruct(c) == Some(a),
        a.action_type is Modification,
    ensures
        a.source_playlist_id is Some,
        a.source_playlist_id == a.destination_playlist_id,
{
}

} // verus!
