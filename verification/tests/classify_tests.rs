use git_commits_to_bq::classify::{
    TrackRelatedActionType, commit_message_to_track_related_action_type,
};

#[test]
fn track_addition_prefix_classifies_as_addition() {
    assert_eq!(
        commit_message_to_track_related_action_type(":new: Love Story"),
        Some(TrackRelatedActionType::Addition)
    );
}

#[test]
fn track_removal_prefix_classifies_as_removal() {
    assert_eq!(
        commit_message_to_track_related_action_type(":negative_squared_cross_mark: Old Song"),
        Some(TrackRelatedActionType::Removal)
    );
}

#[test]
fn track_transfer_prefix_classifies_as_transfer() {
    assert_eq!(
        commit_message_to_track_related_action_type(":truck: Some Song"),
        Some(TrackRelatedActionType::Transfer)
    );
}

#[test]
fn track_modification_prefix_classifies_as_modification() {
    assert_eq!(
        commit_message_to_track_related_action_type(":pencil2: Some Song"),
        Some(TrackRelatedActionType::Modification)
    );
}

#[test]
fn playlist_creation_takes_precedence_over_track_addition() {
    assert_eq!(
        commit_message_to_track_related_action_type(":new: Create :file_folder: Chill"),
        None
    );
}

#[test]
fn playlist_deletion_takes_precedence_over_track_removal() {
    assert_eq!(
        commit_message_to_track_related_action_type(
            ":negative_squared_cross_mark: Delete :file_folder: Chill"
        ),
        None
    );
}

#[test]
fn playlist_modification_takes_precedence_over_track_modification() {
    assert_eq!(
        commit_message_to_track_related_action_type(":pencil2: Modify :file_folder: Chill"),
        None
    );
}

#[test]
fn unrecognized_message_classifies_as_none() {
    assert_eq!(commit_message_to_track_related_action_type("Initial commit"), None);
    assert_eq!(commit_message_to_track_related_action_type(""), None);
    assert_eq!(commit_message_to_track_related_action_type("new: missing colon"), None);
}

#[test]
fn prefix_must_start_the_message() {
    assert_eq!(commit_message_to_track_related_action_type("x :new: y"), None);
}
