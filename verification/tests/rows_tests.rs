use git_commits_to_bq::classify::TrackRelatedActionType;
use git_commits_to_bq::playlist::{Artist, Track};
use git_commits_to_bq::reconstruct::TrackRelatedAction;
use git_commits_to_bq::rows::{to_insert_rows_request_body, track_related_action_to_table_rows};

fn track(id: &str, name: &str, artists: Vec<Artist>) -> Track {
    Track { id: id.to_string(), name: name.to_string(), artists }
}

fn artist(id: &str, name: &str) -> Artist {
    Artist { id: id.to_string(), name: name.to_string() }
}

fn action(
    action_type: TrackRelatedActionType,
    source: Option<&str>,
    destination: Option<&str>,
    t: Track,
) -> TrackRelatedAction {
    TrackRelatedAction {
        datetime: 1577880000, // 2020-01-01T12:00:00Z
        action_type,
        source_playlist_id: source.map(|s| s.to_string()),
        destination_playlist_id: destination.map(|s| s.to_string()),
        track: t,
    }
}

#[test]
fn addition_emits_action_track_and_artist_rows() {
    let actions = vec![action(
        TrackRelatedActionType::Addition,
        None,
        Some("p1"),
        track("t1", "Love Story", vec![artist("a1", "TS")]),
    )];
    let (action_rows, track_rows, artist_rows) = track_related_action_to_table_rows(actions);
    assert_eq!(action_rows.len(), 1);
    assert_eq!(action_rows[0].timestamp, "2020-01-01T12:00:00+00:00");
    assert_eq!(action_rows[0].action_type, "addition");
    assert_eq!(action_rows[0].source_playlist_id, None);
    assert_eq!(action_rows[0].destination_playlist_id, Some("p1".to_string()));
    assert_eq!(action_rows[0].track_id, "t1");
    assert_eq!(track_rows.len(), 1);
    assert_eq!(track_rows[0].id, "t1");
    assert_eq!(track_rows[0].name, "Love Story");
    assert_eq!(track_rows[0].artist_ids, vec!["a1".to_string()]);
    assert_eq!(artist_rows.len(), 1);
    assert_eq!(artist_rows[0].id, "a1");
    assert_eq!(artist_rows[0].name, "TS");
}

#[test]
fn modification_emits_no_action_row_but_refreshes_tables() {
    let actions = vec![action(
        TrackRelatedActionType::Modification,
        Some("pX"),
        Some("pX"),
        track("t3", "v2", vec![artist("a3", "Y")]),
    )];
    let (action_rows, track_rows, artist_rows) = track_related_action_to_table_rows(actions);
    assert_eq!(action_rows.len(), 0);
    assert_eq!(track_rows.len(), 1);
    assert_eq!(track_rows[0].id, "t3");
    assert_eq!(track_rows[0].name, "v2");
    assert_eq!(artist_rows.len(), 1);
    assert_eq!(artist_rows[0].id, "a3");
}

#[test]
fn removal_and_transfer_emit_only_action_rows() {
    let actions = vec![
        action(
            TrackRelatedActionType::Removal,
            Some("p1"),
            None,
            track("t7", "Old", vec![artist("a7", "Z")]),
        ),
        action(
            TrackRelatedActionType::Transfer,
            Some("pA"),
            Some("pB"),
            track("t9", "Moved", vec![artist("a9", "W")]),
        ),
    ];
    let (action_rows, track_rows, artist_rows) = track_related_action_to_table_rows(actions);
    assert_eq!(action_rows.len(), 2);
    assert_eq!(action_rows[0].action_type, "removal");
    assert_eq!(action_rows[1].action_type, "transfer");
    assert_eq!(action_rows[1].source_playlist_id, Some("pA".to_string()));
    assert_eq!(action_rows[1].destination_playlist_id, Some("pB".to_string()));
    assert_eq!(track_rows.len(), 0);
    assert_eq!(artist_rows.len(), 0);
}

#[test]
fn repeated_track_id_keeps_latest_observation() {
    let actions = vec![
        action(
            TrackRelatedActionType::Addition,
            None,
            Some("p1"),
            track("t1", "v1", vec![artist("a1", "X")]),
        ),
        action(
            TrackRelatedActionType::Modification,
            Some("p1"),
            Some("p1"),
            track("t1", "v2", vec![artist("a1", "X renamed")]),
        ),
    ];
    let (action_rows, track_rows, artist_rows) = track_related_action_to_table_rows(actions);
    assert_eq!(action_rows.len(), 1);
    assert_eq!(track_rows.len(), 1);
    assert_eq!(track_rows[0].id, "t1");
    assert_eq!(track_rows[0].name, "v2");
    assert_eq!(artist_rows.len(), 1);
    assert_eq!(artist_rows[0].name, "X renamed");
}

#[test]
fn table_ids_cover_exactly_the_upserted_tracks_and_artists() {
    let actions = vec![
        action(
            TrackRelatedActionType::Addition,
            None,
            Some("p1"),
            track("t1", "A", vec![artist("a1", "X"), artist("a2", "Y")]),
        ),
        action(
            TrackRelatedActionType::Removal,
            Some("p1"),
            None,
            track("t8", "R", vec![artist("a8", "Q")]),
        ),
        action(
            TrackRelatedActionType::Modification,
            Some("p2"),
            Some("p2"),
            track("t2", "B", vec![artist("a2", "Y"), artist("a3", "Z")]),
        ),
    ];
    let (_action_rows, track_rows, artist_rows) = track_related_action_to_table_rows(actions);
    let mut track_ids: Vec<String> = track_rows.iter().map(|r| r.id.clone()).collect();
    track_ids.sort();
    assert_eq!(track_ids, vec!["t1".to_string(), "t2".to_string()]);
    let mut artist_ids: Vec<String> = artist_rows.iter().map(|r| r.id.clone()).collect();
    artist_ids.sort();
    assert_eq!(artist_ids, vec!["a1".to_string(), "a2".to_string(), "a3".to_string()]);
}

#[test]
fn duplicate_artist_id_within_a_track_keeps_latest() {
    let actions = vec![action(
        TrackRelatedActionType::Addition,
        None,
        Some("p1"),
        track("t1", "A", vec![artist("a1", "first"), artist("a1", "second")]),
    )];
    let (_action_rows, _track_rows, artist_rows) = track_related_action_to_table_rows(actions);
    assert_eq!(artist_rows.len(), 1);
    assert_eq!(artist_rows[0].id, "a1");
    assert_eq!(artist_rows[0].name, "second");
}

#[test]
fn unrenderable_datetime_gives_empty_timestamp() {
    let mut a = action(
        TrackRelatedActionType::Removal,
        Some("p1"),
        None,
        track("t1", "A", vec![]),
    );
    a.datetime = i64::MAX;
    let (action_rows, _track_rows, _artist_rows) = track_related_action_to_table_rows(vec![a]);
    assert_eq!(action_rows.len(), 1);
    assert_eq!(action_rows[0].timestamp, "");
}

#[test]
fn insert_request_body_wraps_each_row() {
    let body = to_insert_rows_request_body(vec![1u64, 2u64, 3u64]);
    assert_eq!(body.rows.len(), 3);
    assert_eq!(body.rows[0].json, 1);
    assert_eq!(body.rows[1].json, 2);
    assert_eq!(body.rows[2].json, 3);
}
