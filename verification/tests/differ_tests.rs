use git_commits_to_bq::differ::{identify_extra_track, identify_modified_track, tracks_equal};
use git_commits_to_bq::playlist::{Artist, Playlist, Track};

fn track(id: &str, name: &str, artists: Vec<Artist>) -> Track {
    Track { id: id.to_string(), name: name.to_string(), artists }
}

fn artist(id: &str, name: &str) -> Artist {
    Artist { id: id.to_string(), name: name.to_string() }
}

fn playlist(id: &str, tracks: Vec<Track>) -> Playlist {
    Playlist { id: id.to_string(), name: "P".to_string(), tracks }
}

#[test]
fn extra_track_found_in_larger_playlist() {
    let p1 = playlist("p", vec![track("t1", "A", vec![])]);
    let p2 = playlist("p", vec![track("t1", "A", vec![]), track("t2", "B", vec![])]);
    let extra = identify_extra_track(&p1, &p2).expect("expected the extra track");
    assert_eq!(extra.id, "t2");
}

#[test]
fn extra_track_is_symmetric_when_counts_differ() {
    let p1 = playlist("p", vec![track("t1", "A", vec![])]);
    let p2 = playlist("p", vec![track("t1", "A", vec![]), track("t2", "B", vec![])]);
    let one_way = identify_extra_track(&p1, &p2).expect("expected the extra track");
    let other_way = identify_extra_track(&p2, &p1).expect("expected the extra track");
    assert_eq!(one_way.id, other_way.id);
    assert_eq!(one_way.name, other_way.name);
}

#[test]
fn extra_track_none_when_playlists_agree() {
    let p1 = playlist("p", vec![track("t1", "A", vec![])]);
    let p2 = playlist("p", vec![track("t1", "A", vec![])]);
    assert!(identify_extra_track(&p1, &p2).is_none());
}

#[test]
fn modified_track_found_on_rename() {
    let p1 = playlist("p", vec![track("t1", "A", vec![artist("a1", "X")])]);
    let p2 = playlist("p", vec![track("t1", "B", vec![artist("a1", "X")])]);
    let modified = identify_modified_track(&p1, &p2).expect("expected the modified track");
    assert_eq!(modified.id, "t1");
    assert_eq!(modified.name, "B");
}

#[test]
fn modified_track_none_when_nothing_changed() {
    let p1 = playlist("p", vec![track("t1", "A", vec![artist("a1", "X")])]);
    let p2 = playlist("p", vec![track("t1", "A", vec![artist("a1", "X")])]);
    assert!(identify_modified_track(&p1, &p2).is_none());
}

#[test]
fn modified_track_ignores_new_track_ids() {
    let p1 = playlist("p", vec![track("t1", "A", vec![])]);
    let p2 = playlist("p", vec![track("t2", "B", vec![])]);
    assert!(identify_modified_track(&p1, &p2).is_none());
}

#[test]
fn modified_track_compares_against_last_occurrence_of_an_id() {
    let p1 = playlist("p", vec![track("t1", "old", vec![]), track("t1", "new", vec![])]);
    let p2 = playlist("p", vec![track("t1", "new", vec![])]);
    assert!(identify_modified_track(&p1, &p2).is_none());
    let p3 = playlist("p", vec![track("t1", "old", vec![])]);
    let changed = identify_modified_track(&p1, &p3).expect("expected the modified track");
    assert_eq!(changed.name, "old");
}

#[test]
fn tracks_equal_is_reflexive_on_a_sample() {
    let t = track("t1", "A", vec![artist("a1", "X"), artist("a2", "Y")]);
    assert!(tracks_equal(&t, &t));
}

#[test]
fn tracks_equal_is_symmetric_on_a_sample() {
    let t1 = track("t1", "A", vec![artist("a1", "X")]);
    let t2 = track("t2", "A", vec![artist("a1", "X")]);
    assert_eq!(tracks_equal(&t1, &t2), tracks_equal(&t2, &t1));
    assert!(tracks_equal(&t1, &t2));
}

#[test]
fn tracks_equal_ignores_track_ids() {
    let t1 = track("t1", "A", vec![artist("a1", "X")]);
    let t2 = track("t9", "A", vec![artist("a1", "X")]);
    assert!(tracks_equal(&t1, &t2));
}

#[test]
fn tracks_equal_is_positional_in_artists() {
    let t1 = track("t1", "A", vec![artist("a1", "X"), artist("a2", "Y")]);
    let t2 = track("t1", "A", vec![artist("a2", "Y"), artist("a1", "X")]);
    assert!(!tracks_equal(&t1, &t2));
}

#[test]
fn tracks_equal_detects_name_change() {
    let t1 = track("t1", "A", vec![]);
    let t2 = track("t1", "B", vec![]);
    assert!(!tracks_equal(&t1, &t2));
}

#[test]
fn tracks_equal_detects_artist_rename() {
    let t1 = track("t1", "A", vec![artist("a1", "X")]);
    let t2 = track("t1", "A", vec![artist("a1", "Z")]);
    assert!(!tracks_equal(&t1, &t2));
}
