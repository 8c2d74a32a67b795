use git_commits_to_bq::commit::{
    ascending_shas, commit_item_to_commit, status_to_diff_type, CommitItem, CommitItemCommit,
    CommitItemCommitCommitter, CommitItemFile, CommitItemParent, DiffType,
};
use git_commits_to_bq::reconstruct::actions_from_commits;
use git_commits_to_bq::classify::TrackRelatedActionType;

fn item_file(filename: &str, additions: u16, deletions: u16, status: &str) -> CommitItemFile {
    CommitItemFile {
        filename: filename.to_string(),
        additions,
        deletions,
        status: status.to_string(),
    }
}

fn item(date: &str, parents: Vec<&str>, files: Vec<CommitItemFile>) -> CommitItem {
    CommitItem {
        sha: "abc123".to_string(),
        commit: CommitItemCommit {
            committer: CommitItemCommitCommitter {
                name: "GitHub Actions".to_string(),
                date: date.to_string(),
            },
            message: ":new: Love Story".to_string(),
        },
        parents: parents
            .into_iter()
            .map(|sha| CommitItemParent { sha: sha.to_string(), url: "".to_string() })
            .collect(),
        files,
    }
}

#[test]
fn status_strings_map_to_diff_types() {
    assert_eq!(status_to_diff_type("added"), DiffType::Addition);
    assert_eq!(status_to_diff_type("removed"), DiffType::Deletion);
    assert_eq!(status_to_diff_type("modified"), DiffType::Modification);
    assert_eq!(status_to_diff_type("renamed"), DiffType::Unknown);
    assert_eq!(status_to_diff_type(""), DiffType::Unknown);
}

#[test]
fn commit_item_hydrates_with_contents() {
    let it = item(
        "2020-01-01T12:00:00Z",
        vec!["parent1"],
        vec![item_file("playlists/p1.json", 1, 0, "modified")],
    );
    let commit = commit_item_to_commit(
        &it,
        &vec!["before text".to_string()],
        &vec!["after text".to_string()],
    )
    .expect("expected a commit");
    assert_eq!(commit.sha, "abc123");
    assert_eq!(commit.committer_name, "GitHub Actions");
    assert_eq!(commit.message, ":new: Love Story");
    assert_eq!(commit.datetime, 1577880000);
    assert_eq!(commit.files.len(), 1);
    assert_eq!(commit.files[0].filename, "playlists/p1.json");
    assert_eq!(commit.files[0].diff_type, DiffType::Modification);
    assert_eq!(commit.files[0].added_line_count, 1);
    assert_eq!(commit.files[0].deleted_line_count, 0);
    assert_eq!(commit.files[0].before, "before text");
    assert_eq!(commit.files[0].after, "after text");
}

#[test]
fn added_file_gets_empty_before_and_deleted_file_empty_after() {
    let it = item(
        "2020-01-01T12:00:00Z",
        vec!["parent1"],
        vec![
            item_file("playlists/new.json", 5, 0, "added"),
            item_file("playlists/gone.json", 0, 5, "removed"),
        ],
    );
    let commit = commit_item_to_commit(
        &it,
        &vec!["ignored".to_string(), "kept".to_string()],
        &vec!["kept".to_string(), "ignored".to_string()],
    )
    .expect("expected a commit");
    assert_eq!(commit.files[0].before, "");
    assert_eq!(commit.files[0].after, "kept");
    assert_eq!(commit.files[1].before, "kept");
    assert_eq!(commit.files[1].after, "");
}

#[test]
fn commit_without_parents_has_no_files() {
    let it = item(
        "2019-10-02T23:59:59Z",
        vec![],
        vec![item_file("playlists/p1.json", 1, 0, "added")],
    );
    let commit = commit_item_to_commit(
        &it,
        &vec!["x".to_string()],
        &vec!["y".to_string()],
    )
    .expect("expected a commit");
    assert_eq!(commit.files.len(), 0);
}

#[test]
fn unparsable_date_yields_none() {
    let it = item("yesterday at noon", vec!["parent1"], vec![]);
    assert!(commit_item_to_commit(&it, &vec![], &vec![]).is_none());
}

#[test]
fn offset_date_converts_to_utc_timestamp() {
    let it = item("2020-01-01T13:00:00+01:00", vec![], vec![]);
    let commit = commit_item_to_commit(&it, &vec![], &vec![]).expect("expected a commit");
    assert_eq!(commit.datetime, 1577880000);
}

#[test]
fn pages_flatten_and_reverse_into_ascending_order() {
    let pages = vec![
        vec!["newest".to_string(), "newer".to_string()],
        vec!["older".to_string(), "oldest".to_string()],
    ];
    let shas = ascending_shas(&pages);
    assert_eq!(
        shas,
        vec![
            "oldest".to_string(),
            "older".to_string(),
            "newer".to_string(),
            "newest".to_string(),
        ]
    );
}

#[test]
fn empty_pages_yield_no_shas() {
    let shas = ascending_shas(&vec![]);
    assert_eq!(shas.len(), 0);
}

#[test]
fn action_stream_follows_commit_order_and_drops_non_log_commits() {
    let before = "{\"id\":\"p1\",\"name\":\"A\",\"tracks\":[]}";
    let after = "{\"id\":\"p1\",\"name\":\"A\",\"tracks\":[{\"id\":\"t1\",\"name\":\"S\",\"artists\":[]}]}";
    let it_good = item(
        "2020-01-01T12:00:00Z",
        vec!["parent1"],
        vec![item_file("playlists/p1.json", 1, 0, "modified")],
    );
    let good = commit_item_to_commit(
        &it_good,
        &vec![before.to_string()],
        &vec![after.to_string()],
    )
    .expect("expected a commit");
    let mut stray = commit_item_to_commit(
        &it_good,
        &vec![before.to_string()],
        &vec![after.to_string()],
    )
    .expect("expected a commit");
    stray.committer_name = "someone".to_string();
    let actions = actions_from_commits(&vec![stray, good]);
    assert_eq!(actions.len(), 1);
    assert_eq!(actions[0].action_type, TrackRelatedActionType::Addition);
    assert_eq!(actions[0].track.id, "t1");
}
