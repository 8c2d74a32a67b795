//! Commit model: the hydrated commit a reconstruction works on, the raw
//! shapes the source-control listing and commit endpoints answer with, and
//! the verified computation that turns a raw answer plus fetched file
//! contents into a hydrated [`Commit`].

use vstd::prelude::*;
use crate::strutil::str_eq;

verus! {

/// How a file changed in a commit, from the host's `status` string.
#[derive(Clone, Copy, Debug, PartialEq, Eq, Structural)]
pub enum DiffType {
    Addition,
    Deletion,
    Modification,
    Unknown,
}

/// Mathematical view of a [`CommitFile`].
pub struct CommitFileView {
    pub filename: Seq<char>,
    pub diff_type: DiffType,
    pub added_line_count: u16,
    pub deleted_line_count: u16,
    pub before: Seq<char>,
    pub after: Seq<char>,
}

/// A file changed by a commit, with its full text at the parent revision
/// (`before`, empty for an added file) and at the commit itself (`after`,
/// empty for a deleted file).
#[derive(Debug)]
pub struct CommitFile {
    pub filename: String,
    pub diff_type: DiffType,
    pub added_line_count: u16,
    pub deleted_line_count: u16,
    pub before: String,
    pub after: String,
}

impl View for CommitFile {
    type V = CommitFileView;

    open spec fn view(&self) -> CommitFileView {
        CommitFileView {
            filename: self.filename@,
            diff_type: self.diff_type,
            added_line_count: self.added_line_count,
            deleted_line_count: self.deleted_line_count,
            before: self.before@,
            after: self.after@,
        }
    }
}

/// Mathematical view of a [`Commit`].
pub struct CommitView {
    pub sha: Seq<char>,
    pub committer_name: Seq<char>,
    pub message: Seq<char>,
    pub datetime: i64,
    pub files: Seq<CommitFileView>,
}

/// A fully hydrated commit: metadata plus per-file before/after content.
/// `datetime` is the committer date as a UTC unix timestamp in seconds.
#[derive(Debug)]
pub struct Commit {
    pub sha: String,
    pub committer_name: String,
    pub message: String,
    pub datetime: i64,
    pub files: Vec<CommitFile>,
}

impl View for Commit {
    type V = CommitView;

    open spec fn view(&self) -> CommitView {
        CommitView {
            sha: self.sha@,
            committer_name: self.committer_name@,
            message: self.message@,
            datetime: self.datetime,
            files: self.files@.map_values(|f: CommitFile| f@),
        }
    }
}

/// One entry of the host's commit-listing answer.
#[derive(Debug)]
pub struct CommitMetadata {
    pub sha: String,
}

/// One parent reference in the host's single-commit answer.
#[derive(Debug)]
pub struct CommitItemParent {
    pub sha: String,
    pub url: String,
}

/// One changed file in the host's single-commit answer.
#[derive(Debug)]
pub struct CommitItemFile {
    pub filename: String,
    pub additions: u16,
    pub deletions: u16,
    pub status: String,
}

/// The committer of the host's single-commit answer.
#[derive(Debug)]
pub struct CommitItemCommitCommitter {
    pub name: String,
    pub date: String,
}

/// The nested commit object of the host's single-commit answer.
#[derive(Debug)]
pub struct CommitItemCommit {
    pub committer: CommitItemCommitCommitter,
    pub message: String,
}

/// The host's single-commit answer: metadata, parents and changed files.
#[derive(Debug)]
pub struct CommitItem {
    pub sha: String,
    pub commit: CommitItemCommit,
    pub parents: Vec<CommitItemParent>,
    pub files: Vec<CommitItemFile>,
}

/// Mathematical view of a [`CommitItemFile`].
pub struct CommitItemFileView {
    pub filename: Seq<char>,
    pub additions: u16,
    pub deletions: u16,
    pub status: Seq<char>,
}

impl View for CommitItemFile {
    type V = CommitItemFileView;

    open spec fn view(&self) -> CommitItemFileView {
        CommitItemFileView {
            filename: self.filename@,
            additions: self.additions,
            deletions: self.deletions,
            status: self.status@,
        }
    }
}

/// Mathematical view of a [`CommitItem`].
pub struct CommitItemView {
    pub sha: Seq<char>,
    pub committer_name: Seq<char>,
    pub committer_date: Seq<char>,
    pub message: Seq<char>,
    pub parent_count: nat,
    pub files: Seq<CommitItemFileView>,
}

impl View for CommitItem {
    type V = CommitItemView;

    open spec fn view(&self) -> CommitItemView {
        CommitItemView {
            sha: self.sha@,
            committer_name: self.commit.committer.name@,
            committer_date: self.commit.committer.date@,
            message: self.commit.message@,
            parent_count: self.parents@.len(),
            files: self.files@.map_values(|f: CommitItemFile| f@),
        }
    }
}

/// The mapping of the host's `status` strings onto [`DiffType`].
pub open spec fn spec_status_to_diff_type(s: Seq<char>) -> DiffType {
    if s == "added"@ {
        DiffType::Addition
    } else if s == "removed"@ {
        DiffType::Deletion
    } else if s == "modified"@ {
        DiffType::Modification
    } else {
        DiffType::Unknown
    }
}

/// Maps a `status` string of the host onto the kind of change it denotes.
pub fn status_to_diff_type(status: &str) -> (r: DiffType)
    ensures
        r == spec_status_to_diff_type(status@),
{
    if str_eq(status, "added") {
        DiffType::Addition
    } else if str_eq(status, "removed") {
        DiffType::Deletion
    } else if str_eq(status, "modified") {
        DiffType::Modification
    } else {
        DiffType::Unknown
    }
}

/// The UTC unix timestamp (in seconds) denoted by an ISO-8601 / RFC 3339
/// datetime text, when the text parses.
pub uninterp spec fn utc_timestamp_of(s: Seq<char>) -> Option<i64>;

/// Relies on chrono's `FromStr` for `DateTime<Utc>` and on
/// `DateTime::timestamp`: the denoted instant's unix timestamp, a function
/// of the text alone. Every datetime chrono represents lies between the
/// first instant of year -262143 and the last of year 262142, so the
/// timestamp is bounded accordingly.
#[verifier::external_body]
pub(crate) fn parse_utc_datetime(s: &str) -> (r: Option<i64>)
    ensures
        r == utc_timestamp_of(s@),
        r matches Some(t) ==> -8334601228800 <= t <= 8210266876799,
{
    s.parse::<chrono::DateTime<chrono::Utc>>().ok().map(|d| d.timestamp())
}

/// The hydrated form of one changed file: `before` is forced empty for an
/// added file and `after` for a deleted one, as there is nothing to fetch at
/// the corresponding revision.
pub open spec fn spec_hydrated_file(
    f: CommitItemFileView,
    before: Seq<char>,
    after: Seq<char>,
) -> CommitFileView {
    CommitFileView {
        filename: f.filename,
        diff_type: spec_status_to_diff_type(f.status),
        added_line_count: f.additions,
        deleted_line_count: f.deletions,
        before: if spec_status_to_diff_type(f.status) is Addition {
            Seq::empty()
        } else {
            before
        },
        after: if spec_status_to_diff_type(f.status) is Deletion {
            Seq::empty()
        } else {
            after
        },
    }
}

/// The hydrated commit an answer plus fetched contents denote: `None` when
/// the committer date does not parse; a commit without parents (the
/// repository's initial commit) carries no files.
pub open spec fn spec_commit_item_to_commit(
    item: CommitItemView,
    befores: Seq<Seq<char>>,
    afters: Seq<Seq<char>>,
) -> Option<CommitView> {
    match utc_timestamp_of(item.committer_date) {
        Option::None => None,
        Option::Some(t) => Some(
            CommitView {
                sha: item.sha,
                committer_name: item.committer_name,
                message: item.message,
                datetime: t,
                files: if item.parent_count == 0 {
                    Seq::empty()
                } else {
                    Seq::new(item.files.len(), |i: int| spec_hydrated_file(item.files[i], befores[i], afters[i]))
                },
            },
        ),
    }
}

/// The view of an optional commit.
pub open spec fn view_opt_commit(o: Option<Commit>) -> Option<CommitView> {
    match o {
        Some(c) => Some(c@),
        None => None,
    }
}

/// Turns the host's single-commit answer, together with the raw file
/// contents fetched at the parent revision (`befores`) and at the commit
/// itself (`afters`), one per changed file, into a hydrated [`Commit`].
/// Returns `None` when the committer date does not parse.
pub fn commit_item_to_commit(item: &CommitItem, befores: &Vec<String>, afters: &Vec<String>) -> (r:
    Option<Commit>)
    requires
        befores@.len() == item.files@.len(),
        afters@.len() == item.files@.len(),
    ensures
        view_opt_commit(r) == spec_commit_item_to_commit(
            item@,
            befores@.map_values(|s: String| s@),
            afters@.map_values(|s: String| s@),
        ),
{
    let datetime = match parse_utc_datetime(item.commit.committer.date.as_str()) {
        Some(t) => t,
        None => { return None; },
    };
    let ghost bv = befores@.map_values(|s: String| s@);
    let ghost av = afters@.map_values(|s: String| s@);
    let mut files: Vec<CommitFile> = Vec::new();
    if item.parents.len() > 0 {
        let mut i: usize = 0;
        while i < item.files.len()
            invariant
                i <= item.files@.len(),
                bv == befores@.map_values(|s: String| s@),
                av == afters@.map_values(|s: String| s@),
                bv.len() == item.files@.len(),
                av.len() == item.files@.len(),
                files@.len() == i as nat,
                forall|k: int| 0 <= k < i ==> files@.map_values(|f: CommitFile| f@)[k]
                    == spec_hydrated_file(#[trigger] item.files@[k]@, bv[k], av[k]),
            decreases item.files@.len() - i,
        {
            let f = &item.files[i];
            let diff_type = status_to_diff_type(f.status.as_str());
            let before = if matches!(diff_type, DiffType::Addition) {
                String::new()
            } else {
                befores[i].clone()
            };
            let after = if matches!(diff_type, DiffType::Deletion) {
                String::new()
            } else {
                afters[i].clone()
            };
            files.push(
                CommitFile {
                    filename: f.filename.clone(),
                    diff_type,
                    added_line_count: f.additions,
                    deleted_line_count: f.deletions,
                    before,
                    after,
                },
            );
            i += 1;
        }
    }
    let commit = Commit {
        sha: item.sha.clone(),
        committer_name: item.commit.committer.name.clone(),
        message: item.commit.message.clone(),
        datetime,
        files,
    };
    proof {
        let expected = spec_commit_item_to_commit(item@, bv, av)->0;
        assert(commit@.files =~= expected.files);
        assert(commit@ == expected);
    }
    Some(commit)
}

/// The commit shas of the paged listing answers, flattened in the order the
/// pages came (newest first) and then reversed into ascending, oldest-first
/// order.
pub open spec fn spec_ascending_shas(pages: Seq<Seq<Seq<char>>>) -> Seq<Seq<char>> {
    pages.flatten().reverse()
}

/// Flattens the pages of the host's commit listing (which the host serves in
/// descending order) and reverses them into ascending commit order.
pub fn ascending_shas(pages: &Vec<Vec<String>>) -> (r: Vec<String>)
    ensures
        r@.map_values(|s: String| s@) == spec_ascending_shas(
            pages@.map_values(|p: Vec<String>| p@.map_values(|s: String| s@)),
        ),
{
    let ghost pv = pages@.map_values(|p: Vec<String>| p@.map_values(|s: String| s@));
    let mut flat: Vec<String> = Vec::new();
    let mut i: usize = 0;
    proof {
        assert(pv.take(0) =~= Seq::<Seq<Seq<char>>>::empty());
        assert(pv.take(0).flatten() =~= Seq::<Seq<char>>::empty());
    }
    while i < pages.len()
        invariant
            i <= pages@.len(),
            pv == pages@.map_values(|p: Vec<String>| p@.map_values(|s: String| s@)),
            flat@.map_values(|s: String| s@) == pv.take(i as int).flatten(),
        decreases pages@.len() - i,
    {
        let mut j: usize = 0;
        while j < pages[i].len()
            invariant
                i < pages@.len(),
                j <= pages@[i as int]@.len(),
                pv == pages@.map_values(|p: Vec<String>| p@.map_values(|s: String| s@)),
                flat@.map_values(|s: String| s@) == pv.take(i as int).flatten() + pv[i as int].take(
                    j as int,
                ),
            decreases pages@[i as int]@.len() - j,
        {
            let ghost prev = flat@;
            flat.push(pages[i][j].clone());
            proof {
                let ghost x = pages@[i as int]@[j as int];
                assert(x@ == pv[i as int][j as int]);
                assert(flat@ =~= prev.push(x));
                assert(flat@.map_values(|s: String| s@) =~= prev.map_values(|s: String| s@).push(
                    x@,
                ));
                assert(prev.map_values(|s: String| s@).push(x@) =~= pv.take(i as int).flatten()
                    + pv[i as int].take(j as int + 1));
            }
            j += 1;
        }
        proof {
            assert(pv[i as int].take(pv[i as int].len() as int) =~= pv[i as int]);
            assert(pv.take(i as int).push(pv[i as int]) =~= pv.take(i as int + 1));
            pv.take(i as int).lemma_flatten_push(pv[i as int]);
            assert(flat@.map_values(|s: String| s@) =~= pv.take(i as int + 1).flatten());
        }
        i += 1;
    }
    proof {
        assert(pv.take(pv.len() as int) =~= pv);
    }
    let ghost fv = flat@.map_values(|s: String| s@);
    let mut r: Vec<String> = Vec::new();
    let mut flat = flat;
    while flat.len() > 0
        invariant
            fv == pv.flatten(),
            flat@.map_values(|s: String| s@) == fv.take(flat@.len() as int),
            r@.len() + flat@.len() == fv.len(),
            forall|m: int| 0 <= m < r@.len() ==> (#[trigger] r@[m])@ == fv[fv.len() - 1 - m],
        decreases flat@.len(),
    {
        let ghost before_len = flat@.len() as int;
        let s = flat.pop().unwrap();
        proof {
            assert(s@ == fv.take(before_len)[before_len - 1]);
            assert(fv.take(before_len).drop_last() =~= fv.take(before_len - 1));
        }
        r.push(s);
    }
    proof {
        assert(r@.map_values(|s: String| s@) =~= fv.reverse());
    }
    r
}

} // verus!
