//! Playlist differ: identifies the track added to or removed from a playlist
//! between two snapshots, and the track whose name or artists changed.

use vstd::prelude::*;
use crate::playlist::{Playlist, PlaylistView, Track, TrackView};

verus! {

/// The view of an optional track.
pub open spec fn view_opt_track(o: Option<Track>) -> Option<TrackView> {
    match o {
        Some(t) => Some(t@),
        None => None,
    }
}

/// Track equality of the log: names match and the artist sequences are
/// pairwise equal in `(id, name)`. Track ids are not compared, and artist
/// order matters (the comparison is positional).
pub open spec fn spec_tracks_equal(t1: TrackView, t2: TrackView) -> bool {
    &&& t1.name == t2.name
    &&& t1.artists.len() == t2.artists.len()
    &&& forall|k: int| 0 <= k < t1.artists.len() ==>
            (#[trigger] t1.artists[k]).id == t2.artists[k].id
            && t1.artists[k].name == t2.artists[k].name
}

/// Some track of `tracks` has the id `id`.
pub open spec fn spec_contains_id(tracks: Seq<TrackView>, id: Seq<char>) -> bool {
    exists|k: int| 0 <= k < tracks.len() && (#[trigger] tracks[k]).id == id
}

/// The first track of `larger` whose id occurs nowhere in `smaller`.
pub open spec fn spec_first_extra(larger: Seq<TrackView>, smaller: Seq<TrackView>) -> Option<
    TrackView,
>
    decreases larger.len(),
{
    if larger.len() == 0 {
        None
    } else if !spec_contains_id(smaller, larger[0].id) {
        Some(larger[0])
    } else {
        spec_first_extra(larger.drop_first(), smaller)
    }
}

/// The single track present in the larger playlist but missing from the
/// smaller one, by id. On a size tie the second playlist is searched.
pub open spec fn spec_identify_extra_track(p1: PlaylistView, p2: PlaylistView) -> Option<
    TrackView,
> {
    if p1.tracks.len() > p2.tracks.len() {
        spec_first_extra(p1.tracks, p2.tracks)
    } else {
        spec_first_extra(p2.tracks, p1.tracks)
    }
}

/// The last track of `tracks` with the id `id`; meaningful only when
/// `spec_contains_id(tracks, id)`.
pub open spec fn spec_last_with_id(tracks: Seq<TrackView>, id: Seq<char>) -> TrackView
    decreases tracks.len(),
{
    if tracks.len() == 0 {
        arbitrary()
    } else if tracks.last().id == id {
        tracks.last()
    } else {
        spec_last_with_id(tracks.drop_last(), id)
    }
}

/// The first track of `ts2` whose id also occurs in `ts1` but which is not
/// track-equal to the corresponding (last-by-id) track of `ts1`.
pub open spec fn spec_first_modified(ts1: Seq<TrackView>, ts2: Seq<TrackView>) -> Option<
    TrackView,
>
    decreases ts2.len(),
{
    if ts2.len() == 0 {
        None
    } else if spec_contains_id(ts1, ts2[0].id) && !spec_tracks_equal(
        ts2[0],
        spec_last_with_id(ts1, ts2[0].id),
    ) {
        Some(ts2[0])
    } else {
        spec_first_modified(ts1, ts2.drop_first())
    }
}

/// The first track of `p2` whose id persists from `p1` but whose name or
/// artists changed.
pub open spec fn spec_identify_modified_track(p1: PlaylistView, p2: PlaylistView) -> Option<
    TrackView,
> {
    spec_first_modified(p1.tracks, p2.tracks)
}

/// Whether two tracks are equal under the log's track-equality rule.
pub fn tracks_equal(track1: &Track, track2: &Track) -> (r: bool)
    ensures
        r == spec_tracks_equal(track1@, track2@),
{
    if !(track1.name == track2.name) {
        return false;
    }
    if track1.artists.len() != track2.artists.len() {
        return false;
    }
    let mut k: usize = 0;
    while k < track1.artists.len()
        invariant
            k <= track1.artists@.len(),
            track1.artists@.len() == track2.artists@.len(),
            forall|m: int| 0 <= m < k ==> (#[trigger] track1@.artists[m]).id
                == track2@.artists[m].id && track1@.artists[m].name == track2@.artists[m].name,
        decreases track1.artists@.len() - k,
    {
        if !(track1.artists[k].id == track2.artists[k].id)
            || !(track1.artists[k].name == track2.artists[k].name) {
            proof {
                assert(track1@.artists[k as int] == track1.artists@[k as int]@);
                assert(track2@.artists[k as int] == track2.artists@[k as int]@);
                assert(!spec_tracks_equal(track1@, track2@));
            }
            return false;
        }
        proof {
            assert(track1@.artists[k as int] == track1.artists@[k as int]@);
            assert(track2@.artists[k as int] == track2.artists@[k as int]@);
        }
        k += 1;
    }
    true
}

/// Whether some track of `tracks` carries the id `id`.
fn contains_track_id(tracks: &Vec<Track>, id: &String) -> (r: bool)
    ensures
        r == spec_contains_id(tracks@.map_values(|t: Track| t@), id@),
{
    let ghost tv = tracks@.map_values(|t: Track| t@);
    let mut k: usize = 0;
    while k < tracks.len()
        invariant
            k <= tv.len(),
            tv == tracks@.map_values(|t: Track| t@),
            forall|m: int| 0 <= m < k ==> (#[trigger] tv[m]).id != id@,
        decreases tv.len() - k,
    {
        if tracks[k].id == *id {
            proof {
                assert(tv[k as int] == tracks@[k as int]@);
                assert(tv[k as int].id == id@);
                assert(spec_contains_id(tv, id@));
            }
            return true;
        }
        proof {
            assert(tv[k as int] == tracks@[k as int]@);
        }
        k += 1;
    }
    false
}

/// The last track of `tracks` carrying the id `id`, when any does.
fn find_last_with_id<'a>(tracks: &'a Vec<Track>, id: &String) -> (r: Option<&'a Track>)
    ensures
        ({
            let tv = tracks@.map_values(|t: Track| t@);
            match r {
                Some(t) => spec_contains_id(tv, id@) && t@ == spec_last_with_id(tv, id@),
                None => !spec_contains_id(tv, id@),
            }
        }),
{
    let ghost tv = tracks@.map_values(|t: Track| t@);
    proof {
        assert(tv.take(tv.len() as int) =~= tv);
    }
    let mut k: usize = tracks.len();
    while k > 0
        invariant
            k <= tv.len(),
            tv == tracks@.map_values(|t: Track| t@),
            spec_contains_id(tv, id@) == spec_contains_id(tv.take(k as int), id@),
            spec_contains_id(tv, id@) ==> spec_last_with_id(tv, id@) == spec_last_with_id(
                tv.take(k as int),
                id@,
            ),
        decreases k,
    {
        if tracks[k - 1].id == *id {
            proof {
                assert(tv.take(k as int).last() == tv[k as int - 1]);
                assert(tv.take(k as int)[k as int - 1].id == id@);
                assert(spec_contains_id(tv.take(k as int), id@));
                assert(spec_last_with_id(tv.take(k as int), id@) == tv[k as int - 1]);
            }
            return Some(&tracks[k - 1]);
        }
        proof {
            assert(tv.take(k as int).drop_last() =~= tv.take(k as int - 1));
            assert(spec_contains_id(tv.take(k as int), id@) == spec_contains_id(
                tv.take(k as int - 1),
                id@,
            )) by {
                if spec_contains_id(tv.take(k as int - 1), id@) {
                    let w = choose|m: int| 0 <= m < tv.take(k as int - 1).len()
                        && (#[trigger] tv.take(k as int - 1)[m]).id == id@;
                    assert(tv.take(k as int)[w].id == id@);
                }
                if spec_contains_id(tv.take(k as int), id@) {
                    let w = choose|m: int| 0 <= m < tv.take(k as int).len()
                        && (#[trigger] tv.take(k as int)[m]).id == id@;
                    assert(w != k - 1);
                    assert(tv.take(k as int - 1)[w].id == id@);
                }
            }
        }
        k -= 1;
    }
    proof {
        assert(tv.take(0) =~= Seq::<TrackView>::empty());
    }
    None
}

/// Determines the single track present in the larger of the two playlists
/// but not in the smaller one, by id; `None` when every track of the larger
/// playlist also occurs in the smaller one.
pub fn identify_extra_track(playlist1: &Playlist, playlist2: &Playlist) -> (r: Option<Track>)
    ensures
        view_opt_track(r) == spec_identify_extra_track(playlist1@, playlist2@),
{
    let (with_extra, without_extra) = if playlist1.tracks.len() > playlist2.tracks.len() {
        (playlist1, playlist2)
    } else {
        (playlist2, playlist1)
    };
    let ghost lv = with_extra@.tracks;
    let ghost sv = without_extra@.tracks;
    proof {
        assert(spec_identify_extra_track(playlist1@, playlist2@) == spec_first_extra(lv, sv));
        assert(lv.skip(0) =~= lv);
    }
    let mut k: usize = 0;
    while k < with_extra.tracks.len()
        invariant
            k <= lv.len(),
            lv == with_extra@.tracks,
            sv == without_extra@.tracks,
            spec_identify_extra_track(playlist1@, playlist2@) == spec_first_extra(
                lv.skip(k as int),
                sv,
            ),
        decreases lv.len() - k,
    {
        let found = contains_track_id(&without_extra.tracks, &with_extra.tracks[k].id);
        proof {
            assert(lv.skip(k as int)[0] == lv[k as int]);
        }
        if !found {
            return Some(with_extra.tracks[k].clone());
        }
        proof {
            assert(lv.skip(k as int).drop_first() =~= lv.skip(k as int + 1));
        }
        k += 1;
    }
    proof {
        assert(lv.skip(lv.len() as int) =~= Seq::<TrackView>::empty());
    }
    None
}

/// Returns the first track of `playlist2` whose id also occurs in
/// `playlist1` but whose name or artists differ; `None` when no track
/// changed.
pub fn identify_modified_track(playlist1: &Playlist, playlist2: &Playlist) -> (r: Option<Track>)
    ensures
        view_opt_track(r) == spec_identify_modified_track(playlist1@, playlist2@),
{
    let ghost tv1 = playlist1@.tracks;
    let ghost tv2 = playlist2@.tracks;
    proof {
        assert(tv2.skip(0) =~= tv2);
    }
    let mut k: usize = 0;
    while k < playlist2.tracks.len()
        invariant
            k <= tv2.len(),
            tv1 == playlist1@.tracks,
            tv2 == playlist2@.tracks,
            spec_first_modified(tv1, tv2) == spec_first_modified(tv1, tv2.skip(k as int)),
        decreases tv2.len() - k,
    {
        let t2 = &playlist2.tracks[k];
        proof {
            assert(tv2.skip(k as int)[0] == tv2[k as int]);
        }
        let corresponding = find_last_with_id(&playlist1.tracks, &t2.id);
        match corresponding {
            Some(t1) => {
                if !tracks_equal(t2, t1) {
                    return Some(t2.clone());
                }
            },
            None => {},
        }
        proof {
            assert(tv2.skip(k as int).drop_first() =~= tv2.skip(k as int + 1));
        }
        k += 1;
    }
    proof {
        assert(tv2.skip(tv2.len() as int) =~= Seq::<TrackView>::empty());
    }
    None
}

/// Law: the extra-track search does not depend on the order of its
/// arguments whenever the two playlists have different track counts (in
/// particular whenever they differ by one).
pub proof fn lemma_identify_extra_track_symmetric(p1: PlaylistView, p2: PlaylistView)
    requires
        p1.tracks.len() != p2.tracks.len(),
    ensures
        spec_identify_extra_track(p1, p2) == spec_identify_extra_track(p2, p1),
{
}

/// Law: track equality is reflexive.
pub proof fn lemma_tracks_equal_reflexive(t: TrackView)
    ensures
        spec_tracks_equal(t, t),
{
}

/// Law: track equality is symmetric.
pub proof fn lemma_tracks_equal_symmetric(t1: TrackView, t2: TrackView)
    ensures
        spec_tracks_equal(t1, t2) == spec_tracks_equal(t2, t1),
{
}

} // verus!
