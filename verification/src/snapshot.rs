//! Snapshot parser: reads the JSON serialization of a playlist into a
//! [`Playlist`] value.
//!
//! The JSON text is queried through trusted projections onto serde_json.
//! Each projection is a pure function of the text (and indices) alone, so its
//! result carries a name (`playlist_id_of`, `track_id_of`, ...); the parser
//! itself is verified, and its contract pins the result to those names.

use vstd::prelude::*;
use crate::playlist::{Artist, ArtistView, Playlist, PlaylistView, Track, TrackView};
use crate::strutil::view_opt_str;

verus! {

/// The `id` field of the root object of the JSON text, when the text parses
/// as an object with a string `id`.
pub uninterp spec fn playlist_id_of(s: Seq<char>) -> Option<Seq<char>>;

/// The `name` field of the root object, when present as a string.
pub uninterp spec fn playlist_name_of(s: Seq<char>) -> Option<Seq<char>>;

/// The length of the `tracks` array of the root object, when present.
pub uninterp spec fn track_count_of(s: Seq<char>) -> Option<usize>;

/// The string `id` field of the `i`-th element of `tracks`, when present.
pub uninterp spec fn track_id_of(s: Seq<char>, i: usize) -> Option<Seq<char>>;

/// The string `name` field of the `i`-th element of `tracks`, when present.
pub uninterp spec fn track_name_of(s: Seq<char>, i: usize) -> Option<Seq<char>>;

/// The length of the `artists` array of the `i`-th element of `tracks`.
pub uninterp spec fn artist_count_of(s: Seq<char>, i: usize) -> Option<usize>;

/// The string `id` of the `j`-th artist of the `i`-th track, when present.
pub uninterp spec fn artist_id_of(s: Seq<char>, i: usize, j: usize) -> Option<Seq<char>>;

/// The string `name` of the `j`-th artist of the `i`-th track, when present.
pub uninterp spec fn artist_name_of(s: Seq<char>, i: usize, j: usize) -> Option<Seq<char>>;

/// Relies on `serde_json::from_str` and `Value::{get, as_str}`: the root
/// object's string `id` field. The result depends on the text alone; an
/// empty text is not valid JSON and yields `None`.
#[verifier::external_body]
fn json_playlist_id(s: &str) -> (r: Option<String>)
    ensures
        view_opt_str(r) == playlist_id_of(s@),
        s@.len() == 0 ==> r is None,
{
    let v: serde_json::Value = serde_json::from_str(s).ok()?;
    v.get("id")?.as_str().map(|x| x.to_string())
}

/// Relies on `serde_json::from_str` and `Value::{get, as_str}`: the root
/// object's string `name` field. The result depends on the text alone.
#[verifier::external_body]
fn json_playlist_name(s: &str) -> (r: Option<String>)
    ensures
        view_opt_str(r) == playlist_name_of(s@),
{
    let v: serde_json::Value = serde_json::from_str(s).ok()?;
    v.get("name")?.as_str().map(|x| x.to_string())
}

/// Relies on `serde_json::from_str` and `Value::{get, as_array}`: the length
/// of the root object's `tracks` array. The result depends on the text alone.
#[verifier::external_body]
fn json_track_count(s: &str) -> (r: Option<usize>)
    ensures
        r == track_count_of(s@),
{
    let v: serde_json::Value = serde_json::from_str(s).ok()?;
    v.get("tracks")?.as_array().map(|a| a.len())
}

/// Relies on `serde_json::from_str` and `Value::{get, as_str}`: the string
/// `id` of the `i`-th track. The result depends on the text and index alone.
#[verifier::external_body]
fn json_track_id(s: &str, i: usize) -> (r: Option<String>)
    ensures
        view_opt_str(r) == track_id_of(s@, i),
{
    let v: serde_json::Value = serde_json::from_str(s).ok()?;
    v.get("tracks")?.get(i)?.get("id")?.as_str().map(|x| x.to_string())
}

/// Relies on `serde_json::from_str` and `Value::{get, as_str}`: the string
/// `name` of the `i`-th track. The result depends on the text and index alone.
#[verifier::external_body]
fn json_track_name(s: &str, i: usize) -> (r: Option<String>)
    ensures
        view_opt_str(r) == track_name_of(s@, i),
{
    let v: serde_json::Value = serde_json::from_str(s).ok()?;
    v.get("tracks")?.get(i)?.get("name")?.as_str().map(|x| x.to_string())
}

/// Relies on `serde_json::from_str` and `Value::{get, as_array}`: the length
/// of the `artists` array of the `i`-th track. The result depends on the
/// text and index alone.
#[verifier::external_body]
fn json_artist_count(s: &str, i: usize) -> (r: Option<usize>)
    ensures
        r == artist_count_of(s@, i),
{
    let v: serde_json::Value = serde_json::from_str(s).ok()?;
    v.get("tracks")?.get(i)?.get("artists")?.as_array().map(|a| a.len())
}

/// Relies on `serde_json::from_str` and `Value::{get, as_str}`: the string
/// `id` of the `j`-th artist of the `i`-th track. The result depends on the
/// text and indices alone.
#[verifier::external_body]
fn json_artist_id(s: &str, i: usize, j: usize) -> (r: Option<String>)
    ensures
        view_opt_str(r) == artist_id_of(s@, i, j),
{
    let v: serde_json::Value = serde_json::from_str(s).ok()?;
    v.get("tracks")?.get(i)?.get("artists")?.get(j)?.get("id")?.as_str().map(|x| x.to_string())
}

/// Relies on `serde_json::from_str` and `Value::{get, as_str}`: the string
/// `name` of the `j`-th artist of the `i`-th track. The result depends on
/// the text and indices alone.
#[verifier::external_body]
fn json_artist_name(s: &str, i: usize, j: usize) -> (r: Option<String>)
    ensures
        view_opt_str(r) == artist_name_of(s@, i, j),
{
    let v: serde_json::Value = serde_json::from_str(s).ok()?;
    v.get("tracks")?.get(i)?.get("artists")?.get(j)?.get("name")?.as_str().map(|x| x.to_string())
}

/// The `j`-th artist of the `i`-th track of the text, when both of its
/// fields are present.
pub open spec fn spec_artist_at(s: Seq<char>, i: usize, j: usize) -> Option<ArtistView> {
    if artist_id_of(s, i, j) is Some && artist_name_of(s, i, j) is Some {
        Some(ArtistView { id: artist_id_of(s, i, j)->0, name: artist_name_of(s, i, j)->0 })
    } else {
        None
    }
}

/// Every field the `i`-th track needs is present in the text.
pub open spec fn spec_track_fields_ok(s: Seq<char>, i: usize) -> bool {
    &&& track_id_of(s, i) is Some
    &&& track_name_of(s, i) is Some
    &&& artist_count_of(s, i) is Some
    &&& forall|j: usize| j < artist_count_of(s, i)->0 ==> (#[trigger] spec_artist_at(s, i, j)) is Some
}

/// The `i`-th track of the text, meaningful when `spec_track_fields_ok`.
pub open spec fn spec_track_at(s: Seq<char>, i: usize) -> TrackView {
    TrackView {
        id: track_id_of(s, i)->0,
        name: track_name_of(s, i)->0,
        artists: Seq::new(
            artist_count_of(s, i)->0 as nat,
            |j: int| spec_artist_at(s, i, j as usize)->0,
        ),
    }
}

/// The playlist a JSON text denotes: present exactly when the root object
/// carries a string `id`, a string `name`, and a `tracks` array each of
/// whose elements carries a string `id`, a string `name` and an `artists`
/// array of objects with string `id` and `name`. Unknown fields are ignored.
pub open spec fn spec_parse_playlist(s: Seq<char>) -> Option<PlaylistView> {
    if playlist_id_of(s) is Some && playlist_name_of(s) is Some && track_count_of(s) is Some
        && (forall|i: usize| i < track_count_of(s)->0 ==> #[trigger] spec_track_fields_ok(s, i)) {
        Some(PlaylistView {
            id: playlist_id_of(s)->0,
            name: playlist_name_of(s)->0,
            tracks: Seq::new(track_count_of(s)->0 as nat, |i: int| spec_track_at(s, i as usize)),
        })
    } else {
        None
    }
}

/// The playlist JSON text did not match the expected shape.
#[derive(Clone, Copy, Debug, PartialEq, Eq, Structural)]
pub struct SnapshotParseError;

/// Parses the UTF-8 text of a playlist snapshot file. Succeeds exactly when
/// the text denotes a playlist (see [`spec_parse_playlist`]); an empty text
/// always fails.
pub fn parse_playlist_snapshot(content: &str) -> (r: Result<Playlist, SnapshotParseError>)
    ensures
        match r {
            Ok(p) => spec_parse_playlist(content@) == Some(p@),
            Err(_) => spec_parse_playlist(content@) is None,
        },
        content@.len() == 0 ==> r is Err,
{
    let id = match json_playlist_id(content) {
        Some(x) => x,
        None => { return Err(SnapshotParseError); },
    };
    let name = match json_playlist_name(content) {
        Some(x) => x,
        None => { return Err(SnapshotParseError); },
    };
    let n = match json_track_count(content) {
        Some(x) => x,
        None => { return Err(SnapshotParseError); },
    };
    let mut tracks: Vec<Track> = Vec::new();
    let mut i: usize = 0;
    while i < n
        invariant
            i <= n,
            track_count_of(content@) == Some(n),
            playlist_id_of(content@) == Some(id@),
            playlist_name_of(content@) == Some(name@),
            tracks@.len() == i as nat,
            forall|k: usize| k < i ==> #[trigger] spec_track_fields_ok(content@, k),
            forall|k: int| 0 <= k < i ==> tracks@.map_values(|t: Track| t@)[k]
                == (#[trigger] spec_track_at(content@, k as usize)),
        decreases n - i,
    {
        let tid = match json_track_id(content, i) {
            Some(x) => x,
            None => {
                proof { assert(!spec_track_fields_ok(content@, i)); }
                return Err(SnapshotParseError);
            },
        };
        let tname = match json_track_name(content, i) {
            Some(x) => x,
            None => {
                proof { assert(!spec_track_fields_ok(content@, i)); }
                return Err(SnapshotParseError);
            },
        };
        let m = match json_artist_count(content, i) {
            Some(x) => x,
            None => {
                proof { assert(!spec_track_fields_ok(content@, i)); }
                return Err(SnapshotParseError);
            },
        };
        let mut artists: Vec<Artist> = Vec::new();
        let mut j: usize = 0;
        while j < m
            invariant
                j <= m,
                artist_count_of(content@, i) == Some(m),
                i < n,
                track_count_of(content@) == Some(n),
                artists@.len() == j as nat,
                forall|l: usize| l < j ==> (#[trigger] spec_artist_at(content@, i, l)) is Some,
                forall|l: int| 0 <= l < j ==> artists@.map_values(|a: Artist| a@)[l]
                    == (#[trigger] spec_artist_at(content@, i, l as usize))->0,
            decreases m - j,
        {
            let aid = match json_artist_id(content, i, j) {
                Some(x) => x,
                None => {
                    proof {
                        assert(spec_artist_at(content@, i, j) is None);
                        assert(!spec_track_fields_ok(content@, i));
                    }
                    return Err(SnapshotParseError);
                },
            };
            let aname = match json_artist_name(content, i, j) {
                Some(x) => x,
                None => {
                    proof {
                        assert(spec_artist_at(content@, i, j) is None);
                        assert(!spec_track_fields_ok(content@, i));
                    }
                    return Err(SnapshotParseError);
                },
            };
            artists.push(Artist { id: aid, name: aname });
            j += 1;
        }
        let track = Track { id: tid, name: tname, artists };
        proof {
            assert(spec_track_fields_ok(content@, i));
            assert(track@.artists =~= spec_track_at(content@, i).artists);
            assert(track@ == spec_track_at(content@, i));
        }
        tracks.push(track);
        i += 1;
    }
    let playlist = Playlist { id, name, tracks };
    proof {
        assert(playlist@.tracks =~= spec_parse_playlist(content@)->0.tracks);
        assert(spec_parse_playlist(content@) == Some(playlist@));
    }
    Ok(playlist)
}

} // verus!
