//! Snapshot model: the playlist, track and artist entities that a snapshot
//! file in the log repository serializes, together with their mathematical
//! views.

use vstd::prelude::*;

verus! {

/// Mathematical view of an [`Artist`].
pub struct ArtistView {
    pub id: Seq<char>,
    pub name: Seq<char>,
}

/// Mathematical view of a [`Track`].
pub struct TrackView {
    pub id: Seq<char>,
    pub name: Seq<char>,
    pub artists: Seq<ArtistView>,
}

/// Mathematical view of a [`Playlist`].
pub struct PlaylistView {
    pub id: Seq<char>,
    pub name: Seq<char>,
    pub tracks: Seq<TrackView>,
}

/// An artist referenced by a track.
#[derive(Debug)]
pub struct Artist {
    pub id: String,
    pub name: String,
}

/// A track of a playlist. Properties of the snapshot JSON other than `id`,
/// `name` and `artists` (for example an added-at timestamp) are ignored.
#[derive(Debug)]
pub struct Track {
    pub id: String,
    pub name: String,
    pub artists: Vec<Artist>,
}

/// A playlist snapshot: identity is `id`; the order of `tracks` is kept.
#[derive(Debug)]
pub struct Playlist {
    pub id: String,
    pub name: String,
    pub tracks: Vec<Track>,
}

impl View for Artist {
    type V = ArtistView;

    open spec fn view(&self) -> ArtistView {
        ArtistView { id: self.id@, name: self.name@ }
    }
}

impl View for Track {
    type V = TrackView;

    open spec fn view(&self) -> TrackView {
        TrackView {
            id: self.id@,
            name: self.name@,
            artists: self.artists@.map_values(|a: Artist| a@),
        }
    }
}

impl View for Playlist {
    type V = PlaylistView;

    open spec fn view(&self) -> PlaylistView {
        PlaylistView {
            id: self.id@,
            name: self.name@,
            tracks: self.tracks@.map_values(|t: Track| t@),
        }
    }
}

impl Clone for Artist {
    fn clone(&self) -> (r: Self)
        ensures
            r@ == self@,
    {
        Artist { id: self.id.clone(), name: self.name.clone() }
    }
}

impl Clone for Track {
    fn clone(&self) -> (r: Self)
        ensures
            r@ == self@,
    {
        let mut artists: Vec<Artist> = Vec::new();
        let mut k: usize = 0;
        while k < self.artists.len()
            invariant
                k <= self.artists.len(),
                artists@.len() == k as nat,
                forall|m: int| 0 <= m < k ==> artists@[m]@ == self.artists@[m]@,
            decreases self.artists.len() - k,
        {
            artists.push(self.artists[k].clone());
            k += 1;
        }
        let r = Track { id: self.id.clone(), name: self.name.clone(), artists };
        proof {
            assert(r@.artists =~= self@.artists);
        }
        r
    }
}

} // verus!
