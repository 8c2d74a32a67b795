//! Row shaper: flattens a stream of track-related actions into rows for the
//! action, track and artist warehouse tables, deduplicating track and artist
//! rows by id with the latest observation winning; and the envelope shape
//! the warehouse's streaming-insert endpoint expects.

use vstd::prelude::*;
use crate::classify::TrackRelatedActionType;
use crate::playlist::{Artist, ArtistView, Track, TrackView};
use crate::reconstruct::{TrackRelatedAction, TrackRelatedActionView};
use crate::strutil::{str_eq, view_opt_str};

verus! {

broadcast use vstd::map::group_map_axioms, vstd::set::group_set_axioms;

/// Mathematical view of an [`ActionTableRow`].
pub struct ActionTableRowView {
    pub timestamp: Seq<char>,
    pub action_type: Seq<char>,
    pub source_playlist_id: Option<Seq<char>>,
    pub destination_playlist_id: Option<Seq<char>>,
    pub track_id: Seq<char>,
}

/// One row of the action table.
#[derive(Debug)]
pub struct ActionTableRow {
    pub timestamp: String,
    pub action_type: String,
    pub source_playlist_id: Option<String>,
    pub destination_playlist_id: Option<String>,
    pub track_id: String,
}

impl View for ActionTableRow {
    type V = ActionTableRowView;

    open spec fn view(&self) -> ActionTableRowView {
        ActionTableRowView {
            timestamp: self.timestamp@,
            action_type: self.action_type@,
            source_playlist_id: view_opt_str(self.source_playlist_id),
            destination_playlist_id: view_opt_str(self.destination_playlist_id),
            track_id: self.track_id@,
        }
    }
}

/// Mathematical view of a [`TrackTableRow`].
pub struct TrackTableRowView {
    pub id: Seq<char>,
    pub name: Seq<char>,
    pub artist_ids: Seq<Seq<char>>,
}

/// One row of the track table.
#[derive(Debug)]
pub struct TrackTableRow {
    pub id: String,
    pub name: String,
    pub artist_ids: Vec<String>,
}

impl View for TrackTableRow {
    type V = TrackTableRowView;

    open spec fn view(&self) -> TrackTableRowView {
        TrackTableRowView {
            id: self.id@,
            name: self.name@,
            artist_ids: self.artist_ids@.map_values(|s: String| s@),
        }
    }
}

/// Mathematical view of an [`ArtistTableRow`].
pub struct ArtistTableRowView {
    pub id: Seq<char>,
    pub name: Seq<char>,
}

/// One row of the artist table.
#[derive(Debug)]
pub struct ArtistTableRow {
    pub id: String,
    pub name: String,
}

impl View for ArtistTableRow {
    type V = ArtistTableRowView;

    open spec fn view(&self) -> ArtistTableRowView {
        ArtistTableRowView { id: self.id@, name: self.name@ }
    }
}

/// The earliest timestamp chrono can render (the first instant of year
/// -262143).
pub const MIN_RENDERABLE_TIMESTAMP: i64 = -8334601228800;

/// The latest timestamp chrono can render (the last second of year 262142).
pub const MAX_RENDERABLE_TIMESTAMP: i64 = 8210266876799;

/// The RFC 3339 rendering, with offset, of the UTC instant `t` seconds from
/// the epoch.
pub uninterp spec fn rfc3339_of(t: i64) -> Seq<char>;

/// Relies on chrono's `DateTime::from_timestamp` and `DateTime::to_rfc3339`:
/// renders a unix timestamp as RFC 3339 with offset, a function of the
/// timestamp alone. Timestamps outside chrono's representable range are
/// excluded.
#[verifier::external_body]
fn format_rfc3339(t: i64) -> (r: String)
    requires
        MIN_RENDERABLE_TIMESTAMP <= t <= MAX_RENDERABLE_TIMESTAMP,
    ensures
        r@ == rfc3339_of(t),
{
    match chrono::DateTime::from_timestamp(t, 0) {
        Some(d) => d.to_rfc3339(),
        None => String::new(),
    }
}

/// The timestamp text of an action row: the RFC 3339 rendering where the
/// timestamp is renderable, empty otherwise.
pub open spec fn spec_timestamp_string(t: i64) -> Seq<char> {
    if MIN_RENDERABLE_TIMESTAMP <= t <= MAX_RENDERABLE_TIMESTAMP {
        rfc3339_of(t)
    } else {
        Seq::empty()
    }
}

/// Renders an action's datetime for its table row.
fn timestamp_string(t: i64) -> (r: String)
    ensures
        r@ == spec_timestamp_string(t),
{
    if MIN_RENDERABLE_TIMESTAMP <= t && t <= MAX_RENDERABLE_TIMESTAMP {
        format_rfc3339(t)
    } else {
        String::new()
    }
}

/// The lowercase table literal of an action type.
pub open spec fn spec_action_type_string(t: TrackRelatedActionType) -> Seq<char> {
    match t {
        TrackRelatedActionType::Addition => "addition"@,
        TrackRelatedActionType::Removal => "removal"@,
        TrackRelatedActionType::Transfer => "transfer"@,
        TrackRelatedActionType::Modification => "modification"@,
    }
}

/// Renders an action type as its lowercase table literal.
fn action_type_string(t: TrackRelatedActionType) -> (r: String)
    ensures
        r@ == spec_action_type_string(t),
{
    match t {
        TrackRelatedActionType::Addition => "addition".to_owned(),
        TrackRelatedActionType::Removal => "removal".to_owned(),
        TrackRelatedActionType::Transfer => "transfer".to_owned(),
        TrackRelatedActionType::Modification => "modification".to_owned(),
    }
}

/// The action row an action emits.
pub open spec fn spec_action_row(a: TrackRelatedActionView) -> ActionTableRowView {
    ActionTableRowView {
        timestamp: spec_timestamp_string(a.datetime),
        action_type: spec_action_type_string(a.action_type),
        source_playlist_id: a.source_playlist_id,
        destination_playlist_id: a.destination_playlist_id,
        track_id: a.track.id,
    }
}

/// The track row a track emits.
pub open spec fn spec_track_row(t: TrackView) -> TrackTableRowView {
    TrackTableRowView {
        id: t.id,
        name: t.name,
        artist_ids: t.artists.map_values(|a: ArtistView| a.id),
    }
}

/// The artist row an artist emits.
pub open spec fn spec_artist_row(a: ArtistView) -> ArtistTableRowView {
    ArtistTableRowView { id: a.id, name: a.name }
}

/// Whether an action refreshes the track and artist tables (additions and
/// modifications do; removals and transfers do not).
pub open spec fn spec_action_is_upsert(a: TrackRelatedActionView) -> bool {
    a.action_type is Addition || a.action_type is Modification
}

/// The action rows of an action stream, in order: one per action except
/// modifications, which emit none.
pub open spec fn spec_action_rows(actions: Seq<TrackRelatedActionView>) -> Seq<ActionTableRowView>
    decreases actions.len(),
{
    if actions.len() == 0 {
        Seq::empty()
    } else {
        spec_action_rows(actions.drop_last()) + if actions.last().action_type is Modification {
            Seq::empty()
        } else {
            seq![spec_action_row(actions.last())]
        }
    }
}

/// The deduplicated track table of an action stream, keyed by track id, the
/// latest observation winning.
pub open spec fn spec_track_map(actions: Seq<TrackRelatedActionView>) -> Map<
    Seq<char>,
    TrackTableRowView,
>
    decreases actions.len(),
{
    if actions.len() == 0 {
        Map::empty()
    } else {
        let m = spec_track_map(actions.drop_last());
        if spec_action_is_upsert(actions.last()) {
            m.insert(actions.last().track.id, spec_track_row(actions.last().track))
        } else {
            m
        }
    }
}

/// Inserts a track's artists into the artist table in order, later
/// occurrences of an id winning.
pub open spec fn spec_insert_artists(
    m: Map<Seq<char>, ArtistTableRowView>,
    artists: Seq<ArtistView>,
) -> Map<Seq<char>, ArtistTableRowView>
    decreases artists.len(),
{
    if artists.len() == 0 {
        m
    } else {
        spec_insert_artists(m, artists.drop_last()).insert(
            artists.last().id,
            spec_artist_row(artists.last()),
        )
    }
}

/// The deduplicated artist table of an action stream, keyed by artist id,
/// the latest observation winning.
pub open spec fn spec_artist_map(actions: Seq<TrackRelatedActionView>) -> Map<
    Seq<char>,
    ArtistTableRowView,
>
    decreases actions.len(),
{
    if actions.len() == 0 {
        Map::empty()
    } else {
        let m = spec_artist_map(actions.drop_last());
        if spec_action_is_upsert(actions.last()) {
            spec_insert_artists(m, actions.last().track.artists)
        } else {
            m
        }
    }
}

/// The row sequence carries exactly the content of the id-keyed map: ids are
/// unique, every row is the map's entry for its id, and every key of the map
/// appears.
pub open spec fn track_rows_match_map(
    rows: Seq<TrackTableRowView>,
    m: Map<Seq<char>, TrackTableRowView>,
) -> bool {
    &&& forall|x: int, y: int| 0 <= x < y < rows.len() ==> (#[trigger] rows[x]).id != (
    #[trigger] rows[y]).id
    &&& forall|k: int| 0 <= k < rows.len() ==> m.dom().contains((#[trigger] rows[k]).id)
        && m[rows[k].id] == rows[k]
    &&& forall|id: Seq<char>| #[trigger] m.dom().contains(id) ==> exists|k: int| 0 <= k
        < rows.len() && (#[trigger] rows[k]).id == id
}

/// The artist-row analogue of [`track_rows_match_map`].
pub open spec fn artist_rows_match_map(
    rows: Seq<ArtistTableRowView>,
    m: Map<Seq<char>, ArtistTableRowView>,
) -> bool {
    &&& forall|x: int, y: int| 0 <= x < y < rows.len() ==> (#[trigger] rows[x]).id != (
    #[trigger] rows[y]).id
    &&& forall|k: int| 0 <= k < rows.len() ==> m.dom().contains((#[trigger] rows[k]).id)
        && m[rows[k].id] == rows[k]
    &&& forall|id: Seq<char>| #[trigger] m.dom().contains(id) ==> exists|k: int| 0 <= k
        < rows.len() && (#[trigger] rows[k]).id == id
}

/// Replaces the row with `row`'s id, or appends `row` when its id is new.
#[verifier::loop_isolation(false)]
fn upsert_track_row(rows: &mut Vec<TrackTableRow>, row: TrackTableRow, m: Ghost<Map<Seq<char>, TrackTableRowView>>)
    requires
        track_rows_match_map(old(rows)@.map_values(|r: TrackTableRow| r@), m@),
    ensures
        track_rows_match_map(
            final(rows)@.map_values(|r: TrackTableRow| r@),
            m@.insert(row@.id, row@),
        ),
{
    let ghost prev = rows@.map_values(|r: TrackTableRow| r@);
    let ghost mm = m@.insert(row@.id, row@);
    let n = rows.len();
    let mut k: usize = 0;
    while k < n
        invariant
            n == rows@.len(),
            k <= n,
            prev == rows@.map_values(|r: TrackTableRow| r@),
            forall|x: int| 0 <= x < k ==> (#[trigger] prev[x]).id != row@.id,
        decreases n - k,
    {
        if str_eq(rows[k].id.as_str(), row.id.as_str()) {
            proof {
                assert(prev[k as int] == rows@[k as int]@);
                assert(prev[k as int].id == row@.id);
                assert(mm.dom().contains(prev[k as int].id));
                assert(mm[prev[k as int].id] == row@);
            }
            rows.remove(k);
            rows.push(row);
            proof {
                let now = rows@.map_values(|r: TrackTableRow| r@);
                assert(now =~= prev.remove(k as int).push(mm[prev[k as int].id]));
                assert forall|x: int| 0 <= x < now.len() - 1 implies (#[trigger] now[x])
                    == if x < k { prev[x] } else { prev[x + 1] } by {}
                assert(track_rows_match_map(now, mm)) by {
                    assert forall|id: Seq<char>| #[trigger] mm.dom().contains(id) implies
                        exists|j: int| 0 <= j < now.len() && (#[trigger] now[j]).id == id by {
                        if id == row@.id {
                            assert(now[now.len() - 1].id == id);
                        } else {
                            assert(m@.dom().contains(id));
                            let w = choose|j: int| 0 <= j < prev.len() && (#[trigger] prev[j]).id
                                == id;
                            if w < k {
                                assert(now[w].id == id);
                            } else {
                                assert(w != k);
                                assert(now[w - 1].id == id);
                            }
                        }
                    }
                }
            }
            return;
        }
        k += 1;
    }
    rows.push(row);
    proof {
        let now = rows@.map_values(|r: TrackTableRow| r@);
        assert(now =~= prev.push(row@));
        assert(track_rows_match_map(now, mm)) by {
            assert forall|id: Seq<char>| #[trigger] mm.dom().contains(id) implies exists|j: int|
                0 <= j < now.len() && (#[trigger] now[j]).id == id by {
                if id == row@.id {
                    assert(now[now.len() - 1].id == id);
                } else {
                    assert(m@.dom().contains(id));
                    let w = choose|j: int| 0 <= j < prev.len() && (#[trigger] prev[j]).id == id;
                    assert(now[w] == prev[w]);
                    assert(now[w].id == id);
                }
            }
        }
    }
}

/// Replaces the row with `row`'s id, or appends `row` when its id is new.
#[verifier::loop_isolation(false)]
fn upsert_artist_row(rows: &mut Vec<ArtistTableRow>, row: ArtistTableRow, m: Ghost<Map<Seq<char>, ArtistTableRowView>>)
    requires
        artist_rows_match_map(old(rows)@.map_values(|r: ArtistTableRow| r@), m@),
    ensures
        artist_rows_match_map(
            final(rows)@.map_values(|r: ArtistTableRow| r@),
            m@.insert(row@.id, row@),
        ),
{
    let ghost prev = rows@.map_values(|r: ArtistTableRow| r@);
    let ghost mm = m@.insert(row@.id, row@);
    let n = rows.len();
    let mut k: usize = 0;
    while k < n
        invariant
            n == rows@.len(),
            k <= n,
            prev == rows@.map_values(|r: ArtistTableRow| r@),
            forall|x: int| 0 <= x < k ==> (#[trigger] prev[x]).id != row@.id,
        decreases n - k,
    {
        if str_eq(rows[k].id.as_str(), row.id.as_str()) {
            proof {
                assert(prev[k as int] == rows@[k as int]@);
                assert(prev[k as int].id == row@.id);
                assert(mm.dom().contains(prev[k as int].id));
                assert(mm[prev[k as int].id] == row@);
            }
            rows.remove(k);
            rows.push(row);
            proof {
                let now = rows@.map_values(|r: ArtistTableRow| r@);
                assert(now =~= prev.remove(k as int).push(mm[prev[k as int].id]));
                assert forall|x: int| 0 <= x < now.len() - 1 implies (#[trigger] now[x])
                    == if x < k { prev[x] } else { prev[x + 1] } by {}
                assert(artist_rows_match_map(now, mm)) by {
                    assert forall|id: Seq<char>| #[trigger] mm.dom().contains(id) implies
                        exists|j: int| 0 <= j < now.len() && (#[trigger] now[j]).id == id by {
                        if id == row@.id {
                            assert(now[now.len() - 1].id == id);
                        } else {
                            assert(m@.dom().contains(id));
                            let w = choose|j: int| 0 <= j < prev.len() && (#[trigger] prev[j]).id
                                == id;
                            if w < k {
                                assert(now[w].id == id);
                            } else {
                                assert(w != k);
                                assert(now[w - 1].id == id);
                            }
                        }
                    }
                }
            }
            return;
        }
        k += 1;
    }
    rows.push(row);
    proof {
        let now = rows@.map_values(|r: ArtistTableRow| r@);
        assert(now =~= prev.push(row@));
        assert(artist_rows_match_map(now, mm)) by {
            assert forall|id: Seq<char>| #[trigger] mm.dom().contains(id) implies exists|j: int|
                0 <= j < now.len() && (#[trigger] now[j]).id == id by {
                if id == row@.id {
                    assert(now[now.len() - 1].id == id);
                } else {
                    assert(m@.dom().contains(id));
                    let w = choose|j: int| 0 <= j < prev.len() && (#[trigger] prev[j]).id == id;
                    assert(now[w] == prev[w]);
                    assert(now[w].id == id);
                }
            }
        }
    }
}

/// Copies an optional playlist id.
fn clone_opt_string(o: &Option<String>) -> (r: Option<String>)
    ensures
        view_opt_str(r) == view_opt_str(*o),
{
    match o {
        Some(s) => Some(s.clone()),
        None => None,
    }
}

/// The track row of one track.
fn track_to_track_table_row(track: &Track) -> (r: TrackTableRow)
    ensures
        r@ == spec_track_row(track@),
{
    let mut artist_ids: Vec<String> = Vec::new();
    let mut k: usize = 0;
    while k < track.artists.len()
        invariant
            k <= track.artists@.len(),
            artist_ids@.len() == k as nat,
            forall|x: int| 0 <= x < k ==> (#[trigger] artist_ids@[x])@ == track.artists@[x]@.id,
        decreases track.artists@.len() - k,
    {
        artist_ids.push(track.artists[k].id.clone());
        k += 1;
    }
    let r = TrackTableRow { id: track.id.clone(), name: track.name.clone(), artist_ids };
    proof {
        assert(r@.artist_ids =~= spec_track_row(track@).artist_ids);
    }
    r
}

/// The artist row of one artist.
fn artist_to_artist_table_row(artist: &Artist) -> (r: ArtistTableRow)
    ensures
        r@ == spec_artist_row(artist@),
{
    ArtistTableRow { id: artist.id.clone(), name: artist.name.clone() }
}

/// Builds the action row of one action.
fn action_to_action_table_row(action: &TrackRelatedAction) -> (r: ActionTableRow)
    ensures
        r@ == spec_action_row(action@),
{
    ActionTableRow {
        timestamp: timestamp_string(action.datetime),
        action_type: action_type_string(action.action_type),
        source_playlist_id: clone_opt_string(&action.source_playlist_id),
        destination_playlist_id: clone_opt_string(&action.destination_playlist_id),
        track_id: action.track.id.clone(),
    }
}

/// Flattens an action stream into the three tables: action rows in stream
/// order, one per non-modification action; track and artist rows
/// deduplicated by id, the latest observation of an id winning, their order
/// unspecified.
pub fn track_related_action_to_table_rows(actions: Vec<TrackRelatedAction>) -> (r: (
    Vec<ActionTableRow>,
    Vec<TrackTableRow>,
    Vec<ArtistTableRow>,
))
    ensures
        ({
            let av = actions@.map_values(|a: TrackRelatedAction| a@);
            &&& r.0@.map_values(|x: ActionTableRow| x@) == spec_action_rows(av)
            &&& track_rows_match_map(
                r.1@.map_values(|x: TrackTableRow| x@),
                spec_track_map(av),
            )
            &&& artist_rows_match_map(
                r.2@.map_values(|x: ArtistTableRow| x@),
                spec_artist_map(av),
            )
        }),
{
    let ghost av = actions@.map_values(|a: TrackRelatedAction| a@);
    let mut action_rows: Vec<ActionTableRow> = Vec::new();
    let mut track_rows: Vec<TrackTableRow> = Vec::new();
    let mut artist_rows: Vec<ArtistTableRow> = Vec::new();
    proof {
        assert(av.take(0) =~= Seq::<TrackRelatedActionView>::empty());
    }
    let mut i: usize = 0;
    while i < actions.len()
        invariant
            i <= actions@.len(),
            av == actions@.map_values(|a: TrackRelatedAction| a@),
            action_rows@.map_values(|x: ActionTableRow| x@) == spec_action_rows(
                av.take(i as int),
            ),
            track_rows_match_map(
                track_rows@.map_values(|x: TrackTableRow| x@),
                spec_track_map(av.take(i as int)),
            ),
            artist_rows_match_map(
                artist_rows@.map_values(|x: ArtistTableRow| x@),
                spec_artist_map(av.take(i as int)),
            ),
        decreases actions@.len() - i,
    {
        let action = &actions[i];
        proof {
            assert(av.take(i as int + 1).drop_last() =~= av.take(i as int));
            assert(av.take(i as int + 1).last() == av[i as int]);
        }
        let is_modification = matches!(action.action_type, TrackRelatedActionType::Modification);
        let is_upsert = is_modification || matches!(
            action.action_type,
            TrackRelatedActionType::Addition,
        );
        if !is_modification {
            let ghost prev = action_rows@;
            action_rows.push(action_to_action_table_row(action));
            proof {
                assert(action_rows@.map_values(|x: ActionTableRow| x@) =~= prev.map_values(
                    |x: ActionTableRow| x@,
                ).push(spec_action_row(av[i as int])));
                assert(action_rows@.map_values(|x: ActionTableRow| x@) =~= spec_action_rows(
                    av.take(i as int + 1),
                ));
            }
        }
        if is_upsert {
            let ghost tm = spec_track_map(av.take(i as int));
            let ghost am = spec_artist_map(av.take(i as int));
            upsert_track_row(
                &mut track_rows,
                track_to_track_table_row(&action.track),
                Ghost(tm),
            );
            proof {
                assert(spec_track_map(av.take(i as int + 1)) == tm.insert(
                    av[i as int].track.id,
                    spec_track_row(av[i as int].track),
                ));
            }
            let ghost artists = av[i as int].track.artists;
            proof {
                assert(artists.take(0) =~= Seq::<ArtistView>::empty());
            }
            let mut j: usize = 0;
            while j < action.track.artists.len()
                invariant
                    j <= action.track.artists@.len(),
                    av == actions@.map_values(|a: TrackRelatedAction| a@),
                    i < actions@.len(),
                    action == &actions@[i as int],
                    artists == av[i as int].track.artists,
                    artists.len() == action.track.artists@.len(),
                    artist_rows_match_map(
                        artist_rows@.map_values(|x: ArtistTableRow| x@),
                        spec_insert_artists(spec_artist_map(av.take(i as int)), artists.take(j as int)),
                    ),
                decreases action.track.artists@.len() - j,
            {
                let ghost partial = spec_insert_artists(
                    spec_artist_map(av.take(i as int)),
                    artists.take(j as int),
                );
                upsert_artist_row(
                    &mut artist_rows,
                    artist_to_artist_table_row(&action.track.artists[j]),
                    Ghost(partial),
                );
                proof {
                    assert(artists.take(j as int + 1).drop_last() =~= artists.take(j as int));
                    assert(artists.take(j as int + 1).last() == artists[j as int]);
                    assert(action.track.artists@[j as int]@ == artists[j as int]);
                    assert(spec_insert_artists(
                        spec_artist_map(av.take(i as int)),
                        artists.take(j as int + 1),
                    ) == partial.insert(
                        artists[j as int].id,
                        spec_artist_row(artists[j as int]),
                    ));
                }
                j += 1;
            }
            proof {
                assert(artists.take(artists.len() as int) =~= artists);
                assert(spec_artist_map(av.take(i as int + 1)) == spec_insert_artists(
                    spec_artist_map(av.take(i as int)),
                    artists,
                ));
            }
        }
        proof {
            if is_modification {
                assert(action_rows@.map_values(|x: ActionTableRow| x@) =~= spec_action_rows(
                    av.take(i as int + 1),
                ));
            }
            if !is_upsert {
                assert(spec_track_map(av.take(i as int + 1)) == spec_track_map(av.take(i as int)));
                assert(spec_artist_map(av.take(i as int + 1)) == spec_artist_map(
                    av.take(i as int),
                ));
            }
        }
        i += 1;
    }
    proof {
        assert(av.take(av.len() as int) =~= av);
    }
    (action_rows, track_rows, artist_rows)
}

/// The track ids that the addition and modification actions of a stream
/// carry.
pub open spec fn spec_upsert_track_ids(actions: Seq<TrackRelatedActionView>) -> Set<Seq<char>> {
    Set::new(
        |id: Seq<char>|
            exists|k: int|
                0 <= k < actions.len() && spec_action_is_upsert(#[trigger] actions[k])
                    && actions[k].track.id == id,
    )
}

/// The artist ids of the tracks that the addition and modification actions
/// of a stream carry.
pub open spec fn spec_upsert_artist_ids(actions: Seq<TrackRelatedActionView>) -> Set<Seq<char>> {
    Set::new(
        |id: Seq<char>|
            exists|k: int, j: int|
                0 <= k < actions.len() && spec_action_is_upsert(actions[k]) && 0 <= j
                    < actions[k].track.artists.len() && (#[trigger] actions[k].track.artists[j]).id
                    == id,
    )
}

/// Law: the keys of the deduplicated track table are exactly the track ids
/// appearing in addition or modification actions.
pub proof fn lemma_track_table_ids(actions: Seq<TrackRelatedActionView>)
    ensures
        spec_track_map(actions).dom() =~= spec_upsert_track_ids(actions),
    decreases actions.len(),
{
    if actions.len() == 0 {
    } else {
        let prefix = actions.drop_last();
        lemma_track_table_ids(prefix);
        assert forall|id: Seq<char>| spec_upsert_track_ids(actions).contains(id) implies
            spec_track_map(actions).dom().contains(id) by {
            let k = choose|k: int|
                0 <= k < actions.len() && spec_action_is_upsert(#[trigger] actions[k])
                    && actions[k].track.id == id;
            if k < actions.len() - 1 {
                assert(prefix[k] == actions[k]);
                assert(spec_upsert_track_ids(prefix).contains(id));
            }
        }
        assert forall|id: Seq<char>| spec_track_map(actions).dom().contains(id) implies
            spec_upsert_track_ids(actions).contains(id) by {
            if spec_track_map(prefix).dom().contains(id) {
                let k = choose|k: int|
                    0 <= k < prefix.len() && spec_action_is_upsert(#[trigger] prefix[k])
                        && prefix[k].track.id == id;
                assert(actions[k] == prefix[k]);
                assert(spec_action_is_upsert(actions[k]) && actions[k].track.id == id);
            } else {
                assert(spec_action_is_upsert(actions[actions.len() - 1]) && actions[actions.len()
                    - 1].track.id == id);
            }
        }
    }
}

/// The ids of a track's artists.
pub open spec fn spec_artist_ids_of(artists: Seq<ArtistView>) -> Set<Seq<char>> {
    Set::new(
        |id: Seq<char>|
            exists|j: int| 0 <= j < artists.len() && (#[trigger] artists[j]).id == id,
    )
}

/// Inserting a track's artists adds exactly their ids to the table's keys.
proof fn lemma_insert_artists_dom(m: Map<Seq<char>, ArtistTableRowView>, artists: Seq<ArtistView>)
    ensures
        spec_insert_artists(m, artists).dom() =~= m.dom().union(spec_artist_ids_of(artists)),
    decreases artists.len(),
{
    if artists.len() == 0 {
        assert(spec_insert_artists(m, artists).dom() =~= m.dom().union(
            spec_artist_ids_of(artists),
        ));
    } else {
        let prefix = artists.drop_last();
        lemma_insert_artists_dom(m, prefix);
        assert forall|id: Seq<char>| spec_artist_ids_of(artists).contains(id) implies
            spec_insert_artists(m, artists).dom().contains(id) by {
            let j = choose|j: int| 0 <= j < artists.len() && (#[trigger] artists[j]).id == id;
            if j < artists.len() - 1 {
                assert(prefix[j] == artists[j]);
                assert(spec_artist_ids_of(prefix).contains(id));
            }
        }
        assert forall|id: Seq<char>| spec_artist_ids_of(prefix).contains(id) implies
            spec_artist_ids_of(artists).contains(id) by {
            let j = choose|j: int| 0 <= j < prefix.len() && (#[trigger] prefix[j]).id == id;
            assert(artists[j] == prefix[j]);
        }
    }
}

/// Law: the keys of the deduplicated artist table are exactly the artist
/// ids of the tracks appearing in addition or modification actions.
pub proof fn lemma_artist_table_ids(actions: Seq<TrackRelatedActionView>)
    ensures
        spec_artist_map(actions).dom() =~= spec_upsert_artist_ids(actions),
    decreases actions.len(),
{
    if actions.len() == 0 {
    } else {
        let prefix = actions.drop_last();
        let last = actions.last();
        lemma_artist_table_ids(prefix);
        if spec_action_is_upsert(last) {
            lemma_insert_artists_dom(spec_artist_map(prefix), last.track.artists);
        }
        assert forall|id: Seq<char>| spec_upsert_artist_ids(actions).contains(id) implies
            spec_artist_map(actions).dom().contains(id) by {
            let (k, j) = choose|k: int, j: int|
                0 <= k < actions.len() && spec_action_is_upsert(actions[k]) && 0 <= j
                    < actions[k].track.artists.len() && (#[trigger] actions[k].track.artists[j]).id
                    == id;
            if k < actions.len() - 1 {
                assert(prefix[k] == actions[k]);
                assert(spec_upsert_artist_ids(prefix).contains(id));
            } else {
                assert(spec_artist_ids_of(last.track.artists).contains(id));
            }
        }
        assert forall|id: Seq<char>| spec_artist_map(actions).dom().contains(id) implies
            spec_upsert_artist_ids(actions).contains(id) by {
            if spec_artist_map(prefix).dom().contains(id) {
                let (k, j) = choose|k: int, j: int|
                    0 <= k < prefix.len() && spec_action_is_upsert(prefix[k]) && 0 <= j
                        < prefix[k].track.artists.len() && (#[trigger] prefix[k].track.artists[j]).id
                        == id;
                assert(actions[k] == prefix[k]);
                assert(spec_action_is_upsert(actions[k]) && 0 <= j
                    < actions[k].track.artists.len() && actions[k].track.artists[j].id == id);
            } else {
                assert(spec_action_is_upsert(last));
                assert(spec_artist_ids_of(last.track.artists).contains(id));
                let j = choose|j: int|
                    0 <= j < last.track.artists.len() && (#[trigger] last.track.artists[j]).id
                        == id;
                assert(actions[actions.len() - 1] == last);
                assert(spec_action_is_upsert(actions[actions.len() - 1]) && 0 <= j < actions[
                    actions.len() - 1].track.artists.len() && actions[actions.len()
                    - 1].track.artists[j].id == id);
            }
        }
    }
}

/// One row of the warehouse's streaming-insert request: the row value under
/// its `json` key.
pub struct InsertRowsRequestBodyRow<T> {
    pub json: T,
}

/// The body of the warehouse's streaming-insert request: the enveloped rows.
pub struct InsertRowsRequestBody<T> {
    pub rows: Vec<InsertRowsRequestBodyRow<T>>,
}

/// Wraps table rows in the warehouse's per-row envelope, keeping their
/// order.
pub fn to_insert_rows_request_body<T>(rows: Vec<T>) -> (r: InsertRowsRequestBody<T>)
    ensures
        r.rows@.len() == rows@.len(),
        forall|k: int| 0 <= k < rows@.len() ==> (#[trigger] r.rows@[k]).json == rows@[k],
{
    let ghost orig = rows@;
    let mut rows = rows;
    let mut wrapped: Vec<InsertRowsRequestBodyRow<T>> = Vec::new();
    while rows.len() > 0
        invariant
            wrapped@.len() + rows@.len() == orig.len(),
            rows@ == orig.skip(wrapped@.len() as int),
            forall|k: int| 0 <= k < wrapped@.len() ==> (#[trigger] wrapped@[k]).json == orig[k],
        decreases rows@.len(),
    {
        let x = rows.remove(0);
        proof {
            assert(orig.skip(wrapped@.len() as int)[0] == orig[wrapped@.len() as int]);
            assert(orig.skip(wrapped@.len() as int).remove(0) =~= orig.skip(
                wrapped@.len() as int + 1,
            ));
        }
        wrapped.push(InsertRowsRequestBodyRow { json: x });
    }
    InsertRowsRequestBody { rows: wrapped }
}

} // verus!
