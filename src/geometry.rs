use vstd::prelude::*;
use crate::track::Track;

verus! {

/// Distances are whole micrometres. A fix is near a marker when its
/// distance is strictly below this bound (25 m).
pub const DETECTION_RANGE_UM: u64 = 25_000_000;

/// Micrometres in one metre.
pub const UM_PER_M: u64 = 1_000_000;

/// A marker is crossed when the four distances of the window to it
/// (newest first) are all in range, the vehicle moved away on the newest
/// step, approached on the oldest, and the two middle ones differ.
pub open spec fn crossing(d: Seq<u64>) -> bool {
    &&& d.len() == 4
    &&& forall|i: int| 0 <= i < 4 ==> #[trigger] d[i] < DETECTION_RANGE_UM
    &&& d[0] > d[1]
    &&& d[2] < d[3]
    &&& d[1] != d[2]
}

/// Decides whether the window of fixes whose distances to a marker are
/// `distances` (newest first) has passed that marker.
pub fn is_point_passed(distances: &Vec<u64>) -> (r: bool)
    ensures
        r == crossing(distances@),
{
    if distances.len() != 4 {
        return false;
    }
    let mut i: usize = 0;
    while i < 4
        invariant
            distances@.len() == 4,
            i <= 4,
            forall|j: int| 0 <= j < i ==> #[trigger] distances@[j] < DETECTION_RANGE_UM,
        decreases 4 - i,
    {
        if distances[i] >= DETECTION_RANGE_UM {
            return false;
        }
        i = i + 1;
    }
    distances[0] > distances[1] && distances[2] < distances[3] && distances[1] != distances[2]
}

/// The tracks of `tracks` whose distance (micrometres, same index in
/// `distances`) is within `radius_m` metres.
pub open spec fn tracks_within(tracks: Seq<Track>, distances: Seq<u64>, radius_m: u16) -> Seq<
    Track,
>
    decreases tracks.len(),
{
    if tracks.len() == 0 {
        seq![]
    } else {
        let rest = tracks_within(tracks.drop_last(), distances, radius_m);
        if distances[tracks.len() - 1] <= radius_m * UM_PER_M {
            rest.push(tracks.last())
        } else {
            rest
        }
    }
}

/// The views of a sequence of tracks.
pub open spec fn track_views(tracks: Seq<Track>) -> Seq<crate::track::TrackModel> {
    tracks.map_values(|t: Track| t@)
}

/// Selects the tracks whose start line lies within `detection_radius`
/// metres of the vehicle, where `distances[i]` is the distance
/// (micrometres) from the start line of `tracks[i]` to the vehicle.
pub fn is_on_track(tracks: &Vec<Track>, distances: &Vec<u64>, detection_radius: u16) -> (r: Vec<
    Track,
>)
    requires
        distances@.len() == tracks@.len(),
    ensures
        track_views(r@) == track_views(tracks_within(tracks@, distances@, detection_radius)),
{
    let mut detected: Vec<Track> = Vec::new();
    let limit: u64 = detection_radius as u64 * UM_PER_M;
    let mut i: usize = 0;
    while i < tracks.len()
        invariant
            i <= tracks@.len(),
            distances@.len() == tracks@.len(),
            limit == detection_radius * UM_PER_M,
            track_views(detected@) == track_views(
                tracks_within(tracks@.take(i as int), distances@, detection_radius),
            ),
        decreases tracks@.len() - i,
    {
        let ghost before = detected@;
        proof {
            assert(tracks@.take(i as int + 1).drop_last() =~= tracks@.take(i as int));
        }
        if distances[i] <= limit {
            let t = tracks[i].clone();
            detected.push(t);
            proof {
                assert(track_views(detected@) =~= track_views(before).push(tracks@[i as int]@));
                assert(track_views(
                    tracks_within(tracks@.take(i as int), distances@, detection_radius).push(
                        tracks@[i as int],
                    ),
                ) =~= track_views(
                    tracks_within(tracks@.take(i as int), distances@, detection_radius),
                ).push(tracks@[i as int]@));
            }
        }
        i = i + 1;
    }
    proof {
        assert(tracks@.take(tracks@.len() as int) =~= tracks@);
    }
    detected
}

/// With fewer (or more) than four fixes there is no crossing.
pub proof fn lemma_short_window_never_crosses(d: Seq<u64>)
    requires
        d.len() != 4,
    ensures
        !crossing(d),
{
}

/// The detection range is strict: a window with any fix at 25 m or more
/// from the marker does not cross it.
pub proof fn lemma_detection_range_is_strict(d: Seq<u64>, i: int)
    requires
        0 <= i < d.len(),
        d[i] >= DETECTION_RANGE_UM,
    ensures
        !crossing(d),
{
}

} // verus!
