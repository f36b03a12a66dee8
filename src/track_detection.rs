use vstd::prelude::*;
use std::collections::VecDeque;
use std::sync::Arc;
use crate::bus::{awaited, EventKind, EventKindType, Request, Response};
use crate::geometry::{is_on_track, track_views, tracks_within};
use crate::position::Position;
use crate::track::{Track, TrackModel};

verus! {

/// Radius (metres) around a track's start line within which the vehicle
/// is on that track.
pub const DETECTION_RADIUS_M: u16 = 500;

/// Address of the track detector on the bus.
pub const TRACK_DETECTION_ADDR: u64 = 20;

/// Correlation id of the detector's request for the track catalog.
pub const LOAD_TRACKS_REQUEST_ID: u64 = 0;

/// Answers "which tracks am I on?" once both a position and a non-empty
/// track catalog are known; requests wait in arrival order until then.
pub struct TrackDetection {
    pub position: Option<Position>,
    pub pending_requests: VecDeque<Arc<Request<()>>>,
    pub tracks: Vec<Track>,
}

/// Copies of tracks with the same views.
pub fn clone_tracks(v: &Vec<Track>) -> (r: Vec<Track>)
    ensures
        track_views(r@) == track_views(v@),
{
    let mut r: Vec<Track> = Vec::new();
    let mut i: usize = 0;
    while i < v.len()
        invariant
            i <= v@.len(),
            track_views(r@) == track_views(v@.take(i as int)),
        decreases v@.len() - i,
    {
        let t = v[i].clone();
        let ghost before = r@;
        r.push(t);
        i = i + 1;
        proof {
            assert(track_views(r@) =~= track_views(before).push(v@[i - 1]@));
            assert(track_views(v@.take(i as int)) =~= track_views(v@.take(i - 1)).push(
                v@[i - 1]@,
            ));
        }
    }
    proof {
        assert(v@.take(v@.len() as int) =~= v@);
    }
    r
}

/// The detection response to `req`: its id, its sender as receiver, and
/// the tracks `found`.
pub open spec fn answers(
    resp: Response<Vec<Track>>,
    req: Request<()>,
    found: Seq<TrackModel>,
) -> bool {
    resp.id == req.id && resp.receiver_addr == req.sender_addr && track_views(resp.data@)
        == found
}

impl TrackDetection {
    pub fn new() -> (r: TrackDetection)
        ensures
            r.position is None,
            r.pending_requests@.len() == 0,
            r.tracks@.len() == 0,
    {
        TrackDetection { position: None, pending_requests: VecDeque::new(), tracks: Vec::new() }
    }

    /// Whether pending requests can be answered now.
    pub open spec fn ready_spec(&self) -> bool {
        self.position is Some && self.tracks@.len() > 0 && self.pending_requests@.len() > 0
    }

    pub fn ready(&self) -> (r: bool)
        ensures
            r == self.ready_spec(),
    {
        self.position.is_some() && self.tracks.len() > 0 && self.pending_requests.len() > 0
    }

    /// Queues a detection request behind the earlier ones.
    pub fn push_request(&mut self, req: Arc<Request<()>>)
        ensures
            final(self).pending_requests@ == old(self).pending_requests@.push(req),
            final(self).position == old(self).position,
            final(self).tracks == old(self).tracks,
    {
        self.pending_requests.push_back(req);
    }

    /// Takes in one bus event: a fix becomes the current position, a catalog
    /// response replaces the tracks, a detection request joins the queue.
    /// Returns whether the event was one of these, after which pending
    /// requests may be answerable.
    pub fn on_event(&mut self, kind: &EventKind) -> (changed: bool)
        ensures
            changed <==> (kind is GnssPositionEvent || kind is LoadAllStoredTracksResponseEvent
                || kind is DetectTrackRequestEvent),
            match *kind {
                EventKind::GnssPositionEvent(f) => {
                    &&& final(self).position == Some(f.position_spec())
                    &&& final(self).tracks == old(self).tracks
                    &&& final(self).pending_requests == old(self).pending_requests
                },
                EventKind::LoadAllStoredTracksResponseEvent(resp) => {
                    &&& final(self).position == old(self).position
                    &&& track_views(final(self).tracks@) == track_views(resp.data@)
                    &&& final(self).pending_requests == old(self).pending_requests
                },
                EventKind::DetectTrackRequestEvent(req) => {
                    &&& final(self).position == old(self).position
                    &&& final(self).tracks == old(self).tracks
                    &&& final(self).pending_requests@ == old(self).pending_requests@.push(req)
                },
                _ => *final(self) == *old(self),
            },
    {
        match kind {
            EventKind::GnssPositionEvent(f) => {
                self.position = Some(f.to_position());
                true
            },
            EventKind::LoadAllStoredTracksResponseEvent(resp) => {
                self.tracks = clone_tracks(&resp.data);
                true
            },
            EventKind::DetectTrackRequestEvent(req) => {
                self.push_request(req.clone());
                true
            },
            _ => false,
        }
    }

    /// Answers every pending request, oldest first, once a position and a
    /// non-empty catalog are known; otherwise leaves them waiting.
    /// `distances[i]` is the distance (micrometres) from the start line of
    /// `tracks[i]` to the current position. A request for which no track is
    /// near is still answered, with no track.
    pub fn handle_pending_requests(&mut self, distances: &Vec<u64>) -> (r: Vec<
        Arc<Response<Vec<Track>>>,
    >)
        requires
            old(self).ready_spec() ==> distances@.len() == old(self).tracks@.len(),
        ensures
            final(self).position == old(self).position,
            final(self).tracks == old(self).tracks,
            !old(self).ready_spec() ==> r@.len() == 0 && final(self).pending_requests
                == old(self).pending_requests,
            old(self).ready_spec() ==> {
                &&& final(self).pending_requests@.len() == 0
                &&& r@.len() == old(self).pending_requests@.len()
                &&& forall|i: int|
                    0 <= i < r@.len() ==> answers(
                        *#[trigger] r@[i],
                        *old(self).pending_requests@[i],
                        track_views(
                            tracks_within(old(self).tracks@, distances@, DETECTION_RADIUS_M),
                        ),
                    )
            },
    {
        if !self.ready() {
            return Vec::new();
        }
        let detected = is_on_track(&self.tracks, distances, DETECTION_RADIUS_M);
        let mut out: Vec<Arc<Response<Vec<Track>>>> = Vec::new();
        let ghost waiting = self.pending_requests@;
        while self.pending_requests.len() > 0
            invariant
                out@.len() + self.pending_requests@.len() == waiting.len(),
                self.pending_requests@ == waiting.subrange(out@.len() as int, waiting.len() as int),
                waiting == old(self).pending_requests@,
                self.tracks == old(self).tracks,
                self.position == old(self).position,
                track_views(detected@) == track_views(
                    tracks_within(self.tracks@, distances@, DETECTION_RADIUS_M),
                ),
                forall|j: int|
                    0 <= j < out@.len() ==> answers(
                        *#[trigger] out@[j],
                        *waiting[j],
                        track_views(tracks_within(self.tracks@, distances@, DETECTION_RADIUS_M)),
                    ),
            decreases self.pending_requests@.len(),
        {
            let req = self.pending_requests.pop_front().unwrap();
            let data = clone_tracks(&detected);
            let resp = Response::reply(&*req, data);
            out.push(resp);
        }
        out
    }
}

/// A detection response reaches the waiter of the request it answers, and
/// no waiter for another id or address.
pub proof fn lemma_response_reaches_only_its_requester(
    req: Request<()>,
    resp: Arc<Response<Vec<Track>>>,
    id: u64,
    addr: u64,
)
    requires
        resp.id == req.id,
        resp.receiver_addr == req.sender_addr,
    ensures
        awaited(
            EventKind::DetectTrackResponseEvent(resp),
            id,
            addr,
            EventKindType::DetectTrackResponseEvent,
        ) <==> (id == req.id && addr == req.sender_addr),
{
}

} // verus!
