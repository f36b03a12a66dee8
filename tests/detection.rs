use rapid::bus::{Event, EventKind, EventKindType, Request, Response};
use rapid::geometry::is_on_track;
use rapid::position::Position;
use rapid::track::get_track;
use rapid::track_detection::{TrackDetection, DETECTION_RADIUS_M};

fn pos(lat: f64, lon: f64) -> Position {
    Position::new((lat * 1e9).round() as i64, (lon * 1e9).round() as i64)
}

fn distance_um(a: &Position, b: &Position) -> u64 {
    let (lat1, lon1) = (a.latitude as f64 / 1e9, a.longitude as f64 / 1e9);
    let (lat2, lon2) = (b.latitude as f64 / 1e9, b.longitude as f64 / 1e9);
    let mid = (lat1 + lat2) / 2.0 * std::f64::consts::PI / 180.0;
    let dx = 111300.0 * mid.cos() * (lon1 - lon2);
    let dy = 111300.0 * (lat1 - lat2);
    ((dx * dx + dy * dy).sqrt() * 1e6) as u64
}

#[test]
fn position_is_in_radius() {
    let detection_radius = 500_u16;
    let tracks = vec![get_track()];
    let test_pos = pos(52.0258333, 11.279166666);
    let d = vec![distance_um(&tracks[0].startline, &test_pos)];
    let detected_tracks = is_on_track(&tracks, &d, detection_radius);
    assert_eq!(1, detected_tracks.len());
    assert_eq!(tracks[0].name, detected_tracks[0].name);
    assert_eq!(tracks[0].startline, detected_tracks[0].startline);
    assert_eq!(tracks[0].sectors, detected_tracks[0].sectors);
}

#[test]
fn position_is_not_in_radius() {
    let detection_radius = 500_u16;
    let tracks = vec![get_track()];
    let test_pos = pos(52.0225, 11.29);
    let d = vec![distance_um(&tracks[0].startline, &test_pos)];
    let detected_tracks = is_on_track(&tracks, &d, detection_radius);
    assert_eq!(0, detected_tracks.len());
}

#[test]
fn radius_bound_is_inclusive() {
    let tracks = vec![get_track(), get_track()];
    let r = is_on_track(&tracks, &vec![500_000_000, 500_000_001], 500);
    assert_eq!(r.len(), 1);
}

fn detector_with(position: Option<Position>) -> TrackDetection {
    let mut det = TrackDetection::new();
    det.position = position;
    det.tracks = vec![get_track()];
    det
}

#[test]
fn requests_wait_for_position_and_catalog() {
    let mut det = TrackDetection::new();
    det.push_request(Request::empty_request(10, 22));
    assert!(det.handle_pending_requests(&vec![]).is_empty());
    det.position = Some(pos(52.0258333, 11.279166666));
    assert!(det.handle_pending_requests(&vec![]).is_empty());
    assert_eq!(det.pending_requests.len(), 1);
    det.tracks = vec![get_track()];
    let d = vec![distance_um(&det.tracks[0].startline, &det.position.unwrap())];
    let out = det.handle_pending_requests(&d);
    assert_eq!(out.len(), 1);
    assert_eq!(out[0].data.len(), 1);
    assert!(det.pending_requests.is_empty());
}

#[test]
fn responses_echo_requests_in_order() {
    let p = pos(52.0225, 11.29);
    let mut det = detector_with(Some(p));
    det.push_request(Request::empty_request(10, 22));
    det.push_request(Request::empty_request(10, 100));
    det.push_request(Request::empty_request(7, 3));
    let d = vec![distance_um(&det.tracks[0].startline, &p)];
    let out = det.handle_pending_requests(&d);
    let got: Vec<(u64, u64)> = out.iter().map(|r| (r.id, r.receiver_addr)).collect();
    assert_eq!(got, vec![(10, 22), (10, 100), (7, 3)]);
    // nothing near: still answered, with no track
    assert!(out.iter().all(|r| r.data.is_empty()));
    assert_eq!(DETECTION_RADIUS_M, 500);
}

#[test]
fn waiter_accepts_only_its_own_response() {
    let req = Request::empty_request(1, 20);
    let resp = Response::reply(&req, vec![get_track()]);
    let ev = Event { kind: EventKind::DetectTrackResponseEvent(resp) };
    assert_eq!(ev.id(), Some(1));
    assert_eq!(ev.addr(), Some(20));
    assert_eq!(ev.event_type(), EventKindType::DetectTrackResponseEvent);
    assert!(ev.is_awaited(1, 20, EventKindType::DetectTrackResponseEvent));
    assert!(!ev.is_awaited(2, 20, EventKindType::DetectTrackResponseEvent));
    assert!(!ev.is_awaited(1, 22, EventKindType::DetectTrackResponseEvent));
    assert!(!ev.is_awaited(1, 20, EventKindType::LoadAllStoredTracksResponseEvent));
}

#[test]
fn two_requests_on_one_subscription_each_take_their_own() {
    let r1 = Request::empty_request(1, 100);
    let r2 = Request::empty_request(2, 100);
    let e2 = Event {
        kind: EventKind::LoadStoredSessionIdsResponseEvent(Response::reply(
            &r2,
            std::sync::Arc::new(vec![]),
        )),
    };
    let e1 = Event {
        kind: EventKind::LoadStoredSessionIdsResponseEvent(Response::reply(
            &r1,
            std::sync::Arc::new(vec![]),
        )),
    };
    let t = EventKindType::LoadStoredSessionIdsResponseEvent;
    assert!(e1.is_awaited(1, 100, t) && !e1.is_awaited(2, 100, t));
    assert!(e2.is_awaited(2, 100, t) && !e2.is_awaited(1, 100, t));
}

#[test]
fn events_without_correlation_have_no_id() {
    let ev = Event { kind: EventKind::LapStartedEvent };
    assert_eq!(ev.id(), None);
    assert_eq!(ev.addr(), None);
    let q = Event { kind: EventKind::LoadSessionRequestEvent(Request::new(5, 9, "x".to_string())) };
    assert_eq!(q.id(), Some(5));
    assert_eq!(q.addr(), Some(9));
    assert_eq!(Response::new(3, 4, ()).receiver_addr, 4);
}

#[test]
fn detector_takes_in_position_catalog_and_requests() {
    let mut det = TrackDetection::new();
    let fix = rapid::position::GnssPosition::new(
        52_025_833_300,
        11_279_166_666,
        0,
        &rapid::position::Time { hour: 0, minute: 0, second: 0, nano: 0 },
        &rapid::position::Date { year: 1970, month: 1, day: 1 },
    );
    assert!(det.on_event(&EventKind::GnssPositionEvent(std::sync::Arc::new(fix))));
    assert_eq!(det.position, Some(Position::new(52_025_833_300, 11_279_166_666)));
    assert!(det.on_event(&EventKind::DetectTrackRequestEvent(Request::empty_request(10, 100))));
    assert!(!det.ready());
    let tracks = Response::new(0, 20, vec![get_track()]);
    assert!(det.on_event(&EventKind::LoadAllStoredTracksResponseEvent(tracks)));
    assert!(det.ready());
    assert!(!det.on_event(&EventKind::LapStartedEvent));
    assert_eq!(det.pending_requests.len(), 1);
}
