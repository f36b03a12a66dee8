use rapid::bus::{EventKind, Response};
use std::sync::Arc;
use rapid::geometry::{is_point_passed, DETECTION_RANGE_UM};
use rapid::laptimer::{LaptimerState, LaptimerStatus, SimpleLaptimer};
use rapid::position::{Date, GnssPosition, Position, Time};
use rapid::track::{get_track, Track};

fn pos(lat: f64, lon: f64) -> Position {
    Position::new((lat * 1e9).round() as i64, (lon * 1e9).round() as i64)
}

fn distance_um(a: &Position, b: &Position) -> u64 {
    let (lat1, lon1) = (a.latitude as f64 / 1e9, a.longitude as f64 / 1e9);
    let (lat2, lon2) = (b.latitude as f64 / 1e9, b.longitude as f64 / 1e9);
    let mid = (lat1 + lat2) / 2.0 * std::f64::consts::PI / 180.0;
    let dx = 111300.0 * mid.cos() * (lon1 - lon2);
    let dy = 111300.0 * (lat1 - lat2);
    ((dx * dx + dy * dy).sqrt() * 1e6) as u64
}

fn fix(p: Position) -> GnssPosition {
    let t = Time { hour: 0, minute: 0, second: 0, nano: 0 };
    let d = Date { year: 1970, month: 1, day: 1 };
    GnssPosition::new(p.latitude, p.longitude, 0, &t, &d)
}

fn feed(timer: &mut SimpleLaptimer, p: Position, elapsed: u64) -> Vec<LaptimerStatus> {
    if !timer.update_position(&fix(p)) {
        return vec![];
    }
    let marker = match timer.pending_marker() {
        Some(m) => m,
        None => return vec![],
    };
    let d: Vec<u64> = timer.last_positions.iter().map(|q| distance_um(q, &marker)).collect();
    timer.calculate_laptimer_state(&d, elapsed)
}

fn feed_all(timer: &mut SimpleLaptimer, ps: &[Position], elapsed: u64) -> Vec<LaptimerStatus> {
    let mut out = vec![];
    for p in ps {
        out.extend(feed(timer, *p, elapsed));
    }
    out
}

fn finish_fixes() -> Vec<Position> {
    vec![
        pos(52.0270444, 11.2805431),
        pos(52.0270730, 11.2804234),
        pos(52.0271084, 11.2802563),
        pos(52.0271438, 11.2800835),
    ]
}

fn sector1_fixes() -> Vec<Position> {
    vec![
        pos(52.029819, 11.274203),
        pos(52.029821, 11.274193),
        pos(52.029821, 11.274169),
        pos(52.029822, 11.274149),
    ]
}

fn sector2_fixes() -> Vec<Position> {
    vec![
        pos(52.029970, 11.277183),
        pos(52.029968, 11.277193),
        pos(52.029967, 11.277212),
        pos(52.029966, 11.277218),
    ]
}

fn timer_on(track: Track) -> SimpleLaptimer {
    let mut t = SimpleLaptimer::new();
    t.set_track(track);
    t
}

#[test]
fn test_simple_laptimer_drive_whole_map_with_sectors() {
    let mut timer = timer_on(get_track());
    assert_eq!(feed_all(&mut timer, &finish_fixes(), 0), vec![LaptimerStatus::LapStarted]);
    assert_eq!(
        feed_all(&mut timer, &sector1_fixes(), 10_120_000_000),
        vec![LaptimerStatus::SectorFinshed(10_120_000_000)]
    );
    assert_eq!(
        feed_all(&mut timer, &sector2_fixes(), 20_250_000_000),
        vec![LaptimerStatus::SectorFinshed(10_130_000_000)]
    );
    assert_eq!(
        feed_all(&mut timer, &finish_fixes(), 30_390_000_000),
        vec![
            LaptimerStatus::SectorFinshed(10_140_000_000),
            LaptimerStatus::LapFinished(30_390_000_000),
            LaptimerStatus::LapStarted,
        ]
    );
    assert_eq!(timer.state, LaptimerState::IteratingTrackPoints);
    assert_eq!(timer.sector, 0);
}

#[test]
fn lap_time_equals_sum_of_sector_times() {
    let mut timer = timer_on(get_track());
    let mut sectors = 0u64;
    feed_all(&mut timer, &finish_fixes(), 0);
    for (fixes, at) in [
        (sector1_fixes(), 9_000_000_000u64),
        (sector2_fixes(), 21_500_000_000),
        (finish_fixes(), 33_001_000_000),
    ] {
        for ev in feed_all(&mut timer, &fixes, at) {
            match ev {
                LaptimerStatus::SectorFinshed(d) => sectors += d,
                LaptimerStatus::LapFinished(d) => assert_eq!(d, sectors),
                _ => {}
            }
        }
    }
    assert_eq!(sectors, 33_001_000_000);
}

#[test]
fn completed_lap_has_one_sector_time_per_marker_plus_one() {
    let mut timer = timer_on(get_track());
    let mut all = feed_all(&mut timer, &finish_fixes(), 0);
    all.extend(feed_all(&mut timer, &sector1_fixes(), 1_000));
    all.extend(feed_all(&mut timer, &sector2_fixes(), 2_000));
    all.extend(feed_all(&mut timer, &finish_fixes(), 3_000));
    let n = all.iter().filter(|e| matches!(e, LaptimerStatus::SectorFinshed(_))).count();
    assert_eq!(n, get_track().sectors.len() + 1);
}

#[test]
fn window_holds_at_most_four_fixes() {
    let mut timer = SimpleLaptimer::new();
    for p in finish_fixes().into_iter().chain(sector1_fixes()) {
        timer.update_position(&fix(p));
        assert!(timer.last_positions.len() <= 4);
    }
    assert_eq!(timer.last_positions[0], sector1_fixes()[3]);
    assert_eq!(timer.last_positions[3], sector1_fixes()[0]);
}

#[test]
fn no_crossing_with_fewer_than_four_distances() {
    assert!(!is_point_passed(&vec![]));
    assert!(!is_point_passed(&vec![3, 1, 2]));
    assert!(is_point_passed(&vec![3, 1, 2, 4]));
}

#[test]
fn detection_range_is_strict() {
    assert!(is_point_passed(&vec![
        DETECTION_RANGE_UM - 1,
        1,
        2,
        DETECTION_RANGE_UM - 1
    ]));
    assert!(!is_point_passed(&vec![DETECTION_RANGE_UM, 1, 2, 3]));
    assert!(!is_point_passed(&vec![3, 1, 2, DETECTION_RANGE_UM]));
}

#[test]
fn crossing_needs_direction_and_distinct_middle() {
    assert!(!is_point_passed(&vec![1, 3, 2, 4]));
    assert!(!is_point_passed(&vec![3, 1, 4, 2]));
    assert!(!is_point_passed(&vec![3, 2, 2, 4]));
}

#[test]
fn track_without_sectors_goes_from_start_to_finish() {
    let mut track = get_track();
    track.sectors.clear();
    track.finishline = None;
    let mut timer = timer_on(track);
    assert_eq!(feed_all(&mut timer, &finish_fixes(), 0), vec![LaptimerStatus::LapStarted]);
    assert_eq!(timer.state, LaptimerState::WaitingForFinish);
    let out = feed_all(&mut timer, &finish_fixes(), 5_000);
    assert_eq!(
        out[..2].to_vec(),
        vec![LaptimerStatus::SectorFinshed(5_000), LaptimerStatus::LapFinished(5_000)]
    );
    assert!(!out.contains(&LaptimerStatus::LapStarted));
    assert_eq!(timer.state, LaptimerState::WaitingForFinish);
}

#[test]
fn missing_finish_line_uses_start_line() {
    let mut track = get_track();
    track.finishline = None;
    let start = track.startline;
    let mut timer = timer_on(track);
    timer.state = LaptimerState::WaitingForFinish;
    timer.sector = 2;
    assert_eq!(timer.pending_marker(), Some(start));
}

#[test]
fn no_event_without_track() {
    let mut timer = SimpleLaptimer::new();
    assert!(feed_all(&mut timer, &finish_fixes(), 0).is_empty());
    assert_eq!(timer.pending_marker(), None);
    assert_eq!(timer.lap_time(42), 0);
}

#[test]
fn track_set_after_full_window_can_start_a_lap() {
    let mut timer = SimpleLaptimer::new();
    for p in finish_fixes() {
        timer.update_position(&fix(p));
    }
    timer.set_track(get_track());
    let marker = timer.pending_marker().unwrap();
    let d: Vec<u64> = timer.last_positions.iter().map(|q| distance_um(q, &marker)).collect();
    assert_eq!(timer.calculate_laptimer_state(&d, 0), vec![LaptimerStatus::LapStarted]);
    assert_eq!(timer.lap_time(7), 7);
}

#[test]
fn lap_timer_takes_only_its_track_response() {
    let mut timer = SimpleLaptimer::new();
    assert!(!timer.on_track_response(&Response { id: 10, receiver_addr: 100, data: vec![get_track()] }));
    assert!(!timer.on_track_response(&Response { id: 10, receiver_addr: 22, data: vec![] }));
    assert!(timer.track.is_none());
    assert!(timer.on_track_response(&Response { id: 10, receiver_addr: 22, data: vec![get_track()] }));
    assert_eq!(timer.track.as_ref().unwrap().name, "Oschersleben");
}

#[test]
fn lap_timer_follows_bus_events() {
    let mut timer = SimpleLaptimer::new();
    for p in finish_fixes() {
        assert!(!timer.on_event(&EventKind::GnssPositionEvent(Arc::new(fix(p)))));
    }
    let resp = Response { id: 10, receiver_addr: 22, data: vec![get_track()] };
    assert!(timer.on_event(&EventKind::DetectTrackResponseEvent(Arc::new(resp))));
    assert!(!timer.on_event(&EventKind::LapStartedEvent));
    assert!(timer.on_event(&EventKind::GnssPositionEvent(Arc::new(fix(finish_fixes()[0])))));
}
