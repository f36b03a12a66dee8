use rapid::active_session::ActiveSession;
use rapid::bus::{EventKind, Request, Response, StoreError};
use rapid::position::{Date, GnssPosition, Time};
use rapid::session::{id_from_lowered, Lap, Session, SessionInfo};
use rapid::storage::{delete_result, file_name, has_extension, ids, sorted_session_infos};
use rapid::text::{date_to_text, duration_to_string, parse_duration, parse_time, time_to_text};
use rapid::track::get_track;
use std::sync::Arc;

fn date(day: u8, month: u8, year: u16) -> Date {
    Date { year, month, day }
}

fn time(hour: u8, minute: u8, second: u8, nano: u32) -> Time {
    Time { hour, minute, second, nano }
}

#[test]
fn calculate_laptime_with_one_sector() {
    let exp_time = 90_000_000_000u64;
    let lap = Lap { sectors: vec![exp_time], log_points: vec![] };
    let laptime = lap.laptime();
    assert_eq!(laptime, exp_time);
}

#[test]
fn calculate_laptime_with_multiple_sectors() {
    let sec_time = 90_000_000_000u64;
    let lap_time = 270_000_000_000u64;
    let lap = Lap { sectors: vec![sec_time, sec_time, sec_time], log_points: vec![] };
    let laptime = lap.laptime();
    assert_eq!(laptime, lap_time);
}

#[test]
fn session_id_of_saved_session() {
    let s = Session::new(date(1, 1, 1970), time(13, 0, 0, 0), get_track());
    assert_eq!(s.get_id(), "oschersleben_01_01_1970_13_00_00_000");
    assert_eq!(file_name(&s.get_id(), "session"), "oschersleben_01_01_1970_13_00_00_000.session");
    assert_eq!(file_name(&s.get_id(), "info"), "oschersleben_01_01_1970_13_00_00_000.info");
}

#[test]
fn session_id_keeps_milliseconds() {
    let mut track = get_track();
    track.name = "Most".to_string();
    let s = Session::new(date(31, 12, 2024), time(9, 5, 7, 123_999_999), track);
    assert_eq!(s.get_id(), "most_31_12_2024_09_05_07_123");
}

#[test]
fn session_info_of_session() {
    let mut s = Session::new(date(2, 3, 2025), time(10, 11, 12, 0), get_track());
    s.laps.push(Lap::empty());
    s.laps.push(Lap::empty());
    let info = SessionInfo::of_session(&s);
    assert_eq!(info.id, "oschersleben_02_03_2025_10_11_12_000");
    assert_eq!(info.track_name, "Oschersleben");
    assert_eq!(info.laps, 2);
    assert_eq!(info.date, s.date);
}

#[test]
fn durations_as_text() {
    assert_eq!(duration_to_string(10_120_000_000).unwrap(), "00:00:10.120");
    assert_eq!(duration_to_string(3_723_004_999_999).unwrap(), "01:02:03.004");
    assert_eq!(duration_to_string(0).unwrap(), "00:00:00.000");
    assert_eq!(duration_to_string(86_399_999_999_999).unwrap(), "23:59:59.999");
    assert!(duration_to_string(86_400_000_000_000).is_none());
}

#[test]
fn durations_from_text() {
    assert_eq!(parse_duration("00:00:25.144"), Some(25_144_000_000));
    assert_eq!(parse_duration("01:02:03.004"), Some(3_723_004_000_000));
    assert_eq!(parse_duration("24:00:00.000"), None);
    assert_eq!(parse_duration("00:60:00.000"), None);
    assert_eq!(parse_duration("00:00:00.00"), None);
    assert_eq!(parse_duration("00-00-00.000"), None);
    assert_eq!(parse_duration("0a:00:00.000"), None);
}

#[test]
fn duration_text_round_trip() {
    for d in [0u64, 10_120_000_000, 30_390_000_000, 86_399_999_000_000] {
        let t = duration_to_string(d).unwrap();
        assert_eq!(parse_duration(&t), Some(d));
    }
}

#[test]
fn listing_ids_sorted_and_filtered() {
    let names: Vec<String> = ["b.info", "a.info", "c.session", ".info", "x.info.bak", "d.info"]
        .iter()
        .map(|s| s.to_string())
        .collect();
    assert_eq!(ids(&names, "info"), vec!["a", "b", "d"]);
    assert_eq!(ids(&names, "session"), vec!["c"]);
    assert!(ids(&vec![], "track").is_empty());
    assert!(has_extension("Most.track", "track"));
    assert!(!has_extension("track", "track"));
}

#[test]
fn session_infos_sorted_by_id() {
    let mk = |id: &str| SessionInfo::new(
        id.to_string(),
        date(1, 1, 1970),
        time(0, 0, 0, 0),
        "T".to_string(),
        0,
    );
    let r = sorted_session_infos(vec![mk("session_2"), mk("session_1"), mk("a")]);
    let got: Vec<&str> = r.iter().map(|i| i.id.as_str()).collect();
    assert_eq!(got, vec!["a", "session_1", "session_2"]);
}

#[test]
fn delete_answers_first_error() {
    assert_eq!(delete_result(Err(StoreError::NotFound), None), Err(StoreError::NotFound));
    assert_eq!(delete_result(Ok(()), Some(Err(StoreError::Other))), Err(StoreError::Other));
    assert_eq!(delete_result(Ok(()), Some(Ok(()))), Ok(()));
}

fn fix() -> GnssPosition {
    GnssPosition::new(52_027_044_400, 11_280_543_100, 0, &time(0, 0, 0, 0), &date(1, 1, 1970))
}

#[test]
fn builder_collects_laps() {
    let mut b = ActiveSession::new();
    let resp = Response::new(10, 100, vec![get_track()]);
    b.on_track_detected(&resp, date(1, 1, 1970), time(13, 0, 0, 0));
    assert_eq!(b.session.as_ref().unwrap().track.name, "Oschersleben");
    b.on_gnss_position(fix());
    assert!(b.active_lap.is_none());
    b.on_lap_started();
    b.on_gnss_position(fix());
    b.on_sector_finished(10);
    b.on_sector_finished(20);
    b.on_sector_finished(30);
    assert!(b.on_lap_finished());
    let s = b.session.as_ref().unwrap();
    assert_eq!(s.laps.len(), 1);
    assert_eq!(s.laps[0].sectors, vec![10, 20, 30]);
    assert_eq!(s.laps[0].log_points.len(), 1);
    assert!(b.active_lap.is_none());
    let req = ActiveSession::save_request(Arc::new(s.clone()));
    assert_eq!((req.id, req.sender_addr), (30, 40));
}

#[test]
fn builder_ignores_foreign_or_empty_detection() {
    let mut b = ActiveSession::new();
    b.on_track_detected(&Response::new(10, 22, vec![get_track()]), date(1, 1, 1970), time(0, 0, 0, 0));
    assert!(b.session.is_none());
    b.on_track_detected(&Response::new(10, 100, vec![]), date(1, 1, 1970), time(0, 0, 0, 0));
    assert!(b.session.is_none());
    b.on_lap_started();
    assert!(!b.on_lap_finished());
    assert!(b.active_lap.is_some());
    let q = Request::new(1, 2, ());
    assert_eq!(q.sender_addr, 2);
}

#[test]
fn time_and_date_texts() {
    assert_eq!(time_to_text(&time(13, 0, 0, 0)), "13:00:00.000");
    assert_eq!(time_to_text(&time(9, 8, 7, 654_321_000)), "09:08:07.654");
    assert_eq!(date_to_text(&date(1, 1, 1970)), "01.01.1970");
    assert_eq!(parse_time("13:00:00.000"), Some(time(13, 0, 0, 0)));
    assert_eq!(parse_time("09:08:07.654"), Some(time(9, 8, 7, 654_000_000)));
    assert_eq!(parse_time("25:00:00.000"), None);
}

#[test]
fn builder_follows_bus_events() {
    let mut b = ActiveSession::new();
    let d = date(1, 1, 1970);
    let t = time(13, 0, 0, 0);
    let resp = Response::new(10, 100, vec![get_track()]);
    assert!(!b.on_event(&EventKind::DetectTrackResponseEvent(resp), d, t));
    assert!(!b.on_event(&EventKind::LapStartedEvent, d, t));
    assert!(!b.on_event(&EventKind::GnssPositionEvent(Arc::new(fix())), d, t));
    assert!(!b.on_event(&EventKind::SectorFinshedEvent(5), d, t));
    assert!(!b.on_event(&EventKind::SectorFinshedEvent(7), d, t));
    assert!(!b.on_event(&EventKind::QuitEvent, d, t));
    assert!(b.on_event(&EventKind::LapFinishedEvent(12), d, t));
    let s = b.session.as_ref().unwrap();
    assert_eq!(s.laps.len(), 1);
    assert_eq!(s.laps[0].sectors, vec![5, 7]);
    assert_eq!(s.laps[0].clone().laptime(), 12);
}

#[test]
fn id_from_lowered_name() {
    assert_eq!(
        id_from_lowered("oschersleben", date(1, 1, 1970), time(13, 0, 0, 0)),
        "oschersleben_01_01_1970_13_00_00_000"
    );
    assert_eq!(id_from_lowered("x", date(9, 12, 2025), time(0, 0, 5, 7_000_000)), "x_09_12_2025_00_00_05_007");
}

#[test]
fn listing_keeps_repeated_ids() {
    let names: Vec<String> = ["a.info", "a.info", "b.info"].iter().map(|s| s.to_string()).collect();
    assert_eq!(ids(&names, "info"), vec!["a", "a", "b"]);
}
