use vstd::prelude::*;
use std::sync::Arc;
use crate::bus::{EventKind, Request, Response};
use crate::position::{Date, GnssPosition, Time};
use crate::session::{Lap, Session};
use crate::laptimer::{LaptimerState, SimpleLaptimer};
use crate::track::Track;

verus! {

/// Address of the session builder on the bus.
pub const ACTIVE_SESSION_ADDR: u64 = 100;

/// Correlation id of the track requests of the session builder and the
/// lap timer.
pub const DETECT_TRACK_REQUEST_ID: u64 = 10;

/// Correlation id of a save request.
pub const SAVE_REQUEST_ID: u64 = 30;

/// Sender address of a save request.
pub const SAVE_SENDER_ADDR: u64 = 40;

/// Owns the session being driven and the lap in progress.
pub struct ActiveSession {
    pub session: Option<Session>,
    pub active_lap: Option<Lap>,
}

impl ActiveSession {
    pub fn new() -> (r: ActiveSession)
        ensures
            r.session is None,
            r.active_lap is None,
    {
        ActiveSession { session: None, active_lap: None }
    }

    /// Opens a new session on the first detected track, started at `date`
    /// and `time`, when `resp` answers this builder's request and names a
    /// track; otherwise nothing changes.
    pub fn on_track_detected(&mut self, resp: &Response<Vec<Track>>, date: Date, time: Time)
        ensures
            final(self).active_lap == old(self).active_lap,
            (resp.id != DETECT_TRACK_REQUEST_ID || resp.receiver_addr != ACTIVE_SESSION_ADDR
                || resp.data@.len() == 0) ==> final(self).session == old(self).session,
            (resp.id == DETECT_TRACK_REQUEST_ID && resp.receiver_addr == ACTIVE_SESSION_ADDR
                && resp.data@.len() > 0) ==> {
                &&& final(self).session matches Some(s)
                &&& s.id == 0
                &&& s.date == date
                &&& s.time == time
                &&& s.track@ == resp.data@[0]@
                &&& s.laps@.len() == 0
            },
    {
        if resp.id != DETECT_TRACK_REQUEST_ID || resp.receiver_addr != ACTIVE_SESSION_ADDR {
            return;
        }
        if resp.data.len() == 0 {
            return;
        }
        let track = resp.data[0].clone();
        self.session = Some(Session::new(date, time, track));
    }

    /// A lap started: a new, empty lap is open.
    pub fn on_lap_started(&mut self)
        ensures
            final(self).session == old(self).session,
            final(self).active_lap matches Some(l) && l.sectors@.len() == 0
                && l.log_points@.len() == 0,
    {
        self.active_lap = Some(Lap::empty());
    }

    /// A sector time is added to the open lap, if there is one.
    pub fn on_sector_finished(&mut self, duration: u64)
        ensures
            final(self).session == old(self).session,
            old(self).active_lap is None ==> final(self).active_lap is None,
            old(self).active_lap matches Some(l) ==> final(self).active_lap matches Some(m)
                && m.sectors@ == l.sectors@.push(duration) && m.log_points == l.log_points,
    {
        match &mut self.active_lap {
            Some(lap) => {
                lap.sectors.push(duration);
            },
            None => {},
        }
    }

    /// A fix is logged in the open lap, if there is one.
    pub fn on_gnss_position(&mut self, fix: GnssPosition)
        ensures
            final(self).session == old(self).session,
            old(self).active_lap is None ==> final(self).active_lap is None,
            old(self).active_lap matches Some(l) ==> final(self).active_lap matches Some(m)
                && m.log_points@ == l.log_points@.push(fix) && m.sectors == l.sectors,
    {
        match &mut self.active_lap {
            Some(lap) => {
                lap.log_points.push(fix);
            },
            None => {},
        }
    }

    /// A lap finished: with a session open, the open lap (if any) moves to
    /// the end of its laps and a save is due (`true`). Without a session
    /// nothing changes.
    pub fn on_lap_finished(&mut self) -> (save: bool)
        ensures
            save == old(self).session is Some,
            old(self).session is None ==> *final(self) == *old(self),
            old(self).session matches Some(s) ==> {
                &&& final(self).active_lap is None
                &&& final(self).session matches Some(t)
                &&& t.id == s.id && t.date == s.date && t.time == s.time && t.track == s.track
                &&& t.laps@ == match old(self).active_lap {
                    Some(l) => s.laps@.push(l),
                    None => s.laps@,
                }
            },
    {
        match &mut self.session {
            Some(session) => {
                match self.active_lap.take() {
                    Some(lap) => {
                        session.laps.push(lap);
                    },
                    None => {},
                }
                true
            },
            None => false,
        }
    }

    /// Handles one bus event; returns whether a save of the session is due.
    /// Track detection responses open a session started at `date` and
    /// `time`; lap events and fixes build the open lap; other events are
    /// ignored.
    pub fn on_event(&mut self, kind: &EventKind, date: Date, time: Time) -> (save: bool)
        ensures
            save <==> (kind is LapFinishedEvent && old(self).session is Some),
            match *kind {
                EventKind::DetectTrackResponseEvent(resp) => {
                    &&& final(self).active_lap == old(self).active_lap
                    &&& (resp.id == DETECT_TRACK_REQUEST_ID && resp.receiver_addr
                        == ACTIVE_SESSION_ADDR && resp.data@.len() > 0) ==> (
                        final(self).session matches Some(s) && s.date == date && s.time == time
                        && s.track@ == resp.data@[0]@ && s.laps@.len() == 0)
                    &&& !(resp.id == DETECT_TRACK_REQUEST_ID && resp.receiver_addr
                        == ACTIVE_SESSION_ADDR && resp.data@.len() > 0) ==> final(self).session
                        == old(self).session
                },
                EventKind::LapStartedEvent => {
                    &&& final(self).session == old(self).session
                    &&& final(self).active_lap matches Some(l)
                    &&& l.sectors@.len() == 0
                    &&& l.log_points@.len() == 0
                },
                EventKind::SectorFinshedEvent(d) => {
                    &&& final(self).session == old(self).session
                    &&& old(self).active_lap is None ==> final(self).active_lap is None
                    &&& old(self).active_lap matches Some(l) ==> (
                        final(self).active_lap matches Some(m) && m.sectors@ == l.sectors@.push(d)
                        && m.log_points == l.log_points)
                },
                EventKind::GnssPositionEvent(f) => {
                    &&& final(self).session == old(self).session
                    &&& old(self).active_lap is None ==> final(self).active_lap is None
                    &&& old(self).active_lap matches Some(l) ==> (
                        final(self).active_lap matches Some(m) && m.log_points@
                        == l.log_points@.push(*f) && m.sectors == l.sectors)
                },
                EventKind::LapFinishedEvent(_) => {
                    &&& old(self).session is None ==> *final(self) == *old(self)
                    &&& old(self).session matches Some(s) ==> {
                        &&& final(self).active_lap is None
                        &&& final(self).session matches Some(t)
                        &&& t.id == s.id && t.date == s.date && t.time == s.time && t.track
                            == s.track
                        &&& t.laps@ == match old(self).active_lap {
                            Some(l) => s.laps@.push(l),
                            None => s.laps@,
                        }
                    }
                },
                _ => *final(self) == *old(self),
            },
    {
        match kind {
            EventKind::DetectTrackResponseEvent(resp) => {
                self.on_track_detected(&**resp, date, time);
                false
            },
            EventKind::LapStartedEvent => {
                self.on_lap_started();
                false
            },
            EventKind::SectorFinshedEvent(d) => {
                self.on_sector_finished(*d);
                false
            },
            EventKind::GnssPositionEvent(f) => {
                self.on_gnss_position(**f);
                false
            },
            EventKind::LapFinishedEvent(_) => self.on_lap_finished(),
            _ => false,
        }
    }

    /// The save request for a snapshot of the session.
    pub fn save_request(session: Arc<Session>) -> (r: Arc<Request<Arc<Session>>>)
        ensures
            r.id == SAVE_REQUEST_ID,
            r.sender_addr == SAVE_SENDER_ADDR,
            r.data == session,
    {
        Request::new(SAVE_REQUEST_ID, SAVE_SENDER_ADDR, session)
    }
}

/// A lap that the builder completes from the lap timer's events, having
/// recorded every sector time since the lap started, holds one sector time
/// per sector marker of the track plus the final one up to the finish.
pub proof fn lemma_stored_lap_sector_count(timer: SimpleLaptimer, lap: Lap, last: u64)
    requires
        timer.wf(),
        timer.track is Some,
        timer.track->Some_0.sectors@.len() > 0,
        timer.state == LaptimerState::WaitingForFinish,
        lap.sectors@ == timer.lap_sectors@,
    ensures
        lap.sectors@.push(last).len() == timer.track->Some_0.sectors@.len() + 1,
{
}

} // verus!
