use vstd::prelude::*;
use std::collections::VecDeque;
use crate::geometry::{crossing, is_point_passed};
use crate::position::{GnssPosition, Position};
use crate::bus::{EventKind, Response};
use crate::track::Track;

verus! {

/// Address of the lap timer on the bus.
pub const LAPTIMER_ADDR: u64 = 22;

/// Correlation id of the lap timer's track request.
pub const LAPTIMER_TRACK_REQUEST_ID: u64 = 10;

/// Number of fixes in the crossing window.
pub const WINDOW_LEN: usize = 4;

/// Timing events of the lap timer; durations are nanoseconds.
#[derive(Clone, Copy, Debug, PartialEq, Eq, Structural)]
pub enum LaptimerStatus {
    LapStarted,
    LapFinished(u64),
    SectorFinshed(u64),
    Laptime(u64),
}

/// Where the lap timer stands in a lap.
#[derive(Clone, Copy, Debug, PartialEq, Eq, Structural)]
pub enum LaptimerState {
    WaitingForFirstStart,
    IteratingTrackPoints,
    WaitingForFinish,
}

/// Sum of a sequence of durations.
pub open spec fn total(s: Seq<u64>) -> int
    decreases s.len(),
{
    if s.len() == 0 {
        0
    } else {
        total(s.drop_last()) + s.last()
    }
}

/// The window after a new fix: the fix in front, the oldest dropped once
/// the window holds four.
pub open spec fn pushed_window(w: Seq<Position>, p: Position) -> Seq<Position> {
    if w.len() >= WINDOW_LEN {
        seq![p] + w.take(WINDOW_LEN as int - 1)
    } else {
        seq![p] + w
    }
}

/// Whether an evaluation with distances `d` crosses the pending marker.
pub open spec fn crosses(o: SimpleLaptimer, d: Seq<u64>) -> bool {
    crossing(d) && o.marker_spec() is Some
}

/// The lap timer after one evaluation with distances `d` at lap clock
/// `elapsed`.
pub open spec fn step(o: SimpleLaptimer, d: Seq<u64>, elapsed: u64) -> SimpleLaptimer {
    if !crosses(o, d) {
        o
    } else {
        let n = o.track->Some_0.sectors@.len();
        let dur = (elapsed - o.sector_start) as u64;
        match o.state {
            LaptimerState::WaitingForFirstStart => SimpleLaptimer {
                state: if n == 0 {
                    LaptimerState::WaitingForFinish
                } else {
                    LaptimerState::IteratingTrackPoints
                },
                sector: 0,
                sector_start: 0,
                lap_sectors: Ghost(Seq::empty()),
                ..o
            },
            LaptimerState::IteratingTrackPoints => SimpleLaptimer {
                state: if o.sector + 1 == n {
                    LaptimerState::WaitingForFinish
                } else {
                    LaptimerState::IteratingTrackPoints
                },
                sector: (o.sector + 1) as usize,
                sector_start: elapsed,
                lap_sectors: Ghost(o.lap_sectors@.push(dur)),
                ..o
            },
            LaptimerState::WaitingForFinish => if n > 0 {
                SimpleLaptimer {
                    state: LaptimerState::IteratingTrackPoints,
                    sector: 0,
                    sector_start: 0,
                    lap_sectors: Ghost(Seq::empty()),
                    ..o
                }
            } else {
                SimpleLaptimer {
                    sector_start: elapsed,
                    lap_sectors: Ghost(o.lap_sectors@.push(dur)),
                    ..o
                }
            },
        }
    }
}

/// The events of one evaluation with distances `d` at lap clock `elapsed`.
pub open spec fn step_out(o: SimpleLaptimer, d: Seq<u64>, elapsed: u64) -> Seq<LaptimerStatus> {
    if !crosses(o, d) {
        seq![]
    } else {
        let n = o.track->Some_0.sectors@.len();
        let dur = (elapsed - o.sector_start) as u64;
        match o.state {
            LaptimerState::WaitingForFirstStart => seq![LaptimerStatus::LapStarted],
            LaptimerState::IteratingTrackPoints => seq![LaptimerStatus::SectorFinshed(dur)],
            LaptimerState::WaitingForFinish => if n > 0 {
                seq![
                    LaptimerStatus::SectorFinshed(dur),
                    LaptimerStatus::LapFinished(elapsed),
                    LaptimerStatus::LapStarted,
                ]
            } else {
                seq![LaptimerStatus::SectorFinshed(dur), LaptimerStatus::LapFinished(elapsed)]
            },
        }
    }
}

/// A detection response that the lap timer takes its track from.
pub open spec fn takes_track(resp: Response<Vec<Track>>) -> bool {
    resp.id == LAPTIMER_TRACK_REQUEST_ID && resp.receiver_addr == LAPTIMER_ADDR
        && resp.data@.len() > 0
}

/// Lap timer: turns crossings of the track's markers into timing events.
///
/// The distances of the window to a marker are measured outside; a
/// crossing evaluation takes them, together with the elapsed time of the
/// running lap (nanoseconds since the clock was last started).
pub struct SimpleLaptimer {
    pub track: Option<Track>,
    /// The latest fixes, newest first.
    pub last_positions: VecDeque<Position>,
    pub state: LaptimerState,
    pub sector: usize,
    pub sector_start: u64,
    /// Sector durations emitted since the last `LapStarted`.
    pub lap_sectors: Ghost<Seq<u64>>,
}

impl SimpleLaptimer {
    pub open spec fn wf(&self) -> bool {
        &&& self.last_positions@.len() <= WINDOW_LEN
        &&& total(self.lap_sectors@) == self.sector_start
        &&& self.state == LaptimerState::WaitingForFirstStart ==> self.sector == 0
            && self.sector_start == 0 && self.lap_sectors@.len() == 0
        &&& (self.state == LaptimerState::IteratingTrackPoints || (self.state
            == LaptimerState::WaitingForFinish && self.sector > 0)) ==> self.lap_sectors@.len()
            == self.sector
        &&& self.track matches Some(t) ==> self.fits(t)
    }

    /// The lap in progress is consistent with track `t`.
    pub open spec fn fits(&self, t: Track) -> bool {
        &&& t.sectors@.len() <= usize::MAX
        &&& self.state == LaptimerState::IteratingTrackPoints ==> self.sector
            < t.sectors@.len()
        &&& self.state == LaptimerState::WaitingForFinish ==> self.sector == t.sectors@.len()
    }

    /// The marker that the next evaluation tests, if any.
    pub open spec fn marker_spec(&self) -> Option<Position> {
        match self.track {
            None => None,
            Some(t) => match self.state {
                LaptimerState::WaitingForFirstStart => Some(t.startline),
                LaptimerState::IteratingTrackPoints => if self.sector < t.sectors@.len() {
                    Some(t.sectors@[self.sector as int])
                } else {
                    None
                },
                LaptimerState::WaitingForFinish => Some(t.finish_marker()),
            },
        }
    }

    /// A lap timer without a track, waiting for the first start.
    pub fn new() -> (r: SimpleLaptimer)
        ensures
            r.wf(),
            r.track is None,
            r.last_positions@.len() == 0,
            r.state == LaptimerState::WaitingForFirstStart,
    {
        SimpleLaptimer {
            track: None,
            last_positions: VecDeque::new(),
            state: LaptimerState::WaitingForFirstStart,
            sector: 0,
            sector_start: 0,
            lap_sectors: Ghost(Seq::empty()),
        }
    }

    /// Puts a fix in front of the window, dropping the oldest beyond four.
    /// Returns whether a crossing evaluation is due: the window is full and
    /// a track is set.
    pub fn update_position(&mut self, pos: &GnssPosition) -> (due: bool)
        requires
            old(self).wf(),
        ensures
            final(self).wf(),
            final(self).last_positions@ == pushed_window(
                old(self).last_positions@,
                pos.position_spec(),
            ),
            final(self).track == old(self).track,
            final(self).state == old(self).state,
            final(self).sector == old(self).sector,
            final(self).sector_start == old(self).sector_start,
            final(self).lap_sectors == old(self).lap_sectors,
            due == (final(self).last_positions@.len() == WINDOW_LEN && final(self).track is Some),
    {
        if self.last_positions.len() >= WINDOW_LEN {
            self.last_positions.pop_back();
        }
        self.last_positions.push_front(pos.to_position());
        proof {
            assert(self.last_positions@ =~= pushed_window(
                old(self).last_positions@,
                pos.position_spec(),
            ));
        }
        self.last_positions.len() == WINDOW_LEN && self.track.is_some()
    }

    /// The marker whose distances the next evaluation needs: the start line
    /// before a lap, the next sector marker during one, then the finish.
    pub fn pending_marker(&self) -> (r: Option<Position>)
        ensures
            r == self.marker_spec(),
    {
        match &self.track {
            None => None,
            Some(t) => match self.state {
                LaptimerState::WaitingForFirstStart => Some(t.startline),
                LaptimerState::IteratingTrackPoints => if self.sector < t.sectors.len() {
                    Some(t.sectors[self.sector])
                } else {
                    None
                },
                LaptimerState::WaitingForFinish => Some(t.finish_point()),
            },
        }
    }

    /// Sets the track. A lap in progress that does not fit the new track
    /// is dropped and the timer waits for the start line again.
    pub fn set_track(&mut self, track: Track)
        requires
            old(self).wf(),
        ensures
            final(self).wf(),
            final(self).track == Some(track),
            final(self).last_positions == old(self).last_positions,
            old(self).fits(track) ==> final(self).state == old(self).state && final(self).sector
                == old(self).sector && final(self).sector_start == old(self).sector_start
                && final(self).lap_sectors == old(self).lap_sectors,
            !old(self).fits(track) ==> final(self).state == LaptimerState::WaitingForFirstStart
                && final(self).sector == 0 && final(self).sector_start == 0,
    {
        let n = track.sectors.len();
        let fits = match self.state {
            LaptimerState::WaitingForFirstStart => true,
            LaptimerState::IteratingTrackPoints => self.sector < n,
            LaptimerState::WaitingForFinish => self.sector == n,
        };
        if !fits {
            self.state = LaptimerState::WaitingForFirstStart;
            self.sector = 0;
            self.sector_start = 0;
            self.lap_sectors = Ghost(Seq::empty());
        }
        self.track = Some(track);
    }

    /// One evaluation of the lap state machine. `distances` are the
    /// distances (micrometres, newest fix first) of the window to the
    /// pending marker; `elapsed` is the lap clock (nanoseconds).
    ///
    /// Where the result holds `LapStarted`, it is the last event, and the
    /// caller restarts the lap clock.
    pub fn calculate_laptimer_state(&mut self, distances: &Vec<u64>, elapsed: u64) -> (out: Vec<
        LaptimerStatus,
    >)
        requires
            old(self).wf(),
            elapsed >= old(self).sector_start,
        ensures
            final(self).wf(),
            final(self).track == old(self).track,
            final(self).last_positions == old(self).last_positions,
            *final(self) == step(*old(self), distances@, elapsed),
            out@ == step_out(*old(self), distances@, elapsed),
            ({
                let o = *old(self);
                let crossed = crossing(distances@) && o.marker_spec() is Some;
                let d = (elapsed - o.sector_start) as u64;
                if !crossed {
                    *final(self) == o && out@ == Seq::<LaptimerStatus>::empty()
                } else {
                    let t = o.track->Some_0;
                    let n = t.sectors@.len();
                    match o.state {
                        LaptimerState::WaitingForFirstStart => {
                            &&& out@ == seq![LaptimerStatus::LapStarted]
                            &&& final(self).state == (if n == 0 {
                                LaptimerState::WaitingForFinish
                            } else {
                                LaptimerState::IteratingTrackPoints
                            })
                            &&& final(self).sector == 0
                            &&& final(self).sector_start == 0
                            &&& final(self).lap_sectors@ == Seq::<u64>::empty()
                        },
                        LaptimerState::IteratingTrackPoints => {
                            &&& out@ == seq![LaptimerStatus::SectorFinshed(d)]
                            &&& final(self).sector == o.sector + 1
                            &&& final(self).state == (if o.sector + 1 == n {
                                LaptimerState::WaitingForFinish
                            } else {
                                LaptimerState::IteratingTrackPoints
                            })
                            &&& final(self).sector_start == elapsed
                            &&& final(self).lap_sectors@ == o.lap_sectors@.push(d)
                        },
                        LaptimerState::WaitingForFinish => {
                            if n > 0 {
                                &&& out@ == seq![
                                    LaptimerStatus::SectorFinshed(d),
                                    LaptimerStatus::LapFinished(elapsed),
                                    LaptimerStatus::LapStarted,
                                ]
                                &&& final(self).state == LaptimerState::IteratingTrackPoints
                                &&& final(self).sector == 0
                                &&& final(self).sector_start == 0
                                &&& final(self).lap_sectors@ == Seq::<u64>::empty()
                            } else {
                                &&& out@ == seq![
                                    LaptimerStatus::SectorFinshed(d),
                                    LaptimerStatus::LapFinished(elapsed),
                                ]
                                &&& final(self).state == LaptimerState::WaitingForFinish
                                &&& final(self).sector == o.sector
                                &&& final(self).sector_start == elapsed
                                &&& final(self).lap_sectors@ == o.lap_sectors@.push(d)
                            }
                        },
                    }
                }
            }),
    {
        let marker = self.pending_marker();
        if marker.is_none() || !is_point_passed(distances) {
            return Vec::new();
        }
        let n = match &self.track {
            Some(t) => t.sectors.len(),
            None => 0,
        };
        let mut out: Vec<LaptimerStatus> = Vec::new();
        match self.state {
            LaptimerState::WaitingForFirstStart => {
                self.state = if n == 0 {
                    LaptimerState::WaitingForFinish
                } else {
                    LaptimerState::IteratingTrackPoints
                };
                self.sector = 0;
                self.sector_start = 0;
                self.lap_sectors = Ghost(Seq::empty());
                out.push(LaptimerStatus::LapStarted);
            },
            LaptimerState::IteratingTrackPoints => {
                let d = elapsed - self.sector_start;
                self.sector = self.sector + 1;
                if self.sector == n {
                    self.state = LaptimerState::WaitingForFinish;
                }
                self.sector_start = elapsed;
                self.lap_sectors = Ghost(self.lap_sectors@.push(d));
                proof {
                    assert(self.lap_sectors@.drop_last() =~= old(self).lap_sectors@);
                }
                out.push(LaptimerStatus::SectorFinshed(d));
            },
            LaptimerState::WaitingForFinish => {
                let d = elapsed - self.sector_start;
                out.push(LaptimerStatus::SectorFinshed(d));
                out.push(LaptimerStatus::LapFinished(elapsed));
                if n > 0 {
                    self.sector = 0;
                    self.sector_start = 0;
                    self.state = LaptimerState::IteratingTrackPoints;
                    self.lap_sectors = Ghost(Seq::empty());
                    out.push(LaptimerStatus::LapStarted);
                } else {
                    self.sector_start = elapsed;
                    self.lap_sectors = Ghost(self.lap_sectors@.push(d));
                    proof {
                        assert(self.lap_sectors@.drop_last() =~= old(self).lap_sectors@);
                    }
                }
            },
        }
        out
    }

    /// Takes the first track of a detection response addressed to the lap
    /// timer; returns whether it did. Other responses change nothing.
    pub fn on_track_response(&mut self, resp: &Response<Vec<Track>>) -> (taken: bool)
        requires
            old(self).wf(),
        ensures
            final(self).wf(),
            taken == takes_track(*resp),
            !taken ==> *final(self) == *old(self),
            taken ==> (final(self).track matches Some(t) && t@ == resp.data@[0]@),
            final(self).last_positions == old(self).last_positions,
    {
        if resp.id != LAPTIMER_TRACK_REQUEST_ID || resp.receiver_addr != LAPTIMER_ADDR
            || resp.data.len() == 0 {
            return false;
        }
        let t = resp.data[0].clone();
        self.set_track(t);
        true
    }

    /// Takes in one bus event: a fix enters the window, a detection
    /// response for the lap timer sets the track. Returns whether a crossing
    /// evaluation is due: a full window with a track, after either.
    pub fn on_event(&mut self, kind: &EventKind) -> (due: bool)
        requires
            old(self).wf(),
        ensures
            final(self).wf(),
            due == (final(self).last_positions@.len() == WINDOW_LEN && final(self).track is Some
                && match *kind {
                EventKind::GnssPositionEvent(_) => true,
                EventKind::DetectTrackResponseEvent(resp) => takes_track(*resp),
                _ => false,
            }),
            match *kind {
                EventKind::GnssPositionEvent(f) => {
                    &&& final(self).last_positions@ == pushed_window(
                        old(self).last_positions@,
                        f.position_spec(),
                    )
                    &&& final(self).track == old(self).track
                    &&& final(self).state == old(self).state
                },
                EventKind::DetectTrackResponseEvent(resp) => {
                    &&& final(self).last_positions == old(self).last_positions
                    &&& takes_track(*resp) ==> (final(self).track matches Some(t) && t@
                        == resp.data@[0]@)
                    &&& !takes_track(*resp) ==> *final(self) == *old(self)
                },
                _ => *final(self) == *old(self),
            },
    {
        match kind {
            EventKind::GnssPositionEvent(f) => self.update_position(&**f),
            EventKind::DetectTrackResponseEvent(resp) => {
                let taken = self.on_track_response(&**resp);
                taken && self.last_positions.len() == WINDOW_LEN
            },
            _ => false,
        }
    }

    /// The current lap time: the lap clock once a lap has started, else zero.
    pub fn lap_time(&self, elapsed: u64) -> (r: u64)
        ensures
            r == if self.state == LaptimerState::WaitingForFirstStart {
                0
            } else {
                elapsed
            },
    {
        if self.state != LaptimerState::WaitingForFirstStart {
            return elapsed;
        }
        0
    }
}

/// The lap time reported when a lap finishes equals the sum of the sector
/// times emitted since that lap started, the final sector included.
pub proof fn lemma_lap_time_is_sum_of_sector_times(timer: SimpleLaptimer, elapsed: u64)
    requires
        timer.wf(),
        elapsed >= timer.sector_start,
    ensures
        total(timer.lap_sectors@.push((elapsed - timer.sector_start) as u64)) == elapsed,
{
    let s = timer.lap_sectors@.push((elapsed - timer.sector_start) as u64);
    assert(s.drop_last() =~= timer.lap_sectors@);
}

/// When the finish of a lap is awaited on a track with sector markers, one
/// sector time per marker has been emitted; the finish adds the last one,
/// so a completed lap has one sector time more than the track has markers.
pub proof fn lemma_completed_lap_sector_count(timer: SimpleLaptimer)
    requires
        timer.wf(),
        timer.track is Some,
        timer.track->Some_0.sectors@.len() > 0,
        timer.state == LaptimerState::WaitingForFinish,
    ensures
        timer.lap_sectors@.len() + 1 == timer.track->Some_0.sectors@.len() + 1,
{
}

/// A track without sector markers never has a sector marker pending: once
/// started, the timer waits for the finish.
pub proof fn lemma_no_sector_track_waits_for_finish(timer: SimpleLaptimer)
    requires
        timer.wf(),
        timer.track is Some,
        timer.track->Some_0.sectors@.len() == 0,
    ensures
        timer.state != LaptimerState::IteratingTrackPoints,
        timer.state != LaptimerState::WaitingForFirstStart ==> timer.marker_spec() == Some(
            timer.track->Some_0.finish_marker(),
        ),
{
}

/// A track without a finish line ends its laps at the start line.
pub proof fn lemma_missing_finish_line_uses_start(timer: SimpleLaptimer)
    requires
        timer.track is Some,
        timer.track->Some_0.finishline is None,
        timer.state == LaptimerState::WaitingForFinish,
    ensures
        timer.marker_spec() == Some(timer.track->Some_0.startline),
        forall|d: Seq<u64>| #[trigger] crosses(timer, d) == crossing(d),
{
}

/// The timer after successive evaluations, each with its distances and
/// lap clock.
pub open spec fn run_state(t: SimpleLaptimer, ins: Seq<(Seq<u64>, u64)>) -> SimpleLaptimer
    decreases ins.len(),
{
    if ins.len() == 0 {
        t
    } else {
        step(run_state(t, ins.drop_last()), ins.last().0, ins.last().1)
    }
}

/// All events of successive evaluations, in order.
pub open spec fn run_out(t: SimpleLaptimer, ins: Seq<(Seq<u64>, u64)>) -> Seq<LaptimerStatus>
    decreases ins.len(),
{
    if ins.len() == 0 {
        seq![]
    } else {
        run_out(t, ins.drop_last()) + step_out(
            run_state(t, ins.drop_last()),
            ins.last().0,
            ins.last().1,
        )
    }
}

/// The lap clock never reads below the start of the sector in progress.
pub open spec fn clock_ok(t: SimpleLaptimer, ins: Seq<(Seq<u64>, u64)>) -> bool {
    forall|i: int| 0 <= i < ins.len() ==> #[trigger] ins[i].1 >= run_state(t, ins.take(i)).sector_start
}

/// The sector times among some events.
pub open spec fn sector_times(evs: Seq<LaptimerStatus>) -> Seq<u64>
    decreases evs.len(),
{
    if evs.len() == 0 {
        seq![]
    } else {
        let rest = sector_times(evs.drop_last());
        match evs.last() {
            LaptimerStatus::SectorFinshed(d) => rest.push(d),
            _ => rest,
        }
    }
}

/// Some event finishes a lap.
pub open spec fn has_finish(evs: Seq<LaptimerStatus>) -> bool {
    exists|i: int| 0 <= i < evs.len() && #[trigger] evs[i] is LapFinished
}

proof fn lemma_sector_times_concat(a: Seq<LaptimerStatus>, b: Seq<LaptimerStatus>)
    ensures
        sector_times(a + b) == sector_times(a) + sector_times(b),
    decreases b.len(),
{
    if b.len() == 0 {
        assert(a + b =~= a);
        assert(sector_times(a) + sector_times(b) =~= sector_times(a));
    } else {
        lemma_sector_times_concat(a, b.drop_last());
        assert((a + b).drop_last() =~= a + b.drop_last());
        assert(sector_times(a + b) =~= sector_times(a) + sector_times(b));
    }
}

proof fn lemma_has_finish_concat(a: Seq<LaptimerStatus>, b: Seq<LaptimerStatus>)
    ensures
        has_finish(a + b) <==> (has_finish(a) || has_finish(b)),
{
    if has_finish(a) {
        let i = choose|i: int| 0 <= i < a.len() && #[trigger] a[i] is LapFinished;
        assert((a + b)[i] == a[i]);
    }
    if has_finish(b) {
        let i = choose|i: int| 0 <= i < b.len() && #[trigger] b[i] is LapFinished;
        assert((a + b)[a.len() + i] == b[i]);
    }
    if has_finish(a + b) {
        let i = choose|i: int| 0 <= i < (a + b).len() && #[trigger] (a + b)[i] is LapFinished;
        if i < a.len() {
            assert(a[i] == (a + b)[i]);
        } else {
            assert(b[i - a.len()] == (a + b)[i]);
        }
    }
}

proof fn lemma_clock_ok_prefix(t: SimpleLaptimer, ins: Seq<(Seq<u64>, u64)>)
    requires
        ins.len() > 0,
        clock_ok(t, ins),
    ensures
        clock_ok(t, ins.drop_last()),
        ins.last().1 >= run_state(t, ins.drop_last()).sector_start,
{
    let p = ins.drop_last();
    assert forall|i: int| 0 <= i < p.len() implies #[trigger] p[i].1 >= run_state(
        t,
        p.take(i),
    ).sector_start by {
        assert(p.take(i) =~= ins.take(i));
        assert(ins[i] == p[i]);
    }
    assert(ins.take(ins.len() - 1) =~= p);
    assert(ins[ins.len() - 1].1 >= run_state(t, ins.take(ins.len() - 1)).sector_start);
}

/// One evaluation keeps the timer well formed and its track.
pub proof fn lemma_step_wf(o: SimpleLaptimer, d: Seq<u64>, elapsed: u64)
    requires
        o.wf(),
        elapsed >= o.sector_start,
    ensures
        step(o, d, elapsed).wf(),
        step(o, d, elapsed).track == o.track,
{
    let dur = (elapsed - o.sector_start) as u64;
    assert(o.lap_sectors@.push(dur).drop_last() =~= o.lap_sectors@);
    assert(total(o.lap_sectors@.push(dur)) == total(o.lap_sectors@) + dur);
    assert(total(Seq::<u64>::empty()) == 0);
    let r = step(o, d, elapsed);
    if crosses(o, d) {
        let n = o.track->Some_0.sectors@.len();
        match o.state {
            LaptimerState::WaitingForFirstStart => {
                assert(r.lap_sectors@ == Seq::<u64>::empty());
                assert(r.sector_start == 0);
            },
            LaptimerState::IteratingTrackPoints => {
                assert(r.lap_sectors@ == o.lap_sectors@.push(dur));
                assert(r.sector_start == elapsed);
                assert(r.sector == o.sector + 1);
            },
            LaptimerState::WaitingForFinish => {
                if n > 0 {
                    assert(r.lap_sectors@ == Seq::<u64>::empty());
                } else {
                    assert(r.lap_sectors@ == o.lap_sectors@.push(dur));
                    assert(r.sector == o.sector);
                }
            },
        }
    }
}

proof fn lemma_sector_times_of_steps(dur: u64, e: u64)
    ensures
        sector_times(seq![LaptimerStatus::SectorFinshed(dur)]) == seq![dur],
        sector_times(
            seq![
                LaptimerStatus::SectorFinshed(dur),
                LaptimerStatus::LapFinished(e),
                LaptimerStatus::LapStarted,
            ],
        ) == seq![dur],
        sector_times(Seq::<LaptimerStatus>::empty()) == Seq::<u64>::empty(),
{
    assert(sector_times(Seq::<LaptimerStatus>::empty()) =~= Seq::<u64>::empty());
    let one = seq![LaptimerStatus::SectorFinshed(dur)];
    let two = seq![LaptimerStatus::SectorFinshed(dur), LaptimerStatus::LapFinished(e)];
    let three = seq![
        LaptimerStatus::SectorFinshed(dur),
        LaptimerStatus::LapFinished(e),
        LaptimerStatus::LapStarted,
    ];
    assert(one.drop_last() =~= Seq::<LaptimerStatus>::empty());
    assert(two.drop_last() =~= one);
    assert(three.drop_last() =~= two);
    assert(one.last() == LaptimerStatus::SectorFinshed(dur));
    assert(sector_times(one) =~= Seq::<u64>::empty().push(dur));
    assert(two.last() is LapFinished);
    assert(sector_times(two) == sector_times(one));
    assert(three.last() is LapStarted);
    assert(sector_times(three) == sector_times(two));
}

/// Successive evaluations on a clock that does not run back keep the timer
/// well formed and its track.
pub proof fn lemma_run_wf(t: SimpleLaptimer, ins: Seq<(Seq<u64>, u64)>)
    requires
        t.wf(),
        clock_ok(t, ins),
    ensures
        run_state(t, ins).wf(),
        run_state(t, ins).track == t.track,
    decreases ins.len(),
{
    if ins.len() > 0 {
        lemma_clock_ok_prefix(t, ins);
        lemma_run_wf(t, ins.drop_last());
        lemma_step_wf(run_state(t, ins.drop_last()), ins.last().0, ins.last().1);
    }
}

/// On a track without sector markers, no run of evaluations ever waits for
/// a sector marker.
pub proof fn lemma_no_sector_track_run(t: SimpleLaptimer, ins: Seq<(Seq<u64>, u64)>)
    requires
        t.wf(),
        t.track is Some,
        t.track->Some_0.sectors@.len() == 0,
        clock_ok(t, ins),
    ensures
        run_state(t, ins).state != LaptimerState::IteratingTrackPoints,
{
    lemma_run_wf(t, ins);
}

/// A lap in progress: until its finish, the sector times emitted since the
/// lap started are the timer's record of them.
#[verifier::rlimit(50)]
proof fn lemma_lap_in_progress(t: SimpleLaptimer, ins: Seq<(Seq<u64>, u64)>)
    requires
        t.wf(),
        t.track is Some,
        t.track->Some_0.sectors@.len() > 0,
        t.state == LaptimerState::IteratingTrackPoints,
        t.lap_sectors@.len() == 0,
        clock_ok(t, ins),
        !has_finish(run_out(t, ins)),
    ensures
        run_state(t, ins).state != LaptimerState::WaitingForFirstStart,
        sector_times(run_out(t, ins)) == run_state(t, ins).lap_sectors@,
    decreases ins.len(),
{
    lemma_run_wf(t, ins);
    if ins.len() == 0 {
        lemma_sector_times_of_steps(0, 0);
        assert(t.lap_sectors@ =~= Seq::<u64>::empty());
    }
    if ins.len() > 0 {
        let p = ins.drop_last();
        let o = run_state(t, p);
        let (d, e) = ins.last();
        lemma_clock_ok_prefix(t, ins);
        lemma_has_finish_concat(run_out(t, p), step_out(o, d, e));
        lemma_lap_in_progress(t, p);
        lemma_run_wf(t, p);
        lemma_sector_times_concat(run_out(t, p), step_out(o, d, e));
        let dur = (e - o.sector_start) as u64;
        lemma_sector_times_of_steps(dur, e);
        assert(run_out(t, ins) == run_out(t, p) + step_out(o, d, e));
        assert(run_state(t, ins) == step(o, d, e));
        if !crosses(o, d) {
            assert(step_out(o, d, e) == Seq::<LaptimerStatus>::empty());
            assert(sector_times(run_out(t, p)) + Seq::<u64>::empty() =~= sector_times(
                run_out(t, p),
            ));
        } else if o.state == LaptimerState::WaitingForFinish {
            assert(step_out(o, d, e)[1] is LapFinished);
        } else {
            assert(o.state == LaptimerState::IteratingTrackPoints);
            assert(step_out(o, d, e) == seq![LaptimerStatus::SectorFinshed(dur)]);
            assert(step(o, d, e).lap_sectors@ == o.lap_sectors@.push(dur));
            assert(sector_times(run_out(t, p)) + seq![dur] =~= o.lap_sectors@.push(dur));
        }
    }
}

/// Between a `LapStarted` and the next `LapFinished`, a track with `n`
/// sector markers gets exactly `n + 1` sector times: one per marker and the
/// last one up to the finish. The run starts right after the lap started,
/// on a clock that does not run back, and its last evaluation is the first
/// to finish a lap.
pub proof fn lemma_lap_sector_count_over_run(t: SimpleLaptimer, ins: Seq<(Seq<u64>, u64)>)
    requires
        t.wf(),
        t.track is Some,
        t.track->Some_0.sectors@.len() > 0,
        t.state == LaptimerState::IteratingTrackPoints,
        t.lap_sectors@.len() == 0,
        clock_ok(t, ins),
        ins.len() > 0,
        !has_finish(run_out(t, ins.drop_last())),
        has_finish(run_out(t, ins)),
    ensures
        sector_times(run_out(t, ins)).len() == t.track->Some_0.sectors@.len() + 1,
{
    let p = ins.drop_last();
    let o = run_state(t, p);
    let (d, e) = ins.last();
    lemma_clock_ok_prefix(t, ins);
    lemma_lap_in_progress(t, p);
    lemma_run_wf(t, p);
    lemma_has_finish_concat(run_out(t, p), step_out(o, d, e));
    lemma_sector_times_concat(run_out(t, p), step_out(o, d, e));
    let out = step_out(o, d, e);
    assert(has_finish(out));
    if !crosses(o, d) {
        assert(out.len() == 0);
    } else if o.state == LaptimerState::IteratingTrackPoints {
        assert(out.len() == 1);
        assert(!(out[0] is LapFinished));
    } else {
        assert(o.state == LaptimerState::WaitingForFinish);
        let dur = (e - o.sector_start) as u64;
        lemma_sector_times_of_steps(dur, e);
        assert(out == seq![
            LaptimerStatus::SectorFinshed(dur),
            LaptimerStatus::LapFinished(e),
            LaptimerStatus::LapStarted,
        ]);
        assert(run_out(t, ins) == run_out(t, p) + out);
    }
}

} // verus!
