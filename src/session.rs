use vstd::prelude::*;
use crate::laptimer::total;
use crate::position::{Date, GnssPosition, Time};
use crate::text::{clock_text, date_text, push_char, push_clock, push_date, NANOS_PER_MILLI};
use crate::track::Track;

verus! {

/// One lap: its sector times (nanoseconds) and the fixes logged during it.
#[derive(Clone, Debug, Default)]
pub struct Lap {
    pub sectors: Vec<u64>,
    pub log_points: Vec<GnssPosition>,
}

impl Lap {
    /// An open lap with no sector time and no fix yet.
    pub fn empty() -> (r: Lap)
        ensures
            r.sectors@.len() == 0,
            r.log_points@.len() == 0,
    {
        Lap { sectors: Vec::new(), log_points: Vec::new() }
    }

    /// The lap time: the sum of the sector times.
    pub fn laptime(self) -> (r: u64)
        requires
            total(self.sectors@) <= u64::MAX,
        ensures
            r == total(self.sectors@),
    {
        let mut sum: u64 = 0;
        let mut i: usize = 0;
        while i < self.sectors.len()
            invariant
                i <= self.sectors@.len(),
                sum == total(self.sectors@.take(i as int)),
                total(self.sectors@) <= u64::MAX,
            decreases self.sectors@.len() - i,
        {
            proof {
                assert(self.sectors@.take(i as int + 1).drop_last() =~= self.sectors@.take(
                    i as int,
                ));
                lemma_total_prefix_le(self.sectors@, i as int + 1);
            }
            sum = sum + self.sectors[i];
            i = i + 1;
        }
        proof {
            assert(self.sectors@.take(self.sectors@.len() as int) =~= self.sectors@);
        }
        sum
    }
}

/// A prefix never sums to more than the whole.
pub proof fn lemma_total_prefix_le(s: Seq<u64>, k: int)
    requires
        0 <= k <= s.len(),
    ensures
        total(s.take(k)) <= total(s),
    decreases s.len(),
{
    if k < s.len() {
        assert(s.drop_last().take(k) =~= s.take(k));
        lemma_total_prefix_le(s.drop_last(), k);
    } else {
        assert(s.take(k) =~= s);
    }
}

/// A driving session: a track and the laps run on it.
#[derive(Clone, Debug)]
pub struct Session {
    pub id: u64,
    pub date: Date,
    pub time: Time,
    pub track: Track,
    pub laps: Vec<Lap>,
}

impl Session {
    /// A session on `track`, started at `date` and `time`, with no lap yet.
    pub fn new(date: Date, time: Time, track: Track) -> (r: Session)
        ensures
            r.id == 0,
            r.date == date,
            r.time == time,
            r.track == track,
            r.laps@.len() == 0,
    {
        Session { id: 0, date, time, track, laps: Vec::new() }
    }

    /// The name under which the session is stored:
    /// `<track name lowercased>_<DD_MM_YYYY>_<HH_MM_SS_mmm>`.
    pub fn get_id(&self) -> (r: String)
        ensures
            r@ == session_id(self.track.name@, self.date, self.time),
    {
        let lowered = lowercase(self.track.name.as_str());
        id_from_lowered(lowered.as_str(), self.date, self.time)
    }
}

/// The session id from the already lowercased track name and the start.
pub fn id_from_lowered(lowered: &str, date: Date, time: Time) -> (r: String)
    ensures
        r@ == id_text(lowered@, date, time),
{
    let mut s = String::from_str(lowered);
    push_char(&mut s, '_');
    push_date(&mut s, date.day as u64, date.month as u64, date.year as u64, '_');
    push_char(&mut s, '_');
    push_clock(
        &mut s,
        time.hour as u64,
        time.minute as u64,
        time.second as u64,
        time.nano as u64 / NANOS_PER_MILLI,
        '_',
        '_',
    );
    proof {
        assert(s@ =~= id_text(lowered@, date, time));
    }
    s
}

/// `<lowered>_<DD_MM_YYYY>_<HH_MM_SS_mmm>`.
pub open spec fn id_text(lowered: Seq<char>, date: Date, time: Time) -> Seq<char> {
    lowered + seq!['_'] + date_text(date.day as nat, date.month as nat, date.year as nat, '_')
        + seq!['_'] + clock_text(
        time.hour as nat,
        time.minute as nat,
        time.second as nat,
        (time.nano / 1_000_000) as nat,
        '_',
        '_',
    )
}

/// What `str::to_lowercase` gives for a text.
pub uninterp spec fn lower_of(s: Seq<char>) -> Seq<char>;

/// Relies on `str::to_lowercase`: the lowercase form of a text, which
/// depends on its characters alone.
#[verifier::external_body]
fn lowercase(s: &str) -> (r: String)
    ensures
        r@ == lower_of(s@),
{
    s.to_lowercase()
}

pub open spec fn session_id(name: Seq<char>, date: Date, time: Time) -> Seq<char> {
    id_text(lower_of(name), date, time)
}

/// What the listing of stored sessions shows of one session.
#[derive(Clone, Debug)]
pub struct SessionInfo {
    pub id: String,
    pub date: Date,
    pub time: Time,
    pub track_name: String,
    pub laps: usize,
}

impl SessionInfo {
    pub fn new(id: String, date: Date, time: Time, track_name: String, laps: usize) -> (r:
        SessionInfo)
        ensures
            r.id == id,
            r.date == date,
            r.time == time,
            r.track_name == track_name,
            r.laps == laps,
    {
        SessionInfo { id, date, time, track_name, laps }
    }

    /// The listing entry of a session: its id, start, track name and lap count.
    pub fn of_session(session: &Session) -> (r: SessionInfo)
        ensures
            r.id@ == session_id(session.track.name@, session.date, session.time),
            r.date == session.date,
            r.time == session.time,
            r.track_name@ == session.track.name@,
            r.laps == session.laps@.len(),
    {
        SessionInfo {
            id: session.get_id(),
            date: session.date,
            time: session.time,
            track_name: session.track.name.clone(),
            laps: session.laps.len(),
        }
    }
}

} // verus!
