use vstd::prelude::*;
use crate::position::Position;

verus! {

/// A race track: a start line, an optional finish line and the ordered
/// sector markers between them.
#[derive(Debug)]
pub struct Track {
    pub name: String,
    pub startline: Position,
    pub finishline: Option<Position>,
    pub sectors: Vec<Position>,
}

/// What a track is, as plain values.
pub struct TrackModel {
    pub name: Seq<char>,
    pub startline: Position,
    pub finishline: Option<Position>,
    pub sectors: Seq<Position>,
}

impl View for Track {
    type V = TrackModel;

    open spec fn view(&self) -> TrackModel {
        TrackModel {
            name: self.name@,
            startline: self.startline,
            finishline: self.finishline,
            sectors: self.sectors@,
        }
    }
}

impl Clone for Track {
    fn clone(&self) -> (r: Track)
        ensures
            r@ == self@,
    {
        let mut sectors: Vec<Position> = Vec::new();
        let mut i: usize = 0;
        while i < self.sectors.len()
            invariant
                i <= self.sectors@.len(),
                sectors@ == self.sectors@.take(i as int),
            decreases self.sectors@.len() - i,
        {
            sectors.push(self.sectors[i]);
            i = i + 1;
            proof {
                assert(sectors@ =~= self.sectors@.take(i as int));
            }
        }
        proof {
            assert(sectors@ =~= self.sectors@);
        }
        Track {
            name: self.name.clone(),
            startline: self.startline,
            finishline: self.finishline,
            sectors,
        }
    }
}

impl Track {
    /// The marker that closes a lap: the finish line, or the start line
    /// where the track has none.
    pub open spec fn finish_marker(self) -> Position {
        match self.finishline {
            Some(f) => f,
            None => self.startline,
        }
    }

    pub fn finish_point(&self) -> (r: Position)
        ensures
            r == self.finish_marker(),
    {
        match self.finishline {
            Some(f) => f,
            None => self.startline,
        }
    }
}

pub open spec fn oschersleben_line() -> Position {
    Position { latitude: 52_027_088_900, longitude: 11_280_348_300 }
}

pub open spec fn oschersleben_sectors() -> Seq<Position> {
    seq![
        Position { latitude: 52_029_820_500, longitude: 11_274_185_100 },
        Position { latitude: 52_029_968_100, longitude: 11_277_207_600 },
    ]
}

/// The Oschersleben circuit: start and finish on one line, two sector
/// markers.
pub fn get_track() -> (r: Track)
    ensures
        r.name@ == "Oschersleben"@,
        r.startline == oschersleben_line(),
        r.finishline == Some(oschersleben_line()),
        r.sectors@ == oschersleben_sectors(),
{
    let line = Position { latitude: 52_027_088_900, longitude: 11_280_348_300 };
    let mut sectors: Vec<Position> = Vec::new();
    sectors.push(Position { latitude: 52_029_820_500, longitude: 11_274_185_100 });
    sectors.push(Position { latitude: 52_029_968_100, longitude: 11_277_207_600 });
    proof {
        assert(sectors@ =~= oschersleben_sectors());
    }
    Track { name: String::from_str("Oschersleben"), startline: line, finishline: Some(line), sectors }
}

} // verus!
