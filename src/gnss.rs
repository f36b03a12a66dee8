use vstd::prelude::*;

verus! {

/// Fix status reported by a GNSS receiver.
#[derive(Clone, Copy, Debug, PartialEq, Eq, Structural)]
pub enum GnssStatus {
    Unknown,
    NoFix,
    Fix2d,
    Fix3d,
}

/// Receiver status and the number of satellites used for the fix.
#[derive(Clone, Copy, Debug, PartialEq, Eq, Structural)]
pub struct GnssInformation {
    pub status: GnssStatus,
    pub satellites: usize,
}

impl GnssInformation {
    pub fn new(status: &GnssStatus, satellites: usize) -> (r: GnssInformation)
        ensures
            r.status == *status,
            r.satellites == satellites,
    {
        GnssInformation { status: *status, satellites }
    }
}

/// The number of satellites marked as used, out of the flags of all
/// satellites in view.
pub open spec fn count_used(used: Seq<bool>) -> nat
    decreases used.len(),
{
    if used.len() == 0 {
        0
    } else {
        count_used(used.drop_last()) + if used.last() {
            1nat
        } else {
            0nat
        }
    }
}

pub fn used_satellites(used: &Vec<bool>) -> (r: usize)
    ensures
        r == count_used(used@),
{
    let mut n: usize = 0;
    let mut i: usize = 0;
    while i < used.len()
        invariant
            i <= used@.len(),
            n == count_used(used@.take(i as int)),
            n <= i,
        decreases used@.len() - i,
    {
        proof {
            assert(used@.take(i as int + 1).drop_last() =~= used@.take(i as int));
        }
        if used[i] {
            n = n + 1;
        }
        i = i + 1;
    }
    proof {
        assert(used@.take(used@.len() as int) =~= used@);
    }
    n
}

} // verus!
