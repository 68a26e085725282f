//! The chart: the fixed data that a session plays.

use vstd::prelude::*;

verus! {

/// The number of lanes, that is of columns of the playfield.
pub const LANES: usize = 4;

/// One time slice of the chart: for each lane, whether a note starts there.
pub type Row = [bool; LANES];

/// A tempo in thousandths of a beat per minute. It is never zero.
#[derive(Clone, Copy, Debug)]
pub struct Tempo {
    millibeats_per_minute: u32,
}

impl View for Tempo {
    type V = nat;

    /// The tempo in thousandths of a beat per minute.
    closed spec fn view(&self) -> nat {
        self.millibeats_per_minute as nat
    }
}

impl Tempo {
    #[verifier::type_invariant]
    closed spec fn inv(self) -> bool {
        self.millibeats_per_minute > 0
    }

    /// The tempo of `millibeats_per_minute` thousandths of a beat per minute,
    /// or `None` for zero, which is no tempo.
    pub fn new(millibeats_per_minute: u32) -> (tempo: Option<Tempo>)
        ensures
            tempo is Some <==> millibeats_per_minute > 0,
            tempo is Some ==> tempo->0@ == millibeats_per_minute,
    {
        if millibeats_per_minute == 0 {
            None
        } else {
            Some(Tempo { millibeats_per_minute })
        }
    }

    /// The tempo in thousandths of a beat per minute.
    pub fn millibeats_per_minute(&self) -> (millibeats: u32)
        ensures
            millibeats == self@,
            millibeats > 0,
    {
        proof {
            use_type_invariant(self);
        }
        self.millibeats_per_minute
    }
}

/// A chart: the rows in the order of play, earliest first, with the tempo
/// they are played at.
pub struct Chart {
    /// The rows, earliest first.
    pub rows: Vec<Row>,
    /// The tempo.
    pub bpm: Tempo,
    /// The number of display rows from one chart row to the next that the
    /// chart was written for.
    pub base_gap: usize,
    /// How long the chart plays, in nanoseconds.
    pub length: u64,
}

} // verus!
