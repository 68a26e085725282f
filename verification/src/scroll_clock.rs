//! From the time played to the scroll position.
//!
//! The scroll position is counted in display rows, that is in rows of the
//! spaced sequence, and it is kept exact: a whole number of rows and a
//! fraction of a row in units of `1 / OFFSET_UNITS_PER_ROW`. It is rounded to
//! a row only where a window is painted.

use crate::chart::Tempo;
use vstd::arithmetic::div_mod::lemma_div_is_ordered;
use vstd::arithmetic::div_mod::lemma_fundamental_div_mod;
use vstd::arithmetic::div_mod::lemma_fundamental_div_mod_converse;
use vstd::prelude::*;

verus! {

/// The units that one display row is divided into: the nanoseconds of a
/// minute times the thousand of the tempo's unit.
pub const OFFSET_UNITS_PER_ROW: u64 = 60_000_000_000_000;

/// The scroll position after `elapsed_nanos` nanoseconds at `tempo`
/// thousandths of a beat per minute, with `display_gap` display rows to the
/// beat, in units of `1 / OFFSET_UNITS_PER_ROW` of a row.
///
/// In rows it is the seconds played, times the beats per second, times the
/// display gap.
pub open spec fn offset_units(elapsed_nanos: nat, tempo: nat, display_gap: nat) -> nat {
    elapsed_nanos * tempo * display_gap
}

/// The whole number nearest to `units / OFFSET_UNITS_PER_ROW`, a half
/// counting upwards.
pub open spec fn nearest_row(units: nat) -> nat {
    ((2 * units + OFFSET_UNITS_PER_ROW) / (2 * OFFSET_UNITS_PER_ROW as int)) as nat
}

/// At the start of play the scroll position is zero, whatever the tempo and
/// the display gap.
pub proof fn lemma_offset_starts_at_zero(tempo: nat, display_gap: nat)
    ensures
        offset_units(0, tempo, display_gap) == 0,
        nearest_row(offset_units(0, tempo, display_gap)) == 0,
{
    assert(0 * tempo * display_gap == 0) by (nonlinear_arith);
    lemma_fundamental_div_mod_converse(
        OFFSET_UNITS_PER_ROW as int,
        2 * OFFSET_UNITS_PER_ROW as int,
        0,
        OFFSET_UNITS_PER_ROW as int,
    );
}

/// The scroll position never goes back as time goes on, and neither does the
/// row it is rounded to.
pub proof fn lemma_offset_monotonic(earlier: nat, later: nat, tempo: nat, display_gap: nat)
    requires
        earlier <= later,
    ensures
        offset_units(earlier, tempo, display_gap) <= offset_units(later, tempo, display_gap),
        nearest_row(offset_units(earlier, tempo, display_gap)) <= nearest_row(
            offset_units(later, tempo, display_gap),
        ),
{
    assert(earlier * tempo * display_gap <= later * tempo * display_gap) by (nonlinear_arith)
        requires
            earlier <= later,
    ;
    lemma_div_is_ordered(
        2 * offset_units(earlier, tempo, display_gap) + OFFSET_UNITS_PER_ROW,
        2 * offset_units(later, tempo, display_gap) + OFFSET_UNITS_PER_ROW,
        2 * OFFSET_UNITS_PER_ROW as int,
    );
}

/// The scroll position is proportional to the display gap: it is the
/// position at a gap of one, times the gap.
pub proof fn lemma_offset_scales_with_gap(elapsed_nanos: nat, tempo: nat, display_gap: nat)
    ensures
        offset_units(elapsed_nanos, tempo, display_gap) == offset_units(elapsed_nanos, tempo, 1)
            * display_gap,
{
    assert(elapsed_nanos * tempo * display_gap == (elapsed_nanos * tempo * 1) * display_gap)
        by (nonlinear_arith);
}

/// An exact scroll position: `rows` whole display rows and `part` units of
/// the next one.
#[derive(Clone, Copy, Debug)]
pub struct Offset {
    rows: u128,
    part: u64,
}

impl View for Offset {
    type V = nat;

    /// The position in units of `1 / OFFSET_UNITS_PER_ROW` of a row.
    closed spec fn view(&self) -> nat {
        (self.rows * OFFSET_UNITS_PER_ROW + self.part) as nat
    }
}

impl Offset {
    #[verifier::type_invariant]
    closed spec fn inv(self) -> bool {
        self.part < OFFSET_UNITS_PER_ROW
    }

    /// The nearest display row, a half counting upwards, or `usize::MAX`
    /// where that row is further than a `usize` counts.
    pub fn round(&self) -> (row: usize)
        ensures
            row == if nearest_row(self@) <= usize::MAX {
                nearest_row(self@)
            } else {
                usize::MAX as nat
            },
    {
        proof {
            use_type_invariant(self);
            let units = OFFSET_UNITS_PER_ROW as int;
            if 2 * self.part < units {
                lemma_fundamental_div_mod_converse(
                    2 * self@ + units,
                    2 * units,
                    self.rows as int,
                    2 * self.part + units,
                );
            } else {
                lemma_fundamental_div_mod_converse(
                    2 * self@ + units,
                    2 * units,
                    self.rows + 1,
                    2 * self.part - units,
                );
            }
        }
        let carry: u128 = if self.part >= OFFSET_UNITS_PER_ROW - self.part {
            1
        } else {
            0
        };
        if self.rows >= usize::MAX as u128 {
            usize::MAX
        } else {
            (self.rows + carry) as usize
        }
    }

    /// The whole display rows that the position has passed.
    pub fn whole_rows(&self) -> (rows: u128)
        ensures
            rows == self@ / (OFFSET_UNITS_PER_ROW as nat),
    {
        proof {
            use_type_invariant(self);
            lemma_fundamental_div_mod_converse(
                self@ as int,
                OFFSET_UNITS_PER_ROW as int,
                self.rows as int,
                self.part as int,
            );
        }
        self.rows
    }

    /// How far the position is into the next display row, in units of
    /// `1 / OFFSET_UNITS_PER_ROW` of a row.
    pub fn units_into_row(&self) -> (units: u64)
        ensures
            units == self@ % (OFFSET_UNITS_PER_ROW as nat),
    {
        proof {
            use_type_invariant(self);
            lemma_fundamental_div_mod_converse(
                self@ as int,
                OFFSET_UNITS_PER_ROW as int,
                self.rows as int,
                self.part as int,
            );
        }
        self.part
    }
}

/// The scroll position after `elapsed_nanos` nanoseconds of play at `tempo`,
/// with `display_gap` display rows to the beat.
pub fn offset(elapsed_nanos: u64, tempo: Tempo, display_gap: usize) -> (position: Offset)
    ensures
        position@ == offset_units(elapsed_nanos as nat, tempo@, display_gap as nat),
{
    let units = OFFSET_UNITS_PER_ROW as u128;
    let millibeats = tempo.millibeats_per_minute() as u128;
    assert(elapsed_nanos * millibeats <= 0xffff_ffff_ffff_ffff * 0xffff_ffff) by (nonlinear_arith)
        requires
            0 <= elapsed_nanos <= 0xffff_ffff_ffff_ffff,
            0 <= millibeats <= 0xffff_ffff,
    ;
    let beats: u128 = elapsed_nanos as u128 * millibeats;
    let whole = beats / units;
    let rest = beats % units;
    let gap = display_gap as u128;
    proof {
        lemma_fundamental_div_mod(beats as int, units as int);
        assert(whole <= 0x8_0000_0000_0000) by (nonlinear_arith)
            requires
                beats == units * whole + rest,
                beats <= 0xffff_ffff_ffff_ffff * 0xffff_ffff,
                units == 60_000_000_000_000,
                rest >= 0,
        ;
        assert(whole * gap <= 0x8_0000_0000_0000 * 0x1_0000_0000_0000_0000) by (nonlinear_arith)
            requires
                0 <= whole <= 0x8_0000_0000_0000,
                0 <= gap <= 0x1_0000_0000_0000_0000,
        ;
        assert(rest * gap <= 60_000_000_000_000 * 0x1_0000_0000_0000_0000) by (nonlinear_arith)
            requires
                0 <= rest <= 60_000_000_000_000,
                0 <= gap <= 0x1_0000_0000_0000_0000,
        ;
    }
    let stretched = rest * gap;
    let rows = whole * gap + stretched / units;
    let part = (stretched % units) as u64;
    proof {
        lemma_fundamental_div_mod(stretched as int, units as int);
        assert(rows * units + part == elapsed_nanos * millibeats * gap) by (nonlinear_arith)
            requires
                rows == whole * gap + stretched / units,
                part == stretched % units,
                stretched == units * (stretched / units) + stretched % units,
                stretched == rest * gap,
                elapsed_nanos * millibeats == units * whole + rest,
        ;
    }
    Offset { rows, part }
}

} // verus!
