//! The playing session: one chart, played from its first row.

use crate::chart::Chart;
use crate::chart::Row;
use crate::chart::LANES;
use crate::clock::elapsed_nanos;
use crate::clock::now;
use crate::event::InputEvent;
use crate::flat_intersperse::interspersed;
use crate::flat_intersperse::FlatIntersperse;
use crate::layout::Rect;
use crate::scroll_clock::nearest_row;
use crate::scroll_clock::offset;
use crate::scroll_clock::offset_units;
use crate::style::Color;
use crate::widgets::map_rows_view::MapRowsView;
use tokio::time::Instant;
use vstd::prelude::*;

verus! {

/// The colour of a note in each lane.
pub const COLUMN_COLORS: [Color; LANES] = [Color::Red, Color::Yellow, Color::Green, Color::Blue];

/// The row that fills the gap between two rows of the chart: no lane has a
/// note.
pub const EMPTY_ROW: Row = [false, false, false, false];

/// The width of the frame round the lanes, its two bars included.
pub const BORDER_WIDTH: u16 = 8;

/// The width of the lanes.
pub const LANES_WIDTH: u16 = 4;

/// The rows of a chart as they are shown with a display gap of
/// `display_gap`: each row takes `display_gap` display rows, its own and
/// `display_gap - 1` empty ones before the next row. Nothing follows the last
/// row.
pub open spec fn spaced_rows(rows: Seq<Row>, display_gap: nat) -> Seq<Row> {
    interspersed(rows, Seq::new((display_gap - 1) as nat, |i: int| EMPTY_ROW))
}

/// The index of the first row of the window after `elapsed_nanos`
/// nanoseconds of play: the scroll position, rounded to the nearest row, and
/// `usize::MAX` where that row is further than a `usize` counts.
pub open spec fn window_start(elapsed_nanos: nat, tempo: nat, display_gap: nat) -> nat {
    let row = nearest_row(offset_units(elapsed_nanos, tempo, display_gap));
    if row <= usize::MAX {
        row
    } else {
        usize::MAX as nat
    }
}

/// Why a session cannot be made.
#[derive(Clone, Copy, Debug, PartialEq, Eq)]
pub enum ConfigError {
    /// The display gap is zero: a chart row takes at least its own row.
    ZeroDisplayGap,
}

/// A rectangle of the size of `rect`, cut to the size of `background`, with
/// its middle on the middle of `background`. Where a size is odd the middle
/// is the cell left of, or above, the true middle, so over an odd difference
/// the rectangle stands one cell nearer to the left, or to the top, if its own
/// size is even, and one cell further if it is odd. A column or line that no
/// `u16` holds is cut to `u16::MAX`.
pub open spec fn centered(rect: Rect, background: Rect) -> Rect {
    let width = if rect.width < background.width {
        rect.width
    } else {
        background.width
    };
    let height = if rect.height < background.height {
        rect.height
    } else {
        background.height
    };
    let x = background.x + (background.width / 2 - width / 2);
    let y = background.y + (background.height / 2 - height / 2);
    Rect {
        x: if x <= u16::MAX {
            x as u16
        } else {
            u16::MAX
        },
        y: if y <= u16::MAX {
            y as u16
        } else {
            u16::MAX
        },
        width,
        height,
    }
}

/// Centers `rect` on `background`, cutting it to the background's size.
pub fn center_rect(rect: Rect, background: &Rect) -> (placed: Rect)
    ensures
        placed == centered(rect, *background),
{
    let width = if rect.width < background.width {
        rect.width
    } else {
        background.width
    };
    let height = if rect.height < background.height {
        rect.height
    } else {
        background.height
    };
    let x = background.x as u32 + (background.width / 2 - width / 2) as u32;
    let y = background.y as u32 + (background.height / 2 - height / 2) as u32;
    Rect {
        x: if x <= u16::MAX as u32 {
            x as u16
        } else {
            u16::MAX
        },
        y: if y <= u16::MAX as u32 {
            y as u16
        } else {
            u16::MAX
        },
        width,
        height,
    }
}

/// A background whose cells all have `u16` columns and lines holds every cell
/// of a rectangle centered on it, and the margins on the two sides of the
/// rectangle differ by one cell at most.
pub proof fn lemma_centered_is_inside(rect: Rect, background: Rect)
    requires
        background.on_grid(),
    ensures
        background.encloses(centered(rect, background)),
        centered(rect, background).on_grid(),
        ({
            let placed = centered(rect, background);
            let left = placed.x - background.x;
            let right = (background.x + background.width) - (placed.x + placed.width);
            let top = placed.y - background.y;
            let bottom = (background.y + background.height) - (placed.y + placed.height);
            &&& 0 <= left && 0 <= right && -1 <= left - right <= 1
            &&& 0 <= top && 0 <= bottom && -1 <= top - bottom <= 1
        }),
{
}

/// What a frame shows: where the frame round the lanes and the lanes
/// themselves stand, and the window of rows in the lanes.
pub struct Scene<'a> {
    /// The area of the frame round the lanes.
    pub border: Rect,
    /// The area of the lanes.
    pub lanes: Rect,
    /// The window of rows.
    pub rows: MapRowsView<'a>,
}

/// A session that plays one chart. It is over when the chart is played
/// through or the player has asked to leave.
pub struct Gaming {
    map: Chart,
    started_on: Instant,
    gap: usize,
    going_down: bool,
    requested_quit: bool,
}

impl Gaming {
    #[verifier::type_invariant]
    closed spec fn inv(self) -> bool {
        self.gap >= 1
    }

    /// The chart that is played.
    pub closed spec fn chart(&self) -> Chart {
        self.map
    }

    /// The number of display rows that a chart row takes, the empty rows that
    /// follow it included.
    pub closed spec fn display_gap(&self) -> nat {
        self.gap as nat
    }

    /// Whether the rows fall instead of rising.
    pub closed spec fn falls(&self) -> bool {
        self.going_down
    }

    /// The clock's reading when the session began.
    pub closed spec fn started_on(&self) -> Instant {
        self.started_on
    }

    /// Whether the player has asked to leave.
    pub closed spec fn quit_requested(&self) -> bool {
        self.requested_quit
    }

    /// Whether the session is over after `elapsed_nanos` nanoseconds of play:
    /// the player has asked to leave, or more time has passed than the chart
    /// is long.
    pub open spec fn finished_after(&self, elapsed_nanos: nat) -> bool {
        self.quit_requested() || elapsed_nanos > self.chart().length
    }

    /// Whether `scene` is what the session shows on `surface` after
    /// `elapsed_nanos` nanoseconds of play.
    pub open spec fn shows(&self, scene: Scene, elapsed_nanos: nat, surface: Rect) -> bool {
        &&& scene.border == centered(
            Rect { x: 0, y: 0, width: BORDER_WIDTH, height: surface.height },
            surface,
        )
        &&& scene.lanes == centered(
            Rect { x: 0, y: 0, width: LANES_WIDTH, height: surface.height },
            surface,
        )
        &&& scene.rows.rows@.unref() == spaced_rows(self.chart().rows@, self.display_gap())
        &&& scene.rows.shift == window_start(elapsed_nanos, self.chart().bpm@, self.display_gap())
        &&& scene.rows.going_down == self.falls()
        &&& scene.rows.column_colors == COLUMN_COLORS
    }

    /// A session that began to play `map` at the clock's reading
    /// `started_on`, with `gap` display rows to each chart row. A gap of zero
    /// is refused.
    pub fn with_start(map: Chart, gap: usize, going_down: bool, started_on: Instant) -> (session:
        Result<Gaming, ConfigError>)
        ensures
            session is Err <==> gap == 0,
            session is Err ==> session->Err_0 == ConfigError::ZeroDisplayGap,
            session is Ok ==> {
                &&& session->Ok_0.chart() == map
                &&& session->Ok_0.display_gap() == gap
                &&& session->Ok_0.falls() == going_down
                &&& session->Ok_0.started_on() == started_on
                &&& !session->Ok_0.quit_requested()
            },
    {
        if gap == 0 {
            return Err(ConfigError::ZeroDisplayGap);
        }
        Ok(Gaming { map, started_on, gap, going_down, requested_quit: false })
    }

    /// A session that starts to play `map` now, by the clock's reading at the
    /// call, with `gap` display rows to each chart row. A gap of zero is
    /// refused.
    pub fn new(map: Chart, gap: usize, going_down: bool) -> (session: Result<Gaming, ConfigError>)
        ensures
            session is Err <==> gap == 0,
            session is Err ==> session->Err_0 == ConfigError::ZeroDisplayGap,
            session is Ok ==> {
                &&& session->Ok_0.chart() == map
                &&& session->Ok_0.display_gap() == gap
                &&& session->Ok_0.falls() == going_down
                &&& !session->Ok_0.quit_requested()
            },
    {
        Gaming::with_start(map, gap, going_down, now())
    }

    /// What the session shows on `surface` after `elapsed_nanos` nanoseconds
    /// of play.
    pub fn draw_at(&self, elapsed_nanos: u64, surface: Rect) -> (scene: Scene<'_>)
        ensures
            self.shows(scene, elapsed_nanos as nat, surface),
    {
        proof {
            use_type_invariant(self);
        }
        let position = offset(elapsed_nanos, self.map.bpm, self.gap);
        let spacers: Vec<&Row> = vec![&EMPTY_ROW; self.gap - 1];
        assert(spacers@.unref() =~= Seq::new((self.gap - 1) as nat, |i: int| EMPTY_ROW));
        let rows = FlatIntersperse::new(self.map.rows.as_slice(), spacers).collect();
        Scene {
            border: center_rect(
                Rect { x: 0, y: 0, width: BORDER_WIDTH, height: surface.height },
                &surface,
            ),
            lanes: center_rect(
                Rect { x: 0, y: 0, width: LANES_WIDTH, height: surface.height },
                &surface,
            ),
            rows: MapRowsView {
                rows,
                shift: position.round(),
                going_down: self.going_down,
                column_colors: COLUMN_COLORS,
            },
        }
    }

    /// What the session shows on `surface` now: the scene of the time that
    /// the clock gives since the session began.
    pub fn draw(&self, surface: Rect) -> (scene: Scene<'_>)
        ensures
            exists|elapsed_nanos: u64| self.shows(scene, elapsed_nanos as nat, surface),
    {
        let elapsed = elapsed_nanos(&self.started_on);
        self.draw_at(elapsed, surface)
    }

    /// The state that follows this one. There is none: a session is the
    /// game's only state.
    pub fn next_state(&mut self) -> (next: Option<Gaming>)
        ensures
            next is None,
            *final(self) == *old(self),
    {
        None
    }

    /// Takes note of an event: a press of the quit key asks to leave. Nothing
    /// takes that back.
    pub fn on_input_event(&mut self, event: InputEvent)
        ensures
            final(self).quit_requested() == (old(self).quit_requested() || event.asks_to_quit()),
            final(self).chart() == old(self).chart(),
            final(self).display_gap() == old(self).display_gap(),
            final(self).falls() == old(self).falls(),
            final(self).started_on() == old(self).started_on(),
    {
        proof {
            use_type_invariant(&*self);
        }
        if event.is_quit() {
            self.requested_quit = true;
        }
    }

    /// Whether the session is over after `elapsed_nanos` nanoseconds of play.
    pub fn should_quit_at(&self, elapsed_nanos: u64) -> (over: bool)
        ensures
            over == self.finished_after(elapsed_nanos as nat),
    {
        self.requested_quit || elapsed_nanos > self.map.length
    }

    /// Whether the session is over now, by the time that the clock gives since
    /// the session began. Once the player has asked to leave it is over at any
    /// time.
    pub fn should_quit(&self) -> (over: bool)
        ensures
            self.quit_requested() ==> over,
            exists|elapsed_nanos: u64| over == self.finished_after(elapsed_nanos as nat),
    {
        let elapsed = elapsed_nanos(&self.started_on);
        self.should_quit_at(elapsed)
    }
}

/// A session is over exactly when the player has asked to leave or the time
/// played has reached the chart's length, but for the one moment at which the
/// time played is the chart's length: then it is over only if the player has
/// asked to leave.
pub proof fn lemma_over_when_played_through(session: Gaming, elapsed_nanos: nat)
    requires
        elapsed_nanos != session.chart().length,
    ensures
        session.finished_after(elapsed_nanos) <==> (session.quit_requested() || elapsed_nanos
            >= session.chart().length),
{
}

/// A session that is over stays over: time does not go back, and no event
/// takes back that the player has asked to leave.
pub proof fn lemma_over_stays_over(
    session: Gaming,
    later_session: Gaming,
    elapsed_nanos: nat,
    later_nanos: nat,
)
    requires
        later_session.chart() == session.chart(),
        session.quit_requested() ==> later_session.quit_requested(),
        elapsed_nanos <= later_nanos,
        session.finished_after(elapsed_nanos),
    ensures
        later_session.finished_after(later_nanos),
{
}

} // verus!
