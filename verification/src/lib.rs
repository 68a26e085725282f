//! Timing and rendering core of a terminal rhythm game.
//!
//! A chart is a fixed list of note rows. Once per frame the session turns the
//! time played so far into a scroll offset, spaces the chart's rows out with
//! empty rows, and paints the visible window of that spaced sequence into a
//! terminal buffer, scrolling up or down.

pub mod buffer;
pub mod chart;
pub mod clock;
pub mod event;
pub mod flat_intersperse;
pub mod layout;
pub mod scroll_clock;
pub mod states;
pub mod style;
pub mod widgets;
