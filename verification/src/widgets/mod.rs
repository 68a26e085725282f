//! What is painted into a frame.

pub mod map_rows_view;
