use termania::chart::Chart;
use termania::chart::Row;
use termania::chart::Tempo;
use termania::event::InputEvent;
use termania::event::Key;
use termania::layout::Rect;
use termania::states::gaming::ConfigError;
use termania::states::gaming::Gaming;
use termania::states::gaming::BORDER_WIDTH;
use termania::states::gaming::COLUMN_COLORS;
use termania::states::gaming::EMPTY_ROW;
use termania::states::gaming::LANES_WIDTH;
use tui::buffer::Buffer;
use tui::buffer::Cell;

const SECOND: u64 = 1_000_000_000;
const UNTOUCHED: tui::style::Color = tui::style::Color::Magenta;
const ROW0: Row = [true, false, false, false];
const ROW1: Row = [false, true, false, false];

fn chart(length: u64) -> Chart {
    Chart {
        rows: vec![ROW0, ROW1],
        bpm: Tempo::new(120_000).unwrap(),
        base_gap: 2,
        length,
    }
}

fn session(gap: usize, going_down: bool) -> Gaming {
    Gaming::new(chart(20 * SECOND), gap, going_down).unwrap()
}

fn surface(width: u16, height: u16) -> Rect {
    Rect { x: 0, y: 0, width, height }
}

fn buffer(width: u16, height: u16) -> Buffer {
    let mut cell = Cell::default();
    cell.set_bg(UNTOUCHED);
    Buffer::filled(tui::layout::Rect { x: 0, y: 0, width, height }, &cell)
}

fn line(buffer: &Buffer, y: u16) -> [tui::style::Color; 4] {
    [
        buffer.get(0, y).bg,
        buffer.get(1, y).bg,
        buffer.get(2, y).bg,
        buffer.get(3, y).bg,
    ]
}

const RESET: tui::style::Color = tui::style::Color::Reset;

#[test]
fn zero_display_gap_is_refused() {
    assert_eq!(
        Gaming::new(chart(20 * SECOND), 0, false).err(),
        Some(ConfigError::ZeroDisplayGap)
    );
    assert_eq!(
        Gaming::new(chart(20 * SECOND), 0, true).err(),
        Some(ConfigError::ZeroDisplayGap)
    );
    assert!(Gaming::new(chart(20 * SECOND), 1, false).is_ok());
    assert!(Gaming::new(chart(20 * SECOND), usize::MAX, false).is_ok());
}

#[test]
fn scene_at_the_start() {
    let game = session(2, false);
    let scene = game.draw_at(0, surface(4, 3));
    assert_eq!(scene.rows.shift, 0);
    assert_eq!(scene.rows.rows, vec![&ROW0, &EMPTY_ROW, &ROW1]);
    assert!(!scene.rows.going_down);
    assert_eq!(scene.rows.column_colors, COLUMN_COLORS);

    let mut buf = buffer(4, 3);
    scene.rows.render(scene.lanes, &mut buf);
    assert_eq!(line(&buf, 0), [tui::style::Color::Red, RESET, RESET, RESET]);
    assert_eq!(line(&buf, 1), [RESET; 4]);
    assert_eq!(line(&buf, 2), [RESET, tui::style::Color::Yellow, RESET, RESET]);
}

#[test]
fn scene_after_half_a_second() {
    let game = session(2, false);
    let scene = game.draw_at(SECOND / 2, surface(4, 3));
    assert_eq!(scene.rows.shift, 2);
    assert_eq!(scene.rows.rows, vec![&ROW0, &EMPTY_ROW, &ROW1]);

    let mut buf = buffer(4, 3);
    scene.rows.render(scene.lanes, &mut buf);
    assert_eq!(line(&buf, 0), [RESET, tui::style::Color::Yellow, RESET, RESET]);
    assert_eq!(line(&buf, 1), [UNTOUCHED; 4]);
    assert_eq!(line(&buf, 2), [UNTOUCHED; 4]);
}

#[test]
fn scene_falls_when_asked_to() {
    let game = session(2, true);
    let scene = game.draw_at(0, surface(4, 3));
    assert!(scene.rows.going_down);
    let mut buf = buffer(4, 3);
    scene.rows.render(scene.lanes, &mut buf);
    assert_eq!(line(&buf, 2), [tui::style::Color::Red, RESET, RESET, RESET]);
    assert_eq!(line(&buf, 1), [RESET; 4]);
    assert_eq!(line(&buf, 0), [RESET, tui::style::Color::Yellow, RESET, RESET]);
}

#[test]
fn display_gap_of_one_adds_no_row() {
    let game = session(1, false);
    let scene = game.draw_at(0, surface(80, 24));
    assert_eq!(scene.rows.rows, vec![&ROW0, &ROW1]);
}

#[test]
fn display_gap_counts_the_row_itself() {
    let game = session(4, false);
    let scene = game.draw_at(0, surface(80, 24));
    assert_eq!(
        scene.rows.rows,
        vec![&ROW0, &EMPTY_ROW, &EMPTY_ROW, &EMPTY_ROW, &ROW1]
    );
    // Two beats a second, four display rows a beat.
    assert_eq!(game.draw_at(SECOND, surface(80, 24)).rows.shift, 8);
    assert_eq!(game.draw_at(SECOND / 16, surface(80, 24)).rows.shift, 1);
    assert_eq!(game.draw_at(SECOND / 16 - 1, surface(80, 24)).rows.shift, 0);
}

#[test]
fn an_empty_chart_shows_no_row() {
    let empty = Chart {
        rows: Vec::new(),
        bpm: Tempo::new(120_000).unwrap(),
        base_gap: 2,
        length: SECOND,
    };
    let game = Gaming::new(empty, 3, false).unwrap();
    let scene = game.draw_at(SECOND, surface(80, 24));
    assert!(scene.rows.rows.is_empty());
    assert_eq!(scene.rows.shift, 6);
}

#[test]
fn scene_goes_on_past_the_charts_end() {
    let game = session(2, false);
    let scene = game.draw_at(3600 * SECOND, surface(4, 3));
    assert_eq!(scene.rows.shift, 14_400);
    let mut buf = buffer(4, 3);
    let before = buf.clone();
    scene.rows.render(scene.lanes, &mut buf);
    assert_eq!(buf, before);
}

#[test]
fn lanes_and_border_share_the_middle() {
    let game = session(2, false);
    let scene = game.draw_at(0, surface(80, 24));
    assert_eq!((BORDER_WIDTH, LANES_WIDTH), (8, 4));
    assert_eq!(scene.border, Rect { x: 36, y: 0, width: 8, height: 24 });
    assert_eq!(scene.lanes, Rect { x: 38, y: 0, width: 4, height: 24 });
    let scene = game.draw_at(0, surface(81, 25));
    assert_eq!(scene.border, Rect { x: 36, y: 0, width: 8, height: 25 });
    assert_eq!(scene.lanes, Rect { x: 38, y: 0, width: 4, height: 25 });
}

#[test]
fn a_small_surface_cuts_the_scene() {
    let game = session(2, false);
    let scene = game.draw_at(0, surface(6, 2));
    assert_eq!(scene.border, Rect { x: 0, y: 0, width: 6, height: 2 });
    assert_eq!(scene.lanes, Rect { x: 1, y: 0, width: 4, height: 2 });
    let scene = game.draw_at(0, surface(0, 0));
    assert_eq!(scene.border, Rect { x: 0, y: 0, width: 0, height: 0 });
    assert_eq!(scene.lanes, Rect { x: 0, y: 0, width: 0, height: 0 });
}

#[test]
fn the_session_ends_after_the_charts_length() {
    let game = session(2, false);
    assert!(!game.should_quit_at(0));
    assert!(!game.should_quit_at(20 * SECOND - 1));
    assert!(!game.should_quit_at(20 * SECOND));
    assert!(game.should_quit_at(20 * SECOND + 1));
    assert!(game.should_quit_at(u64::MAX));
}

#[test]
fn the_quit_key_ends_the_session() {
    let mut game = session(2, false);
    game.on_input_event(InputEvent::Other);
    game.on_input_event(InputEvent::Key(Key::Other));
    game.on_input_event(InputEvent::Key(Key::Char('x')));
    game.on_input_event(InputEvent::Key(Key::Char('Q')));
    assert!(!game.should_quit_at(0));
    game.on_input_event(InputEvent::Key(Key::Char('q')));
    assert!(game.should_quit_at(0));
    assert!(game.should_quit_at(20 * SECOND));
    assert!(game.should_quit());
}

#[test]
fn nothing_takes_the_quit_back() {
    let mut game = session(2, false);
    game.on_input_event(InputEvent::Key(Key::Char('q')));
    game.on_input_event(InputEvent::Key(Key::Char('q')));
    game.on_input_event(InputEvent::Key(Key::Char('x')));
    game.on_input_event(InputEvent::Other);
    assert!(game.should_quit_at(0));
    assert!(game.should_quit());
}

#[test]
fn events_leave_the_scene_alone() {
    let mut game = session(2, true);
    game.on_input_event(InputEvent::Key(Key::Char('q')));
    let scene = game.draw_at(SECOND / 2, surface(4, 3));
    assert_eq!(scene.rows.shift, 2);
    assert_eq!(scene.rows.rows, vec![&ROW0, &EMPTY_ROW, &ROW1]);
    assert!(scene.rows.going_down);
}

#[test]
fn there_is_no_next_state() {
    let mut game = session(2, false);
    assert!(game.next_state().is_none());
    game.on_input_event(InputEvent::Key(Key::Char('q')));
    assert!(game.next_state().is_none());
    assert!(game.should_quit_at(0));
}

#[test]
fn a_fresh_session_is_not_over() {
    let game = Gaming::new(chart(u64::MAX), 2, false).unwrap();
    assert!(!game.should_quit());
}

#[test]
fn the_clock_ends_a_session_of_no_length() {
    let game = Gaming::new(chart(0), 2, false).unwrap();
    let mut over = false;
    for _ in 0..100_000_000u64 {
        if game.should_quit() {
            over = true;
            break;
        }
    }
    assert!(over);
}

#[test]
fn draw_reads_the_clock() {
    let game = Gaming::new(chart(u64::MAX), 1, false).unwrap();
    let first = game.draw(surface(80, 24));
    assert_eq!(first.rows.rows, vec![&ROW0, &ROW1]);
    assert_eq!(first.lanes, Rect { x: 38, y: 0, width: 4, height: 24 });
    assert_eq!(first.border, Rect { x: 36, y: 0, width: 8, height: 24 });
    let mut last = first.rows.shift;
    let mut moved = false;
    for _ in 0..100_000_000u64 {
        let shift = game.draw(surface(80, 24)).rows.shift;
        assert!(shift >= last);
        last = shift;
        if shift > first.rows.shift {
            moved = true;
            break;
        }
    }
    assert!(moved);
}

#[test]
fn a_session_keeps_the_start_it_is_given() {
    let start = tokio::time::Instant::now();
    let game = Gaming::with_start(chart(u64::MAX), 1, false, start).unwrap();
    assert!(!game.should_quit());
    assert!(!game.should_quit_at(0));
    assert_eq!(game.draw_at(0, surface(80, 24)).rows.rows, vec![&ROW0, &ROW1]);
    let mut moved = false;
    for _ in 0..100_000_000u64 {
        let shown = game.draw(surface(80, 24)).rows.shift as u128;
        // Two display rows a second since the start that was given.
        let nanos = start.elapsed().as_nanos();
        assert!(shown <= (nanos * 2 + 500_000_000) / 1_000_000_000);
        if shown > 0 {
            moved = true;
            break;
        }
    }
    assert!(moved);
}

#[test]
fn a_given_start_does_not_excuse_a_zero_gap() {
    let start = tokio::time::Instant::now();
    assert_eq!(
        Gaming::with_start(chart(20 * SECOND), 0, true, start).err(),
        Some(ConfigError::ZeroDisplayGap)
    );
}

#[test]
fn a_narrow_surface_still_shows_the_lanes_it_has() {
    let game = session(1, false);
    let scene = game.draw_at(0, surface(2, 2));
    assert_eq!(scene.lanes, Rect { x: 0, y: 0, width: 2, height: 2 });
    let mut cell = Cell::default();
    cell.set_bg(UNTOUCHED);
    let mut buf = Buffer::filled(tui::layout::Rect { x: 0, y: 0, width: 2, height: 2 }, &cell);
    scene.rows.render(scene.lanes, &mut buf);
    assert_eq!(buf.get(0, 0).bg, tui::style::Color::Red);
    assert_eq!(buf.get(1, 0).bg, RESET);
    assert_eq!(buf.get(0, 1).bg, RESET);
    assert_eq!(buf.get(1, 1).bg, tui::style::Color::Yellow);
}
