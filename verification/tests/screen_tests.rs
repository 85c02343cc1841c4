use text_screen::frame::{Cell, Color};
use text_screen::screen::{Command, DrawError, FatalKind, Screen};
use text_screen::VecChar;

fn blank_cell() -> Cell {
    Cell { ch: ' ', fg: Color::White, bold: false }
}

fn cell(ch: char, fg: Color, bold: bool) -> Cell {
    Cell { ch, fg, bold }
}

const SIZE_80X24: Option<(u16, u16)> = Some((80, 24));

#[test]
fn new_screen_starts_open_with_blank_frames() {
    let s = Screen::new(5, 2, false);
    assert_eq!(s.cols, 5);
    assert_eq!(s.rows, 2);
    assert!(!s.closed);
    assert!(!s.debug);
    for c in 0..5 {
        for r in 0..2 {
            assert_eq!(s.curr_frame.get(c, r), blank_cell());
            assert_eq!(s.last_frame.get(c, r), blank_cell());
        }
    }
}

#[test]
fn setup_enters_alternate_screen() {
    let s = Screen::new(5, 2, false);
    assert_eq!(
        s.setup_commands(),
        vec![
            Command::EnableRawMode,
            Command::EnterAlternateScreen,
            Command::HideCursor,
            Command::SetBackground(Color::Black),
            Command::SetForeground(Color::White),
            Command::ClearAll,
        ]
    );
}

#[test]
fn setup_in_debug_skips_alternate_screen() {
    let s = Screen::new(5, 2, true);
    assert_eq!(
        s.setup_commands(),
        vec![
            Command::EnableRawMode,
            Command::HideCursor,
            Command::SetBackground(Color::Black),
            Command::SetForeground(Color::White),
            Command::ClearAll,
        ]
    );
}

#[test]
fn close_restores_the_terminal_once() {
    let mut s = Screen::new(5, 2, false);
    let first = s.close();
    assert_eq!(
        first,
        vec![Command::DisableRawMode, Command::ShowCursor, Command::LeaveAlternateScreen]
    );
    assert!(s.closed);
    let second = s.close();
    assert_eq!(second, Vec::<Command>::new());
    assert!(s.closed);
}

#[test]
fn close_in_debug_keeps_the_main_screen() {
    let mut s = Screen::new(5, 2, true);
    assert_eq!(s.close(), vec![Command::DisableRawMode, Command::ShowCursor]);
    assert_eq!(s.close(), Vec::<Command>::new());
}

#[test]
fn draw_single_char_changes_exactly_one_cell() {
    let mut s = Screen::new(5, 4, true);
    s.draw(2, 1, 'x', Color::Red);
    for c in 0..5 {
        for r in 0..4 {
            if c == 2 && r == 1 {
                assert_eq!(s.curr_frame.get(c, r), cell('x', Color::Red, false));
            } else {
                assert_eq!(s.curr_frame.get(c, r), blank_cell());
            }
            assert_eq!(s.last_frame.get(c, r), blank_cell());
        }
    }
}

#[test]
fn draw_run_changes_exactly_its_cells() {
    let mut s = Screen::new(5, 4, true);
    s.draw(1, 2, "ab", Color::Green);
    for c in 0..5 {
        for r in 0..4 {
            if r == 2 && c == 1 {
                assert_eq!(s.curr_frame.get(c, r), cell('a', Color::Green, false));
            } else if r == 2 && c == 2 {
                assert_eq!(s.curr_frame.get(c, r), cell('b', Color::Green, false));
            } else {
                assert_eq!(s.curr_frame.get(c, r), blank_cell());
            }
        }
    }
}

#[test]
fn draw_bold_marks_the_cells_bold() {
    let mut s = Screen::new(5, 4, true);
    s.draw_bold(0, 0, "ok", Color::Yellow);
    assert_eq!(s.curr_frame.get(0, 0), cell('o', Color::Yellow, true));
    assert_eq!(s.curr_frame.get(1, 0), cell('k', Color::Yellow, true));
}

#[test]
fn try_draw_inside_the_grid_draws() {
    let mut s = Screen::new(5, 4, true);
    let outcome = s.try_draw(3, 1, "ab".vec_char(), Color::Magenta, false);
    assert_eq!(outcome, Ok(()));
    assert_eq!(s.curr_frame.get(3, 1), cell('a', Color::Magenta, false));
    assert_eq!(s.curr_frame.get(4, 1), cell('b', Color::Magenta, false));
}

#[test]
fn try_draw_past_the_edge_changes_nothing() {
    let mut s = Screen::new(5, 4, true);
    let outcome = s.try_draw(4, 1, "ab".vec_char(), Color::Magenta, false);
    assert_eq!(outcome, Err(DrawError::OutOfBounds));
    let below = s.try_draw(0, 4, 'x'.vec_char(), Color::Magenta, true);
    assert_eq!(below, Err(DrawError::OutOfBounds));
    for c in 0..5 {
        for r in 0..4 {
            assert_eq!(s.curr_frame.get(c, r), blank_cell());
        }
    }
}

#[test]
fn first_render_writes_the_drawn_cells() {
    let mut s = Screen::new(10, 3, false);
    s.draw(0, 0, "hi", Color::White);
    let cmds = s.render_with_size(SIZE_80X24).unwrap();
    assert_eq!(
        cmds,
        vec![
            Command::Put { col: 0, row: 0, cell: cell('h', Color::White, false) },
            Command::Put { col: 1, row: 0, cell: cell('i', Color::White, false) },
        ]
    );
}

#[test]
fn fresh_screen_render_emits_nothing() {
    let mut s = Screen::new(10, 3, false);
    let cmds = s.render_with_size(SIZE_80X24).unwrap();
    assert_eq!(cmds, Vec::<Command>::new());
}

#[test]
fn redrawing_the_same_scene_emits_nothing() {
    let mut s = Screen::new(10, 3, false);
    s.draw(0, 0, "hi", Color::White);
    s.render_with_size(SIZE_80X24).unwrap();
    s.draw(0, 0, "hi", Color::White);
    let cmds = s.render_with_size(SIZE_80X24).unwrap();
    assert_eq!(cmds, Vec::<Command>::new());
}

#[test]
fn only_the_changed_cell_is_rewritten() {
    let mut s = Screen::new(10, 3, false);
    s.draw(0, 0, "hi", Color::White);
    s.render_with_size(SIZE_80X24).unwrap();
    s.draw(0, 0, "hI", Color::White);
    let cmds = s.render_with_size(SIZE_80X24).unwrap();
    assert_eq!(
        cmds,
        vec![Command::Put { col: 1, row: 0, cell: cell('I', Color::White, false) }]
    );
}

#[test]
fn render_without_redrawing_erases_the_scene() {
    let mut s = Screen::new(10, 3, false);
    s.draw(0, 0, "hi", Color::White);
    s.render_with_size(SIZE_80X24).unwrap();
    let cmds = s.render_with_size(SIZE_80X24).unwrap();
    assert_eq!(
        cmds,
        vec![
            Command::Put { col: 0, row: 0, cell: blank_cell() },
            Command::Put { col: 1, row: 0, cell: blank_cell() },
        ]
    );
}

#[test]
fn render_makes_the_drawn_frame_the_baseline() {
    let mut s = Screen::new(4, 2, true);
    s.draw(0, 0, "ab", Color::Cyan);
    s.render_with_size(SIZE_80X24).unwrap();
    for c in 0..4 {
        for r in 0..2 {
            assert_eq!(s.curr_frame.get(c, r), blank_cell());
            if r == 0 && c == 0 {
                assert_eq!(s.last_frame.get(c, r), cell('a', Color::Cyan, false));
            } else if r == 0 && c == 1 {
                assert_eq!(s.last_frame.get(c, r), cell('b', Color::Cyan, false));
            } else {
                assert_eq!(s.last_frame.get(c, r), blank_cell());
            }
        }
    }
}

#[test]
fn render_scans_column_major() {
    let mut s = Screen::new(3, 2, true);
    s.draw(1, 0, 'b', Color::White);
    s.draw(0, 1, 'a', Color::White);
    s.draw(2, 1, 'c', Color::White);
    let cmds = s.render_with_size(SIZE_80X24).unwrap();
    assert_eq!(
        cmds,
        vec![
            Command::Put { col: 0, row: 1, cell: cell('a', Color::White, false) },
            Command::Put { col: 1, row: 0, cell: cell('b', Color::White, false) },
            Command::Put { col: 2, row: 1, cell: cell('c', Color::White, false) },
        ]
    );
}

#[test]
fn too_small_terminal_closes_the_session() {
    let mut s = Screen::new(200, 50, false);
    let fatal = s.render_with_size(SIZE_80X24).unwrap_err();
    assert_eq!(fatal.kind, FatalKind::TooSmall { have_cols: 80, have_rows: 24 });
    assert_eq!(
        fatal.commands,
        vec![Command::DisableRawMode, Command::ShowCursor, Command::LeaveAlternateScreen]
    );
    assert!(s.closed);
}

#[test]
fn too_narrow_terminal_closes_the_session() {
    let mut s = Screen::new(100, 10, true);
    let fatal = s.render_with_size(SIZE_80X24).unwrap_err();
    assert_eq!(fatal.kind, FatalKind::TooSmall { have_cols: 80, have_rows: 24 });
    assert_eq!(fatal.commands, vec![Command::DisableRawMode, Command::ShowCursor]);
    assert!(s.closed);
}

#[test]
fn unknown_size_closes_the_session() {
    let mut s = Screen::new(10, 3, false);
    let fatal = s.render_with_size(None).unwrap_err();
    assert_eq!(fatal.kind, FatalKind::SizeUnavailable);
    assert!(s.closed);
}

#[test]
fn failed_render_after_close_restores_nothing_again() {
    let mut s = Screen::new(200, 50, false);
    s.close();
    let fatal = s.render_with_size(SIZE_80X24).unwrap_err();
    assert_eq!(fatal.commands, Vec::<Command>::new());
    assert!(s.closed);
}

#[test]
fn exactly_fitting_terminal_renders() {
    let mut s = Screen::new(80, 24, false);
    let cmds = s.render_with_size(SIZE_80X24).unwrap();
    assert_eq!(cmds, Vec::<Command>::new());
    assert!(!s.closed);
}
