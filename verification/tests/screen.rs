use chip8::emulator::{Rect, Screen};

fn lit_count(screen: &Screen) -> usize {
    let mut n = 0;
    for row in 0..32 {
        for col in 0..64 {
            if screen.get(row, col) {
                n += 1;
            }
        }
    }
    n
}

#[test]
fn new_screen_is_blank() {
    let screen = Screen::new();
    assert_eq!(lit_count(&screen), 0);
    assert!(screen.draw().is_empty());
}

#[test]
fn set_lights_one_pixel_without_collision() {
    let mut screen = Screen::new();
    assert_eq!(screen.set(3, 5, true), 0);
    assert!(screen.get(3, 5));
    assert_eq!(lit_count(&screen), 1);
}

#[test]
fn set_false_changes_nothing() {
    let mut screen = Screen::new();
    assert_eq!(screen.set(3, 5, false), 0);
    assert_eq!(lit_count(&screen), 0);
    screen.set(3, 5, true);
    assert_eq!(screen.set(3, 5, false), 0);
    assert!(screen.get(3, 5));
}

#[test]
fn set_on_lit_pixel_collides_and_clears() {
    let mut screen = Screen::new();
    assert_eq!(screen.set(10, 20, true), 0);
    assert_eq!(screen.set(10, 20, true), 1);
    assert!(!screen.get(10, 20));
    assert_eq!(lit_count(&screen), 0);
}

#[test]
fn set_wraps_rows_and_columns() {
    let mut screen = Screen::new();
    assert_eq!(screen.set(32, 64, true), 0);
    assert!(screen.get(0, 0));
    assert_eq!(screen.set(33, 130, true), 0);
    assert!(screen.get(1, 2));
    assert_eq!(screen.set(31 + 32 * 7, 63 + 64 * 3, true), 0);
    assert!(screen.get(31, 63));
    assert_eq!(lit_count(&screen), 3);
    assert_eq!(screen.set(0, 0, true), 1);
    assert!(!screen.get(32, 64));
}

#[test]
fn set_outside_grid_matches_wrapped_coordinates_everywhere() {
    for row in [32usize, 45, 63, 64, 1000] {
        for col in [64usize, 65, 127, 128, 4097] {
            let mut far = Screen::new();
            let mut near = Screen::new();
            far.set(row, col, true);
            near.set(row % 32, col % 64, true);
            for r in 0..32 {
                for c in 0..64 {
                    assert_eq!(far.get(r, c), near.get(r, c));
                }
            }
        }
    }
}

#[test]
fn clear_turns_everything_off() {
    let mut screen = Screen::new();
    screen.set(0, 0, true);
    screen.set(31, 63, true);
    screen.set(7, 9, true);
    screen.clear();
    assert_eq!(lit_count(&screen), 0);
    assert_eq!(screen.set(0, 0, true), 0);
}

#[test]
fn draw_lists_a_square_per_lit_pixel_in_row_order() {
    let mut screen = Screen::new();
    screen.set(2, 3, true);
    screen.set(0, 63, true);
    screen.set(31, 0, true);
    screen.set(2, 1, true);
    assert_eq!(
        screen.draw(),
        vec![
            Rect { x: 63 * 24, y: 0, w: 24, h: 24 },
            Rect { x: 24, y: 48, w: 24, h: 24 },
            Rect { x: 72, y: 48, w: 24, h: 24 },
            Rect { x: 0, y: 31 * 24, w: 24, h: 24 },
        ]
    );
}

#[test]
fn draw_of_full_screen_has_every_square() {
    let mut screen = Screen::new();
    for row in 0..32 {
        for col in 0..64 {
            screen.set(row, col, true);
        }
    }
    let squares = screen.draw();
    assert_eq!(squares.len(), 2048);
    assert_eq!(squares[0], Rect { x: 0, y: 0, w: 24, h: 24 });
    assert_eq!(squares[64], Rect { x: 0, y: 24, w: 24, h: 24 });
    assert_eq!(squares[2047], Rect { x: 1512, y: 744, w: 24, h: 24 });
}
