use winquery::desktop::{Desktop, Window};
use winquery::geometry::{Point, Position, Size};
use winquery::ops::{
    cursor_pos_get, cursor_pos_set, pixel_color_get, pixel_color_search, screen_size, window_focus,
    window_pos, window_size,
};

fn blank_screen(width: i32, height: i32) -> (Size, Vec<u32>) {
    let pixels = vec![0u32; (width as usize) * (height as usize)];
    (Size::new(width, height), pixels)
}

fn desktop_with_notepad() -> Desktop {
    let (screen, pixels) = blank_screen(8, 8);
    Desktop {
        windows: vec![Window {
            title: String::from("Notepad"),
            bounds: Position::new(50, 100, 350, 500),
        }],
        screen,
        pixels,
        cursor: Point::new(0, 0),
        foreground: None,
    }
}

#[test]
fn screen_size_reports_display_metrics() {
    let (screen, pixels) = blank_screen(1920, 2);
    let d = Desktop {
        windows: Vec::new(),
        screen,
        pixels,
        cursor: Point::new(0, 0),
        foreground: None,
    };
    assert_eq!(screen_size(&d), Size::new(1920, 2));
}

#[test]
fn window_size_of_notepad() {
    let d = desktop_with_notepad();
    let s = window_size(&d, &String::from("Notepad"));
    assert_eq!(s, Size::new(400, 300));
}

#[test]
fn window_pos_reports_bounds() {
    let d = desktop_with_notepad();
    let p = window_pos(&d, &String::from("Notepad"));
    assert_eq!(p, Position::new(50, 100, 350, 500));
}

#[test]
fn window_pos_missing_title_zeroed() {
    let d = desktop_with_notepad();
    let p = window_pos(&d, &String::from("no such window title"));
    assert_eq!(p, Position::new(0, 0, 0, 0));
}

#[test]
fn window_size_missing_title_zero() {
    let d = desktop_with_notepad();
    let s = window_size(&d, &String::from("no such window title"));
    assert_eq!(s, Size::new(0, 0));
}

#[test]
fn size_consistent_with_position() {
    let d = desktop_with_notepad();
    for title in ["Notepad", "no such window title", ""] {
        let p = window_pos(&d, &String::from(title));
        let s = window_size(&d, &String::from(title));
        assert_eq!(s.width, p.right - p.left);
        assert_eq!(s.height, p.bottom - p.top);
    }
}

#[test]
fn first_match_wins_among_duplicate_titles() {
    let (screen, pixels) = blank_screen(4, 4);
    let d = Desktop {
        windows: vec![
            Window {
                title: String::from("Editor"),
                bounds: Position::new(1, 2, 3, 4),
            },
            Window {
                title: String::from("Editor"),
                bounds: Position::new(10, 20, 30, 40),
            },
        ],
        screen,
        pixels,
        cursor: Point::new(0, 0),
        foreground: None,
    };
    assert_eq!(window_pos(&d, &String::from("Editor")), Position::new(1, 2, 3, 4));
}

#[test]
fn cursor_round_trip_in_bounds() {
    let (screen, pixels) = blank_screen(10, 10);
    let mut d = Desktop {
        windows: Vec::new(),
        screen,
        pixels,
        cursor: Point::new(2, 2),
        foreground: None,
    };
    cursor_pos_set(&mut d, Point::new(5, 7));
    assert_eq!(cursor_pos_get(&d), Point::new(5, 7));
}

#[test]
fn cursor_set_clamps_out_of_range() {
    let (screen, pixels) = blank_screen(10, 10);
    let mut d = Desktop {
        windows: Vec::new(),
        screen,
        pixels,
        cursor: Point::new(0, 0),
        foreground: None,
    };
    cursor_pos_set(&mut d, Point::new(99, -5));
    assert_eq!(cursor_pos_get(&d), Point::new(9, 0));
}

#[test]
fn cursor_get_reads_platform_cursor() {
    let (screen, pixels) = blank_screen(10, 10);
    let d = Desktop {
        windows: Vec::new(),
        screen,
        pixels,
        cursor: Point::new(3, 4),
        foreground: None,
    };
    assert_eq!(cursor_pos_get(&d), Point::new(3, 4));
}

#[test]
fn pixel_color_get_exact_values() {
    let d = Desktop {
        windows: Vec::new(),
        screen: Size::new(2, 2),
        pixels: vec![0xc0ffee, 0x000000, 0xffffff, 0x00000f],
        cursor: Point::new(0, 0),
        foreground: None,
    };
    assert_eq!(pixel_color_get(&d, Point::new(0, 0)), "0xc0ffee");
    assert_eq!(pixel_color_get(&d, Point::new(1, 0)), "0x000000");
    assert_eq!(pixel_color_get(&d, Point::new(0, 1)), "0xffffff");
    assert_eq!(pixel_color_get(&d, Point::new(1, 1)), "0x00000f");
}

#[test]
fn pixel_color_get_well_formed_hex() {
    let d = Desktop {
        windows: Vec::new(),
        screen: Size::new(3, 1),
        pixels: vec![0x123abc, 0xfedcba, 0x0a0b0c],
        cursor: Point::new(0, 0),
        foreground: None,
    };
    for x in 0..3 {
        let s = pixel_color_get(&d, Point::new(x, 0));
        assert_eq!(s.len(), 8);
        assert!(s.starts_with("0x"));
        for c in s[2..].chars() {
            assert!(c.is_ascii_hexdigit());
            assert!(!c.is_ascii_uppercase());
        }
    }
}

#[test]
fn pixel_color_search_always_origin() {
    let d = desktop_with_notepad();
    assert_eq!(pixel_color_search(&d, None), Point::new(0, 0));
    assert_eq!(pixel_color_search(&d, Some(Size::new(123, 456))), Point::new(0, 0));
    assert_eq!(pixel_color_search(&d, Some(Size::new(-1, -1))), Point::new(0, 0));
}

#[test]
fn window_focus_sets_foreground() {
    let mut d = desktop_with_notepad();
    window_focus(&mut d, &String::from("Notepad"));
    assert_eq!(d.foreground, Some(0));
}

#[test]
fn window_focus_missing_title_is_noop() {
    let mut d = desktop_with_notepad();
    window_focus(&mut d, &String::from("no such window title"));
    assert_eq!(d.foreground, None);
    window_focus(&mut d, &String::from("Notepad"));
    window_focus(&mut d, &String::from("no such window title"));
    assert_eq!(d.foreground, Some(0));
}

#[test]
fn geometry_constructors_carry_fields() {
    let p = Point::new(-3, 9);
    assert_eq!((p.x, p.y), (-3, 9));
    let s = Size::new(640, 480);
    assert_eq!((s.width, s.height), (640, 480));
    let r = Position::new(1, 2, 3, 4);
    assert_eq!((r.top, r.left, r.bottom, r.right), (1, 2, 3, 4));
}
