use touch_keybinds::config::{ChromeSize, Config, Frac, Keybind, NormPoint};
use touch_keybinds::translate::{translate_click, ClickPoint, Size};

fn frac(num: u64, den: u64) -> Frac {
    Frac { num, den }
}

fn config(keybinds: Vec<Keybind>, top: u32, bottom: u32, left: u32, right: u32) -> Config {
    Config { keybinds, chrome_size: ChromeSize { top, bottom, left, right } }
}

fn bind(key: char, x: Frac, y: Frac) -> Keybind {
    Keybind { key: key as u8, at: NormPoint { x, y } }
}

#[test]
fn fullscreen_scales_window_directly() {
    let cfg = config(vec![bind('A', frac(1, 2), frac(1, 4))], 50, 0, 10, 10);
    let size = Size { width: 1000, height: 800 };
    assert_eq!(translate_click(&cfg, Some(b'A'), size, size), ClickPoint { x: 500, y: 200 });
}

#[test]
fn windowed_subtracts_chrome() {
    let cfg = config(vec![bind('A', frac(1, 2), frac(1, 2))], 50, 0, 10, 10);
    let window = Size { width: 1000, height: 800 };
    let screen = Size { width: 1200, height: 900 };
    assert_eq!(translate_click(&cfg, Some(b'A'), window, screen), ClickPoint { x: 500, y: 425 });
}

#[test]
fn windowed_floors_the_scaled_length() {
    let cfg = config(vec![bind('B', frac(1, 3), frac(2, 3))], 5, 3, 2, 4);
    let window = Size { width: 100, height: 50 };
    let screen = Size { width: 200, height: 100 };
    // content 94 x 42: floor(94 / 3) + 2 = 33, floor(84 / 3) + 5 = 33
    assert_eq!(translate_click(&cfg, Some(b'B'), window, screen), ClickPoint { x: 33, y: 33 });
}

#[test]
fn chrome_wider_than_window_rounds_down() {
    let cfg = config(vec![bind('C', frac(1, 3), frac(1, 1))], 0, 0, 10, 20);
    let window = Size { width: 20, height: 40 };
    let screen = Size { width: 200, height: 100 };
    // content -10: floor(-10 / 3) + 10 = -4 + 10
    assert_eq!(translate_click(&cfg, Some(b'C'), window, screen), ClickPoint { x: 6, y: 40 });
}

#[test]
fn one_dimension_equal_is_not_fullscreen() {
    let cfg = config(vec![bind('A', frac(1, 2), frac(1, 2))], 50, 0, 10, 10);
    let window = Size { width: 1000, height: 800 };
    let screen = Size { width: 1000, height: 900 };
    assert_eq!(translate_click(&cfg, Some(b'A'), window, screen), ClickPoint { x: 500, y: 425 });
}

#[test]
fn unbound_key_gives_no_click() {
    let cfg = config(vec![bind('A', frac(1, 2), frac(1, 4))], 50, 0, 10, 10);
    let sizes = [(1000, 800), (1200, 900), (0, 0), (u32::MAX, u32::MAX)];
    for (w, h) in sizes {
        for (sw, sh) in sizes {
            let window = Size { width: w, height: h };
            let screen = Size { width: sw, height: sh };
            assert_eq!(translate_click(&cfg, Some(b'5'), window, screen), ClickPoint { x: -1, y: -1 });
            assert_eq!(translate_click(&cfg, None, window, screen), ClickPoint { x: -1, y: -1 });
        }
    }
}

#[test]
fn empty_table_gives_no_click() {
    let cfg = config(vec![], 0, 0, 0, 0);
    let size = Size { width: 10, height: 10 };
    assert_eq!(translate_click(&cfg, Some(b'A'), size, size), ClickPoint { x: -1, y: -1 });
}

#[test]
fn edges_of_the_unit_square() {
    let cfg = config(vec![bind('0', frac(0, 1), frac(0, 7)), bind('9', frac(5, 5), frac(1, 1))], 0, 0, 0, 0);
    let size = Size { width: u32::MAX, height: 800 };
    assert_eq!(translate_click(&cfg, Some(b'0'), size, size), ClickPoint { x: 0, y: 0 });
    assert_eq!(translate_click(&cfg, Some(b'9'), size, size), ClickPoint { x: u32::MAX as i64, y: 800 });
}
