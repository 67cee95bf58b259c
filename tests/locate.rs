use touch_keybinds::locate::{WindowEntry, WindowTree};

fn window(id: u64, title: Option<&str>, children: Vec<usize>) -> WindowEntry {
    WindowEntry { id, title: title.map(|t| t.to_string()), children }
}

/// Screen 0 (root 0) has no matching title; screen 1 (root 3) has a direct
/// child that matches and, under another child, a deeper match.
fn two_screens() -> WindowTree {
    WindowTree {
        windows: vec![
            window(100, Some("root zero"), vec![1, 2]),
            window(101, Some("terminal"), vec![]),
            window(102, None, vec![]),
            window(200, Some("root one"), vec![4, 5]),
            window(201, Some("panel"), vec![6]),
            window(202, Some("Game window"), vec![7]),
            window(203, Some("inner window"), vec![]),
            window(204, Some("Game child"), vec![]),
        ],
        screens: vec![0, 3],
    }
}

#[test]
fn match_comes_from_second_screen_direct_child() {
    let tree = two_screens();
    assert_eq!(tree.locate_window("Game"), Some(202));
    assert_eq!(tree.find_window_by_name("Game", 3), Some(5));
    assert_eq!(tree.find_window_by_name("Game", 0), None);
}

#[test]
fn child_is_checked_before_its_descendants() {
    let tree = two_screens();
    assert_eq!(tree.locate_window("window"), Some(203));
}

#[test]
fn roots_are_not_checked() {
    let tree = two_screens();
    assert_eq!(tree.locate_window("root"), None);
}

#[test]
fn no_match_anywhere_is_none() {
    let tree = two_screens();
    assert_eq!(tree.locate_window("browser"), None);
    let empty = WindowTree { windows: vec![], screens: vec![] };
    assert_eq!(empty.locate_window("x"), None);
}

#[test]
fn untitled_windows_never_match() {
    let tree = two_screens();
    assert!(!tree.check_window_name("", 2));
    assert!(tree.check_window_name("", 1));
    assert!(tree.check_window_name("rmin", 1));
    assert!(!tree.check_window_name("Terminal", 1));
}

#[test]
fn first_screen_wins_when_both_match() {
    let tree = two_screens();
    assert_eq!(tree.locate_window("e"), Some(101));
}
