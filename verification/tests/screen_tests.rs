use timelapse::screen::{select_primary_screen, select_screen, window_overlaps_screen};

#[test]
fn test_window_overlaps_screen_center_inside() {
    // Window centered at (100, 100) with size 50x50
    // Screen at (0, 0) with size 200x200
    let window = (75, 75, 50, 50);
    let screen = (0, 0, 200, 200);

    assert!(window_overlaps_screen(window, screen));
}

#[test]
fn test_window_overlaps_screen_center_outside() {
    // Window centered at (300, 300) with size 50x50
    // Screen at (0, 0) with size 200x200
    let window = (275, 275, 50, 50);
    let screen = (0, 0, 200, 200);

    assert!(!window_overlaps_screen(window, screen));
}

#[test]
fn test_window_overlaps_screen_edge_case() {
    // Window partially on screen, but center is inside
    let window = (175, 175, 50, 50);
    let screen = (0, 0, 200, 200);

    // Center is at (200, 200), which is exactly at the edge
    assert!(!window_overlaps_screen(window, screen));
}

#[test]
fn test_window_overlaps_screen_multi_monitor() {
    // Simulate a second monitor at x=1920
    let window = (2000, 100, 100, 100);
    let screen1 = (0, 0, 1920, 1080);
    let screen2 = (1920, 0, 1920, 1080);

    assert!(!window_overlaps_screen(window, screen1));
    assert!(window_overlaps_screen(window, screen2));
}

#[test]
fn test_window_one_unit_inside_boundary() {
    // A center exactly on the bottom-right boundary point is out
    // (half-open interval); one unit inside is in.
    let screen = (0, 0, 200, 200);
    let at_boundary = (174, 174, 52, 52); // center (200, 200)
    let one_inside = (173, 173, 52, 52); // center (199, 199)

    assert!(!window_overlaps_screen(at_boundary, screen));
    assert!(window_overlaps_screen(one_inside, screen));
}

#[test]
fn test_select_screen_first_match_and_fallback() {
    let screens = vec![(0, 0, 1920, 1080), (1920, 0, 1920, 1080)];

    // Window on the second monitor selects index 1.
    assert_eq!(select_screen((2000, 100, 100, 100), &screens), Some(1));
    // Window on the first monitor selects index 0.
    assert_eq!(select_screen((10, 10, 100, 100), &screens), Some(0));
    // Window off every screen matches none (caller falls back to primary).
    assert_eq!(select_screen((5000, 5000, 100, 100), &screens), None);
}

#[test]
fn test_select_primary_screen() {
    // The primary display contains (0,0), wherever it stands in the list.
    let screens = vec![(1920, 0, 1920, 1080), (0, 0, 1920, 1080)];
    assert_eq!(select_primary_screen(&screens), Some(1));

    // A display whose right/bottom edge is at the origin does not contain
    // it (half-open interval).
    let screens = vec![(-1920, -1080, 1920, 1080)];
    assert_eq!(select_primary_screen(&screens), None);

    // A display reaching one unit past the origin does.
    let screens = vec![(-1919, -1079, 1920, 1080)];
    assert_eq!(select_primary_screen(&screens), Some(0));
}
