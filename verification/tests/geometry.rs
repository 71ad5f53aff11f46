use nanotrans::caret::{
    calculate_popup_position, get_caret_position, get_screen_size, is_our_process_foreground,
    place_popup, resolve_caret_position,
};

#[test]
fn placement_follows_the_given_screen() {
    // The general placement matches the fallback-screen instance...
    assert_eq!(place_popup(960, 540, 380, 220, 1920, 1080), (770, 310));
    // ...and clamps against whatever screen is given.
    assert_eq!(place_popup(960, 540, 380, 220, 1000, 600), (620, 310));
    assert_eq!(place_popup(3800, 1900, 380, 220, 3840, 2160), (3460, 1670));
    // Near the top of a small screen the box falls below the cursor.
    assert_eq!(place_popup(100, 5, 380, 220, 800, 600), (0, 25));
}

#[test]
fn caret_fallback_chain() {
    assert_eq!(resolve_caret_position(Some((12, 34)), Some((56, 78))), (12, 34));
    assert_eq!(resolve_caret_position(None, Some((56, 78))), (56, 78));
    assert_eq!(resolve_caret_position(None, None), (0, 0));
}

#[test]
fn test_get_caret_position() {
    let (x, y) = get_caret_position();
    assert!(x >= -10000 && x <= 10000);
    assert!(y >= -10000 && y <= 10000);
}

#[test]
fn fallback_screen_and_foreground() {
    assert_eq!(get_screen_size(), (1920, 1080));
    assert!(!is_our_process_foreground());
}

#[test]
fn popup_prefers_above_centered() {
    // Screen 1920x1080, cursor mid-screen, popup 380x220: centered at
    // 960 - 190 = 770, above at 540 - 220 - 10 = 310.
    assert_eq!(calculate_popup_position(960, 540, 380, 220), (770, 310));
}

#[test]
fn popup_falls_below_near_the_top_edge() {
    // 5 - 220 - 10 < 0, so the box goes below the cursor with its gap.
    assert_eq!(calculate_popup_position(960, 5, 380, 220), (770, 25));
}

#[test]
fn popup_clamps_to_screen_bounds() {
    // Left edge.
    assert_eq!(calculate_popup_position(10, 540, 380, 220), (0, 310));
    // Right edge: x may not exceed 1920 - 380 = 1540.
    assert_eq!(calculate_popup_position(1900, 540, 380, 220), (1540, 310));
    // Near the bottom the box still fits above: 1070 - 230 = 840.
    assert_eq!(calculate_popup_position(960, 1070, 380, 220), (770, 840));
    // A cursor reported below the screen: the bottom edge is clamped to
    // 1080 - 220 = 860.
    assert_eq!(calculate_popup_position(960, 2000, 380, 220), (770, 860));
    let (x, y) = calculate_popup_position(1919, 1079, 380, 220);
    assert!(x + 380 <= 1920);
    assert!(y + 220 <= 1080);
}
