use walkers_gpx::geometry::{line_hovered, on_segment, point_touched, within, ScreenPos, UNITS_PER_PIXEL};
use walkers_gpx::overlay::{FrameStart, GpxIndex, Overlay};
use walkers_gpx::style::{Style, StyleTrack};

fn px(x: i32, y: i32) -> ScreenPos {
    ScreenPos { x: x * UNITS_PER_PIXEL, y: y * UNITS_PER_PIXEL }
}

fn idx(track: usize, segment: usize, waypoint: usize) -> GpxIndex {
    GpxIndex { track, segment, waypoint }
}

const RADIUS: u32 = 10 * UNITS_PER_PIXEL as u32;

fn three_in_a_row() -> Vec<Vec<Vec<ScreenPos>>> {
    vec![vec![vec![px(0, 0), px(10, 0), px(20, 0)]]]
}

#[test]
fn it_works() {
    let result = walkers_gpx::add(2, 2);
    assert_eq!(result, 4);
}

#[test]
fn hover_on_middle_waypoint() {
    let mut overlay = Overlay::new();
    let frames = overlay.walk(&three_in_a_row(), None, Some(px(10, 0)), None, RADIUS);
    let seg = &frames[0][0];
    assert_eq!(seg.points.len(), 3);
    assert!(!seg.points[0].hovered);
    assert!(seg.points[1].hovered);
    assert!(!seg.points[2].hovered);
    assert_eq!(seg.points[1].index, idx(0, 0, 1));
    // The three points share a y coordinate, so no hover position lies
    // strictly inside the box of either line.
    assert_eq!(seg.lines.len(), 2);
    assert!(!seg.lines[0].hovered);
    assert!(!seg.lines[1].hovered);
    assert_eq!(seg.lines[0].from, px(0, 0));
    assert_eq!(seg.lines[0].to, px(10, 0));
    assert_eq!(seg.lines[1].from, px(10, 0));
    assert_eq!(seg.lines[1].to, px(20, 0));
    assert_eq!(overlay.select, None);
}

#[test]
fn click_far_from_waypoints_selects_nothing() {
    let mut overlay = Overlay::new();
    let start = overlay.commit_click(Some(px(10, 50)));
    assert_eq!(start, FrameStart { commit: None, click: Some(px(10, 50)) });
    overlay.walk(&three_in_a_row(), None, None, start.click, RADIUS);
    assert_eq!(overlay.select, None);
}

#[test]
fn click_on_waypoint_selects_it() {
    let mut overlay = Overlay::new();
    let start = overlay.commit_click(Some(px(21, 1)));
    assert_eq!(start.commit, None);
    overlay.walk(&three_in_a_row(), None, None, start.click, RADIUS);
    assert_eq!(overlay.select, Some(idx(0, 0, 2)));
}

#[test]
fn click_on_overlapping_waypoints_selects_last() {
    let tracks = vec![vec![vec![px(0, 0)], vec![px(3, 0)]], vec![vec![px(100, 100)]]];
    let mut overlay = Overlay::new();
    overlay.walk(&tracks, None, None, Some(px(1, 0)), RADIUS);
    assert_eq!(overlay.select, Some(idx(0, 1, 0)));
}

#[test]
fn click_with_selection_commits_and_is_consumed() {
    let mut overlay = Overlay { select: Some(idx(0, 0, 1)) };
    // The click lands right on waypoint 0: it is still consumed by the commit.
    let start = overlay.commit_click(Some(px(0, 0)));
    assert_eq!(start, FrameStart { commit: Some(idx(0, 0, 1)), click: None });
    assert_eq!(overlay.select, None);
    overlay.walk(&three_in_a_row(), Some(px(0, 0)), None, start.click, RADIUS);
    assert_eq!(overlay.select, None);
}

#[test]
fn no_click_keeps_selection() {
    let mut overlay = Overlay { select: Some(idx(0, 0, 1)) };
    let start = overlay.commit_click(None);
    assert_eq!(start, FrameStart { commit: None, click: None });
    assert_eq!(overlay.select, Some(idx(0, 0, 1)));
}

#[test]
fn selected_waypoint_follows_pointer() {
    let mut overlay = Overlay { select: Some(idx(0, 0, 1)) };
    let frames = overlay.walk(&three_in_a_row(), Some(px(10, 30)), None, None, RADIUS);
    let seg = &frames[0][0];
    assert_eq!(seg.points[0].pos, px(0, 0));
    assert_eq!(seg.points[1].pos, px(10, 30));
    assert_eq!(seg.points[2].pos, px(20, 0));
    assert_eq!(seg.lines[0].to, px(10, 30));
    assert_eq!(seg.lines[1].from, px(10, 30));
    assert_eq!(overlay.select, Some(idx(0, 0, 1)));
}

#[test]
fn selected_waypoint_without_pointer_stays() {
    let mut overlay = Overlay { select: Some(idx(0, 0, 1)) };
    let frames = overlay.walk(&three_in_a_row(), None, None, None, RADIUS);
    assert_eq!(frames[0][0].points[1].pos, px(10, 0));
}

#[test]
fn empty_levels_draw_nothing() {
    let mut overlay = Overlay::new();
    let tracks: Vec<Vec<Vec<ScreenPos>>> = vec![vec![], vec![vec![]], vec![vec![px(1, 1)]]];
    let frames = overlay.walk(&tracks, None, Some(px(1, 1)), None, RADIUS);
    assert_eq!(frames.len(), 3);
    assert_eq!(frames[0].len(), 0);
    assert_eq!(frames[1][0].points.len(), 0);
    assert_eq!(frames[1][0].lines.len(), 0);
    assert_eq!(frames[2][0].points.len(), 1);
    assert_eq!(frames[2][0].lines.len(), 0);
    assert!(frames[2][0].points[0].hovered);
}

#[test]
fn point_hover_is_strict() {
    assert!(point_touched(Some(px(0, 9)), px(0, 0), RADIUS));
    assert!(!point_touched(Some(px(0, 10)), px(0, 0), RADIUS));
    assert!(!point_touched(Some(px(6, 8)), px(0, 0), RADIUS));
    assert!(point_touched(Some(ScreenPos { x: 5999, y: 8000 }), px(0, 0), RADIUS));
    assert!(!point_touched(None, px(0, 0), RADIUS));
    assert!(within(px(3, 4), px(0, 0), 5001));
    assert!(!within(px(3, 4), px(0, 0), 5000));
}

#[test]
fn line_hover_on_diagonal() {
    assert!(on_segment(px(0, 0), px(10, 10), px(5, 5)));
    assert!(on_segment(px(10, 10), px(0, 0), px(5, 5)));
    assert!(!on_segment(px(0, 0), px(10, 10), px(5, 1)));
    assert!(!on_segment(px(0, 0), px(10, 10), px(11, 11)));
}

#[test]
fn line_hover_near_endpoint() {
    // A twentieth of a pixel from the start, off the diagonal's slope.
    let c = ScreenPos { x: 50, y: 20 };
    assert!(on_segment(px(0, 0), px(10, 10), c));
    let far = ScreenPos { x: 500, y: 200 };
    assert!(!on_segment(px(0, 0), px(10, 10), far));
}

#[test]
fn line_hover_slope_tolerance() {
    // Slopes from c=(5,4) to a=(0,0) and to b=(10,9): 0.8 and 1.0.
    assert!(!on_segment(px(0, 0), px(10, 9), px(5, 4)));
    // Slopes from c=(50,45) to a=(0,0) and to b=(100,91): 0.9 and 0.92.
    assert!(on_segment(px(0, 0), px(100, 91), px(50, 45)));
}

#[test]
fn line_hover_vertical_never() {
    assert!(!on_segment(px(5, 0), px(5, 10), px(5, 5)));
    assert!(!line_hovered(Some(px(5, 5)), px(5, 0), px(5, 10)));
    assert!(!line_hovered(None, px(0, 0), px(10, 10)));
    assert!(line_hovered(Some(px(5, 5)), px(0, 0), px(10, 10)));
}

#[test]
fn style_selects_variant() {
    let track = StyleTrack { point: 1u32, line: "thin", select_point: 2u32, select_line: "bold" };
    let style = Style { track };
    assert_eq!(*style.track.select_point(false), 1);
    assert_eq!(*style.track.select_point(true), 2);
    assert_eq!(*style.track.select_line(false), "thin");
    assert_eq!(*style.track.select_line(true), "bold");
}
