use rx3wm::tiling::{render_output, Geometry, Point, Size};

fn g(x: i32, y: i32, w: u32, h: u32) -> Geometry {
    Geometry { origin: Point { x, y }, size: Size { w, h } }
}

fn overlaps(a: &Geometry, b: &Geometry) -> bool {
    let (ax, ay, aw, ah) = (a.origin.x as i64, a.origin.y as i64, a.size.w as i64, a.size.h as i64);
    let (bx, by, bw, bh) = (b.origin.x as i64, b.origin.y as i64, b.size.w as i64, b.size.h as i64);
    ax < bx + bw && bx < ax + aw && ay < by + bh && by < ay + ah
}

const SCREEN: Size = Size { w: 1920, h: 1080 };

#[test]
fn no_views_no_tiles() {
    assert!(render_output(SCREEN, 0).is_empty());
}

#[test]
fn one_view_starts_mid_screen_at_full_width() {
    assert_eq!(render_output(SCREEN, 1), vec![g(960, 0, 1920, 1080)]);
}

#[test]
fn two_views_share_one_row() {
    assert_eq!(render_output(SCREEN, 2), vec![g(960, 0, 960, 1080), g(0, 0, 960, 1080)]);
}

#[test]
fn three_views_take_two_rows() {
    assert_eq!(
        render_output(SCREEN, 3),
        vec![g(960, 0, 960, 540), g(0, 0, 960, 540), g(960, 540, 1920, 540)]
    );
}

#[test]
fn four_views_fill_two_rows() {
    assert_eq!(
        render_output(SCREEN, 4),
        vec![g(960, 0, 960, 540), g(0, 0, 960, 540), g(960, 540, 960, 540), g(0, 540, 960, 540)]
    );
}

#[test]
fn row_height_rounds_down() {
    let tiles = render_output(Size { w: 101, h: 100 }, 5);
    assert_eq!(tiles.len(), 5);
    assert_eq!(tiles[4], g(50, 66, 101, 33));
    assert_eq!(tiles[3], g(0, 33, 50, 33));
}

#[test]
fn tiles_are_disjoint() {
    for n in 1..12usize {
        let tiles = render_output(Size { w: 1366, h: 768 }, n);
        for i in 0..n {
            for j in 0..n {
                if i != j {
                    assert!(!overlaps(&tiles[i], &tiles[j]), "{} views: {} and {}", n, i, j);
                }
            }
        }
    }
}

#[test]
fn tiles_lie_within_the_height_and_all_but_a_lone_last_within_the_width() {
    for n in 1..12usize {
        let tiles = render_output(Size { w: 1366, h: 768 }, n);
        for (i, t) in tiles.iter().enumerate() {
            assert!(t.origin.y >= 0);
            assert!(t.origin.y as i64 + t.size.h as i64 <= 768);
            if !(i % 2 == 0 && i + 1 == n) {
                assert!(t.origin.x >= 0);
                assert!(t.origin.x as i64 + t.size.w as i64 <= 1366);
            } else {
                assert_eq!(t.origin.x, 683);
                assert_eq!(t.size.w, 1366);
            }
        }
    }
}

#[test]
fn zero_height_output_gives_flat_tiles() {
    let tiles = render_output(Size { w: 10, h: 0 }, 3);
    assert!(tiles.iter().all(|t| t.size.h == 0 && t.origin.y == 0));
}

#[test]
fn can_render_checks_the_arithmetic() {
    assert!(rx3wm::tiling::can_render(SCREEN, 0));
    assert!(rx3wm::tiling::can_render(SCREEN, 7));
    assert!(rx3wm::tiling::can_render(Size { w: 10, h: u32::MAX }, 2));
    assert!(rx3wm::tiling::can_render(Size { w: 10, h: u32::MAX }, 3));
    assert!(!rx3wm::tiling::can_render(Size { w: 10, h: u32::MAX }, 5));
    assert!(!rx3wm::tiling::can_render(SCREEN, usize::MAX));
}

#[test]
fn huge_output_with_two_views() {
    let tiles = render_output(Size { w: 10, h: u32::MAX }, 2);
    assert_eq!(tiles, vec![g(5, 0, 5, u32::MAX), g(0, 0, 5, u32::MAX)]);
}
