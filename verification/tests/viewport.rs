use mold2d::Rect;
use mold2d::Viewport;
use mold2d::Window;

fn window() -> Window {
    Window {
        title: "test",
        width: 800,
        height: 600,
    }
}

#[test]
fn test_new_viewport_starts_at_origin() {
    let viewport = Viewport::new(&window(), (2000, 2000));
    assert_eq!((viewport.x, viewport.y), (0, 0));
    assert_eq!(viewport.window_dimensions, (800, 600));
    assert_eq!(viewport.map_dimensions, (2000, 2000));
}

#[test]
fn test_set_position_centers_and_clamps() {
    let mut viewport = Viewport::new(&window(), (2000, 2000));

    // A centre deep inside the map puts the origin half a window left.
    viewport.set_position((1000, 1000));
    assert_eq!((viewport.x, viewport.y), (600, 700));

    // A centre near the top-left clamps to the map edge.
    viewport.set_position((10, 10));
    assert_eq!((viewport.x, viewport.y), (0, 0));

    // A centre near the far corner never scrolls past the map.
    viewport.set_position((1999, 1999));
    assert_eq!((viewport.x, viewport.y), (1200, 1400));
}

#[test]
fn test_in_viewport_margins() {
    let viewport = Viewport::new(&window(), (2000, 2000));
    assert!(viewport.in_viewport((0, 0)));
    assert!(viewport.in_viewport((800, 600)));
    // The left and top edges carry a 32 pixel margin.
    assert!(viewport.in_viewport((-32, -32)));
    assert!(!viewport.in_viewport((-33, 0)));
    assert!(!viewport.in_viewport((801, 0)));
}

#[test]
fn test_relative_point() {
    let mut viewport = Viewport::new(&window(), (2000, 2000));
    viewport.set_position((1000, 1000));
    assert_eq!(viewport.relative_point((700, 800)), (100, 100));
}

#[test]
fn test_rect_in_viewport() {
    let viewport = Viewport::new(&window(), (2000, 2000));
    assert!(viewport.rect_in_viewport(&Rect::new(10, 10, 50, 50)));
    // Off screen to the right, but one corner still reaches the view.
    assert!(viewport.rect_in_viewport(&Rect::new(790, 0, 100, 50)));
    assert!(!viewport.rect_in_viewport(&Rect::new(900, 700, 50, 50)));
}

#[test]
fn test_constrain_to_viewport() {
    let viewport = Viewport::new(&window(), (2000, 2000));
    // The constrained rectangle's corner is the centre point mapped into
    // view coordinates.
    let constrained = viewport.constrain_to_viewport(&Rect::new(100, 40, 20, 10));
    assert_eq!(constrained, Some(Rect::new(110, 45, 20, 10)));
    assert_eq!(viewport.constrain_to_viewport(&Rect::new(5000, 5000, 20, 10)), None);
}
