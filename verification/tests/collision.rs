use mold2d::collision::rect_contains_rect;
use mold2d::BoundingBox;
use mold2d::Collision;
use mold2d::CollisionSide;
use mold2d::PositionChange;
use mold2d::Rect;
use mold2d::SpriteRectangle;

#[test]
fn test_collision_reverse() {
    let side = 0b1111;
    assert_eq!(CollisionSide::reverse_u8(side), 0b1111);

    let side = 0b1110;
    assert_eq!(CollisionSide::reverse_u8(side), 0b1101);

    let side = 0b0111;
    assert_eq!(CollisionSide::reverse_u8(side), 0b1011);

    let side = 0b0110;
    assert_eq!(CollisionSide::reverse_u8(side), 0b1001);

    let side = 0b0000;
    assert_eq!(CollisionSide::reverse_u8(side), 0b0000);
}

#[test]
fn collision_test_collision_reverse() {
    let side = 0b1111;
    assert_eq!(CollisionSide::reverse_u8(side), 0b1111);

    let side = 0b1110;
    assert_eq!(CollisionSide::reverse_u8(side), 0b1101);

    let side = 0b0111;
    assert_eq!(CollisionSide::reverse_u8(side), 0b1011);

    let side = 0b0110;
    assert_eq!(CollisionSide::reverse_u8(side), 0b1001);

    let side = 0b0000;
    assert_eq!(CollisionSide::reverse_u8(side), 0b0000);
}

#[test]
fn test_left_right_rect_collision() {
    let left_rect = Rect::new(-10, 0, 20, 20);
    let right_rect = Rect::new(0, 0, 20, 20);

    assert_eq!(
        left_rect.collides_with(&right_rect),
        Some(CollisionSide::Right)
    );
    assert_eq!(
        right_rect.collides_with(&left_rect),
        Some(CollisionSide::Left)
    );
}

#[test]
fn collision_test_left_right_rect_collision() {
    let left_rect = Rect::new(-10, 0, 20, 20);
    let right_rect = Rect::new(0, 0, 20, 20);

    assert_eq!(
        left_rect.collides_with(&right_rect),
        Some(CollisionSide::Right)
    );
    assert_eq!(
        right_rect.collides_with(&left_rect),
        Some(CollisionSide::Left)
    );
}

#[test]
fn test_up_down_rect_collision() {
    let up_rect = Rect::new(0, -20, 20, 20);
    let down_rect = Rect::new(0, 0, 20, 20);

    assert_eq!(
        up_rect.collides_with(&down_rect),
        Some(CollisionSide::Bottom)
    );
    assert_eq!(down_rect.collides_with(&up_rect), Some(CollisionSide::Top));
}

#[test]
fn collision_test_up_down_rect_collision() {
    let up_rect = Rect::new(0, -20, 20, 20);
    let down_rect = Rect::new(0, 0, 20, 20);

    assert_eq!(
        up_rect.collides_with(&down_rect),
        Some(CollisionSide::Bottom)
    );
    assert_eq!(down_rect.collides_with(&up_rect), Some(CollisionSide::Top));
}

#[test]
fn test_no_collision_when_apart() {
    let a = Rect::new(0, 0, 10, 10);
    let b = Rect::new(100, 100, 10, 10);
    assert_eq!(a.collides_with(&b), None);
    assert_eq!(b.collides_with(&a), None);
}

#[test]
fn test_touching_counts_as_overlap() {
    // Two squares sharing an edge overlap per the classifier.
    let a = Rect::new(0, 0, 10, 10);
    let b = Rect::new(10, 0, 10, 10);
    assert!(a.collides_with(&b).is_some());
}

#[test]
fn test_collision_symmetry_scenario() {
    // Classifying the pair and reversing must agree away from the
    // diagonal ties.
    let a = Rect::new(-10, 0, 20, 20);
    let b = Rect::new(0, 0, 20, 20);
    let ab = a.collides_with(&b).unwrap();
    let ba = b.collides_with(&a).unwrap();
    assert_eq!(CollisionSide::reverse(ab), ba.as_u8());
}

#[test]
fn test_reverse_involution_all_masks() {
    for side in 0u8..16u8 {
        assert_eq!(CollisionSide::reverse_u8(CollisionSide::reverse_u8(side)), side);
    }
    // A pure single-axis flag keeps the other axis at zero.
    assert_eq!(CollisionSide::reverse_u8(0b0010) & 0b1100, 0);
    assert_eq!(CollisionSide::reverse_u8(0b0001) & 0b1100, 0);
    assert_eq!(CollisionSide::reverse_u8(0b1000) & 0b0011, 0);
    assert_eq!(CollisionSide::reverse_u8(0b0100) & 0b0011, 0);
}

#[test]
fn test_reverse_single_sides() {
    assert_eq!(CollisionSide::reverse(CollisionSide::Left), 0b0100);
    assert_eq!(CollisionSide::reverse(CollisionSide::Right), 0b1000);
    assert_eq!(CollisionSide::reverse(CollisionSide::Top), 0b0001);
    assert_eq!(CollisionSide::reverse(CollisionSide::Bottom), 0b0010);
}

#[test]
fn test_rect_contains_rect() {
    let parent = Rect::new(0, 0, 100, 100);
    assert!(rect_contains_rect(parent, Rect::new(10, 10, 20, 20)));
    assert!(rect_contains_rect(parent, Rect::new(0, 0, 100, 100)));
    assert!(!rect_contains_rect(parent, Rect::new(90, 90, 20, 20)));
    assert!(!rect_contains_rect(parent, Rect::new(-1, 0, 10, 10)));
}

#[test]
fn test_bounding_box_apply_change() {
    let mut bbox = BoundingBox::Rectangle(SpriteRectangle::new(5, 6, 10, 20));
    let change = PositionChange::new().right(3).down(4);
    bbox.apply_change(&change);
    let BoundingBox::Rectangle(rect) = bbox;
    assert_eq!((rect.x, rect.y, rect.w, rect.h), (8, 10, 10, 20));
}

#[test]
fn test_sprite_rectangle_collision() {
    let a = SpriteRectangle::new(-10, 0, 20, 20);
    let b = SpriteRectangle::new(0, 0, 20, 20);
    assert_eq!(a.collides_with(&b), Some(CollisionSide::Right));
}

#[test]
fn test_sprite_rectangle_apply_change() {
    let mut rect = SpriteRectangle::new(0, 0, 10, 10);
    rect.apply_change(&PositionChange { x: 2, y: -3, w: 4, h: -5 });
    assert_eq!((rect.x, rect.y, rect.w, rect.h), (2, -3, 14, 5));
}
