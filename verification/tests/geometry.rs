use event_manager::geometry::{Rect, TreeGeometry};

#[test]
fn both_rectangle_edges_are_inclusive() {
    let rect = Rect::new(10, 20, 110, 120);
    assert!(rect.contains_point((10, 20)));
    assert!(rect.contains_point((110, 120)));
    assert!(rect.contains_point((10, 120)));
    assert!(rect.contains_point((110, 20)));
    assert!(rect.contains_point((60, 70)));
}

#[test]
fn points_beyond_either_edge_are_outside() {
    let rect = Rect::new(10, 20, 110, 120);
    assert!(!rect.contains_point((9, 70)));
    assert!(!rect.contains_point((111, 70)));
    assert!(!rect.contains_point((60, 19)));
    assert!(!rect.contains_point((60, 121)));
    assert!(!rect.contains_point((0, 0)));
}

#[test]
fn degenerate_rectangle_contains_its_single_point() {
    let rect = Rect::new(5, 5, 5, 5);
    assert!(rect.contains_point((5, 5)));
    assert!(!rect.contains_point((4, 5)));
    assert!(!rect.contains_point((6, 5)));
}

#[test]
fn offset_is_relative_to_the_rectangle_origin() {
    let rect = Rect::new(10, 20, 110, 120);
    assert_eq!(rect.offset_from_page((10, 20)), (0, 0));
    assert_eq!(rect.offset_from_page((60, 70)), (50, 50));
    assert_eq!(rect.offset_from_page((110, 120)), (100, 100));
}

#[test]
fn client_is_relative_to_the_viewport_origin() {
    let tree = TreeGeometry::new(15, 25);
    assert_eq!(tree.client_from_page((15, 25)), (0, 0));
    assert_eq!(tree.client_from_page((115, 75)), (100, 50));
}

#[test]
fn client_clamps_at_the_viewport_origin() {
    let tree = TreeGeometry::new(15, 25);
    assert_eq!(tree.client_from_page((5, 75)), (0, 50));
    assert_eq!(tree.client_from_page((115, 5)), (100, 0));
    assert_eq!(tree.client_from_page((0, 0)), (0, 0));
}

#[test]
fn rectangle_lookup_finds_the_first_record() {
    let mut tree = TreeGeometry::new(0, 0);
    tree.push_node(1, Rect::new(0, 0, 100, 100));
    tree.push_node(2, Rect::new(50, 50, 150, 150));
    tree.push_node(1, Rect::new(10, 10, 20, 20));
    assert_eq!(tree.get_bounding_rectangle(1), Some(Rect::new(0, 0, 100, 100)));
    assert_eq!(tree.get_bounding_rectangle(2), Some(Rect::new(50, 50, 150, 150)));
}

#[test]
fn rectangle_lookup_answers_none_for_an_unknown_node() {
    let mut tree = TreeGeometry::new(0, 0);
    tree.push_node(1, Rect::new(0, 0, 100, 100));
    assert_eq!(tree.get_bounding_rectangle(9), None);
    let empty = TreeGeometry::new(0, 0);
    assert_eq!(empty.get_bounding_rectangle(1), None);
}
