use fprint_prompt::geometry::{Anchor, PositionInfo};

fn bar(edge: Anchor, close_to: Anchor) -> PositionInfo {
    PositionInfo::new(8, 138, edge, close_to, 100).expect("a bar that can be placed")
}

#[test]
fn top_edge_is_long_and_thin() {
    let pos = bar(Anchor::Top, Anchor::Left);
    assert_eq!(pos.win_width(), 238);
    assert_eq!(pos.win_height(), 8);
    assert_eq!(pos.size(), (238, 8));
}

#[test]
fn bottom_edge_is_long_and_thin() {
    let pos = bar(Anchor::Bottom, Anchor::Right);
    assert_eq!(pos.win_width(), 238);
    assert_eq!(pos.win_height(), 8);
}

#[test]
fn left_edge_is_thin_and_tall() {
    let pos = bar(Anchor::Left, Anchor::Top);
    assert_eq!(pos.win_width(), 8);
    assert_eq!(pos.win_height(), 238);
}

#[test]
fn right_edge_is_thin_and_tall() {
    let pos = bar(Anchor::Right, Anchor::Top);
    assert_eq!(pos.win_width(), 8);
    assert_eq!(pos.win_height(), 238);
    assert_eq!(pos.size(), (8, 238));
}

#[test]
fn size_follows_the_edge_for_every_edge() {
    for edge in [Anchor::Top, Anchor::Bottom, Anchor::Left, Anchor::Right] {
        let pos = PositionInfo::new(3, 40, edge, edge, 2).unwrap();
        if edge.is_horizontal() {
            assert_eq!(pos.size(), (42, 3));
        } else {
            assert_eq!(pos.size(), (3, 42));
        }
    }
}

#[test]
fn fields_are_kept_as_given() {
    let pos = bar(Anchor::Right, Anchor::Top);
    assert_eq!(pos.thickness(), 8);
    assert_eq!(pos.length(), 138);
    assert_eq!(pos.edge(), Anchor::Right);
    assert_eq!(pos.close_to(), Anchor::Top);
    assert_eq!(pos.offset(), 100);
}

#[test]
fn opposite_edges_do_not_combine() {
    assert_eq!(PositionInfo::new(8, 138, Anchor::Top, Anchor::Bottom, 100), None);
    assert_eq!(PositionInfo::new(8, 138, Anchor::Bottom, Anchor::Top, 100), None);
    assert_eq!(PositionInfo::new(8, 138, Anchor::Left, Anchor::Right, 100), None);
    assert_eq!(PositionInfo::new(8, 138, Anchor::Right, Anchor::Left, 100), None);
}

#[test]
fn an_edge_combines_with_itself_and_with_its_neighbours() {
    for edge in [Anchor::Top, Anchor::Bottom, Anchor::Left, Anchor::Right] {
        for close_to in [Anchor::Top, Anchor::Bottom, Anchor::Left, Anchor::Right] {
            let made = PositionInfo::new(1, 1, edge, close_to, 1);
            assert_eq!(made.is_some(), close_to != edge.opposite());
        }
    }
}

#[test]
fn long_side_must_fit() {
    assert_eq!(PositionInfo::new(8, u32::MAX, Anchor::Top, Anchor::Left, 1), None);
    assert_eq!(PositionInfo::new(8, 1, Anchor::Left, Anchor::Top, u32::MAX), None);
    let widest = PositionInfo::new(8, u32::MAX, Anchor::Top, Anchor::Left, 0).unwrap();
    assert_eq!(widest.win_width(), u32::MAX);
    let split = PositionInfo::new(8, u32::MAX - 7, Anchor::Left, Anchor::Top, 7).unwrap();
    assert_eq!(split.win_height(), u32::MAX);
}

#[test]
fn empty_bar_has_no_extent() {
    let pos = PositionInfo::new(0, 0, Anchor::Top, Anchor::Left, 0).unwrap();
    assert_eq!(pos.size(), (0, 0));
}

#[test]
fn opposite_goes_across() {
    assert_eq!(Anchor::Top.opposite(), Anchor::Bottom);
    assert_eq!(Anchor::Bottom.opposite(), Anchor::Top);
    assert_eq!(Anchor::Left.opposite(), Anchor::Right);
    assert_eq!(Anchor::Right.opposite(), Anchor::Left);
}

#[test]
fn top_and_bottom_are_horizontal() {
    assert!(Anchor::Top.is_horizontal());
    assert!(Anchor::Bottom.is_horizontal());
    assert!(!Anchor::Left.is_horizontal());
    assert!(!Anchor::Right.is_horizontal());
}
