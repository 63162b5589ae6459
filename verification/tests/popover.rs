use ui::popover::{resolved_corner, AnchorCorner};

#[test]
fn popover_hangs_on_the_far_corner_of_the_same_side() {
    assert_eq!(resolved_corner(AnchorCorner::TopLeft), AnchorCorner::BottomLeft);
    assert_eq!(resolved_corner(AnchorCorner::TopRight), AnchorCorner::BottomRight);
    assert_eq!(resolved_corner(AnchorCorner::BottomLeft), AnchorCorner::TopLeft);
    assert_eq!(resolved_corner(AnchorCorner::BottomRight), AnchorCorner::TopRight);
}

#[test]
fn resolving_twice_leads_back() {
    for anchor in [
        AnchorCorner::TopLeft,
        AnchorCorner::TopRight,
        AnchorCorner::BottomLeft,
        AnchorCorner::BottomRight,
    ] {
        assert_ne!(resolved_corner(anchor), anchor);
        assert_eq!(resolved_corner(resolved_corner(anchor)), anchor);
    }
}
