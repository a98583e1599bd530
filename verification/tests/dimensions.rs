use miy::dimensions::{ScreenDimensions, ScreenWidth};

#[test]
fn dimension_invariants() {
    let screen_dimensions = ScreenDimensions::new(0, 1);
    assert_eq!(screen_dimensions, None);

    let screen_dimensions = ScreenDimensions::new(1, 0);
    assert_eq!(screen_dimensions, None);

    let screen_dimensions = ScreenDimensions::new(1, 2).unwrap();
    assert_eq!(screen_dimensions.width().get(), 1);
    assert_eq!(screen_dimensions.height().get(), 2);
}

#[test]
fn dimension_rejects_zero_only() {
    assert!(ScreenWidth::new(0).is_none());
    assert_eq!(ScreenWidth::new(1).unwrap().get(), 1);
    assert_eq!(ScreenWidth::new(u32::MAX).unwrap().get(), u32::MAX);
}
