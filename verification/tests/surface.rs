use webhost::surface::{PixelRatio, RATIO_UNIT, SURFACE_TAB_INDEX};

#[test]
fn unit_ratio_keeps_the_extent() {
    assert_eq!(RATIO_UNIT, 1_000_000);
    assert_eq!(SURFACE_TAB_INDEX, 1);
    assert_eq!(PixelRatio::one(), PixelRatio { millionths: 1_000_000 });
    assert_eq!(PixelRatio::one().scale(800), Some(800));
    assert_eq!(PixelRatio::one().scale(0), Some(0));
    assert_eq!(PixelRatio::one().scale(u32::MAX), Some(u32::MAX));
}

#[test]
fn whole_ratio_multiplies() {
    let double = PixelRatio { millionths: 2_000_000 };
    assert_eq!(double.scale(800), Some(1600));
    assert_eq!(double.scale(600), Some(1200));
}

#[test]
fn fractional_ratio_rounds_to_nearest() {
    let ratio = PixelRatio { millionths: 1_500_000 };
    assert_eq!(ratio.scale(800), Some(1200));
    assert_eq!(ratio.scale(3), Some(5));
    assert_eq!(ratio.scale(1), Some(2));
    let third = PixelRatio { millionths: 1_333_333 };
    assert_eq!(third.scale(800), Some(1067));
    assert_eq!(third.scale(1), Some(1));
    let small = PixelRatio { millionths: 499_999 };
    assert_eq!(small.scale(1), Some(0));
    let half = PixelRatio { millionths: 500_000 };
    assert_eq!(half.scale(1), Some(1));
    assert_eq!(half.scale(2), Some(1));
    assert_eq!(half.scale(3), Some(2));
    assert_eq!(PixelRatio { millionths: 0 }.scale(12345), Some(0));
}

#[test]
fn scale_reports_what_does_not_fit() {
    let double = PixelRatio { millionths: 2_000_000 };
    assert_eq!(double.scale(u32::MAX), None);
    assert_eq!(double.scale(2_147_483_647), Some(4_294_967_294));
    assert_eq!(double.scale(2_147_483_648), None);
    let largest = PixelRatio { millionths: u32::MAX };
    assert_eq!(largest.scale(u32::MAX), None);
    assert_eq!(largest.scale(1_000_000), Some(u32::MAX));
    assert_eq!(largest.scale(1_000_001), None);
}
