use rcarve::decimal::{digits_of_u128, render_digits, u128_to_string, usize_to_string};
use rcarve::fixed::double_digits;
use rcarve::CamError;
use rcarve::{CurveId, RegionId};

#[test]
fn decimal_text_matches_std() {
    for n in [0u128, 1, 9, 10, 11, 99, 100, 101, 12345, 1_000_000, u64::MAX as u128, u128::MAX] {
        assert_eq!(u128_to_string(n), n.to_string());
    }
    for n in [0usize, 7, 42, usize::MAX] {
        assert_eq!(usize_to_string(n), n.to_string());
    }
}

#[test]
fn digits_are_least_significant_first() {
    assert_eq!(digits_of_u128(0), Vec::<u8>::new());
    assert_eq!(digits_of_u128(7), vec![7]);
    assert_eq!(digits_of_u128(1203), vec![3, 0, 2, 1]);
    assert_eq!(render_digits(&vec![3, 0, 2, 1]), "1203");
    assert_eq!(render_digits(&vec![]), "0");
}

#[test]
fn doubling_digits_doubles_the_number() {
    let mut digits = digits_of_u128(1);
    for _ in 0..200 {
        double_digits(&mut digits);
    }
    assert_eq!(render_digits(&digits), "1606938044258990275541962092341162602522202993782792835301376");
    let mut nines = digits_of_u128(999);
    double_digits(&mut nines);
    assert_eq!(nines, vec![8, 9, 9, 1]);
    let mut zero = digits_of_u128(0);
    double_digits(&mut zero);
    assert!(zero.is_empty());
}

#[test]
fn error_messages_carry_their_subject() {
    assert_eq!(CamError::InvalidOperationIndex(3).message(), "invalid operation index 3");
    assert_eq!(CamError::InvalidToolIndex(12).message(), "invalid tool index 12");
    assert_eq!(CamError::ToolNotFound(99).message(), "Tool #99 not found");
    assert_eq!(
        CamError::CurveNotFound(CurveId { value: 1 }).message(),
        "Curve 00000000000000000000000001 not found"
    );
    assert_eq!(
        CamError::CurveEmpty(CurveId { value: 32 }).message(),
        "Curve 00000000000000000000000010 produced no points"
    );
    assert_eq!(
        CamError::RegionNotFound(RegionId { value: 0 }).message(),
        "Region 00000000000000000000000000 not found"
    );
    assert_eq!(CamError::ProfileRequiresGeometry.message(), "Profile requires geometry");
    assert_eq!(
        CamError::PocketRequiresClosedCurve.message(),
        "Pocket requires at least one closed curve"
    );
    assert_eq!(
        CamError::VCarveRequiresPolygon.message(),
        "V-carve requires at least one closed polygon"
    );
    assert_eq!(CamError::VCarveRequiresVBit.message(), "V-carve requires a V-bit tool");
    assert_eq!(
        CamError::DegenerateLoop.message(),
        "Polygon loop must contain at least three points"
    );
    assert_eq!(
        CamError::NoSkeletonPaths.message(),
        "Straight skeleton produced no toolpaths. Ensure shapes are valid closed polygons."
    );
}
