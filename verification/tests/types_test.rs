use rcarve::{CurveId, CutSide, GCode, Operation, OperationTarget, Scalar, Tool, ToolType, Toolpath};

fn s(value: f64) -> Scalar {
    Scalar::from_bits(value.to_bits())
}

fn f(value: Scalar) -> f64 {
    f64::from_bits(value.to_bits())
}

#[test]
fn test_tool_construction() {
    let tool = Tool {
        name: "6mm Endmill".to_string(),
        diameter: s(6.0),
        stepover: s(0.4),
        pass_depth: s(5.0),
        tool_type: ToolType::Endmill { diameter: s(6.0) },
    };
    assert_eq!(f(tool.diameter), 6.0);
}

#[test]
fn test_operation_construction() {
    let curve_id = CurveId::new();
    let op = Operation::Profile {
        target_depth: s(5.0),
        cut_side: CutSide::Outside,
        tool_index: 0,
        targets: OperationTarget::Curves(vec![curve_id]),
    };
    match op {
        Operation::Profile { target_depth, .. } => {
            assert_eq!(f(target_depth), 5.0);
        }
        _ => panic!("Expected Profile operation"),
    }
}

#[test]
fn test_toolpath_construction() {
    let toolpath = Toolpath {
        paths: vec![vec![(s(0.0), s(0.0), s(-5.0)), (s(100.0), s(0.0), s(-5.0))]],
    };
    assert_eq!(toolpath.paths.len(), 1);
    assert_eq!(toolpath.paths[0].len(), 2);
}

#[test]
fn test_gcode_construction() {
    let gcode = GCode {
        lines: vec!["G90".to_string(), "G21".to_string()],
    };
    assert_eq!(gcode.lines.len(), 2);
    assert_eq!(gcode.lines[0], "G90");
}

#[test]
fn tool_validity_follows_the_ranges() {
    let mut tool = Tool {
        name: "V".to_string(),
        diameter: s(0.0),
        stepover: s(0.4),
        pass_depth: s(1.0),
        tool_type: ToolType::VBit { angle_degrees: s(60.0) },
    };
    assert!(tool.is_valid());
    tool.stepover = s(1.0);
    assert!(tool.is_valid());
    tool.stepover = s(1.0000001);
    assert!(!tool.is_valid());
    tool.stepover = s(0.0);
    assert!(!tool.is_valid());
    tool.stepover = s(0.5);
    tool.pass_depth = s(0.0);
    assert!(!tool.is_valid());
    tool.pass_depth = s(2.0);
    tool.tool_type = ToolType::VBit { angle_degrees: s(180.0) };
    assert!(!tool.is_valid());
    tool.tool_type = ToolType::VBit { angle_degrees: s(179.9) };
    assert!(tool.is_valid());
    tool.tool_type = ToolType::VBit { angle_degrees: s(0.0) };
    assert!(!tool.is_valid());
    tool.tool_type = ToolType::Ballnose { diameter: s(3.0) };
    assert!(tool.is_valid());
}

#[test]
fn operation_validity_follows_the_depths() {
    let target = || OperationTarget::Curves(vec![]);
    let profile = |depth: f64| Operation::Profile {
        target_depth: s(depth),
        cut_side: CutSide::OnLine,
        tool_index: 0,
        targets: target(),
    };
    assert!(profile(0.1).is_valid());
    assert!(!profile(0.0).is_valid());
    assert!(!profile(-1.0).is_valid());
    assert!(!profile(f64::NAN).is_valid());
    assert!(Operation::Pocket { target_depth: s(2.0), tool_index: 0, target: target() }.is_valid());
    assert!(!Operation::Pocket { target_depth: s(-2.0), tool_index: 0, target: target() }.is_valid());
    let carve = |depth: Option<f64>| Operation::VCarve {
        target_depth: depth.map(s),
        tool_index: 1,
        targets: target(),
        clearance_tool_index: None,
    };
    assert!(carve(None).is_valid());
    assert!(carve(Some(3.0)).is_valid());
    assert!(!carve(Some(0.0)).is_valid());
    assert_eq!(carve(None).tool_index(), 1);
    assert!(matches!(carve(None).target(), OperationTarget::Curves(c) if c.is_empty()));
}
