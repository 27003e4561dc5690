use clipper2::{Centi, EndType, FillRule, JoinType, Paths};
use kurbo::{ParamCurve, ParamCurveArclen, Shape};
use rcarve::pocket::layer_is_empty;
use rcarve::profile::{has_three_distinct, profile_offset_delta};
use rcarve::toolpath_generation::FLATTEN_TOLERANCE_BITS;
use rcarve::{
    build_artifact, generate_pocket_toolpath, generate_profile_toolpath,
    generate_toolpaths_for_operations, plan_operation, post_process_grbl, prepare_operation,
    BezPath, Circle, Curve, CutSide, FlattenRequest, GenerationResult, GeneratorJob, Operation,
    OperationTarget, PathEl, Point, Project, Region, Scalar, StockSpec, Tool, ToolLibrary, ToolType,
    ToolpathStatus,
};

type Loop = Vec<(f64, f64)>;

fn s(value: f64) -> Scalar {
    Scalar::from_bits(value.to_bits())
}

fn f(value: Scalar) -> f64 {
    f64::from_bits(value.to_bits())
}

fn kpoint(p: Point) -> kurbo::Point {
    kurbo::Point::new(f(p.x), f(p.y))
}

fn kpath(path: &BezPath) -> kurbo::BezPath {
    let elements = path
        .elements()
        .iter()
        .map(|el| match *el {
            PathEl::MoveTo(p) => kurbo::PathEl::MoveTo(kpoint(p)),
            PathEl::LineTo(p) => kurbo::PathEl::LineTo(kpoint(p)),
            PathEl::QuadTo(a, b) => kurbo::PathEl::QuadTo(kpoint(a), kpoint(b)),
            PathEl::CurveTo(a, b, c) => kurbo::PathEl::CurveTo(kpoint(a), kpoint(b), kpoint(c)),
            PathEl::ClosePath => kurbo::PathEl::ClosePath,
        })
        .collect();
    kurbo::BezPath::from_vec(elements)
}

fn flatten(curve: &Curve, tolerance: f64) -> Loop {
    if let Some(points) = curve.flatten(s(tolerance)) {
        return points.iter().map(|p| (f(p.0), f(p.1))).collect();
    }
    let mut points = Vec::new();
    match curve {
        Curve::Circle(circle) => {
            let radius = f(circle.radius);
            let segments = (2.0 * std::f64::consts::PI * radius / tolerance).ceil().max(4.0) as usize;
            for i in 0..=segments {
                let angle = 2.0 * std::f64::consts::PI * i as f64 / segments as f64;
                points.push((f(circle.center.x) + radius * angle.cos(), f(circle.center.y) + radius * angle.sin()));
            }
        }
        Curve::BezPath(bez) => {
            for segment in kpath(bez).path_segments(tolerance) {
                let samples = (segment.arclen(tolerance) / tolerance).ceil().max(2.0) as usize;
                for i in 0..=samples {
                    let p = segment.eval(i as f64 / samples as f64);
                    points.push((p.x, p.y));
                }
            }
        }
        Curve::Line(_) => {}
    }
    points
}

fn inflate(loops: Vec<Loop>, delta: f64) -> Vec<Loop> {
    let paths: Paths<Centi> = loops.into();
    clipper2::inflate(paths, delta, JoinType::Round, EndType::Polygon, 2.0).into()
}

fn scalars(loops: &[Loop]) -> Vec<Vec<(Scalar, Scalar)>> {
    loops.iter().map(|l| l.iter().map(|p| (s(p.0), s(p.1))).collect()).collect()
}

fn floats(points: &[(Scalar, Scalar)]) -> Loop {
    points.iter().map(|p| (f(p.0), f(p.1))).collect()
}

fn flatten_all(project: &Project, requests: &[FlattenRequest]) -> Vec<Vec<(Scalar, Scalar)>> {
    let tolerance = f(Scalar::from_bits(FLATTEN_TOLERANCE_BITS));
    let lines: Vec<Loop> = requests
        .iter()
        .map(|request| {
            assert!(request.transform.is_none());
            flatten(project.shapes.get_curve(&request.curve_id).unwrap(), tolerance)
        })
        .collect();
    scalars(&lines)
}

fn generate_one(project: &Project, tools: &ToolLibrary, index: usize) -> GenerationResult {
    let requests = plan_operation(project, tools, index)?;
    let flattened = flatten_all(project, &requests);
    match prepare_operation(project, tools, index, &flattened)? {
        GeneratorJob::Profile { tool_index, cut_side, target_depth, polygon } => {
            let tool = tools.get(tool_index).unwrap();
            let delta = f(profile_offset_delta(&cut_side, s(f(tool.diameter) / 2.0)));
            let offset = if has_three_distinct(&polygon) {
                inflate(vec![floats(&polygon)], delta)
            } else {
                Vec::new()
            };
            let toolpath = generate_profile_toolpath(&polygon, &scalars(&offset), target_depth)?;
            Ok(build_artifact(index, tool_index, toolpath, None, Vec::new()))
        }
        GeneratorJob::Pocket { tool_index, target_depth, outer, holes } => {
            let tool = tools.get(tool_index).unwrap();
            let step = f(tool.diameter) * f(tool.stepover);
            let mut region = vec![floats(&outer)];
            if !holes.is_empty() {
                let subject: Paths<Centi> = region.into();
                let clip: Paths<Centi> = holes.iter().map(|h| floats(h)).collect::<Vec<_>>().into();
                region = clipper2::difference(subject, clip, FillRule::default()).unwrap().into();
            }
            let mut layers = Vec::new();
            let mut current = region.clone();
            while !current.is_empty() {
                let next = inflate(current, -step);
                let layer = scalars(&next);
                let done = layer_is_empty(&layer);
                layers.push(layer);
                if done {
                    break;
                }
                current = next;
            }
            let toolpath = generate_pocket_toolpath(&scalars(&region), &layers, target_depth)?;
            Ok(build_artifact(index, tool_index, toolpath, None, Vec::new()))
        }
        GeneratorJob::VCarve { .. } => unreachable!("no carving is prepared here"),
    }
}

fn square_path() -> BezPath {
    let mut path = BezPath::new();
    path.move_to(Point::new(s(0.0), s(0.0)));
    path.line_to(Point::new(s(100.0), s(0.0)));
    path.line_to(Point::new(s(100.0), s(100.0)));
    path.line_to(Point::new(s(0.0), s(100.0)));
    path.close_path();
    path
}

#[test]
fn a_project_is_generated_operation_by_operation() {
    let mut project = Project::new("Pipeline".to_string(), StockSpec::new(s(200.0), s(200.0), s(10.0)));
    let square = project.shapes.create_bezpath(square_path());
    let outer = project.shapes.add_curve(Curve::Circle(Circle::new(Point::new(s(50.0), s(50.0)), s(20.0))));
    let hole = project.shapes.create_circle((s(50.0), s(50.0)), s(5.0));
    let gone = project.shapes.create_line((s(0.0), s(0.0)), (s(1.0), s(1.0)));
    let region = project.shapes.add_region(Region::with_holes(outer, vec![hole]));
    project.shapes.remove_curve(&gone);

    let mut tools = ToolLibrary::new();
    tools.add_tool(Tool {
        name: "6mm Endmill".to_string(),
        diameter: s(6.0),
        stepover: s(0.4),
        pass_depth: s(5.0),
        tool_type: ToolType::Endmill { diameter: s(6.0) },
    });

    project.add_operation(Operation::Profile {
        target_depth: s(5.0),
        cut_side: CutSide::Outside,
        tool_index: 0,
        targets: OperationTarget::Curves(vec![square]),
    });
    project.add_operation(Operation::VCarve {
        target_depth: None,
        tool_index: 0,
        targets: OperationTarget::Curves(vec![square]),
        clearance_tool_index: None,
    });
    project.add_operation(Operation::Pocket {
        target_depth: s(2.0),
        tool_index: 0,
        target: OperationTarget::Region(region),
    });
    project.add_operation(Operation::Profile {
        target_depth: s(5.0),
        cut_side: CutSide::Inside,
        tool_index: 0,
        targets: OperationTarget::Curves(vec![gone]),
    });

    let results: Vec<GenerationResult> =
        (0..project.operations.len()).map(|index| generate_one(&project, &tools, index)).collect();
    let reports = generate_toolpaths_for_operations(&mut project, results);
    assert_eq!(reports.len(), 4);

    assert!(matches!(reports[0].status, ToolpathStatus::Ready { warning_count: 0, .. }));
    let profile = project.toolpath_for_operation(0).unwrap();
    assert!(profile.is_valid);
    let text = post_process_grbl(&profile.toolpath).lines.join("\n");
    assert!(text.contains("X103.0000") && text.contains("X-3.0000"));
    assert!(text.contains("G1 Z-5.0000 F100"));

    // A carving with an end mill fails, and the operation stays dirty.
    assert!(matches!(reports[1].status, ToolpathStatus::Dirty));
    assert!(reports[1].error.as_ref().unwrap().contains("V-bit"));
    assert!(project.operation_states[1].dirty);
    assert!(project.toolpath_for_operation(1).is_none());

    assert!(matches!(reports[2].status, ToolpathStatus::Ready { .. }));
    let pocket = project.toolpath_for_operation(2).unwrap();
    assert!(pocket.toolpath.paths.len() >= 2);
    for path in &pocket.toolpath.paths {
        for point in path {
            assert_eq!(f(point.2), -2.0);
            let distance = ((f(point.0) - 50.0).powi(2) + (f(point.1) - 50.0).powi(2)).sqrt();
            assert!(distance > 5.0 && distance < 20.0, "distance {}", distance);
        }
        assert_eq!(path[0].0.to_bits(), path[path.len() - 1].0.to_bits());
        assert_eq!(path[0].1.to_bits(), path[path.len() - 1].1.to_bits());
    }

    assert!(matches!(reports[3].status, ToolpathStatus::Dirty));
    assert!(reports[3].error.as_ref().unwrap().ends_with("not found"));
    assert!(reports[3].error.as_ref().unwrap().starts_with("Curve "));
    assert!(!project.operation_states[0].dirty && !project.operation_states[2].dirty);
    assert!(project.operation_states[3].dirty);
}
