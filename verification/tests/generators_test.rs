use cavalier_contours::polyline::{PlineSource, PlineSourceMut, PlineVertex, Polyline};
use clipper2::{Centi, EndType, FillRule, JoinType, Paths};
use geo::algorithm::coords_iter::CoordsIter;
#[allow(deprecated)]
use geo::algorithm::euclidean_distance::EuclideanDistance;
use geo::{LineString, Point, Polygon};
use geo_buffer::skeleton_of_polygon_to_linestring;
use rcarve::pocket::layer_is_empty;
use rcarve::profile::{has_three_distinct, profile_offset_delta};
use rcarve::vcarve::vbit_angle;
use rcarve::{
    assemble_polygons, OffsetLoop,
    generate_clearance_toolpath, generate_pocket_toolpath, generate_profile_toolpath,
    generate_vcarve_toolpath, post_process_grbl, CamError, CarveMeasurements, CarvePolygon,
    CutSide, PocketLayers, Scalar, SkeletonVertex, Tool, ToolType, Toolpath,
};

type Loop = Vec<(f64, f64)>;

fn s(value: f64) -> Scalar {
    Scalar::from_bits(value.to_bits())
}

fn f(value: Scalar) -> f64 {
    f64::from_bits(value.to_bits())
}

fn to_scalars(points: &[(f64, f64)]) -> Vec<(Scalar, Scalar)> {
    points.iter().map(|p| (s(p.0), s(p.1))).collect()
}

fn to_scalar_loops(loops: &[Loop]) -> Vec<Vec<(Scalar, Scalar)>> {
    loops.iter().map(|l| to_scalars(l)).collect()
}

fn xyz(toolpath: &Toolpath) -> Vec<Vec<(f64, f64, f64)>> {
    toolpath
        .paths
        .iter()
        .map(|path| path.iter().map(|p| (f(p.0), f(p.1), f(p.2))).collect())
        .collect()
}

fn endmill() -> Tool {
    Tool {
        name: "6mm Endmill".to_string(),
        diameter: s(6.0),
        stepover: s(0.4),
        pass_depth: s(5.0),
        tool_type: ToolType::Endmill { diameter: s(6.0) },
    }
}

fn vbit(angle: f64) -> Tool {
    Tool {
        name: format!("{}deg V-bit", angle),
        diameter: s(0.0),
        stepover: s(0.0),
        pass_depth: s(0.0),
        tool_type: ToolType::VBit { angle_degrees: s(angle) },
    }
}

fn square(side: f64) -> Loop {
    vec![(0.0, 0.0), (side, 0.0), (side, side), (0.0, side), (0.0, 0.0)]
}

// The polygon kernel: offsetting with round joins and closed ends.
fn inflate(loops: Vec<Loop>, delta: f64) -> Vec<Loop> {
    let paths: Paths<Centi> = loops.into();
    clipper2::inflate(paths, delta, JoinType::Round, EndType::Polygon, 2.0).into()
}

// The polygon kernel: Boolean difference.
fn subtract(subject: Vec<Loop>, clip: Vec<Loop>) -> Vec<Loop> {
    let subject: Paths<Centi> = subject.into();
    let clip: Paths<Centi> = clip.into();
    clipper2::difference(subject, clip, FillRule::default())
        .expect("difference")
        .into()
}

fn profile(input: &[(f64, f64)], tool: &Tool, side: CutSide, depth: f64) -> Result<Toolpath, CamError> {
    let radius = f(tool.diameter) / 2.0;
    let delta = f(profile_offset_delta(&side, s(radius)));
    let offset = if has_three_distinct(&to_scalars(input)) {
        inflate(vec![input.to_vec()], delta)
    } else {
        Vec::new()
    };
    generate_profile_toolpath(&to_scalars(input), &to_scalar_loops(&offset), s(depth))
}

fn pocket_layers(outer: &[(f64, f64)], islands: &[Loop], tool: &Tool) -> PocketLayers {
    let step = f(tool.diameter) * f(tool.stepover);
    let mut region = vec![outer.to_vec()];
    if !islands.is_empty() {
        region = subtract(region, islands.to_vec());
    }
    let mut layers = Vec::new();
    let mut current = region.clone();
    while !current.is_empty() {
        let next = inflate(current, -step);
        let scalars = to_scalar_loops(&next);
        let done = layer_is_empty(&scalars);
        layers.push(scalars);
        if done {
            break;
        }
        current = next;
    }
    PocketLayers { region: to_scalar_loops(&region), layers }
}

fn pocket(outer: &[(f64, f64)], islands: &[Loop], tool: &Tool, depth: f64) -> Result<Toolpath, CamError> {
    let layers = pocket_layers(outer, islands, tool);
    generate_pocket_toolpath(&layers.region, &layers.layers, s(depth))
}

// The polyline kernel: parallel offset of polygons with holes.
fn create_polyline(points: &[(f64, f64)]) -> Polyline {
    let mut pline = Polyline::new();
    if points.is_empty() {
        return pline;
    }
    let mut effective = points.to_vec();
    if effective.len() > 1 {
        let first = effective[0];
        let last = effective[effective.len() - 1];
        if (first.0 - last.0).abs() < 1e-9 && (first.1 - last.1).abs() < 1e-9 {
            effective.pop();
        }
    }
    let mut clean: Vec<(f64, f64)> = Vec::new();
    for point in effective {
        match clean.last() {
            Some(prev) if !((prev.0 - point.0).abs() > 1e-9 || (prev.1 - point.1).abs() > 1e-9) => {}
            _ => clean.push(point),
        }
    }
    for (x, y) in clean {
        pline.add_vertex(PlineVertex::new(x, y, 0.0));
    }
    pline.set_is_closed(true);
    pline
}

fn tessellate_arc(x1: f64, y1: f64, x2: f64, y2: f64, bulge: f64) -> Vec<(f64, f64)> {
    let dx = x2 - x1;
    let dy = y2 - y1;
    let chord = (dx * dx + dy * dy).sqrt();
    if chord < 1e-6 {
        return vec![];
    }
    let sagitta = bulge * (chord / 2.0);
    let len = (dx * dx + dy * dy).sqrt();
    vec![((x1 + x2) / 2.0 + -dy / len * sagitta, (y1 + y2) / 2.0 + dx / len * sagitta)]
}

fn extract_points(pline: &Polyline) -> Loop {
    let has_arcs = pline.iter_vertexes().any(|v| v.bulge.abs() > 1e-6);
    if !has_arcs {
        return pline.iter_vertexes().map(|v| (v.x, v.y)).collect();
    }
    let mut points = Vec::new();
    let count = pline.vertex_count();
    for i in 0..count {
        let v = pline.at(i);
        points.push((v.x, v.y));
        if !pline.is_closed() && i == count - 1 {
            break;
        }
        let next = pline.at((i + 1) % count);
        if v.bulge.abs() > 1e-6 {
            points.extend(tessellate_arc(v.x, v.y, next.x, next.y, v.bulge));
        }
    }
    points
}

fn is_point_inside(point: &(f64, f64), polygon: &[(f64, f64)]) -> bool {
    let (x, y) = *point;
    let mut inside = false;
    let mut j = polygon.len() - 1;
    for i in 0..polygon.len() {
        let (xi, yi) = polygon[i];
        let (xj, yj) = polygon[j];
        if ((yi > y) != (yj > y)) && (x < (xj - xi) * (y - yi) / (yj - yi) + xi) {
            inside = !inside;
        }
        j = i;
    }
    inside
}

fn offset_polygon(polygons: &[(Loop, Vec<Loop>)], delta: f64) -> Vec<(Loop, Vec<Loop>)> {
    let mut result = Vec::new();
    for (outer, holes) in polygons {
        let mut plines = Vec::new();
        if !outer.is_empty() {
            let mut pline = create_polyline(outer);
            if pline.area() < 0.0 {
                pline.invert_direction_mut();
            }
            plines.push(pline);
        }
        for hole in holes {
            if !hole.is_empty() {
                let mut pline = create_polyline(hole);
                if pline.area() > 0.0 {
                    pline.invert_direction_mut();
                }
                plines.push(pline);
            }
        }
        let mut loops = Vec::new();
        for pline in plines {
            for offset in pline.parallel_offset(delta) {
                loops.push((extract_points(&offset), offset.area()));
            }
        }
        let inside: Vec<Vec<bool>> = loops
            .iter()
            .map(|(hole, _)| {
                loops
                    .iter()
                    .map(|(outer, _)| !hole.is_empty() && is_point_inside(&hole[0], outer))
                    .collect()
            })
            .collect();
        let loops: Vec<OffsetLoop> = loops
            .iter()
            .map(|(points, area)| OffsetLoop { points: to_scalars(points), area: s(*area) })
            .collect();
        for polygon in assemble_polygons(&loops, &inside) {
            result.push((
                polygon.outer.iter().map(|p| (f(p.0), f(p.1))).collect(),
                polygon.holes.iter().map(|h| h.iter().map(|p| (f(p.0), f(p.1))).collect()).collect(),
            ));
        }
    }
    result
}

// The boundary of a polygon without the vertices that lie on a straight
// line between their neighbours.
fn are_collinear(p1: (f64, f64), p2: (f64, f64), p3: (f64, f64)) -> bool {
    let area = (p1.0 * (p2.1 - p3.1) + p2.0 * (p3.1 - p1.1) + p3.0 * (p1.1 - p2.1)).abs() * 0.5;
    if area > 0.001 {
        return false;
    }
    (p2.0 - p1.0) * (p3.0 - p2.0) + (p2.1 - p1.1) * (p3.1 - p2.1) > 0.0
}

fn simplify_ring(points: &[(f64, f64)]) -> Loop {
    if points.len() < 3 {
        return points.to_vec();
    }
    let near = |a: (f64, f64), b: (f64, f64)| {
        (a.0 - b.0).abs() < f64::EPSILON && (a.1 - b.1).abs() < f64::EPSILON
    };
    let mut simplified = vec![points[0]];
    for &point in &points[1..] {
        simplified.push(point);
        while simplified.len() >= 3 {
            let n = simplified.len();
            if are_collinear(simplified[n - 3], simplified[n - 2], simplified[n - 1]) {
                simplified.remove(n - 2);
            } else {
                break;
            }
        }
    }
    if simplified.len() >= 3 && near(simplified[simplified.len() - 1], simplified[0]) {
        simplified.pop();
    }
    if simplified.len() >= 3
        && are_collinear(simplified[simplified.len() - 1], simplified[0], simplified[1])
    {
        simplified.remove(0);
    }
    if near(points[0], points[points.len() - 1]) {
        if let (Some(&first), Some(&last)) = (simplified.first(), simplified.last()) {
            if (first.0 - last.0).abs() > f64::EPSILON || (first.1 - last.1).abs() > f64::EPSILON {
                simplified.push(first);
            }
        }
    }
    simplified
}

fn ring(points: &[(f64, f64)]) -> LineString<f64> {
    let mut coords = points.to_vec();
    if coords.first() != coords.last() {
        coords.push(coords[0]);
    }
    LineString::from(coords)
}

#[allow(deprecated)]
fn boundary_distance(point: Point<f64>, polygon: &Polygon<f64>) -> f64 {
    let mut distance = point.euclidean_distance(polygon.exterior());
    for interior in polygon.interiors() {
        distance = distance.min(point.euclidean_distance(interior));
    }
    distance
}

fn interpolate(p1: (f64, f64), d1: f64, p2: (f64, f64), d2: f64, limit: f64) -> (f64, f64) {
    if (d2 - d1).abs() < f64::EPSILON {
        return p1;
    }
    let t = (limit - d1) / (d2 - d1);
    (p1.0 + t * (p2.0 - p1.0), p1.1 + t * (p2.1 - p1.1))
}

fn carve_polygon(polygon: &(Loop, Vec<Loop>)) -> CarvePolygon {
    CarvePolygon { outer: to_scalars(&polygon.0), holes: to_scalar_loops(&polygon.1) }
}

fn measure(
    polygons: &[(Loop, Vec<Loop>)],
    angle_degrees: f64,
    max_depth: Option<f64>,
) -> Result<CarveMeasurements, CamError> {
    let tan_a = (angle_degrees.to_radians() / 2.0).tan();
    let limit = max_depth.map(|d| d * tan_a).unwrap_or(f64::MAX);
    let walls = match max_depth {
        Some(_) => offset_polygon(polygons, limit).iter().map(carve_polygon).collect(),
        None => Vec::new(),
    };
    let mut skeleton = Vec::new();
    for (outer, holes) in polygons {
        let simple = (simplify_ring(outer), holes.iter().map(|h| simplify_ring(h)).collect::<Vec<_>>());
        carve_polygon(&simple).check_loops()?;
        let polygon = Polygon::new(ring(&simple.0), simple.1.iter().map(|h| ring(h)).collect());
        for segment in skeleton_of_polygon_to_linestring(&polygon, true) {
            let mut vertices = Vec::new();
            let mut prev: Option<((f64, f64), f64)> = None;
            for coord in segment.coords_iter() {
                let here = (coord.x, coord.y);
                let distance = boundary_distance(Point::new(coord.x, coord.y), &polygon);
                let crossing = match prev {
                    Some((point, d)) => interpolate(point, d, here, distance, limit),
                    None => here,
                };
                vertices.push(SkeletonVertex {
                    x: s(here.0),
                    y: s(here.1),
                    distance: s(distance),
                    z: s(-(distance / tan_a)),
                    crossing: (s(crossing.0), s(crossing.1)),
                });
                prev = Some((here, distance));
            }
            skeleton.push(vertices);
        }
    }
    Ok(CarveMeasurements { limit_distance: s(limit), walls, skeleton })
}

fn vcarve(polygons: &[(Loop, Vec<Loop>)], tool: &Tool, max_depth: Option<f64>) -> Result<Toolpath, CamError> {
    let carved: Vec<CarvePolygon> = polygons.iter().map(carve_polygon).collect();
    let nothing = CarveMeasurements { limit_distance: s(0.0), walls: Vec::new(), skeleton: Vec::new() };
    let measured = match vbit_angle(tool) {
        Ok(angle) => measure(polygons, f(angle), max_depth)?,
        Err(_) => nothing,
    };
    generate_vcarve_toolpath(&carved, tool, max_depth.map(s), &measured)
}

#[test]
fn test_square_profile_offset() {
    let result = profile(&square(100.0), &endmill(), CutSide::Outside, 5.0);
    assert!(result.is_ok(), "Should generate toolpath successfully");

    let toolpath = result.unwrap();
    assert_eq!(toolpath.paths.len(), 1, "Should have one path");
    assert!(!toolpath.paths[0].is_empty(), "Path should not be empty");

    let first_point = toolpath.paths[0][0];
    assert_eq!(f(first_point.2), -5.0, "Z should be negative target depth");
}

#[test]
fn test_square_profile() {
    let toolpath = profile(&square(100.0), &endmill(), CutSide::Outside, 5.0)
        .expect("Failed to generate toolpath");
    let gcode = post_process_grbl(&toolpath);

    let gcode_str = gcode.lines.join("\n");
    assert!(
        gcode_str.contains("X103.0") || gcode_str.contains("X103."),
        "Expected offset corner coordinate X103.0"
    );
    assert!(
        gcode_str.contains("X-3.0") || gcode_str.contains("X-3."),
        "Expected offset corner coordinate X-3.0"
    );
    assert!(gcode.lines[0] == "G90", "First command should be G90");
    assert!(gcode.lines.iter().any(|l| l.starts_with("G1 Z")), "Should have plunge move");
    println!("Generated G-code:\n{}", gcode_str);
}

#[test]
fn square_outside_profile_writes_the_offset_corners() {
    let toolpath = profile(&square(100.0), &endmill(), CutSide::Outside, 5.0).unwrap();
    let gcode = post_process_grbl(&toolpath);
    let text = gcode.lines.join("\n");
    assert!(text.contains("X103.0000"));
    assert!(text.contains("X-3.0000"));
    assert_eq!(gcode.lines[0], "G90");
    assert_eq!(gcode.lines.iter().filter(|l| *l == "G1 Z-5.0000 F100").count(), 1);
}

#[test]
fn test_profile_inside_cut() {
    let toolpath = profile(&square(100.0), &endmill(), CutSide::Inside, 5.0)
        .expect("Failed to generate inside profile toolpath");
    let gcode = post_process_grbl(&toolpath);

    assert_eq!(gcode.lines[0], "G90", "First command should be G90");
    assert!(gcode.lines.iter().any(|l| l.starts_with("G1 Z")), "Should have plunge move");

    let gcode_str = gcode.lines.join("\n");
    assert!(
        gcode_str.contains("X3.") || gcode_str.contains("X97."),
        "Inside cut should have coordinates offset inward from boundary"
    );
    assert!(gcode_str.contains("X3.") && gcode_str.contains("X97."));

    for path in &xyz(&toolpath) {
        for point in path {
            assert_eq!(point.2, -5.0, "Z should be negative target depth");
        }
    }
    for line in gcode.lines.iter().filter(|l| l.starts_with("G1 Z")) {
        assert_eq!(line, "G1 Z-5.0000 F100");
    }
    println!("Generated G-code for inside cut:\n{}", gcode_str);
}

#[test]
fn test_profile_on_line_cut() {
    let toolpath = profile(&square(100.0), &endmill(), CutSide::OnLine, 5.0)
        .expect("Failed to generate on-line profile toolpath");
    let gcode = post_process_grbl(&toolpath);

    assert_eq!(gcode.lines[0], "G90", "First command should be G90");
    let gcode_str = gcode.lines.join("\n");
    assert!(
        gcode_str.contains("X") && gcode_str.contains("Y"),
        "Should have X and Y coordinates"
    );
    for path in &xyz(&toolpath) {
        for point in path {
            assert_eq!(point.2, -5.0, "Z should be negative target depth");
        }
    }
    println!("Generated G-code for on-line cut:\n{}", gcode_str);
}

#[test]
fn profile_offset_delta_follows_the_cut_side() {
    assert_eq!(f(profile_offset_delta(&CutSide::Outside, s(3.0))), 3.0);
    assert_eq!(f(profile_offset_delta(&CutSide::Inside, s(3.0))), -3.0);
    assert_eq!(profile_offset_delta(&CutSide::OnLine, s(3.0)).to_bits(), 0.0f64.to_bits());
}

#[test]
fn profile_fails_on_a_collapsed_or_degenerate_polygon() {
    // A square of side 4 has nothing left three millimetres inside it.
    let collapsed = profile(&square(4.0), &endmill(), CutSide::Inside, 5.0);
    assert_eq!(collapsed.unwrap_err(), CamError::PolygonCollapsed);
    let line = vec![(0.0, 0.0), (10.0, 0.0), (0.0, 0.0)];
    assert_eq!(
        profile(&line, &endmill(), CutSide::Outside, 5.0).unwrap_err(),
        CamError::PolygonCollapsed
    );
    // Fewer than three distinct vertices fail whatever the kernel would return.
    let fake = to_scalar_loops(&[square(10.0)]);
    let result = generate_profile_toolpath(&to_scalars(&line), &fake, s(1.0));
    assert_eq!(result.unwrap_err(), CamError::PolygonCollapsed);
    let repeated = vec![(1.0, 1.0), (1.0, 1.0), (2.0, 2.0), (1.0, 1.0), (2.0, 2.0), (-0.0 + 2.0, 2.0)];
    assert!(!has_three_distinct(&to_scalars(&repeated)));
    assert!(!has_three_distinct(&to_scalars(&[(0.0, 0.0), (-0.0, 0.0), (0.0, -0.0), (1.0, 0.0)])));
    assert!(has_three_distinct(&to_scalars(&[(0.0, 0.0), (0.0, 0.0), (1.0, 0.0), (0.0, 0.0), (1.0, 1.0)])));
    assert!(has_three_distinct(&to_scalars(&square(1.0))));
    assert_eq!(CamError::PolygonCollapsed.message(), "No offset polygon generated - polygon may have collapsed");
}

#[test]
fn profile_takes_the_first_path_in_vertex_order() {
    let input = to_scalars(&square(10.0));
    let offset = to_scalar_loops(&[
        vec![(1.0, 2.0), (3.0, 4.0), (5.0, 6.0)],
        vec![(9.0, 9.0), (8.0, 8.0), (7.0, 7.0)],
    ]);
    let toolpath = generate_profile_toolpath(&input, &offset, s(2.5)).unwrap();
    assert_eq!(xyz(&toolpath), vec![vec![(1.0, 2.0, -2.5), (3.0, 4.0, -2.5), (5.0, 6.0, -2.5)]]);
    // A first path without a vertex is no geometry, whatever follows it.
    let hollow = to_scalar_loops(&[vec![], vec![(9.0, 9.0), (8.0, 8.0), (7.0, 7.0)]]);
    assert_eq!(
        generate_profile_toolpath(&input, &hollow, s(2.5)).unwrap_err(),
        CamError::PolygonCollapsed
    );
}

#[test]
fn pocket_test_simple_pocket() {
    let result = pocket(&square(100.0), &[], &endmill(), 5.0);
    assert!(result.is_ok(), "Should generate pocket toolpath successfully");

    let toolpath = result.unwrap();
    assert!(!toolpath.paths.is_empty(), "Should have at least one path");
    assert!(toolpath.paths.len() > 1, "Should have multiple concentric paths for pocketing");
    for path in &xyz(&toolpath) {
        for point in path {
            assert_eq!(point.2, -5.0, "Z should be negative target depth");
        }
    }
}

#[test]
fn pocket_test_pocket_with_island() {
    let island = vec![(30.0, 30.0), (70.0, 30.0), (70.0, 70.0), (30.0, 70.0), (30.0, 30.0)];
    let result = pocket(&square(100.0), &[island], &endmill(), 5.0);
    assert!(result.is_ok(), "Should generate pocket toolpath with island");

    let toolpath = result.unwrap();
    assert!(!toolpath.paths.is_empty(), "Should have at least one path");
    for path in &xyz(&toolpath) {
        for point in path {
            let x = point.0;
            let y = point.1;
            assert!(
                x < 30.0 || x > 70.0 || y < 30.0 || y > 70.0,
                "Path should not intersect island area"
            );
        }
    }
}

#[test]
fn pocket_test_test_simple_pocket() {
    let toolpath = pocket(&square(100.0), &[], &endmill(), 5.0)
        .expect("Failed to generate pocket toolpath");
    let gcode = post_process_grbl(&toolpath);

    assert!(toolpath.paths.len() > 1, "Should have multiple concentric paths for pocketing");
    assert_eq!(gcode.lines[0], "G90", "First command should be G90");
    assert!(gcode.lines.iter().any(|l| l.starts_with("G1 Z")), "Should have plunge moves");

    let mut found_inner_path = false;
    for path in &xyz(&toolpath) {
        for point in path {
            if point.0 > 10.0 && point.0 < 90.0 && point.1 > 10.0 && point.1 < 90.0 {
                found_inner_path = true;
                break;
            }
        }
        if found_inner_path {
            break;
        }
    }
    assert!(found_inner_path, "Should have inner paths with coordinates inside pocket");

    for path in &xyz(&toolpath) {
        for point in path {
            assert_eq!(point.2, -5.0, "Z should be negative target depth");
        }
    }
    for line in gcode.lines.iter().filter(|l| l.starts_with("G1 Z")) {
        assert_eq!(line, "G1 Z-5.0000 F100");
    }
    println!("Generated {} paths for pocket", toolpath.paths.len());
    println!("Generated G-code:\n{}", gcode.lines.join("\n"));
}

#[test]
fn pocket_test_test_pocket_with_island() {
    let island = vec![(30.0, 30.0), (70.0, 30.0), (70.0, 70.0), (30.0, 70.0), (30.0, 30.0)];
    let toolpath = pocket(&square(100.0), &[island], &endmill(), 5.0)
        .expect("Failed to generate pocket toolpath with island");
    let gcode = post_process_grbl(&toolpath);

    assert!(!toolpath.paths.is_empty(), "Should have at least one path");
    for path in &xyz(&toolpath) {
        for point in path {
            let x = point.0;
            let y = point.1;
            assert!(
                x < 30.0 || x > 70.0 || y < 30.0 || y > 70.0,
                "Path should not intersect island area at ({}, {})",
                x,
                y
            );
        }
    }
    let gcode_str = gcode.lines.join("\n");
    assert!(
        gcode_str.contains("X") && gcode_str.contains("Y"),
        "G-code should contain X and Y coordinates"
    );
    println!("Generated {} paths for pocket with island", toolpath.paths.len());
}

#[test]
fn pocket_rings_are_closed_and_stop_at_the_first_empty_layer() {
    let region = to_scalar_loops(&[square(10.0)]);
    let open = vec![(1.0, 1.0), (9.0, 1.0), (9.0, 9.0)];
    let closed = vec![(2.0, 2.0), (8.0, 2.0), (8.0, 8.0), (2.0, 2.0)];
    let layers = vec![
        to_scalar_loops(&[open.clone(), vec![], closed.clone()]),
        to_scalar_loops(&[vec![(3.0, 3.0)]]),
        to_scalar_loops(&[]),
        to_scalar_loops(&[vec![(4.0, 4.0), (5.0, 5.0)]]),
    ];
    let toolpath = generate_pocket_toolpath(&region, &layers, s(1.5)).unwrap();
    assert_eq!(
        xyz(&toolpath),
        vec![
            vec![(1.0, 1.0, -1.5), (9.0, 1.0, -1.5), (9.0, 9.0, -1.5), (1.0, 1.0, -1.5)],
            vec![(2.0, 2.0, -1.5), (8.0, 2.0, -1.5), (8.0, 8.0, -1.5), (2.0, 2.0, -1.5)],
            vec![(3.0, 3.0, -1.5)],
        ]
    );
    assert!(layer_is_empty(&to_scalar_loops(&[])));
    assert!(!layer_is_empty(&to_scalar_loops(&[vec![]])));
    // A depth that is not a number never equals itself, so every ring gets its first point again.
    let nan = generate_pocket_toolpath(&region, &layers, s(f64::NAN)).unwrap();
    assert_eq!(nan.paths[1].len(), 5);
    assert_eq!(nan.paths[2].len(), 2);
}

#[test]
fn pocket_fails_on_an_empty_region() {
    let result = generate_pocket_toolpath(&Vec::new(), &vec![to_scalar_loops(&[square(1.0)])], s(1.0));
    assert_eq!(result.unwrap_err(), CamError::PocketRegionEmpty);
    // An island that covers the whole boundary leaves nothing.
    let island = vec![(-1.0, -1.0), (11.0, -1.0), (11.0, 11.0), (-1.0, 11.0), (-1.0, -1.0)];
    assert_eq!(
        pocket(&square(10.0), &[island], &endmill(), 5.0).unwrap_err(),
        CamError::PocketRegionEmpty
    );
    assert_eq!(CamError::PocketRegionEmpty.message(), "Pocket region is empty");
}

#[test]
fn pocket_rings_advance_by_the_stepover() {
    // Successive rings of a square pocket lie a stepover apart, within five percent.
    let toolpath = pocket(&square(100.0), &[], &endmill(), 5.0).unwrap();
    let rings = xyz(&toolpath);
    assert!(rings.len() >= 2);
    let step = 6.0 * 0.4;
    for pair in rings.windows(2) {
        let left = |ring: &Vec<(f64, f64, f64)>| ring.iter().map(|p| p.0).fold(f64::MAX, f64::min);
        let advance = left(&pair[1]) - left(&pair[0]);
        assert!((advance - step).abs() <= 0.05 * step, "advance {}", advance);
    }
}

#[test]
fn offsetting_grows_and_shrinks_the_area() {
    let area = |paths: &Vec<Loop>| -> f64 {
        let paths: Paths<Centi> = paths.clone().into();
        paths.signed_area().abs()
    };
    let shape = vec![square(100.0)];
    for radius in [0.5, 3.0, 10.0] {
        assert!(area(&inflate(shape.clone(), radius)) > area(&shape));
        assert!(area(&inflate(shape.clone(), -radius)) < area(&shape));
    }
}

#[test]
fn clearance_joins_the_pockets_and_needs_a_positive_depth() {
    let tool = endmill();
    let a = pocket_layers(&square(20.0), &[], &tool);
    let b = pocket_layers(&[(30.0, 0.0), (50.0, 0.0), (50.0, 20.0), (30.0, 20.0), (30.0, 0.0)], &[], &tool);
    let one = generate_pocket_toolpath(&a.region, &a.layers, s(2.0)).unwrap();
    let two = generate_pocket_toolpath(&b.region, &b.layers, s(2.0)).unwrap();
    let both = generate_clearance_toolpath(&vec![a.clone(), b.clone()], s(2.0)).unwrap();
    let mut expected = xyz(&one);
    expected.extend(xyz(&two));
    assert!(!expected.is_empty());
    assert_eq!(xyz(&both), expected);
    for depth in [0.0, -0.0, -1.0] {
        assert_eq!(
            generate_clearance_toolpath(&vec![a.clone()], s(depth)).unwrap_err(),
            CamError::ClearanceDepthNotPositive
        );
    }
    let empty = PocketLayers { region: Vec::new(), layers: Vec::new() };
    assert_eq!(
        generate_clearance_toolpath(&vec![a, empty, b], s(2.0)).unwrap_err(),
        CamError::PocketRegionEmpty
    );
    assert!(generate_clearance_toolpath(&Vec::new(), s(2.0)).unwrap().paths.is_empty());
    assert_eq!(CamError::ClearanceDepthNotPositive.message(), "Clearance depth must be positive");
}

#[test]
fn test_vcarve_simple_letter() {
    let u_shape = vec![
        (0.0, 0.0),
        (100.0, 0.0),
        (100.0, 50.0),
        (50.0, 50.0),
        (50.0, 30.0),
        (0.0, 30.0),
        (0.0, 50.0),
        (50.0, 50.0),
        (50.0, 50.0),
        (100.0, 50.0),
        (100.0, 0.0),
        (0.0, 0.0),
    ];
    let result = vcarve(&[(u_shape, Vec::new())], &vbit(60.0), None);
    assert!(result.is_ok());
}

#[test]
fn test_vcarve_with_max_depth() {
    let result = vcarve(&[(square(50.0), Vec::new())], &vbit(60.0), Some(5.0));
    assert!(result.is_ok(), "Should generate V-carve toolpath with max depth");

    let toolpath = result.unwrap();
    assert!(!toolpath.paths.is_empty());
    for path in &xyz(&toolpath) {
        for point in path {
            assert!(point.2 >= -5.001, "Z should not exceed max depth (got {})", point.2);
        }
    }
}

#[test]
fn test_vcarve_requires_vbit() {
    let result = vcarve(&[(square(50.0), Vec::new())], &endmill(), None);
    assert!(result.is_err(), "Should reject non-V-bit tool");
    assert_eq!(result.unwrap_err(), CamError::VCarveRequiresVBit);
    assert!(CamError::VCarveRequiresVBit.message().contains("V-bit"));
}

#[test]
fn test_vcarve_integration() {
    let shape = vec![
        (0.0, 0.0),
        (50.0, 0.0),
        (50.0, 30.0),
        (20.0, 30.0),
        (20.0, 20.0),
        (30.0, 20.0),
        (30.0, 10.0),
        (20.0, 10.0),
        (20.0, 0.0),
        (0.0, 0.0),
    ];
    let toolpath = vcarve(&[(shape, Vec::new())], &vbit(60.0), None)
        .expect("Failed to generate V-carve toolpath");
    let gcode = post_process_grbl(&toolpath);

    assert_eq!(gcode.lines[0], "G90", "First command should be G90");
    if !toolpath.paths.is_empty() {
        assert!(
            gcode.lines.iter().any(|l| l.starts_with("G1 Z")),
            "Should have plunge moves if paths exist"
        );
        for path in &xyz(&toolpath) {
            for point in path {
                assert!(point.2 <= 0.0, "Z should be negative or zero");
            }
        }
    }
    println!("V-carve generated {} paths", toolpath.paths.len());
}

#[test]
fn test_vcarve_with_flat_depth() {
    let shape = vec![
        (0.0, 0.0),
        (30.0, 0.0),
        (30.0, 20.0),
        (10.0, 20.0),
        (10.0, 10.0),
        (20.0, 10.0),
        (20.0, 0.0),
        (0.0, 0.0),
    ];
    let result = vcarve(&[(shape, Vec::new())], &vbit(90.0), Some(3.0));
    if result.is_ok() {
        let toolpath = result.unwrap();
        for path in &xyz(&toolpath) {
            for point in path {
                assert!(point.2 >= -3.0, "Z should not exceed max depth of 3mm");
            }
        }
    }
}

#[test]
fn vcarve_fails_without_polygons_or_paths() {
    let nothing = CarveMeasurements { limit_distance: s(1.0), walls: Vec::new(), skeleton: Vec::new() };
    assert_eq!(
        generate_vcarve_toolpath(&Vec::new(), &vbit(60.0), None, &nothing).unwrap_err(),
        CamError::VCarveRequiresPolygon
    );
    // The tool is looked at before the polygons.
    assert_eq!(
        generate_vcarve_toolpath(&Vec::new(), &endmill(), None, &nothing).unwrap_err(),
        CamError::VCarveRequiresVBit
    );
    let polygons = vec![carve_polygon(&(square(10.0), Vec::new()))];
    assert_eq!(
        generate_vcarve_toolpath(&polygons, &vbit(60.0), Some(s(2.0)), &nothing).unwrap_err(),
        CamError::NoSkeletonPaths
    );
    let degenerate = CarvePolygon { outer: to_scalars(&[(0.0, 0.0), (1.0, 1.0)]), holes: Vec::new() };
    assert_eq!(degenerate.check_loops().unwrap_err(), CamError::DegenerateLoop);
    let holed = CarvePolygon {
        outer: to_scalars(&square(5.0)),
        holes: to_scalar_loops(&[square(1.0), vec![(1.0, 1.0)]]),
    };
    assert_eq!(holed.check_loops().unwrap_err(), CamError::DegenerateLoop);
    assert!(polygons[0].check_loops().is_ok());
}

fn vertex(x: f64, d: f64, crossing_x: f64) -> SkeletonVertex {
    SkeletonVertex { x: s(x), y: s(0.0), distance: s(d), z: s(-d * 2.0), crossing: (s(crossing_x), s(0.5)) }
}

#[test]
fn vcarve_splits_the_axis_at_the_limit_distance() {
    let polygons = vec![carve_polygon(&(square(10.0), Vec::new()))];
    // Limit distance 2: shallow, shallow, deep, deep, shallow, shallow, deep.
    let axis = vec![
        vertex(0.0, 0.0, 90.0),
        vertex(1.0, 1.0, 91.0),
        vertex(3.0, 3.0, 2.0),
        vertex(4.0, 4.0, 93.0),
        vertex(6.0, 2.0, 5.5),
        vertex(7.0, 1.0, 95.0),
        vertex(9.0, 2.5, 8.0),
    ];
    let measured = CarveMeasurements {
        limit_distance: s(2.0),
        walls: Vec::new(),
        skeleton: vec![vec![vertex(0.0, 0.0, 0.0)], axis.clone(), vec![], vec![vertex(0.0, 5.0, 0.0), vertex(1.0, 6.0, 0.0)]],
    };
    let toolpath = generate_vcarve_toolpath(&polygons, &vbit(60.0), Some(s(4.0)), &measured).unwrap();
    assert_eq!(
        xyz(&toolpath),
        vec![
            vec![(0.0, 0.0, -0.0), (1.0, 0.0, -2.0), (2.0, 0.5, -4.0)],
            vec![(5.5, 0.5, -4.0), (6.0, 0.0, -4.0), (7.0, 0.0, -2.0), (8.0, 0.5, -4.0)],
        ]
    );
    // Without a maximal depth everything finite is shallow, and the limit that was measured is not read.
    let unbounded = CarveMeasurements { limit_distance: s(0.0), walls: Vec::new(), skeleton: vec![axis] };
    let whole = generate_vcarve_toolpath(&polygons, &vbit(60.0), None, &unbounded).unwrap();
    assert_eq!(whole.paths.len(), 1);
    assert_eq!(whole.paths[0].len(), 7);
    assert_eq!(f(whole.paths[0][2].2), -6.0);
}

#[test]
fn vcarve_traces_the_walls_before_the_axis() {
    let polygons = vec![carve_polygon(&(square(10.0), Vec::new()))];
    let walls = vec![
        CarvePolygon {
            outer: to_scalars(&[(1.0, 1.0), (9.0, 1.0), (9.0, 9.0)]),
            holes: to_scalar_loops(&[vec![(4.0, 4.0), (5.0, 4.0), (4.0, 4.0)], vec![(6.0, 6.0)], vec![]]),
        },
        CarvePolygon { outer: Vec::new(), holes: to_scalar_loops(&[vec![(2.0, 2.0), (3.0, 3.0)]]) },
    ];
    let measured = CarveMeasurements {
        limit_distance: s(2.0),
        walls: walls.clone(),
        skeleton: vec![vec![vertex(0.0, 0.0, 0.0), vertex(1.0, 1.0, 0.0)]],
    };
    let toolpath = generate_vcarve_toolpath(&polygons, &vbit(60.0), Some(s(3.0)), &measured).unwrap();
    assert_eq!(
        xyz(&toolpath),
        vec![
            vec![(1.0, 1.0, -3.0), (9.0, 1.0, -3.0), (9.0, 9.0, -3.0), (1.0, 1.0, -3.0)],
            vec![(4.0, 4.0, -3.0), (5.0, 4.0, -3.0), (4.0, 4.0, -3.0)],
            vec![(2.0, 2.0, -3.0), (3.0, 3.0, -3.0), (2.0, 2.0, -3.0)],
            vec![(0.0, 0.0, -0.0), (1.0, 0.0, -2.0)],
        ]
    );
    // Without a maximal depth the walls are not traced.
    let none = generate_vcarve_toolpath(&polygons, &vbit(60.0), None, &measured).unwrap();
    assert_eq!(none.paths.len(), 1);
}

#[test]
fn offset_loops_become_polygons_with_their_holes() {
    let tri = |x: f64| to_scalars(&[(x, 0.0), (x + 1.0, 0.0), (x, 1.0)]);
    let item = |x: f64, area: f64| OffsetLoop { points: tri(x), area: s(area) };
    let loops = vec![
        item(0.0, -1.0),                                                  // hole of the second outer
        item(1.0, 4.0),                                                   // outer
        OffsetLoop { points: to_scalars(&[(2.0, 0.0), (3.0, 0.0)]), area: s(9.0) }, // too short
        item(3.0, -0.0),                                                  // hole inside both: goes to the first
        item(4.0, 2.0),                                                   // outer
        item(5.0, -1.0),                                                  // hole inside nothing: dropped
        item(6.0, f64::NAN),                                              // not positive: a hole of the first outer
        OffsetLoop { points: to_scalars(&[(7.0, 0.0)]), area: s(-3.0) },  // too short
    ];
    let t = true;
    let x = false;
    let inside = vec![
        vec![x, x, t, x, t, x, x, x],
        vec![x, x, x, x, t, x, x, x],
        vec![x, t, x, x, x, x, x, x],
        vec![x, t, x, x, t, x, x, x],
        vec![x, t, x, x, x, x, x, x],
        vec![t, x, t, t, x, t, t, t],
        vec![x, t],
        vec![x, t, x, x, t, x, x, x],
    ];
    let polygons = assemble_polygons(&loops, &inside);
    let starts = |polygon: &CarvePolygon| -> (f64, Vec<f64>) {
        (f(polygon.outer[0].0), polygon.holes.iter().map(|h| f(h[0].0)).collect())
    };
    assert_eq!(polygons.len(), 2);
    assert_eq!(starts(&polygons[0]), (1.0, vec![3.0, 6.0]));
    assert_eq!(starts(&polygons[1]), (4.0, vec![0.0]));
    assert!(assemble_polygons(&Vec::new(), &inside).is_empty());
    // Without a table nothing lies inside anything.
    let bare = assemble_polygons(&loops, &Vec::new());
    assert_eq!(bare.len(), 2);
    assert!(bare.iter().all(|p| p.holes.is_empty()));
}

#[test]
fn offsetting_a_ring_inwards_keeps_its_hole() {
    let outer = square(100.0);
    let hole = vec![(40.0, 40.0), (60.0, 40.0), (60.0, 60.0), (40.0, 60.0), (40.0, 40.0)];
    let result = offset_polygon(&[(outer, vec![hole])], 5.0);
    assert_eq!(result.len(), 1);
    assert_eq!(result[0].1.len(), 1);
    let xs = |points: &Loop| -> (f64, f64) {
        (
            points.iter().map(|p| p.0).fold(f64::MAX, f64::min),
            points.iter().map(|p| p.0).fold(f64::MIN, f64::max),
        )
    };
    let (left, right) = xs(&result[0].0);
    assert!((left - 5.0).abs() < 1e-6 && (right - 95.0).abs() < 1e-6);
    let (hole_left, hole_right) = xs(&result[0].1[0]);
    assert!((hole_left - 35.0).abs() < 1e-6 && (hole_right - 65.0).abs() < 1e-6);
    // A square of side 8 has nothing five millimetres inside it.
    assert!(offset_polygon(&[(square(8.0), Vec::new())], 5.0).is_empty());
}
