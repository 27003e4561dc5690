use rcarve::text::is_blank;
use rcarve::{
    create_new_project, infer_project_name, CurveId, CutSide, DragMode, Operation, OperationForm,
    OperationKindForm, OperationTarget, Scalar, SidebarTab, StockForm, StockNumbers, ToolForm,
    ToolKind, ToolNumbers, ToolType, VCarveDebugSettings,
};

fn s(value: f64) -> Scalar {
    Scalar::from_bits(value.to_bits())
}

fn f(value: Scalar) -> f64 {
    f64::from_bits(value.to_bits())
}

fn number(text: &str) -> Option<Scalar> {
    text.trim().parse::<f64>().ok().map(s)
}

fn tool_numbers(form: &ToolForm) -> ToolNumbers {
    ToolNumbers {
        diameter: number(&form.diameter),
        stepover: number(&form.stepover),
        pass_depth: number(&form.pass_depth),
        vbit_angle: number(&form.vbit_angle),
    }
}

fn check(form: &mut ToolForm) -> Result<rcarve::Tool, String> {
    let numbers = tool_numbers(form);
    form.validate(&numbers)
}

#[test]
fn blank_means_white_space_only() {
    for text in ["", " ", "\t\n", "\u{a0}\u{2003}", " \u{3000} "] {
        assert!(is_blank(text), "{:?}", text);
    }
    for text in ["a", " a ", "\u{200b}", "0", " . "] {
        assert!(!is_blank(text), "{:?}", text);
    }
}

#[test]
fn new_tool_form_has_the_defaults() {
    let form = ToolForm::new();
    assert_eq!(form.name, "");
    assert_eq!(form.diameter, "");
    assert_eq!(form.stepover, "0.4");
    assert_eq!(form.pass_depth, "");
    assert_eq!(form.vbit_angle, "60");
    assert_eq!(form.kind, ToolKind::Endmill);
    assert!(form.name_error.is_none() && form.vbit_angle_error.is_none());
    assert_eq!(ToolForm::default().stepover, "0.4");
    assert_eq!(ToolKind::VBit.to_string(), "V-bit");
    assert_eq!(ToolKind::Endmill.to_string(), "Endmill");
    assert_eq!(ToolKind::Ballnose.to_string(), "Ballnose");
    assert_eq!(ToolKind::from_tool_type(&ToolType::VBit { angle_degrees: s(60.0) }), ToolKind::VBit);
    assert_eq!(ToolKind::from_tool_type(&ToolType::Endmill { diameter: s(6.0) }), ToolKind::Endmill);
    assert_eq!(ToolKind::from_tool_type(&ToolType::Ballnose { diameter: s(6.0) }), ToolKind::Ballnose);
}

#[test]
fn set_kind_fills_a_blank_angle_for_a_vbit() {
    let mut form = ToolForm::new();
    form.vbit_angle = "  ".to_string();
    form.set_kind(ToolKind::Ballnose);
    assert_eq!(form.kind, ToolKind::Ballnose);
    assert_eq!(form.vbit_angle, "  ");
    form.set_kind(ToolKind::VBit);
    assert_eq!(form.kind, ToolKind::VBit);
    assert_eq!(form.vbit_angle, "60");
    form.vbit_angle = " 90 ".to_string();
    form.set_kind(ToolKind::VBit);
    assert_eq!(form.vbit_angle, " 90 ");
}

#[test]
fn valid_tool_entries_make_the_tool() {
    let mut form = ToolForm::new();
    form.name = "  6mm Endmill \t".to_string();
    form.diameter = " 6 ".to_string();
    form.pass_depth = "5.0".to_string();
    form.name_error = Some("old".to_string());
    let tool = check(&mut form).unwrap();
    assert_eq!(tool.name, "6mm Endmill");
    assert_eq!(f(tool.diameter), 6.0);
    assert_eq!(f(tool.stepover), 0.4);
    assert_eq!(f(tool.pass_depth), 5.0);
    assert!(matches!(tool.tool_type, ToolType::Endmill { diameter } if f(diameter) == 6.0));
    assert!(form.name_error.is_none());
    assert_eq!(form.name, "  6mm Endmill \t");

    form.set_kind(ToolKind::VBit);
    form.vbit_angle = "90".to_string();
    let vbit = check(&mut form).unwrap();
    assert!(matches!(vbit.tool_type, ToolType::VBit { angle_degrees } if f(angle_degrees) == 90.0));
    form.set_kind(ToolKind::Ballnose);
    form.stepover = "1".to_string();
    let ball = check(&mut form).unwrap();
    assert!(matches!(ball.tool_type, ToolType::Ballnose { diameter } if f(diameter) == 6.0));
    form.stepover = "0".to_string();
    assert_eq!(f(check(&mut form).unwrap().stepover), 0.0);
}

#[test]
fn each_bad_tool_entry_gets_its_complaint() {
    let mut form = ToolForm::new();
    form.name = "   ".to_string();
    form.diameter = "abc".to_string();
    form.stepover = "1.5".to_string();
    form.pass_depth = "-2".to_string();
    form.vbit_angle = "x".to_string();
    let message = check(&mut form).unwrap_err();
    assert_eq!(
        message,
        "Name is required\nDiameter must be a number\nStepover must be between 0.0 and 1.0\nPass depth must be greater than zero"
    );
    assert_eq!(form.name_error.as_deref(), Some("Name is required"));
    assert_eq!(form.diameter_error.as_deref(), Some("Diameter must be a number"));
    assert_eq!(form.stepover_error.as_deref(), Some("Stepover must be between 0.0 and 1.0"));
    assert_eq!(form.pass_depth_error.as_deref(), Some("Pass depth must be greater than zero"));
    // The angle is read for a V-bit only.
    assert!(form.vbit_angle_error.is_none());

    form.set_kind(ToolKind::VBit);
    form.name = "V".to_string();
    form.diameter = "1".to_string();
    form.stepover = "nope".to_string();
    form.pass_depth = "1".to_string();
    let message = check(&mut form).unwrap_err();
    assert_eq!(message, "Stepover must be a number\nV-bit angle must be a number");
    assert!(form.name_error.is_none() && form.diameter_error.is_none());
    assert_eq!(form.vbit_angle_error.as_deref(), Some("V-bit angle must be a number"));

    form.stepover = "0.5".to_string();
    form.vbit_angle = "0".to_string();
    assert_eq!(check(&mut form).unwrap_err(), "V-bit angle must be greater than zero");
    form.vbit_angle = "60".to_string();
    form.stepover = "NaN".to_string();
    assert_eq!(check(&mut form).unwrap_err(), "Stepover must be between 0.0 and 1.0");
    form.clear_errors();
    assert!(form.stepover_error.is_none());
}

fn op_check(form: &mut OperationForm, selected: &Vec<CurveId>, tools: usize) -> Result<Operation, String> {
    let entry = if form.kind == OperationKindForm::VCarve {
        form.vcarve_max_depth.clone()
    } else {
        form.depth.clone()
    };
    form.validate(selected, tools, number(&entry))
}

#[test]
fn operation_form_makes_the_operation_of_its_kind() {
    let curves = vec![CurveId { value: 1 }, CurveId { value: 2 }];
    let mut form = OperationForm::new();
    assert_eq!(form.kind, OperationKindForm::Profile);
    assert_eq!(form.depth, "1.0");
    assert_eq!(form.cut_side, CutSide::Outside);
    assert!(OperationForm::default().tool_index.is_none());
    form.tool_index = Some(1);
    match op_check(&mut form, &curves, 2).unwrap() {
        Operation::Profile { target_depth, cut_side, tool_index, targets } => {
            assert_eq!(f(target_depth), 1.0);
            assert_eq!(cut_side, CutSide::Outside);
            assert_eq!(tool_index, 1);
            assert!(matches!(targets, OperationTarget::Curves(c) if c == curves));
        }
        _ => panic!("expected a profile"),
    }
    assert_eq!(form.selection_snapshot, curves);
    assert!(form.error.is_none());

    form.kind = OperationKindForm::Pocket;
    form.depth = " 2.5 ".to_string();
    assert!(matches!(op_check(&mut form, &curves, 2).unwrap(), Operation::Pocket { target_depth, tool_index: 1, .. } if f(target_depth) == 2.5));

    form.kind = OperationKindForm::VCarve;
    form.clearance_tool_index = Some(5);
    match op_check(&mut form, &curves, 2).unwrap() {
        Operation::VCarve { target_depth, clearance_tool_index, .. } => {
            assert!(target_depth.is_none());
            assert!(clearance_tool_index.is_none());
        }
        _ => panic!("expected a carving"),
    }
    form.vcarve_max_depth = "3".to_string();
    form.clearance_tool_index = Some(0);
    match op_check(&mut form, &curves, 2).unwrap() {
        Operation::VCarve { target_depth, clearance_tool_index, .. } => {
            assert_eq!(target_depth.map(f), Some(3.0));
            assert_eq!(clearance_tool_index, Some(0));
        }
        _ => panic!("expected a carving"),
    }
    form.update_selection(&vec![CurveId { value: 3 }]);
    assert_eq!(form.selection_snapshot, vec![CurveId { value: 3 }]);
}

#[test]
fn operation_form_complains_in_order() {
    let curves = vec![CurveId { value: 1 }];
    let mut form = OperationForm::new();
    form.depth = "zero".to_string();
    form.selection_snapshot = vec![CurveId { value: 8 }];
    let message = op_check(&mut form, &Vec::new(), 2).unwrap_err();
    assert_eq!(message, "Select at least one curve in the canvas before saving.");
    assert_eq!(form.error.as_deref(), Some(message.as_str()));
    assert_eq!(form.selection_snapshot, vec![CurveId { value: 8 }]);

    // A complaint about the depth is returned but not kept.
    assert_eq!(op_check(&mut form, &curves, 2).unwrap_err(), "Depth must be a number");
    assert!(form.error.is_none());
    assert_eq!(form.selection_snapshot, curves);
    form.depth = "0".to_string();
    assert_eq!(op_check(&mut form, &curves, 2).unwrap_err(), "Depth must be greater than zero");

    form.depth = "1".to_string();
    assert_eq!(op_check(&mut form, &curves, 2).unwrap_err(), "Choose a tool before saving.");
    assert_eq!(form.error.as_deref(), Some("Choose a tool before saving."));
    form.tool_index = Some(2);
    assert_eq!(op_check(&mut form, &curves, 2).unwrap_err(), "Selected tool is no longer available.");
    assert_eq!(form.error.as_deref(), Some("Selected tool is no longer available."));

    form.kind = OperationKindForm::VCarve;
    form.vcarve_max_depth = "-1".to_string();
    assert_eq!(op_check(&mut form, &curves, 3).unwrap_err(), "Max depth must be greater than zero");
    form.vcarve_max_depth = "deep".to_string();
    assert_eq!(op_check(&mut form, &curves, 3).unwrap_err(), "Max depth must be a number");
}

fn stock_numbers(form: &StockForm) -> StockNumbers {
    StockNumbers {
        width: number(&form.width),
        height: number(&form.height),
        thickness: number(&form.thickness),
        origin: form
            .origin
            .trim()
            .split(|c| c == ',' || c == ' ')
            .filter(|part| !part.is_empty())
            .map(|part| part.parse::<f64>().ok().map(s))
            .collect(),
    }
}

fn stock(width: &str, height: &str, thickness: &str, material: &str, origin: &str) -> StockForm {
    StockForm {
        width: width.to_string(),
        height: height.to_string(),
        thickness: thickness.to_string(),
        material: material.to_string(),
        origin: origin.to_string(),
        error: None,
    }
}

#[test]
fn stock_form_makes_the_stock() {
    let form = stock("100", " 50 ", "12.5", "  oak ", "1, 2 3");
    let spec = form.parse(&stock_numbers(&form)).unwrap();
    assert_eq!((f(spec.width), f(spec.height), f(spec.thickness)), (100.0, 50.0, 12.5));
    assert_eq!(spec.material.as_deref(), Some("oak"));
    let origin = spec.origin.unwrap();
    assert_eq!((f(origin.0), f(origin.1), f(origin.2)), (1.0, 2.0, 3.0));

    let bare = stock("-1", "0", "1", "  ", " ");
    let spec = bare.parse(&stock_numbers(&bare)).unwrap();
    assert_eq!(f(spec.width), -1.0);
    assert!(spec.material.is_none());
    assert!(spec.origin.is_none());
    assert!(StockForm::default().width.is_empty());
}

#[test]
fn stock_form_fails_with_the_first_complaint() {
    let cases = [
        (stock("w", "h", "t", "", "x"), "Width must be a number"),
        (stock("1", "h", "t", "", "x"), "Height must be a number"),
        (stock("1", "2", "", "", "x"), "Thickness must be a number"),
        (stock("1", "2", "3", "", "1,2"), "Origin must have three values separated by commas."),
        (stock("1", "2", "3", "", "1,2,3,4"), "Origin must have three values separated by commas."),
        (stock("1", "2", "3", "", "a,b,c"), "Origin X must be a number"),
        (stock("1", "2", "3", "", "1,b,c"), "Origin Y must be a number"),
        (stock("1", "2", "3", "", "1,2,c"), "Origin Z must be a number"),
    ];
    for (form, message) in cases {
        assert_eq!(form.parse(&stock_numbers(&form)).unwrap_err(), message);
    }
}

#[test]
fn project_names_and_new_projects() {
    assert_eq!(infer_project_name("/home/me/projects/Sign.rcproj"), "Sign");
    assert_eq!(infer_project_name("plain"), "plain");
    assert_eq!(infer_project_name("dir/archive.tar.gz"), "archive.tar");
    assert_eq!(infer_project_name(".."), "..");
    assert_eq!(infer_project_name(""), "");
    let project = create_new_project("Bar".to_string());
    assert_eq!(project.meta.name, "Bar");
    assert_eq!(f(project.stock.width), 100.0);
    assert_eq!(f(project.stock.height), 100.0);
    assert_eq!(f(project.stock.thickness), 12.5);
    assert!(project.operations.is_empty());
}

#[test]
fn white_space_is_the_listed_characters() {
    let listed = |c: char| {
        let code = c as u32;
        (0x09..=0x0d).contains(&code)
            || [0x20, 0x85, 0xa0, 0x1680, 0x2028, 0x2029, 0x202f, 0x205f, 0x3000].contains(&code)
            || (0x2000..=0x200a).contains(&code)
    };
    let mut count = 0;
    for code in 0..=0x10ffffu32 {
        if let Some(c) = char::from_u32(code) {
            assert_eq!(c.is_whitespace(), listed(c), "U+{:04X}", code);
            assert_eq!(is_blank(&c.to_string()), listed(c), "U+{:04X}", code);
            if listed(c) {
                count += 1;
            }
        }
    }
    assert_eq!(count, 25);
}

#[test]
fn a_project_name_is_a_part_of_its_path() {
    for path in ["/home/me/projects/Sign.rcproj", "plain", "dir/archive.tar.gz", "..", "", "a/b/", "x/.hidden", "é/ü.svg"] {
        let name = infer_project_name(path);
        assert!(path.contains(&name), "{:?} in {:?}", name, path);
    }
    assert_eq!(infer_project_name("a/b/"), "b");
    assert_eq!(infer_project_name("x/.hidden"), ".hidden");
    assert_eq!(infer_project_name("é/ü.svg"), "ü");
}

#[test]
fn the_workspace_opens_on_the_stock_and_draws_the_toolpaths() {
    assert_eq!(SidebarTab::default(), SidebarTab::Stock);
    assert_ne!(SidebarTab::Tools, SidebarTab::View3D);
    assert_ne!(DragMode::Translate, DragMode::Scale);
    let settings = VCarveDebugSettings::default();
    assert!(settings.show_crease_paths && settings.show_pocket_boundary_paths);
    assert!(!settings.show_voronoi_pre_prune);
    assert!(!settings.show_voronoi_post_prune);
    assert!(!settings.show_pruned_edges);
}
