use sparrow::paths::{build_svg_exporter, final_json_path, resolve_output_dir};

#[test]
fn output_dir_defaults() {
    assert_eq!(resolve_output_dir(""), "output");
    assert_eq!(resolve_output_dir("out/run1"), "out/run1");
}

#[test]
fn svg_export_plan_all_files() {
    let plan = build_svg_exporter("out", "swim", false, true);
    assert_eq!(plan.final_svg.as_deref(), Some("out/final_swim.svg"));
    assert_eq!(plan.intermediate_dir.as_deref(), Some("out/sols_swim"));
    assert_eq!(plan.live_svg.as_deref(), Some("data/live/.live_solution.svg"));
}

#[test]
fn svg_export_plan_final_only() {
    let plan = build_svg_exporter("output", "jakobs1", true, false);
    assert_eq!(plan.final_svg.as_deref(), Some("output/final_jakobs1.svg"));
    assert_eq!(plan.intermediate_dir, None);
    assert_eq!(plan.live_svg, None);
}

#[test]
fn json_path() {
    assert_eq!(final_json_path("output", "shirts"), "output/final_shirts.json");
}
