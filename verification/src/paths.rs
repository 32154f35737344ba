//! Where a run writes its output.
use vstd::prelude::*;

verus! {

/// The directory a run writes into: the given one, or `output` when none is
/// given.
pub fn resolve_output_dir(output_dir: &str) -> (dir: &str)
    ensures
        dir@ == (if output_dir@.len() == 0 {
            "output"@
        } else {
            output_dir@
        }),
{
    if output_dir.is_empty() {
        "output"
    } else {
        output_dir
    }
}

/// `{output_dir}/final_{name}.svg`
pub open spec fn final_svg_path(output_dir: Seq<char>, name: Seq<char>) -> Seq<char> {
    output_dir + "/final_"@ + name + ".svg"@
}

/// `{output_dir}/sols_{name}`
pub open spec fn intermediate_svg_dir(output_dir: Seq<char>, name: Seq<char>) -> Seq<char> {
    output_dir + "/sols_"@ + name
}

/// `{output_dir}/final_{name}.json`
pub open spec fn final_json_path_spec(output_dir: Seq<char>, name: Seq<char>) -> Seq<char> {
    output_dir + "/final_"@ + name + ".json"@
}

/// The file that the live view of the layout is written to.
pub open spec fn live_svg_path() -> Seq<char> {
    "data/live/.live_solution.svg"@
}

/// `path` is present and reads `expected`.
pub open spec fn is_path(path: Option<String>, expected: Seq<char>) -> bool {
    path matches Some(p) && p@ == expected
}

/// The files an SVG exporter writes: the final layout always, the
/// intermediate layouts unless only the final one is wanted, and the live
/// view when it is wanted.
pub struct SvgExportPlan {
    pub final_svg: Option<String>,
    pub intermediate_dir: Option<String>,
    pub live_svg: Option<String>,
}

/// The files that the exporter of a run writes, given the run's output
/// directory and the instance's name; `only_final_svg` and `live_svg` are the
/// build's choices of which files to write.
pub fn build_svg_exporter(
    output_dir: &str,
    instance_name: &str,
    only_final_svg: bool,
    live_svg: bool,
) -> (plan: SvgExportPlan)
    ensures
        is_path(plan.final_svg, final_svg_path(output_dir@, instance_name@)),
        only_final_svg ==> plan.intermediate_dir is None,
        !only_final_svg ==> is_path(
            plan.intermediate_dir,
            intermediate_svg_dir(output_dir@, instance_name@),
        ),
        live_svg ==> is_path(plan.live_svg, live_svg_path()),
        !live_svg ==> plan.live_svg is None,
        plan.final_svg matches Some(p) && p@ == output_dir@ + "/final_"@ + instance_name@
            + ".svg"@,
        !only_final_svg ==> (plan.intermediate_dir matches Some(p) && p@ == output_dir@
            + "/sols_"@ + instance_name@),
        live_svg ==> (plan.live_svg matches Some(p) && p@ == "data/live/.live_solution.svg"@),
{
    let mut final_svg = output_dir.to_owned();
    final_svg.append("/final_");
    final_svg.append(instance_name);
    final_svg.append(".svg");
    let intermediate_dir = if only_final_svg {
        None
    } else {
        let mut dir = output_dir.to_owned();
        dir.append("/sols_");
        dir.append(instance_name);
        Some(dir)
    };
    let live = if live_svg {
        Some("data/live/.live_solution.svg".to_owned())
    } else {
        None
    };
    SvgExportPlan { final_svg: Some(final_svg), intermediate_dir, live_svg: live }
}

/// The file a run writes its final instance and layout to.
pub fn final_json_path(output_dir: &str, instance_name: &str) -> (path: String)
    ensures
        path@ == final_json_path_spec(output_dir@, instance_name@),
        path@ == output_dir@ + "/final_"@ + instance_name@ + ".json"@,
{
    let mut path = output_dir.to_owned();
    path.append("/final_");
    path.append(instance_name);
    path.append(".json");
    path
}

} // verus!
