use ptx_raytracing::entry::find_entry_point;
use ptx_raytracing::error::TranslationError;
use ptx_raytracing::fixture::{case_name, raytracing_fixtures, reference_path, source_path};

fn names(v: &[&str]) -> Vec<String> {
    v.iter().map(|s| s.to_string()).collect()
}

#[test]
fn entry_point_is_selected_by_name() {
    let fns = names(&["bounds", "robust_intersect", "intersect"]);
    assert_eq!(find_entry_point(&fns, "robust_intersect"), Ok(1));
    assert_eq!(find_entry_point(&fns, "bounds"), Ok(0));
}

#[test]
fn first_of_equal_names_is_selected() {
    let fns = names(&["miss", "miss"]);
    assert_eq!(find_entry_point(&fns, "miss"), Ok(0));
}

#[test]
fn absent_entry_point_is_unknown() {
    let fns = names(&["bounds"]);
    assert_eq!(find_entry_point(&fns, "closest_hit"), Err(TranslationError::UnknownEntryPoint));
    assert_eq!(find_entry_point(&Vec::new(), "bounds"), Err(TranslationError::UnknownEntryPoint));
}

#[test]
fn case_and_file_names() {
    assert_eq!(
        case_name("optixSphere_generated_sphere", "bounds"),
        "optixSphere_generated_sphere_bounds"
    );
    assert_eq!(
        source_path("optixSphere_generated_sphere"),
        "ptx_raytracing/optixSphere_generated_sphere.ptx"
    );
    assert_eq!(
        reference_path("optixHello_generated_draw_color", "draw_solid_color"),
        "ptx_raytracing/optixHello_generated_draw_color_draw_solid_color.ll"
    );
}

#[test]
fn fixture_table_lists_every_case() {
    let f = raytracing_fixtures();
    assert_eq!(f.len(), 8);
    assert_eq!(f[0].source, "optixHello_generated_draw_color");
    assert_eq!(f[0].function, "draw_solid_color");
    assert_eq!(f[2].function, "bounds");
    assert_eq!(f[3].function, "robust_intersect");
    assert_eq!(f[2].source, f[3].source);
    assert_eq!(f[7].source, "optixPathTracer_generated_hit_program");
    assert_eq!(f[7].function, "closest_hit");
}
