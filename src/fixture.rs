use vstd::prelude::*;
use vstd::string::*;

verus! {

/// Directory, relative to the test sources, that holds the program sources
/// and their reference modules.
pub const FIXTURE_DIR: &'static str = "ptx_raytracing/";

/// A program source and the name of its entry function.
#[derive(Debug)]
pub struct Fixture {
    pub source: String,
    pub function: String,
}

impl View for Fixture {
    type V = (Seq<char>, Seq<char>);

    open spec fn view(&self) -> (Seq<char>, Seq<char>) {
        (self.source@, self.function@)
    }
}

/// The name of a case: the source's name and the function's, joined by `_`.
pub open spec fn spec_case_name(source: Seq<char>, function: Seq<char>) -> Seq<char> {
    source + "_"@ + function
}

/// The name of a case: the source's name and the function's, joined by `_`.
pub fn case_name(source: &str, function: &str) -> (r: String)
    ensures
        r@ == spec_case_name(source@, function@),
{
    String::from_str(source).concat("_").concat(function)
}

/// Path of a program source: the fixture directory, the name, `.ptx`.
pub fn source_path(source: &str) -> (r: String)
    ensures
        r@ == FIXTURE_DIR@ + source@ + ".ptx"@,
{
    String::from_str(FIXTURE_DIR).concat(source).concat(".ptx")
}

/// Path of the reference module of a case: the fixture directory, the
/// case name, `.ll`. A diagnostic dump is written under the same name.
pub fn reference_path(source: &str, function: &str) -> (r: String)
    ensures
        r@ == FIXTURE_DIR@ + spec_case_name(source@, function@) + ".ll"@,
{
    let name = case_name(source, function);
    String::from_str(FIXTURE_DIR).concat(name.as_str()).concat(".ll")
}

fn fixture(source: &str, function: &str) -> (r: Fixture)
    ensures
        r@ == (source@, function@),
{
    Fixture { source: String::from_str(source), function: String::from_str(function) }
}

/// The cases that compare translated raytracing programs with their
/// reference modules.
pub fn raytracing_fixtures() -> (r: Vec<Fixture>)
    ensures
        r@.map_values(|f: Fixture| f@) == seq![
            ("optixHello_generated_draw_color"@, "draw_solid_color"@),
            ("optixHello_generated_draw_color_var_ptr_cast"@, "draw_solid_color"@),
            ("optixSphere_generated_sphere"@, "bounds"@),
            ("optixSphere_generated_sphere"@, "robust_intersect"@),
            ("optixSphere_generated_normal_shader"@, "closest_hit_radiance"@),
            ("optixPathTracer_generated_disney"@, "Eval"@),
            ("optixCallablePrograms_generated_optixCallablePrograms"@, "miss"@),
            ("optixPathTracer_generated_hit_program"@, "closest_hit"@),
        ],
{
    let mut r: Vec<Fixture> = Vec::new();
    r.push(fixture("optixHello_generated_draw_color", "draw_solid_color"));
    r.push(fixture("optixHello_generated_draw_color_var_ptr_cast", "draw_solid_color"));
    r.push(fixture("optixSphere_generated_sphere", "bounds"));
    r.push(fixture("optixSphere_generated_sphere", "robust_intersect"));
    r.push(fixture("optixSphere_generated_normal_shader", "closest_hit_radiance"));
    r.push(fixture("optixPathTracer_generated_disney", "Eval"));
    r.push(fixture("optixCallablePrograms_generated_optixCallablePrograms", "miss"));
    r.push(fixture("optixPathTracer_generated_hit_program", "closest_hit"));
    let ghost expected = seq![
        ("optixHello_generated_draw_color"@, "draw_solid_color"@),
        ("optixHello_generated_draw_color_var_ptr_cast"@, "draw_solid_color"@),
        ("optixSphere_generated_sphere"@, "bounds"@),
        ("optixSphere_generated_sphere"@, "robust_intersect"@),
        ("optixSphere_generated_normal_shader"@, "closest_hit_radiance"@),
        ("optixPathTracer_generated_disney"@, "Eval"@),
        ("optixCallablePrograms_generated_optixCallablePrograms"@, "miss"@),
        ("optixPathTracer_generated_hit_program"@, "closest_hit"@),
    ];
    assert(r@.map_values(|f: Fixture| f@) =~= expected);
    r
}

} // verus!
