use vstd::prelude::*;
use vstd::string::*;

verus! {

/// Name under which the runtime registers a built trace program.
pub const TRACE_PROGRAM_NAME: &'static str = "zluda_rt_kernel";

/// The flag sequence that keeps module-private symbols external: a
/// pass-through marker followed by the switch that turns internalization off.
pub open spec fn keeps_symbols_external(opts: Seq<Seq<char>>) -> bool {
    exists|i: int|
        0 <= i && i + 1 < opts.len() && #[trigger] opts[i] == "-mllvm"@ && opts[i + 1]
            == "-amdgpu-internalize-symbols=0"@
}

/// The compiler options, as plain text, that the runtime's compiler gets.
pub open spec fn spec_compiler_options(debug_info: bool) -> Seq<Seq<char>> {
    seq![
        if debug_info {
            "-g"@
        } else {
            "-g0"@
        },
        "-O1"@,
        "-fgpu-rdc"@,
        "-mno-cumode"@,
        "-mllvm"@,
        "-amdgpu-internalize-symbols=0"@,
    ]
}

/// Views of a list of strings.
pub open spec fn views_of(v: Seq<String>) -> Seq<Seq<char>> {
    v.map_values(|s: String| s@)
}

/// The options with which the runtime compiles the synthesized source
/// together with the generated module: a debug level, an optimization level
/// that still lets later inlining happen, a stop after the intermediate
/// representation, no compute-unit mode, and no internalization, so that
/// symbols the runtime's glue code refers to stay resolvable.
pub fn compiler_options(debug_info: bool) -> (r: Vec<String>)
    ensures
        views_of(r@) == spec_compiler_options(debug_info),
        keeps_symbols_external(views_of(r@)),
{
    let mut r: Vec<String> = Vec::new();
    if debug_info {
        r.push(String::from_str("-g"));
    } else {
        r.push(String::from_str("-g0"));
    }
    r.push(String::from_str("-O1"));
    r.push(String::from_str("-fgpu-rdc"));
    r.push(String::from_str("-mno-cumode"));
    r.push(String::from_str("-mllvm"));
    r.push(String::from_str("-amdgpu-internalize-symbols=0"));
    assert(views_of(r@) =~= spec_compiler_options(debug_info));
    assert(views_of(r@)[4] == "-mllvm"@);
    r
}

/// Whether header contents and header names can be handed to the runtime
/// together: the runtime pairs them by position, so their counts must agree.
pub fn headers_paired(headers: &Vec<String>, header_names: &Vec<String>) -> (r: bool)
    ensures
        r == (headers@.len() == header_names@.len()),
{
    headers.len() == header_names.len()
}

} // verus!
