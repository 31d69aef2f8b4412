use ptx_raytracing::options::{compiler_options, headers_paired, TRACE_PROGRAM_NAME};
use ptx_raytracing::verdict::{
    bitcode_verdict, bytes_equal, compare_modules, nul_terminated, text_verdict, Verdict,
};

#[test]
fn identical_bitcode_is_identical() {
    let v = compare_modules(b"BC\xc0\xde", b"BC\xc0\xde", b"a", b"b");
    assert_eq!(v, Verdict::Identical);
    assert!(v.is_acceptable());
}

#[test]
fn equal_text_marks_encoding_artifact() {
    let v = compare_modules(b"BC\x01", b"BC\x02", b"define void @f()", b"define void @f()");
    assert_eq!(v, Verdict::EncodingArtifact);
    assert!(v.is_acceptable());
}

#[test]
fn different_bitcode_and_text_is_mismatch() {
    let v = compare_modules(b"BC\x01", b"BC\x02", b"define void @f()", b"define void @g()");
    assert_eq!(v, Verdict::Mismatch);
    assert!(!v.is_acceptable());
}

#[test]
fn empty_modules_are_identical() {
    assert_eq!(compare_modules(b"", b"", b"x", b"y"), Verdict::Identical);
}

#[test]
fn bytes_equal_checks_length_and_content() {
    assert!(bytes_equal(b"abc", b"abc"));
    assert!(!bytes_equal(b"abc", b"abd"));
    assert!(!bytes_equal(b"abc", b"ab"));
    assert!(bytes_equal(b"", b""));
}

#[test]
fn nul_terminated_appends_one_zero() {
    assert_eq!(nul_terminated(b"ir"), vec![b'i', b'r', 0u8]);
    assert_eq!(nul_terminated(b""), vec![0u8]);
}

#[test]
fn options_with_debug_info() {
    let opts = compiler_options(true);
    assert_eq!(
        opts,
        vec![
            "-g",
            "-O1",
            "-fgpu-rdc",
            "-mno-cumode",
            "-mllvm",
            "-amdgpu-internalize-symbols=0"
        ]
    );
}

#[test]
fn options_without_debug_info_keep_symbols_external() {
    let opts = compiler_options(false);
    assert_eq!(opts[0], "-g0");
    let k = opts.iter().position(|o| o == "-mllvm").unwrap();
    assert_eq!(opts[k + 1], "-amdgpu-internalize-symbols=0");
}

#[test]
fn trace_program_name() {
    assert_eq!(TRACE_PROGRAM_NAME, "zluda_rt_kernel");
}

#[test]
fn bitcode_alone_decides_when_equal() {
    assert_eq!(bitcode_verdict(b"BC\x01", b"BC\x01"), Some(Verdict::Identical));
    assert_eq!(bitcode_verdict(b"BC\x01", b"BC\x02"), None);
}

#[test]
fn text_decides_after_bitcode_differs() {
    assert_eq!(text_verdict(b"define void @f()", b"define void @f()"), Verdict::EncodingArtifact);
    assert_eq!(text_verdict(b"define void @f()", b"define void @g()"), Verdict::Mismatch);
}

#[test]
fn headers_pair_by_count() {
    let h = vec!["int a;".to_string(), "int b;".to_string()];
    let n = vec!["a.h".to_string(), "b.h".to_string()];
    assert!(headers_paired(&h, &n));
    assert!(!headers_paired(&h, &n[..1].to_vec()));
    assert!(headers_paired(&Vec::new(), &Vec::new()));
}
