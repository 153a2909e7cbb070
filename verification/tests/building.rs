use ffi::builder::fragment_identity;
use ffi::{Error, Plan, FFI};

fn tag(segments: &[&str]) -> Vec<String> {
    segments.iter().map(|s| s.to_string()).collect()
}

#[test]
fn identity_of_no_segment_is_empty() {
    assert_eq!(fragment_identity(&tag(&[])), "");
}

#[test]
fn identity_of_one_segment_is_the_segment() {
    assert_eq!(fragment_identity(&tag(&["main"])), "main");
}

#[test]
fn identity_joins_segments_with_slashes() {
    assert_eq!(fragment_identity(&tag(&["lib", "math", "add"])), "lib/math/add");
    assert_eq!(fragment_identity(&tag(&["a", "b"])), "a/b");
}

#[test]
fn identity_keeps_empty_segments() {
    assert_eq!(fragment_identity(&tag(&["", ""])), "/");
    assert_eq!(fragment_identity(&tag(&["a", "", "b"])), "a//b");
}

#[test]
fn named_plan_has_the_given_names() {
    let plan = Plan::named("/tmp", "abc", &tag(&["lib", "math"]));
    assert_eq!(plan.id(), "abc");
    assert_eq!(plan.fragment(), "lib/math");
    assert_eq!(plan.source_file(), "/tmp/abc.src");
    assert_eq!(plan.module_file(), "/tmp/abc.module");
}

#[test]
fn write_failure_is_write_failed() {
    let plan = Plan::named("/tmp", "abc", &tag(&["lib", "math"]));
    let next = plan.written(Err("disk full".to_string()));
    assert_eq!(
        next.err(),
        Some(Error::WriteFailed { fragment: "lib/math".to_string(), cause: "disk full".to_string() })
    );
}

#[test]
fn written_build_asks_for_the_compiler() {
    let plan = Plan::named("/tmp", "abc", &tag(&["lib", "math"]));
    let written = plan.written(Ok(())).ok().unwrap();
    assert_eq!(written.fragment(), "lib/math");
    assert_eq!(
        written.compiler_command(),
        vec![
            "rustc".to_string(),
            "--crate-type".to_string(),
            "dylib".to_string(),
            "-A".to_string(),
            "warnings".to_string(),
            "-o".to_string(),
            "/tmp/abc.module".to_string(),
            "/tmp/abc.src".to_string(),
        ]
    );
}

#[test]
fn rejected_source_is_compile_failed() {
    let plan = Plan::named("/tmp", "abc", &tag(&["lib", "math"]));
    let written = plan.written(Ok(())).ok().unwrap();
    let next = written.compiled(Ok(false));
    assert_eq!(
        next.err(),
        Some(Error::CompileFailed { fragment: "lib/math".to_string(), launch: None })
    );
}

#[test]
fn compiler_that_cannot_run_is_compile_failed_with_the_reason() {
    let plan = Plan::named("/tmp", "abc", &tag(&["lib", "math"]));
    let written = plan.written(Ok(())).ok().unwrap();
    let next = written.compiled(Err("No such file or directory".to_string()));
    assert_eq!(
        next.err(),
        Some(Error::CompileFailed {
            fragment: "lib/math".to_string(),
            launch: Some("No such file or directory".to_string()),
        })
    );
}

#[test]
fn compiled_build_asks_for_the_module() {
    let plan = Plan::named("/tmp", "abc", &tag(&["lib", "math"]));
    let written = plan.written(Ok(())).ok().unwrap();
    let compiled = written.compiled(Ok(true)).ok().unwrap();
    assert_eq!(compiled.fragment(), "lib/math");
    assert_eq!(compiled.module_file(), "/tmp/abc.module");
    assert_eq!(compiled.source_file(), "/tmp/abc.src");
}

#[test]
fn load_failure_is_load_failed() {
    let plan = Plan::named("/tmp", "abc", &tag(&["lib", "math"]));
    let written = plan.written(Ok(())).ok().unwrap();
    let compiled = written.compiled(Ok(true)).ok().unwrap();
    let bridge: Result<FFI<u32>, Error> = FFI::new(compiled, Err("wrong ELF class".to_string()));
    assert_eq!(
        bridge.err(),
        Some(Error::LoadFailed {
            fragment: "lib/math".to_string(),
            cause: "wrong ELF class".to_string(),
        })
    );
}

#[test]
fn successful_build_yields_a_bridge_that_owns_the_handle() {
    let plan = Plan::named("/tmp", "abc", &tag(&["lib", "math"]));
    let written = plan.written(Ok(())).ok().unwrap();
    let compiled = written.compiled(Ok(true)).ok().unwrap();
    let bridge = FFI::new(compiled, Ok(7u32)).ok().unwrap();
    assert_eq!(*bridge.library(), 7);
    assert_eq!(bridge.fragment(), "lib/math");
    assert_eq!(bridge.source_file(), "/tmp/abc.src");
    assert_eq!(bridge.module_file(), "/tmp/abc.module");
}
