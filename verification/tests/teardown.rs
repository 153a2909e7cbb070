use ffi::{Leak, Plan, Removal, Type, Value, FFI};

fn bridge() -> FFI<()> {
    let tag = vec!["main".to_string()];
    let plan = Plan::named("/tmp", "abc", &tag);
    let written = plan.written(Ok(())).ok().unwrap();
    let compiled = written.compiled(Ok(true)).ok().unwrap();
    FFI::new(compiled, Ok(())).ok().unwrap()
}

#[test]
fn close_is_clean_when_both_files_are_gone() {
    assert_eq!(bridge().close(Removal::Removed, Removal::Removed), Ok(()));
    assert_eq!(bridge().close(Removal::Absent, Removal::Absent), Ok(()));
    assert_eq!(bridge().close(Removal::Removed, Removal::Absent), Ok(()));
    assert_eq!(bridge().close(Removal::Absent, Removal::Removed), Ok(()));
}

#[test]
fn close_reports_a_source_file_left_behind() {
    let closed = bridge().close(Removal::Failed("denied".to_string()), Removal::Removed);
    assert_eq!(
        closed,
        Err(vec![Leak { path: "/tmp/abc.src".to_string(), cause: "denied".to_string() }])
    );
}

#[test]
fn close_reports_a_module_file_left_behind() {
    let closed = bridge().close(Removal::Absent, Removal::Failed("busy".to_string()));
    assert_eq!(
        closed,
        Err(vec![Leak { path: "/tmp/abc.module".to_string(), cause: "busy".to_string() }])
    );
}

#[test]
fn close_reports_both_files_source_first() {
    let closed =
        bridge().close(Removal::Failed("denied".to_string()), Removal::Failed("busy".to_string()));
    assert_eq!(
        closed,
        Err(vec![
            Leak { path: "/tmp/abc.src".to_string(), cause: "denied".to_string() },
            Leak { path: "/tmp/abc.module".to_string(), cause: "busy".to_string() },
        ])
    );
}

#[test]
fn build_call_close_round_trip() {
    let ffi = bridge();
    let call = ffi.prepare("one", &vec![], Type::Int);
    assert_eq!(ffi.call(&call, Ok(Value::Int(1))), Ok(Value::Int(1)));
    assert_eq!(ffi.close(Removal::Removed, Removal::Removed), Ok(()));
}
