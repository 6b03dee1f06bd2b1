use mantle_build::activation::{allow_list, ActivationContext};
use mantle_build::backend::Error;
use mantle_build::output::{
    artifact_file_name, complete, no_service_message, output_root, Completion, LocateError,
};
use mantle_build::sysroot::sysroot_from_output;

fn strings(v: &[&str]) -> Vec<String> {
    v.iter().map(|s| s.to_string()).collect()
}

#[test]
fn output_root_is_service_under_target() {
    let dir = strings(&["/", "work", "target", "debug", "deps"]);
    assert_eq!(output_root(&dir), Ok(strings(&["/", "work", "target", "service"])));
}

#[test]
fn output_root_of_target_itself() {
    let dir = strings(&["/", "work", "target"]);
    assert_eq!(output_root(&dir), Ok(strings(&["/", "work", "target", "service"])));
}

#[test]
fn output_root_takes_nearest_target() {
    let dir = strings(&["target", "a", "target", "release"]);
    assert_eq!(output_root(&dir), Ok(strings(&["target", "a", "target", "service"])));
}

#[test]
fn output_root_without_target_is_an_error() {
    let dir = strings(&["/", "work", "build", "debug"]);
    assert_eq!(output_root(&dir), Err(LocateError::NoMarker));
    assert_eq!(output_root(&Vec::new()), Err(LocateError::NoMarker));
}

#[test]
fn artifact_is_named_after_service() {
    assert_eq!(artifact_file_name("Counter"), "Counter.json");
}

#[test]
fn no_service_message_names_unit() {
    assert_eq!(no_service_message("ctr"), "No service defined in crate: `ctr`");
}

fn active_context() -> ActivationContext {
    let args = strings(&["rustc", "--crate-name", "ctr", "--crate-type", "bin", "--out-dir", "/w/target/debug/deps"]);
    ActivationContext::from_args(&args, allow_list(Some("ctr")))
}

#[test]
fn missing_descriptor_is_reported() {
    let ctx = active_context();
    let dir = strings(&["/", "w", "target", "debug", "deps"]);
    let r = complete(&ctx, Some(&dir), None);
    match &r {
        Completion::NoService { message } => {
            assert_eq!(message, "No service defined in crate: `ctr`");
        }
        _ => panic!("expected a report"),
    }
    assert_eq!(r.exit_status(), 1);
}

#[test]
fn descriptor_is_written_under_service_dir() {
    let ctx = active_context();
    let dir = strings(&["/", "w", "target", "debug", "deps"]);
    let r = complete(&ctx, Some(&dir), Some("Counter"));
    match &r {
        Completion::Write { dir, file_name } => {
            assert_eq!(dir, &strings(&["/", "w", "target", "service"]));
            assert_eq!(file_name, "Counter.json");
        }
        _ => panic!("expected a write"),
    }
    assert_eq!(r.exit_status(), 0);
}

#[test]
fn inactive_compilation_is_done() {
    let args = strings(&["rustc", "--crate-name", "a", "--crate-type", "bin"]);
    let ctx = ActivationContext::from_args(&args, allow_list(None));
    let dir = strings(&["/", "w", "target", "debug"]);
    let r = complete(&ctx, Some(&dir), None);
    assert!(matches!(r, Completion::Done));
    assert_eq!(r.exit_status(), 0);
}

#[test]
fn missing_out_dir_is_done() {
    let ctx = active_context();
    let r = complete(&ctx, None, Some("Counter"));
    assert!(matches!(r, Completion::Done));
}

#[test]
fn missing_marker_fails() {
    let ctx = active_context();
    let dir = strings(&["/", "w", "out"]);
    let r = complete(&ctx, Some(&dir), Some("Counter"));
    assert!(matches!(r, Completion::NoOutputRoot));
    assert_eq!(r.exit_status(), 1);
}

#[test]
fn sysroot_is_trimmed() {
    let out = b"  /home/u/.rustup/toolchains/nightly\n".to_vec();
    assert_eq!(sysroot_from_output(out), Some("/home/u/.rustup/toolchains/nightly".to_string()));
    assert_eq!(sysroot_from_output(b"\t\n".to_vec()), Some(String::new()));
}

#[test]
fn sysroot_rejects_invalid_utf8() {
    assert_eq!(sysroot_from_output(vec![0x2f, 0xff, 0xfe]), None);
}

#[test]
fn error_exit_codes() {
    assert_eq!(Error::Unknown.exit_code(), 9);
    assert_eq!(Error::InsufficientFunds.exit_code(), 19);
    assert_eq!(Error::InvalidCallee.exit_code(), 44);
    assert_eq!(Error::InvalidInput.exit_code(), 28);
    assert_eq!(Error::Execution { payload: vec![1, 2] }.exit_code(), 13);
}
