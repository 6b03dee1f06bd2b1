use mantle_build::activation::{allow_list, ActivationContext};
use mantle_build::args::{arg_value, compiler_args, Acceptance};

fn strings(v: &[&str]) -> Vec<String> {
    v.iter().map(|s| s.to_string()).collect()
}

#[test]
fn crate_name_and_type_are_found_in_both_forms() {
    let args = strings(&["--crate-name=foo", "--crate-type", "bin"]);
    assert_eq!(arg_value(&args, "--crate-name", &Acceptance::Any), Some("foo".to_string()));
    assert_eq!(arg_value(&args, "--crate-type", &Acceptance::Any), Some("bin".to_string()));
}

#[test]
fn refused_occurrence_is_skipped() {
    let args = strings(&["--cfg", "x", "--cfg=y", "--cfg", "z"]);
    let want_z = Acceptance::Equals("z".to_string());
    assert_eq!(arg_value(&args, "--cfg", &want_z), Some("z".to_string()));
    let want_y = Acceptance::Equals("y".to_string());
    assert_eq!(arg_value(&args, "--cfg", &want_y), Some("y".to_string()));
    let want_w = Acceptance::Equals("w".to_string());
    assert_eq!(arg_value(&args, "--cfg", &want_w), None);
}

#[test]
fn first_accepted_occurrence_wins() {
    let args = strings(&["--crate-type", "lib", "--crate-type=bin", "--crate-type", "rlib"]);
    assert_eq!(arg_value(&args, "--crate-type", &Acceptance::Any), Some("lib".to_string()));
}

#[test]
fn consumed_value_is_not_read_as_a_flag() {
    let args = strings(&["--cfg", "--cfg=x", "--cfg", "y"]);
    let want_x = Acceptance::Equals("x".to_string());
    assert_eq!(arg_value(&args, "--cfg", &want_x), None);
    let want_y = Acceptance::Equals("y".to_string());
    assert_eq!(arg_value(&args, "--cfg", &want_y), Some("y".to_string()));
}

#[test]
fn flag_without_value_at_end_gives_none() {
    let args = strings(&["a", "--crate-name"]);
    assert_eq!(arg_value(&args, "--crate-name", &Acceptance::Any), None);
    assert_eq!(arg_value(&strings(&[]), "--crate-name", &Acceptance::Any), None);
}

#[test]
fn value_after_first_equals_keeps_later_equals() {
    let args = strings(&["--cfg=feature=\"x\""]);
    assert_eq!(arg_value(&args, "--cfg", &Acceptance::Any), Some("feature=\"x\"".to_string()));
    let args = strings(&["--cfg="]);
    assert_eq!(arg_value(&args, "--cfg", &Acceptance::Any), Some(String::new()));
}

#[test]
fn one_of_accepts_listed_names_only() {
    let args = strings(&["--crate-name", "c", "--crate-name", "b"]);
    let listed = Acceptance::OneOf(strings(&["a", "b"]));
    assert_eq!(arg_value(&args, "--crate-name", &listed), Some("b".to_string()));
}

#[test]
fn allow_list_splits_on_commas() {
    assert_eq!(allow_list(Some("a,b")), strings(&["a", "b"]));
    assert_eq!(allow_list(Some("a")), strings(&["a"]));
    assert_eq!(allow_list(Some("")), strings(&[""]));
    assert_eq!(allow_list(Some(",x,")), strings(&["", "x", ""]));
    assert_eq!(allow_list(None), Vec::<String>::new());
}

#[test]
fn listed_executable_activates() {
    let args = strings(&["rustc", "--crate-name", "b", "--crate-type", "bin"]);
    let ctx = ActivationContext::from_args(&args, allow_list(Some("a,b")));
    assert_eq!(ctx.crate_name, Some("b".to_string()));
    assert!(ctx.is_bin);
    assert!(!ctx.is_testing);
    assert!(ctx.do_gen());
}

#[test]
fn unset_allow_list_does_not_activate() {
    let args = strings(&["rustc", "--crate-name", "a", "--crate-type", "bin"]);
    let ctx = ActivationContext::from_args(&args, allow_list(None));
    assert_eq!(ctx.crate_name, None);
    assert_eq!(ctx.unit_name, Some("a".to_string()));
    assert!(ctx.is_bin);
    assert!(!ctx.do_gen());
}

#[test]
fn listed_library_does_not_activate() {
    let args = strings(&["rustc", "--crate-name=a", "--crate-type=lib"]);
    let ctx = ActivationContext::from_args(&args, allow_list(Some("a")));
    assert_eq!(ctx.crate_name, Some("a".to_string()));
    assert!(!ctx.is_bin);
    assert!(!ctx.do_gen());
}

#[test]
fn test_mode_activates() {
    let args = strings(&["rustc", "--crate-name", "t", "--cfg", "feature=\"mantle-build-test\""]);
    let ctx = ActivationContext::from_args(&args, allow_list(None));
    assert!(ctx.is_testing);
    assert!(ctx.do_gen());
}

#[test]
fn compiler_path_is_dropped_and_sysroot_appended() {
    let args = strings(&["mantle-build", "/usr/local/bin/rustc", "--crate-name", "x"]);
    let out = compiler_args(args, "/sys/root".to_string());
    assert_eq!(out, strings(&["mantle-build", "--crate-name", "x", "--sysroot", "/sys/root"]));
}

#[test]
fn other_arguments_are_kept() {
    let args = strings(&["mantle-build", "src/main.rs", "--crate-name", "x"]);
    let out = compiler_args(args, "/s".to_string());
    assert_eq!(out, strings(&["mantle-build", "src/main.rs", "--crate-name", "x", "--sysroot", "/s"]));
    let out = compiler_args(strings(&["mantle-build"]), "/s".to_string());
    assert_eq!(out, strings(&["mantle-build", "--sysroot", "/s"]));
}
