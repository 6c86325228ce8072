use pipeshell::builtins::cd_outcome;
use pipeshell::builtins::cd_target;
use pipeshell::builtins::chomp;
use pipeshell::builtins::external_output;
use pipeshell::builtins::is_builtin_name;
use pipeshell::builtins::run_echo;
use pipeshell::builtins::run_pwd;
use pipeshell::builtins::run_type;
use pipeshell::builtins::Builtin;
use pipeshell::builtins::BuiltinOutput;

fn s(v: &str) -> String {
    v.to_string()
}

#[test]
fn echo_joins_arguments_with_spaces() {
    let out = run_echo(&vec![s("a b"), s("c")]);
    assert_eq!(out.status, 0);
    assert_eq!(out.std_out, "a b c");
    assert_eq!(out.std_err, "");
}

#[test]
fn echo_with_no_arguments_prints_nothing() {
    let out = run_echo(&Vec::new());
    assert_eq!(out.std_out, "");
}

#[test]
fn the_registry_holds_exactly_six_names() {
    for name in ["cd", "echo", "exit", "history", "pwd", "type"] {
        assert!(is_builtin_name(&s(name)));
    }
    assert!(!is_builtin_name(&s("Echo")));
    assert!(!is_builtin_name(&s("ls")));
    assert!(!is_builtin_name(&s("")));
    assert_eq!(Builtin::from_name(&s("history")), Some(Builtin::History));
    assert_eq!(Builtin::from_name(&s("ls")), None);
    assert_eq!(Builtin::Echo.name(), "echo");
}

#[test]
fn type_reports_a_builtin() {
    let out = run_type(&vec![s("echo")], &Vec::new(), &Vec::new());
    assert_eq!(out.status, 0);
    assert_eq!(out.std_out, "echo is a shell builtin");
    assert_eq!(out.std_err, "");
}

#[test]
fn type_reports_an_unknown_name() {
    let out = run_type(&vec![s("nonexistent_cmd")], &vec![s("/bin")], &vec![false]);
    assert_eq!(out.status, 1);
    assert_eq!(out.std_out, "");
    assert_eq!(out.std_err, "nonexistent_cmd: not found");
}

#[test]
fn type_reports_a_resolved_external() {
    let out = run_type(&vec![s("tool")], &vec![s("/opt"), s("/bin")], &vec![false, true]);
    assert_eq!(out.status, 0);
    assert_eq!(out.std_out, "tool is /bin/tool");
}

#[test]
fn cd_with_no_argument_goes_home() {
    let t = cd_target(&Vec::new(), &Some(s("/home/u"))).expect("home is set");
    assert_eq!(t, "/home/u");
}

#[test]
fn cd_expands_a_leading_tilde() {
    let t = cd_target(&vec![s("~/work")], &Some(s("/home/u"))).expect("home is set");
    assert_eq!(t, "/home/u/work");
    let bare = cd_target(&vec![s("~")], &Some(s("/home/u"))).expect("home is set");
    assert_eq!(bare, "/home/u");
}

#[test]
fn cd_uses_other_paths_verbatim() {
    let t = cd_target(&vec![s("/etc")], &None).expect("no home needed");
    assert_eq!(t, "/etc");
}

#[test]
fn cd_without_a_home_fails() {
    let out = cd_target(&Vec::new(), &None).expect_err("no home");
    assert_eq!(out.status, 1);
    assert_eq!(out.std_err, "Impossible to get home dir");
}

#[test]
fn cd_failure_reports_the_path() {
    let out = cd_outcome(&s("/nonexistent"), false);
    assert_eq!(out.status, 1);
    assert_eq!(out.std_out, "");
    assert_eq!(out.std_err, "cd: /nonexistent: No such file or directory");
}

#[test]
fn cd_success_is_silent() {
    let out = cd_outcome(&s("/tmp"), true);
    assert_eq!(out.status, 0);
    assert_eq!(out.std_out, "");
    assert_eq!(out.std_err, "");
}

#[test]
fn pwd_reports_the_directory_or_the_error() {
    let ok = run_pwd(Ok(s("/somewhere")));
    assert_eq!((ok.status, ok.std_out.as_str(), ok.std_err.as_str()), (0, "/somewhere", ""));
    let bad = run_pwd(Err(s("gone")));
    assert_eq!((bad.status, bad.std_out.as_str(), bad.std_err.as_str()), (1, "", "gone"));
}

#[test]
fn chomp_strips_one_trailing_newline() {
    assert_eq!(chomp(&s("a\n")), "a");
    assert_eq!(chomp(&s("a\n\n")), "a\n");
    assert_eq!(chomp(&s("a")), "a");
    assert_eq!(chomp(&s("")), "");
}

#[test]
fn external_output_normalizes_the_streams() {
    let quiet = external_output(s("hello\n"), s(""));
    assert_eq!((quiet.status, quiet.std_out.as_str(), quiet.std_err.as_str()), (0, "hello", ""));
    let noisy = external_output(s(""), s("boom\n"));
    assert_eq!((noisy.status, noisy.std_err.as_str()), (1, "boom"));
}

#[test]
fn builtin_output_constructor_keeps_its_fields() {
    let out = BuiltinOutput::new(1, s("o"), s("e"));
    assert_eq!((out.status, out.std_out.as_str(), out.std_err.as_str()), (1, "o", "e"));
    let d = BuiltinOutput::default();
    assert_eq!((d.status, d.std_out.as_str(), d.std_err.as_str()), (0, "", ""));
}
