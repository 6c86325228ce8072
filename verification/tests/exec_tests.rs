use pipeshell::exec::history_entry;
use pipeshell::exec::not_found_message;
use pipeshell::exec::plan_pipeline;
use pipeshell::exec::runnable_prefix;
use pipeshell::exec::StdinSource;
use pipeshell::exec::StdoutSink;
use pipeshell::exec::StderrSink;
use pipeshell::parser::parse_input;
use pipeshell::resolve::Resolution;

fn s(v: &str) -> String {
    v.to_string()
}

#[test]
fn a_lone_stage_inherits_both_streams() {
    let p = parse_input("echo hi").unwrap();
    let plan = plan_pipeline(&p);
    assert_eq!(plan.len(), 1);
    assert_eq!(plan[0].stdin, StdinSource::Inherit);
    assert_eq!(plan[0].stdout, StdoutSink::Inherit);
    assert_eq!(plan[0].stderr, StderrSink::Inherit);
}

#[test]
fn a_redirected_stage_writes_the_file_not_the_terminal() {
    let p = parse_input("echo hi > out.txt").unwrap();
    let plan = plan_pipeline(&p);
    assert_eq!(plan[0].stdout, StdoutSink::Redirect);
    assert_eq!(plan[0].stderr, StderrSink::Inherit);
}

#[test]
fn a_stderr_redirection_leaves_stdout_alone() {
    let p = parse_input("cmd 2> err.txt").unwrap();
    let plan = plan_pipeline(&p);
    assert_eq!(plan[0].stdout, StdoutSink::Inherit);
    assert_eq!(plan[0].stderr, StderrSink::Redirect);
}

#[test]
fn the_middle_stage_feeds_the_last_whatever_the_first_does() {
    let p = parse_input("a > f.txt | b | c").unwrap();
    let plan = plan_pipeline(&p);
    assert_eq!(plan.len(), 3);
    // The first stage writes its file, so the second reads the terminal.
    assert_eq!(plan[0].stdout, StdoutSink::Redirect);
    assert_eq!(plan[1].stdin, StdinSource::Inherit);
    // The middle stage keeps its default output: the third reads its pipe,
    // unaffected by the redirection on the first.
    assert_eq!(plan[1].stdout, StdoutSink::PipeToNext);
    assert_eq!(plan[2].stdin, StdinSource::PipeFromPrev);
    assert_eq!(plan[2].stdout, StdoutSink::Inherit);
}

#[test]
fn plain_three_stage_wiring() {
    let p = parse_input("a | b | c").unwrap();
    let plan = plan_pipeline(&p);
    assert_eq!(plan[0].stdout, StdoutSink::PipeToNext);
    assert_eq!(plan[1].stdin, StdinSource::PipeFromPrev);
    assert_eq!(plan[1].stdout, StdoutSink::PipeToNext);
    assert_eq!(plan[2].stdin, StdinSource::PipeFromPrev);
}

#[test]
fn a_redirected_last_stage_stays_redirected() {
    let p = parse_input("a | b > out.txt").unwrap();
    let plan = plan_pipeline(&p);
    assert_eq!(plan[1].stdin, StdinSource::PipeFromPrev);
    assert_eq!(plan[1].stdout, StdoutSink::Redirect);
}

#[test]
fn resolution_failure_cuts_the_pipeline() {
    let rs = vec![
        Resolution::Builtin,
        Resolution::External(s("/bin/b")),
        Resolution::NotFound,
        Resolution::Builtin,
    ];
    assert_eq!(runnable_prefix(&rs), 2);
    let all = vec![Resolution::Builtin, Resolution::External(s("/bin/b"))];
    assert_eq!(runnable_prefix(&all), 2);
    assert_eq!(runnable_prefix(&vec![Resolution::NotFound]), 0);
    assert_eq!(runnable_prefix(&Vec::new()), 0);
}

#[test]
fn the_not_found_report() {
    assert_eq!(not_found_message(&s("wat")), "wat: command not found");
}

#[test]
fn history_entries_join_name_and_arguments() {
    assert_eq!(history_entry(&s("echo"), &vec![s("a"), s("b")]), "echo a b");
    // A stage without arguments still records the separating space.
    assert_eq!(history_entry(&s("pwd"), &Vec::new()), "pwd ");
}
