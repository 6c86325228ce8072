use pipeshell::history::fmt_usize;
use pipeshell::history::history_line;
use pipeshell::history::listing_from;
use pipeshell::history::pad5;
use pipeshell::history::render_from;
use pipeshell::history::run_history;
use pipeshell::history::History;
use pipeshell::history::HistoryCmd;
use pipeshell::text::parse_usize;

fn s(v: &str) -> String {
    v.to_string()
}

fn three_commands() -> History {
    let mut h = History::new();
    h.add(s("echo one"));
    h.add(s("pwd "));
    h.add(s("type echo"));
    h
}

fn output_of(cmd: HistoryCmd) -> pipeshell::builtins::BuiltinOutput {
    match cmd {
        HistoryCmd::Output(o) => o,
        _ => panic!("expected a finished output"),
    }
}

#[test]
fn listing_three_commands() {
    let h = three_commands();
    let out = output_of(run_history(&Vec::new(), &h));
    assert_eq!(out.status, 0);
    assert_eq!(out.std_out, "    1  echo one\n    2  pwd \n    3  type echo");
    assert_eq!(out.std_err, "");
}

#[test]
fn listing_the_last_two_keeps_indices() {
    let h = three_commands();
    let out = output_of(run_history(&vec![s("2")], &h));
    assert_eq!(out.std_out, "    2  pwd \n    3  type echo");
}

#[test]
fn a_count_beyond_the_log_lists_everything() {
    let h = three_commands();
    let out = output_of(run_history(&vec![s("99")], &h));
    assert_eq!(out.std_out, "    1  echo one\n    2  pwd \n    3  type echo");
}

#[test]
fn a_zero_count_lists_nothing() {
    let h = three_commands();
    let out = output_of(run_history(&vec![s("0")], &h));
    assert_eq!(out.std_out, "");
}

#[test]
fn an_unrecognized_argument_lists_everything() {
    let h = three_commands();
    let out = output_of(run_history(&vec![s("-x"), s("f")], &h));
    assert_eq!(out.std_out, "    1  echo one\n    2  pwd \n    3  type echo");
    let lone = output_of(run_history(&vec![s("-r")], &h));
    assert_eq!(lone.std_out, "    1  echo one\n    2  pwd \n    3  type echo");
}

#[test]
fn an_empty_log_lists_nothing() {
    let h = History::new();
    let out = output_of(run_history(&Vec::new(), &h));
    assert_eq!(out.std_out, "");
}

#[test]
fn read_hands_the_file_back() {
    let h = three_commands();
    match run_history(&vec![s("-r"), s("saved.txt")], &h) {
        HistoryCmd::ReadFrom(f) => assert_eq!(f, "saved.txt"),
        _ => panic!("expected a read request"),
    }
}

#[test]
fn merging_read_lines_skips_blank_ones() {
    let mut h = History::new();
    h.add(s("first"));
    h.append_lines(&vec![s("alpha"), s(""), s("beta"), s("")]);
    assert_eq!(h.commands, vec![s("first"), s("alpha"), s("beta")]);
}

#[test]
fn write_renders_every_entry_with_a_newline() {
    let h = three_commands();
    match run_history(&vec![s("-w"), s("saved.txt")], &h) {
        HistoryCmd::WriteTo(f, content) => {
            assert_eq!(f, "saved.txt");
            assert_eq!(content, "echo one\npwd \ntype echo\n");
        },
        _ => panic!("expected a write request"),
    }
}

#[test]
fn append_starts_after_the_last_boundary() {
    let mut h = History::new();
    h.add(s("echo one "));
    h.add(s("history -a f"));
    h.add(s("echo two "));
    h.add(s("history -a f"));
    assert_eq!(h.append_start_index(), 2);
    match run_history(&vec![s("-a"), s("f")], &h) {
        HistoryCmd::AppendTo(f, content) => {
            assert_eq!(f, "f");
            assert_eq!(content, "echo two \nhistory -a f\n");
        },
        _ => panic!("expected an append request"),
    }
}

#[test]
fn append_without_a_boundary_renders_everything() {
    let mut h = History::new();
    h.add(s("echo one "));
    h.add(s("history -a f"));
    assert_eq!(h.append_start_index(), 0);
    match run_history(&vec![s("-a"), s("f")], &h) {
        HistoryCmd::AppendTo(_, content) => {
            assert_eq!(content, "echo one \nhistory -a f\n");
        },
        _ => panic!("expected an append request"),
    }
}

#[test]
fn decimal_rendering() {
    assert_eq!(fmt_usize(0), "0");
    assert_eq!(fmt_usize(7), "7");
    assert_eq!(fmt_usize(10), "10");
    assert_eq!(fmt_usize(90210), "90210");
}

#[test]
fn five_column_padding() {
    assert_eq!(pad5(&s("1")), "    1");
    assert_eq!(pad5(&s("12345")), "12345");
    assert_eq!(pad5(&s("123456")), "123456");
    assert_eq!(history_line(42, &s("pwd ")), "   42  pwd ");
}

#[test]
fn listing_and_rendering_from_an_index() {
    let entries = vec![s("a"), s("b"), s("c")];
    assert_eq!(listing_from(&entries, 0), "    1  a\n    2  b\n    3  c");
    assert_eq!(listing_from(&entries, 2), "    3  c");
    assert_eq!(listing_from(&entries, 3), "");
    assert_eq!(render_from(&entries, 1), "b\nc\n");
    assert_eq!(render_from(&entries, 3), "");
}

#[test]
fn decimal_parsing_accepts_what_parse_accepts() {
    assert_eq!(parse_usize(&s("2")), Some(2));
    assert_eq!(parse_usize(&s("007")), Some(7));
    assert_eq!(parse_usize(&s("+3")), Some(3));
    assert_eq!(parse_usize(&s("0")), Some(0));
    assert_eq!(parse_usize(&s("")), None);
    assert_eq!(parse_usize(&s("+")), None);
    assert_eq!(parse_usize(&s("-1")), None);
    assert_eq!(parse_usize(&s("1x")), None);
    assert_eq!(parse_usize(&s("x1")), None);
    assert_eq!(parse_usize(&s("99999999999999999999999999")), None);
    assert_eq!(parse_usize(&s(&usize::MAX.to_string())), Some(usize::MAX));
}
