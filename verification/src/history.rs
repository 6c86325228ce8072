//! The history log and the `history` builtin.
//!
//! History is an append-only sequence of executed command lines, 1-indexed
//! for display.  The builtin lists it (`history`, `history n`), merges a
//! file into it (`-r`), renders it for a full write (`-w`), or renders the
//! entries added since the last `history -a` boundary (`-a`).  All file
//! traffic stays with the caller: the builtin only decides and formats.

use vstd::prelude::*;

use crate::builtins::BuiltinOutput;
use crate::text::push_char;

verus! {

/// The digit character for a value below ten.
pub open spec fn spec_digit_char(d: int) -> char {
    if d == 0 {
        '0'
    } else if d == 1 {
        '1'
    } else if d == 2 {
        '2'
    } else if d == 3 {
        '3'
    } else if d == 4 {
        '4'
    } else if d == 5 {
        '5'
    } else if d == 6 {
        '6'
    } else if d == 7 {
        '7'
    } else if d == 8 {
        '8'
    } else {
        '9'
    }
}

/// The decimal digits of a number, most significant first.
pub open spec fn spec_decimal(n: nat) -> Seq<char>
    decreases n,
{
    if n < 10 {
        seq![spec_digit_char(n as int)]
    } else {
        spec_decimal(n / 10).push(spec_digit_char((n % 10) as int))
    }
}

fn digit_char_of(d: usize) -> (c: char)
    requires
        d < 10,
    ensures
        c == spec_digit_char(d as int),
{
    if d == 0 {
        '0'
    } else if d == 1 {
        '1'
    } else if d == 2 {
        '2'
    } else if d == 3 {
        '3'
    } else if d == 4 {
        '4'
    } else if d == 5 {
        '5'
    } else if d == 6 {
        '6'
    } else if d == 7 {
        '7'
    } else if d == 8 {
        '8'
    } else {
        '9'
    }
}

/// Renders a number in decimal.
pub fn fmt_usize(n: usize) -> (r: String)
    ensures
        r@ == spec_decimal(n as nat),
    decreases n,
{
    if n < 10 {
        let mut s = String::new();
        push_char(&mut s, digit_char_of(n));
        proof {
            assert(s@ =~= seq![spec_digit_char(n as int)]);
        }
        s
    } else {
        let mut s = fmt_usize(n / 10);
        push_char(&mut s, digit_char_of(n % 10));
        s
    }
}

/// A text right-aligned in a five-column field, as the history index is
/// printed; longer text is kept whole.
pub open spec fn spec_pad5(s: Seq<char>) -> Seq<char> {
    if s.len() >= 5 {
        s
    } else {
        Seq::new((5 - s.len()) as nat, |i: int| ' ') + s
    }
}

/// Right-aligns a text in a five-column field with spaces.
pub fn pad5(s: &String) -> (r: String)
    ensures
        r@ == spec_pad5(s@),
{
    let n = s.as_str().unicode_len();
    if n >= 5 {
        s.clone()
    } else {
        let pad: usize = 5 - n;
        let mut r = String::new();
        let mut k: usize = 0;
        proof {
            assert(r@ =~= Seq::new(0, |i: int| ' '));
        }
        while k < pad
            invariant
                k <= pad,
                r@ == Seq::new(k as nat, |i: int| ' '),
            decreases pad - k,
        {
            push_char(&mut r, ' ');
            k = k + 1;
            proof {
                assert(r@ =~= Seq::new(k as nat, |i: int| ' '));
            }
        }
        r.append(s.as_str());
        proof {
            assert(r@ =~= spec_pad5(s@));
        }
        r
    }
}

/// One listed history entry: the five-column right-aligned 1-based index,
/// two spaces, then the entry.
pub open spec fn spec_history_line(idx: nat, entry: Seq<char>) -> Seq<char> {
    spec_pad5(spec_decimal(idx)) + seq![' ', ' '] + entry
}

/// Renders one listed history entry.
pub fn history_line(idx: usize, entry: &String) -> (r: String)
    ensures
        r@ == spec_history_line(idx as nat, entry@),
{
    let d = fmt_usize(idx);
    let mut r = pad5(&d);
    push_char(&mut r, ' ');
    push_char(&mut r, ' ');
    r.append(entry.as_str());
    proof {
        assert(r@ =~= spec_history_line(idx as nat, entry@));
    }
    r
}

/// The listing of entries `i..`, one line each, newline-separated, with no
/// newline after the final entry of the log.
pub open spec fn spec_listing_from(entries: Seq<Seq<char>>, i: int) -> Seq<char>
    decreases entries.len() - i,
{
    if i >= entries.len() {
        Seq::empty()
    } else if i == entries.len() - 1 {
        spec_history_line((i + 1) as nat, entries[i])
    } else {
        spec_history_line((i + 1) as nat, entries[i]) + seq!['\n'] + spec_listing_from(
            entries,
            i + 1,
        )
    }
}

/// Renders the listing of entries `i..` of the log.  Index numbers reflect
/// the true position in the log, whatever `i` is.
pub fn listing_from(entries: &Vec<String>, i: usize) -> (r: String)
    ensures
        r@ == spec_listing_from(entries.deep_view(), i as int),
    decreases entries@.len() - i,
{
    if i >= entries.len() {
        String::new()
    } else if i == entries.len() - 1 {
        proof {
            assert(entries.deep_view()[i as int] == entries@[i as int]@);
        }
        history_line(i + 1, &entries[i])
    } else {
        proof {
            assert(entries.deep_view()[i as int] == entries@[i as int]@);
        }
        let mut r = history_line(i + 1, &entries[i]);
        push_char(&mut r, '\n');
        let rest = listing_from(entries, i + 1);
        r.append(rest.as_str());
        proof {
            assert(r@ =~= spec_history_line((i + 1) as nat, entries.deep_view()[i as int])
                + seq!['\n'] + spec_listing_from(entries.deep_view(), i + 1));
        }
        r
    }
}

/// The file rendering of entries `i..`: each entry followed by a newline.
pub open spec fn spec_render_from(entries: Seq<Seq<char>>, i: int) -> Seq<char>
    decreases entries.len() - i,
{
    if i >= entries.len() {
        Seq::empty()
    } else {
        entries[i] + seq!['\n'] + spec_render_from(entries, i + 1)
    }
}

/// Renders entries `i..` as file content, one line per entry.
pub fn render_from(entries: &Vec<String>, i: usize) -> (r: String)
    ensures
        r@ == spec_render_from(entries.deep_view(), i as int),
    decreases entries@.len() - i,
{
    if i >= entries.len() {
        String::new()
    } else {
        proof {
            assert(entries.deep_view()[i as int] == entries@[i as int]@);
        }
        let mut r = entries[i].clone();
        push_char(&mut r, '\n');
        let rest = render_from(entries, i + 1);
        r.append(rest.as_str());
        proof {
            assert(r@ =~= entries.deep_view()[i as int] + seq!['\n'] + spec_render_from(
                entries.deep_view(),
                i + 1,
            ));
        }
        r
    }
}

/// The entry marks an append boundary: it starts with `history -a`.
pub open spec fn spec_is_marker(s: Seq<char>) -> bool {
    s.len() >= 10 && s.take(10) == seq!['h', 'i', 's', 't', 'o', 'r', 'y', ' ', '-', 'a']
}

fn is_marker(s: &String) -> (r: bool)
    ensures
        r == spec_is_marker(s@),
{
    proof {
        reveal_strlit("history -a");
        assert("history -a"@ =~= seq!['h', 'i', 's', 't', 'o', 'r', 'y', ' ', '-', 'a']);
    }
    let n = s.as_str().unicode_len();
    if n < 10 {
        false
    } else {
        let t = s.as_str().substring_char(0, 10);
        let ts = String::from_str(t);
        proof {
            assert(s@.subrange(0, 10) =~= s@.take(10));
        }
        ts == String::from_str("history -a")
    }
}

/// Scanning down from position `i - 1` (the last log entry itself is never
/// scanned), the position right after the most recent append boundary, or
/// the start of the log when there is none.
pub open spec fn spec_marker_scan(entries: Seq<Seq<char>>, i: int) -> int
    decreases i,
{
    if i <= 0 {
        0
    } else if spec_is_marker(entries[i - 1]) {
        i
    } else {
        spec_marker_scan(entries, i - 1)
    }
}

fn marker_scan(entries: &Vec<String>, i: usize) -> (r: usize)
    requires
        i <= entries@.len(),
    ensures
        r == spec_marker_scan(entries.deep_view(), i as int),
    decreases i,
{
    if i == 0 {
        0
    } else {
        proof {
            assert(entries.deep_view()[i - 1] == entries@[i - 1]@);
        }
        if is_marker(&entries[i - 1]) {
            i
        } else {
            marker_scan(entries, i - 1)
        }
    }
}

/// Where an append (`history -a`) starts writing: right after the most
/// recent `history -a` entry in the log, the current (final) entry not
/// counting as a boundary; from the start when there is no boundary.
pub open spec fn spec_append_start(entries: Seq<Seq<char>>) -> int {
    if entries.len() == 0 {
        0
    } else {
        spec_marker_scan(entries, entries.len() - 1)
    }
}

/// The lines of a read file that `-r` keeps: the non-blank ones, in order.
pub open spec fn spec_keep_nonempty(ls: Seq<Seq<char>>) -> Seq<Seq<char>>
    decreases ls.len(),
{
    if ls.len() == 0 {
        Seq::empty()
    } else if ls.last().len() > 0 {
        spec_keep_nonempty(ls.drop_last()).push(ls.last())
    } else {
        spec_keep_nonempty(ls.drop_last())
    }
}

/// The append-only log of executed command lines.
#[derive(Debug)]
pub struct History {
    pub commands: Vec<String>,
}

impl History {
    /// An empty log.
    pub fn new() -> (r: Self)
        ensures
            r.commands@.len() == 0,
    {
        History { commands: Vec::new() }
    }

    /// Appends one executed command line.
    pub fn add(&mut self, cmd: String)
        ensures
            final(self).commands@ == old(self).commands@.push(cmd),
            final(self).commands.deep_view() == old(self).commands.deep_view().push(cmd@),
    {
        let ghost olddv = self.commands.deep_view();
        self.commands.push(cmd);
        proof {
            assert(self.commands.deep_view() =~= olddv.push(self.commands@.last()@));
        }
    }

    /// Appends the non-blank lines of a read history file, in order.
    pub fn append_lines(&mut self, lines: &Vec<String>)
        ensures
            final(self).commands.deep_view() == old(self).commands.deep_view()
                + spec_keep_nonempty(lines.deep_view()),
    {
        let ghost base = self.commands.deep_view();
        let ghost ls = lines.deep_view();
        let mut i: usize = 0;
        proof {
            assert(ls.take(0) =~= Seq::<Seq<char>>::empty());
            assert(base + spec_keep_nonempty(ls.take(0)) =~= base);
        }
        while i < lines.len()
            invariant
                i <= lines.len(),
                ls == lines.deep_view(),
                self.commands.deep_view() == base + spec_keep_nonempty(ls.take(i as int)),
            decreases lines.len() - i,
        {
            proof {
                assert(ls.take(i + 1).drop_last() =~= ls.take(i as int));
                assert(ls.take(i + 1).last() == ls[i as int]);
                assert(ls[i as int] == lines@[i as int]@);
            }
            if !lines[i].as_str().is_empty() {
                let ghost olddv = self.commands.deep_view();
                self.commands.push(lines[i].clone());
                proof {
                    assert(self.commands.deep_view() =~= olddv.push(ls[i as int]));
                    assert(olddv.push(ls[i as int]) =~= base + spec_keep_nonempty(
                        ls.take(i + 1),
                    ));
                }
            }
            i = i + 1;
        }
        proof {
            assert(ls.take(lines@.len() as int) =~= ls);
        }
    }

    /// The position `history -a` starts appending from.
    pub fn append_start_index(&self) -> (r: usize)
        ensures
            r == spec_append_start(self.commands.deep_view()),
    {
        if self.commands.len() == 0 {
            0
        } else {
            marker_scan(&self.commands, self.commands.len() - 1)
        }
    }
}

/// What a `history` invocation asks of its caller: a finished output, or a
/// file operation with the exact content to write.
#[derive(Debug)]
pub enum HistoryCmd {
    /// The listing (or nothing) to report; no file is touched.
    Output(BuiltinOutput),
    /// `-r file`: read the file's lines and merge them with
    /// [`History::append_lines`].
    ReadFrom(String),
    /// `-w file`: replace the file's content with the rendered text.
    WriteTo(String, String),
    /// `-a file`: append the rendered text to the file.
    AppendTo(String, String),
}

/// The listing output for entries `skip..`.
fn listing_output(entries: &Vec<String>, skip: usize) -> (r: BuiltinOutput)
    ensures
        r.status == 0,
        r.std_out@ == spec_listing_from(entries.deep_view(), skip as int),
        r.std_err@.len() == 0,
{
    BuiltinOutput { status: 0, std_out: listing_from(entries, skip), std_err: String::new() }
}

/// `history [n | -r file | -w file | -a file]`: with no argument (or an
/// unrecognized one) lists everything; with a count lists the last `n`
/// entries, indices preserved; the file forms hand the exact content or
/// merge request back to the caller.
pub fn run_history(args: &Vec<String>, history: &History) -> (r: HistoryCmd)
    ensures
        ({
            let a = args.deep_view();
            let entries = history.commands.deep_view();
            let len = entries.len();
            if a.len() == 0 {
                r matches HistoryCmd::Output(o) && o.status == 0 && o.std_err@.len() == 0
                    && o.std_out@ == spec_listing_from(entries, 0)
            } else if crate::text::spec_parse_usize(a[0]) is Some {
                let v = crate::text::spec_parse_usize(a[0])->Some_0;
                let skip: int = if v >= len {
                    0
                } else {
                    len - v
                };
                r matches HistoryCmd::Output(o) && o.status == 0 && o.std_err@.len() == 0
                    && o.std_out@ == spec_listing_from(entries, skip)
            } else if a.len() >= 2 && a[0] == "-r"@ {
                r matches HistoryCmd::ReadFrom(f) && f@ == a[1]
            } else if a.len() >= 2 && a[0] == "-w"@ {
                r matches HistoryCmd::WriteTo(f, c) && f@ == a[1] && c@ == spec_render_from(
                    entries,
                    0,
                )
            } else if a.len() >= 2 && a[0] == "-a"@ {
                r matches HistoryCmd::AppendTo(f, c) && f@ == a[1] && c@ == spec_render_from(
                    entries,
                    spec_append_start(entries),
                )
            } else {
                r matches HistoryCmd::Output(o) && o.status == 0 && o.std_err@.len() == 0
                    && o.std_out@ == spec_listing_from(entries, 0)
            }
        }),
{
    let len = history.commands.len();
    if args.len() == 0 {
        return HistoryCmd::Output(listing_output(&history.commands, 0));
    }
    proof {
        assert(args.deep_view()[0] == args@[0]@);
        assert(args@.len() >= 2 ==> args.deep_view()[1] == args@[1]@);
    }
    match crate::text::parse_usize(&args[0]) {
        Some(limit) => {
            let skip: usize = if limit >= len {
                0
            } else {
                len - limit
            };
            return HistoryCmd::Output(listing_output(&history.commands, skip));
        },
        None => {},
    }
    if args.len() >= 2 {
        if args[0] == String::from_str("-r") {
            return HistoryCmd::ReadFrom(args[1].clone());
        }
        if args[0] == String::from_str("-w") {
            return HistoryCmd::WriteTo(args[1].clone(), render_from(&history.commands, 0));
        }
        if args[0] == String::from_str("-a") {
            let start = history.append_start_index();
            return HistoryCmd::AppendTo(
                args[1].clone(),
                render_from(&history.commands, start),
            );
        }
    }
    HistoryCmd::Output(listing_output(&history.commands, 0))
}

} // verus!
