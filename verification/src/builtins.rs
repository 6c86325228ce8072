//! The builtin registry: the fixed set of in-process commands and the pure
//! part of each one.
//!
//! Every builtin is a function from plain values to a [`BuiltinOutput`];
//! whatever a builtin needs from the operating system (the current
//! directory, the home directory, the outcome of changing directory, the
//! file-system probes of the search path) is handed in as an argument, so
//! the decision logic itself is verified for every possible answer.

use vstd::prelude::*;

use crate::resolve::find_excutable;
use crate::resolve::spec_resolve;
use crate::text::spec_join_spaces;
use crate::text::join_spaces;

verus! {

/// The fixed set of in-process commands.
#[derive(Clone, Copy, Debug, PartialEq, Eq, Structural)]
pub enum Builtin {
    Cd,
    Echo,
    Exit,
    History,
    Pwd,
    Type,
}

/// The name each builtin answers to.
pub open spec fn spec_builtin_name(b: Builtin) -> Seq<char> {
    match b {
        Builtin::Cd => seq!['c', 'd'],
        Builtin::Echo => seq!['e', 'c', 'h', 'o'],
        Builtin::Exit => seq!['e', 'x', 'i', 't'],
        Builtin::History => seq!['h', 'i', 's', 't', 'o', 'r', 'y'],
        Builtin::Pwd => seq!['p', 'w', 'd'],
        Builtin::Type => seq!['t', 'y', 'p', 'e'],
    }
}

/// The builtin a name denotes, if any (exact, case-sensitive match).
pub open spec fn spec_builtin_of(s: Seq<char>) -> Option<Builtin> {
    if s == spec_builtin_name(Builtin::Cd) {
        Some(Builtin::Cd)
    } else if s == spec_builtin_name(Builtin::Echo) {
        Some(Builtin::Echo)
    } else if s == spec_builtin_name(Builtin::Exit) {
        Some(Builtin::Exit)
    } else if s == spec_builtin_name(Builtin::History) {
        Some(Builtin::History)
    } else if s == spec_builtin_name(Builtin::Pwd) {
        Some(Builtin::Pwd)
    } else if s == spec_builtin_name(Builtin::Type) {
        Some(Builtin::Type)
    } else {
        None
    }
}

/// The name belongs to the builtin registry.
pub open spec fn spec_is_builtin_name(s: Seq<char>) -> bool {
    spec_builtin_of(s) is Some
}

impl Builtin {
    /// Looks a name up in the registry.
    pub fn from_name(name: &String) -> (r: Option<Builtin>)
        ensures
            r == spec_builtin_of(name@),
    {
        proof {
            reveal_strlit("cd");
            reveal_strlit("echo");
            reveal_strlit("exit");
            reveal_strlit("history");
            reveal_strlit("pwd");
            reveal_strlit("type");
            assert("cd"@ =~= spec_builtin_name(Builtin::Cd));
            assert("echo"@ =~= spec_builtin_name(Builtin::Echo));
            assert("exit"@ =~= spec_builtin_name(Builtin::Exit));
            assert("history"@ =~= spec_builtin_name(Builtin::History));
            assert("pwd"@ =~= spec_builtin_name(Builtin::Pwd));
            assert("type"@ =~= spec_builtin_name(Builtin::Type));
        }
        if *name == String::from_str("cd") {
            Some(Builtin::Cd)
        } else if *name == String::from_str("echo") {
            Some(Builtin::Echo)
        } else if *name == String::from_str("exit") {
            Some(Builtin::Exit)
        } else if *name == String::from_str("history") {
            Some(Builtin::History)
        } else if *name == String::from_str("pwd") {
            Some(Builtin::Pwd)
        } else if *name == String::from_str("type") {
            Some(Builtin::Type)
        } else {
            None
        }
    }

    /// The name of the builtin, as `type` prints it.
    pub fn name(&self) -> (r: String)
        ensures
            r@ == spec_builtin_name(*self),
    {
        proof {
            reveal_strlit("cd");
            reveal_strlit("echo");
            reveal_strlit("exit");
            reveal_strlit("history");
            reveal_strlit("pwd");
            reveal_strlit("type");
            assert("cd"@ =~= spec_builtin_name(Builtin::Cd));
            assert("echo"@ =~= spec_builtin_name(Builtin::Echo));
            assert("exit"@ =~= spec_builtin_name(Builtin::Exit));
            assert("history"@ =~= spec_builtin_name(Builtin::History));
            assert("pwd"@ =~= spec_builtin_name(Builtin::Pwd));
            assert("type"@ =~= spec_builtin_name(Builtin::Type));
        }
        match self {
            Builtin::Cd => String::from_str("cd"),
            Builtin::Echo => String::from_str("echo"),
            Builtin::Exit => String::from_str("exit"),
            Builtin::History => String::from_str("history"),
            Builtin::Pwd => String::from_str("pwd"),
            Builtin::Type => String::from_str("type"),
        }
    }
}

/// Decides whether a name belongs to the builtin registry.
pub fn is_builtin_name(name: &String) -> (r: bool)
    ensures
        r == spec_is_builtin_name(name@),
{
    Builtin::from_name(name).is_some()
}

/// The normalized result of a builtin: an exit status (`0` success, `1`
/// failure) and the text for each standard stream, trailing newline
/// excluded.
#[derive(Debug)]
pub struct BuiltinOutput {
    pub status: u8,
    pub std_out: String,
    pub std_err: String,
}

impl BuiltinOutput {
    /// Packs a status and the two streams.
    pub fn new(status: u8, std_out: String, std_err: String) -> (r: Self)
        ensures
            r.status == status,
            r.std_out == std_out,
            r.std_err == std_err,
    {
        BuiltinOutput { status, std_out, std_err }
    }
}

impl Default for BuiltinOutput {
    /// Success with both streams empty.
    fn default() -> (r: Self)
        ensures
            r.status == 0,
            r.std_out@.len() == 0,
            r.std_err@.len() == 0,
    {
        BuiltinOutput { status: 0, std_out: String::new(), std_err: String::new() }
    }
}

/// `echo`: prints its arguments joined by single spaces; always succeeds.
pub fn run_echo(args: &Vec<String>) -> (r: BuiltinOutput)
    ensures
        r.status == 0,
        r.std_out@ == spec_join_spaces(args.deep_view()),
        r.std_err@.len() == 0,
{
    BuiltinOutput { status: 0, std_out: join_spaces(args), std_err: String::new() }
}

/// `type name`: reports a builtin as such; otherwise reports the resolved
/// search-path candidate, the probes given as in
/// [`find_excutable`](crate::resolve::find_excutable); otherwise fails with
/// `name: not found`.
pub fn run_type(args: &Vec<String>, dirs: &Vec<String>, exec_ok: &Vec<bool>) -> (r: BuiltinOutput)
    requires
        args@.len() >= 1,
        dirs@.len() == exec_ok@.len(),
    ensures
        ({
            let name = args.deep_view()[0];
            if spec_is_builtin_name(name) {
                &&& r.status == 0
                &&& r.std_out@ == name + " is a shell builtin"@
                &&& r.std_err@.len() == 0
            } else {
                match spec_resolve(name, dirs.deep_view(), exec_ok@) {
                    Some(p) => {
                        &&& r.status == 0
                        &&& r.std_out@ == name + " is "@ + p
                        &&& r.std_err@.len() == 0
                    },
                    None => {
                        &&& r.status == 1
                        &&& r.std_out@.len() == 0
                        &&& r.std_err@ == name + ": not found"@
                    },
                }
            }
        }),
{
    let name = &args[0];
    proof {
        assert(args.deep_view()[0] == args@[0]@);
    }
    if is_builtin_name(name) {
        let mut out = name.clone();
        out.append(" is a shell builtin");
        BuiltinOutput { status: 0, std_out: out, std_err: String::new() }
    } else {
        match find_excutable(name, dirs, exec_ok) {
            Some(p) => {
                let mut out = name.clone();
                out.append(" is ");
                out.append(p.as_str());
                proof {
                    assert(out@ =~= name@ + " is "@ + p@);
                }
                BuiltinOutput { status: 0, std_out: out, std_err: String::new() }
            },
            None => {
                let mut err = name.clone();
                err.append(": not found");
                BuiltinOutput { status: 1, std_out: String::new(), std_err: err }
            },
        }
    }
}

/// `pwd`: reports the working directory the caller read, or the error text
/// when it could not be read.
pub fn run_pwd(current: Result<String, String>) -> (r: BuiltinOutput)
    ensures
        current matches Ok(p) ==> r.status == 0 && r.std_out == p && r.std_err@.len() == 0,
        current matches Err(e) ==> r.status == 1 && r.std_out@.len() == 0 && r.std_err == e,
{
    match current {
        Ok(p) => BuiltinOutput { status: 0, std_out: p, std_err: String::new() },
        Err(e) => BuiltinOutput { status: 1, std_out: String::new(), std_err: e },
    }
}

/// The directory `cd` must change to: no argument means home, a leading `~`
/// resolves against home, anything else is used verbatim.  Fails only when
/// home is needed and unavailable.
pub fn cd_target(args: &Vec<String>, home: &Option<String>) -> (r: Result<String, BuiltinOutput>)
    ensures
        ({
            let a = args.deep_view();
            if a.len() == 0 {
                match home {
                    Some(h) => r matches Ok(p) && p@ == h@,
                    None => r matches Err(o) && o.status == 1 && o.std_out@.len() == 0
                        && o.std_err@ == "Impossible to get home dir"@,
                }
            } else if a[0].len() > 0 && a[0][0] == '~' {
                match home {
                    Some(h) => r matches Ok(p) && p@ == h@ + a[0].skip(1),
                    None => r matches Err(o) && o.status == 1 && o.std_out@.len() == 0
                        && o.std_err@ == "Impossible to get home dir"@,
                }
            } else {
                r matches Ok(p) && p@ == a[0]
            }
        }),
{
    proof {
        assert(args@.len() > 0 ==> args.deep_view()[0] == args@[0]@);
    }
    if args.len() == 0 {
        match home {
            Some(h) => Ok(h.clone()),
            None => Err(no_home_output()),
        }
    } else {
        let a0 = &args[0];
        let n = a0.as_str().unicode_len();
        if n > 0 && a0.as_str().get_char(0) == '~' {
            match home {
                Some(h) => {
                    let mut p = h.clone();
                    let rest = a0.as_str().substring_char(1, n);
                    p.append(rest);
                    proof {
                        assert(a0@.subrange(1, n as int) =~= a0@.skip(1));
                    }
                    Ok(p)
                },
                None => Err(no_home_output()),
            }
        } else {
            Ok(a0.clone())
        }
    }
}

/// The failure `cd` reports when the home directory cannot be determined.
fn no_home_output() -> (r: BuiltinOutput)
    ensures
        r.status == 1,
        r.std_out@.len() == 0,
        r.std_err@ == "Impossible to get home dir"@,
{
    BuiltinOutput {
        status: 1,
        std_out: String::new(),
        std_err: String::from_str("Impossible to get home dir"),
    }
}

/// The output `cd` produces once the caller has tried to change directory:
/// silence on success, status 1 and `cd: <path>: No such file or directory`
/// on failure, the working directory then being left unchanged.
pub fn cd_outcome(path: &String, changed: bool) -> (r: BuiltinOutput)
    ensures
        changed ==> r.status == 0 && r.std_out@.len() == 0 && r.std_err@.len() == 0,
        !changed ==> r.status == 1 && r.std_out@.len() == 0 && r.std_err@ == "cd: "@ + path@
            + ": No such file or directory"@,
{
    if changed {
        BuiltinOutput { status: 0, std_out: String::new(), std_err: String::new() }
    } else {
        let mut err = String::from_str("cd: ");
        err.append(path.as_str());
        err.append(": No such file or directory");
        proof {
            assert(err@ =~= "cd: "@ + path@ + ": No such file or directory"@);
        }
        BuiltinOutput { status: 1, std_out: String::new(), std_err: err }
    }
}

/// A captured stream with one trailing newline removed, as external command
/// output is normalized.
pub open spec fn spec_chomp(s: Seq<char>) -> Seq<char> {
    if s.len() > 0 && s.last() == '\n' {
        s.drop_last()
    } else {
        s
    }
}

/// Removes one trailing newline, if present.
pub fn chomp(s: &String) -> (r: String)
    ensures
        r@ == spec_chomp(s@),
{
    let n = s.as_str().unicode_len();
    if n > 0 && s.as_str().get_char(n - 1) == '\n' {
        let t = s.as_str().substring_char(0, n - 1);
        proof {
            assert(s@.subrange(0, n - 1) =~= s@.drop_last());
        }
        String::from_str(t)
    } else {
        s.clone()
    }
}

/// Normalizes what an external command wrote on its two streams: one
/// trailing newline is dropped from each, and the stage counts as failed
/// exactly when anything (beyond that newline) arrived on standard error.
pub fn external_output(std_out: String, std_err: String) -> (r: BuiltinOutput)
    ensures
        r.std_out@ == spec_chomp(std_out@),
        r.std_err@ == spec_chomp(std_err@),
        r.status == 0 <==> spec_chomp(std_err@).len() == 0,
        r.status == 0 || r.status == 1,
{
    let out = chomp(&std_out);
    let err = chomp(&std_err);
    let status: u8 = if err.as_str().is_empty() {
        0
    } else {
        1
    };
    BuiltinOutput { status, std_out: out, std_err: err }
}

} // verus!
