//! The pipeline executor's wiring plan.
//!
//! Stages run strictly in order.  For each stage the plan fixes where its
//! standard input comes from (the previous stage's pipe, or the inherited
//! stream), where its standard output goes (a redirection file, a fresh
//! pipe to the next stage, or the inherited stream) and where its standard
//! error goes.  The caller performs the plan: it opens the files, creates
//! the pipes, runs builtins in-process and spawns externals, and records a
//! history entry per stage.  A stage that fails to resolve aborts the
//! stages after it, which [`runnable_prefix`] decides.

use vstd::prelude::*;

use crate::parser::CommandSpec;
use crate::parser::CommandView;
use crate::parser::Pipeline;
use crate::parser::RedirStream;
use crate::parser::has_stdout_redir;
use crate::parser::has_stderr_redir;
use crate::resolve::Resolution;
use crate::text::spec_join_spaces;
use crate::text::join_spaces;
use crate::text::push_char;

verus! {

/// Where a stage reads its standard input.
#[derive(Clone, Copy, Debug, PartialEq, Eq, Structural)]
pub enum StdinSource {
    /// The inherited (terminal) stream.
    Inherit,
    /// The read end of the pipe the previous stage wrote.
    PipeFromPrev,
}

/// Where a stage writes its standard output.
#[derive(Clone, Copy, Debug, PartialEq, Eq, Structural)]
pub enum StdoutSink {
    /// Its stdout redirection file.
    Redirect,
    /// The write end of a fresh pipe whose read end goes to the next stage.
    PipeToNext,
    /// The inherited (terminal) stream.
    Inherit,
}

/// Where a stage writes its standard error.
#[derive(Clone, Copy, Debug, PartialEq, Eq, Structural)]
pub enum StderrSink {
    /// Its stderr redirection file.
    Redirect,
    /// The inherited (terminal) stream.
    Inherit,
}

/// The wiring of one stage.
#[derive(Clone, Copy, Debug, PartialEq, Eq, Structural)]
pub struct StagePlan {
    pub stdin: StdinSource,
    pub stdout: StdoutSink,
    pub stderr: StderrSink,
}

/// The wiring of stage `i` of a pipeline: input from the previous stage's
/// pipe exactly when there is a previous stage and it kept its default
/// output; output to its redirection file, else to a fresh pipe unless the
/// stage is last; error to its redirection file, else inherited.
pub open spec fn spec_stage_plan(p: Seq<CommandView>, i: int) -> StagePlan {
    StagePlan {
        stdin: if i > 0 && !has_stdout_redir(p[i - 1]) {
            StdinSource::PipeFromPrev
        } else {
            StdinSource::Inherit
        },
        stdout: if has_stdout_redir(p[i]) {
            StdoutSink::Redirect
        } else if i + 1 < p.len() {
            StdoutSink::PipeToNext
        } else {
            StdoutSink::Inherit
        },
        stderr: if has_stderr_redir(p[i]) {
            StderrSink::Redirect
        } else {
            StderrSink::Inherit
        },
    }
}

/// The wiring of a whole pipeline, stage by stage.
pub open spec fn spec_plan(p: Seq<CommandView>) -> Seq<StagePlan> {
    Seq::new(p.len(), |i: int| spec_stage_plan(p, i))
}

/// The stage names a stdout redirection.
pub fn stage_has_stdout_redir(c: &CommandSpec) -> (r: bool)
    ensures
        r == has_stdout_redir(c@),
{
    let mut j: usize = 0;
    while j < c.redirections.len()
        invariant
            j <= c.redirections@.len(),
            forall|k: int|
                0 <= k < j ==> #[trigger] c@.redirections[k].stream != RedirStream::Stdout,
        decreases c.redirections@.len() - j,
    {
        proof {
            assert(c@.redirections[j as int] == c.redirections@[j as int]@);
        }
        if c.redirections[j].stream == RedirStream::Stdout {
            return true;
        }
        j = j + 1;
    }
    false
}

/// The stage names a stderr redirection.
pub fn stage_has_stderr_redir(c: &CommandSpec) -> (r: bool)
    ensures
        r == has_stderr_redir(c@),
{
    let mut j: usize = 0;
    while j < c.redirections.len()
        invariant
            j <= c.redirections@.len(),
            forall|k: int|
                0 <= k < j ==> #[trigger] c@.redirections[k].stream != RedirStream::Stderr,
        decreases c.redirections@.len() - j,
    {
        proof {
            assert(c@.redirections[j as int] == c.redirections@[j as int]@);
        }
        if c.redirections[j].stream == RedirStream::Stderr {
            return true;
        }
        j = j + 1;
    }
    false
}

/// Computes the wiring of every stage of a pipeline.
pub fn plan_pipeline(p: &Pipeline) -> (r: Vec<StagePlan>)
    ensures
        r@ == spec_plan(p@),
{
    let n = p.stages.len();
    let mut r: Vec<StagePlan> = Vec::new();
    let mut prev_redir = false;
    let mut i: usize = 0;
    proof {
        assert(r@ =~= spec_plan(p@).take(0));
    }
    while i < n
        invariant
            i <= n,
            n == p.stages@.len(),
            r@ == spec_plan(p@).take(i as int),
            i > 0 ==> prev_redir == has_stdout_redir(p@[i - 1]),
        decreases n - i,
    {
        proof {
            assert(p@[i as int] == p.stages@[i as int]@);
        }
        let out_redir = stage_has_stdout_redir(&p.stages[i]);
        let err_redir = stage_has_stderr_redir(&p.stages[i]);
        let plan = StagePlan {
            stdin: if i > 0 && !prev_redir {
                StdinSource::PipeFromPrev
            } else {
                StdinSource::Inherit
            },
            stdout: if out_redir {
                StdoutSink::Redirect
            } else if i + 1 < n {
                StdoutSink::PipeToNext
            } else {
                StdoutSink::Inherit
            },
            stderr: if err_redir {
                StderrSink::Redirect
            } else {
                StderrSink::Inherit
            },
        };
        r.push(plan);
        prev_redir = out_redir;
        i = i + 1;
        proof {
            assert(r@ =~= spec_plan(p@).take(i as int));
        }
    }
    proof {
        assert(spec_plan(p@).take(n as int) =~= spec_plan(p@));
    }
    r
}

/// The pipe law: a stage that keeps its default output feeds the next
/// stage through a fresh pipe, and the next stage's input source depends on
/// that stage alone — in a pipeline `a | b | c`, what `c` reads is wired to
/// `b`'s pipe whenever `b` has no stdout redirection, whatever the
/// redirections of `a` or of any other stage are.
pub proof fn lemma_pipe_feeds_next(p: Seq<CommandView>, i: int)
    requires
        0 <= i,
        i + 1 < p.len(),
    ensures
        spec_plan(p)[i + 1].stdin == StdinSource::PipeFromPrev <==> !has_stdout_redir(p[i]),
        spec_plan(p)[i].stdout == StdoutSink::PipeToNext <==> !has_stdout_redir(p[i]),
{
}

/// How many leading stages may run: every stage before the first
/// unresolvable one, and all of them when every stage resolves.  The first
/// unresolvable stage is reported and the stages after it never start.
pub fn runnable_prefix(rs: &Vec<Resolution>) -> (r: usize)
    ensures
        r <= rs@.len(),
        forall|k: int| 0 <= k < r ==> !(#[trigger] rs@[k] is NotFound),
        r < rs@.len() ==> rs@[r as int] is NotFound,
{
    let mut i: usize = 0;
    while i < rs.len()
        invariant
            i <= rs@.len(),
            forall|k: int| 0 <= k < i ==> !(#[trigger] rs@[k] is NotFound),
        decreases rs@.len() - i,
    {
        match &rs[i] {
            Resolution::NotFound => {
                return i;
            },
            _ => {},
        }
        i = i + 1;
    }
    i
}

/// The report for a stage that resolves nowhere.
pub fn not_found_message(name: &String) -> (r: String)
    ensures
        r@ == name@ + ": command not found"@,
{
    let mut r = name.clone();
    r.append(": command not found");
    r
}

/// The history entry recorded for an executed stage: the name, a space,
/// then the arguments joined by spaces.
pub fn history_entry(name: &String, args: &Vec<String>) -> (r: String)
    ensures
        r@ == name@ + seq![' '] + spec_join_spaces(args.deep_view()),
{
    let mut r = name.clone();
    push_char(&mut r, ' ');
    let joined = join_spaces(args);
    r.append(joined.as_str());
    proof {
        assert(r@ =~= name@ + seq![' '] + spec_join_spaces(args.deep_view()));
    }
    r
}

} // verus!
