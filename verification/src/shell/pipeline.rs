//! Running a parsed line: stage after stage, each stage's text fed to the next.
use vstd::prelude::*;

use crate::application::vfs::{NodeHandleView, VirtualFileSystem};
use crate::cli::args::GlobalArgs;
use crate::error::{ConfluenceCliError, Result};
use crate::text::{copy_str, strings_view};

use super::builtins::{self, spec_builtin, spec_builtin_outcome, Builtin};
use super::commands::{self, spec_is_registered};
use super::forward::{self, spec_global_words, spec_shell_context};
use super::parser::{ShellLine, SimpleCommand};
use super::state::{spec_change_directory, unit_result, ShellState};
use super::{CommandOutput, ShellControl, ShellRequest, StageResult};

verus! {

/// The most stages a pipeline may have.
pub const MAX_PIPELINE_STAGES: usize = 16;

/// How a line ended: whether the shell goes on, and what it prints.
#[derive(Debug, Clone, PartialEq, Eq)]
pub struct ExecutionOutcome {
    pub control: ShellControl,
    pub output: Option<String>,
}

/// Where a run of a line stands.
#[derive(Debug, Clone, PartialEq, Eq)]
pub enum PipelineStep {
    /// The line is done.
    Finished(ExecutionOutcome),
    /// The stage at index `stage` waits for the host's work; the host resumes after it.
    Paused { request: ShellRequest, stage: usize },
}

/// The text a stage hands on.
pub open spec fn spec_text_of(output: CommandOutput) -> Option<String> {
    match output {
        CommandOutput::Empty => None,
        CommandOutput::Text(t) => Some(t),
    }
}

/// The text a stage hands on, if any.
pub fn into_text(output: CommandOutput) -> (r: Option<String>)
    ensures
        r == spec_text_of(output),
{
    match output {
        CommandOutput::Empty => None,
        CommandOutput::Text(text) => Some(text),
    }
}

/// What one stage may give: an error for an empty stage; a built-in's outcome; a shell
/// command's outcome, which never exits; inside a pipeline, an error for any other
/// command; alone, the request to run it on its own with the context filled in.
pub open spec fn spec_stage<V: VirtualFileSystem>(
    vfs: V,
    lineage: Seq<NodeHandleView>,
    global: GlobalArgs,
    argv: Seq<Seq<char>>,
    input: Option<String>,
    in_pipeline: bool,
    r: Result<StageResult>,
) -> bool {
    if argv.len() == 0 {
        r matches Err(ConfluenceCliError::Config(m)) && m@ == "empty command stage"@
    } else {
        match spec_builtin(argv[0]) {
            Some(b) => spec_builtin_outcome(vfs, lineage, b, argv, in_pipeline, r),
            None => if spec_is_registered(argv[0]) {
                &&& (r matches Ok(StageResult::Done(c, _)) ==> c == ShellControl::Continue)
                &&& (argv[0] == "seq"@ ==> (r matches Ok(
                    StageResult::Request(ShellRequest::NumberSequence(a, i)),
                ) && strings_view(a@) == argv && i == input))
                &&& (argv[0] == "sleep"@ ==> commands::sleep::spec_sleep_outcome(argv, input, r))
            } else if in_pipeline {
                r matches Err(ConfluenceCliError::Config(m)) && m@ == "`"@ + argv[0]
                    + "` is not pipe-aware yet"@
            } else {
                r matches Ok(StageResult::Request(ShellRequest::Forward(v))) && strings_view(v@)
                    == spec_global_words(global) + spec_shell_context(argv, lineage.last())
            },
        }
    }
}

/// Runs one stage.
pub fn execute_stage<V: VirtualFileSystem>(
    state: &mut ShellState<V>,
    argv: &[String],
    input: Option<String>,
    in_pipeline: bool,
) -> (r: Result<StageResult>)
    requires
        old(state).wf(),
    ensures
        final(state).wf(),
        final(state).global_args() == old(state).global_args(),
        final(state).runtime_ctx() == old(state).runtime_ctx(),
        final(state).file_system() == old(state).file_system(),
        final(state).lineage() == old(state).lineage() || (!in_pipeline && argv@.len() == 2 && spec_builtin(
            argv@[0]@,
        ) == Some(Builtin::Cd)),
        !in_pipeline && argv@.len() == 2 && spec_builtin(argv@[0]@) == Some(Builtin::Cd) ==> spec_change_directory(
            old(state).file_system(),
            old(state).lineage(),
            argv@[1]@,
            unit_result(r),
            final(state).lineage(),
        ),
        spec_stage(
            old(state).file_system(),
            old(state).lineage(),
            old(state).global_args(),
            strings_view(argv@),
            input,
            in_pipeline,
            r,
        ),
{
    let ghost av = strings_view(argv@);
    if argv.len() == 0 {
        return Err(ConfluenceCliError::Config(copy_str("empty command stage")));
    }
    let name = argv[0].as_str();
    assert(av[0] == name@);
    if let Some(builtin) = builtins::resolve(name) {
        return builtins::execute(state, builtin, argv, in_pipeline && argv.len() > 0);
    }
    if commands::is_registered(name) {
        return commands::execute(state, argv, input);
    }
    if in_pipeline {
        let mut m = copy_str("`");
        m.append(name);
        m.append("` is not pipe-aware yet");
        return Err(ConfluenceCliError::Config(m));
    }
    let tokens = commands::copy_argv(argv);
    forward::execute_single(state, tokens)
}

/// Stage `i` of the stages, run inside a pipeline when there are several.
pub open spec fn spec_stage_at<V: VirtualFileSystem>(
    vfs: V,
    lineage: Seq<NodeHandleView>,
    global: GlobalArgs,
    stages: Seq<Seq<Seq<char>>>,
    i: int,
    input: Option<String>,
    sr: Result<StageResult>,
) -> bool {
    spec_stage(vfs, lineage, global, stages[i], input, stages.len() > 1, sr)
}

/// What running the stages from index `i` on may give, with `input` fed to stage `i`.
pub open spec fn spec_run_from<V: VirtualFileSystem>(
    vfs: V,
    lineage: Seq<NodeHandleView>,
    global: GlobalArgs,
    stages: Seq<Seq<Seq<char>>>,
    i: int,
    input: Option<String>,
    r: Result<PipelineStep>,
) -> bool
    decreases stages.len() - i, 1int,
{
    if i < 0 || i >= stages.len() {
        false
    } else {
        exists|sr: Result<StageResult>|
            #[trigger] spec_stage_at(vfs, lineage, global, stages, i, input, sr) && spec_after_stage(
                vfs,
                lineage,
                global,
                stages,
                i,
                sr,
                r,
            )
    }
}

/// What follows stage `i` once it gave `sr`: its error, its request, the end of the
/// line, or the next stage fed with its text.
pub open spec fn spec_after_stage<V: VirtualFileSystem>(
    vfs: V,
    lineage: Seq<NodeHandleView>,
    global: GlobalArgs,
    stages: Seq<Seq<Seq<char>>>,
    i: int,
    sr: Result<StageResult>,
    r: Result<PipelineStep>,
) -> bool
    decreases stages.len() - i, 0int,
{
    match sr {
        Err(e) => r == Err::<PipelineStep, ConfluenceCliError>(e),
        Ok(StageResult::Request(q)) => r == Ok::<PipelineStep, ConfluenceCliError>(
            PipelineStep::Paused { request: q, stage: i as usize },
        ),
        Ok(StageResult::Done(c, out)) => if c == ShellControl::Exit || i + 1 >= stages.len() || i < 0 {
            r == Ok::<PipelineStep, ConfluenceCliError>(
                PipelineStep::Finished(ExecutionOutcome { control: c, output: spec_text_of(out) }),
            )
        } else {
            spec_run_from(vfs, lineage, global, stages, i + 1, spec_text_of(out), r)
        },
    }
}

/// The argument words of each stage.
pub open spec fn stages_view(v: Seq<SimpleCommand>) -> Seq<Seq<Seq<char>>> {
    v.map_values(|c: SimpleCommand| strings_view(c.argv@))
}

/// What a line of one stage does to the current path: `cd` with one argument moves as
/// `cd` does; anything else leaves it.
pub open spec fn spec_single_stage_moves<V: VirtualFileSystem>(
    vfs: V,
    lineage: Seq<NodeHandleView>,
    stage: Seq<Seq<char>>,
    r: Result<PipelineStep>,
    after: Seq<NodeHandleView>,
) -> bool {
    if stage.len() == 2 && spec_builtin(stage[0]) == Some(Builtin::Cd) {
        spec_change_directory(vfs, lineage, stage[1], unit_result(r), after)
    } else {
        after == lineage
    }
}

/// Runs the stages from index `index` on, feeding each stage's text to the next, until
/// the last stage, an `exit`, an error, or a stage that needs the host.
pub fn execute_recursive<V: VirtualFileSystem>(
    state: &mut ShellState<V>,
    stages: &[SimpleCommand],
    index: usize,
    input: Option<String>,
) -> (r: Result<PipelineStep>)
    requires
        old(state).wf(),
        index < stages@.len(),
    ensures
        final(state).wf(),
        final(state).global_args() == old(state).global_args(),
        final(state).runtime_ctx() == old(state).runtime_ctx(),
        final(state).file_system() == old(state).file_system(),
        stages@.len() > 1 ==> final(state).lineage() == old(state).lineage(),
        stages@.len() == 1 ==> spec_single_stage_moves(
            old(state).file_system(),
            old(state).lineage(),
            stages_view(stages@)[0],
            r,
            final(state).lineage(),
        ),
        spec_run_from(
            old(state).file_system(),
            old(state).lineage(),
            old(state).global_args(),
            stages_view(stages@),
            index as int,
            input,
            r,
        ),
    decreases stages@.len() - index,
{
    let ghost sv = stages_view(stages@);
    let ghost vfs = state.file_system();
    let ghost lineage = state.lineage();
    let ghost global = state.global_args();
    let in_pipeline = stages.len() > 1;
    let stage = &stages[index];
    assert(sv[index as int] == strings_view(stage.argv@));
    let sr = execute_stage(state, stage.argv.as_slice(), input, in_pipeline);
    let ghost g = sr;
    assert(spec_stage_at(vfs, lineage, global, sv, index as int, input, g));
    match sr {
        Err(e) => {
            assert(spec_run_from(vfs, lineage, global, sv, index as int, input, Err::<PipelineStep, ConfluenceCliError>(e)));
            Err(e)
        },
        Ok(StageResult::Request(q)) => {
            let r = PipelineStep::Paused { request: q, stage: index };
            assert(spec_run_from(vfs, lineage, global, sv, index as int, input, Ok::<PipelineStep, ConfluenceCliError>(r)));
            Ok(r)
        },
        Ok(StageResult::Done(control, output)) => {
            let text = into_text(output);
            if control == ShellControl::Exit || index + 1 == stages.len() {
                let r = PipelineStep::Finished(ExecutionOutcome { control, output: text });
                assert(spec_run_from(vfs, lineage, global, sv, index as int, input, Ok::<PipelineStep, ConfluenceCliError>(r)));
                Ok(r)
            } else {
                let ghost next_input = text;
                let r = execute_recursive(state, stages, index + 1, text);
                assert(spec_run_from(vfs, lineage, global, sv, index + 1, next_input, r));
                assert(spec_run_from(vfs, lineage, global, sv, index as int, input, r));
                r
            }
        },
    }
}

/// Runs a parsed line.
pub fn execute<V: VirtualFileSystem>(state: &mut ShellState<V>, line: ShellLine) -> (r: Result<PipelineStep>)
    requires
        old(state).wf(),
        line.pipeline.commands@.len() >= 1,
    ensures
        final(state).wf(),
        final(state).global_args() == old(state).global_args(),
        final(state).runtime_ctx() == old(state).runtime_ctx(),
        final(state).file_system() == old(state).file_system(),
        line.pipeline.commands@.len() > MAX_PIPELINE_STAGES ==> (r matches Err(ConfluenceCliError::Config(m))
            && m@ == "pipeline depth exceeds maximum of 16 stages"@ && final(state).lineage()
            == old(state).lineage()),
        line.pipeline.commands@.len() == 1 ==> spec_single_stage_moves(
            old(state).file_system(),
            old(state).lineage(),
            stages_view(line.pipeline.commands@)[0],
            r,
            final(state).lineage(),
        ),
        line.pipeline.commands@.len() <= MAX_PIPELINE_STAGES ==> spec_run_from(
            old(state).file_system(),
            old(state).lineage(),
            old(state).global_args(),
            stages_view(line.pipeline.commands@),
            0,
            None,
            r,
        ),
{
    let stages = line.pipeline.commands;
    if stages.len() > MAX_PIPELINE_STAGES {
        return Err(ConfluenceCliError::Config(copy_str("pipeline depth exceeds maximum of 16 stages")));
    }
    execute_recursive(state, stages.as_slice(), 0, None)
}

/// Continues a line after the host has done the work that stage `stage` asked for;
/// `output` is the text that work produced.
pub fn resume<V: VirtualFileSystem>(
    state: &mut ShellState<V>,
    stages: &[SimpleCommand],
    stage: usize,
    output: Option<String>,
) -> (r: Result<PipelineStep>)
    requires
        old(state).wf(),
        stage < stages@.len(),
    ensures
        final(state).wf(),
        final(state).global_args() == old(state).global_args(),
        final(state).runtime_ctx() == old(state).runtime_ctx(),
        final(state).file_system() == old(state).file_system(),
        stage + 1 == stages@.len() ==> r == Ok::<PipelineStep, ConfluenceCliError>(
            PipelineStep::Finished(ExecutionOutcome { control: ShellControl::Continue, output }),
        ),
        stage + 1 < stages@.len() ==> spec_run_from(
            old(state).file_system(),
            old(state).lineage(),
            old(state).global_args(),
            stages_view(stages@),
            stage + 1,
            output,
            r,
        ),
{
    if stage == stages.len() - 1 {
        return Ok(PipelineStep::Finished(ExecutionOutcome { control: ShellControl::Continue, output }));
    }
    execute_recursive(state, stages, stage + 1, output)
}

/// The name a built-in that changes the shell's state is refused under inside a pipeline.
pub open spec fn spec_stateful_name(b: Builtin) -> Option<Seq<char>> {
    match b {
        Builtin::Cd => Some("cd"@),
        Builtin::UseProfile => Some("use profile"@),
        Builtin::Exit => Some("exit"@),
        _ => None,
    }
}

/// A pipeline of several stages whose first stage is `cd`, `use` or `exit` is refused
/// with the pipeline error, before anything runs.
pub proof fn lemma_stateful_builtin_refused_in_pipeline<V: VirtualFileSystem>(
    vfs: V,
    lineage: Seq<NodeHandleView>,
    global: GlobalArgs,
    stages: Seq<Seq<Seq<char>>>,
    input: Option<String>,
    r: Result<PipelineStep>,
)
    requires
        stages.len() > 1,
        stages[0].len() > 0,
        spec_builtin(stages[0][0]) matches Some(b) && spec_stateful_name(b) is Some,
        spec_run_from(vfs, lineage, global, stages, 0, input, r),
    ensures
        builtins::is_pipeline_error(r, spec_stateful_name(spec_builtin(stages[0][0])->0)->0),
{
    let sr = choose|sr: Result<StageResult>|
        #[trigger] spec_stage_at(vfs, lineage, global, stages, 0, input, sr) && spec_after_stage(
            vfs,
            lineage,
            global,
            stages,
            0,
            sr,
            r,
        );
    assert(spec_stage_at(vfs, lineage, global, stages, 0, input, sr));
}

} // verus!
