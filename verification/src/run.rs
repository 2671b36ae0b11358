//! Whole runs of the pipeline, and what holds of every one of them.
//!
//! A run is what comes of a caller who follows [`action_of`] and
//! [`advance`] from the merge stage on against tools that end in a given
//! way. The theorems below are stated of all inputs and all tools.

use vstd::prelude::*;
use crate::command::{merge_invocation, parameter_error, InvocationView};
use crate::decimal::parsed_number;
use crate::outcome::OutcomeView;
use crate::pipeline::{
    action_of,
    advance,
    plan,
    result_of_stage,
    stage_output,
    ActionView,
    Inputs,
    Progress,
};
use crate::stage::{artifact_path, Stage};

verus! {

/// A run from start to end.
pub struct Run {
    /// The commands that were run, in order.
    pub commands: Seq<InvocationView>,
    /// The result: the final image, or the message of the first failure.
    pub result: Result<Seq<char>, Seq<char>>,
}

/// How many stages a run may still go through.
pub open spec fn stages_left(progress: Progress) -> nat {
    match progress {
        Progress::At(stage) => (5 - stage.position()) as nat,
        Progress::Finished(_) => 0,
    }
}

/// The rest of a run that stands at `progress`, where the tool of each
/// stage, once started, ends as `tools` says: as long as a command is asked
/// for, it is run and its end is recorded.
pub open spec fn run_from(
    inputs: Inputs,
    tools: spec_fn(Stage) -> OutcomeView,
    progress: Progress,
) -> Run
    decreases stages_left(progress),
{
    match progress {
        Progress::Finished(result) => Run { commands: Seq::empty(), result },
        Progress::At(stage) => match action_of(inputs, progress) {
            ActionView::Finish(result) => Run { commands: Seq::empty(), result },
            ActionView::Invoke(command) => {
                let rest = run_from(inputs, tools, advance(inputs, progress, tools(stage)));
                Run { commands: seq![command] + rest.commands, result: rest.result }
            },
        },
    }
}

/// A whole run.
pub open spec fn run(inputs: Inputs, tools: spec_fn(Stage) -> OutcomeView) -> Run {
    run_from(inputs, tools, Progress::At(Stage::Merge))
}

/// The command of a stage that accepts its parameters.
pub open spec fn command_of(inputs: Inputs, stage: Stage) -> InvocationView
    recommends
        plan(inputs, stage) is Ok,
{
    plan(inputs, stage)->Ok_0
}

/// The commands of the stages before `stage`, in pipeline order.
pub open spec fn commands_before(inputs: Inputs, stage: Stage) -> Seq<InvocationView> {
    match stage {
        Stage::Merge => seq![],
        Stage::Nullify => seq![command_of(inputs, Stage::Merge)],
        Stage::Crop => seq![command_of(inputs, Stage::Merge), command_of(inputs, Stage::Nullify)],
        Stage::Resize => seq![
            command_of(inputs, Stage::Merge),
            command_of(inputs, Stage::Nullify),
            command_of(inputs, Stage::Crop),
        ],
    }
}

/// The commands of the stages up to and including `stage`.
pub open spec fn commands_through(inputs: Inputs, stage: Stage) -> Seq<InvocationView> {
    commands_before(inputs, stage).push(command_of(inputs, stage))
}

/// Whether every stage before `stage` accepts its parameters and its tool
/// succeeds: the condition under which a run reaches `stage`.
pub open spec fn reaches(
    inputs: Inputs,
    tools: spec_fn(Stage) -> OutcomeView,
    stage: Stage,
) -> bool {
    forall|earlier: Stage|
        earlier.position() < stage.position() ==> (#[trigger] plan(inputs, earlier)) is Ok
            && tools(earlier).succeeded()
}

/// Where all four tools run and succeed, the result is the file of the last
/// stage, and the four commands were run in pipeline order.
pub proof fn theorem_success(inputs: Inputs, tools: spec_fn(Stage) -> OutcomeView)
    requires
        forall|stage: Stage| (#[trigger] plan(inputs, stage)) is Ok,
        forall|stage: Stage| (#[trigger] tools(stage)).succeeded(),
    ensures
        run(inputs, tools).result == Ok::<Seq<char>, Seq<char>>(
            artifact_path(inputs.config.temp_path, Stage::Resize),
        ),
        run(inputs, tools).commands == commands_through(inputs, Stage::Resize),
{
    reveal_with_fuel(run_from, 5);
    assert(plan(inputs, Stage::Merge) is Ok);
    assert(plan(inputs, Stage::Nullify) is Ok);
    assert(plan(inputs, Stage::Crop) is Ok);
    assert(plan(inputs, Stage::Resize) is Ok);
    assert(tools(Stage::Merge).succeeded());
    assert(tools(Stage::Nullify).succeeded());
    assert(tools(Stage::Crop).succeeded());
    assert(tools(Stage::Resize).succeeded());
    assert(run(inputs, tools).commands =~= commands_through(inputs, Stage::Resize));
}

/// The first tool that fails ends the run: the result of the run is the
/// result of that stage, unchanged, and no command of a later stage is run.
pub proof fn theorem_failure_stops(
    inputs: Inputs,
    tools: spec_fn(Stage) -> OutcomeView,
    failing: Stage,
)
    requires
        reaches(inputs, tools, failing),
        plan(inputs, failing) is Ok,
        !tools(failing).succeeded(),
    ensures
        run(inputs, tools).result == result_of_stage(inputs, failing, tools(failing)),
        run(inputs, tools).result is Err,
        run(inputs, tools).commands == commands_through(inputs, failing),
{
    reveal_with_fuel(run_from, 5);
    assert(failing != Stage::Merge ==> (plan(inputs, Stage::Merge) is Ok && tools(
        Stage::Merge,
    ).succeeded()));
    assert(failing.position() > 2 ==> (plan(inputs, Stage::Nullify) is Ok && tools(
        Stage::Nullify,
    ).succeeded()));
    assert(failing.position() > 3 ==> (plan(inputs, Stage::Crop) is Ok && tools(
        Stage::Crop,
    ).succeeded()));
    assert(run(inputs, tools).commands =~= commands_through(inputs, failing));
}

/// A stage that refuses its parameters ends the run with its message once
/// its turn has come: the stages before it have run, it and the stages
/// after it have not.
pub proof fn theorem_refusal_stops(
    inputs: Inputs,
    tools: spec_fn(Stage) -> OutcomeView,
    refusing: Stage,
)
    requires
        reaches(inputs, tools, refusing),
        plan(inputs, refusing) is Err,
    ensures
        run(inputs, tools).result == Err::<Seq<char>, Seq<char>>(plan(inputs, refusing)->Err_0),
        run(inputs, tools).commands == commands_before(inputs, refusing),
{
    reveal_with_fuel(run_from, 5);
    assert(refusing != Stage::Merge ==> (plan(inputs, Stage::Merge) is Ok && tools(
        Stage::Merge,
    ).succeeded()));
    assert(refusing.position() > 2 ==> (plan(inputs, Stage::Nullify) is Ok && tools(
        Stage::Nullify,
    ).succeeded()));
    assert(refusing.position() > 3 ==> (plan(inputs, Stage::Crop) is Ok && tools(
        Stage::Crop,
    ).succeeded()));
    assert(run(inputs, tools).commands =~= commands_before(inputs, refusing));
}

/// A run that succeeds has run all four tools, each with success, and its
/// result is the file of the last stage.
pub proof fn theorem_success_needs_all(inputs: Inputs, tools: spec_fn(Stage) -> OutcomeView)
    requires
        run(inputs, tools).result is Ok,
    ensures
        forall|stage: Stage| (#[trigger] plan(inputs, stage)) is Ok,
        forall|stage: Stage| (#[trigger] tools(stage)).succeeded(),
        run(inputs, tools).result == Ok::<Seq<char>, Seq<char>>(
            artifact_path(inputs.config.temp_path, Stage::Resize),
        ),
        run(inputs, tools).commands == commands_through(inputs, Stage::Resize),
{
    reveal_with_fuel(run_from, 5);
    assert(plan(inputs, Stage::Merge) is Ok && tools(Stage::Merge).succeeded());
    assert(plan(inputs, Stage::Nullify) is Ok && tools(Stage::Nullify).succeeded());
    assert(plan(inputs, Stage::Crop) is Ok && tools(Stage::Crop).succeeded());
    assert(plan(inputs, Stage::Resize) is Ok && tools(Stage::Resize).succeeded());
    assert forall|stage: Stage| (#[trigger] plan(inputs, stage)) is Ok by {
        assert(stage.position() >= 1);
    }
    assert forall|stage: Stage| (#[trigger] tools(stage)).succeeded() by {
        assert(stage.position() >= 1);
    }
    assert(run(inputs, tools).commands =~= commands_through(inputs, Stage::Resize));
}

/// No tool is started unless every stage before it has run with success:
/// a stage whose command is among those of a run was reached, and its
/// command stands at the stage's place.
pub proof fn theorem_started_after_upstream(
    inputs: Inputs,
    tools: spec_fn(Stage) -> OutcomeView,
    stage: Stage,
)
    requires
        run(inputs, tools).commands.len() >= stage.position(),
    ensures
        reaches(inputs, tools, stage),
        plan(inputs, stage) is Ok,
        run(inputs, tools).commands[stage.position() - 1] == command_of(inputs, stage),
{
    reveal_with_fuel(run_from, 5);
    assert(plan(inputs, Stage::Merge) is Ok);
    if stage.position() > 1 {
        assert(tools(Stage::Merge).succeeded());
        assert(plan(inputs, Stage::Nullify) is Ok);
    }
    if stage.position() > 2 {
        assert(tools(Stage::Nullify).succeeded());
        assert(plan(inputs, Stage::Crop) is Ok);
    }
    if stage.position() > 3 {
        assert(tools(Stage::Crop).succeeded());
        assert(plan(inputs, Stage::Resize) is Ok);
    }
}

/// A run starts at most four tools, one for each stage: nothing is tried a
/// second time.
pub proof fn theorem_at_most_four_commands(inputs: Inputs, tools: spec_fn(Stage) -> OutcomeView)
    ensures
        run(inputs, tools).commands.len() <= 4,
{
    reveal_with_fuel(run_from, 5);
}

/// The merge tool is started in every run, whatever the inputs are: the list
/// of exposures is handed to it as given, and with an empty list the command
/// holds the fixed arguments alone. What merge reports then decides: its
/// failure is the result of the run, its success lets nullify run.
pub proof fn theorem_merge_always_runs(inputs: Inputs, tools: spec_fn(Stage) -> OutcomeView)
    ensures
        action_of(inputs, Progress::At(Stage::Merge)) == ActionView::Invoke(
            command_of(inputs, Stage::Merge),
        ),
        run(inputs, tools).commands.len() >= 1,
        run(inputs, tools).commands[0] == merge_invocation(
            inputs.config,
            inputs.input_images,
            inputs.response_function,
            artifact_path(inputs.config.temp_path, Stage::Merge),
        ),
        inputs.input_images.len() == 0 ==> run(inputs, tools).commands[0].arguments == seq![
            "-o"@,
            artifact_path(inputs.config.temp_path, Stage::Merge),
            "-r"@,
            inputs.response_function,
            "-a"@,
            "-e"@,
            "-f"@,
            "-g"@,
        ],
        !tools(Stage::Merge).succeeded() ==> run(inputs, tools).result == result_of_stage(
            inputs,
            Stage::Merge,
            tools(Stage::Merge),
        ) && run(inputs, tools).commands.len() == 1,
        tools(Stage::Merge).succeeded() ==> run(inputs, tools).commands.len() >= 2,
{
    reveal_with_fuel(run_from, 3);
    if inputs.input_images.len() == 0 {
        assert(run(inputs, tools).commands[0].arguments =~= seq![
            "-o"@,
            artifact_path(inputs.config.temp_path, Stage::Merge),
            "-r"@,
            inputs.response_function,
            "-a"@,
            "-e"@,
            "-f"@,
            "-g"@,
        ]);
    }
}

/// Geometry and dimensions are read when their stage is due and not before.
/// Two runs that differ in nothing but these texts run the same merge and
/// nullify commands, and where merge or nullify fails they are the same run:
/// same commands, same result. A text that is no number therefore cannot
/// end a run before crop is due.
pub proof fn theorem_parameters_read_late(
    a: Inputs,
    b: Inputs,
    tools: spec_fn(Stage) -> OutcomeView,
)
    requires
        a.config == b.config,
        a.input_images == b.input_images,
        a.response_function == b.response_function,
    ensures
        plan(a, Stage::Merge) is Ok,
        plan(a, Stage::Nullify) is Ok,
        plan(a, Stage::Merge) == plan(b, Stage::Merge),
        plan(a, Stage::Nullify) == plan(b, Stage::Nullify),
        !(tools(Stage::Merge).succeeded() && tools(Stage::Nullify).succeeded()) ==> run(a, tools)
            == run(b, tools),
        tools(Stage::Merge).succeeded() && tools(Stage::Nullify).succeeded() ==> run(
            a,
            tools,
        ).commands.len() >= 2 && run(a, tools).commands.subrange(0, 2) == run(
            b,
            tools,
        ).commands.subrange(0, 2),
        a.diameter == b.diameter && a.xleft == b.xleft && a.ydown == b.ydown ==> plan(
            a,
            Stage::Crop,
        ) == plan(b, Stage::Crop),
{
    reveal_with_fuel(run_from, 5);
    if tools(Stage::Merge).succeeded() && tools(Stage::Nullify).succeeded() {
        assert(run(a, tools).commands.subrange(0, 2) =~= run(b, tools).commands.subrange(0, 2));
    } else {
        assert(run(a, tools).commands =~= run(b, tools).commands);
    }
}

/// A diameter that is no number fails the run at crop and nowhere else:
/// after merge and nullify have run with success, the result is crop's
/// message about the diameter, and neither crop's nor resize's tool is
/// started.
pub proof fn theorem_bad_diameter_fails_at_crop(
    inputs: Inputs,
    tools: spec_fn(Stage) -> OutcomeView,
)
    requires
        parsed_number(inputs.diameter) is None,
        tools(Stage::Merge).succeeded(),
        tools(Stage::Nullify).succeeded(),
    ensures
        run(inputs, tools).result == Err::<Seq<char>, Seq<char>>(
            parameter_error(Stage::Crop, "diameter"@, inputs.diameter),
        ),
        run(inputs, tools).commands == seq![
            command_of(inputs, Stage::Merge),
            command_of(inputs, Stage::Nullify),
        ],
{
    assert(reaches(inputs, tools, Stage::Crop)) by {
        assert forall|earlier: Stage| earlier.position() < Stage::Crop.position() implies (
        #[trigger] plan(inputs, earlier)) is Ok && tools(earlier).succeeded() by {
            assert(earlier == Stage::Merge || earlier == Stage::Nullify);
        }
    }
    theorem_refusal_stops(inputs, tools, Stage::Crop);
}

/// The files of a run are fixed by the working directory alone. Each stage
/// writes the working directory prefix followed by its own file name; two
/// runs on one working directory use the same files, whatever else they
/// were given, and where both succeed they name the same final image.
pub proof fn theorem_files_depend_on_temp_only(
    a: Inputs,
    b: Inputs,
    tools_a: spec_fn(Stage) -> OutcomeView,
    tools_b: spec_fn(Stage) -> OutcomeView,
    stage: Stage,
)
    requires
        a.config.temp_path == b.config.temp_path,
    ensures
        stage_output(a, stage) == a.config.temp_path + stage.artifact_name(),
        stage_output(a, stage) == stage_output(b, stage),
        run(a, tools_a).result is Ok && run(b, tools_b).result is Ok ==> run(a, tools_a).result
            == run(b, tools_b).result,
{
    if run(a, tools_a).result is Ok && run(b, tools_b).result is Ok {
        theorem_success_needs_all(a, tools_a);
        theorem_success_needs_all(b, tools_b);
    }
}

/// The output directory plays no part in a run: two runs that differ in
/// nothing else are the same run.
pub proof fn theorem_output_path_unused(
    a: Inputs,
    b: Inputs,
    tools: spec_fn(Stage) -> OutcomeView,
)
    requires
        a.config.radiance_path == b.config.radiance_path,
        a.config.hdrgen_path == b.config.hdrgen_path,
        a.config.temp_path == b.config.temp_path,
        a.input_images == b.input_images,
        a.response_function == b.response_function,
        a.diameter == b.diameter,
        a.xleft == b.xleft,
        a.ydown == b.ydown,
        a.xdim == b.xdim,
        a.ydim == b.ydim,
    ensures
        run(a, tools) == run(b, tools),
{
    reveal_with_fuel(run_from, 5);
    assert(plan(a, Stage::Merge) == plan(b, Stage::Merge));
    assert(plan(a, Stage::Nullify) == plan(b, Stage::Nullify));
    assert(plan(a, Stage::Crop) == plan(b, Stage::Crop));
    assert(plan(a, Stage::Resize) == plan(b, Stage::Resize));
    assert(run(a, tools).commands =~= run(b, tools).commands);
}

/// Each command names the files of its stage: merge writes its file by
/// name, the other three print their image, which goes to the stage's file,
/// and each of them reads the file of the stage before it.
pub proof fn theorem_commands_name_stage_files(inputs: Inputs)
    ensures
        command_of(inputs, Stage::Merge).stdout is None,
        command_of(inputs, Stage::Merge).arguments[inputs.input_images.len() as int + 1]
            == stage_output(inputs, Stage::Merge),
        command_of(inputs, Stage::Nullify).stdout == Some(stage_output(inputs, Stage::Nullify)),
        command_of(inputs, Stage::Nullify).arguments[2] == stage_output(inputs, Stage::Merge),
        plan(inputs, Stage::Crop) is Ok ==> command_of(inputs, Stage::Crop).stdout == Some(
            stage_output(inputs, Stage::Crop),
        ) && command_of(inputs, Stage::Crop).arguments[4] == stage_output(inputs, Stage::Nullify),
        plan(inputs, Stage::Resize) is Ok ==> command_of(inputs, Stage::Resize).stdout == Some(
            stage_output(inputs, Stage::Resize),
        ) && command_of(inputs, Stage::Resize).arguments[5] == stage_output(inputs, Stage::Crop),
{
}

} // verus!
