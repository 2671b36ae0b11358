//! The orchestrator: four stages in a fixed order, each fed by the file the
//! one before it wrote, stopped by the first failure.
//!
//! Starting a tool and waiting for it is the caller's part. The caller asks
//! a [`Pipeline`] what to do ([`Pipeline::action`]), does it, and reports how
//! the tool ended ([`Pipeline::record`]), until the pipeline has a result.

use vstd::prelude::*;
use crate::command::{
    crop_command,
    crop_plan,
    merge_command,
    merge_invocation,
    nullify_command,
    nullify_invocation,
    planned,
    resize_command,
    resize_plan,
    texts,
    tool_path,
    Invocation,
    InvocationView,
};
use crate::config::{ConfigSettings, ConfigView};
use crate::outcome::{conclude, result_text, stage_result, OutcomeView, ProcessOutcome};
use crate::stage::{artifact_path, output_file, Stage};

verus! {

/// Everything a run is given, as plain text.
pub struct Inputs {
    /// The tool and working directories.
    pub config: ConfigView,
    /// The bracketed exposures, in the order in which they are merged.
    pub input_images: Seq<Seq<char>>,
    /// The camera's response function file.
    pub response_function: Seq<char>,
    /// Diameter of the fisheye circle, in pixels.
    pub diameter: Seq<char>,
    /// Left edge of the square around the fisheye circle, in pixels.
    pub xleft: Seq<char>,
    /// Lower edge of the square around the fisheye circle, in pixels.
    pub ydown: Seq<char>,
    /// Width of the final image, in pixels.
    pub xdim: Seq<char>,
    /// Height of the final image, in pixels.
    pub ydim: Seq<char>,
}

/// How far a run has come.
pub enum Progress {
    /// The stage is due: every stage before it has succeeded and its own
    /// tool has not reported yet.
    At(Stage),
    /// The run is over, with the final image or with the first failure.
    Finished(Result<Seq<char>, Seq<char>>),
}

/// What the caller has to do next, as plain text.
pub enum ActionView {
    /// Run this command and report how it ended.
    Invoke(InvocationView),
    /// Nothing is left to run: this is the result.
    Finish(Result<Seq<char>, Seq<char>>),
}

/// The inputs and the progress of a [`Pipeline`].
pub struct PipelineView {
    /// What the run was given.
    pub inputs: Inputs,
    /// How far it has come.
    pub progress: Progress,
}

/// The file a stage writes.
pub open spec fn stage_output(inputs: Inputs, stage: Stage) -> Seq<char> {
    artifact_path(inputs.config.temp_path, stage)
}

/// The command of a stage within a run, or the message with which the stage
/// refuses its parameters. Every stage but the first reads the file that the
/// stage before it writes. Merge and nullify refuse nothing; crop reads the
/// geometry and resize the dimensions, each only when its turn has come.
pub open spec fn plan(inputs: Inputs, stage: Stage) -> Result<InvocationView, Seq<char>> {
    match stage {
        Stage::Merge => Ok(
            merge_invocation(
                inputs.config,
                inputs.input_images,
                inputs.response_function,
                stage_output(inputs, stage),
            ),
        ),
        Stage::Nullify => Ok(
            nullify_invocation(
                inputs.config,
                stage_output(inputs, Stage::Merge),
                stage_output(inputs, stage),
            ),
        ),
        Stage::Crop => crop_plan(
            inputs.config,
            stage_output(inputs, Stage::Nullify),
            stage_output(inputs, stage),
            inputs.diameter,
            inputs.xleft,
            inputs.ydown,
        ),
        Stage::Resize => resize_plan(
            inputs.config,
            stage_output(inputs, Stage::Crop),
            stage_output(inputs, stage),
            inputs.xdim,
            inputs.ydim,
        ),
    }
}

/// The result of a stage of a run whose tool ended with `outcome`.
pub open spec fn result_of_stage(
    inputs: Inputs,
    stage: Stage,
    outcome: OutcomeView,
) -> Result<Seq<char>, Seq<char>> {
    stage_result(stage, tool_path(inputs.config, stage), stage_output(inputs, stage), outcome)
}

/// What is to be done at a point of a run: the command of the stage that is
/// due, or the result. A stage that refuses its parameters ends the run with
/// its message, and no command is run for it.
pub open spec fn action_of(inputs: Inputs, progress: Progress) -> ActionView {
    match progress {
        Progress::At(stage) => match plan(inputs, stage) {
            Ok(invocation) => ActionView::Invoke(invocation),
            Err(message) => ActionView::Finish(Err(message)),
        },
        Progress::Finished(result) => ActionView::Finish(result),
    }
}

/// Where a run stands once the tool of the stage that was due has ended
/// with `outcome`. A failure is final and is kept as the stage gave it.
/// Success moves on to the next stage, and after the last stage to the
/// result: the file that stage wrote. A stage that refuses its parameters
/// has no tool to wait for: the run ends with the stage's message, whatever
/// is reported. A finished run stays as it is.
pub open spec fn advance(inputs: Inputs, progress: Progress, outcome: OutcomeView) -> Progress {
    match progress {
        Progress::At(stage) => match plan(inputs, stage) {
            Err(message) => Progress::Finished(Err(message)),
            Ok(_) => match result_of_stage(inputs, stage, outcome) {
                Err(message) => Progress::Finished(Err(message)),
                Ok(path) => match stage.successor() {
                    Some(next) => Progress::At(next),
                    None => Progress::Finished(Ok(path)),
                },
            },
        },
        Progress::Finished(result) => Progress::Finished(result),
    }
}

/// What the caller has to do next.
#[derive(Debug, PartialEq, Eq)]
pub enum Action {
    /// Run this command and report how it ended.
    Invoke(Invocation),
    /// Nothing is left to run: this is the result of the pipeline.
    Finish(Result<String, String>),
}

impl View for Action {
    type V = ActionView;

    open spec fn view(&self) -> ActionView {
        match self {
            Action::Invoke(invocation) => ActionView::Invoke(invocation@),
            Action::Finish(result) => ActionView::Finish(result_text(*result)),
        }
    }
}

enum State {
    At(Stage),
    Finished(Result<String, String>),
}

/// One run of the pipeline.
pub struct Pipeline {
    config: ConfigSettings,
    input_images: Vec<String>,
    response_function: String,
    diameter: String,
    xleft: String,
    ydown: String,
    xdim: String,
    ydim: String,
    state: State,
}

impl View for Pipeline {
    type V = PipelineView;

    closed spec fn view(&self) -> PipelineView {
        PipelineView {
            inputs: Inputs {
                config: self.config@,
                input_images: texts(self.input_images@),
                response_function: self.response_function@,
                diameter: self.diameter@,
                xleft: self.xleft@,
                ydown: self.ydown@,
                xdim: self.xdim@,
                ydim: self.ydim@,
            },
            progress: match self.state {
                State::At(stage) => Progress::At(stage),
                State::Finished(result) => Progress::Finished(result_text(result)),
            },
        }
    }
}

/// Sets up a run of the pipeline.
///
/// Nothing is looked at here: not the paths, not the list of exposures,
/// which may be empty, and not the geometry and dimension texts, which are
/// read by the stages that use them. The run starts at the merge stage.
pub fn pipeline(
    radiance_path: String,
    hdrgen_path: String,
    output_path: String,
    temp_path: String,
    input_images: Vec<String>,
    response_function: String,
    diameter: String,
    xleft: String,
    ydown: String,
    xdim: String,
    ydim: String,
) -> (run: Pipeline)
    ensures
        run@.inputs == (Inputs {
            config: ConfigView {
                radiance_path: radiance_path@,
                hdrgen_path: hdrgen_path@,
                output_path: output_path@,
                temp_path: temp_path@,
            },
            input_images: texts(input_images@),
            response_function: response_function@,
            diameter: diameter@,
            xleft: xleft@,
            ydown: ydown@,
            xdim: xdim@,
            ydim: ydim@,
        }),
        run@.progress == Progress::At(Stage::Merge),
{
    let config = ConfigSettings::new(radiance_path, hdrgen_path, output_path, temp_path);
    Pipeline {
        config,
        input_images,
        response_function,
        diameter,
        xleft,
        ydown,
        xdim,
        ydim,
        state: State::At(Stage::Merge),
    }
}

impl Pipeline {
    /// Builds the command of `stage` from the inputs of this run.
    fn command(&self, stage: Stage) -> (command: Result<Invocation, String>)
        ensures
            planned(command) == plan(self@.inputs, stage),
    {
        let temp = self.config.temp_path();
        let output = output_file(temp, stage);
        match stage {
            Stage::Merge => Ok(
                merge_command(
                    &self.config,
                    &self.input_images,
                    self.response_function.as_str(),
                    output.as_str(),
                ),
            ),
            Stage::Nullify => {
                let input = output_file(temp, Stage::Merge);
                Ok(nullify_command(&self.config, input.as_str(), output.as_str()))
            },
            Stage::Crop => {
                let input = output_file(temp, Stage::Nullify);
                crop_command(
                    &self.config,
                    input.as_str(),
                    output.as_str(),
                    self.diameter.as_str(),
                    self.xleft.as_str(),
                    self.ydown.as_str(),
                )
            },
            Stage::Resize => {
                let input = output_file(temp, Stage::Crop);
                resize_command(
                    &self.config,
                    input.as_str(),
                    output.as_str(),
                    self.xdim.as_str(),
                    self.ydim.as_str(),
                )
            },
        }
    }

    /// Says what has to be done next: the command of the stage that is due,
    /// or the result of the run. Asking changes nothing.
    pub fn action(&self) -> (action: Action)
        ensures
            action@ == action_of(self@.inputs, self@.progress),
    {
        match &self.state {
            State::At(stage) => match self.command(*stage) {
                Ok(invocation) => Action::Invoke(invocation),
                Err(message) => Action::Finish(Err(message)),
            },
            State::Finished(Ok(path)) => Action::Finish(Ok(path.clone())),
            State::Finished(Err(message)) => Action::Finish(Err(message.clone())),
        }
    }

    /// Takes note of how the tool of the stage that is due has ended.
    ///
    /// The inputs stay as they are; the progress becomes what [`advance`]
    /// gives: the failure of the stage, the next stage, or after the last
    /// stage the file it wrote. On a finished run the call changes nothing.
    pub fn record(&mut self, outcome: ProcessOutcome)
        ensures
            final(self)@.inputs == old(self)@.inputs,
            final(self)@.progress == advance(old(self)@.inputs, old(self)@.progress, outcome@),
    {
        let stage: Stage = match &self.state {
            State::At(stage) => *stage,
            State::Finished(_) => {
                return;
            },
        };
        let next: State = match self.command(stage) {
            Err(message) => State::Finished(Err(message)),
            Ok(invocation) => {
                let output = output_file(self.config.temp_path(), stage);
                match conclude(stage, invocation.program.as_str(), output.as_str(), &outcome) {
                    Err(message) => State::Finished(Err(message)),
                    Ok(path) => match stage.next() {
                        Some(following) => State::At(following),
                        None => State::Finished(Ok(path)),
                    },
                }
            },
        };
        self.state = next;
    }
}

} // verus!
