//! The command line of each stage.
//!
//! A stage turns its parameters into one [`Invocation`]: the program to
//! start, its arguments, and where its standard output has to go. Starting
//! the program is left to the caller.

use vstd::prelude::*;
use crate::config::{ConfigSettings, ConfigView};
use crate::decimal::{append_decimal, decimal_digits, decimal_text, parse_number, parsed_number};
use crate::stage::Stage;

verus! {

/// One run of an external tool.
#[derive(Debug, PartialEq, Eq)]
pub struct Invocation {
    /// Path of the program to start.
    pub program: String,
    /// The arguments, in order, without the program itself.
    pub arguments: Vec<String>,
    /// The file that receives the program's standard output, for a tool that
    /// prints its image instead of writing it to a named file.
    pub stdout: Option<String>,
}

/// An [`Invocation`] as plain text.
pub struct InvocationView {
    /// Path of the program to start.
    pub program: Seq<char>,
    /// The arguments, in order.
    pub arguments: Seq<Seq<char>>,
    /// The file that receives the program's standard output, if any.
    pub stdout: Option<Seq<char>>,
}

/// The texts of a list of strings.
pub open spec fn texts(list: Seq<String>) -> Seq<Seq<char>> {
    Seq::new(list.len(), |i: int| list[i]@)
}

impl View for Invocation {
    type V = InvocationView;

    open spec fn view(&self) -> InvocationView {
        InvocationView {
            program: self.program@,
            arguments: texts(self.arguments@),
            stdout: match self.stdout {
                Some(path) => Some(path@),
                None => None,
            },
        }
    }
}

/// The plain-text form of a command that may have been refused.
pub open spec fn planned(command: Result<Invocation, String>) -> Result<InvocationView, Seq<char>> {
    match command {
        Ok(invocation) => Ok(invocation@),
        Err(message) => Err(message@),
    }
}

/// File name of the tool that a stage runs.
pub open spec fn tool_name(stage: Stage) -> Seq<char> {
    match stage {
        Stage::Merge => "hdrgen"@,
        Stage::Nullify => "ra_xyze"@,
        Stage::Crop => "pcompos"@,
        Stage::Resize => "pfilt"@,
    }
}

/// Path of the tool that a stage runs: the merger sits under its own prefix,
/// the other three under the Radiance prefix.
pub open spec fn tool_path(config: ConfigView, stage: Stage) -> Seq<char> {
    match stage {
        Stage::Merge => config.hdrgen_path + tool_name(stage),
        _ => config.radiance_path + tool_name(stage),
    }
}

/// The message of a stage that was handed text where it needs a number.
pub open spec fn parameter_error(stage: Stage, parameter: Seq<char>, text: Seq<char>) -> Seq<char> {
    stage.label() + ": invalid "@ + parameter + ": "@ + text
}

/// The merge command: every exposure in the order given, the file to write,
/// the response function, and the merger's switches for alignment, exposure
/// adjustment, flare removal and ghost removal.
pub open spec fn merge_invocation(
    config: ConfigView,
    input_images: Seq<Seq<char>>,
    response_function: Seq<char>,
    output: Seq<char>,
) -> InvocationView {
    InvocationView {
        program: tool_path(config, Stage::Merge),
        arguments: input_images + seq![
            "-o"@,
            output,
            "-r"@,
            response_function,
            "-a"@,
            "-e"@,
            "-f"@,
            "-g"@,
        ],
        stdout: None,
    }
}

/// The nullify command: print `input` as an RGBE image in absolute units, so
/// that its exposure multiplier is neutral. What is printed goes to `output`.
pub open spec fn nullify_invocation(
    config: ConfigView,
    input: Seq<char>,
    output: Seq<char>,
) -> InvocationView {
    InvocationView {
        program: tool_path(config, Stage::Nullify),
        arguments: seq!["-r"@, "-o"@, input],
        stdout: Some(output),
    }
}

/// The crop command: a canvas of `diameter` by `diameter` pixels onto which
/// `input` is placed shifted left by `xleft` and down by `ydown`, so that the
/// square with that bottom-left corner fills the canvas.
pub open spec fn crop_invocation(
    config: ConfigView,
    input: Seq<char>,
    output: Seq<char>,
    diameter: nat,
    xleft: nat,
    ydown: nat,
) -> InvocationView {
    InvocationView {
        program: tool_path(config, Stage::Crop),
        arguments: seq![
            "-x"@,
            decimal_digits(diameter),
            "-y"@,
            decimal_digits(diameter),
            input,
            "-"@ + decimal_digits(xleft),
            "-"@ + decimal_digits(ydown),
        ],
        stdout: Some(output),
    }
}

/// The resize command: one pass over `input` that produces exactly `xdim` by
/// `ydim` pixels.
pub open spec fn resize_invocation(
    config: ConfigView,
    input: Seq<char>,
    output: Seq<char>,
    xdim: nat,
    ydim: nat,
) -> InvocationView {
    InvocationView {
        program: tool_path(config, Stage::Resize),
        arguments: seq![
            "-1"@,
            "-x"@,
            decimal_digits(xdim),
            "-y"@,
            decimal_digits(ydim),
            input,
        ],
        stdout: Some(output),
    }
}

/// What the crop stage does with its parameters: the first of diameter,
/// x and y that is not a pixel count is reported, otherwise the command is
/// built from the three numbers.
pub open spec fn crop_plan(
    config: ConfigView,
    input: Seq<char>,
    output: Seq<char>,
    diameter: Seq<char>,
    xleft: Seq<char>,
    ydown: Seq<char>,
) -> Result<InvocationView, Seq<char>> {
    if parsed_number(diameter) is None {
        Err(parameter_error(Stage::Crop, "diameter"@, diameter))
    } else if parsed_number(xleft) is None {
        Err(parameter_error(Stage::Crop, "xleft"@, xleft))
    } else if parsed_number(ydown) is None {
        Err(parameter_error(Stage::Crop, "ydown"@, ydown))
    } else {
        Ok(
            crop_invocation(
                config,
                input,
                output,
                parsed_number(diameter).unwrap() as nat,
                parsed_number(xleft).unwrap() as nat,
                parsed_number(ydown).unwrap() as nat,
            ),
        )
    }
}

/// What the resize stage does with its parameters: the first of width and
/// height that is not a pixel count is reported, otherwise the command is
/// built from the two numbers.
pub open spec fn resize_plan(
    config: ConfigView,
    input: Seq<char>,
    output: Seq<char>,
    xdim: Seq<char>,
    ydim: Seq<char>,
) -> Result<InvocationView, Seq<char>> {
    if parsed_number(xdim) is None {
        Err(parameter_error(Stage::Resize, "xdim"@, xdim))
    } else if parsed_number(ydim) is None {
        Err(parameter_error(Stage::Resize, "ydim"@, ydim))
    } else {
        Ok(
            resize_invocation(
                config,
                input,
                output,
                parsed_number(xdim).unwrap() as nat,
                parsed_number(ydim).unwrap() as nat,
            ),
        )
    }
}

/// Returns the path of the tool that `stage` runs.
pub fn program_path(config: &ConfigSettings, stage: Stage) -> (path: String)
    ensures
        path@ == tool_path(config@, stage),
{
    match stage {
        Stage::Merge => String::from_str(config.hdrgen_path()).concat("hdrgen"),
        Stage::Nullify => String::from_str(config.radiance_path()).concat("ra_xyze"),
        Stage::Crop => String::from_str(config.radiance_path()).concat("pcompos"),
        Stage::Resize => String::from_str(config.radiance_path()).concat("pfilt"),
    }
}

/// Builds the message of a stage that was handed `text` for `parameter`.
pub fn invalid_parameter(stage: Stage, parameter: &str, text: &str) -> (message: String)
    ensures
        message@ == parameter_error(stage, parameter@, text@),
{
    String::from_str(stage.name()).concat(": invalid ").concat(parameter).concat(": ").concat(text)
}

/// Adds one argument at the end of a list.
fn push_text(list: &mut Vec<String>, text: &str)
    ensures
        texts(final(list)@) == texts(old(list)@).push(text@),
{
    list.push(String::from_str(text));
    assert(texts(list@) =~= texts(old(list)@).push(text@));
}

/// Adds a number, written in decimal, at the end of a list.
fn push_number(list: &mut Vec<String>, n: u32)
    ensures
        texts(final(list)@) == texts(old(list)@).push(decimal_digits(n as nat)),
{
    list.push(decimal_text(n as u64));
    assert(texts(list@) =~= texts(old(list)@).push(decimal_digits(n as nat)));
}

/// Adds a number with a minus sign in front at the end of a list.
fn push_negated(list: &mut Vec<String>, n: u32)
    ensures
        texts(final(list)@) == texts(old(list)@).push("-"@ + decimal_digits(n as nat)),
{
    let mut text = String::from_str("-");
    append_decimal(&mut text, n as u64);
    list.push(text);
    assert(texts(list@) =~= texts(old(list)@).push("-"@ + decimal_digits(n as nat)));
}

/// The command that merges the exposures `input_images`, calibrated by
/// `response_function`, into the file `output`. The list of exposures is
/// passed on as it is, also when it is empty.
pub fn merge_command(
    config: &ConfigSettings,
    input_images: &Vec<String>,
    response_function: &str,
    output: &str,
) -> (command: Invocation)
    ensures
        command@ == merge_invocation(config@, texts(input_images@), response_function@, output@),
{
    let mut arguments: Vec<String> = Vec::new();
    let mut i: usize = 0;
    while i < input_images.len()
        invariant
            i <= input_images.len(),
            texts(arguments@) == texts(input_images@).subrange(0, i as int),
        decreases input_images.len() - i,
    {
        let ghost before = arguments@;
        let image: String = input_images[i].clone();
        arguments.push(image);
        assert(texts(before).len() == i);
        assert(texts(arguments@).len() == i + 1);
        assert forall|j: int| 0 <= j < i + 1 implies texts(arguments@)[j] == texts(
            input_images@,
        )[j] by {
            if j < i {
                assert(texts(before)[j] == texts(input_images@).subrange(0, i as int)[j]);
            }
        }
        i = i + 1;
        assert(texts(arguments@) =~= texts(input_images@).subrange(0, i as int));
    }
    assert(texts(arguments@) =~= texts(input_images@));
    push_text(&mut arguments, "-o");
    push_text(&mut arguments, output);
    push_text(&mut arguments, "-r");
    push_text(&mut arguments, response_function);
    push_text(&mut arguments, "-a");
    push_text(&mut arguments, "-e");
    push_text(&mut arguments, "-f");
    push_text(&mut arguments, "-g");
    let command = Invocation {
        program: program_path(config, Stage::Merge),
        arguments,
        stdout: None,
    };
    assert(command@.arguments =~= merge_invocation(
        config@,
        texts(input_images@),
        response_function@,
        output@,
    ).arguments);
    command
}

/// The command that reads the merged image `input` and writes it to `output`
/// with a neutral exposure multiplier. `input` itself is left as it is.
pub fn nullify_command(config: &ConfigSettings, input: &str, output: &str) -> (command: Invocation)
    ensures
        command@ == nullify_invocation(config@, input@, output@),
{
    let mut arguments: Vec<String> = Vec::new();
    push_text(&mut arguments, "-r");
    push_text(&mut arguments, "-o");
    push_text(&mut arguments, input);
    let command = Invocation {
        program: program_path(config, Stage::Nullify),
        arguments,
        stdout: Some(String::from_str(output)),
    };
    assert(command@.arguments =~= nullify_invocation(config@, input@, output@).arguments);
    command
}

/// The command that cuts the square around the fisheye circle out of `input`
/// and writes it to `output`. The diameter of the circle and the corner of
/// the square arrive as text and are read here; the first of them that is no
/// pixel count is reported in place of a command.
pub fn crop_command(
    config: &ConfigSettings,
    input: &str,
    output: &str,
    diameter: &str,
    xleft: &str,
    ydown: &str,
) -> (command: Result<Invocation, String>)
    ensures
        planned(command) == crop_plan(config@, input@, output@, diameter@, xleft@, ydown@),
{
    let side: u32 = match parse_number(diameter) {
        Some(n) => n,
        None => {
            return Err(invalid_parameter(Stage::Crop, "diameter", diameter));
        },
    };
    let left: u32 = match parse_number(xleft) {
        Some(n) => n,
        None => {
            return Err(invalid_parameter(Stage::Crop, "xleft", xleft));
        },
    };
    let down: u32 = match parse_number(ydown) {
        Some(n) => n,
        None => {
            return Err(invalid_parameter(Stage::Crop, "ydown", ydown));
        },
    };
    let mut arguments: Vec<String> = Vec::new();
    push_text(&mut arguments, "-x");
    push_number(&mut arguments, side);
    push_text(&mut arguments, "-y");
    push_number(&mut arguments, side);
    push_text(&mut arguments, input);
    push_negated(&mut arguments, left);
    push_negated(&mut arguments, down);
    let command = Invocation {
        program: program_path(config, Stage::Crop),
        arguments,
        stdout: Some(String::from_str(output)),
    };
    assert(command@.arguments =~= crop_invocation(
        config@,
        input@,
        output@,
        side as nat,
        left as nat,
        down as nat,
    ).arguments);
    Ok(command)
}

/// The command that resamples `input` to `xdim` by `ydim` pixels and writes
/// the result to `output`. Width and height arrive as text and are read
/// here; the first of them that is no pixel count is reported in place of a
/// command.
pub fn resize_command(
    config: &ConfigSettings,
    input: &str,
    output: &str,
    xdim: &str,
    ydim: &str,
) -> (command: Result<Invocation, String>)
    ensures
        planned(command) == resize_plan(config@, input@, output@, xdim@, ydim@),
{
    let width: u32 = match parse_number(xdim) {
        Some(n) => n,
        None => {
            return Err(invalid_parameter(Stage::Resize, "xdim", xdim));
        },
    };
    let height: u32 = match parse_number(ydim) {
        Some(n) => n,
        None => {
            return Err(invalid_parameter(Stage::Resize, "ydim", ydim));
        },
    };
    let mut arguments: Vec<String> = Vec::new();
    push_text(&mut arguments, "-1");
    push_text(&mut arguments, "-x");
    push_number(&mut arguments, width);
    push_text(&mut arguments, "-y");
    push_number(&mut arguments, height);
    push_text(&mut arguments, input);
    let command = Invocation {
        program: program_path(config, Stage::Resize),
        arguments,
        stdout: Some(String::from_str(output)),
    };
    assert(command@.arguments =~= resize_invocation(
        config@,
        input@,
        output@,
        width as nat,
        height as nat,
    ).arguments);
    Ok(command)
}

} // verus!
