//! The four stages of the pipeline and the order in which they run.

use vstd::prelude::*;

verus! {

/// One step of the pipeline. Each stage runs exactly one external tool.
#[derive(Clone, Copy, Debug, PartialEq, Eq, Structural)]
pub enum Stage {
    /// Merges the bracketed exposures into one image.
    Merge,
    /// Resets the exposure multiplier of the merged image to neutral.
    Nullify,
    /// Cuts out the square around the fisheye circle.
    Crop,
    /// Resamples the cropped image to the target resolution.
    Resize,
}

impl Stage {
    /// Position of the stage in the pipeline, starting at one.
    pub open spec fn position(self) -> int {
        match self {
            Stage::Merge => 1,
            Stage::Nullify => 2,
            Stage::Crop => 3,
            Stage::Resize => 4,
        }
    }

    /// The stage that consumes this stage's output, if any.
    pub open spec fn successor(self) -> Option<Stage> {
        match self {
            Stage::Merge => Some(Stage::Nullify),
            Stage::Nullify => Some(Stage::Crop),
            Stage::Crop => Some(Stage::Resize),
            Stage::Resize => None,
        }
    }

    /// What the stage is called in messages.
    pub open spec fn label(self) -> Seq<char> {
        match self {
            Stage::Merge => "merge exposures"@,
            Stage::Nullify => "nullify exposure value"@,
            Stage::Crop => "crop"@,
            Stage::Resize => "resize"@,
        }
    }

    /// Returns what the stage is called in messages.
    pub fn name(self) -> (name: &'static str)
        ensures
            name@ == self.label(),
    {
        match self {
            Stage::Merge => "merge exposures",
            Stage::Nullify => "nullify exposure value",
            Stage::Crop => "crop",
            Stage::Resize => "resize",
        }
    }

    /// Name of the file that holds this stage's result.
    pub open spec fn artifact_name(self) -> Seq<char> {
        match self {
            Stage::Merge => "output1.hdr"@,
            Stage::Nullify => "output2.hdr"@,
            Stage::Crop => "output3.hdr"@,
            Stage::Resize => "output4.hdr"@,
        }
    }

    /// Returns the name of the file that holds this stage's result.
    pub fn file_name(self) -> (name: &'static str)
        ensures
            name@ == self.artifact_name(),
    {
        match self {
            Stage::Merge => "output1.hdr",
            Stage::Nullify => "output2.hdr",
            Stage::Crop => "output3.hdr",
            Stage::Resize => "output4.hdr",
        }
    }

    /// Returns the stage that runs after this one, or `None` for the last.
    pub fn next(self) -> (next: Option<Stage>)
        ensures
            next == self.successor(),
    {
        match self {
            Stage::Merge => Some(Stage::Nullify),
            Stage::Nullify => Some(Stage::Crop),
            Stage::Crop => Some(Stage::Resize),
            Stage::Resize => None,
        }
    }
}

/// Where a stage writes its result: the working directory prefix followed
/// directly by the stage's file name. Nothing else enters the path, so every
/// run on one working directory uses the same four files.
pub open spec fn artifact_path(temp_path: Seq<char>, stage: Stage) -> Seq<char> {
    temp_path + stage.artifact_name()
}

/// Builds the path of the file a stage writes.
pub fn output_file(temp_path: &str, stage: Stage) -> (path: String)
    ensures
        path@ == artifact_path(temp_path@, stage),
{
    String::from_str(temp_path).concat(stage.file_name())
}

} // verus!
