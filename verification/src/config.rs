//! Where the tools live and where the pipeline keeps its files.

use vstd::prelude::*;

verus! {

/// The paths a pipeline run works with. The values are taken as given and
/// never change during a run; a path that does not exist shows up as the
/// failure of the tool that needs it.
#[derive(Debug, PartialEq, Eq)]
pub struct ConfigSettings {
    radiance_path: String,
    hdrgen_path: String,
    output_path: String,
    temp_path: String,
}

/// The four paths of a [`ConfigSettings`] as plain text.
pub struct ConfigView {
    /// Directory prefix of the Radiance tools.
    pub radiance_path: Seq<char>,
    /// Directory prefix of the exposure merger.
    pub hdrgen_path: Seq<char>,
    /// Directory reserved for the finished image.
    pub output_path: Seq<char>,
    /// Directory prefix of every file the pipeline writes.
    pub temp_path: Seq<char>,
}

impl View for ConfigSettings {
    type V = ConfigView;

    closed spec fn view(&self) -> ConfigView {
        ConfigView {
            radiance_path: self.radiance_path@,
            hdrgen_path: self.hdrgen_path@,
            output_path: self.output_path@,
            temp_path: self.temp_path@,
        }
    }
}

impl ConfigSettings {
    /// Collects the four paths without looking at them.
    pub fn new(
        radiance_path: String,
        hdrgen_path: String,
        output_path: String,
        temp_path: String,
    ) -> (config: ConfigSettings)
        ensures
            config@.radiance_path == radiance_path@,
            config@.hdrgen_path == hdrgen_path@,
            config@.output_path == output_path@,
            config@.temp_path == temp_path@,
    {
        ConfigSettings { radiance_path, hdrgen_path, output_path, temp_path }
    }

    /// Directory prefix of the Radiance tools.
    pub fn radiance_path(&self) -> (path: &str)
        ensures
            path@ == self@.radiance_path,
    {
        self.radiance_path.as_str()
    }

    /// Directory prefix of the exposure merger.
    pub fn hdrgen_path(&self) -> (path: &str)
        ensures
            path@ == self@.hdrgen_path,
    {
        self.hdrgen_path.as_str()
    }

    /// Directory reserved for the finished image. No stage reads it.
    pub fn output_path(&self) -> (path: &str)
        ensures
            path@ == self@.output_path,
    {
        self.output_path.as_str()
    }

    /// Directory prefix of every file the pipeline writes.
    pub fn temp_path(&self) -> (path: &str)
        ensures
            path@ == self@.temp_path,
    {
        self.temp_path.as_str()
    }
}

} // verus!
