//! The error taxonomy of the pipeline.
//!
//! Every failure is fatal and is reported with the stage it arose in, so the
//! caller can tell acquisition, layered build and launch failures apart.

use vstd::prelude::*;
use vstd::string::StringExecFns;

verus! {

/// The stage of the pipeline in which an error arose.
#[derive(Clone, Copy, Debug, PartialEq, Eq, Structural)]
pub enum Stage {
    /// Loading and parsing the configuration file.
    ConfigLoad,
    /// Producing the dev-image reference (build of a user recipe, or passthrough).
    Acquisition,
    /// The layered build of the embedded recipe on top of the dev image.
    LayeredBuild,
    /// Replacing the process with the interactive container run.
    Launch,
}

/// A fatal pipeline error. No retries exist: each one aborts the run.
#[derive(Clone, Copy, Debug, PartialEq, Eq, Structural)]
pub enum PipelineError {
    /// A path (workspace or recipe file) could not be made absolute.
    PathResolution(Stage),
    /// A subprocess could not be spawned, or its handles could not be taken.
    BuildProcess(Stage),
    /// A build produced no output lines, so no image identifier was captured.
    BuildOutputEmpty(Stage),
    /// A line of subprocess output was not valid text.
    LineDecode(Stage),
    /// The configuration file was malformed.
    ConfigParse,
}

/// The name under which a stage is reported.
pub open spec fn stage_name_spec(s: Stage) -> Seq<char> {
    match s {
        Stage::ConfigLoad => "config load"@,
        Stage::Acquisition => "image acquisition"@,
        Stage::LayeredBuild => "layered build"@,
        Stage::Launch => "interactive launch"@,
    }
}

/// The full report text of an error: the stage, then what went wrong.
pub open spec fn message_spec(e: PipelineError) -> Seq<char> {
    match e {
        PipelineError::PathResolution(s) => stage_name_spec(s)
            + ": path could not be resolved to an absolute path"@,
        PipelineError::BuildProcess(s) => stage_name_spec(s)
            + ": build subprocess could not be spawned or its handles taken"@,
        PipelineError::BuildOutputEmpty(s) => stage_name_spec(s)
            + ": build produced no output lines, no image identifier captured"@,
        PipelineError::LineDecode(s) => stage_name_spec(s)
            + ": a line of subprocess output was not valid text"@,
        PipelineError::ConfigParse => "config load: malformed configuration file"@,
    }
}

impl Stage {
    /// The name under which the stage is reported.
    pub fn name(&self) -> (r: String)
        ensures
            r@ == stage_name_spec(*self),
    {
        match self {
            Stage::ConfigLoad => String::from_str("config load"),
            Stage::Acquisition => String::from_str("image acquisition"),
            Stage::LayeredBuild => String::from_str("layered build"),
            Stage::Launch => String::from_str("interactive launch"),
        }
    }
}

impl PipelineError {
    /// The human-readable report, naming the stage that failed.
    pub fn message(&self) -> (r: String)
        ensures
            r@ == message_spec(*self),
    {
        match self {
            PipelineError::PathResolution(s) => s.name().concat(
                ": path could not be resolved to an absolute path",
            ),
            PipelineError::BuildProcess(s) => s.name().concat(
                ": build subprocess could not be spawned or its handles taken",
            ),
            PipelineError::BuildOutputEmpty(s) => s.name().concat(
                ": build produced no output lines, no image identifier captured",
            ),
            PipelineError::LineDecode(s) => s.name().concat(
                ": a line of subprocess output was not valid text",
            ),
            PipelineError::ConfigParse => String::from_str(
                "config load: malformed configuration file",
            ),
        }
    }
}

} // verus!
