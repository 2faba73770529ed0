use vstd::prelude::*;

verus! {

/// The pass of a two-pass encode.
#[derive(Clone, Copy, Debug, PartialEq, Eq, Structural)]
pub enum Stage {
    Pass1,
    Pass2,
}

impl Stage {
    /// The stage's name as reported to users.
    pub fn name(&self) -> (r: &'static str)
        ensures
            r@ == stage_name(*self),
    {
        match self {
            Stage::Pass1 => "pass1",
            Stage::Pass2 => "pass2",
        }
    }
}

pub open spec fn stage_name(s: Stage) -> Seq<char> {
    match s {
        Stage::Pass1 => "pass1"@,
        Stage::Pass2 => "pass2"@,
    }
}

/// Every failure the library reports.
#[derive(Debug, PartialEq, Eq)]
pub enum Error {
    /// A probe exited unsuccessfully or printed something that is not a duration.
    Probe { diagnostics: String },
    /// A duration, target size or resolution divisor of zero.
    InvalidRequest,
    /// The target size cannot hold the audio budget plus a positive video bitrate.
    InfeasibleTarget,
    /// No file-name component to derive an output name from.
    InvalidFilename,
    /// An encoder pass exited unsuccessfully.
    Encode { stage: Stage, diagnostics: String },
}

} // verus!
