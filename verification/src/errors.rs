//! What can go wrong in a coverage run.

use vstd::prelude::*;

verus! {

/// A failure of a coverage run. Where another program or the system
/// reported the failure, the variant holds that report as text.
#[derive(Debug, PartialEq, Eq)]
pub enum Error {
    UnsupportedOS,
    KcovTooOld,
    /// kcov could not be started.
    KcovNotInstalled(String),
    /// Cargo could not be started.
    CannotRunCargo(String),
    /// What a command printed is not UTF-8.
    Utf8(String),
    /// Cargo's answer is not the JSON that was expected; with the parser's
    /// report where the text is no JSON at all.
    Json(Option<String>),
    CannotCreateCoverageDirectory(String),
    /// A Cargo subcommand ran and failed.
    Cargo { subcommand: String, status: String, stderr: Vec<u8> },
    /// kcov ran and failed (`Ok`, with its exit status), or could not be
    /// started (`Err`).
    KcovFailed(Result<String, String>),
    NoCoverallsId,
    /// No test executable was found: the directory could not be listed
    /// (with the system's report), or nothing in it qualified (`None`).
    CannotFindTestTargets(Option<String>),
    /// The names to look for could not be made into a pattern set.
    InvalidFilter(String),
}

/// The one-line description of each failure.
pub open spec fn description_of(error: Error) -> Seq<char> {
    match error {
        Error::UnsupportedOS => "kcov cannot collect coverage on Windows or OS X."@,
        Error::KcovTooOld => "kcov is too old. v30 or above is required."@,
        Error::KcovNotInstalled(_) => "kcov not installed."@,
        Error::CannotRunCargo(_) => "cannot run cargo"@,
        Error::Utf8(_) => "output is not UTF-8 encoded"@,
        Error::Json(_) => "cannot parse JSON"@,
        Error::Cargo { .. } => "cargo subcommand failure"@,
        Error::CannotCreateCoverageDirectory(_) => "cannot create coverage output directory"@,
        Error::KcovFailed(_) => "failed to get coverage"@,
        Error::NoCoverallsId => "missing environment variable TRAVIS_JOB_ID for coveralls"@,
        Error::CannotFindTestTargets(_) => "cannot find test targets"@,
        Error::InvalidFilter(_) => "cannot match the given target names"@,
    }
}

/// The report that lies behind a failure, where there is one.
pub open spec fn cause_of(error: Error) -> Option<Seq<char>> {
    match error {
        Error::KcovNotInstalled(e) => Some(e@),
        Error::CannotRunCargo(e) => Some(e@),
        Error::Utf8(e) => Some(e@),
        Error::Json(e) => e.deep_view(),
        Error::CannotCreateCoverageDirectory(e) => Some(e@),
        Error::KcovFailed(Ok(status)) => Some(status@),
        Error::KcovFailed(Err(e)) => Some(e@),
        Error::CannotFindTestTargets(e) => e.deep_view(),
        Error::InvalidFilter(e) => Some(e@),
        _ => None,
    }
}

impl Error {
    /// The one-line description of this failure.
    pub fn description(&self) -> (r: &'static str)
        ensures
            r@ == description_of(*self),
    {
        match self {
            Error::UnsupportedOS => "kcov cannot collect coverage on Windows or OS X.",
            Error::KcovTooOld => "kcov is too old. v30 or above is required.",
            Error::KcovNotInstalled(_) => "kcov not installed.",
            Error::CannotRunCargo(_) => "cannot run cargo",
            Error::Utf8(_) => "output is not UTF-8 encoded",
            Error::Json(_) => "cannot parse JSON",
            Error::Cargo { .. } => "cargo subcommand failure",
            Error::CannotCreateCoverageDirectory(_) => "cannot create coverage output directory",
            Error::KcovFailed(_) => "failed to get coverage",
            Error::NoCoverallsId => "missing environment variable TRAVIS_JOB_ID for coveralls",
            Error::CannotFindTestTargets(_) => "cannot find test targets",
            Error::InvalidFilter(_) => "cannot match the given target names",
        }
    }

    /// The report that lies behind this failure, where there is one.
    pub fn cause(&self) -> (r: Option<String>)
        ensures
            r.deep_view() == cause_of(*self),
    {
        match self {
            Error::KcovNotInstalled(e) => Some(e.clone()),
            Error::CannotRunCargo(e) => Some(e.clone()),
            Error::Utf8(e) => Some(e.clone()),
            Error::Json(Some(e)) => Some(e.clone()),
            Error::Json(None) => None,
            Error::CannotCreateCoverageDirectory(e) => Some(e.clone()),
            Error::KcovFailed(Ok(status)) => Some(status.clone()),
            Error::KcovFailed(Err(e)) => Some(e.clone()),
            Error::CannotFindTestTargets(Some(e)) => Some(e.clone()),
            Error::CannotFindTestTargets(None) => None,
            Error::InvalidFilter(e) => Some(e.clone()),
            _ => None,
        }
    }
}

} // verus!
