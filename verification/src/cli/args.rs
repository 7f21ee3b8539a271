//! The erasure methods, report formats and the full set of command-line options.
use vstd::prelude::*;
use std::path::PathBuf;

verus! {

/// Standard algorithms for secure data erasure.
#[derive(Clone, Copy, Debug, PartialEq, Eq, Structural)]
pub enum ShredMethod {
    /// Overwrite with zero bytes (one pass).
    Zero,
    /// Overwrite with random bytes, as many passes as requested.
    Random,
    /// US DoD 5220.22-M: 0x00, 0xFF, then random (three passes).
    Dod,
    /// The Gutmann method (35 passes).
    Gutmann,
}

/// The name under which a method is shown in reports (its `Debug` form).
pub open spec fn method_name(m: ShredMethod) -> Seq<char> {
    match m {
        ShredMethod::Zero => "Zero"@,
        ShredMethod::Random => "Random"@,
        ShredMethod::Dod => "Dod"@,
        ShredMethod::Gutmann => "Gutmann"@,
    }
}

impl ShredMethod {
    /// The name under which the method is shown in reports.
    pub fn name(&self) -> (s: &'static str)
        ensures
            s@ == method_name(*self),
    {
        match self {
            ShredMethod::Zero => "Zero",
            ShredMethod::Random => "Random",
            ShredMethod::Dod => "Dod",
            ShredMethod::Gutmann => "Gutmann",
        }
    }
}

/// Output formats for the audit log.
#[derive(Clone, Copy, Debug, PartialEq, Eq, Structural)]
pub enum AuditFormat {
    /// Human-readable text.
    Text,
    /// Machine-readable JSON.
    Json,
}

impl Default for AuditFormat {
    /// Text is the default audit format.
    fn default() -> (f: AuditFormat)
        ensures
            f == AuditFormat::Text,
    {
        AuditFormat::Text
    }
}

/// Every option of the command-line tool.
#[derive(Clone, Debug)]
pub struct Args {
    /// Path to the file or directory to destroy.
    pub path: PathBuf,
    /// Number of overwrite passes (used by the random method only).
    pub passes: u32,
    /// Destroy directories and their contents.
    pub recursive: bool,
    /// Erasure method.
    pub method: ShredMethod,
    /// Show what would be destroyed without touching the file system.
    pub dry_run: bool,
    /// Read back every overwrite pass after it is written.
    pub verify: bool,
    /// Glob patterns of files to leave alone.
    pub exclude: Vec<String>,
    /// Ask the device to discard the file's blocks after shredding.
    pub trim: bool,
    /// Skip the confirmation prompt.
    pub force: bool,
    /// Where to write the audit report, if anywhere.
    pub audit_log: Option<PathBuf>,
    /// Format of the audit report.
    pub audit_format: AuditFormat,
    /// Detailed output instead of a progress bar.
    pub verbose: bool,
    /// Overwrite and scrub the file, but do not delete it.
    pub keep: bool,
}

} // verus!
