//! The command line as plain values: global options and one subcommand.

use crate::scan::{lower_of, AppConfig};
use vstd::prelude::*;

verus! {

/// The parsed command line.
#[derive(Debug, Clone)]
pub struct Cli {
    /// Correlation time range for geotagging, in seconds.
    pub timerange: u64,
    /// Media suffixes, in any case.
    pub suffix: Vec<String>,
    /// The subcommand.
    pub command: Commands,
}

/// The subcommands.
#[derive(Debug, Clone)]
pub enum Commands {
    /// Rename images using their date and time.
    Rename { paths: Vec<String> },
    /// Set time and timezone on pictures.
    SetTime { paths: Vec<String>, timezone: String, dst: bool },
    /// Geotag images using GPX files.
    Geotag { gps_files: Vec<String>, paths: Vec<String> },
    /// Shift photos; this can also clear their timezones.
    Shift { reset_tz: bool, by: String, paths: Vec<String> },
    /// Detect the timezone of photos and shift them to UTC.
    ShiftToUtc { paths: Vec<String> },
    /// Detect the timezone of photos in directories.
    DetectTimezone { paths: Vec<String> },
    /// Organize photos into `YYYY-MM-DD` directories.
    Organize { dirs: Vec<String> },
    /// Shift to UTC, organize, geotag, set time and rename.
    Process { force: bool, dirs: Vec<String>, timezone: String, dst: bool, organize: bool },
    /// Download GPX files from the activity service.
    DownloadGpx { dest: String, start_date: Option<String>, end_date: Option<String> },
}

/// Whether a command runs as a dry run: only `process`, and only without
/// `--force`.
pub open spec fn dry_run_of(c: Commands) -> bool {
    match c {
        Commands::Process { force, .. } => !force,
        _ => false,
    }
}

/// Whether `command` runs as a dry run.
pub fn is_dry_run(command: &Commands) -> (r: bool)
    ensures
        r == dry_run_of(*command),
{
    match command {
        Commands::Process { force, .. } => !*force,
        _ => false,
    }
}

impl Cli {
    /// The run configuration of this command line: suffixes folded to lower
    /// case, the time range, and the dry-run flag of the subcommand.
    pub fn config(&self) -> (r: AppConfig)
        ensures
            r.suffixes@.len() == self.suffix@.len(),
            forall|i: int| 0 <= i < self.suffix@.len() ==> #[trigger] r.suffixes@[i]@ == lower_of(self.suffix@[i]@),
            r.timerange == self.timerange,
            r.dry_run == dry_run_of(self.command),
    {
        AppConfig::new(&self.suffix, self.timerange, is_dry_run(&self.command))
    }
}

} // verus!
