//! Timezone detection results, the shift of each detected path to UTC, and
//! the order of the stages of `process`.

use crate::command::{cmd_shift, shift_args, ToolCall};
use crate::error::PhotoError;
use crate::offset::{inverted_text, invert_offset};
use crate::probe::{get_image_offset, probe_result};
use crate::scan::AppConfig;
use crate::text::{lemma_trim_end_nonempty, trim_start, views};
use vstd::prelude::*;

verus! {

/// What detection found under one input path: its media files, and the
/// offset and daylight-saving flag read from the first of them.
pub struct TzDetectionResult {
    pub images: Vec<String>,
    pub offset: Result<(String, bool), PhotoError>,
}

/// The detection outcome for a path with media files `images`, given the
/// metadata tool's listing of the first of them (or the tool's failure).
pub open spec fn detection_outcome(
    images: Seq<Seq<char>>,
    listing: Result<Seq<char>, PhotoError>,
) -> Result<(Seq<char>, bool), PhotoError> {
    if images.len() == 0 {
        Err(PhotoError::NoImages)
    } else {
        match listing {
            Ok(out) => probe_result(out),
            Err(e) => Err(e),
        }
    }
}

/// The view of a detected offset.
pub open spec fn offset_view(r: Result<(String, bool), PhotoError>) -> Result<(Seq<char>, bool), PhotoError> {
    match r {
        Ok((t, d)) => Ok((t@, d)),
        Err(e) => Err(e),
    }
}

/// The view of a captured listing.
pub open spec fn listing_view(r: Result<String, PhotoError>) -> Result<Seq<char>, PhotoError> {
    match r {
        Ok(t) => Ok(t@),
        Err(e) => Err(e),
    }
}

impl TzDetectionResult {
    /// The result for a path whose scan found `images`, with `listing` the
    /// metadata tool's output for `images[0]` (ignored when there is none).
    pub fn from_scan(images: Vec<String>, listing: Result<String, PhotoError>) -> (r: Self)
        ensures
            r.images@ == images@,
            offset_view(r.offset) == detection_outcome(views(images@), listing_view(listing)),
    {
        if images.len() == 0 {
            return TzDetectionResult { images, offset: Err(PhotoError::NoImages) };
        }
        let offset = match listing {
            Ok(out) => get_image_offset(out.as_str()),
            Err(e) => Err(e),
        };
        TzDetectionResult { images, offset }
    }
}

/// The file whose metadata stands for a path's whole set: the first found.
pub fn representative(images: &Vec<String>) -> (r: Option<usize>)
    ensures
        images@.len() == 0 <==> r is None,
        r is Some ==> r->Some_0 == 0,
{
    if images.len() == 0 {
        None
    } else {
        Some(0)
    }
}

/// What to do with one detection result on the way to UTC.
pub enum UtcStep {
    /// Detection failed: report it and go on with the next path.
    Failed(PhotoError),
    /// The detected offset has no `:`: skip the path.
    Malformed,
    /// Shift the path's files by `by`, the inverted offset, with `call`.
    Shift { by: String, call: ToolCall },
}

/// The shift to UTC of a path whose detection gave `offset`.
pub open spec fn utc_step_ok(offset: Result<(Seq<char>, bool), PhotoError>, images: Seq<Seq<char>>, reset_tz: bool, step: UtcStep) -> bool {
    match offset {
        Err(e) => step == UtcStep::Failed(e),
        Ok((o, _)) => match inverted_text(o) {
            None => step is Malformed,
            Some(inv) => match step {
                UtcStep::Shift { by, call } => by@ == inv && call.program@ == "exiftool"@
                    && call.arg_views() == shift_args(inv, reset_tz) && call.file_views()
                    == images,
                _ => false,
            },
        },
    }
}

/// Moves a detected path to UTC: the shift is the negation of the offset
/// the camera was set to (detected `+02:00` gives a shift of `-02:00`).
pub fn utc_shift_for(config: &AppConfig, res: &TzDetectionResult, reset_tz: bool) -> (r: UtcStep)
    ensures
        utc_step_ok(offset_view(res.offset), views(res.images@), reset_tz, r),
{
    match &res.offset {
        Err(e) => UtcStep::Failed(*e),
        Ok((o, _)) => match invert_offset(o.as_str()) {
            None => UtcStep::Malformed,
            Some(inv) => {
                proof {
                    assert(inv@[0] == '+' || inv@[0] == '-');
                    assert(trim_start(inv@) == inv@);
                    lemma_trim_end_nonempty(inv@);
                }
                match cmd_shift(config, reset_tz, inv.as_str(), &res.images) {
                    Ok(call) => UtcStep::Shift { by: inv, call },
                    Err(e) => UtcStep::Failed(e),
                }
            },
        },
    }
}

/// One input path as the scan left it: its media files and the metadata
/// tool's listing of the first of them.
pub struct ScannedPath {
    pub path: String,
    pub images: Vec<String>,
    pub listing: Result<String, PhotoError>,
}

/// The detection result of every scanned path, in the order given. Paths
/// that do not exist are left out by the caller before the scan.
pub fn detect_timezones(scans: Vec<ScannedPath>) -> (r: Vec<(String, TzDetectionResult)>)
    ensures
        r@.len() == scans@.len(),
        forall|i: int|
            0 <= i < r@.len() ==> {
                &&& #[trigger] r@[i].0@ == scans@[i].path@
                &&& r@[i].1.images@ == scans@[i].images@
                &&& offset_view(r@[i].1.offset) == detection_outcome(
                    views(scans@[i].images@),
                    listing_view(scans@[i].listing),
                )
            },
{
    let ghost orig = scans@;
    let mut scans = scans;
    let mut out: Vec<(String, TzDetectionResult)> = Vec::new();
    while scans.len() > 0
        invariant
            out@.len() + scans@.len() == orig.len(),
            scans@ == orig.subrange(out@.len() as int, orig.len() as int),
            forall|i: int|
                0 <= i < out@.len() ==> {
                    &&& #[trigger] out@[i].0@ == orig[i].path@
                    &&& out@[i].1.images@ == orig[i].images@
                    &&& offset_view(out@[i].1.offset) == detection_outcome(
                        views(orig[i].images@),
                        listing_view(orig[i].listing),
                    )
                },
        decreases scans@.len(),
    {
        let s = scans.remove(0);
        let res = TzDetectionResult::from_scan(s.images, s.listing);
        out.push((s.path, res));
    }
    out
}

/// The steps to UTC of every detection result, in order.
pub fn utc_steps(config: &AppConfig, results: &Vec<(String, TzDetectionResult)>, reset_tz: bool) -> (r: Vec<UtcStep>)
    ensures
        r@.len() == results@.len(),
        forall|i: int|
            0 <= i < r@.len() ==> utc_step_ok(
                offset_view(results@[i].1.offset),
                views(results@[i].1.images@),
                reset_tz,
                #[trigger] r@[i],
            ),
{
    let mut out: Vec<UtcStep> = Vec::new();
    let mut i: usize = 0;
    while i < results.len()
        invariant
            i <= results@.len(),
            out@.len() == i,
            forall|k: int|
                0 <= k < i ==> utc_step_ok(
                    offset_view(results@[k].1.offset),
                    views(results@[k].1.images@),
                    reset_tz,
                    #[trigger] out@[k],
                ),
        decreases results@.len() - i,
    {
        out.push(utc_shift_for(config, &results[i].1, reset_tz));
        i = i + 1;
    }
    out
}

/// The shift-to-UTC command: every detected path is shifted by its inverted
/// offset and its timezone tags are cleared.
pub fn cmd_shift_to_utc(config: &AppConfig, results: &Vec<(String, TzDetectionResult)>) -> (r: Vec<UtcStep>)
    ensures
        r@.len() == results@.len(),
        forall|i: int|
            0 <= i < r@.len() ==> utc_step_ok(
                offset_view(results@[i].1.offset),
                views(results@[i].1.images@),
                true,
                #[trigger] r@[i],
            ),
{
    utc_steps(config, results, true)
}

/// The stages of `process`, in the order they run.
#[derive(Debug, Clone, Copy, PartialEq, Eq, Structural)]
pub enum Stage {
    /// Scan every input directory and detect its offset.
    Detect,
    /// Shift every detected directory to UTC.
    ShiftToUtc,
    /// Move media into per-date directories.
    Organize,
    /// Read the capture dates to bound the track download.
    DateRange,
    /// Download and merge the tracks of the date range.
    Download,
    /// Walk the inputs again for all media and tracks.
    Rescan,
    /// Correlate the media with the tracks.
    Geotag,
    /// No tracks in a dry run whose download was only shown: report that
    /// geotagging would run.
    GeotagDryRun,
    /// No tracks: report that geotagging is skipped.
    SkipGeotag,
    /// Shift from UTC to the target timezone and write its tags.
    Retime,
    /// Rename every file from its capture date and time.
    Rename,
    /// The run is over.
    Finished,
}

/// What the stages so far have found.
#[derive(Debug, Clone, Copy, PartialEq, Eq, Structural)]
pub struct RunFacts {
    /// The run was asked to organize.
    pub organize: bool,
    /// The run only shows what it would do.
    pub dry_run: bool,
    /// Detection gave at least one result.
    pub detected: bool,
    /// Capture dates were found, so a date range exists.
    pub range_found: bool,
    /// The rescan found media.
    pub images_found: bool,
    /// The rescan found tracks.
    pub tracks_found: bool,
}

/// The stage that follows `s`.
pub open spec fn stage_after(s: Stage, f: RunFacts) -> Stage {
    match s {
        Stage::Detect => if f.detected {
            Stage::ShiftToUtc
        } else {
            Stage::Finished
        },
        Stage::ShiftToUtc => if f.organize {
            Stage::Organize
        } else {
            Stage::Rescan
        },
        Stage::Organize => Stage::DateRange,
        Stage::DateRange => if f.range_found {
            Stage::Download
        } else {
            Stage::Rescan
        },
        Stage::Download => Stage::Rescan,
        Stage::Rescan => if !f.images_found {
            Stage::Finished
        } else if f.tracks_found {
            Stage::Geotag
        } else if f.dry_run && f.organize && f.range_found {
            Stage::GeotagDryRun
        } else {
            Stage::SkipGeotag
        },
        Stage::Geotag => Stage::Retime,
        Stage::GeotagDryRun => Stage::Retime,
        Stage::SkipGeotag => Stage::Retime,
        Stage::Retime => Stage::Rename,
        Stage::Rename => Stage::Finished,
        Stage::Finished => Stage::Finished,
    }
}

/// The position of a stage in the sequence.
pub open spec fn stage_rank(s: Stage) -> int {
    match s {
        Stage::Detect => 0,
        Stage::ShiftToUtc => 1,
        Stage::Organize => 2,
        Stage::DateRange => 3,
        Stage::Download => 4,
        Stage::Rescan => 5,
        Stage::Geotag => 6,
        Stage::GeotagDryRun => 6,
        Stage::SkipGeotag => 6,
        Stage::Retime => 7,
        Stage::Rename => 8,
        Stage::Finished => 9,
    }
}

/// The stage of `process` that follows `stage`, given what has been found.
pub fn next_stage(stage: Stage, facts: &RunFacts) -> (r: Stage)
    ensures
        r == stage_after(stage, *facts),
{
    match stage {
        Stage::Detect => if facts.detected {
            Stage::ShiftToUtc
        } else {
            Stage::Finished
        },
        Stage::ShiftToUtc => if facts.organize {
            Stage::Organize
        } else {
            Stage::Rescan
        },
        Stage::Organize => Stage::DateRange,
        Stage::DateRange => if facts.range_found {
            Stage::Download
        } else {
            Stage::Rescan
        },
        Stage::Download => Stage::Rescan,
        Stage::Rescan => if !facts.images_found {
            Stage::Finished
        } else if facts.tracks_found {
            Stage::Geotag
        } else if facts.dry_run && facts.organize && facts.range_found {
            Stage::GeotagDryRun
        } else {
            Stage::SkipGeotag
        },
        Stage::Geotag => Stage::Retime,
        Stage::GeotagDryRun => Stage::Retime,
        Stage::SkipGeotag => Stage::Retime,
        Stage::Retime => Stage::Rename,
        Stage::Rename => Stage::Finished,
        Stage::Finished => Stage::Finished,
    }
}

/// The stages that run only when organizing was asked for.
pub open spec fn organizing(s: Stage) -> bool {
    s == Stage::Organize || s == Stage::DateRange || s == Stage::Download
}

/// The stages never go back: each step moves strictly forward until the
/// run is finished, and the organize, date-range and download stages are
/// reached only when organizing was asked for.
pub proof fn lemma_stages_move_forward(s: Stage, f: RunFacts)
    ensures
        s != Stage::Finished ==> stage_rank(stage_after(s, f)) > stage_rank(s),
        !f.organize && !organizing(s) ==> !organizing(stage_after(s, f)),
{
}

} // verus!
