//! Run configuration and the classification of files found under an input
//! path into media, track and ignored files.

use crate::text::{chars_eq, chars_of, rfind, rfind_char, slice_chars, string_of};
use vstd::prelude::*;

verus! {

/// What the case folding of `str::to_lowercase` makes of `s`.
pub uninterp spec fn lower_of(s: Seq<char>) -> Seq<char>;

/// Relies on `str::to_lowercase`: the lower-case mapping of each character,
/// a function of the text alone; empty text stays empty.
#[verifier::external_body]
pub(crate) fn lowercase(s: &str) -> (r: String)
    ensures
        r@ == lower_of(s@),
        s@.len() == 0 ==> r@.len() == 0,
{
    s.to_lowercase()
}

/// The extension of the track files: GPX.
pub open spec fn track_extension() -> Seq<char> {
    seq!['g', 'p', 'x']
}

/// The immutable configuration of one run.
#[derive(Debug, Clone)]
pub struct AppConfig {
    /// Media suffixes, lower case.
    pub suffixes: Vec<String>,
    /// Correlation time range for geotagging, in seconds.
    pub timerange: u64,
    /// Simulate: log each mutation instead of performing it.
    pub dry_run: bool,
}

impl AppConfig {
    /// The suffixes as character sequences.
    pub open spec fn suffix_views(&self) -> Seq<Seq<char>> {
        self.suffixes@.map_values(|s: String| s@)
    }

    /// Builds a configuration, folding every suffix to lower case.
    pub fn new(suffixes: &Vec<String>, timerange: u64, dry_run: bool) -> (r: AppConfig)
        ensures
            r.suffixes@.len() == suffixes@.len(),
            forall|i: int| 0 <= i < suffixes@.len() ==> #[trigger] r.suffixes@[i]@ == lower_of(suffixes@[i]@),
            r.timerange == timerange,
            r.dry_run == dry_run,
    {
        let mut out: Vec<String> = Vec::new();
        let mut i: usize = 0;
        while i < suffixes.len()
            invariant
                i <= suffixes@.len(),
                out@.len() == i,
                forall|k: int| 0 <= k < i ==> #[trigger] out@[k]@ == lower_of(suffixes@[k]@),
            decreases suffixes@.len() - i,
        {
            out.push(lowercase(suffixes[i].as_str()));
            i = i + 1;
        }
        AppConfig { suffixes: out, timerange, dry_run }
    }
}

/// Where a file goes when a path is scanned.
#[derive(Debug, Clone, Copy, PartialEq, Eq, Structural)]
pub enum FileKind {
    /// A photo or video: its lower-case extension is a configured suffix.
    Media,
    /// A GPS track: its extension is `gpx` in any case.
    Track,
    /// Anything else.
    Ignored,
}

/// The kind of a file whose lower-case extension is `ext`.
pub open spec fn kind_of(ext: Seq<char>, suffixes: Seq<Seq<char>>) -> FileKind {
    if ext == track_extension() {
        FileKind::Track
    } else if suffixes.contains(ext) {
        FileKind::Media
    } else {
        FileKind::Ignored
    }
}

/// The last component of a path.
pub open spec fn file_name_of(path: Seq<char>) -> Seq<char> {
    path.subrange(rfind(path, '/') + 1, path.len() as int)
}

/// The extension of a file name: what follows its last `.`, or nothing when
/// the name has no `.` or only a leading one.
pub open spec fn extension_of(name: Seq<char>) -> Seq<char> {
    if rfind(name, '.') <= 0 {
        Seq::empty()
    } else {
        name.subrange(rfind(name, '.') + 1, name.len() as int)
    }
}

/// The extension of the file that `path` names.
pub fn path_extension(path: &str) -> (r: String)
    ensures
        r@ == extension_of(file_name_of(path@)),
{
    let p = chars_of(path);
    let n = p.len();
    let name = match rfind_char(&p, '/') {
        Some(k) => slice_chars(&p, k + 1, n),
        None => slice_chars(&p, 0, n),
    };
    let m = name.len();
    match rfind_char(&name, '.') {
        Some(k) => if k == 0 {
            string_of(&Vec::new())
        } else {
            string_of(&slice_chars(&name, k + 1, m))
        },
        None => string_of(&Vec::new()),
    }
}

/// Whether `ext` is one of the configured suffixes.
pub fn is_media_suffix(config: &AppConfig, ext: &str) -> (r: bool)
    ensures
        r == config.suffix_views().contains(ext@),
{
    let want = chars_of(ext);
    let mut i: usize = 0;
    while i < config.suffixes.len()
        invariant
            want@ == ext@,
            i <= config.suffixes@.len(),
            forall|k: int| 0 <= k < i ==> config.suffixes@[k]@ != ext@,
        decreases config.suffixes@.len() - i,
    {
        if chars_eq(&chars_of(config.suffixes[i].as_str()), &want) {
            assert(config.suffix_views()[i as int] == ext@);
            return true;
        }
        i = i + 1;
    }
    assert forall|k: int| 0 <= k < config.suffix_views().len() implies config.suffix_views()[k]
        != ext@ by {
        assert(config.suffixes@[k]@ != ext@);
    }
    false
}

/// The kind of a file whose extension, already folded to lower case, is `ext`.
pub fn classify_extension(config: &AppConfig, ext: &str) -> (r: FileKind)
    ensures
        r == kind_of(ext@, config.suffix_views()),
{
    let e = chars_of(ext);
    let gpx = chars_of("gpx");
    proof {
        reveal_strlit("gpx");
    }
    assert("gpx"@ =~= track_extension());
    if chars_eq(&e, &gpx) {
        FileKind::Track
    } else if is_media_suffix(config, ext) {
        FileKind::Media
    } else {
        FileKind::Ignored
    }
}

/// The kind of the file at `path`, by its extension in any case.
pub fn classify_file(config: &AppConfig, path: &str) -> (r: FileKind)
    ensures
        r == kind_of(lower_of(extension_of(file_name_of(path@))), config.suffix_views()),
{
    let ext = path_extension(path);
    let lower = lowercase(ext.as_str());
    classify_extension(config, lower.as_str())
}

/// A file whose extension folds to `gpx` is a track whatever the configured
/// suffixes, and two files whose extensions fold alike are of one kind.
pub proof fn lemma_classification(a: Seq<char>, b: Seq<char>, suffixes: Seq<Seq<char>>)
    ensures
        lower_of(extension_of(file_name_of(a))) == track_extension() ==> kind_of(
            lower_of(extension_of(file_name_of(a))),
            suffixes,
        ) == FileKind::Track,
        lower_of(extension_of(file_name_of(a))) == lower_of(extension_of(file_name_of(b)))
            ==> kind_of(lower_of(extension_of(file_name_of(a))), suffixes) == kind_of(
            lower_of(extension_of(file_name_of(b))),
            suffixes,
        ),
{
}

} // verus!
