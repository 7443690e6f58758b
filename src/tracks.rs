//! GPS track files: the reserved name of a merged track, the choice of the
//! files to merge, the canonical name of a downloaded track, and merging
//! GPX documents with the gpx crate.

use crate::command::push_str;
use crate::error::PhotoError;
use crate::scan::{extension_of, file_name_of};
use crate::text::{chars_eq, chars_of, rfind, rfind_char, slice_chars, string_of, views};
use vstd::prelude::*;

verus! {

#[verifier::external_type_specification]
#[verifier::external_body]
pub struct ExGpx(gpx::Gpx);

#[verifier::external_type_specification]
#[verifier::external_body]
pub struct ExGpxError(gpx::errors::GpxError);

/// Whether gpx's reader accepts `b` as a GPX document.
pub uninterp spec fn gpx_parses(b: Seq<u8>) -> bool;

/// What chrono makes of an RFC 3339 timestamp written as
/// `%Y-%m-%d.%H.%M.%S`, or `None` when it does not parse.
pub uninterp spec fn stamp_of(iso: Seq<char>) -> Option<Seq<char>>;

/// The document that gpx's reader makes of `b`, when it accepts `b`.
pub uninterp spec fn gpx_doc(b: Seq<u8>) -> gpx::Gpx;

/// The GPX 1.1 document, without creator or metadata, that holds the
/// tracks, then the routes, then the waypoints of `gpx_doc(d)` for each `d`
/// of `docs` in order (for documents that all parse).
pub uninterp spec fn gpx_merge_of(docs: Seq<Seq<u8>>) -> gpx::Gpx;

/// The names of a document's tracks, in order.
pub uninterp spec fn gpx_track_names(g: gpx::Gpx) -> Seq<Option<Seq<char>>>;

/// A document's metadata time as gpx's `Time::format` writes it; `None`
/// when there is no metadata time or it cannot be written.
pub uninterp spec fn gpx_time_text(g: gpx::Gpx) -> Option<Seq<char>>;

/// The bytes that `gpx::write` gives for a document; `None` when it fails.
pub uninterp spec fn gpx_written(g: gpx::Gpx) -> Option<Seq<u8>>;

/// The view of optional text.
pub open spec fn opt_view(s: Option<String>) -> Option<Seq<char>> {
    match s {
        Some(t) => Some(t@),
        None => None,
    }
}

/// The name of a document's first track; `None` when there is no track or
/// it has no name.
pub open spec fn first_name(g: gpx::Gpx) -> Option<Seq<char>> {
    if gpx_track_names(g).len() > 0 {
        gpx_track_names(g)[0]
    } else {
        None
    }
}

/// Relies on `gpx::read`: parses a GPX document; whether it succeeds, and
/// the document it gives, depend on the bytes alone.
#[verifier::external_body]
fn read_gpx(bytes: &Vec<u8>) -> (r: Result<gpx::Gpx, gpx::errors::GpxError>)
    ensures
        r is Ok == gpx_parses(bytes@),
        r is Ok ==> r->Ok_0 == gpx_doc(bytes@),
{
    gpx::read(bytes.as_slice())
}

/// Relies on the `name` field of the first of a document's tracks.
#[verifier::external_body]
fn first_track_name(g: &gpx::Gpx) -> (r: Option<String>)
    ensures
        opt_view(r) == first_name(*g),
{
    g.tracks.first().and_then(|t| t.name.clone())
}

/// Relies on gpx's `Time::format`: the document's metadata time in ISO 8601.
#[verifier::external_body]
fn metadata_time(g: &gpx::Gpx) -> (r: Option<String>)
    ensures
        opt_view(r) == gpx_time_text(*g),
{
    g.metadata.as_ref().and_then(|m| m.time).and_then(|t| t.format().ok())
}

/// Relies on chrono's `DateTime::parse_from_rfc3339`, rendered with
/// `%Y-%m-%d.%H.%M.%S`: a function of the text alone.
#[verifier::external_body]
fn rfc3339_stamp(iso: &str) -> (r: Option<String>)
    ensures
        opt_view(r) == stamp_of(iso@),
{
    chrono::DateTime::parse_from_rfc3339(iso).ok().map(|d| d.format("%Y-%m-%d.%H.%M.%S").to_string())
}

/// Relies on gpx's `Gpx` default value: a GPX 1.1 document with no creator,
/// metadata, tracks, routes or waypoints.
#[verifier::external_body]
fn empty_gpx11() -> (r: gpx::Gpx)
    ensures
        r == gpx_merge_of(Seq::empty()),
        gpx_track_names(r) == Seq::<Option<Seq<char>>>::empty(),
{
    gpx::Gpx { version: gpx::GpxVersion::Gpx11, ..Default::default() }
}

/// Relies on the `Gpx` fields: moves the tracks, routes and waypoints of
/// `from` onto the end of those of `into`, leaving its other fields.
#[verifier::external_body]
fn append_gpx(into: &mut gpx::Gpx, from: gpx::Gpx)
    ensures
        gpx_track_names(*final(into)) == gpx_track_names(*old(into)) + gpx_track_names(from),
        forall|p: Seq<Seq<u8>>, d: Seq<u8>|
            *old(into) == #[trigger] gpx_merge_of(p) && from == #[trigger] gpx_doc(d)
                && gpx_parses(d) ==> *final(into) == gpx_merge_of(p.push(d)),
{
    into.tracks.extend(from.tracks);
    into.routes.extend(from.routes);
    into.waypoints.extend(from.waypoints);
}

/// Relies on `gpx::write`: serialises a document; the outcome depends on
/// the document alone.
#[verifier::external_body]
fn write_gpx(g: &gpx::Gpx) -> (r: Result<Vec<u8>, gpx::errors::GpxError>)
    ensures
        match r {
            Ok(b) => gpx_written(*g) == Some(b@),
            Err(_) => gpx_written(*g) is None,
        },
{
    let mut buf: Vec<u8> = Vec::new();
    gpx::write(g, &mut buf)?;
    Ok(buf)
}

/// The names of the tracks of the first `n` of `docs`, in order.
pub open spec fn merged_track_names(docs: Seq<Seq<u8>>, n: int) -> Seq<Option<Seq<char>>>
    decreases n,
{
    if n <= 0 || n > docs.len() {
        Seq::empty()
    } else {
        merged_track_names(docs, n - 1) + gpx_track_names(gpx_doc(docs[n - 1]))
    }
}

/// The stamp part of a track's file name: its metadata time as chrono
/// renders it, if that can be read.
pub open spec fn doc_stamp(g: gpx::Gpx) -> Option<Seq<char>> {
    match gpx_time_text(g) {
        Some(iso) => stamp_of(iso),
        None => None,
    }
}

/// The name of the merged track of a directory.
pub open spec fn merged_name() -> Seq<char> {
    "all_activities.gpx"@
}

/// Whether `path` names a merged track.
pub open spec fn is_merged(path: Seq<char>) -> bool {
    file_name_of(path) == merged_name()
}

/// The first `n` of `files` that are not merged tracks, in order.
pub open spec fn merge_sources(files: Seq<Seq<char>>, n: int) -> Seq<Seq<char>>
    decreases n,
{
    if n <= 0 || n > files.len() {
        Seq::empty()
    } else if is_merged(files[n - 1]) {
        merge_sources(files, n - 1)
    } else {
        merge_sources(files, n - 1).push(files[n - 1])
    }
}

/// `path` with its last component replaced by `name`.
pub open spec fn sibling(path: Seq<char>, name: Seq<char>) -> Seq<char> {
    path.subrange(0, rfind(path, '/') + 1) + name
}

/// `name` inside the directory `dir`.
pub open spec fn join_path(dir: Seq<char>, name: Seq<char>) -> Seq<char> {
    if dir.len() == 0 {
        name
    } else if dir.last() == '/' {
        dir + name
    } else {
        dir + seq!['/'] + name
    }
}

/// Whether `path` names a merged track.
pub fn is_merged_track(path: &str) -> (r: bool)
    ensures
        r == is_merged(path@),
{
    let p = chars_of(path);
    let n = p.len();
    let name = match rfind_char(&p, '/') {
        Some(k) => slice_chars(&p, k + 1, n),
        None => slice_chars(&p, 0, n),
    };
    chars_eq(&name, &chars_of("all_activities.gpx"))
}

/// The files to merge: every one but a merged track, in order, so that an
/// earlier merge never merges into itself.
pub fn merge_inputs(files: &Vec<String>) -> (r: Vec<String>)
    ensures
        views(r@) == merge_sources(views(files@), files@.len() as int),
        forall|i: int| 0 <= i < r@.len() ==> !is_merged(#[trigger] r@[i]@),
{
    let mut out: Vec<String> = Vec::new();
    let mut i: usize = 0;
    while i < files.len()
        invariant
            i <= files@.len(),
            views(out@) == merge_sources(views(files@), i as int),
            forall|k: int| 0 <= k < out@.len() ==> !is_merged(#[trigger] out@[k]@),
        decreases files@.len() - i,
    {
        if !is_merged_track(files[i].as_str()) {
            let s = string_of(&chars_of(files[i].as_str()));
            out.push(s);
            assert(views(out@) =~= views(out@.drop_last()).push(s@));
        }
        i = i + 1;
    }
    out
}

/// Where a directory's merged track goes.
pub fn merge_target(dir: &str) -> (r: String)
    ensures
        r@ == join_path(dir@, merged_name()),
{
    let mut out = chars_of(dir);
    let n = out.len();
    if n > 0 && out[n - 1] != '/' {
        out.push('/');
    }
    push_str(&mut out, "all_activities.gpx");
    string_of(&out)
}

/// `s` with every `/` turned into `-`.
pub open spec fn slashes_to_dashes(s: Seq<char>) -> Seq<char> {
    s.map_values(|c: char| if c == '/' { '-' } else { c })
}

/// The canonical file stem of a track: its time stamp (or `no_time`), `_`,
/// and its name (or `track`), with no `/` left.
pub open spec fn track_stem(stamp: Option<Seq<char>>, name: Option<Seq<char>>) -> Seq<char> {
    slashes_to_dashes(
        match stamp {
            Some(s) => s,
            None => "no_time"@,
        } + seq!['_'] + match name {
            Some(n) => n,
            None => "track"@,
        },
    )
}

/// The canonical stem of a track file from its time stamp and track name.
pub fn gpx_file_stem(stamp: Option<String>, name: Option<String>) -> (r: String)
    ensures
        r@ == track_stem(opt_view(stamp), opt_view(name)),
{
    let mut raw = match stamp {
        Some(s) => chars_of(s.as_str()),
        None => chars_of("no_time"),
    };
    raw.push('_');
    match name {
        Some(n) => push_str(&mut raw, n.as_str()),
        None => push_str(&mut raw, "track"),
    }
    let mut out: Vec<char> = Vec::new();
    let mut i: usize = 0;
    while i < raw.len()
        invariant
            i <= raw@.len(),
            out@ == slashes_to_dashes(raw@.subrange(0, i as int)),
        decreases raw@.len() - i,
    {
        let c = raw[i];
        out.push(if c == '/' { '-' } else { c });
        assert(slashes_to_dashes(raw@.subrange(0, i + 1)) =~= slashes_to_dashes(
            raw@.subrange(0, i as int),
        ).push(if c == '/' { '-' } else { c }));
        i = i + 1;
    }
    assert(raw@.subrange(0, raw@.len() as int) =~= raw@);
    string_of(&out)
}

/// The stem of a file name: up to its last `.`, unless that is its first
/// character.
pub open spec fn stem_of(name: Seq<char>) -> Seq<char> {
    if rfind(name, '.') <= 0 {
        name
    } else {
        name.subrange(0, rfind(name, '.'))
    }
}

/// The name a track file should have. A file whose extension is not `gpx`
/// takes its stem with `.gpx`; the merged track keeps its name; any other
/// GPX file is named from its metadata time and its first track's name,
/// which needs `contents` to parse.
pub fn gpx_name(path: &str, contents: &Vec<u8>) -> (r: Result<String, PhotoError>)
    ensures
        extension_of(file_name_of(path@)) != "gpx"@ ==> r is Ok && r->Ok_0@ == sibling(path@, stem_of(file_name_of(path@)) + ".gpx"@),
        extension_of(file_name_of(path@)) == "gpx"@ && is_merged(path@) ==> r is Ok && r->Ok_0@
            == path@,
        extension_of(file_name_of(path@)) == "gpx"@ && !is_merged(path@) ==> {
            &&& (r is Ok <==> gpx_parses(contents@))
            &&& r is Err ==> r->Err_0 == PhotoError::InvalidFormat
            &&& r is Ok ==> r->Ok_0@ == sibling(
                path@,
                track_stem(doc_stamp(gpx_doc(contents@)), first_name(gpx_doc(contents@))) + ".gpx"@,
            )
        },
{
    let p = chars_of(path);
    let n = p.len();
    let cut: usize = match rfind_char(&p, '/') {
        Some(k) => k + 1,
        None => 0,
    };
    let name = slice_chars(&p, cut, n);
    let dir = slice_chars(&p, 0, cut);
    let ext = crate::scan::path_extension(path);
    if !chars_eq(&chars_of(ext.as_str()), &chars_of("gpx")) {
        let m = name.len();
        let stem = match rfind_char(&name, '.') {
            Some(k) => if k == 0 {
                slice_chars(&name, 0, m)
            } else {
                slice_chars(&name, 0, k)
            },
            None => slice_chars(&name, 0, m),
        };
        let mut out = dir;
        let mut stem = stem;
        out.append(&mut stem);
        push_str(&mut out, ".gpx");
        return Ok(string_of(&out));
    }
    if is_merged_track(path) {
        return Ok(string_of(&p));
    }
    let doc = match read_gpx(contents) {
        Ok(g) => g,
        Err(_) => {
            return Err(PhotoError::InvalidFormat);
        },
    };
    let track = first_track_name(&doc);
    let stamp = match metadata_time(&doc) {
        Some(iso) => rfc3339_stamp(iso.as_str()),
        None => None,
    };
    let ghost sv = opt_view(stamp);
    let ghost tv = opt_view(track);
    let stem = gpx_file_stem(stamp, track);
    let mut out = dir;
    push_str(&mut out, stem.as_str());
    push_str(&mut out, ".gpx");
    assert(out@ == sibling(path@, track_stem(sv, tv) + ".gpx"@));
    Ok(string_of(&out))
}

/// Checks a track file and names its canonical path. `contents` is `None`
/// when the file does not exist: a dry run goes on with the path as it is,
/// a real run fails. Only `.gpx` files are accepted. The result holds the
/// canonical path and whether the file must be renamed to it.
pub fn ensure_gpx(gps_file: &str, contents: Option<&Vec<u8>>, dry_run: bool) -> (r: Result<(String, bool), PhotoError>)
    ensures
        contents is None && dry_run ==> r is Ok && r->Ok_0.0@ == gps_file@ && !r->Ok_0.1,
        contents is None && !dry_run ==> r == Err::<(String, bool), PhotoError>(PhotoError::NotFound),
        contents is Some && extension_of(file_name_of(gps_file@)) != "gpx"@ ==> r == Err::<(String, bool), PhotoError>(PhotoError::UnsupportedTrackFormat),
        contents is Some && extension_of(file_name_of(gps_file@)) == "gpx"@ && is_merged(gps_file@) ==> r is Ok && r->Ok_0.0@ == gps_file@ && !r->Ok_0.1,
        contents is Some && extension_of(file_name_of(gps_file@)) == "gpx"@ && !is_merged(gps_file@) ==> {
            &&& (r is Ok <==> gpx_parses(contents->Some_0@))
            &&& r is Err ==> r->Err_0 == PhotoError::InvalidFormat
            &&& r is Ok ==> r->Ok_0.0@ == sibling(
                gps_file@,
                track_stem(
                    doc_stamp(gpx_doc(contents->Some_0@)),
                    first_name(gpx_doc(contents->Some_0@)),
                ) + ".gpx"@,
            )
        },
        r is Ok ==> r->Ok_0.1 == (r->Ok_0.0@ != gps_file@),
{
    let bytes = match contents {
        None => {
            if dry_run {
                return Ok((string_of(&chars_of(gps_file)), false));
            }
            return Err(PhotoError::NotFound);
        },
        Some(b) => b,
    };
    let ext = crate::scan::path_extension(gps_file);
    if !chars_eq(&chars_of(ext.as_str()), &chars_of("gpx")) {
        return Err(PhotoError::UnsupportedTrackFormat);
    }
    let dest = match gpx_name(gps_file, bytes) {
        Ok(d) => d,
        Err(e) => {
            return Err(e);
        },
    };
    let rename = !chars_eq(&chars_of(dest.as_str()), &chars_of(gps_file));
    Ok((dest, rename))
}

/// Merges GPX documents into one GPX 1.1 document: their tracks, routes and
/// waypoints in the order given. When every document parses, the result is
/// the written merged document, or `InvalidFormat` when it cannot be
/// written; a document that does not parse fails the merge.
pub fn merge_gpx(docs: &Vec<Vec<u8>>) -> (r: Result<Vec<u8>, PhotoError>)
    ensures
        (forall|i: int| 0 <= i < docs@.len() ==> gpx_parses(#[trigger] docs@[i]@)) ==> {
            &&& r is Ok ==> r->Ok_0@ == gpx_written(gpx_merge_of(views_u8(docs@)))->Some_0
            &&& r is Ok <==> gpx_written(gpx_merge_of(views_u8(docs@))) is Some
            &&& gpx_track_names(gpx_merge_of(views_u8(docs@))) == merged_track_names(
                views_u8(docs@),
                docs@.len() as int,
            )
        },
        (exists|i: int| 0 <= i < docs@.len() && !gpx_parses(#[trigger] docs@[i]@)) ==> r
            == Err::<Vec<u8>, PhotoError>(PhotoError::InvalidFormat),
        r is Err ==> r->Err_0 == PhotoError::InvalidFormat,
{
    let ghost dv = views_u8(docs@);
    let mut merged = empty_gpx11();
    assert(dv.subrange(0, 0) =~= Seq::<Seq<u8>>::empty());
    let mut i: usize = 0;
    while i < docs.len()
        invariant
            i <= docs@.len(),
            dv == views_u8(docs@),
            forall|k: int| 0 <= k < i ==> gpx_parses(#[trigger] docs@[k]@),
            merged == gpx_merge_of(dv.subrange(0, i as int)),
            gpx_track_names(merged) == merged_track_names(dv, i as int),
        decreases docs@.len() - i,
    {
        match read_gpx(&docs[i]) {
            Ok(g) => {
                let ghost before = merged;
                append_gpx(&mut merged, g);
                proof {
                    assert(dv[i as int] == docs@[i as int]@);
                    assert(dv.subrange(0, i + 1) =~= dv.subrange(0, i as int).push(dv[i as int]));
                    assert(before == gpx_merge_of(dv.subrange(0, i as int)));
                    assert(g == gpx_doc(dv[i as int]));
                }
            },
            Err(_) => {
                return Err(PhotoError::InvalidFormat);
            },
        }
        i = i + 1;
    }
    assert(dv.subrange(0, docs@.len() as int) =~= dv);
    match write_gpx(&merged) {
        Ok(bytes) => Ok(bytes),
        Err(_) => Err(PhotoError::InvalidFormat),
    }
}

/// The views of a sequence of byte vectors.
pub open spec fn views_u8(v: Seq<Vec<u8>>) -> Seq<Seq<u8>> {
    v.map_values(|b: Vec<u8>| b@)
}

} // verus!
