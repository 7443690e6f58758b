//! Geotagging plan: media files are grouped by the directory that holds
//! them, and each directory is correlated with one track, merged first when
//! several tracks are given.

use crate::command::{clean, copy_strings, geotag_images_dir, push_chars_arg, ToolCall, backup_of};
use crate::error::PhotoError;
use crate::offset::decimal;
use crate::scan::AppConfig;
use crate::text::{chars_eq, chars_of, rfind, rfind_char, slice_chars, string_of, views};
use crate::tracks::{join_path, merge_target, merged_name};
use vstd::prelude::*;
use vstd::prelude::VecAdditionalExecFns;

verus! {

/// The directory that holds the file at `path`: up to its last `/` (the
/// root for a file at the root, nothing for a bare name).
pub open spec fn parent_of(path: Seq<char>) -> Seq<char> {
    if rfind(path, '/') < 0 {
        Seq::empty()
    } else if rfind(path, '/') == 0 {
        seq!['/']
    } else {
        path.subrange(0, rfind(path, '/'))
    }
}

/// The directory that holds the file at `path`.
pub fn parent_dir(path: &str) -> (r: String)
    ensures
        r@ == parent_of(path@),
{
    let p = chars_of(path);
    match rfind_char(&p, '/') {
        None => string_of(&Vec::new()),
        Some(k) => if k == 0 {
            string_of(&vec!['/'])
        } else {
            string_of(&slice_chars(&p, 0, k))
        },
    }
}

/// The first `n` of `files` that sit in `dir`, in order.
pub open spec fn files_in(files: Seq<Seq<char>>, n: int, dir: Seq<char>) -> Seq<Seq<char>>
    decreases n,
{
    if n <= 0 || n > files.len() {
        Seq::empty()
    } else if parent_of(files[n - 1]) == dir {
        files_in(files, n - 1, dir).push(files[n - 1])
    } else {
        files_in(files, n - 1, dir)
    }
}

proof fn lemma_files_in_none(files: Seq<Seq<char>>, n: int, dir: Seq<char>)
    requires
        0 <= n <= files.len(),
        forall|k: int| 0 <= k < n ==> parent_of(#[trigger] files[k]) != dir,
    ensures
        files_in(files, n, dir).len() == 0,
    decreases n,
{
    if n > 0 {
        lemma_files_in_none(files, n - 1, dir);
    }
}

/// `dirs` and `groups` group `files`: one directory per group, no directory
/// twice, each group the files of its directory in order, and every file's
/// directory present.
pub open spec fn groups_files(dirs: Seq<Seq<char>>, groups: Seq<Seq<Seq<char>>>, files: Seq<Seq<char>>, n: int) -> bool {
    &&& dirs.len() == groups.len()
    &&& forall|a: int, b: int| 0 <= a < b < dirs.len() ==> dirs[a] != dirs[b]
    &&& forall|j: int| 0 <= j < dirs.len() ==> #[trigger] groups[j] == files_in(files, n, dirs[j])
    &&& forall|j: int| 0 <= j < dirs.len() ==> #[trigger] groups[j].len() > 0
    &&& forall|k: int| 0 <= k < n ==> dirs.contains(parent_of(#[trigger] files[k]))
}

/// Groups `files` by the directory that holds each, directories in the
/// order they first appear.
pub fn group_by_parent(files: &Vec<String>) -> (r: (Vec<String>, Vec<Vec<String>>))
    ensures
        groups_files(views(r.0@), r.1@.map_values(|g: Vec<String>| views(g@)), views(files@), files@.len() as int),
{
    let ghost fv = views(files@);
    let mut dirs: Vec<String> = Vec::new();
    let mut groups: Vec<Vec<String>> = Vec::new();
    let mut i: usize = 0;
    while i < files.len()
        invariant
            i <= files@.len(),
            fv == views(files@),
            groups_files(views(dirs@), groups@.map_values(|g: Vec<String>| views(g@)), fv, i as int),
        decreases files@.len() - i,
    {
        let ghost gv_old = groups@.map_values(|g: Vec<String>| views(g@));
        let ghost dv_old = views(dirs@);
        let d = parent_dir(files[i].as_str());
        let dc = chars_of(d.as_str());
        let mut j: usize = 0;
        while j < dirs.len()
            invariant
                j <= dirs@.len(),
                dc@ == d@,
                forall|k: int| 0 <= k < j ==> dirs@[k]@ != d@,
            ensures
                j <= dirs@.len(),
                j < dirs@.len() ==> dirs@[j as int]@ == d@,
                forall|k: int| 0 <= k < j ==> dirs@[k]@ != d@,
            decreases dirs@.len() - j,
        {
            if chars_eq(&chars_of(dirs[j].as_str()), &dc) {
                break;
            }
            j = j + 1;
        }
        let ghost f = fv[i as int];
        assert(f == files@[i as int]@);
        if j < dirs.len() {
            let ghost gj = views(groups@[j as int]@);
            let mut g = copy_strings(&groups[j]);
            push_chars_arg(&mut g, &chars_of(files[i].as_str()));
            groups.set(j, g);
            proof {
                let gv = groups@.map_values(|g: Vec<String>| views(g@));
                assert(dv_old[j as int] == parent_of(f));
                assert forall|jj: int| 0 <= jj < dv_old.len() implies #[trigger] gv[jj] == files_in(
                    fv,
                    i + 1,
                    dv_old[jj],
                ) && gv[jj].len() > 0 by {
                    if jj != j {
                        assert(dv_old[jj] != dv_old[j as int]);
                        assert(gv[jj] == gv_old[jj]);
                    }
                }
                assert forall|k: int| 0 <= k < i + 1 implies dv_old.contains(
                    parent_of(#[trigger] fv[k]),
                ) by {
                    if k == i {
                        assert(dv_old[j as int] == parent_of(fv[k]));
                    }
                }
            }
        } else {
            proof {
                assert forall|k: int| 0 <= k < i implies parent_of(#[trigger] fv[k]) != parent_of(f) by {
                    if parent_of(fv[k]) == parent_of(f) {
                        let w = choose|w: int| 0 <= w < dv_old.len() && dv_old[w] == parent_of(fv[k]);
                        assert(dirs@[w]@ == dv_old[w]);
                    }
                }
                lemma_files_in_none(fv, i as int, parent_of(f));
            }
            let mut g: Vec<String> = Vec::new();
            assert(views(g@) =~= Seq::<Seq<char>>::empty());
            push_chars_arg(&mut g, &chars_of(files[i].as_str()));
            assert(views(g@) =~= seq![f]);
            dirs.push(d);
            groups.push(g);
            proof {
                let gv = groups@.map_values(|g: Vec<String>| views(g@));
                let dv = views(dirs@);
                assert(dv =~= dv_old.push(parent_of(f)));
                assert(gv =~= gv_old.push(seq![f]));
                assert(files_in(fv, i as int, parent_of(f)) =~= Seq::<Seq<char>>::empty());
                assert(files_in(fv, i + 1, parent_of(f)) =~= seq![f]);
                assert forall|a: int, b: int| 0 <= a < b < dv.len() implies dv[a] != dv[b] by {
                    if b == dv.len() - 1 {
                        assert(dirs@[a]@ == dv_old[a]);
                        assert(dv_old[a] != d@);
                    }
                }
                assert forall|jj: int| 0 <= jj < dv.len() implies #[trigger] gv[jj] == files_in(
                    fv,
                    i + 1,
                    dv[jj],
                ) && gv[jj].len() > 0 by {
                    if jj < dv_old.len() {
                        assert(dirs@[jj]@ == dv_old[jj]);
                        assert(dv_old[jj] != d@);
                    }
                }
                assert forall|k: int| 0 <= k < i + 1 implies dv.contains(parent_of(#[trigger] fv[k])) by {
                    if k == i {
                        assert(dv[dv.len() - 1] == parent_of(fv[k]));
                    } else {
                        let w = choose|w: int| 0 <= w < dv_old.len() && dv_old[w] == parent_of(fv[k]);
                        assert(dv[w] == parent_of(fv[k]));
                    }
                }
            }
        }
        i = i + 1;
    }
    (dirs, groups)
}

/// The geotagging of one directory.
pub struct GeotagStep {
    /// The directory.
    pub dir: String,
    /// Its media files.
    pub files: Vec<String>,
    /// The given tracks are merged into `track` first.
    pub merge: bool,
    /// The track to correlate with.
    pub track: String,
    /// The correlation tool's call.
    pub call: ToolCall,
    /// The merged track is deleted afterwards.
    pub remove_track: bool,
}

/// The geotagging of a set of media files.
pub struct GeotagPlan {
    /// One step per directory, directories in the order they first appear.
    pub steps: Vec<GeotagStep>,
    /// The backup files to delete at the end.
    pub backups: Vec<String>,
}

/// What the step of directory `dir` is, for the given tracks.
pub open spec fn step_ok(config: AppConfig, tracks: Seq<Seq<char>>, dir: Seq<char>, st: GeotagStep) -> bool {
    let merge = tracks.len() > 1;
    let track = if merge {
        join_path(dir, merged_name())
    } else {
        tracks[0]
    };
    &&& st.dir@ == dir
    &&& st.merge == merge
    &&& st.track@ == track
    &&& st.remove_track == (merge && !config.dry_run)
    &&& st.call.program@ == "gpicsync"@
    &&& st.call.arg_views() == seq![
        "-g"@,
        track,
        "-z"@,
        "UTC"@,
        "-d"@,
        dir,
        "--time-range"@,
        decimal(config.timerange as nat),
    ]
}

/// Plans the geotagging of `images` with the tracks `gps_paths`: each
/// directory holding images is correlated with the single track, or with
/// the merge of all tracks placed in that directory (deleted afterwards
/// unless in a dry run). Fails when no track is given.
pub fn cmd_geotag(config: &AppConfig, gps_paths: &Vec<String>, images: &Vec<String>) -> (r: Result<GeotagPlan, PhotoError>)
    ensures
        gps_paths@.len() == 0 <==> r == Err::<GeotagPlan, PhotoError>(PhotoError::NoTracks),
        gps_paths@.len() > 0 ==> r is Ok,
        r is Ok ==> {
            let p = r->Ok_0;
            &&& groups_files(
                p.steps@.map_values(|st: GeotagStep| st.dir@),
                p.steps@.map_values(|st: GeotagStep| views(st.files@)),
                views(images@),
                images@.len() as int,
            )
            &&& forall|j: int| 0 <= j < p.steps@.len() ==> step_ok(*config, views(gps_paths@), p.steps@[j].dir@, #[trigger] p.steps@[j])
            &&& config.dry_run ==> p.backups@.len() == 0
            &&& !config.dry_run ==> views(p.backups@) == views(images@).map_values(|q: Seq<char>| backup_of(q))
        },
{
    if gps_paths.len() == 0 {
        return Err(PhotoError::NoTracks);
    }
    let (dirs, groups) = group_by_parent(images);
    let ghost gv = groups@.map_values(|g: Vec<String>| views(g@));
    let merge = gps_paths.len() > 1;
    let mut steps: Vec<GeotagStep> = Vec::new();
    let mut j: usize = 0;
    while j < dirs.len()
        invariant
            j <= dirs@.len(),
            dirs@.len() == groups@.len(),
            gps_paths@.len() > 0,
            merge == (gps_paths@.len() > 1),
            steps@.len() == j,
            forall|k: int| 0 <= k < j ==> #[trigger] steps@[k].dir@ == dirs@[k]@ && views(steps@[k].files@) == views(groups@[k]@)
                && step_ok(*config, views(gps_paths@), dirs@[k]@, steps@[k]),
        decreases dirs@.len() - j,
    {
        let dir = string_of(&chars_of(dirs[j].as_str()));
        let track = if merge {
            merge_target(dir.as_str())
        } else {
            string_of(&chars_of(gps_paths[0].as_str()))
        };
        let call = geotag_images_dir(config, track.as_str(), dir.as_str());
        let files = copy_strings(&groups[j]);
        let st = GeotagStep { dir, files, merge, track, call, remove_track: merge && !config.dry_run };
        assert(!merge ==> views(gps_paths@)[0] == gps_paths@[0]@);
        assert(step_ok(*config, views(gps_paths@), dirs@[j as int]@, st));
        steps.push(st);
        j = j + 1;
    }
    proof {
        assert(steps@.map_values(|st: GeotagStep| st.dir@) =~= views(dirs@));
        assert(steps@.map_values(|st: GeotagStep| views(st.files@)) =~= gv);
    }
    let backups = clean(images, config.dry_run);
    Ok(GeotagPlan { steps, backups })
}

} // verus!
