//! A model of the part of the file system that the bootstrap reads and
//! writes, and what the bootstrap does to it when every operation succeeds.
//!
//! The model is ghost only. It says what the session's operations mean; the
//! host is what performs them.

use vstd::prelude::*;
use crate::icon::default_icon;
use crate::layout::Layout;
use crate::layout::MARKER_PATH;
use crate::layout::RESOURCE_DIR;
use crate::layout::icon_directory_of;
use crate::layout::icon_path_of;
use crate::layout::layout_for;
use crate::session::Phase;
use crate::session::Reply;
use crate::session::step;

verus! {

/// Files with their contents, and directories, by path.
pub struct Disk {
    pub files: Map<Seq<char>, Seq<u8>>,
    pub dirs: Set<Seq<char>>,
}

impl Disk {
    /// Whether a file stands at `path`.
    pub open spec fn has_file(self, path: Seq<char>) -> bool {
        self.files.dom().contains(path)
    }

    /// Whether a directory stands at `path`.
    pub open spec fn has_dir(self, path: Seq<char>) -> bool {
        self.dirs.contains(path)
    }

    /// The disk with the directory `path` on it.
    pub open spec fn with_dir(self, path: Seq<char>) -> Disk {
        Disk { files: self.files, dirs: self.dirs.insert(path) }
    }

    /// The disk with `contents` in the file at `path`.
    pub open spec fn with_file(self, path: Seq<char>, contents: Seq<u8>) -> Disk {
        Disk { files: self.files.insert(path, contents), dirs: self.dirs }
    }
}

/// The truthful reply to the probe of `phase` on `disk`; `Done` for a phase
/// that probes nothing.
pub open spec fn probe(phase: Phase, disk: Disk) -> Reply {
    let found = match phase {
        Phase::ProbingMarker => Some(disk.has_file(MARKER_PATH@)),
        Phase::ProbingResourceDir => Some(disk.has_dir(RESOURCE_DIR@)),
        Phase::ProbingIcon(layout) => Some(disk.has_file(icon_path_of(layout))),
        _ => None,
    };
    match found {
        Some(true) => Reply::Found,
        Some(false) => Reply::Missing,
        None => Reply::Done,
    }
}

/// The disk after the operation of `phase` has succeeded on `disk`.
pub open spec fn perform(phase: Phase, disk: Disk) -> Disk {
    match phase {
        Phase::CreatingResourceDir => disk.with_dir(RESOURCE_DIR@),
        Phase::WritingIcon(layout) => disk.with_dir(icon_directory_of(layout)).with_file(
            icon_path_of(layout),
            default_icon(),
        ),
        _ => disk,
    }
}

/// One operation that succeeds: the disk after it, and the phase after the
/// truthful reply to it.
pub open spec fn settle(phase: Phase, disk: Disk) -> (Phase, Disk) {
    match step(phase, probe(phase, disk)) {
        Some(following) => (following, perform(phase, disk)),
        None => (phase, disk),
    }
}

/// `count` operations that succeed, one after the other.
pub open spec fn settle_many(phase: Phase, disk: Disk, count: nat) -> (Phase, Disk)
    decreases count,
{
    if count == 0 {
        (phase, disk)
    } else {
        let (following, after) = settle(phase, disk);
        settle_many(following, after, (count - 1) as nat)
    }
}

/// What resolving the icon path leaves on `disk`: in a development checkout
/// the resource directory exists afterwards, elsewhere nothing is touched.
pub open spec fn resolved(disk: Disk) -> Disk {
    if disk.has_file(MARKER_PATH@) && !disk.has_dir(RESOURCE_DIR@) {
        disk.with_dir(RESOURCE_DIR@)
    } else {
        disk
    }
}

/// Number of operations that resolving the icon path takes on `disk`.
pub open spec fn resolve_steps(disk: Disk) -> nat {
    if !disk.has_file(MARKER_PATH@) {
        1
    } else if disk.has_dir(RESOURCE_DIR@) {
        2
    } else {
        3
    }
}

/// What making sure of the icon leaves on `disk`: a file that is there is
/// left alone, a missing one is written with the placeholder's bytes.
pub open spec fn provisioned(disk: Disk, layout: Layout) -> Disk {
    if disk.has_file(icon_path_of(layout)) {
        disk
    } else {
        disk.with_dir(icon_directory_of(layout)).with_file(icon_path_of(layout), default_icon())
    }
}

/// Number of operations that making sure of the icon takes on `disk`.
pub open spec fn provision_steps(disk: Disk, layout: Layout) -> nat {
    if disk.has_file(icon_path_of(layout)) {
        1
    } else {
        2
    }
}

/// Path selection. From the marker probe on, the session arrives at the probe
/// for the icon of the layout that the marker indicates. With the marker on
/// the disk that icon is `./res/wei.ico` and `./res` exists afterwards;
/// without it the icon is `./wei.ico` and the disk is as it was, no
/// directory created.
pub proof fn lemma_path_selection(disk: Disk)
    ensures
        settle_many(Phase::ProbingMarker, disk, resolve_steps(disk)) == (
            Phase::ProbingIcon(layout_for(disk.has_file(MARKER_PATH@))),
            resolved(disk),
        ),
        disk.has_file(MARKER_PATH@) ==> {
            &&& icon_path_of(layout_for(disk.has_file(MARKER_PATH@))) == "./res/wei.ico"@
            &&& resolved(disk).has_dir("./res"@)
            &&& resolved(disk).files == disk.files
        },
        !disk.has_file(MARKER_PATH@) ==> {
            &&& icon_path_of(layout_for(disk.has_file(MARKER_PATH@))) == "./wei.ico"@
            &&& resolved(disk) == disk
        },
{
    reveal_with_fuel(settle_many, 4);
}

/// Provisioning. From the icon probe on, the session arrives at applying the
/// icon, and then the icon file exists. Where it was missing, its bytes are
/// exactly those of the placeholder; no other file is touched either way.
pub proof fn lemma_missing_icon_is_written(disk: Disk, layout: Layout)
    ensures
        settle_many(Phase::ProbingIcon(layout), disk, provision_steps(disk, layout)) == (
            Phase::ApplyingIcon(layout),
            provisioned(disk, layout),
        ),
        provisioned(disk, layout).has_file(icon_path_of(layout)),
        !disk.has_file(icon_path_of(layout)) ==> provisioned(disk, layout).files[icon_path_of(
            layout,
        )] == default_icon(),
        forall|path: Seq<char>|
            path != icon_path_of(layout) ==> (provisioned(disk, layout).has_file(path)
                <==> disk.has_file(path)) && (disk.has_file(path) ==> provisioned(
                disk,
                layout,
            ).files[path] == disk.files[path]),
{
    reveal_with_fuel(settle_many, 3);
}

/// Idempotence. An icon file that is already there is not overwritten, so
/// provisioning a second time changes nothing, whatever the first time did.
pub proof fn lemma_provisioning_is_idempotent(disk: Disk, layout: Layout)
    ensures
        disk.has_file(icon_path_of(layout)) ==> provisioned(disk, layout) == disk,
        provisioned(provisioned(disk, layout), layout) == provisioned(disk, layout),
        provision_steps(provisioned(disk, layout), layout) == 1,
{
}

} // verus!
