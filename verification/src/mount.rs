//! The data model of a volume's exposure mode, the outcomes the machine
//! receives from the surrounding program, and the specification functions
//! that pin down what an internal mount discovers.

use vstd::prelude::*;
use vstd::string::StrSliceExecFns;
use vstd::string::StringExecFns;
use crate::textfmt::{spec_starts_with, trailing_digit_count, partition_suffix, trailing_digit_len};

verus! {

/// A discovered nested disk image inside a mounted partition, tracked by
/// the path it was found at.
#[derive(Debug)]
pub struct IsoHandle {
    pub path: String,
}

/// What a successful internal mount holds: the loopback device path, the
/// mount points of the partitions that mounted, and the nested images
/// discovered under them.
#[derive(Debug)]
pub struct MountInfo {
    pub loopback_path: String,
    pub part_mount_paths: Vec<String>,
    pub isos: Vec<IsoHandle>,
}

/// The exposure mode of one logical volume.  The three variants are
/// mutually exclusive by construction: a value holds either the internal
/// mount's resources or the export identifier, never both.
pub enum MountState {
    Unmounted,
    Internal(MountInfo),
    External(u64),
}

/// The errors a transition can end in.
#[derive(Clone, Debug, PartialEq, Eq)]
pub enum VdriveError {
    /// The requested transition is not allowed from the current mode; the
    /// volume must pass through `Unmounted` first.
    InvalidTransition,
    /// An input needed by a transition is not of the expected shape: a
    /// loopback path without a base name, a partition node without a
    /// trailing number, or a file name that is not text.
    MalformedInput,
    /// Acquiring a kernel resource (loopback device, export slot) failed;
    /// carries the reporting side's description.
    ResourceFailure(String),
    /// A filesystem operation failed; carries the description.
    IoFailure(String),
}

/// What the surrounding program found while scanning one partition of the
/// attached loopback device: the device node's name, whether some mount
/// driver succeeded on it, and the entries of its nested-image folder
/// (empty when the folder is absent or the partition did not mount).
pub struct PartitionScan {
    pub dev_name: String,
    pub mounted: bool,
    pub iso_names: Vec<String>,
}

/// One partition the internal mount will try: the device node to mount
/// and the mount point to mount it at.
#[derive(Debug)]
pub struct PartitionPlan {
    pub dev_name: String,
    pub mount_point: String,
}

/// How an attempt to gather the internal-mount resources ended: either an
/// early failure (no free loopback device, attach failure, unreadable
/// directory), or the loopback path plus one scan per partition.
pub enum InternalMountOutcome {
    Failed(VdriveError),
    Scanned { loopback_path: String, parts: Vec<PartitionScan> },
}

/// One step of the internal teardown, in the order the surrounding
/// program must perform them: nested images first, then partition
/// unmounts, then the loopback detach.
#[derive(Debug, PartialEq, Eq)]
pub enum TeardownStep {
    UnmountImage { path: String },
    UnmountPartition { path: String },
    DetachLoopback { path: String },
}

impl MountState {
    /// The mode holds loopback and filesystem-mount resources.
    pub open spec fn holds_local_resources(self) -> bool {
        self is Internal
    }

    /// The mode holds a USB gadget export.
    pub open spec fn holds_export(self) -> bool {
        self is External
    }
}

/// The exposure mode holds at most one of the loopback-and-mounts resource
/// set and the export: the two can never be held at once.
pub proof fn lemma_exposure_modes_exclusive(s: MountState)
    ensures
        !(s.holds_local_resources() && s.holds_export()),
{
}

/// A directory entry is hidden when its name begins with `.`.
pub open spec fn is_hidden(name: Seq<char>) -> bool {
    name.len() > 0 && name[0] == '.'
}

/// An entry of the device directory belongs to the loopback device when
/// the device's base name is a proper prefix of the entry's name.
pub open spec fn selects_partition(entry: Seq<char>, base: Seq<char>) -> bool {
    spec_starts_with(entry, base) && entry != base
}

/// The mount point used for one partition device node: the display name
/// and the partition number under the fixed mount root.
pub open spec fn spec_mount_point(disp: Seq<char>, dev_name: Seq<char>) -> Seq<char> {
    "/mnt/"@ + disp + " (partition "@ + partition_suffix(dev_name) + ")"@
}

/// The path of one nested image inside a partition's image folder.
pub open spec fn spec_iso_path(mount_point: Seq<char>, name: Seq<char>) -> Seq<char> {
    mount_point + "/ISOS/"@ + name
}

/// Every partition scan names a device node with a trailing partition
/// number.
pub open spec fn scans_well_formed(parts: Seq<PartitionScan>) -> bool {
    forall|i: int| 0 <= i < parts.len() ==> trailing_digit_count(#[trigger] parts[i].dev_name@) > 0
}

/// The mount points of the partitions that mounted, in scan order.
pub open spec fn spec_mount_paths(parts: Seq<PartitionScan>, disp: Seq<char>) -> Seq<Seq<char>>
    decreases parts.len(),
{
    if parts.len() == 0 {
        Seq::empty()
    } else {
        let rest = spec_mount_paths(parts.drop_last(), disp);
        if parts.last().mounted {
            rest.push(spec_mount_point(disp, parts.last().dev_name@))
        } else {
            rest
        }
    }
}

/// The names that survive the hidden-entry filter, in order.
pub open spec fn spec_visible(names: Seq<Seq<char>>) -> Seq<Seq<char>>
    decreases names.len(),
{
    if names.len() == 0 {
        Seq::empty()
    } else {
        let rest = spec_visible(names.drop_last());
        if is_hidden(names.last()) {
            rest
        } else {
            rest.push(names.last())
        }
    }
}

/// The nested-image paths of one mounted partition: its visible entries,
/// each under the partition's image folder.
pub open spec fn spec_part_isos(mount_point: Seq<char>, names: Seq<Seq<char>>) -> Seq<Seq<char>>
    decreases names.len(),
{
    if names.len() == 0 {
        Seq::empty()
    } else {
        let rest = spec_part_isos(mount_point, names.drop_last());
        if is_hidden(names.last()) {
            rest
        } else {
            rest.push(spec_iso_path(mount_point, names.last()))
        }
    }
}

/// The view of a vector of names as a sequence of character sequences.
pub open spec fn names_view(names: Seq<String>) -> Seq<Seq<char>> {
    names.map_values(|s: String| s@)
}

/// The view of a vector of nested-image handles as the paths they track.
pub open spec fn iso_view(isos: Seq<IsoHandle>) -> Seq<Seq<char>> {
    isos.map_values(|h: IsoHandle| h.path@)
}

/// All nested-image paths discovered across the scans, in scan order;
/// unmounted partitions contribute nothing.
pub open spec fn spec_iso_paths(parts: Seq<PartitionScan>, disp: Seq<char>) -> Seq<Seq<char>>
    decreases parts.len(),
{
    if parts.len() == 0 {
        Seq::empty()
    } else {
        let rest = spec_iso_paths(parts.drop_last(), disp);
        if parts.last().mounted {
            rest + spec_part_isos(
                spec_mount_point(disp, parts.last().dev_name@),
                names_view(parts.last().iso_names@),
            )
        } else {
            rest
        }
    }
}

/// The fixed, ordered list of mount drivers an internal mount tries on
/// each partition: the first that succeeds wins, and a partition on
/// which all of them fail is skipped rather than failing the whole
/// transition.
pub fn mount_driver_candidates() -> (r: Vec<String>)
    ensures
        r@.len() == 3,
        r@[0]@ == "mount"@,
        r@[1]@ == "mount.exfat"@,
        r@[2]@ == "mount.ntfs-3g"@,
{
    let mut r: Vec<String> = Vec::new();
    r.push(String::from_str("mount"));
    r.push(String::from_str("mount.exfat"));
    r.push(String::from_str("mount.ntfs-3g"));
    r
}

/// Whether a directory entry's name begins with the hidden-file marker.
pub fn is_hidden_name(s: &str) -> (r: bool)
    ensures
        r == is_hidden(s@),
{
    if s.unicode_len() == 0 {
        false
    } else {
        s.get_char(0) == '.'
    }
}

/// The partition plan derived from the device directory: for each entry
/// that belongs to the loopback device (proper prefix of its base name),
/// in order, the device node's name and the mount point to use for it.
/// `None` when some such entry has no trailing partition number.
pub open spec fn spec_plans(entries: Seq<Seq<char>>, base: Seq<char>, disp: Seq<char>) -> Option<
    Seq<(Seq<char>, Seq<char>)>,
>
    decreases entries.len(),
{
    if entries.len() == 0 {
        Some(Seq::empty())
    } else {
        match spec_plans(entries.drop_last(), base, disp) {
            None => None,
            Some(rest) => {
                let e = entries.last();
                if !selects_partition(e, base) {
                    Some(rest)
                } else if trailing_digit_count(e) == 0 {
                    None
                } else {
                    Some(rest.push((e, spec_mount_point(disp, e))))
                }
            },
        }
    }
}

/// Once a prefix of the entries has a malformed partition name, the whole
/// listing does.
pub proof fn lemma_plans_prefix_none(
    entries: Seq<Seq<char>>,
    base: Seq<char>,
    disp: Seq<char>,
    i: int,
)
    requires
        0 <= i <= entries.len(),
        spec_plans(entries.subrange(0, i), base, disp) is None,
    ensures
        spec_plans(entries, base, disp) is None,
    decreases entries.len() - i,
{
    if i == entries.len() {
        assert(entries.subrange(0, i) =~= entries);
    } else {
        assert(entries.subrange(0, i + 1).drop_last() =~= entries.subrange(0, i));
        lemma_plans_prefix_none(entries, base, disp, i + 1);
    }
}

/// The mount point used for one partition device node, built from the
/// display name and the node's trailing partition number.
pub fn mount_point_path(disp: &str, dev_name: &str) -> (r: String)
    ensures
        r@ == spec_mount_point(disp@, dev_name@),
{
    let k = trailing_digit_len(dev_name);
    let n = dev_name.unicode_len();
    let suffix = dev_name.substring_char(n - k, n);
    let mut s = String::from_str("/mnt/");
    s.append(disp);
    s.append(" (partition ");
    s.append(suffix);
    s.append(")");
    s
}

/// The path of one nested image inside a partition's image folder.
pub fn iso_path(mount_point: &str, name: &str) -> (r: String)
    ensures
        r@ == spec_iso_path(mount_point@, name@),
{
    let mut s = String::from_str(mount_point);
    s.append("/ISOS/");
    s.append(name);
    s
}

/// A copy of a vector of strings, element for element.
pub fn clone_string_vec(v: &Vec<String>) -> (r: Vec<String>)
    ensures
        names_view(r@) == names_view(v@),
{
    let mut r: Vec<String> = Vec::new();
    let mut i: usize = 0;
    while i < v.len()
        invariant
            i <= v@.len(),
            r@.len() == i,
            forall|j: int| 0 <= j < i ==> #[trigger] r@[j]@ == v@[j]@,
        decreases v@.len() - i,
    {
        r.push(v[i].clone());
        i = i + 1;
    }
    proof {
        assert(names_view(r@) =~= names_view(v@));
    }
    r
}

impl MountInfo {
    /// A copy whose loopback path, mount points and image paths read the
    /// same as this one's.
    pub fn duplicate(&self) -> (r: MountInfo)
        ensures
            r.loopback_path@ == self.loopback_path@,
            names_view(r.part_mount_paths@) == names_view(self.part_mount_paths@),
            iso_view(r.isos@) == iso_view(self.isos@),
    {
        let mut isos: Vec<IsoHandle> = Vec::new();
        let mut i: usize = 0;
        while i < self.isos.len()
            invariant
                i <= self.isos@.len(),
                isos@.len() == i,
                forall|j: int| 0 <= j < i ==> #[trigger] isos@[j].path@ == self.isos@[j].path@,
            decreases self.isos@.len() - i,
        {
            isos.push(IsoHandle { path: self.isos[i].path.clone() });
            i = i + 1;
        }
        proof {
            assert(iso_view(isos@) =~= iso_view(self.isos@));
        }
        MountInfo {
            loopback_path: self.loopback_path.clone(),
            part_mount_paths: clone_string_vec(&self.part_mount_paths),
            isos,
        }
    }
}

/// No hidden name survives the filter: every entry that is turned into a
/// nested-image handle came from a visible directory entry.
pub proof fn lemma_hidden_entries_excluded(names: Seq<Seq<char>>)
    ensures
        forall|i: int|
            0 <= i < spec_visible(names).len() ==> !is_hidden(#[trigger] spec_visible(names)[i]),
    decreases names.len(),
{
    if names.len() > 0 {
        lemma_hidden_entries_excluded(names.drop_last());
        let rest = spec_visible(names.drop_last());
        assert forall|i: int|
            0 <= i < spec_visible(names).len() implies !is_hidden(
            #[trigger] spec_visible(names)[i],
        ) by {
            if is_hidden(names.last()) {
                assert(spec_visible(names)[i] == rest[i]);
            } else if i < rest.len() {
                assert(spec_visible(names)[i] == rest[i]);
            } else {
                assert(spec_visible(names)[i] == names.last());
            }
        }
    }
}

/// What one partition contributes is exactly its visible entries, each
/// placed under the partition's image folder: an entry whose name begins
/// with the hidden-file marker is never turned into a nested-image path.
pub proof fn lemma_part_isos_are_visible_entries(mount_point: Seq<char>, names: Seq<Seq<char>>)
    ensures
        spec_part_isos(mount_point, names) == spec_visible(names).map_values(
            |n: Seq<char>| spec_iso_path(mount_point, n),
        ),
    decreases names.len(),
{
    if names.len() == 0 {
        assert(spec_part_isos(mount_point, names) =~= spec_visible(names).map_values(
            |n: Seq<char>| spec_iso_path(mount_point, n),
        ));
    } else {
        lemma_part_isos_are_visible_entries(mount_point, names.drop_last());
        assert(spec_part_isos(mount_point, names) =~= spec_visible(names).map_values(
            |n: Seq<char>| spec_iso_path(mount_point, n),
        ));
    }
}

/// A partition whose mount attempt failed contributes nothing to the
/// mount-point set, and takes nothing from the others: the set is exactly
/// the mount points of the partitions that mounted, in scan order.
pub proof fn lemma_failed_partitions_excluded(parts: Seq<PartitionScan>, disp: Seq<char>)
    ensures
        spec_mount_paths(parts, disp) == parts.filter(|p: PartitionScan| p.mounted).map_values(
            |p: PartitionScan| spec_mount_point(disp, p.dev_name@),
        ),
    decreases parts.len(),
{
    reveal(Seq::filter);
    if parts.len() == 0 {
        assert(spec_mount_paths(parts, disp) =~= parts.filter(
            |p: PartitionScan| p.mounted,
        ).map_values(|p: PartitionScan| spec_mount_point(disp, p.dev_name@)));
    } else {
        lemma_failed_partitions_excluded(parts.drop_last(), disp);
        assert(spec_mount_paths(parts, disp) =~= parts.filter(
            |p: PartitionScan| p.mounted,
        ).map_values(|p: PartitionScan| spec_mount_point(disp, p.dev_name@)));
    }
}

} // verus!
