//! The mount planner: what to do with each entry of the mount table of the
//! new root.
//!
//! An entry is resolved to a device, and for a filesystem with subvolumes to
//! one of them; what the session has mounted already is passed over. The
//! planner decides from what it is given and changes nothing, so that it can
//! be asked again at any time.
use crate::block_device::{
    device_identity, find_by_reference, first_match, first_match_from, has_attribute, reference_matches,
    matches_reference, subvolume_identity, subvolume_type, BTRFSSubVolume, BlockDevice,
    BlockDeviceView, BlockOrSubvolumeID, ReferenceKind, SubVolumeView,
};
use crate::btrfs::SubvolumeCache;
use crate::capability::{Attempt, AttemptView};
use crate::luks::CryptTab;
use crate::mount::{
    actual_mount_point, mount_attempt, mount_block_device, mount_path, subvolume_mount_options,
    subvolume_options,
};
use crate::names::MountedSet;
use crate::text::{
    chars_eq_from, chars_of, chars_start_with, parse_number, parse_usize, slice_string, str_eq,
};
use vstd::prelude::*;
use vstd::string::*;

verus! {

/// One entry of a mount table.
pub struct MountTableEntry {
    /// The device: a path, or a tagged reference.
    pub fs_spec: String,
    /// Where the device is mounted in the new root.
    pub mountpoint: String,
    /// The type of the filesystem.
    pub vfs_type: String,
    /// The mount options, in their order.
    pub mount_options: Vec<String>,
}

/// What a `MountTableEntry` holds, as plain texts.
pub struct EntryView {
    pub fs_spec: Seq<char>,
    pub mountpoint: Seq<char>,
    pub vfs_type: Seq<char>,
    pub mount_options: Seq<Seq<char>>,
}

impl View for MountTableEntry {
    type V = EntryView;

    open spec fn view(&self) -> EntryView {
        EntryView {
            fs_spec: self.fs_spec@,
            mountpoint: self.mountpoint@,
            vfs_type: self.vfs_type@,
            mount_options: self.mount_options.deep_view(),
        }
    }
}

impl DeepView for MountTableEntry {
    type V = EntryView;

    open spec fn deep_view(&self) -> EntryView {
        self@
    }
}

/// The type of an entry that is no filesystem to mount.
pub open spec fn swap_type() -> Seq<char> {
    "swap"@
}

/// Whether the bare reference of a key alias names the entity: as a
/// reference of its own, or as the uuid that it was before its tag was taken
/// off.
pub open spec fn alias_names(e: BlockDeviceView, reference: Seq<char>) -> bool {
    reference_matches(e, reference) || has_attribute(e, ReferenceKind::Uuid, reference)
}

/// The index, at or after `i`, of the first device that the bare reference
/// of a key alias names.
pub open spec fn first_alias_from(devices: Seq<BlockDeviceView>, reference: Seq<char>, i: int) -> Option<
    usize,
>
    decreases devices.len() - i,
{
    if 0 <= i < devices.len() {
        if alias_names(devices[i], reference) {
            Some(i as usize)
        } else {
            first_alias_from(devices, reference, i + 1)
        }
    } else {
        None
    }
}

/// The index of the device that the source of an entry names: the first
/// device that the key alias under that source names, if there is such an
/// alias and such a device, and else the first device that the source itself
/// names.
pub open spec fn resolve_device(
    devices: Seq<BlockDeviceView>,
    aliases: Map<Seq<char>, Seq<char>>,
    source: Seq<char>,
) -> Option<usize> {
    if aliases.contains_key(source) && first_alias_from(devices, aliases[source], 0) is Some {
        first_alias_from(devices, aliases[source], 0)
    } else {
        first_match(devices, source)
    }
}

/// The value of the first option, at or after index `i`, that begins with `key`.
pub open spec fn option_value_from(options: Seq<Seq<char>>, key: Seq<char>, i: int) -> Option<
    Seq<char>,
>
    decreases options.len() - i,
{
    if 0 <= i < options.len() {
        if key.is_prefix_of(options[i]) {
            Some(options[i].skip(key.len() as int))
        } else {
            option_value_from(options, key, i + 1)
        }
    } else {
        None
    }
}

/// The value of the first option that begins with `key`.
pub open spec fn option_value(options: Seq<Seq<char>>, key: Seq<char>) -> Option<Seq<char>> {
    option_value_from(options, key, 0)
}

/// Whether an option names the subvolume: by its name as it is, or by its
/// name after one leading separator.
pub open spec fn names_subvolume(name: Seq<char>, v: SubVolumeView) -> bool {
    v.name == name || (name.len() > 0 && name[0] == '/' && name.skip(1) == v.name)
}

/// The index, at or after `i`, of the first subvolume that `name` names.
pub open spec fn first_by_name_from(known: Seq<SubVolumeView>, name: Seq<char>, i: int) -> Option<
    usize,
>
    decreases known.len() - i,
{
    if 0 <= i < known.len() {
        if names_subvolume(name, known[i]) {
            Some(i as usize)
        } else {
            first_by_name_from(known, name, i + 1)
        }
    } else {
        None
    }
}

/// The index, at or after `i`, of the first subvolume with the number `id`.
pub open spec fn first_by_id_from(known: Seq<SubVolumeView>, id: nat, i: int) -> Option<usize>
    decreases known.len() - i,
{
    if 0 <= i < known.len() {
        if known[i].id == id {
            Some(i as usize)
        } else {
            first_by_id_from(known, id, i + 1)
        }
    } else {
        None
    }
}

/// Which subvolume the options of an entry select.
#[derive(Clone, Copy, Debug, PartialEq, Eq, Structural)]
pub enum Selection {
    /// The subvolume at this index, which an option names.
    Found(usize),
    /// The first subvolume, since no option names one: worth a warning.
    Fallback,
    /// None: an option names a subvolume that is not there.
    Missing,
}

/// Which of the subvolumes `known` the options select: the one whose number
/// a `subvolid=` option gives; without such an option the one that a
/// `subvol=` option names; without either the first one.
pub open spec fn select_subvolume(options: Seq<Seq<char>>, known: Seq<SubVolumeView>) -> Selection {
    match option_value(options, "subvolid="@) {
        Some(value) => match parse_number(value) {
            Some(id) => match first_by_id_from(known, id as nat, 0) {
                Some(i) => Selection::Found(i),
                None => Selection::Missing,
            },
            None => Selection::Missing,
        },
        None => match option_value(options, "subvol="@) {
            Some(name) => match first_by_name_from(known, name, 0) {
                Some(i) => Selection::Found(i),
                None => Selection::Missing,
            },
            None => if known.len() > 0 {
                Selection::Fallback
            } else {
                Selection::Missing
            },
        },
    }
}

/// Why an entry is passed over.
#[derive(Clone, Copy, Debug, PartialEq, Eq, Structural)]
pub enum SkipReason {
    /// It is swap space.
    Swap,
    /// No device is what its source names.
    Unresolved,
    /// The session has mounted its device, or its subvolume, already.
    AlreadyMounted,
    /// Its options name a subvolume that the device does not have.
    NoSubvolume,
}

/// What to do with an entry.
#[derive(Clone, Copy, Debug, PartialEq, Eq, Structural)]
pub enum EntryPlan {
    /// Pass it over.
    Skip(SkipReason),
    /// List the subvolumes of the device at this index, and plan again.
    List { device: usize },
    /// Mount the device at this index, or, where `subvolume` is set, its
    /// subvolume at that index of its listing. `fallback` says that the first
    /// subvolume was taken for want of an option, which deserves a warning.
    Mount { device: usize, subvolume: Option<usize>, fallback: bool },
}

/// What to do with the subvolumes `known` of the device at index `device`.
pub open spec fn plan_subvolume(
    options: Seq<Seq<char>>,
    device: usize,
    known: Seq<SubVolumeView>,
    mounted: Seq<Seq<char>>,
) -> EntryPlan {
    match select_subvolume(options, known) {
        Selection::Missing => EntryPlan::Skip(SkipReason::NoSubvolume),
        Selection::Found(i) => if mounted.contains(subvolume_identity(known[i as int])) {
            EntryPlan::Skip(SkipReason::AlreadyMounted)
        } else {
            EntryPlan::Mount { device, subvolume: Some(i), fallback: false }
        },
        Selection::Fallback => if mounted.contains(subvolume_identity(known[0])) {
            EntryPlan::Skip(SkipReason::AlreadyMounted)
        } else {
            EntryPlan::Mount { device, subvolume: Some(0), fallback: true }
        },
    }
}

/// What to do with the entry, given the devices of the system, the key
/// aliases of the root, the identities that the session has mounted and the
/// listings that it has made.
pub open spec fn plan_of(
    entry: EntryView,
    devices: Seq<BlockDeviceView>,
    aliases: Map<Seq<char>, Seq<char>>,
    mounted: Seq<Seq<char>>,
    cache: Map<Seq<char>, Seq<SubVolumeView>>,
) -> EntryPlan {
    if entry.vfs_type == swap_type() {
        EntryPlan::Skip(SkipReason::Swap)
    } else {
        match resolve_device(devices, aliases, entry.fs_spec) {
            None => EntryPlan::Skip(SkipReason::Unresolved),
            Some(d) => {
                let id = device_identity(devices[d as int]);
                if mounted.contains(id) {
                    EntryPlan::Skip(SkipReason::AlreadyMounted)
                } else if devices[d as int].fs_type != subvolume_type() {
                    EntryPlan::Mount { device: d, subvolume: None, fallback: false }
                } else if !cache.contains_key(id) {
                    EntryPlan::List { device: d }
                } else {
                    plan_subvolume(entry.mount_options, d, cache[id], mounted)
                }
            },
        }
    }
}

/// Whether the indices of the plan are those of a device and, where it has
/// one, of a subvolume in the listing of that device.
pub open spec fn plan_in_range(
    plan: EntryPlan,
    devices: Seq<BlockDeviceView>,
    cache: Map<Seq<char>, Seq<SubVolumeView>>,
) -> bool {
    match plan {
        EntryPlan::Skip(_) => true,
        EntryPlan::List { device } => device < devices.len(),
        EntryPlan::Mount { device, subvolume, .. } => {
            &&& device < devices.len()
            &&& subvolume matches Some(i) ==> {
                &&& cache.contains_key(device_identity(devices[device as int]))
                &&& i < cache[device_identity(devices[device as int])].len()
            }
        },
    }
}

/// The identity that a mount according to `plan` adds to what the session
/// has mounted.
pub open spec fn planned_identity(
    plan: EntryPlan,
    devices: Seq<BlockDeviceView>,
    cache: Map<Seq<char>, Seq<SubVolumeView>>,
) -> Seq<char>
    recommends
        plan is Mount,
        plan_in_range(plan, devices, cache),
{
    match plan {
        EntryPlan::Mount { device, subvolume: Some(i), .. } => subvolume_identity(
            cache[device_identity(devices[device as int])][i as int],
        ),
        EntryPlan::Mount { device, subvolume: None, .. } => device_identity(devices[device as int]),
        _ => seq![],
    }
}

/// The attempt to mount according to `plan`, for the entry with this mount
/// point, under the root `root`. A failure lets the user choose to go on
/// without the partition.
pub open spec fn planned_attempt(
    plan: EntryPlan,
    mountpoint: Seq<char>,
    devices: Seq<BlockDeviceView>,
    cache: Map<Seq<char>, Seq<SubVolumeView>>,
    root: Seq<char>,
) -> AttemptView
    recommends
        plan is Mount,
        plan_in_range(plan, devices, cache),
{
    match plan {
        EntryPlan::Mount { device, subvolume: Some(i), .. } => {
            let chosen = cache[device_identity(devices[device as int])][i as int];
            mount_attempt(
                chosen.device.name,
                mount_path(root, mountpoint),
                true,
                subvolume_options(chosen.id),
            )
        },
        EntryPlan::Mount { device, subvolume: None, .. } => mount_attempt(
            devices[device as int].name,
            mount_path(root, mountpoint),
            true,
            seq![],
        ),
        _ => mount_attempt(seq![], seq![], true, seq![]),
    }
}

proof fn lemma_first_match_in_range(devices: Seq<BlockDeviceView>, r: Seq<char>, i: int)
    requires
        0 <= i,
        devices.len() <= usize::MAX,
    ensures
        first_match_from(devices, r, i) matches Some(k) ==> i <= k < devices.len() && reference_matches(
            devices[k as int],
            r,
        ),
    decreases devices.len() - i,
{
    if i < devices.len() && !reference_matches(devices[i], r) {
        lemma_first_match_in_range(devices, r, i + 1);
    }
}

/// The index of the first device that the bare reference of a key alias names.
pub fn find_by_alias(devices: &Vec<BlockDevice>, reference: &str) -> (found: Option<usize>)
    ensures
        found == first_alias_from(devices.deep_view(), reference@, 0),
        found matches Some(i) ==> i < devices.len(),
{
    let mut i: usize = 0;
    while i < devices.len()
        invariant
            i <= devices.len(),
            first_alias_from(devices.deep_view(), reference@, i as int) == first_alias_from(
                devices.deep_view(),
                reference@,
                0,
            ),
        decreases devices.len() - i,
    {
        if matches_reference(&devices[i], reference) || devices[i].has_attribute(
            ReferenceKind::Uuid,
            reference,
        ) {
            return Some(i);
        }
        i += 1;
    }
    None
}

/// The index of the device that the source of an entry names.
pub fn resolve_entry_device(devices: &Vec<BlockDevice>, aliases: &CryptTab, source: &str) -> (found:
    Option<usize>)
    ensures
        found == resolve_device(devices.deep_view(), aliases@, source@),
        found matches Some(i) ==> i < devices.len(),
{
    let by_alias = match aliases.get(source) {
        Some(reference) => find_by_alias(devices, reference.as_str()),
        None => None,
    };
    match by_alias {
        Some(i) => Some(i),
        None => {
            proof {
                assert(devices.deep_view().len() == devices.len());
                lemma_first_match_in_range(devices.deep_view(), source@, 0);
            }
            find_by_reference(devices, source)
        },
    }
}

/// The value of the first option that begins with `key`.
pub fn find_option(options: &Vec<String>, key: &str) -> (found: Option<String>)
    ensures
        found.deep_view() == option_value(options.deep_view(), key@),
{
    let k = chars_of(key);
    let mut i: usize = 0;
    while i < options.len()
        invariant
            i <= options.len(),
            k@ == key@,
            option_value_from(options.deep_view(), key@, i as int) == option_value(
                options.deep_view(),
                key@,
            ),
        decreases options.len() - i,
    {
        let option = chars_of(options[i].as_str());
        if chars_start_with(&option, &k) {
            return Some(slice_string(options[i].as_str(), k.len(), option.len()));
        }
        i += 1;
    }
    None
}

fn option_names(name: &Vec<char>, subvolume: &BTRFSSubVolume) -> (b: bool)
    ensures
        b == names_subvolume(name@, subvolume@),
{
    let own = chars_of(subvolume.subvolume_name.as_str());
    assert(name@.skip(0) =~= name@);
    chars_eq_from(name, 0, &own) || (name.len() > 0 && name[0] == '/' && chars_eq_from(
        name,
        1,
        &own,
    ))
}

fn find_by_name(known: &Vec<BTRFSSubVolume>, name: &str) -> (found: Option<usize>)
    ensures
        found == first_by_name_from(known.deep_view(), name@, 0),
        found matches Some(i) ==> i < known.len(),
{
    let n = chars_of(name);
    let mut i: usize = 0;
    while i < known.len()
        invariant
            i <= known.len(),
            n@ == name@,
            first_by_name_from(known.deep_view(), name@, i as int) == first_by_name_from(
                known.deep_view(),
                name@,
                0,
            ),
        decreases known.len() - i,
    {
        if option_names(&n, &known[i]) {
            return Some(i);
        }
        i += 1;
    }
    None
}

fn find_by_id(known: &Vec<BTRFSSubVolume>, id: usize) -> (found: Option<usize>)
    ensures
        found == first_by_id_from(known.deep_view(), id as nat, 0),
        found matches Some(i) ==> i < known.len(),
{
    let mut i: usize = 0;
    while i < known.len()
        invariant
            i <= known.len(),
            first_by_id_from(known.deep_view(), id as nat, i as int) == first_by_id_from(
                known.deep_view(),
                id as nat,
                0,
            ),
        decreases known.len() - i,
    {
        if known[i].subvolume_id == id {
            return Some(i);
        }
        i += 1;
    }
    None
}

/// Which of the subvolumes `known` the options of an entry select.
pub fn select_subvolume_by_options(options: &Vec<String>, known: &Vec<BTRFSSubVolume>) -> (out:
    Selection)
    ensures
        out == select_subvolume(options.deep_view(), known.deep_view()),
        out matches Selection::Found(i) ==> i < known.len(),
        out is Fallback ==> known.len() > 0,
{
    match find_option(options, "subvolid=") {
        Some(value) => match parse_usize(value.as_str()) {
            Some(id) => match find_by_id(known, id) {
                Some(i) => Selection::Found(i),
                None => Selection::Missing,
            },
            None => Selection::Missing,
        },
        None => match find_option(options, "subvol=") {
            Some(name) => match find_by_name(known, name.as_str()) {
                Some(i) => Selection::Found(i),
                None => Selection::Missing,
            },
            None => if known.len() > 0 {
                Selection::Fallback
            } else {
                Selection::Missing
            },
        },
    }
}

fn plan_for_subvolume(
    options: &Vec<String>,
    device: usize,
    known: &Vec<BTRFSSubVolume>,
    mounted: &MountedSet,
) -> (plan: EntryPlan)
    ensures
        plan == plan_subvolume(options.deep_view(), device, known.deep_view(), mounted@),
        plan matches EntryPlan::Mount { subvolume, .. } ==> subvolume matches Some(i) && i
            < known.len(),
{
    let (i, fallback) = match select_subvolume_by_options(options, known) {
        Selection::Missing => {
            return EntryPlan::Skip(SkipReason::NoSubvolume);
        },
        Selection::Found(i) => (i, false),
        Selection::Fallback => (0, true),
    };
    let id = known[i].get_id();
    if mounted.contains(id.as_str()) {
        EntryPlan::Skip(SkipReason::AlreadyMounted)
    } else {
        EntryPlan::Mount { device, subvolume: Some(i), fallback }
    }
}

/// Says what to do with an entry of the mount table. Swap space is passed
/// over, and so is an entry whose device is not found, whose device or
/// subvolume the session has mounted already, or whose options name a
/// subvolume that is not there. A device with subvolumes that has not been
/// listed is to be listed first.
pub fn plan_entry(
    entry: &MountTableEntry,
    devices: &Vec<BlockDevice>,
    aliases: &CryptTab,
    mounted: &MountedSet,
    discovered: &SubvolumeCache,
) -> (plan: EntryPlan)
    ensures
        plan == plan_of(entry@, devices.deep_view(), aliases@, mounted@, discovered@),
        plan_in_range(plan, devices.deep_view(), discovered@),
{
    if str_eq(entry.vfs_type.as_str(), "swap") {
        return EntryPlan::Skip(SkipReason::Swap);
    }
    let d = match resolve_entry_device(devices, aliases, entry.fs_spec.as_str()) {
        Some(d) => d,
        None => {
            return EntryPlan::Skip(SkipReason::Unresolved);
        },
    };
    let id = devices[d].get_id();
    if mounted.contains(id.as_str()) {
        EntryPlan::Skip(SkipReason::AlreadyMounted)
    } else if !devices[d].has_subvolumes() {
        EntryPlan::Mount { device: d, subvolume: None, fallback: false }
    } else {
        match discovered.get(id.as_str()) {
            None => EntryPlan::List { device: d },
            Some(known) => plan_for_subvolume(&entry.mount_options, d, known, mounted),
        }
    }
}

/// A mount that the planner has decided on.
pub struct PlannedMount {
    /// The attempt to mount. A failure lets the user choose to go on without
    /// the partition.
    pub attempt: Attempt,
    /// The identity that the mount adds to what the session has mounted, if
    /// it succeeds.
    pub identity: String,
}

/// The mount that `plan` decides on for `entry`, under the root `root`; none
/// if the plan is no mount, or is not one for these devices and listings.
pub fn planned_mount(
    plan: EntryPlan,
    entry: &MountTableEntry,
    devices: &Vec<BlockDevice>,
    discovered: &SubvolumeCache,
    root: &str,
) -> (out: Option<PlannedMount>)
    ensures
        out is Some <==> plan is Mount && plan_in_range(plan, devices.deep_view(), discovered@),
        out matches Some(planned) ==> {
            &&& planned.identity@ == planned_identity(plan, devices.deep_view(), discovered@)
            &&& planned.attempt@ == planned_attempt(
                plan,
                entry@.mountpoint,
                devices.deep_view(),
                discovered@,
                root@,
            )
        },
{
    match plan {
        EntryPlan::Mount { device, subvolume, .. } => {
            if device >= devices.len() {
                return None;
            }
            let target = actual_mount_point(root, entry.mountpoint.as_str());
            match subvolume {
                None => Some(
                    PlannedMount {
                        attempt: mount_block_device(&devices[device], target.as_str(), true, None),
                        identity: devices[device].get_id(),
                    },
                ),
                Some(i) => {
                    let id = devices[device].get_id();
                    match discovered.get(id.as_str()) {
                        Some(known) if i < known.len() => {
                            let chosen = &known[i];
                            Some(
                                PlannedMount {
                                    attempt: mount_block_device(
                                        &chosen.device,
                                        target.as_str(),
                                        true,
                                        Some(subvolume_mount_options(chosen.subvolume_id)),
                                    ),
                                    identity: chosen.get_id(),
                                },
                            )
                        },
                        _ => None,
                    }
                },
            }
        },
        _ => None,
    }
}

/// Whether every identity of `earlier` is one of `later`.
pub open spec fn mounted_grows(earlier: Seq<Seq<char>>, later: Seq<Seq<char>>) -> bool {
    forall|id: Seq<char>| #[trigger] earlier.contains(id) ==> later.contains(id)
}

/// Whether every listing of `earlier` is a listing of `later`.
pub open spec fn cache_grows(
    earlier: Map<Seq<char>, Seq<SubVolumeView>>,
    later: Map<Seq<char>, Seq<SubVolumeView>>,
) -> bool {
    forall|id: Seq<char>| #[trigger]
        earlier.contains_key(id) ==> later.contains_key(id) && later[id] == earlier[id]
}

/// Whether the session has dealt with the entry, given what it had mounted
/// and listed when it planned for the entry, and what it has mounted now:
/// the entry was passed over, or it was to be mounted and what the mount adds
/// has been recorded.
pub open spec fn dealt_with(
    entry: EntryView,
    devices: Seq<BlockDeviceView>,
    aliases: Map<Seq<char>, Seq<char>>,
    mounted: Seq<Seq<char>>,
    cache: Map<Seq<char>, Seq<SubVolumeView>>,
    now: Seq<Seq<char>>,
) -> bool {
    match plan_of(entry, devices, aliases, mounted, cache) {
        EntryPlan::Skip(_) => true,
        EntryPlan::List { .. } => false,
        EntryPlan::Mount { device, subvolume, fallback } => now.contains(
            planned_identity(EntryPlan::Mount { device, subvolume, fallback }, devices, cache),
        ),
    }
}

/// The planner never mounts what the session has mounted: the identity that
/// a planned mount adds is not among the mounted ones.
pub proof fn lemma_planned_mount_is_new(
    entry: EntryView,
    devices: Seq<BlockDeviceView>,
    aliases: Map<Seq<char>, Seq<char>>,
    mounted: Seq<Seq<char>>,
    cache: Map<Seq<char>, Seq<SubVolumeView>>,
)
    requires
        plan_of(entry, devices, aliases, mounted, cache) is Mount,
    ensures
        !mounted.contains(
            planned_identity(plan_of(entry, devices, aliases, mounted, cache), devices, cache),
        ),
{
}

/// Planning again is harmless: an entry that the session has dealt with is
/// passed over whenever the planner is asked about it again, as long as the
/// session has only added to what it has mounted and listed. So a second
/// pass over a mount table adds no mount for the entries whose mounts the
/// first pass recorded, nor for those that it passed over.
pub proof fn lemma_dealt_with_is_skipped(
    entry: EntryView,
    devices: Seq<BlockDeviceView>,
    aliases: Map<Seq<char>, Seq<char>>,
    mounted: Seq<Seq<char>>,
    cache: Map<Seq<char>, Seq<SubVolumeView>>,
    later_mounted: Seq<Seq<char>>,
    later_cache: Map<Seq<char>, Seq<SubVolumeView>>,
)
    requires
        mounted_grows(mounted, later_mounted),
        cache_grows(cache, later_cache),
        dealt_with(entry, devices, aliases, mounted, cache, later_mounted),
    ensures
        plan_of(entry, devices, aliases, later_mounted, later_cache) is Skip,
{
}

/// A second pass over a mount table mounts nothing: when the session has
/// dealt with every entry of the table, each given what it had mounted and
/// listed at its time, and has only added to both since, the planner passes
/// every entry over.
pub proof fn lemma_second_pass_mounts_nothing(
    entries: Seq<EntryView>,
    devices: Seq<BlockDeviceView>,
    aliases: Map<Seq<char>, Seq<char>>,
    mounted_at: Seq<Seq<Seq<char>>>,
    cache_at: Seq<Map<Seq<char>, Seq<SubVolumeView>>>,
    later_mounted: Seq<Seq<char>>,
    later_cache: Map<Seq<char>, Seq<SubVolumeView>>,
)
    requires
        mounted_at.len() == entries.len(),
        cache_at.len() == entries.len(),
        forall|k: int|
            0 <= k < entries.len() ==> {
                &&& mounted_grows(#[trigger] mounted_at[k], later_mounted)
                &&& cache_grows(cache_at[k], later_cache)
                &&& dealt_with(
                    entries[k],
                    devices,
                    aliases,
                    mounted_at[k],
                    cache_at[k],
                    later_mounted,
                )
            },
    ensures
        forall|k: int|
            0 <= k < entries.len() ==> plan_of(
                #[trigger] entries[k],
                devices,
                aliases,
                later_mounted,
                later_cache,
            ) is Skip,
{
    assert forall|k: int| 0 <= k < entries.len() implies plan_of(
        #[trigger] entries[k],
        devices,
        aliases,
        later_mounted,
        later_cache,
    ) is Skip by {
        lemma_dealt_with_is_skipped(
            entries[k],
            devices,
            aliases,
            mounted_at[k],
            cache_at[k],
            later_mounted,
            later_cache,
        );
    }
}

} // verus!
