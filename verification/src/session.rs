//! The session: picking the root, mounting it, mounting what its mount table
//! names and what the user adds, changing the root, and taking everything
//! down again.
//!
//! The session owns what the managers share: the devices, the identities it
//! has mounted, the listings it has made, the key aliases, and the resources
//! it has opened. It is driven like every manager: it says what it wants done
//! next, and is told what came of it.
use crate::args::Args;
use crate::block_device::{
    device_identity, encrypted_type, list_block_devices, pool_member_type, subvolume_identity,
    subvolume_type, without_ignored, BlockDevice, BlockDeviceView, BlockDevices,
    BlockOrSubvolumeID, SubVolumeView,
};
use crate::btrfs::{
    cache_after, get_btrfs_subvolume, keep_listing, list_subvolumes, listed_view, ListingStage,
    SubvolumeCache,
};
use crate::capability::{
    Attempt, AttemptView, Command, CommandView, Fatal, Outcome, Question, Reply, Request,
};
use crate::luks::{
    aliases_of, close_attempt, close_device, list_crypttab_entries, malformed_of, open_attempt,
    open_device, CryptTab, CryptTabSource,
};
use crate::mount::{
    actual_mount_point, mount_attempt, mount_block_device, mount_path, subvolume_mount_options,
    subvolume_options, umount_block_device, unmount_attempt,
};
use crate::names::{MountedSet, Names};
use crate::planner::{
    cache_grows, lemma_dealt_with_is_skipped, mounted_grows, plan_entry, plan_of,
    planned_attempt, planned_identity, planned_mount, EntryPlan, EntryView, MountTableEntry,
    SkipReason,
};
use crate::table::Table;
use crate::text::{eq_ignore_ascii_case, join_path, lines, path_join, starts_with, str_eq_ignore_ascii_case};
use crate::zfs::{
    dataset_identity, dataset_mount_attempt, dataset_mount_ended, export_attempt, export_zfs_pool,
    import_attempt, import_zfs_pool, is_mounted, list_zfs_mountable_datasets, mount_zfs_dataset,
    unload_attempt, unload_zfs_key, with_mounted, DataSetView, DatasetListingStage, ZFSDataSet,
};
use vstd::prelude::*;
use vstd::string::*;

verus! {

/// What a session has opened and has to close again.
pub struct OpenedResources {
    /// The encrypted volumes that were opened, in the order of their opening.
    pub volumes: Vec<BlockDevice>,
    /// The pools that were imported, in the order of their import.
    pub pools: Vec<BlockDevice>,
    /// The datasets whose keys were loaded, in the order of their loading.
    pub keys: Names,
}

/// Where a session stands: what it has asked for last.
#[derive(Clone, Copy, Debug, PartialEq, Eq, Structural)]
pub enum Phase {
    /// Nothing yet.
    Start,
    /// The devices of the system.
    ListingDevices,
    /// The user's choice of a device for the partition at hand.
    Choosing,
    /// The opening of the encrypted volume that was chosen.
    Opening,
    /// A directory to mount the root on.
    AcquiringRoot,
    /// The subvolume to mount of the device that was chosen.
    Resolving,
    /// The mount of the device, or subvolume, that was chosen.
    Mounting,
    /// The import of the pool that was chosen.
    Importing,
    /// The datasets of that pool that can be mounted.
    ListingDatasets,
    /// The user's choice among these datasets.
    ChoosingDatasets,
    /// The mount of one of the datasets that were chosen.
    MountingDataset,
    /// The key aliases of the root.
    ReadingKeyTable,
    /// The mount table of the root.
    ReadingMountTable,
    /// The subvolumes of the device of an entry of the mount table.
    AutoListing,
    /// The mount of an entry of the mount table.
    AutoMounting,
    /// Whether the user wants another partition mounted.
    AskingMore,
    /// The mount point of that partition.
    EnteringMountPoint,
    /// The change of the root.
    Chroot,
    /// One step of taking the session down.
    Teardown,
    /// Nothing more: the session is over.
    Finished,
}

/// What a session has to tell the user on the way.
#[derive(Clone, Copy, Debug, PartialEq, Eq, Structural)]
pub enum Notice {
    /// The partition that was chosen is mounted already and is left alone.
    AlreadyMounted,
    /// The device has one subvolume only, which is taken.
    SoleSubvolume,
    /// A dataset keeps its key where the session cannot fetch it.
    UnsupportedEncryption,
    /// The keys of so many datasets could not be loaded; these datasets will
    /// fail to mount.
    KeysNotLoaded(usize),
    /// The dataset at this index of the choice is mounted already and is left alone.
    DatasetAlreadyMounted(usize),
    /// The root is encrypted and has no table of key aliases.
    MissingKeyTable,
    /// The table of key aliases could not be read.
    UnreadableKeyTable,
    /// The line at this index of the table of key aliases is malformed and
    /// was skipped.
    MalformedAlias(usize),
    /// The root has no mount table.
    MissingMountTable,
    /// The entry at this index of the mount table was passed over.
    EntrySkipped(usize, SkipReason),
    /// The entry at this index of the mount table names no subvolume: the
    /// first one is mounted.
    FallbackSubvolume(usize),
    /// The step at this index of taking the session down failed; it is left
    /// to the user.
    CleanupFailed(usize),
}

/// What a session does next.
pub enum SessionNext {
    /// Perform the request and come back with the reply.
    Ask(Request),
    /// The session is over.
    Done,
    /// The session cannot go on.
    Abort(Fatal),
}

/// The next step of a session, with what there is to tell the user first.
pub struct SessionStep {
    pub notices: Vec<Notice>,
    pub next: SessionNext,
}

/// A session.
pub struct Session {
    pub args: Args,
    pub phase: Phase,
    /// The devices of the system that can be chosen.
    pub devices: Vec<BlockDevice>,
    /// The identities that the session has mounted.
    pub mounted: MountedSet,
    /// The listings of subvolumes that the session has made.
    pub cache: SubvolumeCache,
    /// The key aliases of the root.
    pub aliases: CryptTab,
    /// What the session has opened.
    pub opened: OpenedResources,
    /// The directory on which the root is mounted.
    pub root_mount_point: String,
    /// Whether an encrypted volume was opened for the root.
    pub root_encrypted: bool,
    /// The mount table of the root.
    pub table: Vec<MountTableEntry>,
    /// The index of the entry of the mount table that is being dealt with.
    pub cursor: usize,
    /// The index of the device that is being listed for that entry.
    pub listing_device: usize,
    /// The partition at hand: `root`, or a mount point.
    pub role: String,
    /// Where the partition at hand is mounted.
    pub path: String,
    /// Whether the partition at hand is the root.
    pub for_root: bool,
    /// Whether an encrypted volume was opened for the partition at hand.
    pub reopened: bool,
    /// The device that was chosen for the partition at hand.
    pub device: Option<BlockDevice>,
    /// The identity that the mount under way adds to the mounted ones.
    pub pending: String,
    /// The datasets that can be mounted of the pool that was chosen.
    pub datasets: Vec<ZFSDataSet>,
    /// The indices of the datasets that the user chose.
    pub picks: Vec<usize>,
    /// The index of the choice that is being dealt with.
    pub pick_cursor: usize,
    /// The index of the step of taking down that is under way.
    pub cleanup: usize,
}

/// What a `Session` holds, as plain values.
pub struct SessionView {
    pub args: Args,
    pub phase: Phase,
    pub devices: Seq<BlockDeviceView>,
    pub mounted: Seq<Seq<char>>,
    pub cache: Map<Seq<char>, Seq<SubVolumeView>>,
    pub aliases: Map<Seq<char>, Seq<char>>,
    pub volumes: Seq<BlockDeviceView>,
    pub pools: Seq<BlockDeviceView>,
    pub keys: Seq<Seq<char>>,
    pub root_mount_point: Seq<char>,
    pub root_encrypted: bool,
    pub table: Seq<EntryView>,
    pub cursor: usize,
    pub listing_device: usize,
    pub role: Seq<char>,
    pub path: Seq<char>,
    pub for_root: bool,
    pub reopened: bool,
    pub device: Option<BlockDeviceView>,
    pub pending: Seq<char>,
    pub datasets: Seq<DataSetView>,
    pub picks: Seq<usize>,
    pub pick_cursor: usize,
    pub cleanup: usize,
}

impl View for Session {
    type V = SessionView;

    open spec fn view(&self) -> SessionView {
        SessionView {
            args: self.args,
            phase: self.phase,
            devices: self.devices.deep_view(),
            mounted: self.mounted@,
            cache: self.cache@,
            aliases: self.aliases@,
            volumes: self.opened.volumes.deep_view(),
            pools: self.opened.pools.deep_view(),
            keys: self.opened.keys@,
            root_mount_point: self.root_mount_point@,
            root_encrypted: self.root_encrypted,
            table: self.table.deep_view(),
            cursor: self.cursor,
            listing_device: self.listing_device,
            role: self.role@,
            path: self.path@,
            for_root: self.for_root,
            reopened: self.reopened,
            device: self.device.deep_view(),
            pending: self.pending@,
            datasets: self.datasets.deep_view(),
            picks: self.picks@,
            pick_cursor: self.pick_cursor,
            cleanup: self.cleanup,
        }
    }
}

/// The command that lists the block devices of the system: the partitions
/// and decrypted mappings that hold a filesystem other than swap space.
pub open spec fn list_devices_command() -> CommandView {
    CommandView {
        program: "lsblk"@,
        args: seq![
            "-f"@,
            "-o"@,
            "NAME,FSTYPE,UUID,PARTUUID,LABEL,PARTLABEL"@,
            "-p"@,
            "-a"@,
            "-J"@,
            "-Q"@,
            "type=='part' || type=='crypt' && fstype!='swap' && fstype && uuid"@,
        ],
    }
}

/// The command that changes the root to `root`, within an isolated instance
/// of the service manager if `isolated` is set.
pub open spec fn chroot_command(root: Seq<char>, isolated: bool) -> CommandView {
    CommandView {
        program: "arch-chroot"@,
        args: if isolated {
            seq!["-S"@, root]
        } else {
            seq![root]
        },
    }
}

/// The beginning of the name of the directory on which the root is mounted.
pub open spec fn root_mount_prefix(device: BlockDeviceView) -> Seq<char> {
    "cachyos-chroot-root-mount-"@ + device.uuid + "-"@
}

/// The path of the file `name` in the directory of settings of `root`.
pub open spec fn settings_path(root: Seq<char>, name: Seq<char>) -> Seq<char> {
    join_path(join_path(root, "etc"@), name)
}

/// The role of the partition that becomes the root of the new tree.
pub open spec fn root_role() -> Seq<char> {
    "root"@
}

/// Whether a text is a mount point that the user may enter: it begins with
/// the separator.
pub open spec fn is_mount_point(text: Seq<char>) -> bool {
    "/"@.is_prefix_of(text)
}

/// Whether a text that the user entered for a mount point says to leave it
/// at that.
pub open spec fn says_skip(text: Seq<char>) -> bool {
    eq_ignore_ascii_case(text, "skip"@)
}

impl Command {
    /// The command that lists the block devices of the system.
    pub fn list_devices() -> (out: Command)
        ensures
            out@ == list_devices_command(),
    {
        let out = Command::new("lsblk").arg("-f").arg("-o").arg(
            "NAME,FSTYPE,UUID,PARTUUID,LABEL,PARTLABEL",
        ).arg("-p").arg("-a").arg("-J").arg("-Q").arg(
            "type=='part' || type=='crypt' && fstype!='swap' && fstype && uuid",
        );
        assert(out@.args =~= list_devices_command().args);
        out
    }

    /// The command that changes the root to `root`.
    pub fn chroot(root: &str, isolated: bool) -> (out: Command)
        ensures
            out@ == chroot_command(root@, isolated),
    {
        if isolated {
            let out = Command::new("arch-chroot").arg("-S").arg(root);
            assert(out@.args =~= seq!["-S"@, root@]);
            out
        } else {
            let out = Command::new("arch-chroot").arg(root);
            out
        }
    }
}

/// Whether the user may enter `text` where a mount point is asked for: it is
/// a mount point, or says to leave it at that.
pub fn is_valid_mount_point(text: &str) -> (b: bool)
    ensures
        b == (is_mount_point(text@) || says_skip(text@)),
{
    starts_with(text, "/") || str_eq_ignore_ascii_case(text, "skip")
}

/// The steps of taking a session down, in their order: the tree under the
/// root is unmounted, the encrypted volumes are closed, the keys are
/// unloaded, the pools are exported. No step is fatal.
pub open spec fn teardown_plan(
    root: Seq<char>,
    volumes: Seq<BlockDeviceView>,
    keys: Seq<Seq<char>>,
    pools: Seq<BlockDeviceView>,
) -> Seq<AttemptView> {
    seq![unmount_attempt(root, true)] + Seq::new(
        volumes.len(),
        |i: int| close_attempt(volumes[i]),
    ) + Seq::new(keys.len(), |i: int| unload_attempt(keys[i])) + Seq::new(
        pools.len(),
        |i: int| export_attempt(pools[i]),
    )
}

/// The step at index `k` of taking down what was opened under the root
/// `root`; none if there are no more than `k` steps.
pub fn teardown_attempt(root: &str, opened: &OpenedResources, k: usize) -> (out: Option<Attempt>)
    ensures
        out is Some <==> k < teardown_plan(
            root@,
            opened.volumes.deep_view(),
            opened.keys@,
            opened.pools.deep_view(),
        ).len(),
        out matches Some(attempt) ==> attempt@ == teardown_plan(
            root@,
            opened.volumes.deep_view(),
            opened.keys@,
            opened.pools.deep_view(),
        )[k as int],
{
    let n = opened.volumes.len();
    let m = opened.keys.len();
    if k == 0 {
        Some(umount_block_device(root, true))
    } else if k - 1 < n {
        Some(close_device(&opened.volumes[k - 1]))
    } else if k - 1 - n < m {
        match opened.keys.get(k - 1 - n) {
            Some(name) => Some(unload_zfs_key(name.as_str())),
            None => None,
        }
    } else if k - 1 - n - m < opened.pools.len() {
        Some(export_zfs_pool(&opened.pools[k - 1 - n - m]))
    } else {
        None
    }
}

/// Taking down is done in a fixed order, whatever was opened: first the one
/// unmount of the tree under the root, then one close for each encrypted
/// volume, then one unload for each key, then one export for each pool, each
/// kind in the order of the opening.
pub proof fn lemma_teardown_order(
    root: Seq<char>,
    volumes: Seq<BlockDeviceView>,
    keys: Seq<Seq<char>>,
    pools: Seq<BlockDeviceView>,
    k: int,
)
    requires
        0 <= k < 1 + volumes.len() + keys.len() + pools.len(),
    ensures
        teardown_plan(root, volumes, keys, pools).len() == 1 + volumes.len() + keys.len()
            + pools.len(),
        k == 0 ==> teardown_plan(root, volumes, keys, pools)[k] == unmount_attempt(root, true),
        1 <= k < 1 + volumes.len() ==> teardown_plan(root, volumes, keys, pools)[k]
            == close_attempt(volumes[k - 1]),
        1 + volumes.len() <= k < 1 + volumes.len() + keys.len() ==> teardown_plan(
            root,
            volumes,
            keys,
            pools,
        )[k] == unload_attempt(keys[k - 1 - volumes.len()]),
        1 + volumes.len() + keys.len() <= k ==> teardown_plan(root, volumes, keys, pools)[k]
            == export_attempt(pools[k - 1 - volumes.len() - keys.len()]),
        !teardown_plan(root, volumes, keys, pools)[k].fatal,
{
}

/// A copy of the devices.
pub fn clone_devices(list: &Vec<BlockDevice>) -> (out: Vec<BlockDevice>)
    ensures
        out.deep_view() == list.deep_view(),
{
    let mut out: Vec<BlockDevice> = Vec::new();
    let mut i: usize = 0;
    while i < list.len()
        invariant
            i <= list.len(),
            out.deep_view() =~= list.deep_view().take(i as int),
        decreases list.len() - i,
    {
        let ghost before = out.deep_view();
        out.push(list[i].clone());
        assert(out.deep_view() =~= before.push(list[i as int]@));
        i += 1;
    }
    out
}

/// A copy of the datasets.
pub fn clone_datasets(list: &Vec<ZFSDataSet>) -> (out: Vec<ZFSDataSet>)
    ensures
        out.deep_view() == list.deep_view(),
{
    let mut out: Vec<ZFSDataSet> = Vec::new();
    let mut i: usize = 0;
    while i < list.len()
        invariant
            i <= list.len(),
            out.deep_view() =~= list.deep_view().take(i as int),
        decreases list.len() - i,
    {
        let ghost before = out.deep_view();
        out.push(list[i].clone());
        assert(out.deep_view() =~= before.push(list[i as int]@));
        i += 1;
    }
    out
}

/// The key aliases that a session takes from what there is of their table.
pub open spec fn key_aliases(source: CryptTabSource) -> Map<Seq<char>, Seq<char>> {
    match source {
        CryptTabSource::Contents(text) => aliases_of(lines(text@)),
        _ => Map::empty(),
    }
}

/// What a session has to say about the table of key aliases.
pub open spec fn key_table_notices(source: CryptTabSource, root_encrypted: bool) -> Seq<Notice> {
    match source {
        CryptTabSource::Missing => if root_encrypted {
            seq![Notice::MissingKeyTable]
        } else {
            seq![]
        },
        CryptTabSource::Unreadable => seq![Notice::UnreadableKeyTable],
        CryptTabSource::Contents(text) => malformed_of(lines(text@)).map_values(
            |i: usize| Notice::MalformedAlias(i),
        ),
    }
}

/// What a session has to say about a listing of datasets.
pub open spec fn dataset_notices(unsupported: bool, failed: nat) -> Seq<Notice> {
    (if unsupported {
        seq![Notice::UnsupportedEncryption]
    } else {
        seq![]
    }) + (if failed > 0 {
        seq![Notice::KeysNotLoaded(failed as usize)]
    } else {
        seq![]
    })
}

impl SessionStep {
    /// Whether the step says `notices` and ends the session for `fatal`.
    pub open spec fn aborts(self, notices: Seq<Notice>, fatal: Fatal) -> bool {
        self.notices@ == notices && self.next == SessionNext::Abort(fatal)
    }

    /// Whether the step says `notices` and asks to drive the attempt `attempt`.
    pub open spec fn tries(self, notices: Seq<Notice>, attempt: AttemptView) -> bool {
        &&& self.notices@ == notices
        &&& self.next matches SessionNext::Ask(Request::Try(a))
        &&& a@ == attempt
    }

    /// Whether the step says `notices` and asks for the devices of the system.
    pub open spec fn queries_devices(self, notices: Seq<Notice>) -> bool {
        &&& self.notices@ == notices
        &&& self.next matches SessionNext::Ask(Request::QueryDevices(c))
        &&& c@ == list_devices_command()
    }

    /// Whether the step says `notices` and lets the user pick a device.
    pub open spec fn lets_choose(
        self,
        notices: Seq<Notice>,
        for_role: Seq<char>,
        among: Seq<BlockDeviceView>,
        skip: bool,
    ) -> bool {
        &&& self.notices@ == notices
        &&& self.next matches SessionNext::Ask(
            Request::ChooseDevice { role, candidates, allow_skip },
        )
        &&& role@ == for_role
        &&& candidates.deep_view() == among
        &&& allow_skip == skip
    }

    /// Whether the step says `notices` and puts the question `asked`.
    pub open spec fn confirms(self, notices: Seq<Notice>, asked: Question) -> bool {
        &&& self.notices@ == notices
        &&& self.next matches SessionNext::Ask(Request::Confirm { question, subject })
        &&& question == asked
        &&& subject@ == Seq::<char>::empty()
    }
}

/// The session with the settings `args` that has not begun: nothing is
/// mounted, listed or opened, and the partition at hand is the root.
pub open spec fn initial_session(args: Args) -> SessionView {
    SessionView {
        args,
        phase: Phase::Start,
        devices: seq![],
        mounted: seq![],
        cache: Map::empty(),
        aliases: Map::empty(),
        volumes: seq![],
        pools: seq![],
        keys: seq![],
        root_mount_point: seq![],
        root_encrypted: false,
        table: seq![],
        cursor: 0,
        listing_device: 0,
        role: root_role(),
        path: seq![],
        for_root: true,
        reopened: false,
        device: None,
        pending: seq![],
        datasets: seq![],
        picks: seq![],
        pick_cursor: 0,
        cleanup: 0,
    }
}

impl Session {
    /// A session that has not begun.
    pub fn new(args: Args) -> (out: Session)
        ensures
            out@ == initial_session(args),
    {
        let out = Session {
            args,
            phase: Phase::Start,
            devices: Vec::new(),
            mounted: Names::new(),
            cache: Table::new(),
            aliases: Table::new(),
            opened: OpenedResources { volumes: Vec::new(), pools: Vec::new(), keys: Names::new() },
            root_mount_point: String::new(),
            root_encrypted: false,
            table: Vec::new(),
            cursor: 0,
            listing_device: 0,
            role: "root".to_owned(),
            path: String::new(),
            for_root: true,
            reopened: false,
            device: None,
            pending: String::new(),
            datasets: Vec::new(),
            picks: Vec::new(),
            pick_cursor: 0,
            cleanup: 0,
        };
        assert(out@.pools =~= Seq::<BlockDeviceView>::empty());
        assert(out@.table =~= Seq::<EntryView>::empty());
        assert(out@.datasets =~= Seq::<DataSetView>::empty());
        out
    }

    /// What follows when the user is to be asked for another partition.
    pub open spec fn asks_more(
        m: SessionView,
        pre: Seq<Notice>,
        n: SessionView,
        step: SessionStep,
    ) -> bool {
        &&& n == SessionView { phase: Phase::AskingMore, ..m }
        &&& step.confirms(pre, Question::MountMore)
    }

    /// What follows when the root is to be changed.
    pub open spec fn chroots(
        m: SessionView,
        pre: Seq<Notice>,
        n: SessionView,
        step: SessionStep,
    ) -> bool {
        &&& n == SessionView { phase: Phase::Chroot, ..m }
        &&& step.notices@ == pre
        &&& step.next matches SessionNext::Ask(Request::Run(c))
        &&& c@ == chroot_command(m.root_mount_point, !m.args.no_systemd_chroot)
    }

    /// What follows when the partition at hand is dealt with: for the root
    /// its key aliases are read; after any other the user is asked for
    /// another.
    pub open spec fn after_target(
        m: SessionView,
        pre: Seq<Notice>,
        n: SessionView,
        step: SessionStep,
    ) -> bool {
        if m.for_root {
            &&& n == SessionView { phase: Phase::ReadingKeyTable, ..m }
            &&& step.notices@ == pre
            &&& step.next matches SessionNext::Ask(Request::ReadKeyTable { path })
            &&& path@ == settings_path(m.root_mount_point, "crypttab"@)
        } else {
            Self::asks_more(m, pre, n, step)
        }
    }

    /// What follows when the device for the partition at hand is settled and
    /// there is a path to mount it at: a device that is mounted already is
    /// left alone; of a device with subvolumes one is resolved; a member of a
    /// pool has its pool imported; any other device is mounted.
    pub open spec fn dispatches(
        m: SessionView,
        pre: Seq<Notice>,
        n: SessionView,
        step: SessionStep,
    ) -> bool {
        match m.device {
            None => n == SessionView { phase: Phase::Finished, ..m } && step.aborts(
                pre,
                Fatal::NoSelection,
            ),
            Some(device) => if m.mounted.contains(device_identity(device)) {
                Self::after_target(m, pre.push(Notice::AlreadyMounted), n, step)
            } else if device.fs_type == subvolume_type() {
                &&& n == SessionView { phase: Phase::Resolving, ..m }
                &&& step.notices@ == pre
                &&& step.next matches SessionNext::Ask(Request::Resolve(resolver))
                &&& resolver.prepared(
                    m.cache,
                    device,
                    m.role,
                    m.args.show_btrfs_dot_snapshots,
                )
            } else if device.fs_type == pool_member_type() {
                &&& n == SessionView { phase: Phase::Importing, ..m }
                &&& step.tries(pre, import_attempt(device, m.root_mount_point))
            } else {
                &&& n == SessionView {
                    phase: Phase::Mounting,
                    pending: device_identity(device),
                    ..m
                }
                &&& step.tries(pre, mount_attempt(device.name, m.path, !m.for_root, seq![]))
            },
        }
    }

    /// What follows when the device for the partition at hand is settled:
    /// for the root a directory to mount it on is asked for first.
    pub open spec fn settles(
        m: SessionView,
        pre: Seq<Notice>,
        n: SessionView,
        step: SessionStep,
    ) -> bool {
        if m.for_root && m.device is Some {
            &&& n == SessionView { phase: Phase::AcquiringRoot, ..m }
            &&& step.notices@ == pre
            &&& step.next matches SessionNext::Ask(Request::AcquireMountPoint { prefix })
            &&& prefix@ == root_mount_prefix(m.device->0)
        } else {
            Self::dispatches(m, pre, n, step)
        }
    }

    /// What follows when a device was chosen for the partition at hand: an
    /// encrypted volume is opened first, unless one was opened for this
    /// partition before.
    pub open spec fn enters(
        m: SessionView,
        pre: Seq<Notice>,
        n: SessionView,
        step: SessionStep,
    ) -> bool {
        if m.device is Some && m.device->0.fs_type == encrypted_type()
            && !m.reopened {
            &&& n == SessionView { phase: Phase::Opening, ..m }
            &&& step.tries(pre, open_attempt(m.device->0))
        } else {
            Self::settles(m, pre, n, step)
        }
    }

    /// What follows when the choices of datasets from `m.pick_cursor` on are
    /// to be dealt with: a choice that is no dataset is ignored, a dataset
    /// that is mounted, or that the session has mounted, is left alone, and
    /// the first other one is mounted.
    pub open spec fn datasets_continue(
        m: SessionView,
        pre: Seq<Notice>,
        n: SessionView,
        step: SessionStep,
    ) -> bool
        decreases m.picks.len() - m.pick_cursor,
    {
        if m.pick_cursor >= m.picks.len() || m.pick_cursor >= usize::MAX {
            Self::after_target(m, pre, n, step)
        } else {
            let pick = m.picks[m.pick_cursor as int];
            let on = SessionView { pick_cursor: (m.pick_cursor + 1) as usize, ..m };
            if pick >= m.datasets.len() {
                Self::datasets_continue(on, pre, n, step)
            } else if is_mounted(m.datasets[pick as int]) || m.mounted.contains(
                dataset_identity(m.datasets[pick as int]),
            ) {
                Self::datasets_continue(
                    on,
                    pre.push(Notice::DatasetAlreadyMounted(m.pick_cursor)),
                    n,
                    step,
                )
            } else {
                &&& n == SessionView {
                    phase: Phase::MountingDataset,
                    pending: dataset_identity(m.datasets[pick as int]),
                    ..m
                }
                &&& step.tries(
                    pre,
                    dataset_mount_attempt(m.datasets[pick as int].name, !m.for_root),
                )
            }
        }
    }

    /// What follows when the entries of the mount table from `m.cursor` on
    /// are to be dealt with: the entries that the planner passes over are
    /// reported, and the first other one is listed for, or mounted.
    pub open spec fn auto_continues(
        m: SessionView,
        pre: Seq<Notice>,
        n: SessionView,
        step: SessionStep,
    ) -> bool
        decreases m.table.len() - m.cursor,
    {
        if m.cursor >= m.table.len() || m.cursor >= usize::MAX {
            Self::asks_more(m, pre, n, step)
        } else {
            let plan = plan_of(m.table[m.cursor as int], m.devices, m.aliases, m.mounted, m.cache);
            match plan {
                EntryPlan::Skip(reason) => Self::auto_continues(
                    SessionView { cursor: (m.cursor + 1) as usize, ..m },
                    pre.push(Notice::EntrySkipped(m.cursor, reason)),
                    n,
                    step,
                ),
                EntryPlan::List { device } => {
                    &&& n == SessionView {
                        phase: Phase::AutoListing,
                        listing_device: device,
                        ..m
                    }
                    &&& step.notices@ == pre
                    &&& step.next matches SessionNext::Ask(Request::List(listing))
                    &&& listing.device@ == m.devices[device as int]
                    &&& listing.include_snapshots == m.args.show_btrfs_dot_snapshots
                    &&& listing.stage == ListingStage::Ready
                    &&& listing.found.deep_view() == Seq::<SubVolumeView>::empty()
                    &&& listing.failure is None
                },
                EntryPlan::Mount { fallback, .. } => {
                    &&& n == SessionView {
                        phase: Phase::AutoMounting,
                        pending: planned_identity(plan, m.devices, m.cache),
                        ..m
                    }
                    &&& step.tries(
                        if fallback {
                            pre.push(Notice::FallbackSubvolume(m.cursor))
                        } else {
                            pre
                        },
                        planned_attempt(
                            plan,
                            m.table[m.cursor as int].mountpoint,
                            m.devices,
                            m.cache,
                            m.root_mount_point,
                        ),
                    )
                },
            }
        }
    }

    /// What follows when the step at index `m.cleanup` of taking down is due:
    /// it is tried, or, with no step left, the session is over.
    pub open spec fn takes_down(
        m: SessionView,
        pre: Seq<Notice>,
        n: SessionView,
        step: SessionStep,
    ) -> bool {
        let plan = teardown_plan(m.root_mount_point, m.volumes, m.keys, m.pools);
        if m.cleanup < plan.len() {
            &&& n == SessionView { phase: Phase::Teardown, ..m }
            &&& step.tries(pre, plan[m.cleanup as int])
        } else {
            &&& n == SessionView { phase: Phase::Finished, ..m }
            &&& step.notices@ == pre
            &&& step.next == SessionNext::Done
        }
    }

    /// How a session ends for a reply that does not answer its request.
    pub open spec fn confused(s: SessionView, n: SessionView, step: SessionStep) -> bool {
        &&& n == SessionView { phase: Phase::Finished, ..s }
        &&& step.aborts(seq![], Fatal::UnexpectedReply)
    }

    /// The transition of a session: from the session `s` and the reply to
    /// the request made last, to the session `n` and its step.
    pub open spec fn transition(s: SessionView, reply: Reply, n: SessionView, step: SessionStep) -> bool {
        match s.phase {
            Phase::ListingDevices => match reply {
                Reply::Devices(Some(listed)) => {
                    let devices = without_ignored(listed.deep_view(), s.volumes);
                    let m = SessionView { devices, ..s };
                    if devices.len() == 0 {
                        n == SessionView { phase: Phase::Finished, ..m } && step.aborts(
                            seq![],
                            Fatal::NoDevices,
                        )
                    } else {
                        &&& n == SessionView { phase: Phase::Choosing, ..m }
                        &&& step.lets_choose(seq![], s.role, devices, !s.for_root)
                    }
                },
                Reply::Devices(None) => n == SessionView { phase: Phase::Finished, ..s }
                    && step.aborts(seq![], Fatal::NoDevices),
                _ => Self::confused(s, n, step),
            },
            Phase::Choosing => match reply {
                Reply::Choice(Some(i)) if i < s.devices.len() => Self::enters(
                    SessionView { device: Some(s.devices[i as int]), ..s },
                    seq![],
                    n,
                    step,
                ),
                Reply::Choice(_) => if s.for_root {
                    n == SessionView { phase: Phase::Finished, ..s } && step.aborts(
                        seq![],
                        Fatal::NoSelection,
                    )
                } else {
                    Self::asks_more(s, seq![], n, step)
                },
                _ => Self::confused(s, n, step),
            },
            Phase::Opening => match (reply, s.device) {
                (Reply::Outcome(Outcome::Succeeded), Some(device)) => {
                    &&& n == SessionView {
                        phase: Phase::ListingDevices,
                        volumes: s.volumes.push(device),
                        reopened: true,
                        root_encrypted: s.root_encrypted || s.for_root,
                        ..s
                    }
                    &&& step.queries_devices(seq![])
                },
                _ => Self::confused(s, n, step),
            },
            Phase::AcquiringRoot => match reply {
                Reply::Path(Some(path)) => Self::dispatches(
                    SessionView { root_mount_point: path@, path: path@, ..s },
                    seq![],
                    n,
                    step,
                ),
                Reply::Path(None) => n == SessionView { phase: Phase::Finished, ..s }
                    && step.aborts(seq![], Fatal::NoMountPoint),
                _ => Self::confused(s, n, step),
            },
            Phase::Resolving => match (reply, s.device) {
                (Reply::Resolved(resolution), Some(device)) => {
                    let m = SessionView {
                        cache: cache_after(s.cache, device, listed_view(resolution.listed)),
                        ..s
                    };
                    let pre = if resolution.sole {
                        seq![Notice::SoleSubvolume]
                    } else {
                        seq![]
                    };
                    let chosen = resolution.subvolume@;
                    if m.mounted.contains(subvolume_identity(chosen)) {
                        Self::after_target(m, pre.push(Notice::AlreadyMounted), n, step)
                    } else {
                        &&& n == SessionView {
                            phase: Phase::Mounting,
                            pending: subvolume_identity(chosen),
                            ..m
                        }
                        &&& step.tries(
                            pre,
                            mount_attempt(
                                chosen.device.name,
                                m.path,
                                !m.for_root,
                                subvolume_options(chosen.id),
                            ),
                        )
                    }
                },
                _ => Self::confused(s, n, step),
            },
            Phase::Mounting => match reply {
                Reply::Outcome(Outcome::Succeeded) => Self::after_target(
                    SessionView { mounted: s.mounted.push(s.pending), ..s },
                    seq![],
                    n,
                    step,
                ),
                Reply::Outcome(Outcome::Skipped) => Self::after_target(s, seq![], n, step),
                _ => Self::confused(s, n, step),
            },
            Phase::Importing => match (reply, s.device) {
                (Reply::Outcome(Outcome::Succeeded), Some(device)) => {
                    &&& n == SessionView {
                        phase: Phase::ListingDatasets,
                        pools: s.pools.push(device),
                        ..s
                    }
                    &&& step.notices@ == Seq::<Notice>::empty()
                    &&& step.next matches SessionNext::Ask(Request::ListDatasets(listing))
                    &&& listing.pool@ == device_identity(device)
                    &&& listing.stage == DatasetListingStage::Ready
                    &&& listing.loaded@ == s.keys
                    &&& listing.failed@ == Seq::<Seq<char>>::empty()
                },
                _ => Self::confused(s, n, step),
            },
            Phase::ListingDatasets => match reply {
                Reply::MountableDatasets(found) => {
                    &&& n == SessionView {
                        phase: Phase::ChoosingDatasets,
                        keys: found.loaded@,
                        datasets: found.mountable.deep_view(),
                        ..s
                    }
                    &&& step.notices@ == dataset_notices(found.unsupported, found.failed@.len())
                    &&& step.next matches SessionNext::Ask(
                        Request::ChooseDatasets { role, candidates },
                    )
                    &&& role@ == s.role
                    &&& candidates.deep_view() == found.mountable.deep_view()
                },
                _ => Self::confused(s, n, step),
            },
            Phase::ChoosingDatasets => match reply {
                Reply::Choices(picks) => Self::datasets_continue(
                    SessionView { picks: picks@, pick_cursor: 0, ..s },
                    seq![],
                    n,
                    step,
                ),
                _ => Self::confused(s, n, step),
            },
            Phase::MountingDataset => if s.pick_cursor < s.picks.len() && s.picks[s.pick_cursor as int]
                < s.datasets.len() {
                let pick = s.picks[s.pick_cursor as int] as int;
                let on = SessionView { pick_cursor: (s.pick_cursor + 1) as usize, ..s };
                match reply {
                    Reply::Outcome(Outcome::Succeeded) => Self::datasets_continue(
                        SessionView {
                            mounted: s.mounted.push(s.pending),
                            datasets: s.datasets.update(
                                pick,
                                with_mounted(s.datasets[pick], "yes"@),
                            ),
                            ..on
                        },
                        seq![],
                        n,
                        step,
                    ),
                    Reply::Outcome(Outcome::Skipped) => Self::datasets_continue(
                        on,
                        seq![],
                        n,
                        step,
                    ),
                    _ => Self::confused(s, n, step),
                }
            } else {
                Self::confused(s, n, step)
            },
            Phase::ReadingKeyTable => match reply {
                Reply::KeyTable(source) => {
                    &&& n == SessionView {
                        phase: Phase::ReadingMountTable,
                        aliases: key_aliases(source),
                        ..s
                    }
                    &&& step.notices@ == key_table_notices(source, s.root_encrypted)
                    &&& step.next matches SessionNext::Ask(Request::ReadMountTable { path })
                    &&& path@ == settings_path(s.root_mount_point, "fstab"@)
                },
                _ => Self::confused(s, n, step),
            },
            Phase::ReadingMountTable => match reply {
                Reply::MountTable(Some(entries)) => if s.args.no_auto_mount {
                    Self::asks_more(s, seq![], n, step)
                } else {
                    Self::auto_continues(
                        SessionView { table: entries.deep_view(), cursor: 0, ..s },
                        seq![],
                        n,
                        step,
                    )
                },
                Reply::MountTable(None) => Self::asks_more(
                    s,
                    seq![Notice::MissingMountTable],
                    n,
                    step,
                ),
                _ => Self::confused(s, n, step),
            },
            Phase::AutoListing => match reply {
                Reply::Subvolumes(found) if s.listing_device < s.devices.len() => Self::auto_continues(
                    SessionView {
                        cache: s.cache.insert(
                            device_identity(s.devices[s.listing_device as int]),
                            found.deep_view(),
                        ),
                        ..s
                    },
                    seq![],
                    n,
                    step,
                ),
                _ => Self::confused(s, n, step),
            },
            Phase::AutoMounting => if s.cursor < s.table.len() {
                let on = SessionView { cursor: (s.cursor + 1) as usize, ..s };
                match reply {
                    Reply::Outcome(Outcome::Succeeded) => Self::auto_continues(
                        SessionView { mounted: s.mounted.push(s.pending), ..on },
                        seq![],
                        n,
                        step,
                    ),
                    Reply::Outcome(Outcome::Skipped) => Self::auto_continues(on, seq![], n, step),
                    _ => Self::confused(s, n, step),
                }
            } else {
                Self::confused(s, n, step)
            },
            Phase::AskingMore => match reply {
                Reply::Answer(true) => {
                    &&& n == SessionView { phase: Phase::EnteringMountPoint, ..s }
                    &&& step.notices@ == Seq::<Notice>::empty()
                    &&& step.next == SessionNext::Ask(Request::EnterMountPoint)
                },
                Reply::Answer(false) => Self::chroots(s, seq![], n, step),
                _ => Self::confused(s, n, step),
            },
            Phase::EnteringMountPoint => match reply {
                Reply::Text(text) => if says_skip(text@) {
                    Self::chroots(s, seq![], n, step)
                } else if !is_mount_point(text@) {
                    &&& n == s
                    &&& step.notices@ == Seq::<Notice>::empty()
                    &&& step.next == SessionNext::Ask(Request::EnterMountPoint)
                } else {
                    &&& n == SessionView {
                        phase: Phase::Choosing,
                        role: text@,
                        path: mount_path(s.root_mount_point, text@),
                        for_root: false,
                        reopened: false,
                        device: None,
                        ..s
                    }
                    &&& step.lets_choose(seq![], text@, s.devices, true)
                },
                _ => Self::confused(s, n, step),
            },
            Phase::Chroot => Self::takes_down(SessionView { cleanup: 0, ..s }, seq![], n, step),
            Phase::Teardown => if s.cleanup < teardown_plan(
                s.root_mount_point,
                s.volumes,
                s.keys,
                s.pools,
            ).len() && s.cleanup < usize::MAX {
                Self::takes_down(
                    SessionView { cleanup: (s.cleanup + 1) as usize, ..s },
                    if reply matches Reply::Outcome(Outcome::Succeeded) {
                        seq![]
                    } else {
                        seq![Notice::CleanupFailed(s.cleanup)]
                    },
                    n,
                    step,
                )
            } else {
                Self::confused(s, n, step)
            },
            Phase::Start | Phase::Finished => Self::confused(s, n, step),
        }
    }

    /// How a session begins: it asks for the devices of the system.
    pub open spec fn begins(s: SessionView, n: SessionView, step: SessionStep) -> bool {
        if s.phase == Phase::Start {
            &&& n == SessionView { phase: Phase::ListingDevices, ..s }
            &&& step.queries_devices(seq![])
        } else {
            Self::confused(s, n, step)
        }
    }

    fn confuse(&mut self) -> (step: SessionStep)
        ensures
            Self::confused(old(self)@, final(self)@, step),
    {
        self.phase = Phase::Finished;
        SessionStep { notices: Vec::new(), next: SessionNext::Abort(Fatal::UnexpectedReply) }
    }

    fn abort(&mut self, notices: Vec<Notice>, fatal: Fatal) -> (step: SessionStep)
        ensures
            final(self)@ == (SessionView { phase: Phase::Finished, ..old(self)@ }),
            step.aborts(notices@, fatal),
    {
        self.phase = Phase::Finished;
        SessionStep { notices, next: SessionNext::Abort(fatal) }
    }

    fn query_devices(&mut self) -> (step: SessionStep)
        ensures
            final(self)@ == (SessionView { phase: Phase::ListingDevices, ..old(self)@ }),
            step.queries_devices(seq![]),
    {
        self.phase = Phase::ListingDevices;
        SessionStep {
            notices: Vec::new(),
            next: SessionNext::Ask(Request::QueryDevices(Command::list_devices())),
        }
    }

    fn choose_device(&mut self) -> (step: SessionStep)
        ensures
            final(self)@ == (SessionView { phase: Phase::Choosing, ..old(self)@ }),
            step.lets_choose(seq![], old(self)@.role, old(self)@.devices, !old(self)@.for_root),
    {
        self.phase = Phase::Choosing;
        SessionStep {
            notices: Vec::new(),
            next: SessionNext::Ask(
                Request::ChooseDevice {
                    role: self.role.clone(),
                    candidates: clone_devices(&self.devices),
                    allow_skip: !self.for_root,
                },
            ),
        }
    }

    fn ask_more(&mut self, notices: Vec<Notice>) -> (step: SessionStep)
        ensures
            Self::asks_more(old(self)@, notices@, final(self)@, step),
    {
        self.phase = Phase::AskingMore;
        SessionStep {
            notices,
            next: SessionNext::Ask(
                Request::Confirm { question: Question::MountMore, subject: String::new() },
            ),
        }
    }

    fn chroot(&mut self, notices: Vec<Notice>) -> (step: SessionStep)
        ensures
            Self::chroots(old(self)@, notices@, final(self)@, step),
    {
        self.phase = Phase::Chroot;
        SessionStep {
            notices,
            next: SessionNext::Ask(
                Request::Run(
                    Command::chroot(self.root_mount_point.as_str(), !self.args.no_systemd_chroot),
                ),
            ),
        }
    }

    fn settings_file(&self, name: &str) -> (path: String)
        ensures
            path@ == settings_path(self@.root_mount_point, name@),
    {
        let directory = path_join(self.root_mount_point.as_str(), "etc");
        path_join(directory.as_str(), name)
    }

    fn finish_target(&mut self, notices: Vec<Notice>) -> (step: SessionStep)
        ensures
            Self::after_target(old(self)@, notices@, final(self)@, step),
    {
        if self.for_root {
            let path = self.settings_file("crypttab");
            self.phase = Phase::ReadingKeyTable;
            SessionStep { notices, next: SessionNext::Ask(Request::ReadKeyTable { path }) }
        } else {
            self.ask_more(notices)
        }
    }

    fn dispatch(&mut self, notices: Vec<Notice>) -> (step: SessionStep)
        ensures
            Self::dispatches(old(self)@, notices@, final(self)@, step),
    {
        let mut notices = notices;
        let device = match &self.device {
            Some(device) => device.clone(),
            None => {
                return self.abort(notices, Fatal::NoSelection);
            },
        };
        let id = device.get_id();
        if self.mounted.contains(id.as_str()) {
            notices.push(Notice::AlreadyMounted);
            self.finish_target(notices)
        } else if device.has_subvolumes() {
            let resolver = get_btrfs_subvolume(
                &device,
                &self.cache,
                self.args.show_btrfs_dot_snapshots,
                self.role.as_str(),
            );
            self.phase = Phase::Resolving;
            SessionStep { notices, next: SessionNext::Ask(Request::Resolve(resolver)) }
        } else if device.is_pool_member() {
            let attempt = import_zfs_pool(&device, self.root_mount_point.as_str());
            self.phase = Phase::Importing;
            SessionStep { notices, next: SessionNext::Ask(Request::Try(attempt)) }
        } else {
            let attempt = mount_block_device(&device, self.path.as_str(), !self.for_root, None);
            self.pending = id;
            self.phase = Phase::Mounting;
            SessionStep { notices, next: SessionNext::Ask(Request::Try(attempt)) }
        }
    }

    fn settle(&mut self, notices: Vec<Notice>) -> (step: SessionStep)
        ensures
            Self::settles(old(self)@, notices@, final(self)@, step),
    {
        if self.for_root {
            match &self.device {
                Some(device) => {
                    let mut prefix = "cachyos-chroot-root-mount-".to_owned();
                    prefix.append(device.uuid.as_str());
                    prefix.append("-");
                    self.phase = Phase::AcquiringRoot;
                    return SessionStep {
                        notices,
                        next: SessionNext::Ask(Request::AcquireMountPoint { prefix }),
                    };
                },
                None => {},
            }
        }
        self.dispatch(notices)
    }

    fn enter(&mut self, notices: Vec<Notice>) -> (step: SessionStep)
        ensures
            Self::enters(old(self)@, notices@, final(self)@, step),
    {
        if !self.reopened {
            match &self.device {
                Some(device) => {
                    if device.is_encrypted() {
                        let attempt = open_device(device);
                        self.phase = Phase::Opening;
                        return SessionStep {
                            notices,
                            next: SessionNext::Ask(Request::Try(attempt)),
                        };
                    }
                },
                None => {},
            }
        }
        self.settle(notices)
    }

    fn continue_datasets(&mut self, notices: Vec<Notice>) -> (step: SessionStep)
        ensures
            Self::datasets_continue(old(self)@, notices@, final(self)@, step),
        decreases old(self).picks.len() - old(self).pick_cursor,
    {
        let mut notices = notices;
        if self.pick_cursor >= self.picks.len() {
            return self.finish_target(notices);
        }
        let pick = self.picks[self.pick_cursor];
        if pick >= self.datasets.len() {
            self.pick_cursor = self.pick_cursor + 1;
            return self.continue_datasets(notices);
        }
        let id = self.datasets[pick].get_id();
        let attempt = if self.mounted.contains(id.as_str()) {
            None
        } else {
            mount_zfs_dataset(&self.datasets[pick], self.path.as_str(), !self.for_root)
        };
        match attempt {
            None => {
                notices.push(Notice::DatasetAlreadyMounted(self.pick_cursor));
                self.pick_cursor = self.pick_cursor + 1;
                self.continue_datasets(notices)
            },
            Some(attempt) => {
                self.pending = id;
                self.phase = Phase::MountingDataset;
                SessionStep { notices, next: SessionNext::Ask(Request::Try(attempt)) }
            },
        }
    }

    fn continue_auto(&mut self, notices: Vec<Notice>) -> (step: SessionStep)
        ensures
            Self::auto_continues(old(self)@, notices@, final(self)@, step),
        decreases old(self).table.len() - old(self).cursor,
    {
        let mut notices = notices;
        if self.cursor >= self.table.len() {
            return self.ask_more(notices);
        }
        let plan = plan_entry(
            &self.table[self.cursor],
            &self.devices,
            &self.aliases,
            &self.mounted,
            &self.cache,
        );
        match plan {
            EntryPlan::Skip(reason) => {
                notices.push(Notice::EntrySkipped(self.cursor, reason));
                self.cursor = self.cursor + 1;
                self.continue_auto(notices)
            },
            EntryPlan::List { device } => {
                let listing = list_subvolumes(
                    &self.devices[device],
                    self.args.show_btrfs_dot_snapshots,
                );
                self.listing_device = device;
                self.phase = Phase::AutoListing;
                SessionStep { notices, next: SessionNext::Ask(Request::List(listing)) }
            },
            EntryPlan::Mount { fallback, .. } => {
                match planned_mount(
                    plan,
                    &self.table[self.cursor],
                    &self.devices,
                    &self.cache,
                    self.root_mount_point.as_str(),
                ) {
                    Some(planned) => {
                        if fallback {
                            notices.push(Notice::FallbackSubvolume(self.cursor));
                        }
                        self.pending = planned.identity;
                        self.phase = Phase::AutoMounting;
                        SessionStep {
                            notices,
                            next: SessionNext::Ask(Request::Try(planned.attempt)),
                        }
                    },
                    None => {
                        assert(false);
                        self.confuse()
                    },
                }
            },
        }
    }

    fn take_down(&mut self, notices: Vec<Notice>) -> (step: SessionStep)
        ensures
            Self::takes_down(old(self)@, notices@, final(self)@, step),
    {
        match teardown_attempt(self.root_mount_point.as_str(), &self.opened, self.cleanup) {
            Some(attempt) => {
                self.phase = Phase::Teardown;
                SessionStep { notices, next: SessionNext::Ask(Request::Try(attempt)) }
            },
            None => {
                self.phase = Phase::Finished;
                SessionStep { notices, next: SessionNext::Done }
            },
        }
    }

    /// Begins the session.
    pub fn start(&mut self) -> (step: SessionStep)
        ensures
            Self::begins(old(self)@, final(self)@, step),
    {
        match self.phase {
            Phase::Start => self.query_devices(),
            _ => self.confuse(),
        }
    }

    fn on_devices(&mut self, reply: Reply) -> (step: SessionStep)
        requires
            old(self).phase == Phase::ListingDevices,
        ensures
            Self::transition(old(self)@, reply, final(self)@, step),
    {
        match reply {
            Reply::Devices(Some(listed)) => {
                self.devices = list_block_devices(
                    BlockDevices { block_devices: listed },
                    &self.opened.volumes,
                );
                if self.devices.len() == 0 {
                    self.abort(Vec::new(), Fatal::NoDevices)
                } else {
                    self.choose_device()
                }
            },
            Reply::Devices(None) => self.abort(Vec::new(), Fatal::NoDevices),
            _ => self.confuse(),
        }
    }

    fn on_choice(&mut self, reply: Reply) -> (step: SessionStep)
        requires
            old(self).phase == Phase::Choosing,
        ensures
            Self::transition(old(self)@, reply, final(self)@, step),
    {
        match reply {
            Reply::Choice(Some(i)) if i < self.devices.len() => {
                self.device = Some(self.devices[i].clone());
                self.enter(Vec::new())
            },
            Reply::Choice(_) => if self.for_root {
                self.abort(Vec::new(), Fatal::NoSelection)
            } else {
                self.ask_more(Vec::new())
            },
            _ => self.confuse(),
        }
    }

    fn on_opened(&mut self, reply: Reply) -> (step: SessionStep)
        requires
            old(self).phase == Phase::Opening,
        ensures
            Self::transition(old(self)@, reply, final(self)@, step),
    {
        let device = match (&reply, &self.device) {
            (Reply::Outcome(Outcome::Succeeded), Some(device)) => device.clone(),
            _ => {
                return self.confuse();
            },
        };
        let ghost before = self.opened.volumes.deep_view();
        self.opened.volumes.push(device);
        assert(self.opened.volumes.deep_view() =~= before.push(device@));
        self.reopened = true;
        self.root_encrypted = self.root_encrypted || self.for_root;
        self.query_devices()
    }

    fn on_root_path(&mut self, reply: Reply) -> (step: SessionStep)
        requires
            old(self).phase == Phase::AcquiringRoot,
        ensures
            Self::transition(old(self)@, reply, final(self)@, step),
    {
        match reply {
            Reply::Path(Some(path)) => {
                self.path = path.clone();
                self.root_mount_point = path;
                self.dispatch(Vec::new())
            },
            Reply::Path(None) => self.abort(Vec::new(), Fatal::NoMountPoint),
            _ => self.confuse(),
        }
    }

    fn on_resolved(&mut self, reply: Reply) -> (step: SessionStep)
        requires
            old(self).phase == Phase::Resolving,
        ensures
            Self::transition(old(self)@, reply, final(self)@, step),
    {
        let resolution = match reply {
            Reply::Resolved(resolution) => resolution,
            _ => {
                return self.confuse();
            },
        };
        let device = match &self.device {
            Some(device) => device.clone(),
            None => {
                return self.confuse();
            },
        };
        let mut notices: Vec<Notice> = Vec::new();
        if resolution.sole {
            notices.push(Notice::SoleSubvolume);
        }
        let chosen = resolution.subvolume;
        keep_listing(&mut self.cache, &device, resolution.listed);
        let id = chosen.get_id();
        if self.mounted.contains(id.as_str()) {
            notices.push(Notice::AlreadyMounted);
            self.finish_target(notices)
        } else {
            let attempt = mount_block_device(
                &chosen.device,
                self.path.as_str(),
                !self.for_root,
                Some(subvolume_mount_options(chosen.subvolume_id)),
            );
            self.pending = id;
            self.phase = Phase::Mounting;
            SessionStep { notices, next: SessionNext::Ask(Request::Try(attempt)) }
        }
    }

    fn on_mounted(&mut self, reply: Reply) -> (step: SessionStep)
        requires
            old(self).phase == Phase::Mounting,
        ensures
            Self::transition(old(self)@, reply, final(self)@, step),
    {
        match reply {
            Reply::Outcome(Outcome::Succeeded) => {
                self.mounted.push(self.pending.clone());
                self.finish_target(Vec::new())
            },
            Reply::Outcome(Outcome::Skipped) => self.finish_target(Vec::new()),
            _ => self.confuse(),
        }
    }

    fn on_imported(&mut self, reply: Reply) -> (step: SessionStep)
        requires
            old(self).phase == Phase::Importing,
        ensures
            Self::transition(old(self)@, reply, final(self)@, step),
    {
        let device = match (&reply, &self.device) {
            (Reply::Outcome(Outcome::Succeeded), Some(device)) => device.clone(),
            _ => {
                return self.confuse();
            },
        };
        let listing = list_zfs_mountable_datasets(&device, &self.opened.keys);
        let ghost before = self.opened.pools.deep_view();
        self.opened.pools.push(device);
        assert(self.opened.pools.deep_view() =~= before.push(device@));
        self.phase = Phase::ListingDatasets;
        SessionStep {
            notices: Vec::new(),
            next: SessionNext::Ask(Request::ListDatasets(listing)),
        }
    }

    fn on_datasets(&mut self, reply: Reply) -> (step: SessionStep)
        requires
            old(self).phase == Phase::ListingDatasets,
        ensures
            Self::transition(old(self)@, reply, final(self)@, step),
    {
        let found = match reply {
            Reply::MountableDatasets(found) => found,
            _ => {
                return self.confuse();
            },
        };
        let mut notices: Vec<Notice> = Vec::new();
        if found.unsupported {
            notices.push(Notice::UnsupportedEncryption);
        }
        if found.failed.len() > 0 {
            notices.push(Notice::KeysNotLoaded(found.failed.len()));
        }
        assert(notices@ =~= dataset_notices(found.unsupported, found.failed@.len()));
        let candidates = clone_datasets(&found.mountable);
        self.opened.keys = found.loaded;
        self.datasets = found.mountable;
        self.phase = Phase::ChoosingDatasets;
        SessionStep {
            notices,
            next: SessionNext::Ask(Request::ChooseDatasets { role: self.role.clone(), candidates }),
        }
    }

    fn on_dataset_choice(&mut self, reply: Reply) -> (step: SessionStep)
        requires
            old(self).phase == Phase::ChoosingDatasets,
        ensures
            Self::transition(old(self)@, reply, final(self)@, step),
    {
        match reply {
            Reply::Choices(picks) => {
                self.picks = picks;
                self.pick_cursor = 0;
                self.continue_datasets(Vec::new())
            },
            _ => self.confuse(),
        }
    }

    fn on_dataset_mounted(&mut self, reply: Reply) -> (step: SessionStep)
        requires
            old(self).phase == Phase::MountingDataset,
        ensures
            Self::transition(old(self)@, reply, final(self)@, step),
    {
        if !(self.pick_cursor < self.picks.len() && self.picks[self.pick_cursor]
            < self.datasets.len()) {
            return self.confuse();
        }
        let pick = self.picks[self.pick_cursor];
        match reply {
            Reply::Outcome(Outcome::Succeeded) => {
                let ghost before = self.datasets.deep_view();
                let mut dataset = self.datasets[pick].clone();
                dataset_mount_ended(&mut dataset, Outcome::Succeeded);
                self.datasets.set(pick, dataset);
                assert(self.datasets.deep_view() =~= before.update(
                    pick as int,
                    with_mounted(before[pick as int], "yes"@),
                ));
                self.mounted.push(self.pending.clone());
                self.pick_cursor = self.pick_cursor + 1;
                self.continue_datasets(Vec::new())
            },
            Reply::Outcome(Outcome::Skipped) => {
                self.pick_cursor = self.pick_cursor + 1;
                self.continue_datasets(Vec::new())
            },
            _ => self.confuse(),
        }
    }

    fn on_key_table(&mut self, reply: Reply) -> (step: SessionStep)
        requires
            old(self).phase == Phase::ReadingKeyTable,
        ensures
            Self::transition(old(self)@, reply, final(self)@, step),
    {
        let source = match reply {
            Reply::KeyTable(source) => source,
            _ => {
                return self.confuse();
            },
        };
        let report = list_crypttab_entries(&source, self.root_encrypted);
        let mut notices: Vec<Notice> = Vec::new();
        if report.warn_missing {
            notices.push(Notice::MissingKeyTable);
        }
        if report.unreadable {
            notices.push(Notice::UnreadableKeyTable);
        }
        let ghost first = notices@;
        let mut i: usize = 0;
        while i < report.malformed.len()
            invariant
                i <= report.malformed.len(),
                notices@ =~= first + report.malformed@.take(i as int).map_values(
                    |k: usize| Notice::MalformedAlias(k),
                ),
            decreases report.malformed.len() - i,
        {
            notices.push(Notice::MalformedAlias(report.malformed[i]));
            i += 1;
        }
        assert(notices@ =~= key_table_notices(source, self.root_encrypted));
        let path = self.settings_file("fstab");
        self.aliases = report.entries;
        self.phase = Phase::ReadingMountTable;
        SessionStep { notices, next: SessionNext::Ask(Request::ReadMountTable { path }) }
    }

    fn on_mount_table(&mut self, reply: Reply) -> (step: SessionStep)
        requires
            old(self).phase == Phase::ReadingMountTable,
        ensures
            Self::transition(old(self)@, reply, final(self)@, step),
    {
        match reply {
            Reply::MountTable(Some(entries)) => if self.args.no_auto_mount {
                self.ask_more(Vec::new())
            } else {
                self.table = entries;
                self.cursor = 0;
                self.continue_auto(Vec::new())
            },
            Reply::MountTable(None) => {
                let mut notices: Vec<Notice> = Vec::new();
                notices.push(Notice::MissingMountTable);
                self.ask_more(notices)
            },
            _ => self.confuse(),
        }
    }

    fn on_auto_listed(&mut self, reply: Reply) -> (step: SessionStep)
        requires
            old(self).phase == Phase::AutoListing,
        ensures
            Self::transition(old(self)@, reply, final(self)@, step),
    {
        match reply {
            Reply::Subvolumes(found) if self.listing_device < self.devices.len() => {
                self.cache.insert(self.devices[self.listing_device].get_id(), found);
                self.continue_auto(Vec::new())
            },
            _ => self.confuse(),
        }
    }

    fn on_auto_mounted(&mut self, reply: Reply) -> (step: SessionStep)
        requires
            old(self).phase == Phase::AutoMounting,
        ensures
            Self::transition(old(self)@, reply, final(self)@, step),
    {
        if self.cursor >= self.table.len() {
            return self.confuse();
        }
        match reply {
            Reply::Outcome(Outcome::Succeeded) => {
                self.mounted.push(self.pending.clone());
                self.cursor = self.cursor + 1;
                self.continue_auto(Vec::new())
            },
            Reply::Outcome(Outcome::Skipped) => {
                self.cursor = self.cursor + 1;
                self.continue_auto(Vec::new())
            },
            _ => self.confuse(),
        }
    }

    fn on_more(&mut self, reply: Reply) -> (step: SessionStep)
        requires
            old(self).phase == Phase::AskingMore,
        ensures
            Self::transition(old(self)@, reply, final(self)@, step),
    {
        match reply {
            Reply::Answer(true) => {
                self.phase = Phase::EnteringMountPoint;
                SessionStep {
                    notices: Vec::new(),
                    next: SessionNext::Ask(Request::EnterMountPoint),
                }
            },
            Reply::Answer(false) => self.chroot(Vec::new()),
            _ => self.confuse(),
        }
    }

    fn on_mount_point(&mut self, reply: Reply) -> (step: SessionStep)
        requires
            old(self).phase == Phase::EnteringMountPoint,
        ensures
            Self::transition(old(self)@, reply, final(self)@, step),
    {
        match reply {
            Reply::Text(text) => if str_eq_ignore_ascii_case(text.as_str(), "skip") {
                self.chroot(Vec::new())
            } else if !starts_with(text.as_str(), "/") {
                SessionStep {
                    notices: Vec::new(),
                    next: SessionNext::Ask(Request::EnterMountPoint),
                }
            } else {
                self.path = actual_mount_point(self.root_mount_point.as_str(), text.as_str());
                self.role = text;
                self.for_root = false;
                self.reopened = false;
                self.device = None;
                self.choose_device()
            },
            _ => self.confuse(),
        }
    }

    fn on_cleanup(&mut self, reply: Reply) -> (step: SessionStep)
        requires
            old(self).phase == Phase::Teardown,
        ensures
            Self::transition(old(self)@, reply, final(self)@, step),
    {
        if self.cleanup == usize::MAX || teardown_attempt(
            self.root_mount_point.as_str(),
            &self.opened,
            self.cleanup,
        ).is_none() {
            return self.confuse();
        }
        let mut notices: Vec<Notice> = Vec::new();
        match reply {
            Reply::Outcome(Outcome::Succeeded) => {},
            _ => {
                notices.push(Notice::CleanupFailed(self.cleanup));
            },
        }
        self.cleanup = self.cleanup + 1;
        self.take_down(notices)
    }

    /// Takes the reply to the request made last and says what comes next.
    pub fn resume(&mut self, reply: Reply) -> (step: SessionStep)
        ensures
            Self::transition(old(self)@, reply, final(self)@, step),
    {
        match self.phase {
            Phase::ListingDevices => self.on_devices(reply),
            Phase::Choosing => self.on_choice(reply),
            Phase::Opening => self.on_opened(reply),
            Phase::AcquiringRoot => self.on_root_path(reply),
            Phase::Resolving => self.on_resolved(reply),
            Phase::Mounting => self.on_mounted(reply),
            Phase::Importing => self.on_imported(reply),
            Phase::ListingDatasets => self.on_datasets(reply),
            Phase::ChoosingDatasets => self.on_dataset_choice(reply),
            Phase::MountingDataset => self.on_dataset_mounted(reply),
            Phase::ReadingKeyTable => self.on_key_table(reply),
            Phase::ReadingMountTable => self.on_mount_table(reply),
            Phase::AutoListing => self.on_auto_listed(reply),
            Phase::AutoMounting => self.on_auto_mounted(reply),
            Phase::AskingMore => self.on_more(reply),
            Phase::EnteringMountPoint => self.on_mount_point(reply),
            Phase::Chroot => {
                self.cleanup = 0;
                self.take_down(Vec::new())
            },
            Phase::Teardown => self.on_cleanup(reply),
            Phase::Start | Phase::Finished => self.confuse(),
        }
    }
}

/// Whether the reply reports the success of the mount under way.
pub open spec fn records(s: SessionView, reply: Reply) -> bool {
    &&& reply == Reply::Outcome(Outcome::Succeeded)
    &&& s.phase == Phase::Mounting || (s.phase == Phase::AutoMounting && s.cursor
        < s.table.len()) || (s.phase == Phase::MountingDataset && s.pick_cursor < s.picks.len()
        && s.picks[s.pick_cursor as int] < s.datasets.len())
}

/// The identities that a session has mounted after a reply: the identity of
/// the mount under way is added if the reply reports its success, and nothing
/// else changes.
pub open spec fn mounted_after(s: SessionView, reply: Reply) -> Seq<Seq<char>> {
    if records(s, reply) {
        s.mounted.push(s.pending)
    } else {
        s.mounted
    }
}

/// The listings that a session has made after a reply: what a resolution or
/// a listing found is kept, and nothing else changes.
pub open spec fn listings_after(s: SessionView, reply: Reply) -> Map<
    Seq<char>,
    Seq<SubVolumeView>,
> {
    match (s.phase, reply) {
        (Phase::Resolving, Reply::Resolved(resolution)) if s.device is Some => cache_after(
            s.cache,
            s.device->0,
            listed_view(resolution.listed),
        ),
        (Phase::AutoListing, Reply::Subvolumes(found)) if s.listing_device < s.devices.len() => s.cache.insert(
            device_identity(s.devices[s.listing_device as int]),
            found.deep_view(),
        ),
        _ => s.cache,
    }
}

/// Whether a mount is under way in the phase.
pub open spec fn is_mounting(phase: Phase) -> bool {
    phase == Phase::Mounting || phase == Phase::AutoMounting || phase == Phase::MountingDataset
}

/// What every step of a session brings about: while a mount is under way,
/// what it will add is not among the mounted identities; a mount for an entry
/// of the mount table is the one that the planner decides on; a device that
/// is listed for such an entry has not been listed before; and while the
/// session is taken down, the step under way is one of the plan.
pub open spec fn in_step(s: SessionView) -> bool {
    &&& is_mounting(s.phase) ==> !s.mounted.contains(s.pending)
    &&& s.phase == Phase::AutoMounting ==> {
        let plan = plan_of(s.table[s.cursor as int], s.devices, s.aliases, s.mounted, s.cache);
        &&& s.cursor < s.table.len()
        &&& plan is Mount
        &&& s.pending == planned_identity(plan, s.devices, s.cache)
    }
    &&& s.phase == Phase::AutoListing ==> !s.cache.contains_key(
        device_identity(s.devices[s.listing_device as int]),
    )
    &&& s.phase == Phase::Teardown ==> s.cleanup < teardown_plan(
        s.root_mount_point,
        s.volumes,
        s.keys,
        s.pools,
    ).len()
}

/// What holds of a session at every step: no identity is recorded twice
/// among the mounted ones, and the session is in step.
pub open spec fn well_formed(s: SessionView) -> bool {
    &&& s.mounted.no_duplicates()
    &&& in_step(s)
}

proof fn lemma_datasets_keep(m: SessionView, pre: Seq<Notice>, n: SessionView, step: SessionStep)
    requires
        Session::datasets_continue(m, pre, n, step),
    ensures
        n.mounted == m.mounted,
        n.cache == m.cache,
        in_step(n),
    decreases m.picks.len() - m.pick_cursor,
{
    if !(m.pick_cursor >= m.picks.len() || m.pick_cursor >= usize::MAX) {
        let pick = m.picks[m.pick_cursor as int];
        let on = SessionView { pick_cursor: (m.pick_cursor + 1) as usize, ..m };
        if pick >= m.datasets.len() {
            lemma_datasets_keep(on, pre, n, step);
        } else if is_mounted(m.datasets[pick as int]) || m.mounted.contains(
            dataset_identity(m.datasets[pick as int]),
        ) {
            lemma_datasets_keep(
                on,
                pre.push(Notice::DatasetAlreadyMounted(m.pick_cursor)),
                n,
                step,
            );
        }
    }
}

proof fn lemma_auto_keeps(m: SessionView, pre: Seq<Notice>, n: SessionView, step: SessionStep)
    requires
        Session::auto_continues(m, pre, n, step),
    ensures
        n.mounted == m.mounted,
        n.cache == m.cache,
        n.devices == m.devices,
        n.aliases == m.aliases,
        n.table == m.table,
        in_step(n),
    decreases m.table.len() - m.cursor,
{
    if !(m.cursor >= m.table.len() || m.cursor >= usize::MAX) {
        let plan = plan_of(m.table[m.cursor as int], m.devices, m.aliases, m.mounted, m.cache);
        match plan {
            EntryPlan::Skip(reason) => {
                lemma_auto_keeps(
                    SessionView { cursor: (m.cursor + 1) as usize, ..m },
                    pre.push(Notice::EntrySkipped(m.cursor, reason)),
                    n,
                    step,
                );
            },
            _ => {},
        }
    }
}

/// What a reply changes of what a session knows: a mount that succeeds is
/// recorded at once, what was listed is kept, and nothing else is recorded or
/// kept. And whatever the reply, the session is in step after it.
pub proof fn lemma_what_a_reply_changes(
    s: SessionView,
    reply: Reply,
    n: SessionView,
    step: SessionStep,
)
    requires
        Session::transition(s, reply, n, step),
    ensures
        n.mounted == mounted_after(s, reply),
        n.cache == listings_after(s, reply),
        in_step(n),
{
    match s.phase {
        Phase::ChoosingDatasets => {
            if let Reply::Choices(picks) = reply {
                lemma_datasets_keep(
                    SessionView { picks: picks@, pick_cursor: 0, ..s },
                    seq![],
                    n,
                    step,
                );
            }
        },
        Phase::MountingDataset => {
            if s.pick_cursor < s.picks.len() && s.picks[s.pick_cursor as int] < s.datasets.len() {
                let pick = s.picks[s.pick_cursor as int] as int;
                let on = SessionView { pick_cursor: (s.pick_cursor + 1) as usize, ..s };
                match reply {
                    Reply::Outcome(Outcome::Succeeded) => {
                        lemma_datasets_keep(
                            SessionView {
                                mounted: s.mounted.push(s.pending),
                                datasets: s.datasets.update(
                                    pick,
                                    with_mounted(s.datasets[pick], "yes"@),
                                ),
                                ..on
                            },
                            seq![],
                            n,
                            step,
                        );
                    },
                    Reply::Outcome(Outcome::Skipped) => {
                        lemma_datasets_keep(on, seq![], n, step);
                    },
                    _ => {},
                }
            }
        },
        Phase::ReadingMountTable => {
            if let Reply::MountTable(Some(entries)) = reply {
                if !s.args.no_auto_mount {
                    lemma_auto_keeps(
                        SessionView { table: entries.deep_view(), cursor: 0, ..s },
                        seq![],
                        n,
                        step,
                    );
                }
            }
        },
        Phase::AutoListing => {
            if let Reply::Subvolumes(found) = reply {
                if s.listing_device < s.devices.len() {
                    lemma_auto_keeps(
                        SessionView {
                            cache: s.cache.insert(
                                device_identity(s.devices[s.listing_device as int]),
                                found.deep_view(),
                            ),
                            ..s
                        },
                        seq![],
                        n,
                        step,
                    );
                }
            }
        },
        Phase::AutoMounting => {
            if s.cursor < s.table.len() {
                let on = SessionView { cursor: (s.cursor + 1) as usize, ..s };
                match reply {
                    Reply::Outcome(Outcome::Succeeded) => {
                        lemma_auto_keeps(
                            SessionView { mounted: s.mounted.push(s.pending), ..on },
                            seq![],
                            n,
                            step,
                        );
                    },
                    Reply::Outcome(Outcome::Skipped) => {
                        lemma_auto_keeps(on, seq![], n, step);
                    },
                    _ => {},
                }
            }
        },
        _ => {},
    }
}

/// A session never mounts what it has mounted: a session that has not begun
/// is well formed, and from a well-formed session every reply leads to a
/// well-formed session.
pub proof fn lemma_session_stays_well_formed(
    s: SessionView,
    reply: Reply,
    n: SessionView,
    step: SessionStep,
)
    requires
        well_formed(s),
        Session::transition(s, reply, n, step),
    ensures
        well_formed(n),
        forall|args: Args| well_formed(#[trigger] initial_session(args)),
{
    lemma_what_a_reply_changes(s, reply, n, step);
}

/// A session only learns: whatever the reply, every identity that it has
/// mounted stays mounted, and every listing that it has made stays as it is.
pub proof fn lemma_session_only_learns(
    s: SessionView,
    reply: Reply,
    n: SessionView,
    step: SessionStep,
)
    requires
        well_formed(s),
        Session::transition(s, reply, n, step),
    ensures
        mounted_grows(s.mounted, n.mounted),
        cache_grows(s.cache, n.cache),
{
    lemma_what_a_reply_changes(s, reply, n, step);
    assert forall|id: Seq<char>| s.mounted.contains(id) implies n.mounted.contains(id) by {
        let i = choose|i: int| 0 <= i < s.mounted.len() && s.mounted[i] == id;
        assert(n.mounted[i] == id);
    }
}

/// Whether the states are those that a session goes through when it is
/// driven by the replies, and the steps what it says on the way.
pub open spec fn is_run(
    states: Seq<SessionView>,
    replies: Seq<Reply>,
    steps: Seq<SessionStep>,
) -> bool {
    &&& states.len() == replies.len() + 1
    &&& steps.len() == replies.len()
    &&& forall|i: int|
        0 <= i < replies.len() ==> Session::transition(
            states[i],
            #[trigger] replies[i],
            states[i + 1],
            steps[i],
        )
}

/// Every state of a run that begins well formed is well formed.
pub proof fn lemma_run_stays_well_formed(
    states: Seq<SessionView>,
    replies: Seq<Reply>,
    steps: Seq<SessionStep>,
    j: int,
)
    requires
        is_run(states, replies, steps),
        well_formed(states[0]),
        0 <= j < states.len(),
    ensures
        well_formed(states[j]),
    decreases j,
{
    if j > 0 {
        lemma_run_stays_well_formed(states, replies, steps, j - 1);
        assert(Session::transition(states[j - 1], replies[j - 1], states[j], steps[j - 1]));
        lemma_session_stays_well_formed(states[j - 1], replies[j - 1], states[j], steps[j - 1]);
    }
}

/// In a run a session only learns: what it has mounted and listed at one
/// state it has mounted and listed at every later one.
pub proof fn lemma_run_only_learns(
    states: Seq<SessionView>,
    replies: Seq<Reply>,
    steps: Seq<SessionStep>,
    i: int,
    j: int,
)
    requires
        is_run(states, replies, steps),
        well_formed(states[0]),
        0 <= i <= j < states.len(),
    ensures
        mounted_grows(states[i].mounted, states[j].mounted),
        cache_grows(states[i].cache, states[j].cache),
    decreases j - i,
{
    if i < j {
        lemma_run_only_learns(states, replies, steps, i, j - 1);
        lemma_run_stays_well_formed(states, replies, steps, j - 1);
        assert(Session::transition(states[j - 1], replies[j - 1], states[j], steps[j - 1]));
        lemma_session_only_learns(states[j - 1], replies[j - 1], states[j], steps[j - 1]);
        assert forall|id: Seq<char>| states[i].mounted.contains(id) implies states[j].mounted.contains(
            id,
        ) by {
            assert(states[j - 1].mounted.contains(id));
        }
        assert forall|id: Seq<char>| states[i].cache.contains_key(id) implies states[j].cache.contains_key(
            id,
        ) && states[j].cache[id] == states[i].cache[id] by {
            assert(states[j - 1].cache.contains_key(id));
        }
    }
}

/// Going through a mount table twice mounts nothing twice: when a session
/// has asked for the mount of an entry and was told that it succeeded, the
/// planner passes that entry over at every later state of the run.
pub proof fn lemma_no_entry_is_mounted_twice(
    states: Seq<SessionView>,
    replies: Seq<Reply>,
    steps: Seq<SessionStep>,
    i: int,
    j: int,
)
    requires
        is_run(states, replies, steps),
        well_formed(states[0]),
        0 <= i < j < states.len(),
        states[i].phase == Phase::AutoMounting,
        replies[i] == Reply::Outcome(Outcome::Succeeded),
    ensures
        plan_of(
            states[i].table[states[i].cursor as int],
            states[i].devices,
            states[i].aliases,
            states[j].mounted,
            states[j].cache,
        ) is Skip,
{
    let s = states[i];
    let n = states[i + 1];
    lemma_run_stays_well_formed(states, replies, steps, i);
    assert(Session::transition(s, replies[i], n, steps[i]));
    lemma_what_a_reply_changes(s, replies[i], n, steps[i]);
    lemma_session_only_learns(s, replies[i], n, steps[i]);
    lemma_run_only_learns(states, replies, steps, i + 1, j);
    assert(n.mounted[n.mounted.len() - 1] == s.pending);
    assert(n.mounted.contains(s.pending));
    assert forall|id: Seq<char>| s.mounted.contains(id) implies states[j].mounted.contains(id) by {
        assert(n.mounted.contains(id));
    }
    assert forall|id: Seq<char>| s.cache.contains_key(id) implies states[j].cache.contains_key(id)
        && states[j].cache[id] == s.cache[id] by {
        assert(n.cache.contains_key(id));
    }
    lemma_dealt_with_is_skipped(
        s.table[s.cursor as int],
        s.devices,
        s.aliases,
        s.mounted,
        s.cache,
        states[j].mounted,
        states[j].cache,
    );
}

/// In a run a device is listed once: the listing that a session has kept of
/// a device it has at every later state, so that no entry of the mount table
/// has a device of that identity listed again.
pub proof fn lemma_no_device_is_listed_twice(
    states: Seq<SessionView>,
    replies: Seq<Reply>,
    steps: Seq<SessionStep>,
    i: int,
    j: int,
    id: Seq<char>,
    entry: EntryView,
)
    requires
        is_run(states, replies, steps),
        well_formed(states[0]),
        0 <= i <= j < states.len(),
        states[i].cache.contains_key(id),
    ensures
        states[j].cache.contains_key(id),
        states[j].cache[id] == states[i].cache[id],
        plan_of(entry, states[j].devices, states[j].aliases, states[j].mounted, states[j].cache) matches EntryPlan::List {
            device,
        } ==> device_identity(states[j].devices[device as int]) != id,
{
    lemma_run_only_learns(states, replies, steps, i, j);
}

/// Taking down goes on whatever comes of a step: after the change of the
/// root, and after every step of taking down, the next step of the plan is
/// tried, until none is left; no reply ends the session before that.
pub proof fn lemma_teardown_goes_on(s: SessionView, reply: Reply, n: SessionView, step: SessionStep)
    requires
        Session::transition(s, reply, n, step),
        well_formed(s),
        s.phase == Phase::Chroot || (s.phase == Phase::Teardown && s.cleanup < usize::MAX),
    ensures
        ({
            let plan = teardown_plan(s.root_mount_point, s.volumes, s.keys, s.pools);
            let k = if s.phase == Phase::Chroot {
                0
            } else {
                s.cleanup + 1
            };
            &&& k < plan.len() ==> n.phase == Phase::Teardown && n.cleanup == k
                && step.tries(step.notices@, plan[k])
            &&& k >= plan.len() ==> n.phase == Phase::Finished && step.next
                == SessionNext::Done
            &&& n.volumes == s.volumes && n.keys == s.keys && n.pools == s.pools
                && n.root_mount_point == s.root_mount_point
        }),
{
}

/// The plan of taking down what the session `s` has opened.
pub open spec fn plan_for(s: SessionView) -> Seq<AttemptView> {
    teardown_plan(s.root_mount_point, s.volumes, s.keys, s.pools)
}

/// Once the root has been changed, a session goes through its plan of taking
/// down step by step, whatever the replies: the step that follows the `k`-th
/// reply after that of the change of the root is the `k`-th step of the plan.
pub proof fn lemma_teardown_follows_the_plan(
    states: Seq<SessionView>,
    replies: Seq<Reply>,
    steps: Seq<SessionStep>,
    i: int,
    k: int,
)
    requires
        is_run(states, replies, steps),
        well_formed(states[0]),
        0 <= i,
        0 <= k,
        i + k < replies.len(),
        states[i].phase == Phase::Chroot,
        k < plan_for(states[i]).len() <= usize::MAX,
    ensures
        steps[i + k].tries(steps[i + k].notices@, plan_for(states[i])[k]),
        states[i + k + 1].phase == Phase::Teardown,
        states[i + k + 1].cleanup == k,
        plan_for(states[i + k + 1]) == plan_for(states[i]),
    decreases k,
{
    lemma_run_stays_well_formed(states, replies, steps, i + k);
    assert(Session::transition(states[i + k], replies[i + k], states[i + k + 1], steps[i + k]));
    if k > 0 {
        lemma_teardown_follows_the_plan(states, replies, steps, i, k - 1);
    }
    lemma_teardown_goes_on(states[i + k], replies[i + k], states[i + k + 1], steps[i + k]);
}

/// And when the last step of the plan has been answered, the session is
/// over.
pub proof fn lemma_teardown_ends(
    states: Seq<SessionView>,
    replies: Seq<Reply>,
    steps: Seq<SessionStep>,
    i: int,
)
    requires
        is_run(states, replies, steps),
        well_formed(states[0]),
        0 <= i,
        states[i].phase == Phase::Chroot,
        plan_for(states[i]).len() <= usize::MAX,
        i + plan_for(states[i]).len() < replies.len(),
    ensures
        steps[i + plan_for(states[i]).len()].next == SessionNext::Done,
        states[i + plan_for(states[i]).len() + 1].phase == Phase::Finished,
{
    let last = plan_for(states[i]).len() - 1;
    lemma_teardown_follows_the_plan(states, replies, steps, i, last);
    let at = i + last + 1;
    lemma_run_stays_well_formed(states, replies, steps, at);
    assert(Session::transition(states[at], replies[at], states[at + 1], steps[at]));
    lemma_teardown_goes_on(states[at], replies[at], states[at + 1], steps[at]);
}

} // verus!
