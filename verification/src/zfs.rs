//! Pools and datasets: importing and exporting a pool, loading and unloading
//! keys, mounting and unmounting datasets, and listing the datasets of a pool
//! that can be mounted.
use crate::block_device::{device_identity, BlockDevice, BlockDeviceView, BlockOrSubvolumeID};
use crate::capability::{
    fresh_attempt, Attempt, AttemptView, Command, CommandView, Fatal, Outcome, Question,
    Recovery, RecoveryView, Reply, Request,
};
use crate::names::{without, MountedSet, Names};
use crate::text::{eq_ignore_ascii_case, str_eq_ignore_ascii_case};
use vstd::prelude::*;
use vstd::string::*;

verus! {

/// One property of a dataset.
pub struct ZFSProperty {
    pub value: String,
}

/// The properties of a dataset that a session reads.
pub struct ZFSProperties {
    pub canmount: ZFSProperty,
    pub encryption: ZFSProperty,
    pub keylocation: ZFSProperty,
    pub mounted: ZFSProperty,
    pub mountpoint: ZFSProperty,
}

/// A dataset of a pool.
pub struct ZFSDataSet {
    pub name: String,
    pub dataset_type: String,
    pub pool: String,
    pub properties: ZFSProperties,
}

/// The datasets of one listing.
pub struct ZFSDatasets {
    pub datasets: Vec<ZFSDataSet>,
}

/// What a `ZFSDataSet` holds, as plain texts.
pub struct DataSetView {
    pub name: Seq<char>,
    pub dataset_type: Seq<char>,
    pub pool: Seq<char>,
    pub canmount: Seq<char>,
    pub encryption: Seq<char>,
    pub keylocation: Seq<char>,
    pub mounted: Seq<char>,
    pub mountpoint: Seq<char>,
}

impl View for ZFSDataSet {
    type V = DataSetView;

    open spec fn view(&self) -> DataSetView {
        DataSetView {
            name: self.name@,
            dataset_type: self.dataset_type@,
            pool: self.pool@,
            canmount: self.properties.canmount.value@,
            encryption: self.properties.encryption.value@,
            keylocation: self.properties.keylocation.value@,
            mounted: self.properties.mounted.value@,
            mountpoint: self.properties.mountpoint.value@,
        }
    }
}

impl DeepView for ZFSDataSet {
    type V = DataSetView;

    open spec fn deep_view(&self) -> DataSetView {
        self@
    }
}

/// Whether the key of the dataset is kept where a session cannot fetch it:
/// its key location is neither `none` nor `prompt`.
pub open spec fn is_unsupported(d: DataSetView) -> bool {
    !eq_ignore_ascii_case(d.keylocation, "none"@) && !eq_ignore_ascii_case(
        d.keylocation,
        "prompt"@,
    )
}

/// Whether the dataset is encrypted.
pub open spec fn is_encrypted(d: DataSetView) -> bool {
    !eq_ignore_ascii_case(d.encryption, "off"@)
}

/// Whether the dataset can be mounted: it is a filesystem, mounting it is
/// allowed, and it has a mount point.
pub open spec fn is_mountable(d: DataSetView) -> bool {
    &&& eq_ignore_ascii_case(d.dataset_type, "filesystem"@)
    &&& !eq_ignore_ascii_case(d.canmount, "off"@)
    &&& !eq_ignore_ascii_case(d.mountpoint, "none"@)
}

/// Whether the dataset is mounted.
pub open spec fn is_mounted(d: DataSetView) -> bool {
    eq_ignore_ascii_case(d.mounted, "yes"@)
}

/// Whether the key of the dataset is asked of the user.
pub open spec fn is_key_root(d: DataSetView) -> bool {
    eq_ignore_ascii_case(d.keylocation, "prompt"@)
}

/// The dataset `d` with the property `mounted` set to `value`.
pub open spec fn with_mounted(d: DataSetView, value: Seq<char>) -> DataSetView {
    DataSetView { mounted: value, ..d }
}

/// The canonical identity of a dataset: its name, a hyphen, and its pool.
pub open spec fn dataset_identity(d: DataSetView) -> Seq<char> {
    d.name + seq!['-'] + d.pool
}

/// The line that presents a dataset to the user.
pub open spec fn dataset_label(d: DataSetView) -> Seq<char> {
    "ZFS Dataset: "@ + d.name + ": Pool: "@ + d.pool + ", Mountpoint: "@ + d.mountpoint
}

/// What a session asks of a dataset, and how it notes that the dataset was
/// mounted or unmounted.
pub trait ZFSDataSetUtils: View<V = DataSetView> + Sized {
    /// Whether the key is kept where a session cannot fetch it.
    fn has_unsupported_encryption(&self) -> (b: bool)
        ensures
            b == is_unsupported(self@),
    ;

    /// Whether the dataset is encrypted.
    fn is_encrypted(&self) -> (b: bool)
        ensures
            b == is_encrypted(self@),
    ;

    /// Whether the dataset can be mounted.
    fn is_mountable(&self) -> (b: bool)
        ensures
            b == is_mountable(self@),
    ;

    /// Whether the dataset is mounted.
    fn is_mounted(&self) -> (b: bool)
        ensures
            b == is_mounted(self@),
    ;

    /// Whether the key is asked of the user.
    fn is_valid_key_root(&self) -> (b: bool)
        ensures
            b == is_key_root(self@),
    ;

    /// Notes that the dataset was mounted.
    fn mark_as_mounted(&mut self)
        ensures
            final(self)@ == with_mounted(old(self)@, "yes"@),
            is_mounted(final(self)@),
    ;

    /// Notes that the dataset was unmounted.
    fn mark_as_unmounted(&mut self)
        ensures
            final(self)@ == with_mounted(old(self)@, "no"@),
            !is_mounted(final(self)@),
    ;
}

impl ZFSDataSetUtils for ZFSDataSet {
    fn has_unsupported_encryption(&self) -> (b: bool) {
        !str_eq_ignore_ascii_case(self.properties.keylocation.value.as_str(), "none")
            && !str_eq_ignore_ascii_case(self.properties.keylocation.value.as_str(), "prompt")
    }

    fn is_encrypted(&self) -> (b: bool) {
        !str_eq_ignore_ascii_case(self.properties.encryption.value.as_str(), "off")
    }

    fn is_mountable(&self) -> (b: bool) {
        str_eq_ignore_ascii_case(self.dataset_type.as_str(), "filesystem")
            && !str_eq_ignore_ascii_case(self.properties.canmount.value.as_str(), "off")
            && !str_eq_ignore_ascii_case(self.properties.mountpoint.value.as_str(), "none")
    }

    fn is_mounted(&self) -> (b: bool) {
        str_eq_ignore_ascii_case(self.properties.mounted.value.as_str(), "yes")
    }

    fn is_valid_key_root(&self) -> (b: bool) {
        str_eq_ignore_ascii_case(self.properties.keylocation.value.as_str(), "prompt")
    }

    fn mark_as_mounted(&mut self) {
        self.properties.mounted.value = "yes".to_owned();
    }

    fn mark_as_unmounted(&mut self) {
        proof {
            reveal_strlit("yes");
            reveal_strlit("no");
        }
        self.properties.mounted.value = "no".to_owned();
    }
}

impl Clone for ZFSDataSet {
    fn clone(&self) -> (out: Self)
        ensures
            out == *self,
    {
        ZFSDataSet {
            name: self.name.clone(),
            dataset_type: self.dataset_type.clone(),
            pool: self.pool.clone(),
            properties: ZFSProperties {
                canmount: ZFSProperty { value: self.properties.canmount.value.clone() },
                encryption: ZFSProperty { value: self.properties.encryption.value.clone() },
                keylocation: ZFSProperty { value: self.properties.keylocation.value.clone() },
                mounted: ZFSProperty { value: self.properties.mounted.value.clone() },
                mountpoint: ZFSProperty { value: self.properties.mountpoint.value.clone() },
            },
        }
    }
}

impl BlockOrSubvolumeID for ZFSDataSet {
    open spec fn identity(&self) -> Seq<char> {
        dataset_identity(self@)
    }

    open spec fn label(&self) -> Seq<char> {
        dataset_label(self@)
    }

    fn get_id(&self) -> (id: String) {
        let mut id = self.name.clone();
        proof {
            reveal_strlit("-");
        }
        id.append("-");
        id.append(self.pool.as_str());
        id
    }

    fn display_label(&self) -> (line: String) {
        let mut line = "ZFS Dataset: ".to_owned();
        line.append(self.name.as_str());
        line.append(": Pool: ");
        line.append(self.pool.as_str());
        line.append(", Mountpoint: ");
        line.append(self.properties.mountpoint.value.as_str());
        line
    }
}

/// The command that imports the pool of the device with this uuid, with
/// `root` as the root of its mount points.
pub open spec fn import_command(uuid: Seq<char>, root: Seq<char>, force: bool) -> CommandView {
    CommandView {
        program: "zpool"@,
        args: if force {
            seq!["import"@, uuid, "-f"@, "-R"@, root]
        } else {
            seq!["import"@, uuid, "-R"@, root]
        },
    }
}

/// The command that exports the pool `pool`.
pub open spec fn export_command(pool: Seq<char>, force: bool) -> CommandView {
    CommandView {
        program: "zpool"@,
        args: if force {
            seq!["export"@, "-f"@, pool]
        } else {
            seq!["export"@, pool]
        },
    }
}

/// The command that lists the filesystems of `pool` with the properties that
/// a session reads.
pub open spec fn list_datasets_command(pool: Seq<char>) -> CommandView {
    CommandView {
        program: "zfs"@,
        args: seq![
            "list"@,
            "-j"@,
            "-o"@,
            "canmount,encryption,keylocation,mounted,mountpoint"@,
            "-t"@,
            "filesystem"@,
            "-r"@,
            pool,
        ],
    }
}

/// The command that does `verb` to the dataset `dataset`.
pub open spec fn dataset_command(verb: Seq<char>, dataset: Seq<char>) -> CommandView {
    CommandView { program: "zfs"@, args: seq![verb, dataset] }
}

impl Command {
    /// The command that imports the pool of the device with this uuid.
    pub fn import_pool(uuid: &str, root: &str, force: bool) -> (out: Command)
        ensures
            out@ == import_command(uuid@, root@, force),
    {
        if force {
            let out = Command::new("zpool").arg("import").arg(uuid).arg("-f").arg("-R").arg(root);
            assert(out@.args =~= import_command(uuid@, root@, force).args);
            out
        } else {
            let out = Command::new("zpool").arg("import").arg(uuid).arg("-R").arg(root);
            assert(out@.args =~= import_command(uuid@, root@, force).args);
            out
        }
    }

    /// The command that exports the pool `pool`.
    pub fn export_pool(pool: &str, force: bool) -> (out: Command)
        ensures
            out@ == export_command(pool@, force),
    {
        if force {
            let out = Command::new("zpool").arg("export").arg("-f").arg(pool);
            assert(out@.args =~= export_command(pool@, force).args);
            out
        } else {
            let out = Command::new("zpool").arg("export").arg(pool);
            assert(out@.args =~= export_command(pool@, force).args);
            out
        }
    }

    /// The command that lists the filesystems of `pool`.
    pub fn list_datasets(pool: &str) -> (out: Command)
        ensures
            out@ == list_datasets_command(pool@),
    {
        let out = Command::new("zfs").arg("list").arg("-j").arg("-o").arg(
            "canmount,encryption,keylocation,mounted,mountpoint",
        ).arg("-t").arg("filesystem").arg("-r").arg(pool);
        assert(out@.args =~= list_datasets_command(pool@).args);
        out
    }

    /// The command that does `verb` to the dataset `dataset`.
    pub fn dataset(verb: &str, dataset: &str) -> (out: Command)
        ensures
            out@ == dataset_command(verb@, dataset@),
    {
        let out = Command::new("zfs").arg(verb).arg(dataset);
        assert(out@.args =~= seq![verb@, dataset@]);
        out
    }
}

/// The attempt to import the pool of `device` with `root` as the root of its
/// mount points. After a failure the user is asked once whether to force the
/// import; a failure that stands ends the session.
pub open spec fn import_attempt(device: BlockDeviceView, root: Seq<char>) -> AttemptView {
    fresh_attempt(
        import_command(device.uuid, root, false),
        RecoveryView::OfferForce(import_command(device.uuid, root, true)),
        Question::ForceImport,
        device_identity(device),
        true,
    )
}

/// The attempt to export the pool of `device`. After a failure the user is
/// asked once whether to force the export; a failure that stands is reported
/// and the session goes on.
pub open spec fn export_attempt(device: BlockDeviceView) -> AttemptView {
    fresh_attempt(
        export_command(device_identity(device), false),
        RecoveryView::OfferForce(export_command(device_identity(device), true)),
        Question::ForceExport,
        device_identity(device),
        false,
    )
}

/// The attempt to unload the key of `dataset`. A failure is reported and the
/// session goes on.
pub open spec fn unload_attempt(dataset: Seq<char>) -> AttemptView {
    fresh_attempt(
        dataset_command("unload-key"@, dataset),
        RecoveryView::GiveUp,
        Question::RetryPassphrase,
        dataset,
        false,
    )
}

/// The attempt to load the key of `dataset`: after every failure the user is
/// asked whether to enter the passphrase again, and a refusal leaves the key
/// unloaded and the session going.
pub open spec fn load_attempt(dataset: Seq<char>) -> AttemptView {
    fresh_attempt(
        dataset_command("load-key"@, dataset),
        RecoveryView::OfferRetry,
        Question::RetryPassphrase,
        dataset,
        false,
    )
}

/// The attempt to mount `dataset`. A failure ends the session, unless
/// `gracefully_fail` is set and the user chooses to go on without the dataset.
pub open spec fn dataset_mount_attempt(dataset: Seq<char>, gracefully_fail: bool) -> AttemptView {
    fresh_attempt(
        dataset_command("mount"@, dataset),
        if gracefully_fail {
            RecoveryView::OfferSkip
        } else {
            RecoveryView::GiveUp
        },
        Question::SkipFailedMount,
        dataset,
        true,
    )
}

/// The attempt to unmount `dataset`. A failure is reported and the session
/// goes on.
pub open spec fn dataset_unmount_attempt(dataset: Seq<char>) -> AttemptView {
    fresh_attempt(
        dataset_command("unmount"@, dataset),
        RecoveryView::GiveUp,
        Question::SkipFailedMount,
        dataset,
        false,
    )
}

/// The attempt to import the pool of `device` with `mount_point` as the root
/// of its mount points.
pub fn import_zfs_pool(device: &BlockDevice, mount_point: &str) -> (out: Attempt)
    ensures
        out@ == import_attempt(device@, mount_point@),
{
    let pool_name = device.get_id();
    Attempt::new(
        Command::import_pool(device.uuid.as_str(), mount_point, false),
        Recovery::OfferForce(Command::import_pool(device.uuid.as_str(), mount_point, true)),
        Question::ForceImport,
        pool_name.as_str(),
        true,
    )
}

/// The attempt to export the pool of `device`.
pub fn export_zfs_pool(device: &BlockDevice) -> (out: Attempt)
    ensures
        out@ == export_attempt(device@),
{
    let pool_name = device.get_id();
    Attempt::new(
        Command::export_pool(pool_name.as_str(), false),
        Recovery::OfferForce(Command::export_pool(pool_name.as_str(), true)),
        Question::ForceExport,
        pool_name.as_str(),
        false,
    )
}

/// The attempt to unload the key of `dataset`.
pub fn unload_zfs_key(dataset: &str) -> (out: Attempt)
    ensures
        out@ == unload_attempt(dataset@),
{
    Attempt::new(
        Command::dataset("unload-key", dataset),
        Recovery::GiveUp,
        Question::RetryPassphrase,
        dataset,
        false,
    )
}

/// Whether `attempt` is the attempt to load the key of `dataset`.
pub open spec fn is_key_load(attempt: Attempt, dataset: Seq<char>) -> bool {
    attempt@ == load_attempt(dataset)
}

/// The attempt to load the key of `dataset`.
pub fn load_zfs_key(dataset: &str) -> (out: Attempt)
    ensures
        is_key_load(out, dataset@),
{
    Attempt::new(
        Command::dataset("load-key", dataset),
        Recovery::OfferRetry,
        Question::RetryPassphrase,
        dataset,
        false,
    )
}

/// The attempt to mount `dataset`, or none if it is mounted already: a
/// mounted dataset is left as it is, with a warning. A failure ends the
/// session, unless `gracefully_fail` is set and the user chooses to go on
/// without the dataset. `mount_point` is where the pool was imported.
pub fn mount_zfs_dataset(dataset: &ZFSDataSet, mount_point: &str, gracefully_fail: bool) -> (out:
    Option<Attempt>)
    ensures
        is_mounted(dataset@) <==> out is None,
        out matches Some(attempt) ==> attempt@ == dataset_mount_attempt(
            dataset@.name,
            gracefully_fail,
        ),
{
    if dataset.is_mounted() {
        None
    } else {
        let recovery = if gracefully_fail {
            Recovery::OfferSkip
        } else {
            Recovery::GiveUp
        };
        Some(
            Attempt::new(
                Command::dataset("mount", dataset.name.as_str()),
                recovery,
                Question::SkipFailedMount,
                dataset.name.as_str(),
                true,
            ),
        )
    }
}

/// Notes how the attempt to mount `dataset` ended: the dataset is mounted if
/// the attempt succeeded, and is left as it was if not.
pub fn dataset_mount_ended(dataset: &mut ZFSDataSet, outcome: Outcome)
    ensures
        outcome == Outcome::Succeeded ==> final(dataset)@ == with_mounted(old(dataset)@, "yes"@)
            && is_mounted(final(dataset)@),
        outcome != Outcome::Succeeded ==> final(dataset)@ == old(dataset)@,
{
    match outcome {
        Outcome::Succeeded => dataset.mark_as_mounted(),
        _ => {},
    }
}

/// The attempt to unmount `dataset`.
pub fn unmount_zfs_dataset(dataset: &ZFSDataSet) -> (out: Attempt)
    ensures
        out@ == dataset_unmount_attempt(dataset@.name),
{
    Attempt::new(
        Command::dataset("unmount", dataset.name.as_str()),
        Recovery::GiveUp,
        Question::SkipFailedMount,
        dataset.name.as_str(),
        false,
    )
}

/// Notes how the attempt to unmount `dataset` ended: if the attempt
/// succeeded, the dataset is unmounted and its identity is taken out of the
/// mounted ones; if not, both are left as they were, since an unmount that was
/// not confirmed has to be taken as not done.
pub fn dataset_unmount_ended(dataset: &mut ZFSDataSet, mounted: &mut MountedSet, outcome: Outcome)
    ensures
        outcome == Outcome::Succeeded ==> final(dataset)@ == with_mounted(old(dataset)@, "no"@)
            && !is_mounted(final(dataset)@) && final(mounted)@ == without(
            old(mounted)@,
            dataset_identity(old(dataset)@),
        ),
        outcome != Outcome::Succeeded ==> final(dataset)@ == old(dataset)@ && final(mounted)@
            == old(mounted)@,
{
    match outcome {
        Outcome::Succeeded => {
            let id = dataset.get_id();
            mounted.remove(id.as_str());
            dataset.mark_as_unmounted();
        },
        _ => {},
    }
}

/// Whether the key of the dataset has to be loaded before it can be mounted,
/// given the datasets whose keys are loaded: it is encrypted, its key is asked
/// of the user, and its key is not loaded.
pub open spec fn needs_key(d: DataSetView, loaded: Seq<Seq<char>>) -> bool {
    is_encrypted(d) && is_key_root(d) && !loaded.contains(d.name)
}

/// The index, at or after `from`, of the first dataset whose key has to be
/// loaded; the number of datasets if there is none.
pub open spec fn next_key(datasets: Seq<DataSetView>, loaded: Seq<Seq<char>>, from: int) -> int
    decreases datasets.len() - from,
{
    if 0 <= from < datasets.len() && !needs_key(datasets[from], loaded) {
        next_key(datasets, loaded, from + 1)
    } else {
        from
    }
}

/// The datasets that can be mounted, in their order.
pub open spec fn mountable_of(datasets: Seq<DataSetView>) -> Seq<DataSetView> {
    datasets.filter(|d: DataSetView| is_mountable(d))
}


/// Whether one of the datasets keeps its key where a session cannot fetch it.
pub open spec fn any_unsupported(datasets: Seq<DataSetView>) -> bool {
    exists|i: int| 0 <= i < datasets.len() && is_unsupported(#[trigger] datasets[i])
}

/// The names after the key of `name` was loaded: `name` is recorded unless it
/// is there.
pub open spec fn with_key(loaded: Seq<Seq<char>>, name: Seq<char>) -> Seq<Seq<char>> {
    if loaded.contains(name) {
        loaded
    } else {
        loaded.push(name)
    }
}

/// What a listing of datasets found.
pub struct DatasetsFound {
    /// The datasets that can be mounted.
    pub mountable: Vec<ZFSDataSet>,
    /// The datasets whose keys are loaded.
    pub loaded: Names,
    /// The datasets whose keys could not be loaded: they are listed all the
    /// same, and will fail to mount.
    pub failed: Names,
    /// One of the datasets keeps its key where a session cannot fetch it:
    /// worth one warning.
    pub unsupported: bool,
}

/// Where a listing of datasets stands.
#[derive(Clone, Copy, Debug, PartialEq, Eq, Structural)]
pub enum DatasetListingStage {
    /// Nothing was requested yet.
    Ready,
    /// The datasets of the pool are being listed.
    Querying,
    /// The key of the dataset at the cursor is being loaded.
    LoadingKey,
    /// The listing is over.
    Finished,
}

/// The next step of a listing of datasets.
pub enum DatasetListingStep {
    /// Perform the request and come back with the reply.
    Ask(Request),
    /// The listing is over.
    Done(DatasetsFound),
    /// The listing is over and so is the session.
    Abort(Fatal),
}

/// The listing of the datasets of one pool that can be mounted. The keys
/// that are asked of the user are loaded on the way, each at most once.
pub struct DatasetListing {
    /// The name of the pool.
    pub pool: String,
    pub stage: DatasetListingStage,
    /// The datasets whose keys are loaded.
    pub loaded: Names,
    /// The datasets of the pool, once they are listed.
    pub datasets: Vec<ZFSDataSet>,
    /// The index of the dataset whose key is being loaded.
    pub cursor: usize,
    /// The datasets whose keys could not be loaded.
    pub failed: Names,
    pub unsupported: bool,
}

impl DatasetListing {
    /// Whether `step` asks for the key of `dataset` to be loaded.
    pub open spec fn loads(step: DatasetListingStep, dataset: Seq<char>) -> bool {
        step matches DatasetListingStep::Ask(Request::Try(attempt)) && is_key_load(
            attempt,
            dataset,
        )
    }

    /// Whether `step` ends the listing with what the listing `last` holds.
    pub open spec fn finishes(step: DatasetListingStep, last: Self) -> bool {
        &&& step matches DatasetListingStep::Done(found)
        &&& found.mountable.deep_view() == mountable_of(last.datasets.deep_view())
        &&& found.loaded@ == last.loaded@
        &&& found.failed@ == last.failed@
        &&& found.unsupported == last.unsupported
    }

    /// Whether this listing and `step` are what follows once the datasets up
    /// to `from` are dealt with: the key of the next dataset that needs it is
    /// loaded, and with no such dataset the listing ends.
    pub open spec fn continues(self, from: int, step: DatasetListingStep) -> bool {
        let k = next_key(self.datasets.deep_view(), self.loaded@, from);
        if k < self.datasets.len() {
            &&& self.stage == DatasetListingStage::LoadingKey
            &&& self.cursor == k
            &&& Self::loads(step, self.datasets[k]@.name)
        } else {
            &&& self.stage == DatasetListingStage::Finished
            &&& Self::finishes(step, self)
        }
    }

    /// Whether `other` lists the same pool and holds the same datasets.
    pub open spec fn same_datasets(self, other: Self) -> bool {
        &&& other.pool@ == self.pool@
        &&& other.datasets.deep_view() == self.datasets.deep_view()
        &&& other.unsupported == self.unsupported
    }

    /// The transition of a listing: from `self` and the reply to the request
    /// made last, to the listing `next` and its step.
    pub open spec fn transition(self, reply: Reply, next: Self, step: DatasetListingStep) -> bool {
        match self.stage {
            DatasetListingStage::Querying => match reply {
                Reply::Datasets(Some(list)) => {
                    &&& next.pool@ == self.pool@
                    &&& next.datasets.deep_view() == list.deep_view()
                    &&& next.unsupported == any_unsupported(list.deep_view())
                    &&& next.loaded@ == self.loaded@
                    &&& next.failed@ == self.failed@
                    &&& next.continues(0, step)
                },
                _ => {
                    &&& next.stage == DatasetListingStage::Finished
                    &&& next.loaded@ == self.loaded@
                    &&& step == DatasetListingStep::Abort(Fatal::ListingFailed)
                },
            },
            DatasetListingStage::LoadingKey if self.cursor < self.datasets.len() => {
                let name = self.datasets[self.cursor as int]@.name;
                &&& self.same_datasets(next)
                &&& match reply {
                    Reply::Outcome(Outcome::Succeeded) => {
                        &&& next.loaded@ == with_key(self.loaded@, name)
                        &&& next.failed@ == self.failed@
                    },
                    _ => {
                        &&& next.loaded@ == self.loaded@
                        &&& next.failed@ == self.failed@.push(name)
                    },
                }
                &&& next.continues(self.cursor + 1, step)
            },
            _ => {
                &&& next.stage == DatasetListingStage::Finished
                &&& next.loaded@ == self.loaded@
                &&& step == DatasetListingStep::Abort(Fatal::UnexpectedReply)
            },
        }
    }

    /// How a listing begins: the first step is to list the datasets of the
    /// pool. Only a listing that has not begun can begin.
    pub open spec fn begins(self, next: Self, step: DatasetListingStep) -> bool {
        &&& self.same_datasets(next)
        &&& next.cursor == self.cursor
        &&& next.loaded@ == self.loaded@
        &&& next.failed@ == self.failed@
        &&& if self.stage == DatasetListingStage::Ready {
            &&& next.stage == DatasetListingStage::Querying
            &&& step matches DatasetListingStep::Ask(Request::QueryDatasets(command))
            &&& command@ == list_datasets_command(self.pool@)
        } else {
            &&& next.stage == DatasetListingStage::Finished
            &&& step == DatasetListingStep::Abort(Fatal::UnexpectedReply)
        }
    }

    /// Begins the listing.
    pub fn start(&mut self) -> (step: DatasetListingStep)
        ensures
            old(self).begins(*final(self), step),
    {
        match self.stage {
            DatasetListingStage::Ready => {
                self.stage = DatasetListingStage::Querying;
                DatasetListingStep::Ask(
                    Request::QueryDatasets(Command::list_datasets(self.pool.as_str())),
                )
            },
            _ => {
                self.stage = DatasetListingStage::Finished;
                DatasetListingStep::Abort(Fatal::UnexpectedReply)
            },
        }
    }

    fn advance(&mut self, from: usize) -> (step: DatasetListingStep)
        requires
            from <= old(self).datasets.len(),
        ensures
            old(self).same_datasets(*final(self)),
            final(self).loaded@ == old(self).loaded@,
            final(self).failed@ == old(self).failed@,
            final(self).continues(from as int, step),
    {
        let mut k: usize = from;
        while k < self.datasets.len() && !(self.datasets[k].is_encrypted()
            && self.datasets[k].is_valid_key_root() && !self.loaded.contains(
            self.datasets[k].name.as_str(),
        ))
            invariant
                from <= k <= self.datasets.len(),
                *self == *old(self),
                next_key(self.datasets.deep_view(), self.loaded@, from as int) == next_key(
                    self.datasets.deep_view(),
                    self.loaded@,
                    k as int,
                ),
            decreases self.datasets.len() - k,
        {
            k += 1;
        }
        if k < self.datasets.len() {
            self.stage = DatasetListingStage::LoadingKey;
            self.cursor = k;
            DatasetListingStep::Ask(Request::Try(load_zfs_key(self.datasets[k].name.as_str())))
        } else {
            self.stage = DatasetListingStage::Finished;
            DatasetListingStep::Done(
                DatasetsFound {
                    mountable: mountable_datasets(&self.datasets),
                    loaded: self.loaded.clone(),
                    failed: self.failed.clone(),
                    unsupported: self.unsupported,
                },
            )
        }
    }

    /// Takes the reply to the request made last and says what comes next.
    pub fn resume(&mut self, reply: Reply) -> (step: DatasetListingStep)
        ensures
            old(self).transition(reply, *final(self), step),
    {
        match self.stage {
            DatasetListingStage::Querying => match reply {
                Reply::Datasets(Some(list)) => {
                    self.unsupported = has_unsupported(&list);
                    self.datasets = list;
                    self.advance(0)
                },
                _ => {
                    self.stage = DatasetListingStage::Finished;
                    DatasetListingStep::Abort(Fatal::ListingFailed)
                },
            },
            DatasetListingStage::LoadingKey if self.cursor < self.datasets.len() => {
                let name = self.datasets[self.cursor].name.clone();
                match reply {
                    Reply::Outcome(Outcome::Succeeded) => {
                        self.loaded.insert(name);
                    },
                    _ => {
                        self.failed.push(name);
                    },
                }
                self.advance(self.cursor + 1)
            },
            _ => {
                self.stage = DatasetListingStage::Finished;
                DatasetListingStep::Abort(Fatal::UnexpectedReply)
            },
        }
    }
}

/// Whether one of the datasets keeps its key where a session cannot fetch it.
pub fn has_unsupported(datasets: &Vec<ZFSDataSet>) -> (b: bool)
    ensures
        b == any_unsupported(datasets.deep_view()),
{
    let mut i: usize = 0;
    while i < datasets.len()
        invariant
            i <= datasets.len(),
            forall|k: int| 0 <= k < i ==> !is_unsupported(#[trigger] datasets.deep_view()[k]),
        decreases datasets.len() - i,
    {
        assert(datasets.deep_view()[i as int] == datasets[i as int]@);
        if datasets[i].has_unsupported_encryption() {
            return true;
        }
        i += 1;
    }
    false
}

/// The datasets that can be mounted, in their order.
pub fn mountable_datasets(datasets: &Vec<ZFSDataSet>) -> (out: Vec<ZFSDataSet>)
    ensures
        out.deep_view() == mountable_of(datasets.deep_view()),
{
    let mut out: Vec<ZFSDataSet> = Vec::new();
    let mut i: usize = 0;
    while i < datasets.len()
        invariant
            i <= datasets.len(),
            out.deep_view() == mountable_of(datasets.deep_view().take(i as int)),
        decreases datasets.len() - i,
    {
        proof {
            let pred = |d: DataSetView| is_mountable(d);
            assert(datasets.deep_view().take(i + 1) =~= datasets.deep_view().take(i as int).push(
                datasets[i as int]@,
            ));
            datasets.deep_view().take(i as int).lemma_filter_push(datasets[i as int]@, pred);
        }
        if datasets[i].is_mountable() {
            out.push(datasets[i].clone());
        }
        i += 1;
    }
    assert(datasets.deep_view().take(i as int) =~= datasets.deep_view());
    out
}

/// The listing of the datasets of the pool of `device` that can be mounted,
/// not yet begun. `loaded_keys` names the datasets whose keys are loaded.
pub fn list_zfs_mountable_datasets(device: &BlockDevice, loaded_keys: &Names) -> (out:
    DatasetListing)
    ensures
        out.pool@ == device_identity(device@),
        out.stage == DatasetListingStage::Ready,
        out.loaded@ == loaded_keys@,
        out.failed@ == Seq::<Seq<char>>::empty(),
        out.datasets.deep_view() == Seq::<DataSetView>::empty(),
        out.cursor == 0,
        !out.unsupported,
{
    let out = DatasetListing {
        pool: device.get_id(),
        stage: DatasetListingStage::Ready,
        loaded: loaded_keys.clone(),
        datasets: Vec::new(),
        cursor: 0,
        failed: Names::new(),
        unsupported: false,
    };
    out
}

/// The dataset that `next_key` names needs its key.
pub proof fn lemma_next_key(datasets: Seq<DataSetView>, loaded: Seq<Seq<char>>, from: int)
    requires
        0 <= from <= datasets.len(),
    ensures
        from <= next_key(datasets, loaded, from) <= datasets.len(),
        next_key(datasets, loaded, from) < datasets.len() ==> needs_key(
            datasets[next_key(datasets, loaded, from)],
            loaded,
        ),
    decreases datasets.len() - from,
{
    if from < datasets.len() && !needs_key(datasets[from], loaded) {
        lemma_next_key(datasets, loaded, from + 1);
    }
}

/// A key that is loaded is never loaded again: whatever the reply, the next
/// step of a listing does not ask for the key of a dataset that is among the
/// loaded ones, before the step or after it.
pub proof fn lemma_loaded_key_never_asked(
    listing: DatasetListing,
    reply: Reply,
    next: DatasetListing,
    step: DatasetListingStep,
    dataset: Seq<char>,
)
    requires
        listing.transition(reply, next, step),
        listing.loaded@.contains(dataset) || next.loaded@.contains(dataset),
    ensures
        !DatasetListing::loads(step, dataset),
{
    if DatasetListing::loads(step, dataset) {
        let from = if listing.stage is Querying {
            0
        } else {
            listing.cursor + 1
        };
        lemma_next_key(next.datasets.deep_view(), next.loaded@, from);
        if listing.loaded@.contains(dataset) {
            let i = choose|i: int| 0 <= i < listing.loaded@.len() && listing.loaded@[i] == dataset;
            if listing.stage is LoadingKey && reply == Reply::Outcome(Outcome::Succeeded) {
                let name = listing.datasets[listing.cursor as int]@.name;
                if !listing.loaded@.contains(name) {
                    assert(listing.loaded@.push(name)[i] == dataset);
                }
            }
        }
    }
}

} // verus!
