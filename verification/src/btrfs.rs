//! Subvolumes: reading the listing that the filesystem tool prints, listing the
//! subvolumes of a device on a temporary mount, and resolving the subvolume to
//! mount, with a cache of the listings that a session has made.
use crate::block_device::{
    device_identity, BTRFSSubVolume, BlockDevice, BlockDeviceView, BlockOrSubvolumeID,
    SubVolumeView,
};
use crate::capability::{Command, CommandView, Fatal, Question, Reply, Request};
use crate::mount::{mount_command, unmount_command};
use crate::table::Table;
use crate::text::{
    fields, parse_number, parse_usize, split, split_at_char, split_whitespace, starts_with,
    str_eq, trim, trimmed,
};
use vstd::prelude::*;
use vstd::string::*;

verus! {

/// The number of the subvolume that every filesystem has: its top level.
pub const ROOT_SUBVOLUME_ID: usize = 5;

/// The listings that a session has made, by the identity of the device.
pub type SubvolumeCache = Table<Vec<BTRFSSubVolume>>;

/// Why a listing could not be read.
#[derive(Clone, Copy, Debug, PartialEq, Eq, Structural)]
pub enum ListingError {
    /// The text has fewer than the two lines of the table's header.
    MissingHeader,
    /// A row's first field is not the number of a subvolume.
    InvalidId,
}

/// What a line of the listing says.
pub enum Row {
    /// Nothing: it is no row of the table, or a row that is left out.
    Nothing,
    /// A subvolume with this number and name.
    Entry(usize, Seq<char>),
    /// A row whose first field is no number.
    Invalid,
}

/// The top-level subvolume of `device`: the reserved number, and the name `/`.
pub open spec fn root_subvolume(device: BlockDeviceView) -> SubVolumeView {
    SubVolumeView { device, id: ROOT_SUBVOLUME_ID as nat, name: "/"@ }
}

/// Whether a subvolume of this name lies in the namespace of the snapshots
/// that the system makes by itself.
pub open spec fn is_snapshot_name(name: Seq<char>) -> bool {
    ".snapshots"@.is_prefix_of(name)
}

/// What the line says: a row has four fields, the first the number and the
/// last the name. Rows in the snapshot namespace are left out unless
/// `include_snapshots` is set.
pub open spec fn row_of(line: Seq<char>, include_snapshots: bool) -> Row {
    let f = fields(line);
    if f.len() != 4 {
        Row::Nothing
    } else if is_snapshot_name(f[3]) && !include_snapshots {
        Row::Nothing
    } else {
        match parse_number(f[0]) {
            Some(id) => Row::Entry(id, f[3]),
            None => Row::Invalid,
        }
    }
}

/// The subvolumes that the lines list, in their order; nothing if one of the
/// lines is an invalid row.
pub open spec fn rows_of(
    device: BlockDeviceView,
    lines: Seq<Seq<char>>,
    include_snapshots: bool,
) -> Option<Seq<SubVolumeView>>
    decreases lines.len(),
{
    if lines.len() == 0 {
        Some(seq![])
    } else {
        match (
            rows_of(device, lines.drop_last(), include_snapshots),
            row_of(lines.last(), include_snapshots),
        ) {
            (Some(rows), Row::Nothing) => Some(rows),
            (Some(rows), Row::Entry(id, name)) => Some(
                rows.push(SubVolumeView { device, id: id as nat, name }),
            ),
            _ => None,
        }
    }
}

/// The subvolumes of `device` that the listing `text` shows: the top-level
/// subvolume first, then the rows of the table, which begins after two lines
/// of header.
pub open spec fn listing_of(
    device: BlockDeviceView,
    text: Seq<char>,
    include_snapshots: bool,
) -> Result<Seq<SubVolumeView>, ListingError> {
    let all = split(trim(text), '\n');
    if all.len() < 2 {
        Err(ListingError::MissingHeader)
    } else {
        match rows_of(device, all.skip(2), include_snapshots) {
            Some(rows) => Ok(seq![root_subvolume(device)] + rows),
            None => Err(ListingError::InvalidId),
        }
    }
}

/// Lines after an invalid row do not make the listing valid again.
pub proof fn lemma_invalid_row_stays(
    device: BlockDeviceView,
    lines: Seq<Seq<char>>,
    k: int,
    include_snapshots: bool,
)
    requires
        0 <= k <= lines.len(),
        rows_of(device, lines.take(k), include_snapshots) is None,
    ensures
        rows_of(device, lines, include_snapshots) is None,
    decreases lines.len() - k,
{
    if k == lines.len() {
        assert(lines.take(k) =~= lines);
    } else {
        assert(lines.take(k + 1).drop_last() =~= lines.take(k));
        lemma_invalid_row_stays(device, lines, k + 1, include_snapshots);
    }
}

/// Reads the listing of the subvolumes of `device`.
pub fn parse_subvolume_listing(
    device: &BlockDevice,
    listing: &str,
    include_dot_snapshots: bool,
) -> (out: Result<Vec<BTRFSSubVolume>, ListingError>)
    ensures
        match out {
            Ok(found) => listing_of(device@, listing@, include_dot_snapshots) == Ok::<
                Seq<SubVolumeView>,
                ListingError,
            >(found.deep_view()),
            Err(e) => listing_of(device@, listing@, include_dot_snapshots) == Err::<
                Seq<SubVolumeView>,
                ListingError,
            >(e),
        },
{
    let text = trimmed(listing);
    let all = split_at_char(text.as_str(), '\n');
    if all.len() < 2 {
        return Err(ListingError::MissingHeader);
    }
    let ghost rows = all.deep_view().skip(2);
    let ghost mut collected: Seq<SubVolumeView> = seq![];
    let mut out: Vec<BTRFSSubVolume> = Vec::new();
    out.push(BTRFSSubVolume::new(device.clone(), ROOT_SUBVOLUME_ID, "/".to_owned()));
    let mut i: usize = 2;
    while i < all.len()
        invariant
            2 <= i <= all.len(),
            all.deep_view() == split(trim(listing@), '\n'),
            rows == all.deep_view().skip(2),
            rows_of(device@, rows.take(i - 2), include_dot_snapshots) == Some(collected),
            out.deep_view() == seq![root_subvolume(device@)] + collected,
        decreases all.len() - i,
    {
        assert(rows.take(i - 2 + 1).drop_last() =~= rows.take(i - 2));
        let parts = split_whitespace(all[i].as_str());
        if parts.len() == 4 {
            if include_dot_snapshots || !starts_with(parts[3].as_str(), ".snapshots") {
                match parse_usize(parts[0].as_str()) {
                    Some(id) => {
                        let ghost before = out.deep_view();
                        let found = BTRFSSubVolume::new(device.clone(), id, parts[3].clone());
                        proof {
                            collected = collected.push(found@);
                        }
                        out.push(found);
                        assert(out.deep_view() =~= before.push(found@));
                    },
                    None => {
                        proof {
                            lemma_invalid_row_stays(
                                device@,
                                rows,
                                i - 2 + 1,
                                include_dot_snapshots,
                            );
                        }
                        return Err(ListingError::InvalidId);
                    },
                }
            }
        }
        i += 1;
    }
    assert(rows.take(i - 2) =~= rows);
    Ok(out)
}

/// The beginning of the name of the directory on which `device` is mounted
/// for its subvolumes to be listed.
pub open spec fn listing_mount_prefix(device: BlockDeviceView) -> Seq<char> {
    "cachyos-chroot-temp-mount-"@ + device.uuid + "-"@
}

/// The command that lists the subvolumes of the filesystem mounted at `target`.
pub open spec fn list_command(target: Seq<char>) -> CommandView {
    CommandView { program: "btrfs"@, args: seq!["subvolume"@, "list"@, "-t"@, target] }
}

impl Command {
    /// The command that lists the subvolumes of the filesystem mounted at `target`.
    pub fn list_subvolumes(target: &str) -> (out: Command)
        ensures
            out@ == list_command(target@),
    {
        let out = Command::new("btrfs").arg("subvolume").arg("list").arg("-t").arg(target);
        assert(out@.args =~= seq!["subvolume"@, "list"@, "-t"@, target@]);
        out
    }
}

/// Where a listing stands.
#[derive(Clone, Copy, Debug, PartialEq, Eq, Structural)]
pub enum ListingStage {
    /// Nothing was requested yet.
    Ready,
    /// A directory to mount on was asked for.
    AwaitingMountPoint,
    /// The device is being mounted.
    Mounting,
    /// The device is mounted and its subvolumes are being listed.
    Listing,
    /// The device is being unmounted.
    Unmounting,
    /// The directory is being removed.
    Releasing,
    /// The listing is over.
    Finished,
}

/// The next step of a listing.
pub enum ListingStep {
    /// Perform the request and come back with the reply.
    Ask(Request),
    /// The listing is over: these are the subvolumes.
    Done(Vec<BTRFSSubVolume>),
    /// The listing is over and so is the session.
    Abort(Fatal),
}

/// The listing of the subvolumes of one device: the device is mounted on a
/// directory made for the purpose, the subvolumes are listed, and the device
/// is unmounted and the directory removed again, whatever the listing gave.
pub struct SubvolumeListing {
    pub device: BlockDevice,
    pub include_snapshots: bool,
    pub stage: ListingStage,
    /// The directory that was made; empty before there is one.
    pub mount_point: String,
    /// The subvolumes that were found.
    pub found: Vec<BTRFSSubVolume>,
    /// Why the listing will abort once the directory is released, if it will.
    pub failure: Option<Fatal>,
}

impl SubvolumeListing {
    /// Whether `other` is a listing of the same device with the same setting.
    pub open spec fn same_task(self, other: Self) -> bool {
        &&& other.device@ == self.device@
        &&& other.include_snapshots == self.include_snapshots
    }

    /// Whether `other` has the same mount point as this listing.
    pub open spec fn same_mount(self, other: Self) -> bool {
        other.mount_point@ == self.mount_point@
    }

    /// Whether `other` has found what this listing has, and fails as it does.
    pub open spec fn same_result(self, other: Self) -> bool {
        &&& other.found.deep_view() == self.found.deep_view()
        &&& other.failure == self.failure
    }

    /// Whether `step` asks to run `command`.
    pub open spec fn runs(step: ListingStep, command: CommandView) -> bool {
        step matches ListingStep::Ask(Request::Run(c)) && c@ == command
    }

    /// Whether `step` asks to run `command` and to keep what it prints.
    pub open spec fn captures(step: ListingStep, command: CommandView) -> bool {
        step matches ListingStep::Ask(Request::Capture(c)) && c@ == command
    }

    /// Whether `step` asks for the directory `path` to be removed.
    pub open spec fn releases(step: ListingStep, path: Seq<char>) -> bool {
        step matches ListingStep::Ask(Request::ReleaseMountPoint { path: p }) && p@ == path
    }

    /// What a listing has found and how it fails once the reply to the
    /// listing command is in: `next` holds it.
    pub open spec fn holds_result(self, reply: Reply, next: Self) -> bool {
        match reply {
            Reply::Output(Some(text)) => match listing_of(
                self.device@,
                text@,
                self.include_snapshots,
            ) {
                Ok(rows) => next.found.deep_view() == rows && next.failure is None,
                Err(_) => next.failure == Some(Fatal::MalformedListing),
            },
            Reply::Output(None) => next.failure == Some(Fatal::ListingFailed),
            _ => next.failure == Some(Fatal::UnexpectedReply),
        }
    }

    /// The transition of a listing: from `self` and the reply to the request
    /// made last, to the listing `next` and its step.
    pub open spec fn transition(self, reply: Reply, next: Self, step: ListingStep) -> bool {
        &&& self.same_task(next)
        &&& match self.stage {
            ListingStage::AwaitingMountPoint => match reply {
                Reply::Path(Some(path)) => {
                    &&& next.stage == ListingStage::Mounting
                    &&& next.mount_point@ == path@
                    &&& self.same_result(next)
                    &&& Self::runs(step, mount_command(self.device@.name, path@, seq![]))
                },
                _ => {
                    &&& next.stage == ListingStage::Finished
                    &&& step == ListingStep::Abort(Fatal::NoMountPoint)
                },
            },
            ListingStage::Mounting => match reply {
                Reply::Status(true) => {
                    &&& next.stage == ListingStage::Listing
                    &&& self.same_mount(next)
                    &&& self.same_result(next)
                    &&& Self::captures(step, list_command(self.mount_point@))
                },
                _ => {
                    &&& next.stage == ListingStage::Releasing
                    &&& self.same_mount(next)
                    &&& next.failure == Some(Fatal::CommandFailed)
                    &&& Self::releases(step, self.mount_point@)
                },
            },
            ListingStage::Listing => {
                &&& next.stage == ListingStage::Unmounting
                &&& self.same_mount(next)
                &&& self.holds_result(reply, next)
                &&& Self::runs(step, unmount_command(self.mount_point@, false))
            },
            ListingStage::Unmounting => {
                &&& next.stage == ListingStage::Releasing
                &&& self.same_mount(next)
                &&& self.same_result(next)
                &&& Self::releases(step, self.mount_point@)
            },
            ListingStage::Releasing => {
                &&& next.stage == ListingStage::Finished
                &&& match self.failure {
                    Some(fatal) => step == ListingStep::Abort(fatal),
                    None => step matches ListingStep::Done(found) && found.deep_view()
                        == self.found.deep_view(),
                }
            },
            ListingStage::Ready | ListingStage::Finished => {
                &&& next.stage == ListingStage::Finished
                &&& step == ListingStep::Abort(Fatal::UnexpectedReply)
            },
        }
    }

    /// How a listing begins: the first step is to ask for a directory to
    /// mount on. Only a listing that has not begun can begin.
    pub open spec fn begins(self, next: Self, step: ListingStep) -> bool {
        &&& self.same_task(next)
        &&& self.same_mount(next)
        &&& self.same_result(next)
        &&& if self.stage == ListingStage::Ready {
            &&& next.stage == ListingStage::AwaitingMountPoint
            &&& step matches ListingStep::Ask(Request::AcquireMountPoint { prefix })
            &&& prefix@ == listing_mount_prefix(self.device@)
        } else {
            &&& next.stage == ListingStage::Finished
            &&& step == ListingStep::Abort(Fatal::UnexpectedReply)
        }
    }

    /// Begins the listing.
    pub fn start(&mut self) -> (step: ListingStep)
        ensures
            old(self).begins(*final(self), step),
    {
        match self.stage {
            ListingStage::Ready => {
                let mut prefix = "cachyos-chroot-temp-mount-".to_owned();
                prefix.append(self.device.uuid.as_str());
                prefix.append("-");
                self.stage = ListingStage::AwaitingMountPoint;
                ListingStep::Ask(Request::AcquireMountPoint { prefix })
            },
            _ => {
                self.stage = ListingStage::Finished;
                ListingStep::Abort(Fatal::UnexpectedReply)
            },
        }
    }

    /// Takes the reply to the request made last and says what comes next.
    pub fn resume(&mut self, reply: Reply) -> (step: ListingStep)
        ensures
            old(self).transition(reply, *final(self), step),
    {
        match self.stage {
            ListingStage::AwaitingMountPoint => match reply {
                Reply::Path(Some(path)) => {
                    let none: Vec<String> = Vec::new();
                    let command = Command::mount(self.device.name.as_str(), path.as_str(), &none);
                    self.mount_point = path;
                    self.stage = ListingStage::Mounting;
                    ListingStep::Ask(Request::Run(command))
                },
                _ => {
                    self.stage = ListingStage::Finished;
                    ListingStep::Abort(Fatal::NoMountPoint)
                },
            },
            ListingStage::Mounting => match reply {
                Reply::Status(true) => {
                    self.stage = ListingStage::Listing;
                    ListingStep::Ask(
                        Request::Capture(Command::list_subvolumes(self.mount_point.as_str())),
                    )
                },
                _ => {
                    self.failure = Some(Fatal::CommandFailed);
                    self.stage = ListingStage::Releasing;
                    ListingStep::Ask(Request::ReleaseMountPoint { path: self.mount_point.clone() })
                },
            },
            ListingStage::Listing => {
                match reply {
                    Reply::Output(Some(text)) => {
                        match parse_subvolume_listing(
                            &self.device,
                            text.as_str(),
                            self.include_snapshots,
                        ) {
                            Ok(found) => {
                                self.found = found;
                                self.failure = None;
                            },
                            Err(_) => {
                                self.failure = Some(Fatal::MalformedListing);
                            },
                        }
                    },
                    Reply::Output(None) => {
                        self.failure = Some(Fatal::ListingFailed);
                    },
                    _ => {
                        self.failure = Some(Fatal::UnexpectedReply);
                    },
                }
                self.stage = ListingStage::Unmounting;
                ListingStep::Ask(Request::Run(Command::unmount(self.mount_point.as_str(), false)))
            },
            ListingStage::Unmounting => {
                self.stage = ListingStage::Releasing;
                ListingStep::Ask(Request::ReleaseMountPoint { path: self.mount_point.clone() })
            },
            ListingStage::Releasing => {
                self.stage = ListingStage::Finished;
                match self.failure {
                    Some(fatal) => ListingStep::Abort(fatal),
                    None => ListingStep::Done(clone_subvolumes(&self.found)),
                }
            },
            ListingStage::Ready | ListingStage::Finished => {
                self.stage = ListingStage::Finished;
                ListingStep::Abort(Fatal::UnexpectedReply)
            },
        }
    }
}

/// A copy of the subvolumes.
pub fn clone_subvolumes(list: &Vec<BTRFSSubVolume>) -> (out: Vec<BTRFSSubVolume>)
    ensures
        out.deep_view() == list.deep_view(),
{
    let mut out: Vec<BTRFSSubVolume> = Vec::new();
    let mut i: usize = 0;
    while i < list.len()
        invariant
            i <= list.len(),
            out.deep_view() =~= list.deep_view().take(i as int),
        decreases list.len() - i,
    {
        let ghost before = out.deep_view();
        out.push(list[i].clone());
        assert(out.deep_view() =~= before.push(list[i as int]@));
        i += 1;
    }
    out
}

/// The listing of the subvolumes of `device`, not yet begun.
pub fn list_subvolumes(device: &BlockDevice, include_dot_snapshots: bool) -> (out:
    SubvolumeListing)
    ensures
        out.device@ == device@,
        out.include_snapshots == include_dot_snapshots,
        out.stage == ListingStage::Ready,
        out.mount_point@ == Seq::<char>::empty(),
        out.found.deep_view() == Seq::<SubVolumeView>::empty(),
        out.failure is None,
{
    let out = SubvolumeListing {
        device: device.clone(),
        include_snapshots: include_dot_snapshots,
        stage: ListingStage::Ready,
        mount_point: String::new(),
        found: Vec::new(),
        failure: None,
    };
    out
}

/// A device that has been mounted for its listing is always unmounted, and
/// the directory it was mounted on always removed, before the listing ends:
/// whatever the replies, the step after the listing command is the unmount,
/// the step after the unmount is the removal, and no step before the one
/// after the removal ends the listing.
pub proof fn lemma_listing_unmounts_and_releases(
    at_listing: SubvolumeListing,
    listed: Reply,
    at_unmount: SubvolumeListing,
    first: ListingStep,
    unmounted: Reply,
    at_release: SubvolumeListing,
    second: ListingStep,
)
    requires
        at_listing.stage == ListingStage::Listing,
        at_listing.transition(listed, at_unmount, first),
        at_unmount.transition(unmounted, at_release, second),
    ensures
        SubvolumeListing::runs(first, unmount_command(at_listing.mount_point@, false)),
        SubvolumeListing::releases(second, at_listing.mount_point@),
        at_release.stage == ListingStage::Releasing,
{
}

/// The name that the subvolume of a root customarily has.
pub open spec fn preset_name() -> Seq<char> {
    "@"@
}

/// The role of the partition that becomes the root of the new tree.
pub open spec fn root_role() -> Seq<char> {
    "root"@
}

/// The index, at or after `i`, of the first subvolume with the name `name`.
pub open spec fn first_named_from(known: Seq<SubVolumeView>, name: Seq<char>, i: int) -> Option<
    usize,
>
    decreases known.len() - i,
{
    if 0 <= i < known.len() {
        if known[i].name == name {
            Some(i as usize)
        } else {
            first_named_from(known, name, i + 1)
        }
    } else {
        None
    }
}

/// The index of the first subvolume with the name `name`.
pub open spec fn first_named(known: Seq<SubVolumeView>, name: Seq<char>) -> Option<usize> {
    first_named_from(known, name, 0)
}

/// How the subvolume to mount is arrived at.
#[derive(Clone, Copy, Debug, PartialEq, Eq, Structural)]
pub enum SubvolumeChoice {
    /// There is one subvolume only: it is taken, with a warning.
    Sole,
    /// The subvolume at this index has the customary name of a root and the
    /// partition is the root: the user is offered it.
    Preset(usize),
    /// The user picks.
    Ask,
}

/// How the subvolume to mount for the partition `role` is arrived at, among
/// the subvolumes `known`.
pub open spec fn choice_of(known: Seq<SubVolumeView>, role: Seq<char>) -> SubvolumeChoice {
    if known.len() == 1 {
        SubvolumeChoice::Sole
    } else if role == root_role() && first_named(known, preset_name()) is Some {
        SubvolumeChoice::Preset(first_named(known, preset_name())->0)
    } else {
        SubvolumeChoice::Ask
    }
}

/// The index of the first subvolume with the name `name`.
pub fn find_named(known: &Vec<BTRFSSubVolume>, name: &str) -> (found: Option<usize>)
    ensures
        found == first_named(known.deep_view(), name@),
        found matches Some(i) ==> i < known.len() && known[i as int]@.name == name@,
{
    let mut i: usize = 0;
    while i < known.len()
        invariant
            i <= known.len(),
            first_named_from(known.deep_view(), name@, i as int) == first_named(
                known.deep_view(),
                name@,
            ),
        decreases known.len() - i,
    {
        if str_eq(known[i].subvolume_name.as_str(), name) {
            return Some(i);
        }
        i += 1;
    }
    None
}

/// How the subvolume to mount for the partition `role` is arrived at.
pub fn choose_subvolume(known: &Vec<BTRFSSubVolume>, role: &str) -> (choice: SubvolumeChoice)
    ensures
        choice == choice_of(known.deep_view(), role@),
        choice matches SubvolumeChoice::Preset(i) ==> i < known.len(),
{
    if known.len() == 1 {
        SubvolumeChoice::Sole
    } else if str_eq(role, "root") {
        match find_named(known, "@") {
            Some(i) => SubvolumeChoice::Preset(i),
            None => SubvolumeChoice::Ask,
        }
    } else {
        SubvolumeChoice::Ask
    }
}

/// Where the resolution of a subvolume stands.
#[derive(Clone, Copy, Debug, PartialEq, Eq, Structural)]
pub enum ResolverStage {
    /// Nothing was requested yet.
    Ready,
    /// The subvolumes of the device are being listed.
    Listing,
    /// The user is offered the subvolume with the customary name of a root.
    OfferingPreset,
    /// The user picks a subvolume.
    Choosing,
    /// The resolution is over.
    Finished,
}

/// What a resolution arrived at.
pub struct Resolution {
    /// The subvolume to mount.
    pub subvolume: BTRFSSubVolume,
    /// The subvolume was taken because there is no other: worth a warning.
    pub sole: bool,
    /// The subvolumes of the device, if the resolution had to list them.
    pub listed: Option<Vec<BTRFSSubVolume>>,
}

/// The next step of a resolution.
pub enum ResolverStep {
    /// Perform the request and come back with the reply.
    Ask(Request),
    /// The resolution is over.
    Done(Resolution),
    /// The resolution is over and so is the session.
    Abort(Fatal),
}

/// The resolution of the subvolume of one device to mount for one partition.
pub struct SubvolumeResolver {
    pub device: BlockDevice,
    /// The partition that the subvolume is for: `root`, or a mount point.
    pub role: String,
    pub include_snapshots: bool,
    pub stage: ResolverStage,
    /// Whether the subvolumes of the device were at hand from an earlier listing.
    pub cached: bool,
    /// The subvolumes of the device, once they are known.
    pub known: Vec<BTRFSSubVolume>,
    /// The index of the subvolume that is offered.
    pub preset: usize,
}

/// The subvolumes that a resolution had to list, as plain values.
pub open spec fn listed_view(listed: Option<Vec<BTRFSSubVolume>>) -> Option<Seq<SubVolumeView>> {
    match listed {
        Some(found) => Some(found.deep_view()),
        None => None,
    }
}

impl SubvolumeResolver {
    /// Whether `other` resolves for the same device and partition.
    pub open spec fn same_task(self, other: Self) -> bool {
        &&& other.device@ == self.device@
        &&& other.role@ == self.role@
        &&& other.include_snapshots == self.include_snapshots
        &&& other.cached == self.cached
    }

    /// Whether `step` asks for the subvolumes of `device` to be listed, in a
    /// listing that has not begun.
    pub open spec fn lists(step: ResolverStep, device: BlockDeviceView, snapshots: bool) -> bool {
        &&& step matches ResolverStep::Ask(Request::List(listing))
        &&& listing.device@ == device
        &&& listing.include_snapshots == snapshots
        &&& listing.stage == ListingStage::Ready
        &&& listing.found.deep_view() == Seq::<SubVolumeView>::empty()
        &&& listing.failure is None
    }

    /// Whether `step` lets the user pick among `known` for the partition `role`.
    pub open spec fn lets_pick(
        step: ResolverStep,
        known: Seq<SubVolumeView>,
        role: Seq<char>,
    ) -> bool {
        &&& step matches ResolverStep::Ask(Request::ChooseSubvolume { role: r, candidates })
        &&& r@ == role
        &&& candidates.deep_view() == known
    }

    /// What this resolver hands on of the subvolumes it knows: all of them if
    /// it had to list them, nothing if they were at hand.
    pub open spec fn listing(self) -> Option<Seq<SubVolumeView>> {
        if self.cached {
            None
        } else {
            Some(self.known.deep_view())
        }
    }

    /// Whether `step` ends this resolution with the subvolume `chosen`.
    pub open spec fn ends_with(self, step: ResolverStep, chosen: SubVolumeView, alone: bool) -> bool {
        &&& step matches ResolverStep::Done(resolution)
        &&& resolution.subvolume@ == chosen
        &&& resolution.sole == alone
        &&& listed_view(resolution.listed) == self.listing()
    }

    /// Whether this resolver and `step` are what follows once the subvolumes
    /// `known` of the device are at hand: one subvolume alone is taken; for
    /// the root the subvolume with the customary name is offered; in every
    /// other case the user picks.
    pub open spec fn settles(self, known: Seq<SubVolumeView>, step: ResolverStep) -> bool {
        &&& self.known.deep_view() == known
        &&& match choice_of(known, self.role@) {
            SubvolumeChoice::Sole => {
                &&& self.stage == ResolverStage::Finished
                &&& self.ends_with(step, known[0], true)
            },
            SubvolumeChoice::Preset(i) => {
                &&& self.stage == ResolverStage::OfferingPreset
                &&& self.preset == i
                &&& step matches ResolverStep::Ask(Request::Confirm { question, subject })
                &&& question == Question::UseSubvolumePreset
                &&& subject@ == known[i as int].name
            },
            SubvolumeChoice::Ask => {
                &&& self.stage == ResolverStage::Choosing
                &&& Self::lets_pick(step, known, self.role@)
            },
        }
    }

    /// Whether this resolver is one that has not begun, for `device` and the
    /// partition `role`, given the listings `cache` that the session has.
    pub open spec fn prepared(
        self,
        cache: Map<Seq<char>, Seq<SubVolumeView>>,
        device: BlockDeviceView,
        role: Seq<char>,
        snapshots: bool,
    ) -> bool {
        &&& self.device@ == device
        &&& self.role@ == role
        &&& self.include_snapshots == snapshots
        &&& self.stage == ResolverStage::Ready
        &&& self.cached == cache.contains_key(device_identity(device))
        &&& self.known.deep_view() == if self.cached {
            cache[device_identity(device)]
        } else {
            seq![]
        }
        &&& self.preset == 0
    }

    /// How a resolution begins: a resolver that has the subvolumes at hand
    /// goes on with them; any other begins with a listing. Only a resolver
    /// that has not begun can begin.
    pub open spec fn starts(self, next: Self, step: ResolverStep) -> bool {
        &&& self.same_task(next)
        &&& if self.stage != ResolverStage::Ready {
            &&& next.stage == ResolverStage::Finished
            &&& step == ResolverStep::Abort(Fatal::UnexpectedReply)
        } else if self.cached {
            next.settles(self.known.deep_view(), step)
        } else {
            &&& next.stage == ResolverStage::Listing
            &&& Self::lists(step, self.device@, self.include_snapshots)
        }
    }

    /// The transition of a resolution: from `self` and the reply to the
    /// request made last, to the resolver `next` and its step.
    pub open spec fn transition(self, reply: Reply, next: Self, step: ResolverStep) -> bool {
        &&& self.same_task(next)
        &&& match self.stage {
            ResolverStage::Listing => match reply {
                Reply::Subvolumes(found) => next.settles(found.deep_view(), step),
                _ => {
                    &&& next.stage == ResolverStage::Finished
                    &&& step == ResolverStep::Abort(Fatal::UnexpectedReply)
                },
            },
            ResolverStage::OfferingPreset => match reply {
                Reply::Answer(true) if self.preset < self.known.len() => {
                    &&& next.stage == ResolverStage::Finished
                    &&& self.ends_with(step, self.known[self.preset as int]@, false)
                },
                _ => {
                    &&& next.stage == ResolverStage::Choosing
                    &&& next.known.deep_view() == self.known.deep_view()
                    &&& Self::lets_pick(step, self.known.deep_view(), self.role@)
                },
            },
            ResolverStage::Choosing => {
                &&& next.stage == ResolverStage::Finished
                &&& match reply {
                    Reply::Choice(Some(i)) if i < self.known.len() => self.ends_with(
                        step,
                        self.known[i as int]@,
                        false,
                    ),
                    _ => step == ResolverStep::Abort(Fatal::NoSelection),
                }
            },
            ResolverStage::Ready | ResolverStage::Finished => {
                &&& next.stage == ResolverStage::Finished
                &&& step == ResolverStep::Abort(Fatal::UnexpectedReply)
            },
        }
    }

    fn end(&self, i: usize, sole: bool) -> (step: ResolverStep)
        requires
            i < self.known.len(),
        ensures
            self.ends_with(step, self.known[i as int]@, sole),
    {
        let listed = if self.cached {
            None
        } else {
            Some(clone_subvolumes(&self.known))
        };
        ResolverStep::Done(Resolution { subvolume: self.known[i].clone(), sole, listed })
    }

    fn pick(&mut self) -> (step: ResolverStep)
        ensures
            old(self).same_task(*final(self)),
            final(self).known.deep_view() == old(self).known.deep_view(),
            final(self).stage == ResolverStage::Choosing,
            Self::lets_pick(step, old(self).known.deep_view(), old(self).role@),
    {
        self.stage = ResolverStage::Choosing;
        ResolverStep::Ask(
            Request::ChooseSubvolume {
                role: self.role.clone(),
                candidates: clone_subvolumes(&self.known),
            },
        )
    }

    fn settle(&mut self) -> (step: ResolverStep)
        ensures
            old(self).same_task(*final(self)),
            final(self).settles(old(self).known.deep_view(), step),
    {
        match choose_subvolume(&self.known, self.role.as_str()) {
            SubvolumeChoice::Sole => {
                self.stage = ResolverStage::Finished;
                self.end(0, true)
            },
            SubvolumeChoice::Preset(i) => {
                self.stage = ResolverStage::OfferingPreset;
                self.preset = i;
                ResolverStep::Ask(
                    Request::Confirm {
                        question: Question::UseSubvolumePreset,
                        subject: self.known[i].subvolume_name.clone(),
                    },
                )
            },
            SubvolumeChoice::Ask => self.pick(),
        }
    }

    /// Begins the resolution.
    pub fn start(&mut self) -> (step: ResolverStep)
        ensures
            old(self).starts(*final(self), step),
    {
        if self.stage != ResolverStage::Ready {
            self.stage = ResolverStage::Finished;
            ResolverStep::Abort(Fatal::UnexpectedReply)
        } else if self.cached {
            self.settle()
        } else {
            self.stage = ResolverStage::Listing;
            ResolverStep::Ask(
                Request::List(list_subvolumes(&self.device, self.include_snapshots)),
            )
        }
    }

    /// Takes the reply to the request made last and says what comes next.
    pub fn resume(&mut self, reply: Reply) -> (step: ResolverStep)
        ensures
            old(self).transition(reply, *final(self), step),
    {
        match self.stage {
            ResolverStage::Listing => match reply {
                Reply::Subvolumes(found) => {
                    self.known = found;
                    self.settle()
                },
                _ => {
                    self.stage = ResolverStage::Finished;
                    ResolverStep::Abort(Fatal::UnexpectedReply)
                },
            },
            ResolverStage::OfferingPreset => match reply {
                Reply::Answer(true) if self.preset < self.known.len() => {
                    self.stage = ResolverStage::Finished;
                    self.end(self.preset, false)
                },
                _ => self.pick(),
            },
            ResolverStage::Choosing => {
                self.stage = ResolverStage::Finished;
                match reply {
                    Reply::Choice(Some(i)) if i < self.known.len() => self.end(i, false),
                    _ => ResolverStep::Abort(Fatal::NoSelection),
                }
            },
            ResolverStage::Ready | ResolverStage::Finished => {
                self.stage = ResolverStage::Finished;
                ResolverStep::Abort(Fatal::UnexpectedReply)
            },
        }
    }
}

/// The resolution of the subvolume of `device` to mount for the partition
/// `device_name`, not yet begun. The subvolumes are taken from `discovered`
/// where the device has been listed before; only where it has not, the
/// resolution will list them.
pub fn get_btrfs_subvolume(
    device: &BlockDevice,
    discovered: &SubvolumeCache,
    show_btrfs_dot_snapshots: bool,
    device_name: &str,
) -> (out: SubvolumeResolver)
    ensures
        out.prepared(discovered@, device@, device_name@, show_btrfs_dot_snapshots),
{
    let id = device.get_id();
    let (cached, known) = match discovered.get(id.as_str()) {
        Some(known) => (true, clone_subvolumes(known)),
        None => {
            let none: Vec<BTRFSSubVolume> = Vec::new();
            assert(none.deep_view() =~= Seq::<SubVolumeView>::empty());
            (false, none)
        },
    };
    SubvolumeResolver {
        device: device.clone(),
        role: device_name.to_owned(),
        include_snapshots: show_btrfs_dot_snapshots,
        stage: ResolverStage::Ready,
        cached,
        known,
        preset: 0,
    }
}

/// The listings of a session after a resolution for `device` ended with
/// `listed`: what the resolution had to list is kept under the identity of
/// the device, unless a listing is kept there already.
pub open spec fn cache_after(
    cache: Map<Seq<char>, Seq<SubVolumeView>>,
    device: BlockDeviceView,
    listed: Option<Seq<SubVolumeView>>,
) -> Map<Seq<char>, Seq<SubVolumeView>> {
    if listed is Some && !cache.contains_key(device_identity(device)) {
        cache.insert(device_identity(device), listed->0)
    } else {
        cache
    }
}

/// Keeps what a resolution for `device` had to list.
pub fn keep_listing(
    discovered: &mut SubvolumeCache,
    device: &BlockDevice,
    listed: Option<Vec<BTRFSSubVolume>>,
)
    ensures
        final(discovered)@ == cache_after(old(discovered)@, device@, listed_view(listed)),
{
    match listed {
        Some(found) => {
            let id = device.get_id();
            if !discovered.contains_key(id.as_str()) {
                discovered.insert(id, found);
            }
        },
        None => {},
    }
}

/// Within a session the subvolumes of a device are listed at most once: when
/// the listing of one resolution has been kept, no resolution of a device
/// with the same identity begins with a listing.
pub proof fn lemma_listed_once(
    cache: Map<Seq<char>, Seq<SubVolumeView>>,
    first: BlockDeviceView,
    found: Seq<SubVolumeView>,
    second: SubvolumeResolver,
    role: Seq<char>,
    snapshots: bool,
    begun: SubvolumeResolver,
    step: ResolverStep,
)
    requires
        device_identity(second.device@) == device_identity(first),
        second.prepared(cache_after(cache, first, Some(found)), second.device@, role, snapshots),
        second.starts(begun, step),
    ensures
        !(step matches ResolverStep::Ask(Request::List(_))),
        !cache.contains_key(device_identity(first)) ==> begun.known.deep_view() == found,
{
}

/// Listing one device does not stand in for another: a resolution of a
/// device with another identity, of which the session has no listing, begins
/// with a listing as before.
pub proof fn lemma_other_device_listed_again(
    cache: Map<Seq<char>, Seq<SubVolumeView>>,
    first: BlockDeviceView,
    found: Seq<SubVolumeView>,
    other: SubvolumeResolver,
    role: Seq<char>,
    snapshots: bool,
    begun: SubvolumeResolver,
    step: ResolverStep,
)
    requires
        device_identity(other.device@) != device_identity(first),
        !cache.contains_key(device_identity(other.device@)),
        other.prepared(cache_after(cache, first, Some(found)), other.device@, role, snapshots),
        other.starts(begun, step),
    ensures
        SubvolumeResolver::lists(step, other.device@, snapshots),
{
}

/// A resolution lists at most once, and only at its beginning: no reply
/// makes a resolver ask for a listing.
pub proof fn lemma_resolution_lists_at_start_only(
    resolver: SubvolumeResolver,
    reply: Reply,
    next: SubvolumeResolver,
    step: ResolverStep,
)
    requires
        resolver.transition(reply, next, step),
    ensures
        !(step matches ResolverStep::Ask(Request::List(_))),
{
}

} // verus!
