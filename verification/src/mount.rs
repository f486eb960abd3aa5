//! Mounting and unmounting: the commands, the attempts, and the path under the
//! new root at which a partition is mounted.
use crate::block_device::BlockDevice;
use crate::capability::{
    fresh_attempt, Attempt, AttemptView, Command, CommandView, Question, Recovery, RecoveryView,
};
use crate::text::{decimal, join_path, leading, path_join, push_decimal, strip_leading};
use vstd::prelude::*;
use vstd::string::*;

verus! {

/// The command that mounts `source` at `target` with the given options.
pub open spec fn mount_command(
    source: Seq<char>,
    target: Seq<char>,
    options: Seq<Seq<char>>,
) -> CommandView {
    CommandView { program: "mount"@, args: seq![source, target] + options }
}

/// The command that unmounts what is mounted at `target`, and, if
/// `recursive` is set, everything mounted below it.
pub open spec fn unmount_command(target: Seq<char>, recursive: bool) -> CommandView {
    CommandView {
        program: "umount"@,
        args: if recursive {
            seq!["-R"@, target]
        } else {
            seq![target]
        },
    }
}

/// The options that mount the subvolume with the number `id`.
pub open spec fn subvolume_options(id: nat) -> Seq<Seq<char>> {
    seq!["-o"@, "subvolid="@ + decimal(id)]
}

/// The path under `root` at which a partition with the mount point
/// `mountpoint` is mounted: `root` joined with `mountpoint` less its leading
/// separators.
pub open spec fn mount_path(root: Seq<char>, mountpoint: Seq<char>) -> Seq<char> {
    join_path(root, mountpoint.skip(leading(mountpoint, '/')))
}

/// The options of a mount, where none means no option at all.
pub open spec fn options_or_none(options: Option<Vec<String>>) -> Seq<Seq<char>> {
    match options {
        Some(list) => list.deep_view(),
        None => seq![],
    }
}

impl Command {
    /// The command that mounts `source` at `target`.
    pub fn mount(source: &str, target: &str, options: &Vec<String>) -> (out: Command)
        ensures
            out@ == mount_command(source@, target@, options.deep_view()),
    {
        let out = Command::new("mount").arg(source).arg(target).args(options);
        assert(seq![source@, target@] =~= Seq::<Seq<char>>::empty().push(source@).push(target@));
        out
    }

    /// The command that unmounts what is mounted at `target`.
    pub fn unmount(target: &str, recursive: bool) -> (out: Command)
        ensures
            out@ == unmount_command(target@, recursive),
    {
        if recursive {
            let out = Command::new("umount").arg("-R").arg(target);
            assert(out@.args =~= seq!["-R"@, target@]);
            out
        } else {
            let out = Command::new("umount").arg(target);
            out
        }
    }
}

/// The options that mount the subvolume with the number `id`.
pub fn subvolume_mount_options(id: usize) -> (out: Vec<String>)
    ensures
        out.deep_view() == subvolume_options(id as nat),
{
    let mut option = "subvolid=".to_owned();
    push_decimal(&mut option, id);
    let mut out: Vec<String> = Vec::new();
    out.push("-o".to_owned());
    out.push(option);
    out
}

/// The path under `root` at which a partition with the mount point
/// `mountpoint` is mounted.
pub fn actual_mount_point(root: &str, mountpoint: &str) -> (out: String)
    ensures
        out@ == mount_path(root@, mountpoint@),
{
    let relative = strip_leading(mountpoint, '/');
    path_join(root, relative.as_str())
}

/// The attempt to mount the device `source` at `target`. A failure ends the
/// session, unless `gracefully_fail` is set and the user chooses to go on
/// without the partition.
pub open spec fn mount_attempt(
    source: Seq<char>,
    target: Seq<char>,
    gracefully_fail: bool,
    options: Seq<Seq<char>>,
) -> AttemptView {
    fresh_attempt(
        mount_command(source, target, options),
        if gracefully_fail {
            RecoveryView::OfferSkip
        } else {
            RecoveryView::GiveUp
        },
        Question::SkipFailedMount,
        source,
        true,
    )
}

/// The attempt to unmount what is mounted at `target`. A failure is reported
/// and the session goes on.
pub open spec fn unmount_attempt(target: Seq<char>, recursive: bool) -> AttemptView {
    fresh_attempt(
        unmount_command(target, recursive),
        RecoveryView::GiveUp,
        Question::SkipFailedMount,
        target,
        false,
    )
}

/// The attempt to mount `device` at `mount_point`. A failure ends the
/// session, unless `gracefully_fail` is set and the user chooses to go on
/// without the partition.
pub fn mount_block_device(
    device: &BlockDevice,
    mount_point: &str,
    gracefully_fail: bool,
    options: Option<Vec<String>>,
) -> (out: Attempt)
    ensures
        out@ == mount_attempt(
            device@.name,
            mount_point@,
            gracefully_fail,
            options_or_none(options),
        ),
{
    let command = match &options {
        Some(list) => Command::mount(device.name.as_str(), mount_point, list),
        None => {
            let none: Vec<String> = Vec::new();
            Command::mount(device.name.as_str(), mount_point, &none)
        },
    };
    let recovery = if gracefully_fail {
        Recovery::OfferSkip
    } else {
        Recovery::GiveUp
    };
    Attempt::new(command, recovery, Question::SkipFailedMount, device.name.as_str(), true)
}

/// The attempt to unmount what is mounted at `mount_point`. A failure is
/// reported and the session goes on.
pub fn umount_block_device(mount_point: &str, recursive: bool) -> (out: Attempt)
    ensures
        out@ == unmount_attempt(mount_point@, recursive),
{
    Attempt::new(
        Command::unmount(mount_point, recursive),
        Recovery::GiveUp,
        Question::SkipFailedMount,
        mount_point,
        false,
    )
}

} // verus!
