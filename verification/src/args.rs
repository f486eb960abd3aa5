//! The settings of a session.
use vstd::prelude::*;

verus! {

/// What the user can set when starting a session.
#[derive(Clone, Copy, Debug, PartialEq, Eq, Structural)]
pub struct Args {
    /// Allow a session without the rights of the superuser.
    pub skip_root_check: bool,
    /// List the subvolumes in the snapshot namespace too.
    pub show_btrfs_dot_snapshots: bool,
    /// Do not mount what the mount table of the new root names.
    pub no_auto_mount: bool,
    /// Change the root without an isolated instance of the service manager.
    pub no_systemd_chroot: bool,
}

impl Default for Args {
    fn default() -> (out: Self)
        ensures
            out == (Args {
                skip_root_check: false,
                show_btrfs_dot_snapshots: false,
                no_auto_mount: false,
                no_systemd_chroot: false,
            }),
    {
        Args {
            skip_root_check: false,
            show_btrfs_dot_snapshots: false,
            no_auto_mount: false,
            no_systemd_chroot: false,
        }
    }
}

impl Args {
    /// Whether a session may begin: the user is the superuser, or has asked
    /// for the check to be skipped.
    pub fn may_run(&self, is_superuser: bool) -> (b: bool)
        ensures
            b == (is_superuser || self.skip_root_check),
    {
        is_superuser || self.skip_root_check
    }
}

} // verus!
