//! The tools that a session depends on, and what is left of its abilities
//! where some of them are missing.
use crate::features::Features;
use vstd::prelude::*;

verus! {

/// One tool that a session runs.
pub struct Depends {
    /// The name of the command.
    pub command: &'static str,
    /// The package that brings the command.
    pub package: &'static str,
    /// Whether no session can do without the command.
    pub required: bool,
    /// What the command is good for, where a session can do without it.
    pub optional_features_description: &'static str,
    /// The kinds of storage that need the command.
    pub features: Features,
}

/// The tools of a session: four that it cannot do without, and four that
/// three kinds of storage need.
pub fn depends() -> (out: Vec<Depends>)
    ensures
        out.len() == 8,
        forall|i: int| 0 <= i < 4 ==> (#[trigger] out[i]).required && out[i].features == (Features {
            btrfs: false,
            luks: false,
            zfs: false,
        }),
        forall|i: int| 4 <= i < 8 ==> !(#[trigger] out[i]).required,
        out[4].features == (Features { btrfs: true, luks: false, zfs: false }),
        out[5].features == (Features { btrfs: false, luks: true, zfs: false }),
        out[6].features == (Features { btrfs: false, luks: false, zfs: true }),
        out[7].features == (Features { btrfs: false, luks: false, zfs: true }),
        out[0].command@ == "lsblk"@ && out[1].command@ == "mount"@ && out[2].command@
            == "umount"@ && out[3].command@ == "arch-chroot"@,
        out[4].command@ == "btrfs"@ && out[5].command@ == "cryptsetup"@ && out[6].command@
            == "zfs"@ && out[7].command@ == "zpool"@,
        out[0].package@ == "util-linux"@ && out[1].package@ == "util-linux"@ && out[2].package@
            == "util-linux"@ && out[3].package@ == "arch-install-scripts"@,
        out[4].package@ == "btrfs-progs"@ && out[5].package@ == "cryptsetup"@ && out[6].package@
            == "zfs-utils"@ && out[7].package@ == "zfs-utils"@,
        forall|i: int| 0 <= i < 4 ==> (#[trigger] out[i]).optional_features_description@ == ""@,
        out[4].optional_features_description@ == "BTRFS Support"@,
        out[5].optional_features_description@ == "LUKS Support"@,
        out[6].optional_features_description@ == "ZFS Support"@,
        out[7].optional_features_description@ == "ZFS Support"@,
{
    let none = Features::empty();
    let mut out: Vec<Depends> = Vec::new();
    out.push(
        Depends {
            command: "lsblk",
            package: "util-linux",
            required: true,
            optional_features_description: "",
            features: none,
        },
    );
    out.push(
        Depends {
            command: "mount",
            package: "util-linux",
            required: true,
            optional_features_description: "",
            features: none,
        },
    );
    out.push(
        Depends {
            command: "umount",
            package: "util-linux",
            required: true,
            optional_features_description: "",
            features: none,
        },
    );
    out.push(
        Depends {
            command: "arch-chroot",
            package: "arch-install-scripts",
            required: true,
            optional_features_description: "",
            features: none,
        },
    );
    out.push(
        Depends {
            command: "btrfs",
            package: "btrfs-progs",
            required: false,
            optional_features_description: "BTRFS Support",
            features: Features { btrfs: true, luks: false, zfs: false },
        },
    );
    out.push(
        Depends {
            command: "cryptsetup",
            package: "cryptsetup",
            required: false,
            optional_features_description: "LUKS Support",
            features: Features { btrfs: false, luks: true, zfs: false },
        },
    );
    out.push(
        Depends {
            command: "zfs",
            package: "zfs-utils",
            required: false,
            optional_features_description: "ZFS Support",
            features: Features { btrfs: false, luks: false, zfs: true },
        },
    );
    out.push(
        Depends {
            command: "zpool",
            package: "zfs-utils",
            required: false,
            optional_features_description: "ZFS Support",
            features: Features { btrfs: false, luks: false, zfs: true },
        },
    );
    out
}

/// Whether the tool at index `i` was found; a tool that `found` does not
/// speak of was not.
pub open spec fn is_found(found: Seq<bool>, i: int) -> bool {
    0 <= i < found.len() && found[i]
}

/// The index, at or after `i`, of the first required tool that was not found.
pub open spec fn first_missing_from(tools: Seq<Depends>, found: Seq<bool>, i: int) -> Option<
    usize,
>
    decreases tools.len() - i,
{
    if 0 <= i < tools.len() {
        if tools[i].required && !is_found(found, i) {
            Some(i as usize)
        } else {
            first_missing_from(tools, found, i + 1)
        }
    } else {
        None
    }
}

/// The kinds of storage that the tools before index `n` leave out: those
/// that a tool needs which was not found.
pub open spec fn lost_features(tools: Seq<Depends>, found: Seq<bool>, n: int) -> Features
    decreases n,
{
    if n <= 0 {
        Features { btrfs: false, luks: false, zfs: false }
    } else if !is_found(found, n - 1) {
        lost_features(tools, found, n - 1).union_of(tools[n - 1].features)
    } else {
        lost_features(tools, found, n - 1)
    }
}

/// Says what a session can deal with, given for each tool whether its command
/// was found: every kind of storage none of whose tools is missing. Where a
/// required tool is missing no session can begin, and the index of the first
/// such tool is the answer.
pub fn available_features(tools: &Vec<Depends>, found: &Vec<bool>) -> (out: Result<
    Features,
    usize,
>)
    ensures
        match out {
            Ok(features) => first_missing_from(tools@, found@, 0) is None && features == (Features {
                btrfs: true,
                luks: true,
                zfs: true,
            }).difference_of(lost_features(tools@, found@, tools@.len() as int)),
            Err(i) => first_missing_from(tools@, found@, 0) == Some(i) && i < tools.len(),
        },
{
    let mut lost = Features::empty();
    let mut i: usize = 0;
    while i < tools.len()
        invariant
            i <= tools.len(),
            first_missing_from(tools@, found@, i as int) == first_missing_from(tools@, found@, 0),
            lost == lost_features(tools@, found@, i as int),
        decreases tools.len() - i,
    {
        let present = i < found.len() && found[i];
        if !present {
            if tools[i].required {
                return Err(i);
            }
            lost = lost.union(tools[i].features);
        }
        i += 1;
    }
    Ok(Features::all().difference(lost))
}

} // verus!
