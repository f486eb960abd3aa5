use cachyos_chroot::args::Args;
use cachyos_chroot::block_device::{BTRFSSubVolume, BlockDevice};
use cachyos_chroot::btrfs::Resolution;
use cachyos_chroot::capability::{Fatal, Outcome, Question, Recovery, Reply, Request};
use cachyos_chroot::luks::CryptTabSource;
use cachyos_chroot::names::Names;
use cachyos_chroot::planner::{MountTableEntry, SkipReason};
use cachyos_chroot::session::{
    is_valid_mount_point, teardown_attempt, Notice, OpenedResources, Phase, Session, SessionNext,
    SessionStep,
};
use cachyos_chroot::zfs::{DatasetsFound, ZFSDataSet, ZFSProperties, ZFSProperty};

fn device(name: &str, fs_type: &str, uuid: &str) -> BlockDevice {
    BlockDevice {
        name: name.to_string(),
        fs_type: fs_type.to_string(),
        uuid: uuid.to_string(),
        partuuid: None,
        label: None,
        partlabel: None,
    }
}

fn entry(source: &str, mountpoint: &str, kind: &str, options: &[&str]) -> MountTableEntry {
    MountTableEntry {
        fs_spec: source.to_string(),
        mountpoint: mountpoint.to_string(),
        vfs_type: kind.to_string(),
        mount_options: options.iter().map(|s| s.to_string()).collect(),
    }
}

fn dataset(name: &str, mounted: &str) -> ZFSDataSet {
    let property = |value: &str| ZFSProperty { value: value.to_string() };
    ZFSDataSet {
        name: name.to_string(),
        dataset_type: "FILESYSTEM".to_string(),
        pool: "tank".to_string(),
        properties: ZFSProperties {
            canmount: property("on"),
            encryption: property("off"),
            keylocation: property("none"),
            mounted: property(mounted),
            mountpoint: property("/"),
        },
    }
}

fn words(items: &[&str]) -> Vec<String> {
    items.iter().map(|s| s.to_string()).collect()
}

fn tried(step: &SessionStep) -> (String, Vec<String>) {
    match &step.next {
        SessionNext::Ask(Request::Try(attempt)) => {
            (attempt.command.program.clone(), attempt.command.args.clone())
        },
        _ => panic!("expected an attempt"),
    }
}

fn asked(step: &SessionStep) -> Question {
    match &step.next {
        SessionNext::Ask(Request::Confirm { question, .. }) => *question,
        _ => panic!("expected a question"),
    }
}

fn succeeded() -> Reply {
    Reply::Outcome(Outcome::Succeeded)
}

fn begun(devices: Vec<BlockDevice>) -> (Session, SessionStep) {
    let mut session = Session::new(Args::default());
    match session.start().next {
        SessionNext::Ask(Request::QueryDevices(c)) => {
            assert_eq!(c.program, "lsblk");
            assert_eq!(
                c.args,
                words(&[
                    "-f", "-o", "NAME,FSTYPE,UUID,PARTUUID,LABEL,PARTLABEL", "-p", "-a", "-J", "-Q",
                    "type=='part' || type=='crypt' && fstype!='swap' && fstype && uuid"
                ])
            );
        },
        _ => panic!("expected the query for devices"),
    }
    let step = session.resume(Reply::Devices(Some(devices)));
    (session, step)
}

#[test]
fn a_plain_root_is_mounted_directly_and_without_options() {
    let (mut session, step) =
        begun(vec![device("/dev/sda1", "ext4", "abcd"), device("/dev/sda2", "vfat", "boot")]);
    match step.next {
        SessionNext::Ask(Request::ChooseDevice { role, candidates, allow_skip }) => {
            assert_eq!(role, "root");
            assert_eq!(candidates.len(), 2);
            assert!(!allow_skip);
        },
        _ => panic!("expected the choice of a root"),
    }
    match session.resume(Reply::Choice(Some(0))).next {
        SessionNext::Ask(Request::AcquireMountPoint { prefix }) => {
            assert_eq!(prefix, "cachyos-chroot-root-mount-abcd-")
        },
        _ => panic!("expected the request for a directory"),
    }
    let step = session.resume(Reply::Path(Some("/tmp/r".to_string())));
    assert!(step.notices.is_empty());
    assert_eq!(tried(&step), ("mount".to_string(), words(&["/dev/sda1", "/tmp/r"])));
    match &step.next {
        SessionNext::Ask(Request::Try(attempt)) => {
            assert!(matches!(attempt.recovery, Recovery::GiveUp));
            assert!(attempt.fatal);
        },
        _ => panic!("expected an attempt"),
    }
    assert_eq!(session.phase, Phase::Mounting);
    assert!(session.mounted.list.is_empty());
    match session.resume(succeeded()).next {
        SessionNext::Ask(Request::ReadKeyTable { path }) => assert_eq!(path, "/tmp/r/etc/crypttab"),
        _ => panic!("expected the reading of the key aliases"),
    }
    assert_eq!(session.mounted.list, words(&["abcd"]));
    let step = session.resume(Reply::KeyTable(CryptTabSource::Missing));
    assert!(step.notices.is_empty());
    match step.next {
        SessionNext::Ask(Request::ReadMountTable { path }) => assert_eq!(path, "/tmp/r/etc/fstab"),
        _ => panic!("expected the reading of the mount table"),
    }
    let table = vec![
        entry("UUID=swap", "none", "swap", &["sw"]),
        entry("UUID=abcd", "/", "ext4", &["rw"]),
        entry("UUID=boot", "/boot", "vfat", &["umask=0077"]),
        entry("LABEL=gone", "/srv", "ext4", &[]),
    ];
    let step = session.resume(Reply::MountTable(Some(table)));
    assert_eq!(
        step.notices,
        vec![
            Notice::EntrySkipped(0, SkipReason::Swap),
            Notice::EntrySkipped(1, SkipReason::AlreadyMounted)
        ]
    );
    assert_eq!(tried(&step), ("mount".to_string(), words(&["/dev/sda2", "/tmp/r/boot"])));
    let step = session.resume(succeeded());
    assert_eq!(step.notices, vec![Notice::EntrySkipped(3, SkipReason::Unresolved)]);
    assert_eq!(asked(&step), Question::MountMore);
    assert_eq!(session.mounted.list, words(&["abcd", "boot"]));
    let step = session.resume(Reply::Answer(false));
    match &step.next {
        SessionNext::Ask(Request::Run(c)) => {
            assert_eq!(c.program, "arch-chroot");
            assert_eq!(c.args, words(&["-S", "/tmp/r"]));
        },
        _ => panic!("expected the change of the root"),
    }
    let step = session.resume(Reply::Status(true));
    assert_eq!(tried(&step), ("umount".to_string(), words(&["-R", "/tmp/r"])));
    let step = session.resume(succeeded());
    assert!(step.notices.is_empty());
    assert!(matches!(step.next, SessionNext::Done));
    assert_eq!(session.phase, Phase::Finished);
    assert!(matches!(session.resume(succeeded()).next, SessionNext::Abort(Fatal::UnexpectedReply)));
}

#[test]
fn an_encrypted_root_is_opened_and_chosen_again() {
    let locked = device("/dev/sda2", "crypto_LUKS", "1111");
    let (mut session, _) = begun(vec![locked.clone()]);
    let step = session.resume(Reply::Choice(Some(0)));
    assert_eq!(tried(&step), ("cryptsetup".to_string(), words(&["luksOpen", "/dev/sda2", "luks-1111"])));
    assert!(matches!(session.resume(succeeded()).next, SessionNext::Ask(Request::QueryDevices(_))));
    assert_eq!(session.opened.volumes.len(), 1);
    assert!(session.root_encrypted);
    let open = device("/dev/mapper/luks-1111", "btrfs", "2222");
    match session.resume(Reply::Devices(Some(vec![locked.clone(), open.clone()]))).next {
        SessionNext::Ask(Request::ChooseDevice { role, candidates, allow_skip }) => {
            assert_eq!(role, "root");
            assert_eq!(candidates.len(), 1);
            assert_eq!(candidates[0].name, "/dev/mapper/luks-1111");
            assert!(!allow_skip);
        },
        _ => panic!("expected the second choice of a root"),
    }
    match session.resume(Reply::Choice(Some(0))).next {
        SessionNext::Ask(Request::AcquireMountPoint { prefix }) => {
            assert_eq!(prefix, "cachyos-chroot-root-mount-2222-")
        },
        _ => panic!("expected the request for a directory"),
    }
    match session.resume(Reply::Path(Some("/tmp/r".to_string()))).next {
        SessionNext::Ask(Request::Resolve(resolver)) => {
            assert_eq!(resolver.role, "root");
            assert_eq!(resolver.device.uuid, "2222");
            assert!(!resolver.cached);
        },
        _ => panic!("expected the resolution of a subvolume"),
    }
    let known = vec![
        BTRFSSubVolume::new(open.clone(), 5, "/".to_string()),
        BTRFSSubVolume::new(open.clone(), 256, "@".to_string()),
        BTRFSSubVolume::new(open.clone(), 257, "@home".to_string()),
    ];
    let resolution = Resolution {
        subvolume: BTRFSSubVolume::new(open.clone(), 256, "@".to_string()),
        sole: false,
        listed: Some(known),
    };
    let step = session.resume(Reply::Resolved(resolution));
    assert!(step.notices.is_empty());
    assert_eq!(
        tried(&step),
        ("mount".to_string(), words(&["/dev/mapper/luks-1111", "/tmp/r", "-o", "subvolid=256"]))
    );
    assert!(session.cache.contains_key("2222"));
    session.resume(succeeded());
    assert_eq!(session.mounted.list, words(&["2222-256"]));
    let step = session.resume(Reply::KeyTable(CryptTabSource::Missing));
    assert_eq!(step.notices, vec![Notice::MissingKeyTable]);
    let table = vec![
        entry("UUID=2222", "/", "btrfs", &["subvol=/@"]),
        entry("UUID=2222", "/home", "btrfs", &["subvol=/@home"]),
    ];
    let step = session.resume(Reply::MountTable(Some(table)));
    assert_eq!(step.notices, vec![Notice::EntrySkipped(0, SkipReason::AlreadyMounted)]);
    assert_eq!(
        tried(&step),
        ("mount".to_string(), words(&["/dev/mapper/luks-1111", "/tmp/r/home", "-o", "subvolid=257"]))
    );
    let step = session.resume(Reply::Outcome(Outcome::Skipped));
    assert_eq!(asked(&step), Question::MountMore);
    assert_eq!(session.mounted.list, words(&["2222-256"]));
    session.resume(Reply::Answer(false));
    let step = session.resume(Reply::Status(false));
    assert_eq!(tried(&step), ("umount".to_string(), words(&["-R", "/tmp/r"])));
    let step = session.resume(succeeded());
    assert_eq!(tried(&step), ("cryptsetup".to_string(), words(&["luksClose", "luks-1111"])));
    assert!(matches!(session.resume(succeeded()).next, SessionNext::Done));
}

#[test]
fn a_sole_subvolume_is_reported() {
    let d = device("/dev/sda2", "btrfs", "abcd");
    let (mut session, _) = begun(vec![d.clone()]);
    session.resume(Reply::Choice(Some(0)));
    session.resume(Reply::Path(Some("/tmp/r".to_string())));
    let root = BTRFSSubVolume::new(d.clone(), 5, "/".to_string());
    let step = session.resume(Reply::Resolved(Resolution {
        subvolume: root.clone(),
        sole: true,
        listed: Some(vec![root]),
    }));
    assert_eq!(step.notices, vec![Notice::SoleSubvolume]);
    assert_eq!(tried(&step), ("mount".to_string(), words(&["/dev/sda2", "/tmp/r", "-o", "subvolid=5"])));
}

#[test]
fn a_session_without_devices_cannot_begin() {
    let (session, step) = begun(Vec::new());
    assert!(matches!(step.next, SessionNext::Abort(Fatal::NoDevices)));
    assert_eq!(session.phase, Phase::Finished);
    let mut other = Session::new(Args::default());
    other.start();
    assert!(matches!(other.resume(Reply::Devices(None)).next, SessionNext::Abort(Fatal::NoDevices)));
    let mut early = Session::new(Args::default());
    assert!(matches!(early.resume(Reply::Answer(true)).next, SessionNext::Abort(Fatal::UnexpectedReply)));
}

#[test]
fn a_root_must_be_chosen() {
    for reply in [Reply::Choice(None), Reply::Choice(Some(1))] {
        let (mut session, _) = begun(vec![device("/dev/sda1", "ext4", "abcd")]);
        assert!(matches!(session.resume(reply).next, SessionNext::Abort(Fatal::NoSelection)));
    }
    let (mut session, _) = begun(vec![device("/dev/sda1", "ext4", "abcd")]);
    session.resume(Reply::Choice(Some(0)));
    assert!(matches!(session.resume(Reply::Path(None)).next, SessionNext::Abort(Fatal::NoMountPoint)));
}

#[test]
fn the_mount_table_is_left_alone_on_request() {
    let mut session = Session::new(Args { no_auto_mount: true, no_systemd_chroot: true, ..Args::default() });
    session.start();
    session.resume(Reply::Devices(Some(vec![device("/dev/sda1", "ext4", "abcd")])));
    session.resume(Reply::Choice(Some(0)));
    session.resume(Reply::Path(Some("/tmp/r".to_string())));
    session.resume(succeeded());
    session.resume(Reply::KeyTable(CryptTabSource::Contents("bad\nname UUID=1\n".to_string())));
    assert_eq!(session.aliases.get("name"), Some(&"1".to_string()));
    let step = session.resume(Reply::MountTable(Some(vec![entry("UUID=x", "/x", "ext4", &[])])));
    assert!(step.notices.is_empty());
    assert_eq!(asked(&step), Question::MountMore);
    match session.resume(Reply::Answer(false)).next {
        SessionNext::Ask(Request::Run(c)) => assert_eq!(c.args, words(&["/tmp/r"])),
        _ => panic!("expected the change of the root"),
    }
}

#[test]
fn what_is_wrong_with_the_tables_is_reported() {
    let (mut session, _) = begun(vec![device("/dev/sda1", "ext4", "abcd")]);
    session.resume(Reply::Choice(Some(0)));
    session.resume(Reply::Path(Some("/tmp/r".to_string())));
    session.resume(succeeded());
    let step = session.resume(Reply::KeyTable(CryptTabSource::Contents("bad\nname UUID=1\n\n".to_string())));
    assert_eq!(step.notices, vec![Notice::MalformedAlias(0), Notice::MalformedAlias(2)]);
    let step = session.resume(Reply::MountTable(None));
    assert_eq!(step.notices, vec![Notice::MissingMountTable]);
    assert_eq!(asked(&step), Question::MountMore);

    let (mut other, _) = begun(vec![device("/dev/sda1", "ext4", "abcd")]);
    other.resume(Reply::Choice(Some(0)));
    other.resume(Reply::Path(Some("/tmp/r".to_string())));
    other.resume(succeeded());
    let step = other.resume(Reply::KeyTable(CryptTabSource::Unreadable));
    assert_eq!(step.notices, vec![Notice::UnreadableKeyTable]);
}

#[test]
fn the_mount_table_lists_a_device_before_it_mounts_its_subvolume() {
    let root = device("/dev/sda1", "ext4", "abcd");
    let data = device("/dev/sdb1", "btrfs", "data");
    let (mut session, _) = begun(vec![root, data.clone()]);
    session.resume(Reply::Choice(Some(0)));
    session.resume(Reply::Path(Some("/tmp/r".to_string())));
    session.resume(succeeded());
    session.resume(Reply::KeyTable(CryptTabSource::Missing));
    let table = vec![
        entry("UUID=data", "/srv", "btrfs", &[]),
        entry("UUID=data", "/srv/again", "btrfs", &["subvolid=5"]),
        entry("UUID=data", "/home", "btrfs", &["subvol=@home"]),
    ];
    match session.resume(Reply::MountTable(Some(table))).next {
        SessionNext::Ask(Request::List(listing)) => {
            assert_eq!(listing.device.uuid, "data");
            assert!(!listing.include_snapshots);
        },
        _ => panic!("expected a listing"),
    }
    let known = vec![
        BTRFSSubVolume::new(data.clone(), 5, "/".to_string()),
        BTRFSSubVolume::new(data.clone(), 257, "@home".to_string()),
    ];
    let step = session.resume(Reply::Subvolumes(known));
    assert_eq!(step.notices, vec![Notice::FallbackSubvolume(0)]);
    assert_eq!(tried(&step), ("mount".to_string(), words(&["/dev/sdb1", "/tmp/r/srv", "-o", "subvolid=5"])));
    let step = session.resume(succeeded());
    assert_eq!(step.notices, vec![Notice::EntrySkipped(1, SkipReason::AlreadyMounted)]);
    assert_eq!(
        tried(&step),
        ("mount".to_string(), words(&["/dev/sdb1", "/tmp/r/home", "-o", "subvolid=257"]))
    );
    session.resume(succeeded());
    assert_eq!(session.mounted.list, words(&["abcd", "data-5", "data-257"]));
}

#[test]
fn more_partitions_are_mounted_as_long_as_the_user_wants() {
    let (mut session, _) = begun(vec![device("/dev/sda1", "ext4", "abcd"), device("/dev/sda2", "vfat", "boot")]);
    session.resume(Reply::Choice(Some(0)));
    session.resume(Reply::Path(Some("/tmp/r".to_string())));
    session.resume(succeeded());
    session.resume(Reply::KeyTable(CryptTabSource::Missing));
    session.resume(Reply::MountTable(None));
    assert!(matches!(session.resume(Reply::Answer(true)).next, SessionNext::Ask(Request::EnterMountPoint)));
    assert!(matches!(
        session.resume(Reply::Text("boot".to_string())).next,
        SessionNext::Ask(Request::EnterMountPoint)
    ));
    match session.resume(Reply::Text("/boot".to_string())).next {
        SessionNext::Ask(Request::ChooseDevice { role, candidates, allow_skip }) => {
            assert_eq!(role, "/boot");
            assert_eq!(candidates.len(), 2);
            assert!(allow_skip);
        },
        _ => panic!("expected the choice of a device"),
    }
    let step = session.resume(Reply::Choice(None));
    assert_eq!(asked(&step), Question::MountMore);
    session.resume(Reply::Answer(true));
    session.resume(Reply::Text("/boot".to_string()));
    let step = session.resume(Reply::Choice(Some(0)));
    assert_eq!(step.notices, vec![Notice::AlreadyMounted]);
    assert_eq!(asked(&step), Question::MountMore);
    session.resume(Reply::Answer(true));
    session.resume(Reply::Text("/boot".to_string()));
    let step = session.resume(Reply::Choice(Some(1)));
    assert_eq!(tried(&step), ("mount".to_string(), words(&["/dev/sda2", "/tmp/r/boot"])));
    match &step.next {
        SessionNext::Ask(Request::Try(attempt)) => assert!(matches!(attempt.recovery, Recovery::OfferSkip)),
        _ => panic!("expected an attempt"),
    }
    let step = session.resume(succeeded());
    assert_eq!(asked(&step), Question::MountMore);
    assert_eq!(session.mounted.list, words(&["abcd", "boot"]));
    session.resume(Reply::Answer(true));
    match session.resume(Reply::Text("SKIP".to_string())).next {
        SessionNext::Ask(Request::Run(c)) => assert_eq!(c.program, "arch-chroot"),
        _ => panic!("expected the change of the root"),
    }
}

#[test]
fn a_pool_is_imported_and_its_datasets_are_mounted() {
    let mut pool = device("/dev/sdb1", "zfs_member", "9999");
    pool.label = Some("tank".to_string());
    let (mut session, _) = begun(vec![pool]);
    session.resume(Reply::Choice(Some(0)));
    let step = session.resume(Reply::Path(Some("/tmp/r".to_string())));
    assert_eq!(tried(&step), ("zpool".to_string(), words(&["import", "9999", "-R", "/tmp/r"])));
    match session.resume(succeeded()).next {
        SessionNext::Ask(Request::ListDatasets(listing)) => {
            assert_eq!(listing.pool, "tank");
            assert!(listing.loaded.list.is_empty());
        },
        _ => panic!("expected the listing of the datasets"),
    }
    assert_eq!(session.opened.pools.len(), 1);
    let mut loaded = Names::new();
    loaded.push("tank/secret".to_string());
    let mut failed = Names::new();
    failed.push("tank/other".to_string());
    let found = DatasetsFound {
        mountable: vec![dataset("tank/root", "no"), dataset("tank/home", "yes"), dataset("tank/var", "no")],
        loaded,
        failed,
        unsupported: true,
    };
    let step = session.resume(Reply::MountableDatasets(found));
    assert_eq!(step.notices, vec![Notice::UnsupportedEncryption, Notice::KeysNotLoaded(1)]);
    match step.next {
        SessionNext::Ask(Request::ChooseDatasets { role, candidates }) => {
            assert_eq!(role, "root");
            assert_eq!(candidates.len(), 3);
        },
        _ => panic!("expected the choice of datasets"),
    }
    assert_eq!(session.opened.keys.list, words(&["tank/secret"]));
    let step = session.resume(Reply::Choices(vec![1, 7, 0, 2]));
    assert_eq!(step.notices, vec![Notice::DatasetAlreadyMounted(0)]);
    assert_eq!(tried(&step), ("zfs".to_string(), words(&["mount", "tank/root"])));
    assert_eq!(session.datasets[1].properties.mounted.value, "yes");
    let step = session.resume(succeeded());
    assert_eq!(tried(&step), ("zfs".to_string(), words(&["mount", "tank/var"])));
    assert_eq!(session.datasets[0].properties.mounted.value, "yes");
    assert_eq!(session.mounted.list, words(&["tank/root-tank"]));
    match session.resume(succeeded()).next {
        SessionNext::Ask(Request::ReadKeyTable { path }) => assert_eq!(path, "/tmp/r/etc/crypttab"),
        _ => panic!("expected the reading of the key aliases"),
    }
    assert_eq!(session.mounted.list, words(&["tank/root-tank", "tank/var-tank"]));
    session.resume(Reply::KeyTable(CryptTabSource::Missing));
    session.resume(Reply::MountTable(None));
    session.resume(Reply::Answer(false));
    let mut commands = Vec::new();
    let mut step = session.resume(Reply::Status(true));
    while let SessionNext::Ask(Request::Try(_)) = &step.next {
        commands.push(tried(&step));
        step = session.resume(succeeded());
    }
    assert!(matches!(step.next, SessionNext::Done));
    assert_eq!(
        commands,
        vec![
            ("umount".to_string(), words(&["-R", "/tmp/r"])),
            ("zfs".to_string(), words(&["unload-key", "tank/secret"])),
            ("zpool".to_string(), words(&["export", "tank"])),
        ]
    );
}

#[test]
fn everything_is_taken_down_in_order_whatever_fails() {
    let mut pool = device("/dev/sdc1", "zfs_member", "9999");
    pool.label = Some("tank".to_string());
    let mut keys = Names::new();
    keys.push("tank/a".to_string());
    keys.push("tank/b".to_string());
    keys.push("tank/c".to_string());
    let mut session = Session::new(Args::default());
    session.root_mount_point = "/tmp/r".to_string();
    session.opened = OpenedResources {
        volumes: vec![device("/dev/sda2", "crypto_LUKS", "1111"), device("/dev/sdb2", "crypto_LUKS", "2222")],
        pools: vec![pool],
        keys,
    };
    session.phase = Phase::Chroot;
    let mut commands = Vec::new();
    let mut notices = Vec::new();
    let mut step = session.resume(Reply::Status(false));
    while let SessionNext::Ask(Request::Try(attempt)) = &step.next {
        assert!(!attempt.fatal);
        commands.push(tried(&step));
        notices.extend(step.notices.clone());
        step = session.resume(Reply::Outcome(Outcome::Failed));
    }
    notices.extend(step.notices.clone());
    assert!(matches!(step.next, SessionNext::Done));
    assert_eq!(
        commands,
        vec![
            ("umount".to_string(), words(&["-R", "/tmp/r"])),
            ("cryptsetup".to_string(), words(&["luksClose", "luks-1111"])),
            ("cryptsetup".to_string(), words(&["luksClose", "luks-2222"])),
            ("zfs".to_string(), words(&["unload-key", "tank/a"])),
            ("zfs".to_string(), words(&["unload-key", "tank/b"])),
            ("zfs".to_string(), words(&["unload-key", "tank/c"])),
            ("zpool".to_string(), words(&["export", "tank"])),
        ]
    );
    assert_eq!(
        notices,
        (0..7).map(Notice::CleanupFailed).collect::<Vec<_>>()
    );
    for k in 0..7 {
        let attempt = teardown_attempt("/tmp/r", &session.opened, k).unwrap();
        assert_eq!((attempt.command.program, attempt.command.args), commands[k].clone());
    }
    assert!(teardown_attempt("/tmp/r", &session.opened, 7).is_none());
}

#[test]
fn a_mount_point_begins_with_the_separator() {
    assert!(is_valid_mount_point("/boot"));
    assert!(is_valid_mount_point("/"));
    assert!(is_valid_mount_point("skip"));
    assert!(is_valid_mount_point("Skip"));
    assert!(!is_valid_mount_point("boot"));
    assert!(!is_valid_mount_point(""));
    assert!(!is_valid_mount_point("skipp"));
}
