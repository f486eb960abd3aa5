use cachyos_chroot::block_device::BlockDevice;
use cachyos_chroot::capability::{AttemptStep, Fatal, Outcome, Reply, Request};
use cachyos_chroot::names::Names;
use cachyos_chroot::zfs::{
    dataset_mount_ended, dataset_unmount_ended, has_unsupported, list_zfs_mountable_datasets,
    mount_zfs_dataset, mountable_datasets, unmount_zfs_dataset, DatasetListingStep, ZFSDataSet,
    ZFSDataSetUtils, ZFSProperties, ZFSProperty,
};

fn property(value: &str) -> ZFSProperty {
    ZFSProperty { value: value.to_string() }
}

fn dataset(name: &str, encryption: &str, keylocation: &str) -> ZFSDataSet {
    ZFSDataSet {
        name: name.to_string(),
        dataset_type: "FILESYSTEM".to_string(),
        pool: "tank".to_string(),
        properties: ZFSProperties {
            canmount: property("on"),
            encryption: property(encryption),
            keylocation: property(keylocation),
            mounted: property("no"),
            mountpoint: property("/"),
        },
    }
}

fn pool() -> BlockDevice {
    BlockDevice {
        name: "/dev/sdb1".to_string(),
        fs_type: "zfs_member".to_string(),
        uuid: "9999".to_string(),
        partuuid: None,
        label: Some("tank".to_string()),
        partlabel: None,
    }
}

fn names(items: &[&str]) -> Names {
    let mut out = Names::new();
    for item in items {
        out.push(item.to_string());
    }
    out
}

fn key_asked(step: &DatasetListingStep) -> String {
    match step {
        DatasetListingStep::Ask(Request::Try(attempt)) => {
            assert_eq!(attempt.command.program, "zfs");
            assert_eq!(attempt.command.args.len(), 2);
            assert_eq!(attempt.command.args[0], "load-key");
            attempt.command.args[1].clone()
        },
        _ => panic!("expected the loading of a key"),
    }
}

#[test]
fn the_properties_of_a_dataset_are_read_without_regard_to_case() {
    let plain = dataset("tank/a", "off", "none");
    assert!(!plain.is_encrypted());
    assert!(!plain.has_unsupported_encryption());
    assert!(!plain.is_valid_key_root());
    assert!(plain.is_mountable());
    assert!(!plain.is_mounted());
    let secret = dataset("tank/b", "aes-256-gcm", "Prompt");
    assert!(secret.is_encrypted());
    assert!(secret.is_valid_key_root());
    assert!(!secret.has_unsupported_encryption());
    let file = dataset("tank/c", "aes-256-gcm", "file:///etc/key");
    assert!(file.has_unsupported_encryption());
    assert!(!file.is_valid_key_root());
    let upper = dataset("tank/d", "OFF", "NONE");
    assert!(!upper.is_encrypted());
    assert!(!upper.has_unsupported_encryption());
}

#[test]
fn a_dataset_is_mountable_if_it_is_a_filesystem_that_may_be_mounted_somewhere() {
    let mut d = dataset("tank/a", "off", "none");
    assert!(d.is_mountable());
    d.properties.canmount = property("noauto");
    assert!(d.is_mountable());
    d.properties.canmount = property("Off");
    assert!(!d.is_mountable());
    d.properties.canmount = property("on");
    d.properties.mountpoint = property("none");
    assert!(!d.is_mountable());
    d.properties.mountpoint = property("legacy");
    assert!(d.is_mountable());
    d.dataset_type = "VOLUME".to_string();
    assert!(!d.is_mountable());
    d.dataset_type = "filesystem".to_string();
    assert!(d.is_mountable());
}

#[test]
fn marking_changes_the_mount_state_only() {
    let mut d = dataset("tank/a", "off", "none");
    d.mark_as_mounted();
    assert!(d.is_mounted());
    assert_eq!(d.properties.mounted.value, "yes");
    assert_eq!(d.name, "tank/a");
    assert_eq!(d.properties.mountpoint.value, "/");
    d.mark_as_unmounted();
    assert!(!d.is_mounted());
    assert_eq!(d.properties.mounted.value, "no");
    d.properties.mounted = property("YES");
    assert!(d.is_mounted());
}

#[test]
fn a_mounted_dataset_is_not_mounted_again() {
    let mut d = dataset("tank/a", "off", "none");
    d.properties.mounted = property("yes");
    assert!(mount_zfs_dataset(&d, "/tmp/root", true).is_none());
    assert!(mount_zfs_dataset(&d, "/tmp/root", false).is_none());
    assert_eq!(d.properties.mounted.value, "yes");
}

#[test]
fn a_dataset_is_marked_mounted_when_its_mount_succeeds() {
    let mut d = dataset("tank/a", "off", "none");
    let mut attempt = mount_zfs_dataset(&d, "/tmp/root", false).unwrap();
    match attempt.start() {
        AttemptStep::Ask(Request::Run(c)) => {
            assert_eq!(c.program, "zfs");
            assert_eq!(c.args, vec!["mount".to_string(), "tank/a".to_string()]);
        },
        _ => panic!("expected the mount"),
    }
    assert!(matches!(attempt.resume(Reply::Status(false)), AttemptStep::Abort(Fatal::CommandFailed)));
    dataset_mount_ended(&mut d, Outcome::Skipped);
    assert!(!d.is_mounted());
    dataset_mount_ended(&mut d, Outcome::Failed);
    assert!(!d.is_mounted());
    dataset_mount_ended(&mut d, Outcome::Succeeded);
    assert!(d.is_mounted());
    let mut graceful = mount_zfs_dataset(&dataset("tank/b", "off", "none"), "/tmp/root", true).unwrap();
    graceful.start();
    assert!(matches!(graceful.resume(Reply::Status(false)), AttemptStep::Ask(Request::Confirm { .. })));
    assert!(matches!(graceful.resume(Reply::Answer(true)), AttemptStep::Done(Outcome::Skipped)));
}

#[test]
fn a_failed_unmount_leaves_the_dataset_mounted() {
    let mut d = dataset("tank/a", "off", "none");
    d.mark_as_mounted();
    let mut attempt = unmount_zfs_dataset(&d);
    match attempt.start() {
        AttemptStep::Ask(Request::Run(c)) => {
            assert_eq!(c.args, vec!["unmount".to_string(), "tank/a".to_string()])
        },
        _ => panic!("expected the unmount"),
    }
    assert!(matches!(attempt.resume(Reply::Status(false)), AttemptStep::Done(Outcome::Failed)));
    let mut mounted = names(&["abcd", "tank/a-tank", "tank/b-tank"]);
    dataset_unmount_ended(&mut d, &mut mounted, Outcome::Failed);
    assert!(d.is_mounted());
    assert_eq!(mounted.len(), 3);
    dataset_unmount_ended(&mut d, &mut mounted, Outcome::Succeeded);
    assert!(!d.is_mounted());
    assert_eq!(mounted.list, vec!["abcd".to_string(), "tank/b-tank".to_string()]);
}

#[test]
fn the_mountable_datasets_are_filtered_in_order() {
    let mut volume = dataset("tank/vol", "off", "none");
    volume.dataset_type = "VOLUME".to_string();
    let mut hidden = dataset("tank/hidden", "off", "none");
    hidden.properties.canmount = property("off");
    let all = vec![dataset("tank/a", "off", "none"), volume, hidden, dataset("tank/b", "on", "prompt")];
    let kept = mountable_datasets(&all);
    assert_eq!(kept.iter().map(|d| d.name.as_str()).collect::<Vec<_>>(), vec!["tank/a", "tank/b"]);
    assert!(!has_unsupported(&all));
    assert!(has_unsupported(&vec![dataset("tank/k", "on", "file:///k")]));
    assert!(!has_unsupported(&Vec::new()));
}

#[test]
fn keys_are_loaded_for_the_datasets_that_ask_the_user() {
    let mut listing = list_zfs_mountable_datasets(&pool(), &Names::new());
    match listing.start() {
        DatasetListingStep::Ask(Request::QueryDatasets(c)) => {
            assert_eq!(c.program, "zfs");
            assert_eq!(
                c.args,
                vec![
                    "list", "-j", "-o", "canmount,encryption,keylocation,mounted,mountpoint",
                    "-t", "filesystem", "-r", "tank"
                ]
            );
        },
        _ => panic!("expected the query"),
    }
    let datasets = vec![
        dataset("tank", "off", "none"),
        dataset("tank/secret", "aes-256-gcm", "prompt"),
        dataset("tank/file", "aes-256-gcm", "file:///k"),
        dataset("tank/other", "aes-256-gcm", "PROMPT"),
    ];
    let step = listing.resume(Reply::Datasets(Some(datasets)));
    assert_eq!(key_asked(&step), "tank/secret");
    let step = listing.resume(Reply::Outcome(Outcome::Succeeded));
    assert_eq!(key_asked(&step), "tank/other");
    match listing.resume(Reply::Outcome(Outcome::Failed)) {
        DatasetListingStep::Done(found) => {
            assert_eq!(found.mountable.len(), 4);
            assert_eq!(found.loaded.list, vec!["tank/secret".to_string()]);
            assert_eq!(found.failed.list, vec!["tank/other".to_string()]);
            assert!(found.unsupported);
        },
        _ => panic!("expected the datasets"),
    }
}

#[test]
fn a_key_that_is_loaded_is_not_asked_for() {
    let mut listing = list_zfs_mountable_datasets(&pool(), &names(&["tank/secret"]));
    listing.start();
    let datasets = vec![
        dataset("tank/secret", "aes-256-gcm", "prompt"),
        dataset("tank/plain", "off", "prompt"),
    ];
    match listing.resume(Reply::Datasets(Some(datasets))) {
        DatasetListingStep::Done(found) => {
            assert_eq!(found.mountable.len(), 2);
            assert_eq!(found.loaded.list, vec!["tank/secret".to_string()]);
            assert!(found.failed.list.is_empty());
            assert!(!found.unsupported);
        },
        _ => panic!("expected no loading of a key"),
    }
}

#[test]
fn a_key_is_loaded_once_for_one_name() {
    let mut listing = list_zfs_mountable_datasets(&pool(), &Names::new());
    listing.start();
    let datasets = vec![
        dataset("tank/secret", "aes-256-gcm", "prompt"),
        dataset("tank/secret", "aes-256-gcm", "prompt"),
    ];
    let step = listing.resume(Reply::Datasets(Some(datasets)));
    assert_eq!(key_asked(&step), "tank/secret");
    assert!(matches!(listing.resume(Reply::Outcome(Outcome::Succeeded)), DatasetListingStep::Done(_)));
}

#[test]
fn datasets_that_cannot_be_listed_end_the_session() {
    let mut listing = list_zfs_mountable_datasets(&pool(), &Names::new());
    listing.start();
    assert!(matches!(listing.resume(Reply::Datasets(None)), DatasetListingStep::Abort(Fatal::ListingFailed)));
    let mut early = list_zfs_mountable_datasets(&pool(), &Names::new());
    assert!(matches!(
        early.resume(Reply::Datasets(Some(Vec::new()))),
        DatasetListingStep::Abort(Fatal::UnexpectedReply)
    ));
}

#[test]
fn names_are_kept_in_order() {
    let mut all = Names::new();
    assert_eq!(all.len(), 0);
    assert!(!all.contains("a"));
    all.push("a".to_string());
    assert!(all.insert("b".to_string()));
    assert!(!all.insert("a".to_string()));
    all.push("a".to_string());
    assert_eq!(all.list, vec!["a".to_string(), "b".to_string(), "a".to_string()]);
    assert_eq!(all.get(1), Some(&"b".to_string()));
    assert_eq!(all.get(3), None);
    assert!(all.contains("b"));
    let copy = all.clone();
    all.remove("a");
    assert_eq!(all.list, vec!["b".to_string()]);
    assert_eq!(copy.len(), 3);
    all.remove("x");
    assert_eq!(all.list, vec!["b".to_string()]);
}

#[test]
fn a_listing_of_datasets_begins_once() {
    let mut listing = list_zfs_mountable_datasets(&pool(), &Names::new());
    assert!(matches!(listing.start(), DatasetListingStep::Ask(Request::QueryDatasets(_))));
    assert!(matches!(listing.start(), DatasetListingStep::Abort(Fatal::UnexpectedReply)));
}
