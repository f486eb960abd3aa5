use cachyos_chroot::block_device::{BTRFSSubVolume, BlockDevice};
use cachyos_chroot::btrfs::{
    choose_subvolume, find_named, get_btrfs_subvolume, keep_listing, list_subvolumes,
    parse_subvolume_listing, ListingError, ListingStep, ResolverStep, SubvolumeCache,
    SubvolumeChoice, ROOT_SUBVOLUME_ID,
};
use cachyos_chroot::capability::{Fatal, Question, Reply, Request};
use cachyos_chroot::table::Table;

const LISTING: &str = "ID\tgen\ttop level\tpath\t\n--\t---\t---------\t----\t\n256\t100\t5\t\t@\n257\t101\t5\t\t@home\n258\t50\t5\t\t.snapshots/1/snapshot\n";

fn device(name: &str, uuid: &str) -> BlockDevice {
    BlockDevice {
        name: name.to_string(),
        fs_type: "btrfs".to_string(),
        uuid: uuid.to_string(),
        partuuid: None,
        label: None,
        partlabel: None,
    }
}

fn subvolume(d: &BlockDevice, id: usize, name: &str) -> BTRFSSubVolume {
    BTRFSSubVolume::new(d.clone(), id, name.to_string())
}

fn three(d: &BlockDevice) -> Vec<BTRFSSubVolume> {
    vec![subvolume(d, 5, "/"), subvolume(d, 256, "@"), subvolume(d, 257, "@home")]
}

fn pairs(found: &Vec<BTRFSSubVolume>) -> Vec<(usize, String)> {
    found.iter().map(|v| (v.subvolume_id, v.subvolume_name.clone())).collect()
}

fn command_of(request: &Request) -> (String, Vec<String>) {
    match request {
        Request::Run(c) | Request::Capture(c) => (c.program.clone(), c.args.clone()),
        _ => panic!("no command"),
    }
}

#[test]
fn a_listing_is_read_after_its_header() {
    let d = device("/dev/sda2", "abcd");
    let found = parse_subvolume_listing(&d, LISTING, false).unwrap();
    assert_eq!(
        pairs(&found),
        vec![(5, "/".to_string()), (256, "@".to_string()), (257, "@home".to_string())]
    );
    assert!(found.iter().all(|v| v.device.uuid == "abcd" && v.device.name == "/dev/sda2"));
    assert_eq!(ROOT_SUBVOLUME_ID, 5);
}

#[test]
fn snapshots_are_listed_only_on_request() {
    let d = device("/dev/sda2", "abcd");
    let found = parse_subvolume_listing(&d, LISTING, true).unwrap();
    assert_eq!(found.len(), 4);
    assert_eq!(found[3].subvolume_id, 258);
    assert_eq!(found[3].subvolume_name, ".snapshots/1/snapshot");
    let hidden = parse_subvolume_listing(&d, "h\nh\n300 1 5 .snapshots\n301 1 5 x.snapshots\n", false).unwrap();
    assert_eq!(pairs(&hidden), vec![(5, "/".to_string()), (301, "x.snapshots".to_string())]);
}

#[test]
fn a_listing_without_rows_has_the_top_level_only() {
    let d = device("/dev/sda2", "abcd");
    let found = parse_subvolume_listing(&d, "ID gen top level path\n-- --- --------- ----\n", false).unwrap();
    assert_eq!(pairs(&found), vec![(5, "/".to_string())]);
}

#[test]
fn lines_that_are_no_rows_are_passed_over() {
    let d = device("/dev/sda2", "abcd");
    let text = "\n\n  h1\nh2\n256 1 5 @\n\nthree fields only\n1 2 3 4 5\n+257 1 5 @home\n";
    let found = parse_subvolume_listing(&d, text, false).unwrap();
    assert_eq!(
        pairs(&found),
        vec![(5, "/".to_string()), (256, "@".to_string()), (257, "@home".to_string())]
    );
}

#[test]
fn a_listing_needs_its_header() {
    let d = device("/dev/sda2", "abcd");
    assert_eq!(parse_subvolume_listing(&d, "", false).err(), Some(ListingError::MissingHeader));
    assert_eq!(parse_subvolume_listing(&d, "  \n \n", false).err(), Some(ListingError::MissingHeader));
    assert_eq!(
        parse_subvolume_listing(&d, "256 1 5 @", false).err(),
        Some(ListingError::MissingHeader)
    );
}

#[test]
fn a_row_needs_a_number() {
    let d = device("/dev/sda2", "abcd");
    assert_eq!(
        parse_subvolume_listing(&d, "h\nh\nx 1 5 @\n", false).err(),
        Some(ListingError::InvalidId)
    );
    assert_eq!(
        parse_subvolume_listing(&d, "h\nh\n256 1 5 @\n-1 1 5 @home\n257 1 5 @var\n", false).err(),
        Some(ListingError::InvalidId)
    );
    assert!(parse_subvolume_listing(&d, "h\nh\nx 1 5 .snapshots/1\n", false).is_ok());
    assert_eq!(
        parse_subvolume_listing(&d, "h\nh\nx 1 5 .snapshots/1\n", true).err(),
        Some(ListingError::InvalidId)
    );
}

#[test]
fn a_listing_mounts_lists_unmounts_and_releases() {
    let d = device("/dev/sda2", "abcd");
    let mut listing = list_subvolumes(&d, false);
    match listing.start() {
        ListingStep::Ask(Request::AcquireMountPoint { prefix }) => {
            assert_eq!(prefix, "cachyos-chroot-temp-mount-abcd-")
        },
        _ => panic!("expected the request for a directory"),
    }
    match listing.resume(Reply::Path(Some("/tmp/m".to_string()))) {
        ListingStep::Ask(request) => {
            assert!(matches!(request, Request::Run(_)));
            assert_eq!(
                command_of(&request),
                ("mount".to_string(), vec!["/dev/sda2".to_string(), "/tmp/m".to_string()])
            );
        },
        _ => panic!("expected the mount"),
    }
    match listing.resume(Reply::Status(true)) {
        ListingStep::Ask(request) => {
            assert!(matches!(request, Request::Capture(_)));
            assert_eq!(
                command_of(&request),
                (
                    "btrfs".to_string(),
                    vec!["subvolume".to_string(), "list".to_string(), "-t".to_string(), "/tmp/m".to_string()]
                )
            );
        },
        _ => panic!("expected the listing"),
    }
    match listing.resume(Reply::Output(Some(LISTING.to_string()))) {
        ListingStep::Ask(request) => {
            assert!(matches!(request, Request::Run(_)));
            assert_eq!(command_of(&request), ("umount".to_string(), vec!["/tmp/m".to_string()]));
        },
        _ => panic!("expected the unmount"),
    }
    match listing.resume(Reply::Status(true)) {
        ListingStep::Ask(Request::ReleaseMountPoint { path }) => assert_eq!(path, "/tmp/m"),
        _ => panic!("expected the release"),
    }
    match listing.resume(Reply::Status(true)) {
        ListingStep::Done(found) => assert_eq!(
            pairs(&found),
            vec![(5, "/".to_string()), (256, "@".to_string()), (257, "@home".to_string())]
        ),
        _ => panic!("expected the subvolumes"),
    }
    assert!(matches!(listing.resume(Reply::Status(true)), ListingStep::Abort(Fatal::UnexpectedReply)));
}

#[test]
fn a_listing_that_cannot_be_read_still_unmounts_and_releases() {
    for (reply, fatal) in [
        (Reply::Output(Some("h\nh\nbad 1 5 @\n".to_string())), Fatal::MalformedListing),
        (Reply::Output(Some("".to_string())), Fatal::MalformedListing),
        (Reply::Output(None), Fatal::ListingFailed),
        (Reply::Answer(true), Fatal::UnexpectedReply),
    ] {
        let d = device("/dev/sda2", "abcd");
        let mut listing = list_subvolumes(&d, false);
        listing.start();
        listing.resume(Reply::Path(Some("/tmp/m".to_string())));
        listing.resume(Reply::Status(true));
        match listing.resume(reply) {
            ListingStep::Ask(request) => {
                assert_eq!(command_of(&request), ("umount".to_string(), vec!["/tmp/m".to_string()]))
            },
            _ => panic!("expected the unmount"),
        }
        match listing.resume(Reply::Status(false)) {
            ListingStep::Ask(Request::ReleaseMountPoint { path }) => assert_eq!(path, "/tmp/m"),
            _ => panic!("expected the release"),
        }
        match listing.resume(Reply::Status(false)) {
            ListingStep::Abort(f) => assert_eq!(f, fatal),
            _ => panic!("expected the abort"),
        }
    }
}

#[test]
fn a_listing_whose_mount_fails_releases_and_aborts() {
    let d = device("/dev/sda2", "abcd");
    let mut listing = list_subvolumes(&d, false);
    listing.start();
    listing.resume(Reply::Path(Some("/tmp/m".to_string())));
    match listing.resume(Reply::Status(false)) {
        ListingStep::Ask(Request::ReleaseMountPoint { path }) => assert_eq!(path, "/tmp/m"),
        _ => panic!("expected the release"),
    }
    assert!(matches!(listing.resume(Reply::Status(true)), ListingStep::Abort(Fatal::CommandFailed)));
}

#[test]
fn a_listing_without_a_directory_aborts() {
    let d = device("/dev/sda2", "abcd");
    let mut listing = list_subvolumes(&d, false);
    listing.start();
    assert!(matches!(listing.resume(Reply::Path(None)), ListingStep::Abort(Fatal::NoMountPoint)));
}

#[test]
fn the_choice_of_a_subvolume_follows_the_policy() {
    let d = device("/dev/sda2", "abcd");
    assert_eq!(choose_subvolume(&vec![subvolume(&d, 5, "/")], "root"), SubvolumeChoice::Sole);
    assert_eq!(choose_subvolume(&vec![subvolume(&d, 5, "/")], "/home"), SubvolumeChoice::Sole);
    assert_eq!(choose_subvolume(&three(&d), "root"), SubvolumeChoice::Preset(1));
    assert_eq!(choose_subvolume(&three(&d), "/home"), SubvolumeChoice::Ask);
    assert_eq!(choose_subvolume(&three(&d), "Root"), SubvolumeChoice::Ask);
    let plain = vec![subvolume(&d, 5, "/"), subvolume(&d, 256, "root")];
    assert_eq!(choose_subvolume(&plain, "root"), SubvolumeChoice::Ask);
    assert_eq!(choose_subvolume(&Vec::new(), "root"), SubvolumeChoice::Ask);
    assert_eq!(find_named(&three(&d), "@home"), Some(2));
    assert_eq!(find_named(&three(&d), "@var"), None);
}

#[test]
fn the_root_is_offered_the_customary_subvolume() {
    let d = device("/dev/sda2", "abcd");
    let mut cache: SubvolumeCache = Table::new();
    cache.insert("abcd".to_string(), three(&d));
    let mut resolver = get_btrfs_subvolume(&d, &cache, false, "root");
    match resolver.start() {
        ResolverStep::Ask(Request::Confirm { question, subject }) => {
            assert_eq!(question, Question::UseSubvolumePreset);
            assert_eq!(subject, "@");
        },
        _ => panic!("expected the offer"),
    }
    match resolver.resume(Reply::Answer(true)) {
        ResolverStep::Done(resolution) => {
            assert_eq!(resolution.subvolume.subvolume_id, 256);
            assert_eq!(resolution.subvolume.subvolume_name, "@");
            assert!(!resolution.sole);
            assert!(resolution.listed.is_none());
        },
        _ => panic!("expected the subvolume"),
    }
}

#[test]
fn a_declined_offer_lets_the_user_pick() {
    let d = device("/dev/sda2", "abcd");
    let mut cache: SubvolumeCache = Table::new();
    cache.insert("abcd".to_string(), three(&d));
    let mut resolver = get_btrfs_subvolume(&d, &cache, false, "root");
    resolver.start();
    match resolver.resume(Reply::Answer(false)) {
        ResolverStep::Ask(Request::ChooseSubvolume { role, candidates }) => {
            assert_eq!(role, "root");
            assert_eq!(pairs(&candidates).len(), 3);
        },
        _ => panic!("expected the pick"),
    }
    match resolver.resume(Reply::Choice(Some(2))) {
        ResolverStep::Done(resolution) => {
            assert_eq!(resolution.subvolume.subvolume_id, 257);
            assert!(!resolution.sole);
        },
        _ => panic!("expected the subvolume"),
    }
}

#[test]
fn a_pick_that_is_none_ends_the_session() {
    for reply in [Reply::Choice(None), Reply::Choice(Some(3)), Reply::Answer(true)] {
        let d = device("/dev/sda2", "abcd");
        let mut cache: SubvolumeCache = Table::new();
        cache.insert("abcd".to_string(), three(&d));
        let mut resolver = get_btrfs_subvolume(&d, &cache, false, "/home");
        match resolver.start() {
            ResolverStep::Ask(Request::ChooseSubvolume { role, candidates }) => {
                assert_eq!(role, "/home");
                assert_eq!(candidates.len(), 3);
            },
            _ => panic!("expected the pick"),
        }
        assert!(matches!(resolver.resume(reply), ResolverStep::Abort(Fatal::NoSelection)));
    }
}

#[test]
fn a_sole_subvolume_is_taken() {
    let d = device("/dev/sda2", "abcd");
    let mut cache: SubvolumeCache = Table::new();
    cache.insert("abcd".to_string(), vec![subvolume(&d, 5, "/")]);
    let mut resolver = get_btrfs_subvolume(&d, &cache, false, "root");
    match resolver.start() {
        ResolverStep::Done(resolution) => {
            assert_eq!(resolution.subvolume.subvolume_id, 5);
            assert!(resolution.sole);
            assert!(resolution.listed.is_none());
        },
        _ => panic!("expected the subvolume"),
    }
}

#[test]
fn a_device_is_listed_once_in_a_session() {
    let d = device("/dev/sda2", "abcd");
    let mut cache: SubvolumeCache = Table::new();
    let mut first = get_btrfs_subvolume(&d, &cache, true, "/home");
    match first.start() {
        ResolverStep::Ask(Request::List(listing)) => {
            assert_eq!(listing.device.uuid, "abcd");
            assert!(listing.include_snapshots);
        },
        _ => panic!("expected a listing"),
    }
    match first.resume(Reply::Subvolumes(three(&d))) {
        ResolverStep::Ask(Request::ChooseSubvolume { candidates, .. }) => assert_eq!(candidates.len(), 3),
        _ => panic!("expected the pick"),
    }
    let listed = match first.resume(Reply::Choice(Some(0))) {
        ResolverStep::Done(resolution) => {
            assert_eq!(resolution.subvolume.subvolume_id, 5);
            resolution.listed
        },
        _ => panic!("expected the subvolume"),
    };
    assert_eq!(listed.as_ref().map(|l| l.len()), Some(3));
    keep_listing(&mut cache, &d, listed);
    assert!(cache.contains_key("abcd"));

    let again = device("/dev/other-name", "abcd");
    let mut second = get_btrfs_subvolume(&again, &cache, true, "/srv");
    match second.start() {
        ResolverStep::Ask(Request::ChooseSubvolume { candidates, .. }) => assert_eq!(candidates.len(), 3),
        _ => panic!("expected no listing"),
    }

    let other = device("/dev/sdb1", "efgh");
    let mut third = get_btrfs_subvolume(&other, &cache, true, "/srv");
    match third.start() {
        ResolverStep::Ask(Request::List(listing)) => assert_eq!(listing.device.uuid, "efgh"),
        _ => panic!("expected a listing"),
    }
    keep_listing(&mut cache, &other, None);
    assert!(!cache.contains_key("efgh"));
    keep_listing(&mut cache, &d, Some(vec![subvolume(&d, 5, "/")]));
    assert_eq!(cache.get("abcd").map(|known| known.len()), Some(3));
}

#[test]
fn a_table_keeps_the_latest_value_under_a_key() {
    let mut table: Table<String> = Table::new();
    assert!(table.get("a").is_none());
    table.insert("a".to_string(), "1".to_string());
    table.insert("b".to_string(), "2".to_string());
    table.insert("a".to_string(), "3".to_string());
    assert_eq!(table.get("a"), Some(&"3".to_string()));
    assert_eq!(table.get("b"), Some(&"2".to_string()));
    assert!(table.get("c").is_none());
    assert!(table.contains_key("b"));
    assert!(!table.contains_key(""));
}

#[test]
fn listings_and_resolutions_begin_once() {
    let d = device("/dev/sda2", "abcd");
    let mut listing = list_subvolumes(&d, false);
    assert!(matches!(listing.start(), ListingStep::Ask(Request::AcquireMountPoint { .. })));
    assert!(matches!(listing.start(), ListingStep::Abort(Fatal::UnexpectedReply)));
    let cache: SubvolumeCache = Table::new();
    let mut resolver = get_btrfs_subvolume(&d, &cache, false, "root");
    assert!(matches!(resolver.start(), ResolverStep::Ask(Request::List(_))));
    assert!(matches!(resolver.start(), ResolverStep::Abort(Fatal::UnexpectedReply)));
}
