use cachyos_chroot::block_device::BlockDevice;
use cachyos_chroot::capability::{
    Attempt, AttemptStage, AttemptStep, Command, Fatal, Outcome, Question, Recovery, Reply,
    Request,
};
use cachyos_chroot::luks::{close_device, mapped_name_of, open_device};
use cachyos_chroot::mount::{
    actual_mount_point, mount_block_device, subvolume_mount_options, umount_block_device,
};
use cachyos_chroot::zfs::{export_zfs_pool, import_zfs_pool, load_zfs_key, unload_zfs_key};

fn device(name: &str, fs_type: &str, uuid: &str) -> BlockDevice {
    BlockDevice {
        name: name.to_string(),
        fs_type: fs_type.to_string(),
        uuid: uuid.to_string(),
        partuuid: None,
        label: None,
        partlabel: None,
    }
}

fn words(items: &[&str]) -> Vec<String> {
    items.iter().map(|s| s.to_string()).collect()
}

fn run_of(step: AttemptStep) -> (String, Vec<String>) {
    match step {
        AttemptStep::Ask(Request::Run(c)) => (c.program, c.args),
        _ => panic!("expected a command"),
    }
}

fn question_of(step: AttemptStep) -> (Question, String) {
    match step {
        AttemptStep::Ask(Request::Confirm { question, subject }) => (question, subject),
        _ => panic!("expected a question"),
    }
}

#[test]
fn commands_are_built_argument_by_argument() {
    let c = Command::new("mount").arg("a").args(&words(&["-o", "ro"])).arg("b");
    assert_eq!(c.program, "mount");
    assert_eq!(c.args, words(&["a", "-o", "ro", "b"]));
    let d = c.clone();
    assert_eq!(d.program, "mount");
    assert_eq!(d.args, c.args);
    assert_eq!(Command::new("x").args(&Vec::new()).args, Vec::<String>::new());
}

#[test]
fn a_mount_without_options_has_two_arguments() {
    let d = device("/dev/sda1", "ext4", "abcd");
    let mut attempt = mount_block_device(&d, "/tmp/root", false, None);
    assert_eq!(attempt.stage, AttemptStage::Ready);
    assert!(attempt.fatal);
    assert_eq!(run_of(attempt.start()), ("mount".to_string(), words(&["/dev/sda1", "/tmp/root"])));
    assert!(matches!(attempt.resume(Reply::Status(true)), AttemptStep::Done(Outcome::Succeeded)));
    assert_eq!(attempt.stage, AttemptStage::Finished);
}

#[test]
fn a_mount_with_options_carries_them_last() {
    let d = device("/dev/sda2", "btrfs", "abcd");
    let mut attempt = mount_block_device(&d, "/tmp/root/home", true, Some(subvolume_mount_options(257)));
    assert_eq!(
        run_of(attempt.start()),
        ("mount".to_string(), words(&["/dev/sda2", "/tmp/root/home", "-o", "subvolid=257"]))
    );
    assert_eq!(subvolume_mount_options(5), words(&["-o", "subvolid=5"]));
}

#[test]
fn a_failed_root_mount_ends_the_session() {
    let d = device("/dev/sda1", "ext4", "abcd");
    let mut attempt = mount_block_device(&d, "/tmp/root", false, None);
    attempt.start();
    assert!(matches!(attempt.resume(Reply::Status(false)), AttemptStep::Abort(Fatal::CommandFailed)));
}

#[test]
fn a_failed_mount_can_be_skipped_where_that_is_allowed() {
    let d = device("/dev/sda3", "ext4", "abcd");
    let mut attempt = mount_block_device(&d, "/tmp/root/boot", true, None);
    attempt.start();
    assert_eq!(
        question_of(attempt.resume(Reply::Status(false))),
        (Question::SkipFailedMount, "/dev/sda3".to_string())
    );
    assert!(matches!(attempt.resume(Reply::Answer(true)), AttemptStep::Done(Outcome::Skipped)));

    let mut refused = mount_block_device(&d, "/tmp/root/boot", true, None);
    refused.start();
    refused.resume(Reply::Status(false));
    assert!(matches!(refused.resume(Reply::Answer(false)), AttemptStep::Abort(Fatal::CommandFailed)));
}

#[test]
fn unmounting_is_recursive_on_request_and_never_fatal() {
    let mut whole = umount_block_device("/tmp/root", true);
    assert_eq!(run_of(whole.start()), ("umount".to_string(), words(&["-R", "/tmp/root"])));
    assert!(matches!(whole.resume(Reply::Status(false)), AttemptStep::Done(Outcome::Failed)));
    let mut one = umount_block_device("/tmp/m", false);
    assert_eq!(run_of(one.start()), ("umount".to_string(), words(&["/tmp/m"])));
    assert!(matches!(one.resume(Reply::Status(true)), AttemptStep::Done(Outcome::Succeeded)));
}

#[test]
fn the_mount_path_lies_under_the_root() {
    assert_eq!(actual_mount_point("/tmp/root", "/boot"), "/tmp/root/boot");
    assert_eq!(actual_mount_point("/tmp/root", "/boot/efi"), "/tmp/root/boot/efi");
    assert_eq!(actual_mount_point("/tmp/root", "/"), "/tmp/root/");
    assert_eq!(actual_mount_point("/tmp/root", "//var"), "/tmp/root/var");
    assert_eq!(actual_mount_point("/tmp/root/", "/home"), "/tmp/root/home");
    assert_eq!(actual_mount_point("/tmp/root", "none"), "/tmp/root/none");
}

#[test]
fn a_volume_is_opened_under_a_name_made_of_its_uuid() {
    let d = device("/dev/sda2", "crypto_LUKS", "1111-2222");
    assert_eq!(mapped_name_of(&d), "luks-1111-2222");
    let mut open = open_device(&d);
    assert_eq!(
        run_of(open.start()),
        ("cryptsetup".to_string(), words(&["luksOpen", "/dev/sda2", "luks-1111-2222"]))
    );
    assert!(matches!(open.resume(Reply::Status(false)), AttemptStep::Abort(Fatal::CommandFailed)));
    let mut close = close_device(&d);
    assert_eq!(run_of(close.start()), ("cryptsetup".to_string(), words(&["luksClose", "luks-1111-2222"])));
    assert!(matches!(close.resume(Reply::Status(false)), AttemptStep::Done(Outcome::Failed)));
}

#[test]
fn an_import_is_forced_once_on_request() {
    let mut d = device("/dev/sdb1", "zfs_member", "9999");
    d.label = Some("tank".to_string());
    let mut attempt = import_zfs_pool(&d, "/tmp/root");
    assert_eq!(run_of(attempt.start()), ("zpool".to_string(), words(&["import", "9999", "-R", "/tmp/root"])));
    assert_eq!(
        question_of(attempt.resume(Reply::Status(false))),
        (Question::ForceImport, "tank".to_string())
    );
    assert_eq!(
        run_of(attempt.resume(Reply::Answer(true))),
        ("zpool".to_string(), words(&["import", "9999", "-f", "-R", "/tmp/root"]))
    );
    assert!(matches!(attempt.resume(Reply::Status(false)), AttemptStep::Abort(Fatal::CommandFailed)));

    let mut forced = import_zfs_pool(&d, "/tmp/root");
    forced.start();
    forced.resume(Reply::Status(false));
    forced.resume(Reply::Answer(true));
    assert!(matches!(forced.resume(Reply::Status(true)), AttemptStep::Done(Outcome::Succeeded)));

    let mut declined = import_zfs_pool(&d, "/tmp/root");
    declined.start();
    declined.resume(Reply::Status(false));
    assert!(matches!(declined.resume(Reply::Answer(false)), AttemptStep::Abort(Fatal::CommandFailed)));
}

#[test]
fn a_failed_export_is_reported_and_not_fatal() {
    let mut d = device("/dev/sdb1", "zfs_member", "9999");
    d.label = Some("tank".to_string());
    let mut attempt = export_zfs_pool(&d);
    assert_eq!(run_of(attempt.start()), ("zpool".to_string(), words(&["export", "tank"])));
    assert_eq!(question_of(attempt.resume(Reply::Status(false))).0, Question::ForceExport);
    assert_eq!(
        run_of(attempt.resume(Reply::Answer(true))),
        ("zpool".to_string(), words(&["export", "-f", "tank"]))
    );
    assert!(matches!(attempt.resume(Reply::Status(false)), AttemptStep::Done(Outcome::Failed)));

    let mut declined = export_zfs_pool(&d);
    declined.start();
    declined.resume(Reply::Status(false));
    assert!(matches!(declined.resume(Reply::Answer(false)), AttemptStep::Done(Outcome::Failed)));
}

#[test]
fn a_key_is_asked_for_until_it_loads_or_the_user_declines() {
    let mut attempt = load_zfs_key("tank/secret");
    assert_eq!(run_of(attempt.start()), ("zfs".to_string(), words(&["load-key", "tank/secret"])));
    for _ in 0..3 {
        assert_eq!(
            question_of(attempt.resume(Reply::Status(false))),
            (Question::RetryPassphrase, "tank/secret".to_string())
        );
        assert_eq!(
            run_of(attempt.resume(Reply::Answer(true))),
            ("zfs".to_string(), words(&["load-key", "tank/secret"]))
        );
    }
    assert!(matches!(attempt.resume(Reply::Status(true)), AttemptStep::Done(Outcome::Succeeded)));

    let mut declined = load_zfs_key("tank/secret");
    declined.start();
    declined.resume(Reply::Status(false));
    assert!(matches!(declined.resume(Reply::Answer(false)), AttemptStep::Done(Outcome::Failed)));

    let mut unload = unload_zfs_key("tank/secret");
    assert_eq!(run_of(unload.start()), ("zfs".to_string(), words(&["unload-key", "tank/secret"])));
    assert!(matches!(unload.resume(Reply::Status(false)), AttemptStep::Done(Outcome::Failed)));
}

#[test]
fn a_reply_that_answers_nothing_aborts() {
    let mut attempt = Attempt::new(Command::new("true"), Recovery::OfferSkip, Question::SkipFailedMount, "x", false);
    assert!(matches!(attempt.resume(Reply::Status(true)), AttemptStep::Abort(Fatal::UnexpectedReply)));
    let mut other = Attempt::new(Command::new("true"), Recovery::OfferSkip, Question::SkipFailedMount, "x", false);
    other.start();
    assert!(matches!(other.resume(Reply::Answer(true)), AttemptStep::Abort(Fatal::UnexpectedReply)));
    let mut late = Attempt::new(Command::new("true"), Recovery::GiveUp, Question::SkipFailedMount, "x", false);
    late.start();
    late.resume(Reply::Status(true));
    assert!(matches!(late.resume(Reply::Status(true)), AttemptStep::Abort(Fatal::UnexpectedReply)));
}

#[test]
fn an_attempt_begins_once() {
    let d = device("/dev/sda1", "ext4", "abcd");
    let mut attempt = mount_block_device(&d, "/tmp/root", true, None);
    assert!(matches!(attempt.start(), AttemptStep::Ask(Request::Run(_))));
    assert!(matches!(attempt.start(), AttemptStep::Abort(Fatal::UnexpectedReply)));
    assert_eq!(attempt.stage, AttemptStage::Finished);
}
