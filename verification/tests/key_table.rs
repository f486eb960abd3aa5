use cachyos_chroot::luks::{list_crypttab_entries, CryptTabSource};

fn contents(text: &str) -> CryptTabSource {
    CryptTabSource::Contents(text.to_string())
}

#[test]
fn aliases_are_read_without_their_tag() {
    let text = "# <name> <device> <password> <options>\nluks-root UUID=1111-2222 none luks\nswap /dev/sda3 /dev/urandom swap\n";
    let report = list_crypttab_entries(&contents(text), true);
    assert_eq!(report.entries.get("luks-root"), Some(&"1111-2222".to_string()));
    assert_eq!(report.entries.get("swap"), Some(&"/dev/sda3".to_string()));
    assert!(report.entries.get("#").is_none());
    assert!(report.entries.get("UUID=1111-2222").is_none());
    assert!(report.malformed.is_empty());
    assert!(!report.warn_missing);
    assert!(!report.unreadable);
}

#[test]
fn the_tag_is_taken_off_once() {
    let report = list_crypttab_entries(&contents("a UUID=UUID=x\nb uuid=y\nc PARTUUID=z\nd UUID=\n"), false);
    assert_eq!(report.entries.get("a"), Some(&"UUID=x".to_string()));
    assert_eq!(report.entries.get("b"), Some(&"uuid=y".to_string()));
    assert_eq!(report.entries.get("c"), Some(&"PARTUUID=z".to_string()));
    assert_eq!(report.entries.get("d"), Some(&"".to_string()));
}

#[test]
fn malformed_lines_are_skipped_and_reported() {
    let text = "one\n\n# comment\n  two UUID=2 \n   \nthree\t/dev/x\n #not-a-comment x\n";
    let report = list_crypttab_entries(&contents(text), false);
    assert_eq!(report.malformed, vec![0, 1, 4]);
    assert_eq!(report.entries.get("two"), Some(&"2".to_string()));
    assert_eq!(report.entries.get("three"), Some(&"/dev/x".to_string()));
    assert_eq!(report.entries.get("#not-a-comment"), Some(&"x".to_string()));
    assert!(report.entries.get("one").is_none());
}

#[test]
fn of_two_lines_with_one_name_the_later_counts() {
    let report = list_crypttab_entries(&contents("a UUID=1\nb UUID=2\na UUID=3\n"), false);
    assert_eq!(report.entries.get("a"), Some(&"3".to_string()));
    assert_eq!(report.entries.get("b"), Some(&"2".to_string()));
}

#[test]
fn a_missing_table_is_worth_a_warning_only_with_an_encrypted_root() {
    let with = list_crypttab_entries(&CryptTabSource::Missing, true);
    assert!(with.warn_missing);
    assert!(!with.unreadable);
    assert!(with.entries.get("a").is_none());
    assert!(with.malformed.is_empty());
    let without = list_crypttab_entries(&CryptTabSource::Missing, false);
    assert!(!without.warn_missing);
    assert!(!without.unreadable);
}

#[test]
fn an_unreadable_table_is_empty() {
    let report = list_crypttab_entries(&CryptTabSource::Unreadable, true);
    assert!(report.unreadable);
    assert!(!report.warn_missing);
    assert!(report.entries.get("a").is_none());
    assert!(report.malformed.is_empty());
}

#[test]
fn an_empty_table_has_no_line() {
    let report = list_crypttab_entries(&contents(""), true);
    assert!(report.malformed.is_empty());
    assert!(!report.warn_missing);
    let blank = list_crypttab_entries(&contents("\n"), true);
    assert_eq!(blank.malformed, vec![0]);
}
