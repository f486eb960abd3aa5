//! Encrypted volumes: opening and closing them under a name derived from
//! their uuid, and reading the table of key aliases.
use crate::block_device::{BlockDevice, BlockDeviceView};
use crate::capability::{
    fresh_attempt, Attempt, AttemptView, Command, CommandView, Question, Recovery, RecoveryView,
};
use crate::table::Table;
use crate::text::{
    chars_of, chars_start_with, fields, lines, slice_string, split_lines, split_whitespace,
};
use vstd::prelude::*;
use vstd::string::*;

verus! {

/// The key aliases of a root: from the configured name of a mapping to the
/// bare reference of the device behind it.
pub type CryptTab = Table<String>;

/// The name under which the volume with this uuid is mapped once it is open.
pub open spec fn mapped_name(uuid: Seq<char>) -> Seq<char> {
    "luks-"@ + uuid
}

/// The command that opens the encrypted volume `e`.
pub open spec fn open_command(e: BlockDeviceView) -> CommandView {
    CommandView { program: "cryptsetup"@, args: seq!["luksOpen"@, e.name, mapped_name(e.uuid)] }
}

/// The command that closes the encrypted volume `e`.
pub open spec fn close_command(e: BlockDeviceView) -> CommandView {
    CommandView { program: "cryptsetup"@, args: seq!["luksClose"@, mapped_name(e.uuid)] }
}

/// The attempt to open the encrypted volume `e` under its mapped name. A
/// failure ends the session.
pub open spec fn open_attempt(e: BlockDeviceView) -> AttemptView {
    fresh_attempt(
        open_command(e),
        RecoveryView::GiveUp,
        Question::SkipFailedMount,
        e.name,
        true,
    )
}

/// The attempt to close the encrypted volume `e`. A failure is reported and
/// the session goes on.
pub open spec fn close_attempt(e: BlockDeviceView) -> AttemptView {
    fresh_attempt(
        close_command(e),
        RecoveryView::GiveUp,
        Question::SkipFailedMount,
        e.name,
        false,
    )
}

/// The name under which `device` is mapped once it is open.
pub fn mapped_name_of(device: &BlockDevice) -> (out: String)
    ensures
        out@ == mapped_name(device@.uuid),
{
    let mut out = "luks-".to_owned();
    out.append(device.uuid.as_str());
    out
}

/// The attempt to open the encrypted volume `device` under its mapped name.
/// A failure ends the session.
pub fn open_device(device: &BlockDevice) -> (out: Attempt)
    ensures
        out@ == open_attempt(device@),
{
    let mapped = mapped_name_of(device);
    let command = Command::new("cryptsetup").arg("luksOpen").arg(device.name.as_str()).arg(
        mapped.as_str(),
    );
    assert(command@.args =~= open_command(device@).args);
    Attempt::new(command, Recovery::GiveUp, Question::SkipFailedMount, device.name.as_str(), true)
}

/// The attempt to close the encrypted volume `device`. A failure is reported
/// and the session goes on.
pub fn close_device(device: &BlockDevice) -> (out: Attempt)
    ensures
        out@ == close_attempt(device@),
{
    let mapped = mapped_name_of(device);
    let command = Command::new("cryptsetup").arg("luksClose").arg(mapped.as_str());
    assert(command@.args =~= close_command(device@).args);
    Attempt::new(
        command,
        Recovery::GiveUp,
        Question::SkipFailedMount,
        device.name.as_str(),
        false,
    )
}

/// What there is of the table of key aliases.
pub enum CryptTabSource {
    /// The file does not exist.
    Missing,
    /// The file exists and could not be read.
    Unreadable,
    /// The text of the file.
    Contents(String),
}

/// What a line of the table says.
pub enum AliasLine {
    /// Nothing: the line is a comment.
    Comment,
    /// Nothing that can be used: the line has fewer than two fields.
    Malformed,
    /// The name and the bare reference of a mapping.
    Entry(Seq<char>, Seq<char>),
}

/// The tag that a reference in the table may begin with.
pub open spec fn alias_tag() -> Seq<char> {
    "UUID="@
}

/// The reference without the tag, if it begins with it.
pub open spec fn bare_reference(r: Seq<char>) -> Seq<char> {
    if alias_tag().is_prefix_of(r) {
        r.skip(alias_tag().len() as int)
    } else {
        r
    }
}

/// What the line says: a line that begins with `#` is a comment; any other is
/// read by its fields, the first the name and the second the reference.
pub open spec fn alias_line(line: Seq<char>) -> AliasLine {
    if line.len() > 0 && line[0] == '#' {
        AliasLine::Comment
    } else if fields(line).len() < 2 {
        AliasLine::Malformed
    } else {
        AliasLine::Entry(fields(line)[0], bare_reference(fields(line)[1]))
    }
}

/// The key aliases that the lines give; of two lines with the same name the
/// later one counts.
pub open spec fn aliases_of(text: Seq<Seq<char>>) -> Map<Seq<char>, Seq<char>>
    decreases text.len(),
{
    if text.len() == 0 {
        Map::empty()
    } else {
        match alias_line(text.last()) {
            AliasLine::Entry(name, reference) => aliases_of(text.drop_last()).insert(
                name,
                reference,
            ),
            _ => aliases_of(text.drop_last()),
        }
    }
}

/// The indices of the lines that are malformed, in their order.
pub open spec fn malformed_of(text: Seq<Seq<char>>) -> Seq<usize>
    decreases text.len(),
{
    if text.len() == 0 {
        seq![]
    } else if alias_line(text.last()) is Malformed {
        malformed_of(text.drop_last()).push((text.len() - 1) as usize)
    } else {
        malformed_of(text.drop_last())
    }
}

/// What was read of the table of key aliases.
pub struct CryptTabReport {
    /// The key aliases.
    pub entries: CryptTab,
    /// The file is missing although the root is encrypted: worth a warning.
    pub warn_missing: bool,
    /// The file could not be read: worth an error message.
    pub unreadable: bool,
    /// The indices of the lines that were skipped as malformed.
    pub malformed: Vec<usize>,
}

fn strip_alias_tag(reference: &str) -> (out: String)
    ensures
        out@ == bare_reference(reference@),
{
    let r = chars_of(reference);
    let tag = chars_of("UUID=");
    if chars_start_with(&r, &tag) {
        slice_string(reference, tag.len(), r.len())
    } else {
        reference.to_owned()
    }
}

/// Reads the table of key aliases. A missing table is empty, and worth a
/// warning only where the root is encrypted; one that cannot be read is
/// empty too. Comments are passed over, lines with fewer than two fields are
/// skipped and reported, and the reference of every other line is kept
/// without its tag.
pub fn list_crypttab_entries(source: &CryptTabSource, has_luks_on_root: bool) -> (out:
    CryptTabReport)
    ensures
        match source {
            CryptTabSource::Missing => {
                &&& out.entries@ == Map::<Seq<char>, Seq<char>>::empty()
                &&& out.malformed@ == Seq::<usize>::empty()
                &&& out.warn_missing == has_luks_on_root
                &&& !out.unreadable
            },
            CryptTabSource::Unreadable => {
                &&& out.entries@ == Map::<Seq<char>, Seq<char>>::empty()
                &&& out.malformed@ == Seq::<usize>::empty()
                &&& !out.warn_missing
                &&& out.unreadable
            },
            CryptTabSource::Contents(text) => {
                &&& out.entries@ == aliases_of(lines(text@))
                &&& out.malformed@ == malformed_of(lines(text@))
                &&& !out.warn_missing
                &&& !out.unreadable
            },
        },
{
    let mut entries: CryptTab = Table::new();
    let mut malformed: Vec<usize> = Vec::new();
    match source {
        CryptTabSource::Missing => CryptTabReport {
            entries,
            warn_missing: has_luks_on_root,
            unreadable: false,
            malformed,
        },
        CryptTabSource::Unreadable => CryptTabReport {
            entries,
            warn_missing: false,
            unreadable: true,
            malformed,
        },
        CryptTabSource::Contents(text) => {
            let all = split_lines(text.as_str());
            let mut i: usize = 0;
            while i < all.len()
                invariant
                    i <= all.len(),
                    entries@ == aliases_of(all.deep_view().take(i as int)),
                    malformed@ == malformed_of(all.deep_view().take(i as int)),
                decreases all.len() - i,
            {
                assert(all.deep_view().take(i + 1).drop_last() =~= all.deep_view().take(i as int));
                let line = all[i].as_str();
                if !(line.unicode_len() > 0 && line.get_char(0) == '#') {
                    let parts = split_whitespace(line);
                    if parts.len() < 2 {
                        malformed.push(i);
                    } else {
                        entries.insert(parts[0].clone(), strip_alias_tag(parts[1].as_str()));
                    }
                }
                i += 1;
            }
            assert(all.deep_view().take(i as int) =~= all.deep_view());
            CryptTabReport { entries, warn_missing: false, unreadable: false, malformed }
        },
    }
}

} // verus!
