//! Storage entities, their canonical identities, and the matcher that holds an
//! entity against a device reference of a configuration file.
use crate::text::{
    chars_of, chars_start_with, decimal, lemma_decimal_distinguishes, push_decimal,
    slice_string, str_eq,
};
use vstd::prelude::*;
use vstd::string::*;

verus! {

/// A block device as the system lists it.
pub struct BlockDevice {
    pub name: String,
    pub fs_type: String,
    pub uuid: String,
    pub partuuid: Option<String>,
    pub label: Option<String>,
    pub partlabel: Option<String>,
}

/// What a `BlockDevice` holds, as plain texts.
pub struct BlockDeviceView {
    pub name: Seq<char>,
    pub fs_type: Seq<char>,
    pub uuid: Seq<char>,
    pub partuuid: Option<Seq<char>>,
    pub label: Option<Seq<char>>,
    pub partlabel: Option<Seq<char>>,
}

impl View for BlockDevice {
    type V = BlockDeviceView;

    open spec fn view(&self) -> BlockDeviceView {
        BlockDeviceView {
            name: self.name@,
            fs_type: self.fs_type@,
            uuid: self.uuid@,
            partuuid: self.partuuid.deep_view(),
            label: self.label.deep_view(),
            partlabel: self.partlabel.deep_view(),
        }
    }
}

impl DeepView for BlockDevice {
    type V = BlockDeviceView;

    open spec fn deep_view(&self) -> BlockDeviceView {
        self@
    }
}

/// A subvolume of a copy-on-write filesystem, with the device that holds it.
pub struct BTRFSSubVolume {
    pub device: BlockDevice,
    pub subvolume_id: usize,
    pub subvolume_name: String,
}

/// What a `BTRFSSubVolume` holds, as plain values.
pub struct SubVolumeView {
    pub device: BlockDeviceView,
    pub id: nat,
    pub name: Seq<char>,
}

impl View for BTRFSSubVolume {
    type V = SubVolumeView;

    open spec fn view(&self) -> SubVolumeView {
        SubVolumeView {
            device: self.device@,
            id: self.subvolume_id as nat,
            name: self.subvolume_name@,
        }
    }
}

impl DeepView for BTRFSSubVolume {
    type V = SubVolumeView;

    open spec fn deep_view(&self) -> SubVolumeView {
        self@
    }
}

/// The block devices of one listing.
pub struct BlockDevices {
    pub block_devices: Vec<BlockDevice>,
}

/// The filesystem type of a member of a storage pool. Such a device is known
/// by the pool's name, which it carries as its label.
pub open spec fn pool_member_type() -> Seq<char> {
    "zfs_member"@
}

/// The filesystem type of a copy-on-write filesystem with subvolumes.
pub open spec fn subvolume_type() -> Seq<char> {
    "btrfs"@
}

/// The filesystem type of an encrypted volume that has not been opened.
pub open spec fn encrypted_type() -> Seq<char> {
    "crypto_LUKS"@
}

/// The canonical identity of a device: its uuid, or, for a member of a pool
/// that carries a label, that label.
pub open spec fn device_identity(e: BlockDeviceView) -> Seq<char> {
    if e.fs_type == pool_member_type() && e.label is Some {
        e.label->0
    } else {
        e.uuid
    }
}

/// The canonical identity of a subvolume: that of its device, a hyphen, and
/// the subvolume's number in decimal.
pub open spec fn subvolume_identity(v: SubVolumeView) -> Seq<char> {
    device_identity(v.device) + seq!['-'] + decimal(v.id)
}

/// The line that presents a device to the user.
pub open spec fn device_label(e: BlockDeviceView) -> Seq<char> {
    "Partition: "@ + e.name + ": FS: "@ + e.fs_type + " UUID: "@ + e.uuid
}

/// The line that presents a subvolume to the user.
pub open spec fn subvolume_label(v: SubVolumeView) -> Seq<char> {
    "["@ + v.device.name + "] BTRFS Subvolume: "@ + v.name + ": SubVol ID: "@ + decimal(v.id)
}

/// What the entities of a session have in common: a canonical identity, by
/// which the session knows what it has mounted, and a line that presents the
/// entity to the user.
pub trait BlockOrSubvolumeID {
    /// The canonical identity, as a text.
    spec fn identity(&self) -> Seq<char>;

    /// The presenting line, as a text.
    spec fn label(&self) -> Seq<char>;

    /// The canonical identity.
    fn get_id(&self) -> (id: String)
        ensures
            id@ == self.identity(),
    ;

    /// The presenting line.
    fn display_label(&self) -> (line: String)
        ensures
            line@ == self.label(),
    ;
}

fn clone_optional(s: &Option<String>) -> (out: Option<String>)
    ensures
        out == *s,
{
    match s {
        Some(text) => Some(text.clone()),
        None => None,
    }
}

impl Clone for BlockDevice {
    fn clone(&self) -> (out: Self)
        ensures
            out == *self,
    {
        BlockDevice {
            name: self.name.clone(),
            fs_type: self.fs_type.clone(),
            uuid: self.uuid.clone(),
            partuuid: clone_optional(&self.partuuid),
            label: clone_optional(&self.label),
            partlabel: clone_optional(&self.partlabel),
        }
    }
}

impl BlockDevice {
    /// Whether the device holds a copy-on-write filesystem with subvolumes.
    pub fn has_subvolumes(&self) -> (b: bool)
        ensures
            b == (self@.fs_type == subvolume_type()),
    {
        str_eq(self.fs_type.as_str(), "btrfs")
    }

    /// Whether the device is an encrypted volume that has to be opened first.
    pub fn is_encrypted(&self) -> (b: bool)
        ensures
            b == (self@.fs_type == encrypted_type()),
    {
        str_eq(self.fs_type.as_str(), "crypto_LUKS")
    }

    /// Whether the device is a member of a storage pool.
    pub fn is_pool_member(&self) -> (b: bool)
        ensures
            b == (self@.fs_type == pool_member_type()),
    {
        str_eq(self.fs_type.as_str(), "zfs_member")
    }
}

impl BlockOrSubvolumeID for BlockDevice {
    open spec fn identity(&self) -> Seq<char> {
        device_identity(self@)
    }

    open spec fn label(&self) -> Seq<char> {
        device_label(self@)
    }

    fn get_id(&self) -> (id: String) {
        if self.is_pool_member() {
            match &self.label {
                Some(pool) => pool.clone(),
                None => self.uuid.clone(),
            }
        } else {
            self.uuid.clone()
        }
    }

    fn display_label(&self) -> (line: String) {
        let mut line = "Partition: ".to_owned();
        line.append(self.name.as_str());
        line.append(": FS: ");
        line.append(self.fs_type.as_str());
        line.append(" UUID: ");
        line.append(self.uuid.as_str());
        line
    }
}

impl Clone for BTRFSSubVolume {
    fn clone(&self) -> (out: Self)
        ensures
            out == *self,
    {
        BTRFSSubVolume {
            device: self.device.clone(),
            subvolume_id: self.subvolume_id,
            subvolume_name: self.subvolume_name.clone(),
        }
    }
}

impl BTRFSSubVolume {
    /// The subvolume of `device` with this number and name.
    pub fn new(device: BlockDevice, subvolume_id: usize, subvolume_name: String) -> (out: Self)
        ensures
            out.device == device,
            out.subvolume_id == subvolume_id,
            out.subvolume_name == subvolume_name,
    {
        BTRFSSubVolume { device, subvolume_id, subvolume_name }
    }
}

impl BlockOrSubvolumeID for BTRFSSubVolume {
    open spec fn identity(&self) -> Seq<char> {
        subvolume_identity(self@)
    }

    open spec fn label(&self) -> Seq<char> {
        subvolume_label(self@)
    }

    fn get_id(&self) -> (id: String) {
        let mut id = self.device.get_id();
        proof {
            reveal_strlit("-");
        }
        id.append("-");
        push_decimal(&mut id, self.subvolume_id);
        id
    }

    fn display_label(&self) -> (line: String) {
        let mut line = "[".to_owned();
        line.append(self.device.name.as_str());
        line.append("] BTRFS Subvolume: ");
        line.append(self.subvolume_name.as_str());
        line.append(": SubVol ID: ");
        push_decimal(&mut line, self.subvolume_id);
        line
    }
}

/// The attribute of an entity that a device reference names.
#[derive(Clone, Copy, Debug, PartialEq, Eq, Structural)]
pub enum ReferenceKind {
    /// The filesystem's uuid: `UUID=` or `/dev/disk/by-uuid/`.
    Uuid,
    /// The partition's uuid: `PARTUUID=` or `/dev/disk/by-partuuid/`.
    PartUuid,
    /// The filesystem's label: `LABEL=`.
    Label,
    /// The partition's label: `PARTLABEL=`.
    PartLabel,
    /// The device's path: any reference without one of the tags.
    Path,
}

/// The six tags that a device reference may begin with, and the attribute
/// that each announces.
pub open spec fn reference_tags() -> Seq<(Seq<char>, ReferenceKind)> {
    seq![
        ("UUID="@, ReferenceKind::Uuid),
        ("/dev/disk/by-uuid/"@, ReferenceKind::Uuid),
        ("PARTUUID="@, ReferenceKind::PartUuid),
        ("/dev/disk/by-partuuid/"@, ReferenceKind::PartUuid),
        ("LABEL="@, ReferenceKind::Label),
        ("PARTLABEL="@, ReferenceKind::PartLabel),
    ]
}

/// The attribute and the value that the tags from index `i` on find in `r`: the
/// first of them that `r` begins with decides; with none, `r` is a path.
pub open spec fn classify_from(r: Seq<char>, i: int) -> (ReferenceKind, Seq<char>)
    decreases reference_tags().len() - i,
{
    if 0 <= i < reference_tags().len() {
        let (tag, kind) = reference_tags()[i];
        if tag.is_prefix_of(r) {
            (kind, r.skip(tag.len() as int))
        } else {
            classify_from(r, i + 1)
        }
    } else {
        (ReferenceKind::Path, r)
    }
}

/// The attribute that the reference `r` names, and the value that it asks of it.
pub open spec fn classify(r: Seq<char>) -> (ReferenceKind, Seq<char>) {
    classify_from(r, 0)
}

/// Whether the entity has the value `value` in the attribute `kind`. An
/// attribute that the entity lacks has no value.
pub open spec fn has_attribute(e: BlockDeviceView, kind: ReferenceKind, value: Seq<char>) -> bool {
    match kind {
        ReferenceKind::Uuid => e.uuid == value,
        ReferenceKind::PartUuid => e.partuuid == Some(value),
        ReferenceKind::Label => e.label == Some(value),
        ReferenceKind::PartLabel => e.partlabel == Some(value),
        ReferenceKind::Path => e.name == value,
    }
}

/// Whether the reference `r` names the entity `e`.
pub open spec fn reference_matches(e: BlockDeviceView, r: Seq<char>) -> bool {
    has_attribute(e, classify(r).0, classify(r).1)
}

fn tag_at(i: usize) -> (out: (&'static str, ReferenceKind))
    requires
        i < 6,
    ensures
        (out.0@, out.1) == reference_tags()[i as int],
{
    if i == 0 {
        ("UUID=", ReferenceKind::Uuid)
    } else if i == 1 {
        ("/dev/disk/by-uuid/", ReferenceKind::Uuid)
    } else if i == 2 {
        ("PARTUUID=", ReferenceKind::PartUuid)
    } else if i == 3 {
        ("/dev/disk/by-partuuid/", ReferenceKind::PartUuid)
    } else if i == 4 {
        ("LABEL=", ReferenceKind::Label)
    } else {
        ("PARTLABEL=", ReferenceKind::PartLabel)
    }
}

/// Reads a device reference: which attribute it names, and the value it asks of it.
pub fn classify_reference(reference: &str) -> (out: (ReferenceKind, String))
    ensures
        (out.0, out.1@) == classify(reference@),
{
    let cs = chars_of(reference);
    let mut i: usize = 0;
    while i < 6
        invariant
            i <= 6,
            cs@ == reference@,
            classify_from(reference@, i as int) == classify(reference@),
        decreases 6 - i,
    {
        let (tag, kind) = tag_at(i);
        let t = chars_of(tag);
        if chars_start_with(&cs, &t) {
            return (kind, slice_string(reference, t.len(), cs.len()));
        }
        i += 1;
    }
    (ReferenceKind::Path, reference.to_owned())
}

fn optional_is(attribute: &Option<String>, value: &str) -> (b: bool)
    ensures
        b == (attribute.deep_view() == Some(value@)),
{
    match attribute {
        Some(text) => str_eq(text.as_str(), value),
        None => false,
    }
}

fn optional_same(a: &Option<String>, b: &Option<String>) -> (same: bool)
    ensures
        same == (a.deep_view() == b.deep_view()),
{
    match (a, b) {
        (Some(x), Some(y)) => str_eq(x.as_str(), y.as_str()),
        (None, None) => true,
        _ => false,
    }
}

impl BlockDevice {
    /// Whether the device has the value `value` in the attribute `kind`.
    pub fn has_attribute(&self, kind: ReferenceKind, value: &str) -> (b: bool)
        ensures
            b == has_attribute(self@, kind, value@),
    {
        match kind {
            ReferenceKind::Uuid => str_eq(self.uuid.as_str(), value),
            ReferenceKind::PartUuid => optional_is(&self.partuuid, value),
            ReferenceKind::Label => optional_is(&self.label, value),
            ReferenceKind::PartLabel => optional_is(&self.partlabel, value),
            ReferenceKind::Path => str_eq(self.name.as_str(), value),
        }
    }

    /// Whether the two devices agree in every attribute.
    pub fn same_as(&self, other: &BlockDevice) -> (b: bool)
        ensures
            b == (self@ == other@),
    {
        str_eq(self.name.as_str(), other.name.as_str()) && str_eq(
            self.fs_type.as_str(),
            other.fs_type.as_str(),
        ) && str_eq(self.uuid.as_str(), other.uuid.as_str()) && optional_same(
            &self.partuuid,
            &other.partuuid,
        ) && optional_same(&self.label, &other.label) && optional_same(
            &self.partlabel,
            &other.partlabel,
        )
    }
}

/// Whether the device reference names the entity: a tagged reference is held
/// against the attribute that its tag announces, any other against the
/// device's path.
pub fn matches_reference(entity: &BlockDevice, reference: &str) -> (b: bool)
    ensures
        b == reference_matches(entity@, reference@),
{
    let (kind, value) = classify_reference(reference);
    entity.has_attribute(kind, value.as_str())
}

/// The index of the first device that the reference names.
pub fn find_by_reference(devices: &Vec<BlockDevice>, reference: &str) -> (found: Option<usize>)
    ensures
        found == first_match(devices.deep_view(), reference@),
{
    let (kind, value) = classify_reference(reference);
    let mut i: usize = 0;
    while i < devices.len()
        invariant
            i <= devices.len(),
            (kind, value@) == classify(reference@),
            first_match_from(devices.deep_view(), reference@, i as int) == first_match(
                devices.deep_view(),
                reference@,
            ),
        decreases devices.len() - i,
    {
        if devices[i].has_attribute(kind, value.as_str()) {
            return Some(i);
        }
        i += 1;
    }
    None
}

/// The index, at or after `i`, of the first device that the reference names.
pub open spec fn first_match_from(devices: Seq<BlockDeviceView>, r: Seq<char>, i: int) -> Option<
    usize,
>
    decreases devices.len() - i,
{
    if 0 <= i < devices.len() {
        if reference_matches(devices[i], r) {
            Some(i as usize)
        } else {
            first_match_from(devices, r, i + 1)
        }
    } else {
        None
    }
}

/// The index of the first device that the reference names.
pub open spec fn first_match(devices: Seq<BlockDeviceView>, r: Seq<char>) -> Option<usize> {
    first_match_from(devices, r, 0)
}

/// The devices of `listed` that are not among `ignored`, in their order.
pub open spec fn without_ignored(
    listed: Seq<BlockDeviceView>,
    ignored: Seq<BlockDeviceView>,
) -> Seq<BlockDeviceView> {
    listed.filter(not_among(ignored))
}

/// Whether a device is none of `ignored`.
pub open spec fn not_among(ignored: Seq<BlockDeviceView>) -> spec_fn(BlockDeviceView) -> bool {
    |d: BlockDeviceView| !ignored.contains(d)
}

/// Whether `device` agrees in every attribute with one of `devices`.
pub fn is_among(device: &BlockDevice, devices: &Vec<BlockDevice>) -> (b: bool)
    ensures
        b == devices.deep_view().contains(device@),
{
    let mut i: usize = 0;
    while i < devices.len()
        invariant
            i <= devices.len(),
            forall|k: int| 0 <= k < i ==> devices.deep_view()[k] != device@,
        decreases devices.len() - i,
    {
        assert(devices.deep_view()[i as int] == devices[i as int]@);
        if devices[i].same_as(device) {
            return true;
        }
        i += 1;
    }
    false
}

/// The devices of a listing that the session may still offer: all but those
/// in `ignored`, in the order of the listing.
pub fn list_block_devices(listed: BlockDevices, ignored: &Vec<BlockDevice>) -> (out: Vec<
    BlockDevice,
>)
    ensures
        out.deep_view() == without_ignored(listed.block_devices.deep_view(), ignored.deep_view()),
{
    let all = listed.block_devices;
    let mut out: Vec<BlockDevice> = Vec::new();
    let mut i: usize = 0;
    while i < all.len()
        invariant
            i <= all.len(),
            out.deep_view() == without_ignored(all.deep_view().take(i as int), ignored.deep_view()),
        decreases all.len() - i,
    {
        proof {
            let pred = not_among(ignored.deep_view());
            assert(all.deep_view().take(i + 1) =~= all.deep_view().take(i as int).push(all[i as int]@));
            all.deep_view().take(i as int).lemma_filter_push(all[i as int]@, pred);
        }
        if !is_among(&all[i], ignored) {
            out.push(all[i].clone());
        }
        i += 1;
    }
    assert(all.deep_view().take(i as int) =~= all.deep_view());
    out
}

proof fn lemma_prefix_index(p: Seq<char>, r: Seq<char>, k: int)
    requires
        p.is_prefix_of(r),
        0 <= k < p.len(),
    ensures
        r[k] == p[k],
{
}

/// No reference begins with two of the six tags: the tag that a reference
/// begins with is the only one.
pub proof fn lemma_tags_exclusive(r: Seq<char>, i: int, j: int)
    requires
        0 <= i < reference_tags().len(),
        0 <= j < reference_tags().len(),
        reference_tags()[i].0.is_prefix_of(r),
        reference_tags()[j].0.is_prefix_of(r),
    ensures
        i == j,
{
    reveal_strlit("UUID=");
    reveal_strlit("/dev/disk/by-uuid/");
    reveal_strlit("PARTUUID=");
    reveal_strlit("/dev/disk/by-partuuid/");
    reveal_strlit("LABEL=");
    reveal_strlit("PARTLABEL=");
    lemma_prefix_index(reference_tags()[i].0, r, 0);
    lemma_prefix_index(reference_tags()[j].0, r, 0);
    if i == 1 || i == 3 {
        lemma_prefix_index(reference_tags()[i].0, r, 13);
    }
    if j == 1 || j == 3 {
        lemma_prefix_index(reference_tags()[j].0, r, 13);
    }
    if i == 2 || i == 5 {
        lemma_prefix_index(reference_tags()[i].0, r, 4);
    }
    if j == 2 || j == 5 {
        lemma_prefix_index(reference_tags()[j].0, r, 4);
    }
}

/// What a reference means does not depend on the order in which the tags are
/// tried: whichever tag the reference begins with decides the attribute, and
/// the rest of the reference is the value.
pub proof fn lemma_classify_by_tag(r: Seq<char>, i: int)
    requires
        0 <= i < reference_tags().len(),
        reference_tags()[i].0.is_prefix_of(r),
    ensures
        classify(r) == (reference_tags()[i].1, r.skip(reference_tags()[i].0.len() as int)),
{
    lemma_classify_from(r, i, 0);
}

proof fn lemma_classify_from(r: Seq<char>, i: int, from: int)
    requires
        0 <= from <= i < reference_tags().len(),
        reference_tags()[i].0.is_prefix_of(r),
    ensures
        classify_from(r, from) == (reference_tags()[i].1, r.skip(reference_tags()[i].0.len() as int)),
    decreases i - from,
{
    if from < i {
        if reference_tags()[from].0.is_prefix_of(r) {
            lemma_tags_exclusive(r, from, i);
        }
        lemma_classify_from(r, i, from + 1);
    }
}

/// A reference without any of the six tags names a device by its path, and
/// only by its path.
pub proof fn lemma_untagged_is_path(e: BlockDeviceView, r: Seq<char>)
    requires
        forall|i: int| 0 <= i < reference_tags().len() ==> !(#[trigger] reference_tags()[i]).0.is_prefix_of(r),
    ensures
        reference_matches(e, r) == (e.name == r),
{
    lemma_untagged_from(r, 0);
}

proof fn lemma_untagged_from(r: Seq<char>, from: int)
    requires
        0 <= from <= reference_tags().len(),
        forall|i: int| 0 <= i < reference_tags().len() ==> !(#[trigger] reference_tags()[i]).0.is_prefix_of(r),
    ensures
        classify_from(r, from) == (ReferenceKind::Path, r),
    decreases reference_tags().len() - from,
{
    if from < reference_tags().len() {
        lemma_untagged_from(r, from + 1);
    }
}

/// A tagged reference never names an entity that lacks the attribute which
/// the tag announces, whatever value the reference asks for.
pub proof fn lemma_absent_attribute_never_matches(e: BlockDeviceView, r: Seq<char>)
    requires
        match classify(r).0 {
            ReferenceKind::PartUuid => e.partuuid is None,
            ReferenceKind::Label => e.label is None,
            ReferenceKind::PartLabel => e.partlabel is None,
            _ => false,
        },
    ensures
        !reference_matches(e, r),
{
}

/// The identity of a subvolume tells it from every other subvolume of its
/// device: two subvolumes on devices of one identity have the same identity
/// only if they have the same number.
pub proof fn lemma_subvolume_identity_distinguishes(a: SubVolumeView, b: SubVolumeView)
    requires
        device_identity(a.device) == device_identity(b.device),
        subvolume_identity(a) == subvolume_identity(b),
    ensures
        a.id == b.id,
{
    let prefix = device_identity(a.device) + seq!['-'];
    assert(subvolume_identity(a).skip(prefix.len() as int) =~= decimal(a.id));
    assert(subvolume_identity(b).skip(prefix.len() as int) =~= decimal(b.id));
    lemma_decimal_distinguishes(a.id, b.id);
}

} // verus!
