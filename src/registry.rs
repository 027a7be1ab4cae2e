//! The device registry: a point-in-time catalog of attached HID devices and
//! the index that resolves a full device identity to its enumeration entry.
use vstd::prelude::*;
use std::collections::HashMap;

verus! {

broadcast use vstd::std_specs::hash::group_hash_axioms;

/// One `(usage_page, usage)` pair exposed by a device.
#[derive(Debug, Clone, Copy, Default, PartialEq, Eq, Structural, Hash)]
pub struct UsagePair {
    pub usage_page: u16,
    pub usage: u16,
}

/// The key of the display catalog: vendor and product.
#[derive(Debug, Clone, Copy, PartialEq, Eq, Structural, Hash)]
pub struct HidMetadataKey {
    pub vendor_id: u16,
    pub product_id: u16,
}

/// The full identity of one logical device, the key of the resolution index.
#[derive(Debug, Clone, Copy, PartialEq, Eq, Structural, Hash)]
pub struct HidDeviceKey {
    pub vendor_id: u16,
    pub product_id: u16,
    pub usage_page: u16,
    pub usage: u16,
}

impl HidDeviceKey {
    pub open spec fn usage_pair(self) -> UsagePair {
        UsagePair { usage_page: self.usage_page, usage: self.usage }
    }
}

/// A catalog entry: one per vendor and product, with every distinct usage
/// pair seen for it, in order of first appearance.
#[derive(Debug, Clone, Default, PartialEq, Eq)]
pub struct HidMetadata {
    pub vendor_id: u16,
    pub product_id: u16,
    pub manufacturer_string: String,
    pub product_string: String,
    pub usages: Vec<UsagePair>,
}

pub struct HidMetadataView {
    pub vendor_id: u16,
    pub product_id: u16,
    pub manufacturer_string: Seq<char>,
    pub product_string: Seq<char>,
    pub usages: Seq<UsagePair>,
}

impl HidMetadata {
    /// The catalog key of this entry.
    pub fn key(&self) -> (r: HidMetadataKey)
        ensures
            r == (HidMetadataKey { vendor_id: self.vendor_id, product_id: self.product_id }),
    {
        HidMetadataKey { vendor_id: self.vendor_id, product_id: self.product_id }
    }
}

impl View for HidMetadata {
    type V = HidMetadataView;

    open spec fn view(&self) -> HidMetadataView {
        HidMetadataView {
            vendor_id: self.vendor_id,
            product_id: self.product_id,
            manufacturer_string: self.manufacturer_string@,
            product_string: self.product_string@,
            usages: self.usages@,
        }
    }
}

/// One entry of an enumeration of attached devices. `info` is whatever the
/// transport needs to open the device later; the registry never looks inside.
#[derive(Debug, Clone)]
pub struct EnumeratedDevice<T> {
    pub key: HidDeviceKey,
    pub manufacturer_string: String,
    pub product_string: String,
    pub info: T,
}

pub struct DeviceEntryView {
    pub key: HidDeviceKey,
    pub manufacturer_string: Seq<char>,
    pub product_string: Seq<char>,
}

pub open spec fn entry_view<T>(d: EnumeratedDevice<T>) -> DeviceEntryView {
    DeviceEntryView {
        key: d.key,
        manufacturer_string: d.manufacturer_string@,
        product_string: d.product_string@,
    }
}

pub open spec fn entries_view<T>(s: Seq<EnumeratedDevice<T>>) -> Seq<DeviceEntryView> {
    s.map_values(|d: EnumeratedDevice<T>| entry_view(d))
}

pub open spec fn metadata_views(s: Seq<HidMetadata>) -> Seq<HidMetadataView> {
    s.map_values(|m: HidMetadata| m@)
}

/// Position of the first catalog entry for vendor `vid` and product `pid`.
pub open spec fn catalog_slot(cat: Seq<HidMetadataView>, vid: u16, pid: u16) -> Option<int>
    decreases cat.len(),
{
    if cat.len() == 0 {
        None
    } else {
        match catalog_slot(cat.drop_last(), vid, pid) {
            Some(i) => Some(i),
            None => if cat.last().vendor_id == vid && cat.last().product_id == pid {
                Some(cat.len() - 1)
            } else {
                None
            },
        }
    }
}

pub open spec fn new_entry(d: DeviceEntryView) -> HidMetadataView {
    HidMetadataView {
        vendor_id: d.key.vendor_id,
        product_id: d.key.product_id,
        manufacturer_string: d.manufacturer_string,
        product_string: d.product_string,
        usages: seq![d.key.usage_pair()],
    }
}

pub open spec fn with_usage(m: HidMetadataView, u: UsagePair) -> HidMetadataView {
    if m.usages.contains(u) {
        m
    } else {
        HidMetadataView { usages: m.usages.push(u), ..m }
    }
}

/// Adds one enumerated device to the catalog: merged into the entry of its
/// vendor and product when there is one (whose strings are kept), appended
/// as a new entry otherwise.
pub open spec fn catalog_insert(cat: Seq<HidMetadataView>, d: DeviceEntryView) -> Seq<HidMetadataView> {
    match catalog_slot(cat, d.key.vendor_id, d.key.product_id) {
        Some(i) => cat.update(i, with_usage(cat[i], d.key.usage_pair())),
        None => cat.push(new_entry(d)),
    }
}

/// The display catalog of an enumeration.
pub open spec fn catalog_of(devs: Seq<DeviceEntryView>) -> Seq<HidMetadataView>
    decreases devs.len(),
{
    if devs.len() == 0 {
        Seq::empty()
    } else {
        catalog_insert(catalog_of(devs.drop_last()), devs.last())
    }
}

/// Position of the first enumerated device with identity `key`.
pub open spec fn first_match(devs: Seq<DeviceEntryView>, key: HidDeviceKey) -> Option<int>
    decreases devs.len(),
{
    if devs.len() == 0 {
        None
    } else {
        match first_match(devs.drop_last(), key) {
            Some(i) => Some(i),
            None => if devs.last().key == key {
                Some(devs.len() - 1)
            } else {
                None
            },
        }
    }
}

proof fn lemma_catalog_slot_bounds(cat: Seq<HidMetadataView>, vid: u16, pid: u16)
    ensures
        match catalog_slot(cat, vid, pid) {
            Some(i) => 0 <= i < cat.len() && cat[i].vendor_id == vid && cat[i].product_id == pid,
            None => forall|j: int|
                0 <= j < cat.len() ==> (#[trigger] cat[j]).vendor_id != vid || cat[j].product_id
                    != pid,
        },
    decreases cat.len(),
{
    if cat.len() > 0 {
        let rest = cat.drop_last();
        lemma_catalog_slot_bounds(rest, vid, pid);
        if catalog_slot(rest, vid, pid) is None {
            assert forall|j: int| 0 <= j < cat.len() implies (#[trigger] cat[j]).vendor_id != vid
                || cat[j].product_id != pid || catalog_slot(cat, vid, pid) is Some by {
                if j < cat.len() - 1 {
                    assert(cat[j] == rest[j]);
                }
            }
        }
    }
}

proof fn lemma_catalog_slot_first(cat: Seq<HidMetadataView>, vid: u16, pid: u16, j: int)
    requires
        0 <= j < cat.len(),
        cat[j].vendor_id == vid && cat[j].product_id == pid,
        forall|k: int| 0 <= k < j ==> (#[trigger] cat[k]).vendor_id != vid || cat[k].product_id != pid,
    ensures
        catalog_slot(cat, vid, pid) == Some(j),
    decreases cat.len(),
{
    if j < cat.len() - 1 {
        lemma_catalog_slot_first(cat.drop_last(), vid, pid, j);
    } else {
        lemma_catalog_slot_bounds(cat.drop_last(), vid, pid);
        assert forall|k: int| 0 <= k < cat.len() - 1 implies cat[k] == #[trigger] cat.drop_last()[k] by {}
    }
}

/// Packs a device identity into one integer; distinct identities give
/// distinct codes.
pub open spec fn key_code(k: HidDeviceKey) -> u64 {
    (k.vendor_id as u64) << 48u64 | (k.product_id as u64) << 32u64 | (k.usage_page as u64) << 16u64
        | (k.usage as u64)
}

proof fn lemma_key_code_injective(a: HidDeviceKey, b: HidDeviceKey)
    ensures
        key_code(a) == key_code(b) ==> a == b,
{
    let (a0, a1, a2, a3) = (a.vendor_id, a.product_id, a.usage_page, a.usage);
    let (b0, b1, b2, b3) = (b.vendor_id, b.product_id, b.usage_page, b.usage);
    assert(((a0 as u64) << 48u64 | (a1 as u64) << 32u64 | (a2 as u64) << 16u64 | (a3 as u64)) == (
    (b0 as u64) << 48u64 | (b1 as u64) << 32u64 | (b2 as u64) << 16u64 | (b3 as u64)) ==> a0 == b0
        && a1 == b1 && a2 == b2 && a3 == b3) by (bit_vector);
}

fn device_key_code(k: &HidDeviceKey) -> (r: u64)
    ensures
        r == key_code(*k),
{
    (k.vendor_id as u64) << 48u64 | (k.product_id as u64) << 32u64 | (k.usage_page as u64) << 16u64
        | (k.usage as u64)
}

/// The resolution index agrees with `devs`: an identity has a code in the
/// index exactly when some device has it, and the code leads to the first.
pub open spec fn index_agrees(m: Map<u64, usize>, devs: Seq<DeviceEntryView>) -> bool {
    forall|k: HidDeviceKey|
        (m.contains_key(#[trigger] key_code(k)) <==> first_match(devs, k) is Some) && (
        m.contains_key(key_code(k)) ==> m[key_code(k)] as int == first_match(devs, k)->0)
}

proof fn lemma_first_match_bounds(devs: Seq<DeviceEntryView>, key: HidDeviceKey)
    ensures
        match first_match(devs, key) {
            Some(i) => 0 <= i < devs.len() && devs[i].key == key,
            None => true,
        },
    decreases devs.len(),
{
    if devs.len() > 0 {
        lemma_first_match_bounds(devs.drop_last(), key);
    }
}

fn find_slot(cat: &Vec<HidMetadata>, vid: u16, pid: u16) -> (r: Option<usize>)
    ensures
        match r {
            Some(j) => j < cat@.len() && catalog_slot(metadata_views(cat@), vid, pid) == Some(j as int),
            None => catalog_slot(metadata_views(cat@), vid, pid) is None,
        },
{
    let ghost cv = metadata_views(cat@);
    let mut j: usize = 0;
    while j < cat.len()
        invariant
            0 <= j <= cat.len(),
            cv == metadata_views(cat@),
            forall|k: int| 0 <= k < j ==> (#[trigger] cv[k]).vendor_id != vid || cv[k].product_id != pid,
        decreases cat.len() - j,
    {
        if cat[j].vendor_id == vid && cat[j].product_id == pid {
            proof {
                lemma_catalog_slot_first(cv, vid, pid, j as int);
            }
            assert(cv.len() == cat@.len());
            return Some(j);
        }
        j += 1;
    }
    proof {
        lemma_catalog_slot_bounds(cv, vid, pid);
        if catalog_slot(cv, vid, pid) is Some {
            let i = catalog_slot(cv, vid, pid)->0;
            assert(cv[i].vendor_id == vid);
        }
    }
    None
}

fn has_usage(usages: &Vec<UsagePair>, u: UsagePair) -> (r: bool)
    ensures
        r == usages@.contains(u),
{
    let mut j: usize = 0;
    while j < usages.len()
        invariant
            0 <= j <= usages.len(),
            forall|k: int| 0 <= k < j ==> usages@[k] != u,
        decreases usages.len() - j,
    {
        if usages[j] == u {
            return true;
        }
        j += 1;
    }
    false
}

fn build_catalog<T>(devs: &Vec<EnumeratedDevice<T>>) -> (r: Vec<HidMetadata>)
    ensures
        metadata_views(r@) == catalog_of(entries_view(devs@)),
{
    let ghost ev = entries_view(devs@);
    let mut catalog: Vec<HidMetadata> = Vec::new();
    let mut i: usize = 0;
    assert(ev.take(0) =~= Seq::<DeviceEntryView>::empty());
    assert(metadata_views(catalog@) =~= Seq::<HidMetadataView>::empty());
    while i < devs.len()
        invariant
            0 <= i <= devs.len(),
            ev == entries_view(devs@),
            metadata_views(catalog@) == catalog_of(ev.take(i as int)),
        decreases devs.len() - i,
    {
        let d = &devs[i];
        let u = UsagePair { usage_page: d.key.usage_page, usage: d.key.usage };
        let ghost before = metadata_views(catalog@);
        assert(ev.take(i + 1).drop_last() =~= ev.take(i as int));
        assert(ev.take(i + 1).last() == entry_view(devs@[i as int]));
        assert(u == ev[i as int].key.usage_pair());
        assert(ev[i as int].key == d.key);
        assert(catalog_of(ev.take(i + 1)) == catalog_insert(before, ev[i as int]));
        match find_slot(&catalog, d.key.vendor_id, d.key.product_id) {
            Some(j) => {
                assert(before[j as int] == catalog@[j as int]@);
                assert(catalog_slot(before, ev[i as int].key.vendor_id, ev[i as int].key.product_id)
                    == Some(j as int));
                if !has_usage(&catalog[j].usages, u) {
                    catalog[j].usages.push(u);
                }
                assert(metadata_views(catalog@) =~= before.update(
                    j as int,
                    with_usage(before[j as int], u),
                ));
                assert(metadata_views(catalog@) == catalog_insert(before, ev[i as int]));
            },
            None => {
                let entry = HidMetadata {
                    vendor_id: d.key.vendor_id,
                    product_id: d.key.product_id,
                    manufacturer_string: d.manufacturer_string.clone(),
                    product_string: d.product_string.clone(),
                    usages: vec![u],
                };
                assert(entry.usages@ =~= seq![u]);
                catalog.push(entry);
                assert(metadata_views(catalog@) =~= before.push(new_entry(ev[i as int])));
                assert(metadata_views(catalog@) == catalog_insert(before, ev[i as int]));
            },
        }
        i += 1;
    }
    assert(ev.take(devs.len() as int) =~= ev);
    catalog
}

fn build_index<T>(devs: &Vec<EnumeratedDevice<T>>) -> (r: HashMap<u64, usize>)
    ensures
        index_agrees(r@, entries_view(devs@)),
{
    let ghost ev = entries_view(devs@);
    let mut index: HashMap<u64, usize> = HashMap::new();
    let mut i: usize = 0;
    assert(index_agrees(index@, ev.take(0))) by {
        assert forall|k: HidDeviceKey| #[trigger] first_match(ev.take(0), k) is None by {}
    }
    while i < devs.len()
        invariant
            0 <= i <= devs.len(),
            ev == entries_view(devs@),
            index_agrees(index@, ev.take(i as int)),
        decreases devs.len() - i,
    {
        let code = device_key_code(&devs[i].key);
        let ghost before = index@;
        let ghost dk = devs@[i as int].key;
        assert(ev.take(i + 1).drop_last() =~= ev.take(i as int));
        assert(ev.take(i + 1).last().key == dk);
        if !index.contains_key(&code) {
            index.insert(code, i);
        }
        assert forall|k: HidDeviceKey| #[trigger] key_code(k) == key_code(k) implies (
        index@.contains_key(key_code(k)) <==> first_match(ev.take(i + 1), k) is Some) && (
        index@.contains_key(key_code(k)) ==> index@[key_code(k)] as int == first_match(
            ev.take(i + 1),
            k,
        )->0) by {
            lemma_key_code_injective(k, dk);
            assert(before.contains_key(key_code(k)) <==> first_match(ev.take(i as int), k) is Some);
        }
        i += 1;
    }
    assert(ev.take(devs.len() as int) =~= ev);
    index
}

fn copy_metadata(m: &HidMetadata) -> (r: HidMetadata)
    ensures
        r@ == m@,
{
    let mut usages: Vec<UsagePair> = Vec::new();
    let mut j: usize = 0;
    while j < m.usages.len()
        invariant
            0 <= j <= m.usages.len(),
            usages@ == m.usages@.take(j as int),
        decreases m.usages.len() - j,
    {
        usages.push(m.usages[j]);
        j += 1;
        assert(usages@ =~= m.usages@.take(j as int));
    }
    assert(m.usages@.take(j as int) =~= m.usages@);
    HidMetadata {
        vendor_id: m.vendor_id,
        product_id: m.product_id,
        manufacturer_string: m.manufacturer_string.clone(),
        product_string: m.product_string.clone(),
        usages,
    }
}

/// The registry. It holds the enumeration of the last refresh together with
/// the two structures derived from it, the display catalog and the
/// resolution index; the three are only ever replaced together.
pub struct HidDevices<T> {
    devices: Vec<EnumeratedDevice<T>>,
    metadata_list: Vec<HidMetadata>,
    device_index: HashMap<u64, usize>,
}

impl<T> View for HidDevices<T> {
    type V = Seq<EnumeratedDevice<T>>;

    /// The enumeration that the last refresh was given.
    closed spec fn view(&self) -> Seq<EnumeratedDevice<T>> {
        self.devices@
    }
}

impl<T> HidDevices<T> {
    /// The catalog and the index are those of the snapshot.
    pub closed spec fn wf(&self) -> bool {
        &&& metadata_views(self.metadata_list@) == catalog_of(entries_view(self.devices@))
        &&& index_agrees(self.device_index@, entries_view(self.devices@))
    }

    /// The stored display catalog.
    pub closed spec fn catalog(&self) -> Seq<HidMetadataView> {
        metadata_views(self.metadata_list@)
    }

    /// The position that the stored resolution index gives for `key`.
    pub closed spec fn resolution(&self, key: HidDeviceKey) -> Option<int> {
        if self.device_index@.contains_key(key_code(key)) {
            Some(self.device_index@[key_code(key)] as int)
        } else {
            None
        }
    }

    /// An empty registry, as before the first refresh.
    pub fn new() -> (r: Self)
        ensures
            r.wf(),
            r@ == Seq::<EnumeratedDevice<T>>::empty(),
    {
        let devices: Vec<EnumeratedDevice<T>> = Vec::new();
        let metadata_list = build_catalog(&devices);
        let device_index = build_index(&devices);
        HidDevices { devices, metadata_list, device_index }
    }

    /// Replaces the registry's content with a fresh enumeration. Both the
    /// catalog and the index are built aside from the current ones and then
    /// swapped in as one unit.
    pub fn refresh(&mut self, devices: Vec<EnumeratedDevice<T>>)
        ensures
            final(self).wf(),
            final(self)@ == devices@,
    {
        let metadata_list = build_catalog(&devices);
        let device_index = build_index(&devices);
        *self = HidDevices { devices, metadata_list, device_index };
    }

    /// The display catalog: one entry per vendor and product, with the
    /// merged set of usage pairs.
    pub fn get_metadata_list(&self) -> (r: Vec<HidMetadata>)
        requires
            self.wf(),
        ensures
            metadata_views(r@) == catalog_of(entries_view(self@)),
    {
        let ghost cv = metadata_views(self.metadata_list@);
        let mut out: Vec<HidMetadata> = Vec::new();
        let mut j: usize = 0;
        while j < self.metadata_list.len()
            invariant
                0 <= j <= self.metadata_list.len(),
                cv == metadata_views(self.metadata_list@),
                out@.len() == j,
                forall|k: int| 0 <= k < j ==> (#[trigger] out@[k])@ == cv[k],
            decreases self.metadata_list.len() - j,
        {
            let m = copy_metadata(&self.metadata_list[j]);
            assert(cv[j as int] == self.metadata_list@[j as int]@);
            out.push(m);
            j += 1;
        }
        assert(metadata_views(out@) =~= cv);
        out
    }

    /// Resolves a device identity against the enumeration of the last
    /// refresh: the first enumerated device with that identity, if any.
    pub fn get(&self, key: &HidDeviceKey) -> (r: Option<&T>)
        requires
            self.wf(),
        ensures
            match first_match(entries_view(self@), *key) {
                Some(i) => r == Some(&self@[i].info),
                None => r is None,
            },
    {
        proof {
            lemma_first_match_bounds(entries_view(self@), *key);
        }
        let code = device_key_code(key);
        match self.device_index.get(&code) {
            Some(i) => {
                let i = *i;
                Some(&self.devices[i].info)
            },
            None => None,
        }
    }
}

/// A registry never mixes two enumerations: in any well-formed state, the
/// catalog and the resolution of every identity are those of the one
/// enumeration it holds. So a resolve before a refresh answers from the old
/// enumeration alone and one after it from the new enumeration alone.
pub proof fn lemma_refresh_never_mixes<T>(
    before: HidDevices<T>,
    after: HidDevices<T>,
    devices: Seq<EnumeratedDevice<T>>,
    key: HidDeviceKey,
)
    requires
        before.wf(),
        after.wf(),
        after@ == devices,
    ensures
        before.catalog() == catalog_of(entries_view(before@)),
        before.resolution(key) == first_match(entries_view(before@), key),
        after.catalog() == catalog_of(entries_view(devices)),
        after.resolution(key) == first_match(entries_view(devices), key),
{
    assert(key_code(key) == key_code(key));
}

} // verus!
