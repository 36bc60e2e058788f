use vstd::prelude::*;
use crate::decimal::{decimal, u8_to_decimal};

verus! {

/// A device known by its display name: the name it has on the MQTT bus and
/// its channel on that device, if it has several.
#[derive(Default, Clone, PartialEq, Eq, Hash, Debug)]
pub struct Device {
    pub device_name: String,
    pub display_name: String,
    pub channel: Option<u8>,
}

/// The text of an optional channel: empty without one, its decimal digits
/// with one.
pub open spec fn channel_text(channel: Option<u8>) -> Seq<char> {
    match channel {
        Some(c) => decimal(c as nat),
        None => Seq::empty(),
    }
}

/// The text of an optional channel, as `Option::map_or(String::new(), to_string)`
/// gives it.
pub fn channel_to_string(channel: Option<u8>) -> (r: String)
    ensures
        r@ == channel_text(channel),
{
    match channel {
        Some(c) => u8_to_decimal(c),
        None => String::new(),
    }
}

impl Device {
    /// The device's channel as text: empty when it has none.
    pub fn channel_as_string(&self) -> (r: String)
        ensures
            r@ == channel_text(self.channel),
    {
        channel_to_string(self.channel)
    }

    /// A copy of the device, field by field.
    pub fn duplicate(&self) -> (r: Device)
        ensures
            r == *self,
    {
        Device {
            device_name: self.device_name.clone(),
            display_name: self.display_name.clone(),
            channel: self.channel,
        }
    }
}

/// The kinds of device the registry keeps apart.
#[derive(Copy, Clone, PartialEq, Eq, Debug, Structural)]
pub enum DeviceKind {
    Switch,
    Shutter,
    Light,
}

/// The error of a lookup that found no device under the name.
#[derive(Debug)]
pub struct DeviceNotFound;

impl DeviceNotFound {
    pub fn new() -> (r: Self) {
        DeviceNotFound {}
    }

    /// The message that the API answers with.
    pub fn message(&self) -> (r: &'static str)
        ensures
            r@ == "there is no such a name registered"@,
    {
        "there is no such a name registered"
    }
}

/// The devices of every kind as lists.
pub struct AllDevices {
    pub switch: Vec<Device>,
    pub shutter: Vec<Device>,
    pub light: Vec<Device>,
}

// ---------------------------------------------------------------------------
// Entries keyed by name
// ---------------------------------------------------------------------------

/// No two entries have the same key.
pub open spec fn keys_unique(s: Seq<(String, Device)>) -> bool {
    forall|i: int, j: int|
        0 <= i < s.len() && 0 <= j < s.len() && i != j ==> #[trigger] s[i].0@ != #[trigger] s[j].0@
}

/// Some entry has the key `k`.
pub open spec fn has_key(s: Seq<(String, Device)>, k: Seq<char>) -> bool {
    exists|i: int| 0 <= i < s.len() && #[trigger] s[i].0@ == k
}

/// The map from key to device that a list of entries stands for.
pub open spec fn entries_map(s: Seq<(String, Device)>) -> Map<Seq<char>, Device> {
    Map::new(
        |k: Seq<char>| has_key(s, k),
        |k: Seq<char>| s[choose|i: int| 0 <= i < s.len() && #[trigger] s[i].0@ == k].1,
    )
}

/// The map of a list of entries has finitely many keys: those of the list.
proof fn lemma_entries_map_finite(s: Seq<(String, Device)>)
    ensures
        entries_map(s).dom().finite(),
{
    let keys = s.map_values(|e: (String, Device)| e.0@);
    vstd::seq_lib::seq_to_set_is_finite(keys);
    assert forall|k: Seq<char>| #[trigger] entries_map(s).dom().contains(k) == keys.to_set().contains(k) by {
        if has_key(s, k) {
            let a = choose|a: int| 0 <= a < s.len() && #[trigger] s[a].0@ == k;
            assert(keys[a] == k);
        }
        if keys.contains(k) {
            let a = choose|a: int| 0 <= a < keys.len() && keys[a] == k;
            assert(s[a].0@ == k);
        }
    }
    assert(entries_map(s).dom() =~= keys.to_set());
}

/// With unique keys, the map holds each entry's device under its key.
proof fn lemma_entries_lookup(s: Seq<(String, Device)>, i: int)
    requires
        keys_unique(s),
        0 <= i < s.len(),
    ensures
        entries_map(s).contains_key(s[i].0@),
        entries_map(s)[s[i].0@] == s[i].1,
{
    let k = s[i].0@;
    assert(has_key(s, k));
    let j = choose|j: int| 0 <= j < s.len() && #[trigger] s[j].0@ == k;
    assert(0 <= j < s.len() && s[j].0@ == k);
    if j != i {
        assert(s[i].0@ != s[j].0@);
    }
}

/// Writing a new device into the entry of key `s[i].0` updates the map at
/// that key.
proof fn lemma_entries_update(s: Seq<(String, Device)>, i: int, e: (String, Device))
    requires
        keys_unique(s),
        0 <= i < s.len(),
        e.0@ == s[i].0@,
    ensures
        keys_unique(s.update(i, e)),
        entries_map(s.update(i, e)) == entries_map(s).insert(e.0@, e.1),
{
    let t = s.update(i, e);
    assert forall|a: int, b: int|
        0 <= a < t.len() && 0 <= b < t.len() && a != b implies #[trigger] t[a].0@ != #[trigger] t[b].0@ by {
        assert(t[a].0@ == s[a].0@);
        assert(t[b].0@ == s[b].0@);
    }
    let m = entries_map(s).insert(e.0@, e.1);
    assert forall|k: Seq<char>| #[trigger] entries_map(t).contains_key(k) == m.contains_key(k) by {
        if has_key(t, k) {
            let a = choose|a: int| 0 <= a < t.len() && #[trigger] t[a].0@ == k;
            assert(s[a].0@ == k);
        }
        if has_key(s, k) {
            let a = choose|a: int| 0 <= a < s.len() && #[trigger] s[a].0@ == k;
            assert(t[a].0@ == k);
        }
        if k == e.0@ {
            assert(t[i].0@ == k);
        }
    }
    assert forall|k: Seq<char>| #[trigger] entries_map(t).contains_key(k) implies entries_map(t)[k] == m[k] by {
        let a = choose|a: int| 0 <= a < t.len() && #[trigger] t[a].0@ == k;
        lemma_entries_lookup(t, a);
        if a == i {
            assert(t[a] == e);
        } else {
            assert(t[a] == s[a]);
            lemma_entries_lookup(s, a);
        }
    }
    assert(entries_map(t) =~= m);
}

/// Appending an entry with a new key inserts it into the map.
proof fn lemma_entries_push(s: Seq<(String, Device)>, e: (String, Device))
    requires
        keys_unique(s),
        !has_key(s, e.0@),
    ensures
        keys_unique(s.push(e)),
        entries_map(s.push(e)) == entries_map(s).insert(e.0@, e.1),
{
    let t = s.push(e);
    assert forall|a: int, b: int|
        0 <= a < t.len() && 0 <= b < t.len() && a != b implies #[trigger] t[a].0@ != #[trigger] t[b].0@ by {
        if a == s.len() {
            assert(!(0 <= b < s.len() && s[b].0@ == e.0@));
        } else if b == s.len() {
            assert(!(0 <= a < s.len() && s[a].0@ == e.0@));
        } else {
            assert(t[a] == s[a] && t[b] == s[b]);
        }
    }
    let m = entries_map(s).insert(e.0@, e.1);
    assert forall|k: Seq<char>| #[trigger] entries_map(t).contains_key(k) == m.contains_key(k) by {
        if has_key(t, k) {
            let a = choose|a: int| 0 <= a < t.len() && #[trigger] t[a].0@ == k;
            if a < s.len() {
                assert(s[a].0@ == k);
            }
        }
        if has_key(s, k) {
            let a = choose|a: int| 0 <= a < s.len() && #[trigger] s[a].0@ == k;
            assert(t[a].0@ == k);
        }
        if k == e.0@ {
            assert(t[s.len() as int].0@ == k);
        }
    }
    assert forall|k: Seq<char>| #[trigger] entries_map(t).contains_key(k) implies entries_map(t)[k] == m[k] by {
        let a = choose|a: int| 0 <= a < t.len() && #[trigger] t[a].0@ == k;
        lemma_entries_lookup(t, a);
        if a < s.len() {
            assert(t[a] == s[a]);
            lemma_entries_lookup(s, a);
        }
    }
    assert(entries_map(t) =~= m);
}

/// Removing the entry at `i` removes its key from the map.
proof fn lemma_entries_remove(s: Seq<(String, Device)>, i: int)
    requires
        keys_unique(s),
        0 <= i < s.len(),
    ensures
        keys_unique(s.remove(i)),
        entries_map(s.remove(i)) == entries_map(s).remove(s[i].0@),
{
    let t = s.remove(i);
    let k0 = s[i].0@;
    assert forall|a: int, b: int|
        0 <= a < t.len() && 0 <= b < t.len() && a != b implies #[trigger] t[a].0@ != #[trigger] t[b].0@ by {
        let sa = if a < i { a } else { a + 1 };
        let sb = if b < i { b } else { b + 1 };
        assert(t[a] == s[sa] && t[b] == s[sb]);
    }
    let m = entries_map(s).remove(k0);
    assert forall|k: Seq<char>| #[trigger] entries_map(t).contains_key(k) == m.contains_key(k) by {
        if has_key(t, k) {
            let a = choose|a: int| 0 <= a < t.len() && #[trigger] t[a].0@ == k;
            let sa = if a < i { a } else { a + 1 };
            assert(t[a] == s[sa]);
            assert(s[sa].0@ == k);
            assert(sa != i);
            assert(k != k0);
        }
        if has_key(s, k) && k != k0 {
            let a = choose|a: int| 0 <= a < s.len() && #[trigger] s[a].0@ == k;
            assert(a != i);
            let ta = if a < i { a } else { a - 1 };
            assert(t[ta] == s[a]);
            assert(t[ta].0@ == k);
        }
    }
    assert forall|k: Seq<char>| #[trigger] entries_map(t).contains_key(k) implies entries_map(t)[k] == m[k] by {
        let a = choose|a: int| 0 <= a < t.len() && #[trigger] t[a].0@ == k;
        lemma_entries_lookup(t, a);
        let sa = if a < i { a } else { a + 1 };
        assert(t[a] == s[sa]);
        lemma_entries_lookup(s, sa);
    }
    assert(entries_map(t) =~= m);
}

/// The position of the entry with key `key`, if there is one.
fn find_key(entries: &Vec<(String, Device)>, key: &String) -> (r: Option<usize>)
    ensures
        match r {
            Some(i) => i < entries@.len() && entries@[i as int].0@ == key@,
            None => !has_key(entries@, key@),
        },
{
    let mut i: usize = 0;
    while i < entries.len()
        invariant
            i <= entries@.len(),
            forall|j: int| 0 <= j < i ==> #[trigger] entries@[j].0@ != key@,
        decreases entries@.len() - i,
    {
        if entries[i].0 == *key {
            return Some(i);
        }
        i = i + 1;
    }
    None
}

/// Writes `device` under `key`, replacing a device already there, and tells
/// whether the key is new (as `HashMap::insert(..).is_none()`).
fn entries_insert(entries: &mut Vec<(String, Device)>, key: String, device: Device) -> (is_new: bool)
    requires
        keys_unique(old(entries)@),
    ensures
        keys_unique(final(entries)@),
        entries_map(final(entries)@) == entries_map(old(entries)@).insert(key@, device),
        is_new == !entries_map(old(entries)@).contains_key(key@),
{
    match find_key(entries, &key) {
        Some(i) => {
            proof {
                lemma_entries_update(entries@, i as int, (key, device));
                lemma_entries_lookup(entries@, i as int);
            }
            entries[i] = (key, device);
            false
        },
        None => {
            proof {
                lemma_entries_push(entries@, (key, device));
            }
            entries.push((key, device));
            true
        },
    }
}

/// Removes the device under `key`, if any, and tells whether there was one.
fn entries_remove(entries: &mut Vec<(String, Device)>, key: &String) -> (was_present: bool)
    requires
        keys_unique(old(entries)@),
    ensures
        keys_unique(final(entries)@),
        entries_map(final(entries)@) == entries_map(old(entries)@).remove(key@),
        was_present == entries_map(old(entries)@).contains_key(key@),
{
    match find_key(entries, key) {
        Some(i) => {
            proof {
                lemma_entries_remove(entries@, i as int);
                lemma_entries_lookup(entries@, i as int);
            }
            entries.remove(i);
            true
        },
        None => {
            assert(entries_map(entries@).remove(key@) =~= entries_map(entries@));
            false
        },
    }
}

/// The device under `key`, if any.
fn entries_get<'a>(entries: &'a Vec<(String, Device)>, key: &String) -> (r: Option<&'a Device>)
    requires
        keys_unique(entries@),
    ensures
        match r {
            Some(d) => entries_map(entries@).contains_key(key@) && *d == entries_map(entries@)[key@],
            None => !entries_map(entries@).contains_key(key@),
        },
{
    match find_key(entries, key) {
        Some(i) => {
            proof {
                lemma_entries_lookup(entries@, i as int);
            }
            Some(&entries[i].1)
        },
        None => None,
    }
}


/// The devices of the entries, in order.
fn entries_values(entries: &Vec<(String, Device)>) -> (r: Vec<Device>)
    ensures
        r@ == entries@.map_values(|e: (String, Device)| e.1),
{
    let mut out: Vec<Device> = Vec::new();
    let mut i: usize = 0;
    while i < entries.len()
        invariant
            i <= entries@.len(),
            out@ =~= entries@.take(i as int).map_values(|e: (String, Device)| e.1),
        decreases entries@.len() - i,
    {
        let d = entries[i].1.duplicate();
        out.push(d);
        i = i + 1;
        assert(out@ =~= entries@.take(i as int).map_values(|e: (String, Device)| e.1));
    }
    assert(entries@.take(i as int) =~= entries@);
    out
}

/// `list` holds the devices of `m`, each once: there is an order of the
/// keys of `m`, each key once, under which `list` lists their devices.
pub open spec fn lists_devices(list: Seq<Device>, m: Map<Seq<char>, Device>) -> bool {
    exists|keys: Seq<Seq<char>>|
        {
            &&& #[trigger] keys.len() == list.len()
            &&& keys.no_duplicates()
            &&& forall|k: Seq<char>| m.contains_key(k) <==> keys.contains(k)
            &&& forall|i: int| 0 <= i < list.len() ==> m[keys[i]] == list[i]
        }
}

/// The values of unique-keyed entries list the devices of their map.
proof fn lemma_entries_values_list(s: Seq<(String, Device)>)
    requires
        keys_unique(s),
    ensures
        lists_devices(s.map_values(|e: (String, Device)| e.1), entries_map(s)),
{
    let list = s.map_values(|e: (String, Device)| e.1);
    let keys = s.map_values(|e: (String, Device)| e.0@);
    let m = entries_map(s);
    assert(keys.no_duplicates()) by {
        assert forall|i: int, j: int| 0 <= i < keys.len() && 0 <= j < keys.len() && i != j implies keys[i] != keys[j] by {
            assert(keys[i] == s[i].0@ && keys[j] == s[j].0@);
        }
    }
    assert forall|k: Seq<char>| m.contains_key(k) <==> keys.contains(k) by {
        if m.contains_key(k) {
            let a = choose|a: int| 0 <= a < s.len() && #[trigger] s[a].0@ == k;
            assert(keys[a] == k);
        }
        if keys.contains(k) {
            let a = choose|a: int| 0 <= a < keys.len() && keys[a] == k;
            assert(s[a].0@ == k);
        }
    }
    assert forall|i: int| 0 <= i < list.len() implies m[keys[i]] == list[i] by {
        lemma_entries_lookup(s, i);
    }
    assert(keys.len() == list.len());
}

/// The registry's store: for each kind of device, the devices keyed by
/// display name, each name once.
pub struct AllDevicesInner {
    switch: Vec<(String, Device)>,
    shutter: Vec<(String, Device)>,
    light: Vec<(String, Device)>,
}

impl AllDevicesInner {
    /// The entries kept for `kind`.
    pub closed spec fn entries(&self, kind: DeviceKind) -> Seq<(String, Device)> {
        match kind {
            DeviceKind::Switch => self.switch@,
            DeviceKind::Shutter => self.shutter@,
            DeviceKind::Light => self.light@,
        }
    }

    /// The devices of `kind`, by display name.
    pub closed spec fn devices(&self, kind: DeviceKind) -> Map<Seq<char>, Device> {
        entries_map(self.entries(kind))
    }

    /// Every kind keeps each name once.
    #[verifier::type_invariant]
    spec fn wf(&self) -> bool {
        &&& keys_unique(self.switch@)
        &&& keys_unique(self.shutter@)
        &&& keys_unique(self.light@)
    }

    /// A store with no device.
    pub fn new() -> (r: Self)
        ensures
            forall|kind: DeviceKind| #[trigger] r.devices(kind) == Map::<Seq<char>, Device>::empty(),
    {
        let r = AllDevicesInner { switch: Vec::new(), shutter: Vec::new(), light: Vec::new() };
        assert forall|kind: DeviceKind| #[trigger] r.devices(kind) == Map::<Seq<char>, Device>::empty() by {
            assert(r.devices(kind) =~= Map::<Seq<char>, Device>::empty());
        }
        r
    }

    /// Writes `device` under `key` for `kind`, replacing what was there, and
    /// tells whether the key is new.
    pub fn insert(&mut self, kind: DeviceKind, key: String, device: Device) -> (is_new: bool)
        ensures
            final(self).devices(kind) == old(self).devices(kind).insert(key@, device),
            forall|k: DeviceKind| k != kind ==> #[trigger] final(self).devices(k) == old(self).devices(k),
            is_new == !old(self).devices(kind).contains_key(key@),
            old(self).devices(kind).dom().finite(),
            forall|k: DeviceKind| #[trigger] final(self).devices(k).dom().finite(),
    {
        proof {
            use_type_invariant(&*self);
            lemma_entries_map_finite(self.entries(kind));
        }
        let mut entries = self.take_entries(kind);
        let is_new = entries_insert(&mut entries, key, device);
        self.put_entries(kind, entries);
        proof {
            lemma_entries_map_finite(self.entries(DeviceKind::Switch));
            lemma_entries_map_finite(self.entries(DeviceKind::Shutter));
            lemma_entries_map_finite(self.entries(DeviceKind::Light));
            assert forall|k: DeviceKind| #[trigger] self.devices(k).dom().finite() by {
                match k {
                    DeviceKind::Switch => {},
                    DeviceKind::Shutter => {},
                    DeviceKind::Light => {},
                }
            }
        }
        is_new
    }

    /// Removes the device under `key` for `kind` and tells whether there was one.
    pub fn remove_key(&mut self, kind: DeviceKind, key: &String) -> (was_present: bool)
        ensures
            final(self).devices(kind) == old(self).devices(kind).remove(key@),
            forall|k: DeviceKind| k != kind ==> #[trigger] final(self).devices(k) == old(self).devices(k),
            was_present == old(self).devices(kind).contains_key(key@),
            old(self).devices(kind).dom().finite(),
            forall|k: DeviceKind| #[trigger] final(self).devices(k).dom().finite(),
    {
        proof {
            use_type_invariant(&*self);
            lemma_entries_map_finite(self.entries(kind));
        }
        let mut entries = self.take_entries(kind);
        let was_present = entries_remove(&mut entries, key);
        self.put_entries(kind, entries);
        proof {
            lemma_entries_map_finite(self.entries(DeviceKind::Switch));
            lemma_entries_map_finite(self.entries(DeviceKind::Shutter));
            lemma_entries_map_finite(self.entries(DeviceKind::Light));
            assert forall|k: DeviceKind| #[trigger] self.devices(k).dom().finite() by {
                match k {
                    DeviceKind::Switch => {},
                    DeviceKind::Shutter => {},
                    DeviceKind::Light => {},
                }
            }
        }
        was_present
    }

    /// Takes the entries of `kind` out, leaving none for it.
    fn take_entries(&mut self, kind: DeviceKind) -> (r: Vec<(String, Device)>)
        ensures
            r@ == old(self).entries(kind),
            keys_unique(r@),
            final(self).entries(kind) == Seq::<(String, Device)>::empty(),
            forall|k: DeviceKind| k != kind ==> #[trigger] final(self).entries(k) == old(self).entries(k),
    {
        proof {
            use_type_invariant(&*self);
        }
        let mut r: Vec<(String, Device)> = Vec::new();
        match kind {
            DeviceKind::Switch => std::mem::swap(&mut r, &mut self.switch),
            DeviceKind::Shutter => std::mem::swap(&mut r, &mut self.shutter),
            DeviceKind::Light => std::mem::swap(&mut r, &mut self.light),
        }
        r
    }

    /// Puts `entries` in as the entries of `kind`.
    fn put_entries(&mut self, kind: DeviceKind, entries: Vec<(String, Device)>)
        requires
            keys_unique(entries@),
        ensures
            final(self).entries(kind) == entries@,
            forall|k: DeviceKind| k != kind ==> #[trigger] final(self).entries(k) == old(self).entries(k),
    {
        proof {
            use_type_invariant(&*self);
        }
        match kind {
            DeviceKind::Switch => self.switch = entries,
            DeviceKind::Shutter => self.shutter = entries,
            DeviceKind::Light => self.light = entries,
        }
    }

    /// The device under `key` for `kind`, if any.
    pub fn get(&self, kind: DeviceKind, key: &String) -> (r: Option<&Device>)
        ensures
            match r {
                Some(d) => self.devices(kind).contains_key(key@) && *d == self.devices(kind)[key@],
                None => !self.devices(kind).contains_key(key@),
            },
    {
        proof {
            use_type_invariant(self);
        }
        match kind {
            DeviceKind::Switch => entries_get(&self.switch, key),
            DeviceKind::Shutter => entries_get(&self.shutter, key),
            DeviceKind::Light => entries_get(&self.light, key),
        }
    }

    /// The entries of `kind`: each name once, with its device.
    pub fn entries_of(&self, kind: DeviceKind) -> (r: &Vec<(String, Device)>)
        ensures
            keys_unique(r@),
            entries_map(r@) == self.devices(kind),
            r@ == self.entries(kind),
    {
        proof {
            use_type_invariant(self);
        }
        match kind {
            DeviceKind::Switch => &self.switch,
            DeviceKind::Shutter => &self.shutter,
            DeviceKind::Light => &self.light,
        }
    }
}

impl AllDevices {
    /// The devices of every kind of a store, as lists.
    pub fn from_inner(from: &AllDevicesInner) -> (r: AllDevices)
        ensures
            lists_devices(r.switch@, from.devices(DeviceKind::Switch)),
            lists_devices(r.shutter@, from.devices(DeviceKind::Shutter)),
            lists_devices(r.light@, from.devices(DeviceKind::Light)),
    {
        let switch = entries_values(from.entries_of(DeviceKind::Switch));
        let shutter = entries_values(from.entries_of(DeviceKind::Shutter));
        let light = entries_values(from.entries_of(DeviceKind::Light));
        proof {
            lemma_entries_values_list(from.entries(DeviceKind::Switch));
            lemma_entries_values_list(from.entries(DeviceKind::Shutter));
            lemma_entries_values_list(from.entries(DeviceKind::Light));
        }
        AllDevices { switch, shutter, light }
    }
}


/// The device registered under `name`, if any.
pub open spec fn lookup(m: Map<Seq<char>, Device>, name: Seq<char>) -> Option<Device> {
    if m.contains_key(name) {
        Some(m[name])
    } else {
        None
    }
}

/// The devices of a kind after registering `device` under its display name.
pub open spec fn added(m: Map<Seq<char>, Device>, device: Device) -> Map<Seq<char>, Device> {
    m.insert(device.display_name@, device)
}

/// The devices of a kind after removing the one under `name`.
pub open spec fn removed(m: Map<Seq<char>, Device>, name: Seq<char>) -> Map<Seq<char>, Device> {
    m.remove(name)
}

/// A lookup after registering a device finds that device under its name.
pub proof fn law_get_after_add(m: Map<Seq<char>, Device>, device: Device)
    ensures
        lookup(added(m, device), device.display_name@) == Some(device),
{
}

/// Registering a device leaves every other name as it was.
pub proof fn law_add_keeps_other_names(m: Map<Seq<char>, Device>, device: Device, name: Seq<char>)
    requires
        name != device.display_name@,
    ensures
        lookup(added(m, device), name) == lookup(m, name),
{
}

/// A lookup after removing a name finds nothing under it.
pub proof fn law_get_after_remove(m: Map<Seq<char>, Device>, name: Seq<char>)
    ensures
        lookup(removed(m, name), name) is None,
{
}

/// Removing a name leaves every other name as it was.
pub proof fn law_remove_keeps_other_names(m: Map<Seq<char>, Device>, name: Seq<char>, other: Seq<char>)
    requires
        other != name,
    ensures
        lookup(removed(m, name), other) == lookup(m, other),
{
}

/// Removing the name of a device just registered under a new name gives
/// back the devices as they were.
pub proof fn law_remove_undoes_add(m: Map<Seq<char>, Device>, device: Device)
    requires
        lookup(m, device.display_name@) is None,
    ensures
        removed(added(m, device), device.display_name@) == m,
{
    assert(removed(added(m, device), device.display_name@) =~= m);
}

/// Registering a device twice changes nothing the second time, and the
/// second registration reports the name as known.
pub proof fn law_add_is_idempotent(m: Map<Seq<char>, Device>, device: Device)
    ensures
        added(added(m, device), device) == added(m, device),
        lookup(added(m, device), device.display_name@) is Some,
{
    assert(added(added(m, device), device) =~= added(m, device));
}

/// The registry of devices by kind and display name. Callers that share it
/// hold it behind a lock; writing it to disk after a change is theirs too.
pub struct DevicesManager {
    inner: AllDevicesInner,
}

impl DevicesManager {
    /// The devices of `kind`, by display name.
    pub closed spec fn devices(&self, kind: DeviceKind) -> Map<Seq<char>, Device> {
        self.inner.devices(kind)
    }

    /// A registry over a loaded store.
    pub fn from_inner(inner: AllDevicesInner) -> (r: Self)
        ensures
            forall|kind: DeviceKind| #[trigger] r.devices(kind) == inner.devices(kind),
    {
        DevicesManager { inner }
    }

    /// The store, to be written to disk.
    pub fn inner(&self) -> (r: &AllDevicesInner)
        ensures
            forall|kind: DeviceKind| #[trigger] r.devices(kind) == self.devices(kind),
    {
        &self.inner
    }

    /// All devices, as lists by kind.
    pub fn to_gql(&self) -> (r: AllDevices)
        ensures
            lists_devices(r.switch@, self.devices(DeviceKind::Switch)),
            lists_devices(r.shutter@, self.devices(DeviceKind::Shutter)),
            lists_devices(r.light@, self.devices(DeviceKind::Light)),
    {
        AllDevices::from_inner(&self.inner)
    }

    /// The device of `kind` registered under `display_name`.
    pub fn get_by_display_name(&self, kind: DeviceKind, display_name: &str) -> (r: Result<Device, DeviceNotFound>)
        ensures
            match r {
                Ok(d) => lookup(self.devices(kind), display_name@) == Some(d),
                Err(_) => lookup(self.devices(kind), display_name@) is None,
            },
    {
        let key = String::from_str(display_name);
        match self.inner.get(kind, &key) {
            Some(d) => Ok(d.duplicate()),
            None => Err(DeviceNotFound::new()),
        }
    }

    /// Registers `device` under its display name for `kind`, replacing a
    /// device registered there, and tells whether the name is new (only then
    /// is the registry to be saved).
    pub fn add(&mut self, kind: DeviceKind, device: Device) -> (is_changed: bool)
        ensures
            final(self).devices(kind) == added(old(self).devices(kind), device),
            forall|k: DeviceKind| k != kind ==> #[trigger] final(self).devices(k) == old(self).devices(k),
            is_changed == (lookup(old(self).devices(kind), device.display_name@) is None),
            old(self).devices(kind).dom().finite(),
            forall|k: DeviceKind| #[trigger] final(self).devices(k).dom().finite(),
            is_changed ==> final(self).devices(kind).len() == old(self).devices(kind).len() + 1,
            !is_changed ==> final(self).devices(kind).len() == old(self).devices(kind).len(),
    {
        let key = device.display_name.clone();
        self.inner.insert(kind, key, device)
    }

    /// Removes the device of `kind` registered under `display_name`. The
    /// answer is `true` exactly when no device was registered under the name
    /// (`HashMap::remove(..).is_none()`), and only then is the registry saved.
    pub fn remove(&mut self, kind: DeviceKind, display_name: String) -> (is_changed: bool)
        ensures
            final(self).devices(kind) == removed(old(self).devices(kind), display_name@),
            forall|k: DeviceKind| k != kind ==> #[trigger] final(self).devices(k) == old(self).devices(k),
            is_changed == (lookup(old(self).devices(kind), display_name@) is None),
            old(self).devices(kind).dom().finite(),
            forall|k: DeviceKind| #[trigger] final(self).devices(k).dom().finite(),
            is_changed ==> final(self).devices(kind).len() == old(self).devices(kind).len(),
            !is_changed ==> final(self).devices(kind).len() + 1 == old(self).devices(kind).len(),
    {
        let was_present = self.inner.remove_key(kind, &display_name);
        !was_present
    }
}

} // verus!
