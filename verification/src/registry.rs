//! The devices that the hub knows: for each its name, its identifier, the
//! address at which it is reached and the level it was last known to aim at.
//!
//! The registry keeps every name in its lower-case form, and a request is
//! folded to lower case before a name is looked up; so names are found without
//! regard to case.

use crate::action::LEVELS;
use crate::text::{lowercase_of, lowercased};
use vstd::prelude::*;

verus! {

/// One device as the hub knows it.
#[derive(Clone, Debug, PartialEq, Eq)]
pub struct Device {
    /// The name by which people call the device. In the registry it stands in
    /// lower case.
    pub name: String,
    /// The 128-bit identifier of the device.
    pub uuid: u128,
    /// The network address at which the device is reached.
    pub ip: String,
    /// The level that the device was last known to aim at.
    pub target: usize,
}

impl Device {
    /// The name as the bytes of its UTF-8 text.
    pub open spec fn name_bytes(self) -> Seq<u8> {
        vstd::utf8::encode_utf8(self.name@)
    }

    /// The device answers to this name: it is the name as the registry keeps
    /// it, letter for letter.
    pub open spec fn is_named(self, name: Seq<char>) -> bool {
        self.name@ == name
    }

    /// The device answers to this abbreviation: the first two bytes of its
    /// name.
    pub open spec fn is_abbreviated(self, letters: Seq<u8>) -> bool {
        &&& letters.len() == 2
        &&& self.name_bytes().len() >= 2
        &&& self.name_bytes().take(2) == letters
    }
}

/// A device as the registry keeps it: under the lower-case form of its name,
/// and else as it was given.
pub open spec fn kept_as(given: Device, kept: Device) -> bool {
    &&& kept.name@ == lowercase_of(given.name@)
    &&& kept.uuid == given.uuid
    &&& kept.ip == given.ip
    &&& kept.target == given.target
}

/// The position of the first device from `i` on that has this identifier.
pub open spec fn by_uuid_from(ds: Seq<Device>, uuid: u128, i: int) -> Option<int>
    decreases ds.len() - i,
{
    if i < 0 || i >= ds.len() {
        None
    } else if ds[i].uuid == uuid {
        Some(i)
    } else {
        by_uuid_from(ds, uuid, i + 1)
    }
}

/// The position of the first device from `i` on that answers to this name.
pub open spec fn by_name_from(ds: Seq<Device>, name: Seq<char>, i: int) -> Option<int>
    decreases ds.len() - i,
{
    if i < 0 || i >= ds.len() {
        None
    } else if ds[i].is_named(name) {
        Some(i)
    } else {
        by_name_from(ds, name, i + 1)
    }
}

/// The position of the first device from `i` on that answers to this
/// abbreviation.
pub open spec fn by_abbreviation_from(ds: Seq<Device>, letters: Seq<u8>, i: int) -> Option<int>
    decreases ds.len() - i,
{
    if i < 0 || i >= ds.len() {
        None
    } else if ds[i].is_abbreviated(letters) {
        Some(i)
    } else {
        by_abbreviation_from(ds, letters, i + 1)
    }
}

/// The position of the device with this identifier.
pub open spec fn by_uuid(ds: Seq<Device>, uuid: u128) -> Option<int> {
    by_uuid_from(ds, uuid, 0)
}

/// The position of the first device that answers to this name.
pub open spec fn by_name(ds: Seq<Device>, name: Seq<char>) -> Option<int> {
    by_name_from(ds, name, 0)
}

/// The position of the first device that answers to this abbreviation.
pub open spec fn by_abbreviation(ds: Seq<Device>, letters: Seq<u8>) -> Option<int> {
    by_abbreviation_from(ds, letters, 0)
}

/// No two devices share an identifier, and every last-known level is one of
/// the levels.
pub open spec fn well_formed(ds: Seq<Device>) -> bool {
    &&& forall|i: int, j: int|
        0 <= i < j < ds.len() ==> (#[trigger] ds[i]).uuid != (#[trigger] ds[j]).uuid
    &&& forall|i: int| 0 <= i < ds.len() ==> (#[trigger] ds[i]).target < LEVELS
}

/// What a search by identifier finds: the first device from `i` on with that
/// identifier, or nothing where there is none.
pub proof fn lemma_by_uuid_from(ds: Seq<Device>, uuid: u128, i: int)
    requires
        0 <= i <= ds.len(),
    ensures
        match by_uuid_from(ds, uuid, i) {
            Some(k) => i <= k < ds.len() && ds[k].uuid == uuid && forall|j: int|
                i <= j < k ==> ds[j].uuid != uuid,
            None => forall|j: int| i <= j < ds.len() ==> ds[j].uuid != uuid,
        },
    decreases ds.len() - i,
{
    if i < ds.len() && ds[i].uuid != uuid {
        lemma_by_uuid_from(ds, uuid, i + 1);
    }
}

/// What a search by name finds: the first device from `i` on of that name, or
/// nothing where there is none.
pub proof fn lemma_by_name_from(ds: Seq<Device>, name: Seq<char>, i: int)
    requires
        0 <= i <= ds.len(),
    ensures
        match by_name_from(ds, name, i) {
            Some(k) => i <= k < ds.len() && ds[k].is_named(name) && forall|j: int|
                i <= j < k ==> !ds[j].is_named(name),
            None => forall|j: int| i <= j < ds.len() ==> !ds[j].is_named(name),
        },
    decreases ds.len() - i,
{
    if i < ds.len() && !ds[i].is_named(name) {
        lemma_by_name_from(ds, name, i + 1);
    }
}

/// Names are found without regard to case: a device that was registered
/// under some name is found by every text with the same lower-case form as
/// that name, unless a device registered before it answers to it too.
pub proof fn lemma_name_is_found_without_case(
    ds: Seq<Device>,
    i: int,
    given: Seq<char>,
    asked: Seq<char>,
)
    requires
        0 <= i < ds.len(),
        ds[i].name@ == lowercase_of(given),
        lowercase_of(asked) == lowercase_of(given),
    ensures
        by_name(ds, lowercase_of(asked)) matches Some(k) && k <= i && ds[k].name@ == ds[i].name@,
{
    lemma_by_name_from(ds, lowercase_of(asked), 0);
}

/// What a search by abbreviation finds: a device that answers to it, or
/// nothing where none does.
pub proof fn lemma_by_abbreviation_from(ds: Seq<Device>, letters: Seq<u8>, i: int)
    requires
        0 <= i <= ds.len(),
    ensures
        match by_abbreviation_from(ds, letters, i) {
            Some(k) => i <= k < ds.len() && ds[k].is_abbreviated(letters),
            None => forall|j: int| i <= j < ds.len() ==> !ds[j].is_abbreviated(letters),
        },
    decreases ds.len() - i,
{
    if i < ds.len() && !ds[i].is_abbreviated(letters) {
        lemma_by_abbreviation_from(ds, letters, i + 1);
    }
}

/// The devices in the order in which they were registered.
pub struct Registry {
    devices: Vec<Device>,
}

impl View for Registry {
    type V = Seq<Device>;

    closed spec fn view(&self) -> Seq<Device> {
        self.devices@
    }
}

impl Registry {
    /// No two devices share an identifier, and every last-known level is one
    /// of the levels. `new` gives such a registry, and `register` and
    /// `record_target` keep it so.
    pub open spec fn wf(&self) -> bool {
        well_formed(self@)
    }

    /// A registry without devices.
    pub fn new() -> (r: Registry)
        ensures
            r@ == Seq::<Device>::empty(),
            r.wf(),
    {
        Registry { devices: Vec::new() }
    }

    /// The number of devices.
    pub fn len(&self) -> (n: usize)
        ensures
            n == self@.len(),
    {
        self.devices.len()
    }

    /// The device at a position.
    pub fn device(&self, i: usize) -> (d: &Device)
        requires
            i < self@.len(),
        ensures
            *d == self@[i as int],
            self.wf() ==> d.target < LEVELS,
    {
        &self.devices[i]
    }

    /// Where the device with this identifier stands.
    pub fn position(&self, uuid: u128) -> (r: Option<usize>)
        ensures
            r is Some <==> by_uuid(self@, uuid) is Some,
            r matches Some(i) ==> by_uuid(self@, uuid) == Some(i as int) && i < self@.len()
                && self@[i as int].uuid == uuid,
            self.wf() ==> (r matches Some(i) ==> forall|j: int|
                0 <= j < self@.len() && j != i ==> self@[j].uuid != uuid),
    {
        let mut i: usize = 0;
        while i < self.devices.len()
            invariant
                i <= self.devices@.len(),
                by_uuid(self.devices@, uuid) == by_uuid_from(self.devices@, uuid, i as int),
            decreases self.devices.len() - i,
        {
            if self.devices[i].uuid == uuid {
                return Some(i);
            }
            i += 1;
        }
        None
    }

    /// Where the first device that answers to this name stands.
    pub fn position_by_name(&self, name: &str) -> (r: Option<usize>)
        ensures
            r is Some <==> by_name(self@, name@) is Some,
            r matches Some(i) ==> by_name(self@, name@) == Some(i as int) && i < self@.len()
                && self@[i as int].is_named(name@),
    {
        let wanted: String = name.to_owned();
        let mut i: usize = 0;
        while i < self.devices.len()
            invariant
                i <= self.devices@.len(),
                wanted@ == name@,
                by_name(self.devices@, name@) == by_name_from(self.devices@, name@, i as int),
            decreases self.devices.len() - i,
        {
            if self.devices[i].name == wanted {
                return Some(i);
            }
            i += 1;
        }
        None
    }

    /// Where the first device that answers to this abbreviation stands.
    pub fn position_by_abbreviation(&self, letters: &[u8]) -> (r: Option<usize>)
        ensures
            r is Some <==> by_abbreviation(self@, letters@) is Some,
            r matches Some(i) ==> by_abbreviation(self@, letters@) == Some(i as int) && i
                < self@.len() && self@[i as int].is_abbreviated(letters@),
    {
        if letters.len() != 2 {
            proof {
                lemma_by_abbreviation_from(self.devices@, letters@, 0);
            }
            return None;
        }
        let mut i: usize = 0;
        while i < self.devices.len()
            invariant
                i <= self.devices@.len(),
                letters@.len() == 2,
                by_abbreviation(self.devices@, letters@) == by_abbreviation_from(
                    self.devices@,
                    letters@,
                    i as int,
                ),
            decreases self.devices.len() - i,
        {
            let name: &[u8] = self.devices[i].name.as_str().as_bytes();
            if name.len() >= 2 {
                let head: &[u8] = vstd::slice::slice_subrange(name, 0, 2);
                assert(head@ =~= name@.take(2));
                if head[0] == letters[0] && head[1] == letters[1] {
                    assert(head@ =~= letters@);
                    return Some(i);
                }
                assert(head@ != letters@);
            }
            i += 1;
        }
        None
    }

    /// Adds a device at the end, under the lower-case form of its name,
    /// unless its identifier is taken or its level is none of the levels; then
    /// the registry stays as it is.
    pub fn register(&mut self, device: Device) -> (added: bool)
        ensures
            added <==> by_uuid(old(self)@, device.uuid) is None && device.target < LEVELS,
            added ==> final(self)@.len() == old(self)@.len() + 1 && final(self)@.drop_last() == old(
                self,
            )@ && kept_as(device, final(self)@.last()),
            !added ==> final(self)@ == old(self)@,
            old(self).wf() ==> final(self).wf(),
    {
        proof {
            lemma_by_uuid_from(self.devices@, device.uuid, 0);
        }
        if device.target >= LEVELS || self.position(device.uuid).is_some() {
            return false;
        }
        let kept = Device {
            name: lowercased(device.name.as_str()),
            uuid: device.uuid,
            ip: device.ip,
            target: device.target,
        };
        self.devices.push(kept);
        assert(self.devices@.drop_last() =~= old(self).devices@);
        true
    }

    /// Records the level that a device reported, if the device is known and
    /// the level is one of the levels.
    pub fn record_target(&mut self, uuid: u128, target: usize) -> (done: bool)
        ensures
            done <==> by_uuid(old(self)@, uuid) is Some && target < LEVELS,
            !done ==> final(self)@ == old(self)@,
            done ==> final(self)@ == old(self)@.update(
                by_uuid(old(self)@, uuid).unwrap(),
                Device { target: target, ..old(self)@[by_uuid(old(self)@, uuid).unwrap()] },
            ),
            old(self).wf() ==> final(self).wf(),
    {
        if target >= LEVELS {
            return false;
        }
        match self.position(uuid) {
            None => false,
            Some(i) => {
                let d = &self.devices[i];
                let changed = Device { name: d.name.clone(), uuid: d.uuid, ip: d.ip.clone(), target };
                self.devices.set(i, changed);
                true
            },
        }
    }
}

} // verus!
