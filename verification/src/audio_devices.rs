//! Audio input devices, decoded from one snapshot of the system's device
//! list.
//!
//! The bridge reports a device count, the index of the default device and,
//! for each index below the count, the device there, or nothing when its id
//! or name is unreadable. Unreadable entries are dropped from the list.

use vstd::prelude::*;

verus! {

/// An audio input device.
#[derive(Debug, Clone, PartialEq, Eq)]
pub struct AudioInputDevice {
    pub id: String,
    pub name: String,
    pub is_default: bool,
}

/// What one snapshot of the device list reported.
#[derive(Debug)]
pub struct DeviceSnapshot {
    /// Whether the bridge produced a snapshot at all.
    pub present: bool,
    /// The device count as reported.
    pub raw_count: isize,
    /// The default device's index as reported.
    pub raw_default_index: isize,
    /// The device at each index below the count, or `None` when unreadable.
    pub entries: Vec<Option<AudioInputDevice>>,
}

/// The number of devices a snapshot holds: zero without a snapshot or for
/// a negative count.
pub open spec fn snapshot_count(s: DeviceSnapshot) -> int {
    if !s.present || s.raw_count < 0 {
        0
    } else {
        s.raw_count as int
    }
}

/// The index of the default device, when it is a valid index.
pub open spec fn snapshot_default_index(s: DeviceSnapshot) -> Option<int> {
    if !s.present || s.raw_default_index < 0 || s.raw_default_index >= snapshot_count(s) {
        None
    } else {
        Some(s.raw_default_index as int)
    }
}

/// The readable devices among `entries`, in order.
pub open spec fn readable(entries: Seq<Option<AudioInputDevice>>) -> Seq<AudioInputDevice>
    decreases entries.len(),
{
    if entries.len() == 0 {
        Seq::empty()
    } else {
        let rest = readable(entries.drop_last());
        match entries.last() {
            Some(d) => rest.push(d),
            None => rest,
        }
    }
}

/// The entries a snapshot covers: those below its count.
pub open spec fn covered(s: DeviceSnapshot) -> Seq<Option<AudioInputDevice>> {
    if snapshot_count(s) < s.entries@.len() {
        s.entries@.take(snapshot_count(s))
    } else {
        s.entries@
    }
}

/// The entry at `index`, or `None` outside the entries.
pub open spec fn entry_at(s: DeviceSnapshot, index: int) -> Option<AudioInputDevice> {
    if 0 <= index < s.entries@.len() {
        s.entries@[index]
    } else {
        None
    }
}

/// The position of the first default device in `devices`.
pub open spec fn first_default(devices: Seq<AudioInputDevice>) -> Option<int>
    decreases devices.len(),
{
    if devices.len() == 0 {
        None
    } else if devices[0].is_default {
        Some(0)
    } else {
        match first_default(devices.drop_first()) {
            Some(i) => Some(i + 1),
            None => None,
        }
    }
}

/// A copy of a device with equal fields.
fn copy_device(d: &AudioInputDevice) -> (c: AudioInputDevice)
    ensures
        c == *d,
{
    AudioInputDevice { id: d.id.clone(), name: d.name.clone(), is_default: d.is_default }
}

impl DeviceSnapshot {
    /// The number of devices in the snapshot.
    pub fn count(&self) -> (n: usize)
        ensures
            n == snapshot_count(*self),
    {
        if !self.present || self.raw_count < 0 {
            0
        } else {
            self.raw_count as usize
        }
    }

    /// The index of the default device, when it is below the count.
    pub fn default_index(&self) -> (i: Option<usize>)
        ensures
            snapshot_default_index(*self) matches Some(k) ==> i == Some(k as usize),
            snapshot_default_index(*self) is None ==> i is None,
    {
        if !self.present || self.raw_default_index < 0 {
            return None;
        }
        let index = self.raw_default_index as usize;
        if index < self.count() {
            Some(index)
        } else {
            None
        }
    }

    /// The device at `index`, when it is readable.
    pub fn device_at(&self, index: isize) -> (d: Option<AudioInputDevice>)
        ensures
            d == entry_at(*self, index as int),
    {
        if index < 0 || index as usize >= self.entries.len() {
            return None;
        }
        match &self.entries[index as usize] {
            Some(dev) => Some(copy_device(dev)),
            None => None,
        }
    }

    /// The readable devices below the count, in order.
    pub fn devices(&self) -> (v: Vec<AudioInputDevice>)
        ensures
            v@ == readable(covered(*self)),
    {
        let count = self.count();
        let n: usize = if count < self.entries.len() {
            count
        } else {
            self.entries.len()
        };
        let mut v: Vec<AudioInputDevice> = Vec::new();
        let mut i: usize = 0;
        while i < n
            invariant
                n <= self.entries@.len(),
                n == (if snapshot_count(*self) < self.entries@.len() {
                    snapshot_count(*self)
                } else {
                    self.entries@.len() as int
                }),
                i <= n,
                v@ == readable(self.entries@.take(i as int)),
            decreases n - i,
        {
            proof {
                assert(self.entries@.take(i + 1).drop_last() =~= self.entries@.take(i as int));
            }
            match &self.entries[i] {
                Some(dev) => {
                    v.push(copy_device(dev));
                },
                None => {},
            }
            i = i + 1;
        }
        proof {
            if snapshot_count(*self) >= self.entries@.len() {
                assert(self.entries@.take(n as int) =~= self.entries@);
            }
        }
        v
    }
}

impl AudioInputDevice {
    /// All readable input devices of the snapshot.
    pub fn list(snapshot: &DeviceSnapshot) -> (v: Vec<Self>)
        ensures
            v@ == readable(covered(*snapshot)),
    {
        snapshot.devices()
    }

    /// The default input device: the device at the reported default index,
    /// when that index is valid and the device there is readable.
    pub fn default_device(snapshot: &DeviceSnapshot) -> (d: Option<Self>)
        ensures
            snapshot_default_index(*snapshot) is None ==> d is None,
            snapshot_default_index(*snapshot) matches Some(k) ==> d == entry_at(*snapshot, k),
    {
        match snapshot.default_index() {
            Some(index) => {
                if index > isize::MAX as usize {
                    return None;
                }
                snapshot.device_at(index as isize)
            },
            None => None,
        }
    }

    /// The readable devices together with the position of the default one
    /// in that list. The position is taken from the list itself: dropped
    /// entries shift the snapshot's indices.
    pub fn list_with_default(snapshot: &DeviceSnapshot) -> (r: (Vec<Self>, Option<usize>))
        ensures
            r.0@ == readable(covered(*snapshot)),
            first_default(r.0@) matches Some(k) ==> r.1 == Some(k as usize),
            first_default(r.0@) is None ==> r.1 is None,
    {
        let devices = snapshot.devices();
        let mut i: usize = 0;
        while i < devices.len()
            invariant
                i <= devices@.len(),
                devices@ == readable(covered(*snapshot)),
                forall|j: int| 0 <= j < i ==> !(#[trigger] devices@[j]).is_default,
            decreases devices@.len() - i,
        {
            if devices[i].is_default {
                proof {
                    lemma_first_default_at(devices@, i as int);
                }
                return (devices, Some(i));
            }
            i = i + 1;
        }
        proof {
            lemma_no_default(devices@);
        }
        (devices, None)
    }
}

proof fn lemma_first_default_at(devices: Seq<AudioInputDevice>, i: int)
    requires
        0 <= i < devices.len(),
        devices[i].is_default,
        forall|j: int| 0 <= j < i ==> !(#[trigger] devices[j]).is_default,
    ensures
        first_default(devices) == Some(i),
    decreases i,
{
    if i > 0 {
        let rest = devices.drop_first();
        assert forall|j: int| 0 <= j < i - 1 implies !(#[trigger] rest[j]).is_default by {
            assert(rest[j] == devices[j + 1]);
        }
        lemma_first_default_at(rest, i - 1);
    }
}

proof fn lemma_no_default(devices: Seq<AudioInputDevice>)
    requires
        forall|j: int| 0 <= j < devices.len() ==> !(#[trigger] devices[j]).is_default,
    ensures
        first_default(devices) is None,
    decreases devices.len(),
{
    if devices.len() > 0 {
        let rest = devices.drop_first();
        assert forall|j: int| 0 <= j < rest.len() implies !(#[trigger] rest[j]).is_default by {
            assert(rest[j] == devices[j + 1]);
        }
        lemma_no_default(rest);
    }
}

/// The default position that `list_with_default` reports designates a
/// default device of the returned list, and no earlier device is a default.
pub proof fn lemma_default_position_is_default(devices: Seq<AudioInputDevice>)
    ensures
        first_default(devices) matches Some(k) ==> {
            &&& 0 <= k < devices.len()
            &&& devices[k].is_default
            &&& forall|j: int| 0 <= j < k ==> !devices[j].is_default
        },
        first_default(devices) is None ==> forall|j: int| 0 <= j < devices.len() ==> !devices[j].is_default,
    decreases devices.len(),
{
    if devices.len() > 0 && !devices[0].is_default {
        let rest = devices.drop_first();
        lemma_default_position_is_default(rest);
        assert forall|j: int| 0 <= j < rest.len() implies rest[j] == devices[j + 1] by {}
        assert forall|j: int| 1 <= j < devices.len() implies devices[j] == rest[j - 1] by {}
    }
}

proof fn lemma_readable_keeps(entries: Seq<Option<AudioInputDevice>>, i: int, d: AudioInputDevice)
    requires
        0 <= i < entries.len(),
        entries[i] == Some(d),
    ensures
        readable(entries).contains(d),
    decreases entries.len(),
{
    let rest = readable(entries.drop_last());
    if i == entries.len() - 1 {
        assert(readable(entries) == rest.push(d));
        assert(readable(entries)[rest.len() as int] == d);
    } else {
        assert(entries.drop_last()[i] == entries[i]);
        lemma_readable_keeps(entries.drop_last(), i, d);
        let k = choose|k: int| 0 <= k < rest.len() && rest[k] == d;
        match entries.last() {
            Some(x) => {
                assert(readable(entries) == rest.push(x));
                assert(readable(entries)[k] == d);
            },
            None => {},
        }
    }
}

/// The default device is one of the listed devices: what `default_device`
/// returns for a snapshot is in what `list` returns for it.
pub proof fn lemma_default_device_is_listed(s: DeviceSnapshot)
    ensures
        snapshot_default_index(s) matches Some(k) ==> (entry_at(s, k) matches Some(d) ==> readable(
            covered(s),
        ).contains(d)),
{
    if let Some(k) = snapshot_default_index(s) {
        if let Some(d) = entry_at(s, k) {
            let c = covered(s);
            assert(c[k] == s.entries@[k]);
            lemma_readable_keeps(c, k, d);
        }
    }
}

} // verus!
