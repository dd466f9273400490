//! The registry of trusted phones: each device is known by the base64 text of
//! its Noise static public key. Generic over the access-mode type, which differs
//! between the desktop server and the PC server.

use vstd::prelude::*;
use crate::search::{first_index, is_first_index, lemma_first_index_at, lemma_first_index_exists, lemma_first_index_none};
use crate::b64::b64_encode;
use crate::outside::{base64_encode, new_uuid_text, is_uuid_v4_text};
use crate::text::{concat3, str_eq};

verus! {

/// A phone allowed to send commands.
pub struct TrustedDevice<M> {
    pub id: String,
    pub name: String,
    /// The phone's Noise static public key, base64.
    pub public_key_b64: String,
    pub mode: M,
}

/// The trusted phones, in the order they were paired.
pub struct DeviceRegistry<M> {
    pub devices: Vec<TrustedDevice<M>>,
}

/// What the UI lists of a device: everything but its key.
pub struct DeviceSummary<M> {
    pub id: String,
    pub name: String,
    pub mode: M,
}

/// The device predicate: its stored key text is `key`.
pub open spec fn has_key<M>(key: Seq<char>) -> spec_fn(TrustedDevice<M>) -> bool {
    |d: TrustedDevice<M>| d.public_key_b64@ == key
}

/// The device predicate: its id is `id`.
pub open spec fn has_id<M>(id: Seq<char>) -> spec_fn(TrustedDevice<M>) -> bool {
    |d: TrustedDevice<M>| d.id@ == id
}

/// The device predicate: its id is not `id`.
pub open spec fn lacks_id<M>(id: Seq<char>) -> spec_fn(TrustedDevice<M>) -> bool {
    |d: TrustedDevice<M>| d.id@ != id
}

/// No two devices hold the same key.
pub open spec fn unique_keys<M>(devices: Seq<TrustedDevice<M>>) -> bool {
    forall|i: int, j: int|
        0 <= i < devices.len() && 0 <= j < devices.len() && i != j
            ==> #[trigger] devices[i].public_key_b64@ != #[trigger] devices[j].public_key_b64@
}

/// Position of the device registered for a raw public key.
pub open spec fn key_index<M>(devices: Seq<TrustedDevice<M>>, pubkey: Seq<u8>) -> Option<int> {
    first_index(devices, has_key::<M>(b64_encode(pubkey)))
}

/// Position of the device with an id.
pub open spec fn id_index<M>(devices: Seq<TrustedDevice<M>>, id: Seq<char>) -> Option<int> {
    first_index(devices, has_id::<M>(id))
}

/// The error text of a missing device.
pub open spec fn device_not_found(id: Seq<char>) -> Seq<char> {
    "Устройство "@ + id + " не найдено"@
}

impl<M: Copy> TrustedDevice<M> {
    /// A copy equal to `self`.
    pub fn duplicate(&self) -> (r: Self)
        ensures
            r == *self,
    {
        TrustedDevice {
            id: self.id.clone(),
            name: self.name.clone(),
            public_key_b64: self.public_key_b64.clone(),
            mode: self.mode,
        }
    }
}

impl<M: Copy> DeviceRegistry<M> {
    /// An empty registry.
    pub fn new() -> (r: Self)
        ensures
            r.devices@.len() == 0,
    {
        DeviceRegistry { devices: Vec::new() }
    }

    /// The device whose stored key is the base64 of `pubkey`, if any.
    pub fn find_by_pubkey(&self, pubkey: &[u8]) -> (r: Option<&TrustedDevice<M>>)
        requires
            pubkey@.len() <= usize::MAX / 2,
        ensures
            match key_index(self.devices@, pubkey@) {
                Some(i) => r == Some(&self.devices@[i]),
                None => r is None,
            },
    {
        let key_b64 = base64_encode(pubkey);
        let mut i: usize = 0;
        while i < self.devices.len()
            invariant
                i <= self.devices@.len(),
                key_b64@ == b64_encode(pubkey@),
                forall|j: int| 0 <= j < i ==> !has_key::<M>(key_b64@)(#[trigger] self.devices@[j]),
            decreases self.devices@.len() - i,
        {
            if self.devices[i].public_key_b64 == key_b64 {
                proof { lemma_first_index_at(self.devices@, has_key::<M>(key_b64@), i as int); }
                return Some(&self.devices[i]);
            }
            i = i + 1;
        }
        proof { lemma_first_index_none(self.devices@, has_key::<M>(key_b64@)); }
        None
    }

    /// Position of the first device with the id `id`.
    fn position_of_id(&self, id: &str) -> (r: Option<usize>)
        ensures
            match r {
                Some(k) => id_index(self.devices@, id@) == Some(k as int) && k < self.devices@.len(),
                None => id_index(self.devices@, id@) is None,
            },
    {
        let mut i: usize = 0;
        while i < self.devices.len()
            invariant
                i <= self.devices@.len(),
                forall|j: int| 0 <= j < i ==> !has_id::<M>(id@)(#[trigger] self.devices@[j]),
            decreases self.devices@.len() - i,
        {
            if str_eq(self.devices[i].id.as_str(), id) {
                proof { lemma_first_index_at(self.devices@, has_id::<M>(id@), i as int); }
                return Some(i);
            }
            i = i + 1;
        }
        proof { lemma_first_index_none(self.devices@, has_id::<M>(id@)); }
        None
    }

    /// The device with the id `id`, for changing it in place.
    pub fn find_by_id_mut(&mut self, id: &str) -> (r: Option<&mut TrustedDevice<M>>)
        ensures
            match id_index(old(self).devices@, id@) {
                Some(i) => r is Some && *r.unwrap() == old(self).devices@[i]
                    && final(self).devices@ == old(self).devices@.update(i, *final(r.unwrap())),
                None => r is None && final(self).devices@ == old(self).devices@,
            },
    {
        match self.position_of_id(id) {
            Some(i) => Some(&mut self.devices[i]),
            None => None,
        }
    }

    /// Append a device with a fresh id, the base64 of `pubkey`, and `mode`;
    /// returns a copy of it (the body of `add`).
    pub fn add_with_mode(&mut self, name: String, pubkey: &[u8], mode: M) -> (d: TrustedDevice<M>)
        requires
            pubkey@.len() <= usize::MAX / 2,
        ensures
            d.name == name,
            d.public_key_b64@ == b64_encode(pubkey@),
            d.mode == mode,
            is_uuid_v4_text(d.id@),
            final(self).devices@ == old(self).devices@.push(d),
    {
        let device = TrustedDevice {
            id: new_uuid_text(),
            name,
            public_key_b64: base64_encode(pubkey),
            mode,
        };
        self.devices.push(device.duplicate());
        device
    }

    /// Set the mode of the device with the id `device_id`,
    /// or fail with `Устройство <id> не найдено`.
    pub fn set_device_mode(&mut self, device_id: &str, mode: M) -> (r: Result<(), String>)
        ensures
            match id_index(old(self).devices@, device_id@) {
                Some(i) => r is Ok && final(self).devices@ == old(self).devices@.update(
                    i,
                    TrustedDevice { mode, ..old(self).devices@[i] },
                ),
                None => (r matches Err(m) && m@ == device_not_found(device_id@))
                    && final(self).devices@ == old(self).devices@,
            },
    {
        match self.find_by_id_mut(device_id) {
            Some(d) => {
                d.mode = mode;
                Ok(())
            },
            None => Err(concat3("Устройство ", device_id, " не найдено")),
        }
    }

    /// Drop every device with the id `device_id`.
    pub fn remove(&mut self, device_id: &str)
        ensures
            final(self).devices@ == old(self).devices@.filter(lacks_id::<M>(device_id@)),
    {
        let ghost all = self.devices@;
        let mut rest: Vec<TrustedDevice<M>> = Vec::new();
        std::mem::swap(&mut self.devices, &mut rest);
        let mut kept: Vec<TrustedDevice<M>> = Vec::new();
        let ghost mut done: int = 0;
        while rest.len() > 0
            invariant
                0 <= done <= all.len(),
                rest@ == all.subrange(done, all.len() as int),
                kept@ == all.subrange(0, done).filter(lacks_id::<M>(device_id@)),
            decreases rest@.len(),
        {
            let d = rest.remove(0);
            proof {
                assert(all.subrange(0, done + 1) == all.subrange(0, done).push(d));
                all.subrange(0, done).lemma_filter_push(d, lacks_id::<M>(device_id@));
            }
            if !str_eq(d.id.as_str(), device_id) {
                kept.push(d);
            }
            proof {
                done = done + 1;
                assert(rest@ == all.subrange(done, all.len() as int));
            }
        }
        proof { assert(all.subrange(0, all.len() as int) == all); }
        self.devices = kept;
    }

    /// What the UI lists of each device, in order.
    pub fn summaries(&self) -> (r: Vec<DeviceSummary<M>>)
        ensures
            r@.len() == self.devices@.len(),
            forall|i: int| 0 <= i < r@.len() ==> {
                &&& #[trigger] r@[i].id == self.devices@[i].id
                &&& r@[i].name == self.devices@[i].name
                &&& r@[i].mode == self.devices@[i].mode
            },
    {
        let mut r: Vec<DeviceSummary<M>> = Vec::new();
        let mut i: usize = 0;
        while i < self.devices.len()
            invariant
                i <= self.devices@.len(),
                r@.len() == i,
                forall|k: int| 0 <= k < i ==> {
                    &&& #[trigger] r@[k].id == self.devices@[k].id
                    &&& r@[k].name == self.devices@[k].name
                    &&& r@[k].mode == self.devices@[k].mode
                },
            decreases self.devices@.len() - i,
        {
            let d = &self.devices[i];
            r.push(DeviceSummary { id: d.id.clone(), name: d.name.clone(), mode: d.mode });
            i = i + 1;
        }
        r
    }
}

/// Law (lookup after add): once a device with key text `k` is appended, the
/// lookup for `k` finds the earlier device for `k` if there was one, and the new
/// device otherwise.
pub proof fn law_lookup_after_add<M>(devices: Seq<TrustedDevice<M>>, d: TrustedDevice<M>, k: Seq<char>)
    ensures
        first_index(devices.push(d), has_key::<M>(k)) == (match first_index(devices, has_key::<M>(k)) {
            Some(i) => Some(i),
            None => if d.public_key_b64@ == k { Some(devices.len() as int) } else { None },
        }),
{
    let s = devices.push(d);
    let p = has_key::<M>(k);
    match first_index(devices, p) {
        Some(i) => {
            assert(is_first_index(devices, p, i));
            assert forall|j: int| 0 <= j < i implies !p(#[trigger] s[j]) by {
                assert(s[j] == devices[j]);
            }
            assert(s[i] == devices[i]);
            lemma_first_index_at(s, p, i);
        },
        None => {
            assert forall|j: int| 0 <= j < devices.len() implies !p(#[trigger] devices[j]) by {
                if p(devices[j]) {
                    lemma_first_index_exists(devices, p, j);
                }
            }
            assert forall|j: int| 0 <= j < devices.len() implies !p(#[trigger] s[j]) by {
                assert(s[j] == devices[j]);
            }
            if d.public_key_b64@ == k {
                lemma_first_index_at(s, p, devices.len() as int);
            } else {
                lemma_first_index_none(s, p);
            }
        },
    }
}

/// Filtering keeps keys unique.
pub proof fn lemma_filter_keeps_unique<M>(s: Seq<TrustedDevice<M>>, p: spec_fn(TrustedDevice<M>) -> bool)
    requires
        unique_keys(s),
    ensures
        unique_keys(s.filter(p)),
    decreases s.len(),
{
    if s.len() > 0 {
        let t = s.drop_last();
        assert forall|i: int, j: int| 0 <= i < t.len() && 0 <= j < t.len() && i != j
            implies #[trigger] t[i].public_key_b64@ != #[trigger] t[j].public_key_b64@ by {
            assert(t[i] == s[i]);
            assert(t[j] == s[j]);
        }
        lemma_filter_keeps_unique(t, p);
        assert(s == t.push(s.last()));
        t.lemma_filter_push(s.last(), p);
        if p(s.last()) {
            let f = t.filter(p);
            let g = f.push(s.last());
            assert forall|j: int| 0 <= j < f.len() implies #[trigger] f[j].public_key_b64@ != s.last().public_key_b64@ by {
                assert(f.contains(f[j]));
                t.lemma_filter_contains_rev(p, f[j]);
                let k = choose|k: int| 0 <= k < t.len() && t[k] == f[j];
                assert(s[k] == t[k]);
                assert(s[s.len() - 1] == s.last());
            }
            assert forall|i: int, j: int| 0 <= i < g.len() && 0 <= j < g.len() && i != j
                implies #[trigger] g[i].public_key_b64@ != #[trigger] g[j].public_key_b64@ by {
                if i < f.len() && j < f.len() {
                    assert(g[i] == f[i] && g[j] == f[j]);
                } else if i < f.len() {
                    assert(g[i] == f[i]);
                } else {
                    assert(g[j] == f[j]);
                }
            }
        }
    }
}

/// Law (registry edits keep keys unique): removing devices by id and changing
/// a device's mode never make two devices share a key.
pub proof fn law_edits_keep_keys_unique<M>(devices: Seq<TrustedDevice<M>>, id: Seq<char>, i: int, mode: M)
    requires
        unique_keys(devices),
        0 <= i < devices.len(),
    ensures
        unique_keys(devices.filter(lacks_id::<M>(id))),
        unique_keys(devices.update(i, TrustedDevice { mode, ..devices[i] })),
{
    lemma_filter_keeps_unique(devices, lacks_id::<M>(id));
    let u = devices.update(i, TrustedDevice { mode, ..devices[i] });
    assert forall|a: int, b: int| 0 <= a < u.len() && 0 <= b < u.len() && a != b
        implies #[trigger] u[a].public_key_b64@ != #[trigger] u[b].public_key_b64@ by {
        assert(u[a].public_key_b64 == devices[a].public_key_b64);
        assert(u[b].public_key_b64 == devices[b].public_key_b64);
    }
}

/// Law (removal): after removing the devices with an id, no device has it.
pub proof fn law_removed_device_not_found<M>(devices: Seq<TrustedDevice<M>>, id: Seq<char>)
    ensures
        id_index(devices.filter(lacks_id::<M>(id)), id) is None,
{
    let f = devices.filter(lacks_id::<M>(id));
    assert forall|j: int| 0 <= j < f.len() implies !has_id::<M>(id)(#[trigger] f[j]) by {
        devices.lemma_filter_pred(lacks_id::<M>(id), j);
    }
    lemma_first_index_none(f, has_id::<M>(id));
}

} // verus!
