//! The in-memory model of the virtual PCI functions a host bridge resolves
//! data-port accesses against: purely storage-backed 256-byte configuration
//! windows, keyed by (bus number, device/function).

use vstd::prelude::*;

use crate::lanes::write_bytes;
use crate::lanes::CONFIG_WINDOW_SIZE;

verus! {

/// One virtual PCI function: its place on the bus topology and its 256-byte
/// configuration window.  The window is purely storage-backed; this crate
/// routes accesses to it without interpreting its contents.
#[derive(Clone)]
pub struct PciDevice {
    bus_num: u8,
    devfn: u8,
    config: Vec<u8>,
}

impl View for PciDevice {
    type V = Seq<u8>;

    closed spec fn view(&self) -> Seq<u8> {
        self.config@
    }
}

impl PciDevice {
    /// The configuration window spans exactly the 256-byte legacy space.
    pub open spec fn wf(self) -> bool {
        self@.len() == CONFIG_WINDOW_SIZE
    }

    /// The bus number this function answers on.
    pub closed spec fn spec_bus_num(self) -> u8 {
        self.bus_num
    }

    /// The device/function byte identifying it on that bus.
    pub closed spec fn spec_devfn(self) -> u8 {
        self.devfn
    }

    /// The bus number this function answers on.
    pub fn bus_num(&self) -> (r: u8)
        ensures
            r == self.spec_bus_num(),
    {
        self.bus_num
    }

    /// The device/function byte identifying it on that bus.
    pub fn devfn(&self) -> (r: u8)
        ensures
            r == self.spec_devfn(),
    {
        self.devfn
    }

    /// A function at the given location with an all-zero window.
    pub fn new(bus_num: u8, devfn: u8) -> (d: PciDevice)
        ensures
            d.wf(),
            d.spec_bus_num() == bus_num,
            d.spec_devfn() == devfn,
            forall|j: int| 0 <= j < CONFIG_WINDOW_SIZE ==> d@[j] == 0u8,
    {
        let mut config: Vec<u8> = Vec::new();
        let mut i: usize = 0;
        while i < CONFIG_WINDOW_SIZE
            invariant
                i == config@.len(),
                i <= CONFIG_WINDOW_SIZE,
                forall|j: int| 0 <= j < i ==> config@[j] == 0u8,
            decreases CONFIG_WINDOW_SIZE - i,
        {
            config.push(0u8);
            i = i + 1;
        }
        PciDevice { bus_num, devfn, config }
    }

    /// One byte of the configuration window.
    pub fn byte_at(&self, i: usize) -> (b: u8)
        requires
            self.wf(),
            i < CONFIG_WINDOW_SIZE,
        ensures
            b == self@[i as int],
    {
        self.config[i]
    }

    /// Fill `data` from the window starting at `offset`.  Lanes that would
    /// fall past the top of the window leave the matching entries of `data`
    /// unchanged.
    pub fn read_config(&self, offset: usize, data: &mut Vec<u8>)
        requires
            self.wf(),
            offset < CONFIG_WINDOW_SIZE,
        ensures
            final(data)@.len() == old(data)@.len(),
            forall|k: int|
                0 <= k < old(data)@.len() ==> final(data)@[k] == (if offset + k
                    < CONFIG_WINDOW_SIZE {
                    self@[offset + k]
                } else {
                    old(data)@[k]
                }),
    {
        let n = data.len();
        let mut k: usize = 0;
        while k < n
            invariant
                self.wf(),
                offset < CONFIG_WINDOW_SIZE,
                k <= n,
                n == data@.len(),
                forall|j: int|
                    0 <= j < k ==> data@[j] == (if offset + j < CONFIG_WINDOW_SIZE {
                        self@[offset + j]
                    } else {
                        old(data)@[j]
                    }),
                forall|j: int| k <= j < n ==> data@[j] == old(data)@[j],
            decreases n - k,
        {
            if k < CONFIG_WINDOW_SIZE - offset {
                data[k] = self.config[offset + k];
            }
            k = k + 1;
        }
    }

    /// Overlay `data` on the window starting at `offset`.  Bytes that would
    /// fall past the top of the window are dropped.
    pub fn write_config(&mut self, offset: usize, data: &Vec<u8>)
        requires
            old(self).wf(),
            offset < CONFIG_WINDOW_SIZE,
        ensures
            final(self).wf(),
            final(self).spec_bus_num() == old(self).spec_bus_num(),
            final(self).spec_devfn() == old(self).spec_devfn(),
            final(self)@ == write_bytes(old(self)@, offset as int, data@),
    {
        let n = data.len();
        let mut k: usize = 0;
        while k < n
            invariant
                old(self).wf(),
                offset < CONFIG_WINDOW_SIZE,
                k <= n,
                n == data@.len(),
                self.bus_num == old(self).bus_num,
                self.devfn == old(self).devfn,
                self@.len() == CONFIG_WINDOW_SIZE,
                forall|j: int|
                    0 <= j < CONFIG_WINDOW_SIZE ==> self@[j] == (if offset <= j < offset + k {
                        data@[j - offset]
                    } else {
                        old(self)@[j]
                    }),
            decreases n - k,
        {
            if k < CONFIG_WINDOW_SIZE - offset {
                self.config[offset + k] = data[k];
            }
            k = k + 1;
        }
        proof {
            assert(self@ =~= write_bytes(old(self)@, offset as int, data@));
        }
    }
}

/// No two entries of the table share a (bus number, device/function) key.
spec fn devices_unique(s: Seq<PciDevice>) -> bool {
    forall|i: int, j: int|
        0 <= i < j < s.len() ==> !((#[trigger] s[i]).bus_num == (#[trigger] s[j]).bus_num
            && s[i].devfn == s[j].devfn)
}

/// Some entry of `s` carries the key (bus_num, devfn).
spec fn has_device_in(s: Seq<PciDevice>, bus_num: u8, devfn: u8) -> bool {
    exists|i: int|
        0 <= i < s.len() && (#[trigger] s[i]).bus_num == bus_num && s[i].devfn == devfn
}

/// The index of the entry carrying the key (bus_num, devfn).
spec fn device_index_in(s: Seq<PciDevice>, bus_num: u8, devfn: u8) -> int {
    choose|i: int|
        0 <= i < s.len() && (#[trigger] s[i]).bus_num == bus_num && s[i].devfn == devfn
}

/// With unique keys, an entry that carries a key is the entry the table
/// resolves that key to.
proof fn lemma_device_index(s: Seq<PciDevice>, bus_num: u8, devfn: u8, i: int)
    requires
        devices_unique(s),
        0 <= i < s.len(),
        s[i].bus_num == bus_num,
        s[i].devfn == devfn,
    ensures
        has_device_in(s, bus_num, devfn),
        device_index_in(s, bus_num, devfn) == i,
{
    assert(has_device_in(s, bus_num, devfn));
    let j = device_index_in(s, bus_num, devfn);
    if j != i {
        if j < i {
            assert(!(s[j].bus_num == s[i].bus_num && s[j].devfn == s[i].devfn));
        } else {
            assert(!(s[i].bus_num == s[j].bus_num && s[i].devfn == s[j].devfn));
        }
        assert(false);
    }
}

/// Every window a well-formed table resolves spans the full 256-byte legacy
/// configuration space.
pub proof fn lemma_wf_device_window(bus: PciBus, bus_num: u8, devfn: u8)
    requires
        bus.wf(),
        bus.spec_device(bus_num, devfn) is Some,
    ensures
        bus.spec_device(bus_num, devfn).unwrap().len() == CONFIG_WINDOW_SIZE,
{
    let i = device_index_in(bus.devices@, bus_num, devfn);
    assert(bus.devices@[i].wf());
}

/// The table of virtual PCI functions a bus-backed host bridge resolves
/// decoded (bus number, device/function) targets against.
#[derive(Clone)]
pub struct PciBus {
    devices: Vec<PciDevice>,
}

impl PciBus {
    /// The configuration window of the device at (bus_num, devfn), if one is
    /// present there.
    pub closed spec fn spec_device(self, bus_num: u8, devfn: u8) -> Option<Seq<u8>> {
        if has_device_in(self.devices@, bus_num, devfn) {
            Some(self.devices@[device_index_in(self.devices@, bus_num, devfn)]@)
        } else {
            None
        }
    }

    /// Keys are unique and every window is well formed.
    pub closed spec fn wf(self) -> bool {
        devices_unique(self.devices@) && forall|i: int|
            0 <= i < self.devices@.len() ==> (#[trigger] self.devices@[i]).wf()
    }

    /// An empty table: nothing answers anywhere.
    pub fn new() -> (bus: PciBus)
        ensures
            bus.wf(),
            forall|b2: u8, d2: u8| bus.spec_device(b2, d2) is None,
    {
        PciBus { devices: Vec::new() }
    }

    /// Register a device.  Refused, leaving the table unchanged, when a
    /// device with the same key is already present.
    pub fn add_device(&mut self, dev: PciDevice) -> (added: bool)
        requires
            old(self).wf(),
            dev.wf(),
        ensures
            final(self).wf(),
            added == (old(self).spec_device(dev.spec_bus_num(), dev.spec_devfn()) is None),
            added ==> final(self).spec_device(dev.spec_bus_num(), dev.spec_devfn()) == Some(dev@),
            !added ==> *final(self) == *old(self),
            forall|b2: u8, d2: u8|
                !(b2 == dev.spec_bus_num() && d2 == dev.spec_devfn()) ==> final(self).spec_device(
                    b2,
                    d2,
                ) == old(self).spec_device(b2, d2),
    {
        let n = self.devices.len();
        let mut i: usize = 0;
        while i < n
            invariant
                old(self).wf(),
                *self == *old(self),
                n == self.devices@.len(),
                i <= n,
                forall|j: int|
                    0 <= j < i ==> !((#[trigger] self.devices@[j]).bus_num == dev.bus_num
                        && self.devices@[j].devfn == dev.devfn),
            decreases n - i,
        {
            if self.devices[i].bus_num == dev.bus_num && self.devices[i].devfn == dev.devfn {
                proof {
                    lemma_device_index(self.devices@, dev.bus_num, dev.devfn, i as int);
                }
                return false;
            }
            i = i + 1;
        }
        proof {
            let ghost s = self.devices@;
            let ghost s2 = s.push(dev);
            assert(!has_device_in(s, dev.bus_num, dev.devfn));
            assert forall|a: int, b: int| 0 <= a < b < s2.len() implies !((#[trigger] s2[a]).bus_num
                == (#[trigger] s2[b]).bus_num && s2[a].devfn == s2[b].devfn) by {
                if b < s2.len() - 1 {
                    assert(s2[a] == s[a] && s2[b] == s[b]);
                } else {
                    assert(s2[b] == dev);
                    assert(s2[a] == s[a]);
                    if s[a].bus_num == dev.bus_num && s[a].devfn == dev.devfn {
                        assert(has_device_in(s, dev.bus_num, dev.devfn));
                    }
                }
            }
            assert(devices_unique(s2));
        }
        let ghost s = self.devices@;
        self.devices.push(dev);
        proof {
            let ghost s2 = self.devices@;
            assert(s2 == s.push(dev));
            assert(s2[s.len() as int] == dev);
            lemma_device_index(s2, dev.bus_num, dev.devfn, s.len() as int);
            assert forall|b2: u8, d2: u8| !(b2 == dev.bus_num && d2 == dev.devfn) implies self
                .spec_device(b2, d2) == old(self).spec_device(b2, d2) by {
                if has_device_in(s, b2, d2) {
                    let j = device_index_in(s, b2, d2);
                    assert(s2[j] == s[j]);
                    lemma_device_index(s2, b2, d2, j);
                }
                if has_device_in(s2, b2, d2) {
                    let j = device_index_in(s2, b2, d2);
                    assert(j < s2.len());
                    assert(!(s2[s.len() as int].bus_num == b2 && s2[s.len() as int].devfn == d2));
                    assert(j != s.len());
                    assert(s2[j] == s[j]);
                    lemma_device_index(s, b2, d2, j);
                }
            }
            assert forall|i2: int| 0 <= i2 < s2.len() implies (#[trigger] s2[i2]).wf() by {
                if i2 < s.len() {
                    assert(s2[i2] == s[i2]);
                }
            }
        }
        true
    }

    /// Look up the device at (bus_num, devfn): the table-backed form of the
    /// bus-tree resolution a data-port access performs.
    pub fn get_device(&self, bus_num: u8, devfn: u8) -> (r: Option<&PciDevice>)
        requires
            self.wf(),
        ensures
            match r {
                Some(dev) => self.spec_device(bus_num, devfn) == Some(dev@) && dev.spec_bus_num()
                    == bus_num && dev.spec_devfn() == devfn && dev.wf(),
                None => self.spec_device(bus_num, devfn) is None,
            },
    {
        let n = self.devices.len();
        let mut i: usize = 0;
        while i < n
            invariant
                self.wf(),
                n == self.devices@.len(),
                i <= n,
                forall|j: int|
                    0 <= j < i ==> !((#[trigger] self.devices@[j]).bus_num == bus_num
                        && self.devices@[j].devfn == devfn),
            decreases n - i,
        {
            if self.devices[i].bus_num == bus_num && self.devices[i].devfn == devfn {
                proof {
                    lemma_device_index(self.devices@, bus_num, devfn, i as int);
                }
                return Some(&self.devices[i]);
            }
            i = i + 1;
        }
        None
    }

    /// Overlay `data` on the window of the device at (bus_num, devfn),
    /// starting at `offset`.  When nothing answers there, the write is
    /// dropped and the table is unchanged.
    pub fn write_config(&mut self, bus_num: u8, devfn: u8, offset: usize, data: &Vec<u8>) -> (found:
        bool)
        requires
            old(self).wf(),
            offset < CONFIG_WINDOW_SIZE,
        ensures
            final(self).wf(),
            found == (old(self).spec_device(bus_num, devfn) is Some),
            match old(self).spec_device(bus_num, devfn) {
                Some(c) => final(self).spec_device(bus_num, devfn) == Some(
                    write_bytes(c, offset as int, data@),
                ),
                None => *final(self) == *old(self),
            },
            forall|b2: u8, d2: u8|
                !(b2 == bus_num && d2 == devfn) ==> final(self).spec_device(b2, d2) == old(
                    self,
                ).spec_device(b2, d2),
    {
        let n = self.devices.len();
        let mut i: usize = 0;
        while i < n
            invariant
                old(self).wf(),
                *self == *old(self),
                n == self.devices@.len(),
                i <= n,
                offset < CONFIG_WINDOW_SIZE,
                forall|j: int|
                    0 <= j < i ==> !((#[trigger] self.devices@[j]).bus_num == bus_num
                        && self.devices@[j].devfn == devfn),
            decreases n - i,
        {
            if self.devices[i].bus_num == bus_num && self.devices[i].devfn == devfn {
                proof {
                    lemma_device_index(self.devices@, bus_num, devfn, i as int);
                }
                let ghost s = self.devices@;
                let dev = &mut self.devices[i];
                dev.write_config(offset, data);
                proof {
                    let ghost s2 = self.devices@;
                    assert(s2 == s.update(i as int, s2[i as int]));
                    assert(s2[i as int].bus_num == bus_num && s2[i as int].devfn == devfn);
                    assert forall|a: int, b: int|
                        0 <= a < b < s2.len() implies !((#[trigger] s2[a]).bus_num
                        == (#[trigger] s2[b]).bus_num && s2[a].devfn == s2[b].devfn) by {
                        assert(s2[a].bus_num == s[a].bus_num && s2[a].devfn == s[a].devfn);
                        assert(s2[b].bus_num == s[b].bus_num && s2[b].devfn == s[b].devfn);
                    }
                    lemma_device_index(s2, bus_num, devfn, i as int);
                    assert forall|b2: u8, d2: u8| !(b2 == bus_num && d2 == devfn) implies self
                        .spec_device(b2, d2) == old(self).spec_device(b2, d2) by {
                        if has_device_in(s, b2, d2) {
                            let j = device_index_in(s, b2, d2);
                            assert(j != i);
                            assert(s2[j] == s[j]);
                            lemma_device_index(s2, b2, d2, j);
                        }
                        if has_device_in(s2, b2, d2) {
                            let j = device_index_in(s2, b2, d2);
                            assert(!(s2[i as int].bus_num == b2 && s2[i as int].devfn == d2));
                            assert(j != i);
                            assert(s2[j] == s[j]);
                            lemma_device_index(s, b2, d2, j);
                        }
                    }
                    assert forall|i2: int| 0 <= i2 < s2.len() implies (#[trigger] s2[i2]).wf() by {
                        if i2 != i {
                            assert(s2[i2] == s[i2]);
                        }
                    }
                }
                return true;
            }
            i = i + 1;
        }
        false
    }
}

} // verus!
