//! The system bus: an ordered registry of `(base, size, device)` ranges.
//! An access at address `a` is dispatched to the first attached range with
//! `base <= a < base + size`; the device sees the range-relative offset
//! `a - base`.  No matching range means `InvalidAddress`.
//!
//! A device is one of the known kinds: a flat byte memory, or the 2200
//! data port.  Word and fetch-style reads never change a device; byte and
//! half-word reads may, since reading the port acknowledges its interrupt
//! and clears its lines.

use vstd::prelude::*;
use crate::mem::{BusError, Memory32};
use crate::mem::{mem_read_b_spec, mem_read_h_spec, mem_read_h_big_spec, mem_read_w_spec};
use crate::mem::{mem_write_b_spec, mem_write_h_spec, mem_write_w_spec};
use crate::periph::{Port, port_read_b_spec, port_read_h_spec, port_write_b_spec,
    port_write_h_spec};

verus! {

/// An attachable device: a byte memory region, or a memory-mapped data
/// port.
pub enum Device {
    Ram(Vec<u8>),
    Port(Port),
}

/// Abstract state of a device.
pub enum DeviceView {
    Ram(Seq<u8>),
    Port(Port),
}

impl View for Device {
    type V = DeviceView;

    open spec fn view(&self) -> DeviceView {
        match self {
            Device::Ram(m) => DeviceView::Ram(m@),
            Device::Port(p) => DeviceView::Port(*p),
        }
    }
}

// Device dispatch: each operation applied to a device view yields the
// result and the device afterwards.  Memory never changes under a read;
// the port changes under byte and half-word reads.

pub open spec fn dev_read_b_spec(d: DeviceView, addr: u32) -> (Result<u8, BusError>, DeviceView) {
    match d {
        DeviceView::Ram(m) => (mem_read_b_spec(m, addr), d),
        DeviceView::Port(p) => {
            let r = port_read_b_spec(p, addr);
            (r.0, DeviceView::Port(r.1))
        },
    }
}

pub open spec fn dev_read_h_spec(d: DeviceView, addr: u32) -> (Result<u16, BusError>, DeviceView) {
    match d {
        DeviceView::Ram(m) => (mem_read_h_spec(m, addr), d),
        DeviceView::Port(p) => {
            let r = port_read_h_spec(p, addr);
            (r.0, DeviceView::Port(r.1))
        },
    }
}

/// The fetch-style big-endian read; the port refuses it, so it never
/// changes any device.
pub open spec fn dev_read_h_big_spec(d: DeviceView, addr: u32) -> Result<u16, BusError> {
    match d {
        DeviceView::Ram(m) => mem_read_h_big_spec(m, addr),
        DeviceView::Port(_) => Err(BusError::InvalidAddress),
    }
}

/// Word read; the port refuses it, so it never changes any device.
pub open spec fn dev_read_w_spec(d: DeviceView, addr: u32) -> Result<u32, BusError> {
    match d {
        DeviceView::Ram(m) => mem_read_w_spec(m, addr),
        DeviceView::Port(_) => Err(BusError::InvalidAddress),
    }
}

pub open spec fn dev_write_b_spec(d: DeviceView, addr: u32, data: u8) -> Result<
    DeviceView,
    BusError,
> {
    match d {
        DeviceView::Ram(m) => match mem_write_b_spec(m, addr, data) {
            Ok(m2) => Ok(DeviceView::Ram(m2)),
            Err(e) => Err(e),
        },
        DeviceView::Port(p) => match port_write_b_spec(p, addr, data) {
            Ok(p2) => Ok(DeviceView::Port(p2)),
            Err(e) => Err(e),
        },
    }
}

pub open spec fn dev_write_h_spec(d: DeviceView, addr: u32, data: u16) -> Result<
    DeviceView,
    BusError,
> {
    match d {
        DeviceView::Ram(m) => match mem_write_h_spec(m, addr, data) {
            Ok(m2) => Ok(DeviceView::Ram(m2)),
            Err(e) => Err(e),
        },
        DeviceView::Port(p) => match port_write_h_spec(p, addr, data) {
            Ok(p2) => Ok(DeviceView::Port(p2)),
            Err(e) => Err(e),
        },
    }
}

/// Word write; the port refuses it.
pub open spec fn dev_write_w_spec(d: DeviceView, addr: u32, data: u32) -> Result<
    DeviceView,
    BusError,
> {
    match d {
        DeviceView::Ram(m) => match mem_write_w_spec(m, addr, data) {
            Ok(m2) => Ok(DeviceView::Ram(m2)),
            Err(e) => Err(e),
        },
        DeviceView::Port(_) => Err(BusError::InvalidAddress),
    }
}

/// Abstract state of a bus: the attached ranges in registration order,
/// each with its device.
#[verifier::ext_equal]
pub struct BusView {
    pub base: Seq<u32>,
    pub size: Seq<u32>,
    pub region: Seq<DeviceView>,
}

impl BusView {
    pub open spec fn wf(self) -> bool {
        self.base.len() == self.size.len() && self.base.len() == self.region.len()
    }
}

/// Range `n` contains `addr` (sizes never wrap: the bound is exact integer
/// arithmetic).
pub open spec fn range_holds(v: BusView, addr: u32, n: int) -> bool {
    v.base[n] <= addr && (addr as int) < v.base[n] + v.size[n]
}

/// Index of the first range at or after `n` that contains `addr`, or -1.
pub open spec fn find_range_from(v: BusView, addr: u32, n: int) -> int
    decreases v.base.len() - n,
{
    if n < 0 || n >= v.base.len() {
        -1
    } else if range_holds(v, addr, n) {
        n
    } else {
        find_range_from(v, addr, n + 1)
    }
}

/// Index of the first range containing `addr`, or -1: dispatch order is
/// registration order, so overlaps resolve to the first attached.
pub open spec fn find_range(v: BusView, addr: u32) -> int {
    find_range_from(v, addr, 0)
}

/// Byte read: the value and the bus afterwards (a port acknowledges).
pub open spec fn bus_read_b_spec(v: BusView, addr: u32) -> (Result<u8, BusError>, BusView) {
    let n = find_range(v, addr);
    if n == -1 {
        (Err(BusError::InvalidAddress), v)
    } else {
        let r = dev_read_b_spec(v.region[n], (addr - v.base[n]) as u32);
        (r.0, BusView { region: v.region.update(n, r.1), ..v })
    }
}

/// Half-word read: the value and the bus afterwards.
pub open spec fn bus_read_h_spec(v: BusView, addr: u32) -> (Result<u16, BusError>, BusView) {
    let n = find_range(v, addr);
    if n == -1 {
        (Err(BusError::InvalidAddress), v)
    } else {
        let r = dev_read_h_spec(v.region[n], (addr - v.base[n]) as u32);
        (r.0, BusView { region: v.region.update(n, r.1), ..v })
    }
}

/// Fetch-style big-endian read; changes no device.
pub open spec fn bus_read_h_big_spec(v: BusView, addr: u32) -> Result<u16, BusError> {
    let n = find_range(v, addr);
    if n == -1 {
        Err(BusError::InvalidAddress)
    } else {
        dev_read_h_big_spec(v.region[n], (addr - v.base[n]) as u32)
    }
}

/// Word read; changes no device.
pub open spec fn bus_read_w_spec(v: BusView, addr: u32) -> Result<u32, BusError> {
    let n = find_range(v, addr);
    if n == -1 {
        Err(BusError::InvalidAddress)
    } else {
        dev_read_w_spec(v.region[n], (addr - v.base[n]) as u32)
    }
}

pub open spec fn bus_write_b_spec(v: BusView, addr: u32, data: u8) -> Result<BusView, BusError> {
    let n = find_range(v, addr);
    if n == -1 {
        Err(BusError::InvalidAddress)
    } else {
        match dev_write_b_spec(v.region[n], (addr - v.base[n]) as u32, data) {
            Ok(d2) => Ok(BusView { region: v.region.update(n, d2), ..v }),
            Err(e) => Err(e),
        }
    }
}

pub open spec fn bus_write_h_spec(v: BusView, addr: u32, data: u16) -> Result<BusView, BusError> {
    let n = find_range(v, addr);
    if n == -1 {
        Err(BusError::InvalidAddress)
    } else {
        match dev_write_h_spec(v.region[n], (addr - v.base[n]) as u32, data) {
            Ok(d2) => Ok(BusView { region: v.region.update(n, d2), ..v }),
            Err(e) => Err(e),
        }
    }
}

pub open spec fn bus_write_w_spec(v: BusView, addr: u32, data: u32) -> Result<BusView, BusError> {
    let n = find_range(v, addr);
    if n == -1 {
        Err(BusError::InvalidAddress)
    } else {
        match dev_write_w_spec(v.region[n], (addr - v.base[n]) as u32, data) {
            Ok(d2) => Ok(BusView { region: v.region.update(n, d2), ..v }),
            Err(e) => Err(e),
        }
    }
}

/// `find_range_from` lands on a containing range with none before it, or on
/// -1 with no containing range at all.
pub proof fn lemma_find_range_from_props(v: BusView, addr: u32, n: int)
    requires
        0 <= n,
    ensures
        ({
            let r = find_range_from(v, addr, n);
            (r == -1 && forall|k: int| n <= k < v.base.len() ==> !range_holds(v, addr, k))
                || (n <= r < v.base.len() && range_holds(v, addr, r))
        }),
    decreases v.base.len() - n,
{
    if n < v.base.len() && !range_holds(v, addr, n) {
        lemma_find_range_from_props(v, addr, n + 1);
    }
}

/// Range lookup depends only on the bases and sizes, not on the devices.
pub proof fn lemma_find_range_layout(v1: BusView, v2: BusView, addr: u32, n: int)
    requires
        0 <= n,
        v1.base == v2.base,
        v1.size == v2.size,
    ensures
        find_range_from(v1, addr, n) == find_range_from(v2, addr, n),
    decreases v1.base.len() - n,
{
    if n < v1.base.len() && !range_holds(v1, addr, n) {
        lemma_find_range_layout(v1, v2, addr, n + 1);
    }
}

/// A successful word write through the bus reads back unchanged at the same
/// address.
pub proof fn lemma_bus_word_round_trip(v: BusView, addr: u32, w: u32)
    requires
        v.wf(),
        bus_write_w_spec(v, addr, w) is Ok,
    ensures
        bus_read_w_spec(bus_write_w_spec(v, addr, w).unwrap(), addr) == Ok::<u32, BusError>(w),
{
    let n = find_range(v, addr);
    let v2 = bus_write_w_spec(v, addr, w).unwrap();
    lemma_find_range_from_props(v, addr, 0);
    lemma_find_range_layout(v, v2, addr, 0);
    match v.region[n] {
        DeviceView::Ram(m) => {
            crate::mem::lemma_word_round_trip(m, (addr - v.base[n]) as u32, w);
        },
        DeviceView::Port(_) => {},
    }
}

/// A successful word write through the bus leaves a word read over a
/// disjoint global byte range unchanged, whatever ranges the two addresses
/// dispatch to.
pub proof fn lemma_bus_write_w_frame(v: BusView, a: u32, w: u32, b: u32)
    requires
        v.wf(),
        bus_write_w_spec(v, a, w) is Ok,
        b as int + 4 <= a as int || a as int + 4 <= b as int,
    ensures
        bus_read_w_spec(bus_write_w_spec(v, a, w).unwrap(), b) == bus_read_w_spec(v, b),
{
    let n = find_range(v, a);
    let v2 = bus_write_w_spec(v, a, w).unwrap();
    lemma_find_range_from_props(v, a, 0);
    lemma_find_range_layout(v, v2, b, 0);
    lemma_find_range_from_props(v, b, 0);
    let m = find_range(v, b);
    if m != -1 {
        if m == n {
            match v.region[n] {
                DeviceView::Ram(mem) => {
                    crate::mem::lemma_mem_write_w_frame(
                        mem,
                        (a - v.base[n]) as u32,
                        w,
                        (b - v.base[n]) as u32,
                    );
                },
                DeviceView::Port(_) => {},
            }
        }
    }
}

/// Whether a word write succeeds depends only on the range layout, the
/// device kinds and the memory lengths, none of which a write changes: a
/// write that succeeds on a bus still succeeds after another successful
/// write, with any data.
pub proof fn lemma_bus_write_w_ok_stable(v: BusView, a: u32, w: u32, a2: u32, w2: u32, w3: u32)
    requires
        v.wf(),
        bus_write_w_spec(v, a, w) is Ok,
        bus_write_w_spec(v, a2, w2) is Ok,
    ensures
        bus_write_w_spec(v, a, w).unwrap().wf(),
        bus_write_w_spec(bus_write_w_spec(v, a, w).unwrap(), a2, w3) is Ok,
{
    let v2 = bus_write_w_spec(v, a, w).unwrap();
    lemma_find_range_from_props(v, a, 0);
    lemma_find_range_from_props(v, a2, 0);
    lemma_find_range_layout(v, v2, a2, 0);
}

/// Likewise for reads: a word read that succeeds still succeeds, with the
/// round trip and frame lemmas above saying what it returns.
pub proof fn lemma_bus_read_w_ok_stable(v: BusView, a: u32, w: u32, a2: u32)
    requires
        v.wf(),
        bus_write_w_spec(v, a, w) is Ok,
        bus_read_w_spec(v, a2) is Ok,
    ensures
        bus_read_w_spec(bus_write_w_spec(v, a, w).unwrap(), a2) is Ok,
{
    let v2 = bus_write_w_spec(v, a, w).unwrap();
    lemma_find_range_from_props(v, a, 0);
    lemma_find_range_from_props(v, a2, 0);
    lemma_find_range_layout(v, v2, a2, 0);
}

/// The bus itself.  Ranges are kept as three parallel vectors in
/// registration order.
pub struct Bus {
    pub base: Vec<u32>,
    pub size: Vec<u32>,
    pub region: Vec<Device>,
}

impl View for Bus {
    type V = BusView;

    open spec fn view(&self) -> BusView {
        BusView {
            base: self.base@,
            size: self.size@,
            region: Seq::new(self.region@.len(), |i: int| self.region@[i]@),
        }
    }
}

impl Bus {
    pub open spec fn wf(&self) -> bool {
        self@.wf()
    }

    /// An empty bus: no ranges, every access is `InvalidAddress`.
    pub fn new() -> (r: Bus)
        ensures
            r.wf(),
            r@.base.len() == 0,
    {
        Bus { base: Vec::new(), size: Vec::new(), region: Vec::new() }
    }

    /// Append a range.  Dispatch order is registration order.
    pub fn attach(&mut self, base: u32, size: u32, region: Device)
        requires
            old(self).wf(),
        ensures
            final(self).wf(),
            final(self)@.base == old(self)@.base.push(base),
            final(self)@.size == old(self)@.size.push(size),
            final(self)@.region == old(self)@.region.push(region@),
    {
        let ghost dv = region@;
        self.base.push(base);
        self.size.push(size);
        self.region.push(region);
        proof {
            assert(final(self)@.region =~= old(self)@.region.push(dv));
        }
    }

    /// Find the first range containing `addr`, as an exec search.
    fn find(&self, addr: u32) -> (r: Option<usize>)
        requires
            self.wf(),
        ensures
            (match r {
                Some(n) => (n as int) < self@.base.len() && range_holds(self@, addr, n as int)
                    && find_range(self@, addr) == n as int,
                None => find_range(self@, addr) == -1,
            }),
    {
        let mut n: usize = 0;
        while n < self.base.len()
            invariant
                self.wf(),
                n <= self.base.len(),
                find_range(self@, addr) == find_range_from(self@, addr, n as int),
            decreases self.base.len() - n,
        {
            if addr >= self.base[n] && (addr as u64) < self.base[n] as u64 + self.size[n] as u64 {
                return Some(n);
            }
            n += 1;
        }
        None
    }

    pub fn read_b(&mut self, addr: u32) -> (r: Result<u8, BusError>)
        requires
            old(self).wf(),
        ensures
            final(self).wf(),
            ({
                let s = bus_read_b_spec(old(self)@, addr);
                r == s.0 && final(self)@ == s.1
            }),
    {
        match self.find(addr) {
            Some(n) => {
                let base = self.base[n];
                let dev = &mut self.region[n];
                let r = match dev {
                    Device::Ram(m) => m.read_b(addr - base),
                    Device::Port(p) => p.read_b(addr - base),
                };
                proof {
                    let nn = n as int;
                    let s = dev_read_b_spec(old(self)@.region[nn], (addr - base) as u32);
                    assert(self@.region =~= old(self)@.region.update(nn, s.1));
                    assert(self@ =~= bus_read_b_spec(old(self)@, addr).1);
                }
                r
            },
            None => Err(BusError::InvalidAddress),
        }
    }

    pub fn read_h(&mut self, addr: u32) -> (r: Result<u16, BusError>)
        requires
            old(self).wf(),
        ensures
            final(self).wf(),
            ({
                let s = bus_read_h_spec(old(self)@, addr);
                r == s.0 && final(self)@ == s.1
            }),
    {
        match self.find(addr) {
            Some(n) => {
                let base = self.base[n];
                let dev = &mut self.region[n];
                let r = match dev {
                    Device::Ram(m) => m.read_h(addr - base),
                    Device::Port(p) => p.read_h(addr - base),
                };
                proof {
                    let nn = n as int;
                    let s = dev_read_h_spec(old(self)@.region[nn], (addr - base) as u32);
                    assert(self@.region =~= old(self)@.region.update(nn, s.1));
                    assert(self@ =~= bus_read_h_spec(old(self)@, addr).1);
                }
                r
            },
            None => Err(BusError::InvalidAddress),
        }
    }

    pub fn read_h_big(&self, addr: u32) -> (r: Result<u16, BusError>)
        requires
            self.wf(),
        ensures
            r == bus_read_h_big_spec(self@, addr),
    {
        match self.find(addr) {
            Some(n) => match &self.region[n] {
                Device::Ram(m) => m.read_h_big(addr - self.base[n]),
                Device::Port(_) => Err(BusError::InvalidAddress),
            },
            None => Err(BusError::InvalidAddress),
        }
    }

    pub fn read_w(&self, addr: u32) -> (r: Result<u32, BusError>)
        requires
            self.wf(),
        ensures
            r == bus_read_w_spec(self@, addr),
    {
        match self.find(addr) {
            Some(n) => match &self.region[n] {
                Device::Ram(m) => m.read_w(addr - self.base[n]),
                Device::Port(_) => Err(BusError::InvalidAddress),
            },
            None => Err(BusError::InvalidAddress),
        }
    }

    pub fn write_b(&mut self, addr: u32, data: u8) -> (r: Result<(), BusError>)
        requires
            old(self).wf(),
        ensures
            final(self).wf(),
            (match bus_write_b_spec(old(self)@, addr, data) {
                Ok(v2) => r is Ok && final(self)@ == v2,
                Err(e) => r == Err::<(), BusError>(e) && final(self)@ == old(self)@,
            }),
    {
        match self.find(addr) {
            Some(n) => {
                let base = self.base[n];
                let dev = &mut self.region[n];
                let r = match dev {
                    Device::Ram(m) => m.write_b(addr - base, data),
                    Device::Port(p) => p.write_b(addr - base, data),
                };
                proof {
                    let nn = n as int;
                    let w = dev_write_b_spec(old(self)@.region[nn], (addr - base) as u32, data);
                    if w is Ok {
                        assert(self@.region =~= old(self)@.region.update(nn, w.unwrap()));
                        assert(self@ =~= bus_write_b_spec(old(self)@, addr, data).unwrap());
                    } else {
                        assert(self@.region =~= old(self)@.region);
                        assert(self@ =~= old(self)@);
                    }
                }
                r
            },
            None => Err(BusError::InvalidAddress),
        }
    }

    pub fn write_h(&mut self, addr: u32, data: u16) -> (r: Result<(), BusError>)
        requires
            old(self).wf(),
        ensures
            final(self).wf(),
            (match bus_write_h_spec(old(self)@, addr, data) {
                Ok(v2) => r is Ok && final(self)@ == v2,
                Err(e) => r == Err::<(), BusError>(e) && final(self)@ == old(self)@,
            }),
    {
        match self.find(addr) {
            Some(n) => {
                let base = self.base[n];
                let dev = &mut self.region[n];
                let r = match dev {
                    Device::Ram(m) => m.write_h(addr - base, data),
                    Device::Port(p) => p.write_h(addr - base, data),
                };
                proof {
                    let nn = n as int;
                    let w = dev_write_h_spec(old(self)@.region[nn], (addr - base) as u32, data);
                    if w is Ok {
                        assert(self@.region =~= old(self)@.region.update(nn, w.unwrap()));
                        assert(self@ =~= bus_write_h_spec(old(self)@, addr, data).unwrap());
                    } else {
                        assert(self@.region =~= old(self)@.region);
                        assert(self@ =~= old(self)@);
                    }
                }
                r
            },
            None => Err(BusError::InvalidAddress),
        }
    }

    pub fn write_w(&mut self, addr: u32, data: u32) -> (r: Result<(), BusError>)
        requires
            old(self).wf(),
        ensures
            final(self).wf(),
            (match bus_write_w_spec(old(self)@, addr, data) {
                Ok(v2) => r is Ok && final(self)@ == v2,
                Err(e) => r == Err::<(), BusError>(e) && final(self)@ == old(self)@,
            }),
    {
        match self.find(addr) {
            Some(n) => {
                let base = self.base[n];
                let dev = &mut self.region[n];
                let r = match dev {
                    Device::Ram(m) => m.write_w(addr - base, data),
                    Device::Port(_) => Err(BusError::InvalidAddress),
                };
                proof {
                    let nn = n as int;
                    let w = dev_write_w_spec(old(self)@.region[nn], (addr - base) as u32, data);
                    if w is Ok {
                        assert(self@.region =~= old(self)@.region.update(nn, w.unwrap()));
                        assert(self@ =~= bus_write_w_spec(old(self)@, addr, data).unwrap());
                    } else {
                        assert(self@.region =~= old(self)@.region);
                        assert(self@ =~= old(self)@);
                    }
                }
                r
            },
            None => Err(BusError::InvalidAddress),
        }
    }
}

} // verus!
