//! The Series-Q CPU core: register file, segmentation and protection state,
//! fault recording, and the priority-level engine.
//!
//! `R[0]` reads as zero at the start of every cycle, `R[15]` is the program
//! counter and `R[14]` the link register.  Segment register 15 is the
//! program segment (PS) and 14 the link segment (LS).  `F[0]` holds the
//! condition flags; `F[8]` packs the application-state bit (bit 0), the
//! current priority level (bits 1..3) and the fault priority level
//! (bits 4..6); `F[10..11]` record the faulting instruction word and
//! `F[12..15]` the faulting address.

use vstd::prelude::*;
use crate::bus::{Bus, BusView, bus_write_w_spec, bus_read_w_spec};
use crate::channel::Channel;

verus! {

/// Register index of the program counter.
pub const PC: usize = 15;

/// Register index of the link register.
pub const LR: usize = 14;

/// Segment register index of the program segment.
pub const PS: usize = 15;

/// Segment register index of the link segment.
pub const LS: usize = 14;

// Fault codes: the 8-bit codes -1..-6, written out as the sign-extended
// 32-bit words the machine carries (so the contracts pin the concrete
// code bytes).

pub const SUPERVISOR_ACCESS: u32 = 0xFFFFFFFF;

pub const OUT_OF_BOUNDS: u32 = 0xFFFFFFFE;

pub const ILLEGAL_INSTRUCTION: u32 = 0xFFFFFFFD;

pub const SEGMENTATION_FAULT: u32 = 0xFFFFFFFC;

pub const READ_FAULT: u32 = 0xFFFFFFFB;

pub const WRITE_FAULT: u32 = 0xFFFFFFFA;

/// 32-bit wrapping addition, the arithmetic of all address generation.
pub open spec fn wadd(a: u32, b: u32) -> u32 {
    if a + b > 0xFFFFFFFF {
        (a + b - 0x100000000) as u32
    } else {
        (a + b) as u32
    }
}

// Field accessors of the first instruction half-word `iw0`:
// the opcode is its high byte, `reg_d` bits 4..7, `reg_r` bits 0..3.

pub open spec fn opcode_spec(iword: u16) -> u16 {
    (iword & 0xFF00) >> 8
}

pub open spec fn rr_reg_d_spec(iword: u16) -> int {
    (((iword & 0xF0) >> 4) as int)
}

pub open spec fn rr_reg_r_spec(iword: u16) -> int {
    ((iword & 0x0F) as int)
}

// Field accessors of the second half-word `iw1`: the segment selector in
// bits 12..15, the index register (RMX form) in bits 8..11, and an 8-bit
// (RMX) or 12-bit (RM) displacement at the bottom.

pub open spec fn rm_seg_s_spec(iword: u16) -> int {
    (((iword & 0xF000) >> 12) as int)
}

pub open spec fn rmx_reg_x_spec(iword: u16) -> int {
    (((iword & 0xF00) >> 8) as int)
}

pub open spec fn rmx_idx_i_spec(iword: u16) -> u8 {
    ((iword & 0xFF) as u8)
}

pub fn rr_reg_d(iword: u16) -> (r: usize)
    ensures
        r == rr_reg_d_spec(iword),
        r < 16,
{
    proof {
        assert((iword & 0xF0) >> 4 < 16) by (bit_vector);
    }
    ((iword & 0xF0) >> 4) as usize
}

pub fn rr_reg_r(iword: u16) -> (r: usize)
    ensures
        r == rr_reg_r_spec(iword),
        r < 16,
{
    proof {
        assert(iword & 0x0F < 16) by (bit_vector);
    }
    (iword & 0x0F) as usize
}

pub fn rm_seg_s(iword: u16) -> (r: usize)
    ensures
        r == rm_seg_s_spec(iword),
        r < 16,
{
    proof {
        assert((iword & 0xF000) >> 12 < 16) by (bit_vector);
    }
    ((iword & 0xF000) >> 12) as usize
}

pub fn rmx_reg_x(iword: u16) -> (r: usize)
    ensures
        r == rmx_reg_x_spec(iword),
        r < 16,
{
    proof {
        assert((iword & 0xF00) >> 8 < 16) by (bit_vector);
    }
    ((iword & 0xF00) >> 8) as usize
}

pub fn rmx_idx_i(iword: u16) -> (r: u8)
    ensures
        r == rmx_idx_i_spec(iword),
{
    (iword & 0xFF) as u8
}

/// The whole CPU-local state as one mathematical value.
#[verifier::ext_equal]
pub struct CpuView {
    pub regs: Seq<u32>,
    pub sel: Seq<u8>,
    pub sbase: Seq<u32>,
    pub slim: Seq<u32>,
    pub skey: Seq<u8>,
    pub sflags: Seq<u8>,
    pub mpk: Seq<u8>,
    pub f: Seq<u8>,
    pub sdtr_base: u32,
    pub sdtr_len: u8,
    pub peba: u32,
    pub plba: u32,
    pub running: bool,
    pub cycles: u64,
    pub skip: bool,
    pub chans: Seq<Channel>,
    pub ipl: Seq<bool>,
    pub icode: Seq<u8>,
}

impl CpuView {
    pub open spec fn wf(self) -> bool {
        &&& self.regs.len() == 16
        &&& self.sel.len() == 16
        &&& self.sbase.len() == 16
        &&& self.slim.len() == 16
        &&& self.skey.len() == 16
        &&& self.sflags.len() == 16
        &&& self.mpk.len() == 16
        &&& self.f.len() == 16
        &&& self.ipl.len() == 8
        &&& self.icode.len() == 8
    }

    pub open spec fn with_reg(self, d: int, v: u32) -> CpuView {
        CpuView { regs: self.regs.update(d, v), ..self }
    }

    pub open spec fn with_f(self, i: int, v: u8) -> CpuView {
        CpuView { f: self.f.update(i, v), ..self }
    }

    pub open spec fn with_sel(self, i: int, v: u8) -> CpuView {
        CpuView { sel: self.sel.update(i, v), ..self }
    }

    pub open spec fn with_sbase(self, i: int, v: u32) -> CpuView {
        CpuView { sbase: self.sbase.update(i, v), ..self }
    }

    pub open spec fn with_slim(self, i: int, v: u32) -> CpuView {
        CpuView { slim: self.slim.update(i, v), ..self }
    }

    pub open spec fn with_skey(self, i: int, v: u8) -> CpuView {
        CpuView { skey: self.skey.update(i, v), ..self }
    }

    pub open spec fn with_sflags(self, i: int, v: u8) -> CpuView {
        CpuView { sflags: self.sflags.update(i, v), ..self }
    }

    /// True while the application-state bit of `F[8]` is set.
    pub open spec fn app_state(self) -> bool {
        self.f[8] & 1 != 0
    }

    /// The current priority level, bits 1..3 of `F[8]`.
    pub open spec fn level(self) -> u8 {
        (self.f[8] & 0xE) >> 1u8
    }

    /// The fault priority level, bits 4..6 of `F[8]`: the level an
    /// application fault escalates to.
    pub open spec fn fault_level(self) -> u8 {
        (self.f[8] & 0x70) >> 4u8
    }
}

/// The CPU.  All registers are CPU-local; the bus is passed into each
/// operation that touches memory.
#[allow(non_snake_case)]
pub struct SeriesQ {
    pub R: [u32; 16],
    pub S_selector: [u8; 16],
    pub S_base: [u32; 16],
    pub S_limit: [u32; 16],
    pub S_key: [u8; 16],
    pub S_flags: [u8; 16],
    pub MPK: [u8; 16],
    pub F: [u8; 16],
    pub SDTR_base: u32,
    pub SDTR_len: u8,
    pub PEBA_base: u32,
    pub PLBA_base: u32,
    pub running: bool,
    pub cycles: u64,
    pub skip: bool,
    pub channels: Vec<Channel>,
    pub ipl: [bool; 8],
    pub icode: [u8; 8],
}

impl View for SeriesQ {
    type V = CpuView;

    open spec fn view(&self) -> CpuView {
        CpuView {
            regs: self.R@,
            sel: self.S_selector@,
            sbase: self.S_base@,
            slim: self.S_limit@,
            skey: self.S_key@,
            sflags: self.S_flags@,
            mpk: self.MPK@,
            f: self.F@,
            sdtr_base: self.SDTR_base,
            sdtr_len: self.SDTR_len,
            peba: self.PEBA_base,
            plba: self.PLBA_base,
            running: self.running,
            cycles: self.cycles,
            skip: self.skip,
            chans: self.channels@,
            ipl: self.ipl@,
            icode: self.icode@,
        }
    }
}

/// The key of segment `seg` is present in the protection-key set.
pub open spec fn mpk_has(c: CpuView, key: u8) -> bool {
    exists|i: int| 0 <= i < 16 && c.mpk[i] == key
}

/// The access check of the protection unit: the segment must map the
/// address (within bounds, and either its key is held or the CPU is in
/// supervisor state); in application state the matching permission bit of
/// the segment flags must also be set, while supervisor state ignores
/// permissions.
pub open spec fn access_ok(c: CpuView, seg: int, addr: u32, for_write: bool, for_exec: bool) -> bool {
    let mapped = (mpk_has(c, c.skey[seg]) || !c.app_state()) && c.sbase[seg] <= addr && addr
        < c.slim[seg];
    if c.app_state() {
        if for_write {
            mapped && c.sflags[seg] & 0b01000000 != 0
        } else if for_exec {
            mapped && c.sflags[seg] & 0b00100000 != 0
        } else {
            mapped && c.sflags[seg] & 0b10000000 != 0
        }
    } else {
        mapped
    }
}

/// Sign- or zero-extension of a 12-bit RM displacement: values above 2047
/// sign-extend unless the segment's U flag (bit 0) is set.
pub open spec fn ext12_spec(c: CpuView, seg: int, index: u16) -> u32 {
    let idx = index & 0xFFF;
    if idx > 2047 && c.sflags[seg] & 1 == 0 {
        (idx as u32) | 0xFFFFF000u32
    } else {
        idx as u32
    }
}

/// RM offset: base register plus extended 12-bit displacement, wrapping.
pub open spec fn gen_offset_rm_spec(c: CpuView, seg: int, base: int, index: u16) -> u32 {
    wadd(c.regs[base], ext12_spec(c, seg, index))
}

/// RMX offset: base register plus index register plus zero-extended 8-bit
/// displacement, wrapping.
pub open spec fn gen_offset_rmx_spec(c: CpuView, base: int, x: int, index: u8) -> u32 {
    wadd(c.regs[base], wadd(c.regs[x], index as u32))
}

/// RM effective address: segment base plus RM offset.
pub open spec fn gen_addr_rm_spec(c: CpuView, seg: int, base: int, index: u16) -> u32 {
    wadd(c.sbase[seg], gen_offset_rm_spec(c, seg, base, index))
}

/// RMX effective address: segment base plus RMX offset.
pub open spec fn gen_addr_rmx_spec(c: CpuView, seg: int, base: int, x: int, index: u8) -> u32 {
    wadd(c.sbase[seg], gen_offset_rmx_spec(c, base, x, index))
}

/// Address generation and the access check, as the decode step uses them.
pub trait SQAddr: View<V = CpuView> + Sized {
    fn gen_offset_rm(&self, reg_segment: usize, reg_base: usize, index: u16) -> (r: u32)
        requires
            reg_segment < 16,
            reg_base < 16,
            self@.wf(),
        ensures
            r == gen_offset_rm_spec(self@, reg_segment as int, reg_base as int, index),
    ;

    fn gen_offset_rmx(&self, reg_segment: usize, reg_base: usize, reg_offset: usize, index: u8) -> (r:
        u32)
        requires
            reg_segment < 16,
            reg_base < 16,
            reg_offset < 16,
            self@.wf(),
        ensures
            r == gen_offset_rmx_spec(self@, reg_base as int, reg_offset as int, index),
    ;

    fn gen_addr_rm(&self, reg_segment: usize, reg_base: usize, index: u16) -> (r: u32)
        requires
            reg_segment < 16,
            reg_base < 16,
            self@.wf(),
        ensures
            r == gen_addr_rm_spec(self@, reg_segment as int, reg_base as int, index),
    ;

    fn gen_addr_rmx(&self, reg_segment: usize, reg_base: usize, reg_offset: usize, index: u8) -> (r:
        u32)
        requires
            reg_segment < 16,
            reg_base < 16,
            reg_offset < 16,
            self@.wf(),
        ensures
            r == gen_addr_rmx_spec(self@, reg_segment as int, reg_base as int, reg_offset as int, index),
    ;

    fn access_check(&self, segment: usize, addr: u32, for_write: bool, for_exec: bool) -> (r: bool)
        requires
            segment < 16,
            self@.wf(),
        ensures
            r == access_ok(self@, segment as int, addr, for_write, for_exec),
    ;
}

impl SQAddr for SeriesQ {
    fn gen_offset_rm(&self, reg_segment: usize, reg_base: usize, index: u16) -> (r: u32) {
        let index: u16 = index & 0xFFF;
        let base: u32 = self.R[reg_base];
        let offset: u32 = if index > 2047 && self.S_flags[reg_segment] & 1 == 0 {
            (index as u32) | 0xFFFFF000
        } else {
            index as u32
        };
        proof {
            assert((index & 0xFFF) & 0xFFF == index & 0xFFF) by (bit_vector);
        }
        base.wrapping_add(offset)
    }

    fn gen_offset_rmx(&self, reg_segment: usize, reg_base: usize, reg_offset: usize, index: u8) -> (r:
        u32) {
        let base: u32 = self.R[reg_base];
        let offset: u32 = self.R[reg_offset].wrapping_add(index as u32);
        base.wrapping_add(offset)
    }

    fn gen_addr_rm(&self, reg_segment: usize, reg_base: usize, index: u16) -> (r: u32) {
        let base: u32 = self.S_base[reg_segment];
        let offset = self.gen_offset_rm(reg_segment, reg_base, index & 0xFFF);
        proof {
            assert((index & 0xFFF) & 0xFFF == index & 0xFFF) by (bit_vector);
        }
        base.wrapping_add(offset)
    }

    fn gen_addr_rmx(&self, reg_segment: usize, reg_base: usize, reg_offset: usize, index: u8) -> (r:
        u32) {
        let base: u32 = self.S_base[reg_segment];
        let offset = self.gen_offset_rmx(reg_segment, reg_base, reg_offset, index);
        base.wrapping_add(offset)
    }

    fn access_check(&self, segment: usize, addr: u32, for_write: bool, for_exec: bool) -> (r: bool) {
        let segment_check = (self.mpk_contains(self.S_key[segment]) || self.F[8] & 1 == 0)
            && addr >= self.S_base[segment] && addr < self.S_limit[segment];

        let read_allowed = self.S_flags[segment] & 0b10000000 != 0;
        let write_allowed = self.S_flags[segment] & 0b01000000 != 0;
        let exec_allowed = self.S_flags[segment] & 0b00100000 != 0;

        if self.F[8] & 1 != 0 {
            if for_write {
                segment_check && write_allowed
            } else if for_exec {
                segment_check && exec_allowed
            } else {
                segment_check && read_allowed
            }
        } else {
            segment_check
        }
    }
}

/// Fault recording: the faulting address lands byte-wise in `F[12..15]`.
pub open spec fn record_fault_addr(c: CpuView, addr: u32) -> CpuView {
    c.with_f(12, (addr & 0xFF) as u8).with_f(13, ((addr & 0xFF00) >> 8u32) as u8).with_f(
        14,
        ((addr & 0xFF0000) >> 16u32) as u8,
    ).with_f(15, ((addr & 0xFF000000) >> 24u32) as u8)
}

/// System fault: a fault taken while already in supervisor state.  The
/// faulting instruction word lands in `F[10..11]`; the machine escalates to
/// level 7, or halts if already there.
pub open spec fn sys_fault_spec(c: CpuView, iword0: u16, error_code: u32) -> CpuView {
    let c1 = c.with_f(10, (iword0 & 0xFF) as u8).with_f(11, ((iword0 & 0xFF00) >> 8u16) as u8);
    if c.level() == 7 {
        CpuView { running: false, ..c1 }
    } else {
        CpuView {
            ipl: c1.ipl.update(7, true),
            icode: c1.icode.update(7, (error_code & 0xFF) as u8),
            ..c1
        }
    }
}

/// Application fault: in supervisor state it escalates to a system fault;
/// otherwise the program-segment selector takes the fault code, the
/// faulting instruction word lands in `F[10..11]`, and the interrupt line
/// of the fault priority level is signalled with the code — unless the CPU
/// already runs at level 7, in which case it halts.
pub open spec fn app_fault_spec(c: CpuView, iword0: u16, error_code: u32) -> CpuView {
    if !c.app_state() {
        sys_fault_spec(c, iword0, error_code)
    } else {
        let c1 = c.with_sel(PS as int, (error_code & 0xFF) as u8).with_f(
            10,
            (iword0 & 0xFF) as u8,
        ).with_f(11, ((iword0 & 0xFF00) >> 8u16) as u8);
        if c.level() == 7 {
            CpuView { running: false, ..c1 }
        } else {
            CpuView {
                ipl: c1.ipl.update(c.fault_level() as int, true),
                icode: c1.icode.update(c.fault_level() as int, (error_code & 0xFF) as u8),
                ..c1
            }
        }
    }
}

/// A failed bus read during data access: record the address, fault with
/// `READ_FAULT`.
pub open spec fn read_fault_spec(c: CpuView, iword0: u16, addr: u32) -> CpuView {
    app_fault_spec(record_fault_addr(c, addr), iword0, READ_FAULT)
}

/// A failed bus write during data access: record the address, fault with
/// `WRITE_FAULT`.
pub open spec fn write_fault_spec(c: CpuView, iword0: u16, addr: u32) -> CpuView {
    app_fault_spec(record_fault_addr(c, addr), iword0, WRITE_FAULT)
}

/// A failed access check: record the address, fault with
/// `SEGMENTATION_FAULT`.
pub open spec fn seg_fault_spec(c: CpuView, iword0: u16, addr: u32) -> CpuView {
    app_fault_spec(record_fault_addr(c, addr), iword0, SEGMENTATION_FAULT)
}

impl SeriesQ {
    /// Linear scan of the protection-key set.
    pub fn mpk_contains(&self, key: u8) -> (r: bool)
        ensures
            r == mpk_has(self@, key),
    {
        let mut i: usize = 0;
        while i < 16
            invariant
                i <= 16,
                forall|k: int| 0 <= k < i ==> self@.mpk[k] != key,
            decreases 16 - i,
        {
            if self.MPK[i] == key {
                proof {
                    assert(self@.mpk[i as int] == key);
                }
                return true;
            }
            i += 1;
        }
        false
    }

    /// Copy one segment register (selector, base, limit, key, flags) over
    /// another.
    pub fn copy_segment(&mut self, dest: usize, src: usize)
        requires
            dest < 16,
            src < 16,
        ensures
            final(self)@.cycles == old(self)@.cycles,
            final(self)@ == copy_segment_spec(old(self)@, dest as int, src as int),
    {
        self.S_selector[dest] = self.S_selector[src];
        self.S_base[dest] = self.S_base[src];
        self.S_limit[dest] = self.S_limit[src];
        self.S_key[dest] = self.S_key[src];
        self.S_flags[dest] = self.S_flags[src];
        proof {
            assert(self@ =~= copy_segment_spec(old(self)@, dest as int, src as int));
        }
    }

    /// Instruction length from the first half-word: top two bits `01` or
    /// `11` mean a four-byte instruction, anything else two bytes.
    pub fn increment(&self, iword: u16) -> (r: u32)
        ensures
            r == increment_spec(iword),
    {
        if (iword >> 14) & 3 == 1 || (iword >> 14) & 3 == 3 {
            4
        } else {
            2
        }
    }

    pub fn read_fault(&mut self, iword0: u16, addr: u32)
        requires
            old(self)@.wf(),
        ensures
            final(self)@.cycles == old(self)@.cycles,
            final(self)@ == read_fault_spec(old(self)@, iword0, addr),
    {
        self.F[12] = (addr & 0xFF) as u8;
        self.F[13] = ((addr & 0xFF00) >> 8) as u8;
        self.F[14] = ((addr & 0xFF0000) >> 16) as u8;
        self.F[15] = ((addr & 0xFF000000) >> 24) as u8;
        proof {
            assert(self@ =~= record_fault_addr(old(self)@, addr));
        }
        self.app_fault(iword0, READ_FAULT);
    }

    pub fn write_fault(&mut self, iword0: u16, addr: u32)
        requires
            old(self)@.wf(),
        ensures
            final(self)@.cycles == old(self)@.cycles,
            final(self)@ == write_fault_spec(old(self)@, iword0, addr),
    {
        self.F[12] = (addr & 0xFF) as u8;
        self.F[13] = ((addr & 0xFF00) >> 8) as u8;
        self.F[14] = ((addr & 0xFF0000) >> 16) as u8;
        self.F[15] = ((addr & 0xFF000000) >> 24) as u8;
        proof {
            assert(self@ =~= record_fault_addr(old(self)@, addr));
        }
        self.app_fault(iword0, WRITE_FAULT);
    }

    pub fn seg_fault(&mut self, iword0: u16, addr: u32)
        requires
            old(self)@.wf(),
        ensures
            final(self)@.cycles == old(self)@.cycles,
            final(self)@ == seg_fault_spec(old(self)@, iword0, addr),
    {
        self.F[12] = (addr & 0xFF) as u8;
        self.F[13] = ((addr & 0xFF00) >> 8) as u8;
        self.F[14] = ((addr & 0xFF0000) >> 16) as u8;
        self.F[15] = ((addr & 0xFF000000) >> 24) as u8;
        proof {
            assert(self@ =~= record_fault_addr(old(self)@, addr));
        }
        self.app_fault(iword0, SEGMENTATION_FAULT);
    }

    pub fn app_fault(&mut self, iword0: u16, error_code: u32)
        requires
            old(self)@.wf(),
        ensures
            final(self)@.cycles == old(self)@.cycles,
            final(self)@ == app_fault_spec(old(self)@, iword0, error_code),
    {
        if self.F[8] & 1 == 0 {
            self.sys_fault(iword0, error_code);
        } else {
            let f8 = self.F[8];
            proof {
                assert((f8 & 0x70) >> 4 < 8) by (bit_vector);
            }
            let new_pl = ((f8 & 0x70) >> 4) as usize;
            let at_top = (f8 & 0xE) >> 1 == 7;

            self.S_selector[PS] = (error_code & 0xFF) as u8;
            self.F[10] = (iword0 & 0xFF) as u8;
            self.F[11] = ((iword0 & 0xFF00) >> 8) as u8;

            if at_top {
                self.running = false;
            } else {
                self.ipl[new_pl] = true;
                self.icode[new_pl] = (error_code & 0xFF) as u8;
            }
            proof {
                assert(self@ =~= app_fault_spec(old(self)@, iword0, error_code));
            }
        }
    }

    pub fn sys_fault(&mut self, iword0: u16, error_code: u32)
        requires
            old(self)@.wf(),
        ensures
            final(self)@.cycles == old(self)@.cycles,
            final(self)@ == sys_fault_spec(old(self)@, iword0, error_code),
    {
        self.F[10] = (iword0 & 0xFF) as u8;
        self.F[11] = ((iword0 & 0xFF00) >> 8) as u8;

        if (self.F[8] & 0xE) >> 1 == 7 {
            self.running = false;
        } else {
            self.ipl[7] = true;
            self.icode[7] = (error_code & 0xFF) as u8;
        }
        proof {
            assert(self@ =~= sys_fault_spec(old(self)@, iword0, error_code));
        }
    }
}

/// The reset state: all registers zero, every segment spanning the whole
/// address space with key 0xFF, full permissions everywhere except the
/// program segment (flags 0xF0) and segment 7 (flags 0x00), all keys held,
/// every flag byte 0xFE (supervisor state at level 7, fault level 7),
/// descriptor and block-array bases cleared, sixteen quiet channels and
/// eight clear interrupt lines.
pub open spec fn initial_cpu() -> CpuView {
    CpuView {
        regs: Seq::new(16, |i: int| 0u32),
        sel: Seq::new(16, |i: int| 0u8),
        sbase: Seq::new(16, |i: int| 0u32),
        slim: Seq::new(16, |i: int| 0xFFFFFFFFu32),
        skey: Seq::new(16, |i: int| 0xFFu8),
        sflags: Seq::new(
            16,
            |i: int|
                if i == 7 {
                    0x00u8
                } else if i == 15 {
                    0xF0u8
                } else {
                    0xFFu8
                },
        ),
        mpk: Seq::new(16, |i: int| 0xFFu8),
        f: Seq::new(16, |i: int| 0xFEu8),
        sdtr_base: 0,
        sdtr_len: 0,
        peba: 0,
        plba: 0,
        running: false,
        cycles: 0,
        skip: false,
        chans: Seq::new(16, |i: int| Channel { brq: false, bgr: false }),
        ipl: Seq::new(8, |i: int| false),
        icode: Seq::new(8, |i: int| 0u8),
    }
}

/// Write the current program-segment context to the link block of priority
/// level `pl & 7`, then load the entry block of that level: the new PS
/// base, limit, key and flags, the new `F[8]` (with the level bits
/// overwritten by the new level), the supplied selector byte, and the new
/// PC.  A failed bus access anywhere in the sequence takes the
/// corresponding fault on the state reached so far and stops.
pub open spec fn pl_set_spec(c: CpuView, pl: u8, ssr7: u8, b: BusView) -> (CpuView, BusView) {
    let np = pl & 0x7;
    let lb = wadd(c.plba, (16 * np) as u32);
    let lba2 = (c.skey[15] as u32) | ((c.sflags[15] as u32) << 8u32) | ((c.f[8] as u32) << 16u32)
        | ((c.sel[15] as u32) << 24u32);
    match bus_write_w_spec(b, lb, c.sbase[15]) {
        Err(_) => (write_fault_spec(c, 0xFFFF, lb), b),
        Ok(b1) => match bus_write_w_spec(b1, wadd(lb, 4), c.slim[15]) {
            Err(_) => (write_fault_spec(c, 0xFFFF, wadd(lb, 4)), b1),
            Ok(b2) => match bus_write_w_spec(b2, wadd(lb, 8), lba2) {
                Err(_) => (write_fault_spec(c, 0xFFFF, wadd(lb, 8)), b2),
                Ok(b3) => match bus_write_w_spec(b3, wadd(lb, 12), c.regs[15]) {
                    Err(_) => (write_fault_spec(c, 0xFFFF, wadd(lb, 12)), b3),
                    Ok(b4) => (pl_enter_spec(c, np, ssr7, b4), b4),
                },
            },
        },
    }
}

/// The entry-block half of `pl_set`: four word reads from the entry block
/// of level `np`, applied in order, each failure faulting on the state
/// reached so far.
pub open spec fn pl_enter_spec(c: CpuView, np: u8, ssr7: u8, b: BusView) -> CpuView {
    let eb = wadd(c.peba, (16 * np) as u32);
    match bus_read_w_spec(b, eb) {
        Err(_) => read_fault_spec(c, 0xFFFF, eb),
        Ok(x0) => {
            let c1 = c.with_sbase(15, x0);
            match bus_read_w_spec(b, wadd(eb, 4)) {
                Err(_) => read_fault_spec(c1, 0xFFFF, wadd(eb, 4)),
                Ok(x1) => {
                    let c2 = c1.with_slim(15, x1);
                    match bus_read_w_spec(b, wadd(eb, 8)) {
                        Err(_) => read_fault_spec(c2, 0xFFFF, wadd(eb, 8)),
                        Ok(x2) => {
                            let f8 = ((((x2 & 0xFF0000) >> 16u32) as u8) & 0xF1) | (np << 1u8);
                            let c3 = c2.with_skey(15, (x2 & 0xFF) as u8).with_sflags(
                                15,
                                ((x2 & 0xFF00) >> 8u32) as u8,
                            ).with_f(8, f8).with_sel(15, ssr7);
                            match bus_read_w_spec(b, wadd(eb, 12)) {
                                Err(_) => read_fault_spec(c3, 0xFFFF, wadd(eb, 12)),
                                Ok(x3) => c3.with_reg(15, x3),
                            }
                        },
                    }
                },
            }
        },
    }
}

/// Escalation: enter level `pl & 7` iff it is above the current level; the
/// third component tells whether it happened.
pub open spec fn pl_esc_spec(c: CpuView, pl: u8, ssr7: u8, b: BusView) -> (CpuView, BusView, bool) {
    let np = pl & 0x7;
    if np > c.level() {
        let r = pl_set_spec(c, np, ssr7, b);
        (r.0, r.1, true)
    } else {
        (c, b, false)
    }
}

/// Return: reload the PS context, `F[8]` (in full, level bits included),
/// the PS selector and the PC from the link block of the current level.
pub open spec fn pl_retn_spec(c: CpuView, b: BusView) -> CpuView {
    let lb = wadd(c.plba, (16 * c.level()) as u32);
    match bus_read_w_spec(b, lb) {
        Err(_) => read_fault_spec(c, 0xFFFF, lb),
        Ok(x0) => {
            let c1 = c.with_sbase(15, x0);
            match bus_read_w_spec(b, wadd(lb, 4)) {
                Err(_) => read_fault_spec(c1, 0xFFFF, wadd(lb, 4)),
                Ok(x1) => {
                    let c2 = c1.with_slim(15, x1);
                    match bus_read_w_spec(b, wadd(lb, 8)) {
                        Err(_) => read_fault_spec(c2, 0xFFFF, wadd(lb, 8)),
                        Ok(x2) => {
                            let c3 = c2.with_skey(15, (x2 & 0xFF) as u8).with_sflags(
                                15,
                                ((x2 & 0xFF00) >> 8u32) as u8,
                            ).with_f(8, ((x2 & 0xFF0000) >> 16u32) as u8).with_sel(
                                15,
                                ((x2 & 0xFF000000) >> 24u32) as u8,
                            );
                            match bus_read_w_spec(b, wadd(lb, 12)) {
                                Err(_) => read_fault_spec(c3, 0xFFFF, wadd(lb, 12)),
                                Ok(x3) => c3.with_reg(15, x3),
                            }
                        },
                    }
                },
            }
        },
    }
}

impl SeriesQ {
    /// A CPU in its reset state.
    pub fn new() -> (r: SeriesQ)
        ensures
            r@.wf(),
            r@ == initial_cpu(),
            r@.chans.len() == 16,
    {
        let mut channels: Vec<Channel> = Vec::new();
        let mut i: usize = 0;
        while i < 16
            invariant
                i <= 16,
                channels@.len() == i,
                forall|k: int| 0 <= k < i ==> channels@[k] == (Channel { brq: false, bgr: false }),
            decreases 16 - i,
        {
            channels.push(Channel::new());
            i += 1;
        }
        let r = SeriesQ {
            R: [0; 16],
            S_selector: [0; 16],
            S_base: [0; 16],
            S_limit: [0xFFFFFFFF; 16],
            S_key: [0xFF; 16],
            S_flags: [
                0xFF,
                0xFF,
                0xFF,
                0xFF,
                0xFF,
                0xFF,
                0xFF,
                0x00,
                0xFF,
                0xFF,
                0xFF,
                0xFF,
                0xFF,
                0xFF,
                0xFF,
                0xF0,
            ],
            MPK: [0xFF; 16],
            F: [0xFE; 16],
            SDTR_base: 0,
            SDTR_len: 0,
            PEBA_base: 0,
            PLBA_base: 0,
            running: false,
            cycles: 0,
            skip: false,
            channels,
            ipl: [false; 8],
            icode: [0; 8],
        };
        proof {
            assert(r@.regs =~= initial_cpu().regs);
            assert(r@.sel =~= initial_cpu().sel);
            assert(r@.sbase =~= initial_cpu().sbase);
            assert(r@.slim =~= initial_cpu().slim);
            assert(r@.skey =~= initial_cpu().skey);
            assert(r@.sflags =~= initial_cpu().sflags);
            assert(r@.mpk =~= initial_cpu().mpk);
            assert(r@.f =~= initial_cpu().f);
            assert(r@.chans =~= initial_cpu().chans);
            assert(r@.ipl =~= initial_cpu().ipl);
            assert(r@.icode =~= initial_cpu().icode);
            assert(r@ =~= initial_cpu());
        }
        r
    }

    /// Enter priority level `pl & 7`: save the PS context and PC to the
    /// level's link block, then load the new context from its entry block.
    pub fn pl_set(&mut self, pl: u8, ssr7: u8, bus: &mut Bus)
        requires
            old(self)@.wf(),
            old(bus).wf(),
        ensures
            final(bus).wf(),
            final(self)@.cycles == old(self)@.cycles,
            (final(self)@, final(bus)@) == pl_set_spec(old(self)@, pl, ssr7, old(bus)@),
    {
        let np = pl & 0x7;
        proof {
            assert(pl & 0x7 < 8) by (bit_vector);
        }
        let lb = self.PLBA_base.wrapping_add(16 * (np as u32));

        let old_ps_base = self.S_base[PS];
        let old_ps_limit = self.S_limit[PS];
        let old_lba2 = (self.S_key[PS] as u32) | ((self.S_flags[PS] as u32) << 8)
            | ((self.F[8] as u32) << 16) | ((self.S_selector[PS] as u32) << 24);
        let old_pc = self.R[PC];

        match bus.write_w(lb, old_ps_base) {
            Err(_) => {
                self.write_fault(0xFFFF, lb);
                return;
            },
            Ok(_) => {},
        };
        match bus.write_w(lb.wrapping_add(4), old_ps_limit) {
            Err(_) => {
                self.write_fault(0xFFFF, lb.wrapping_add(4));
                return;
            },
            Ok(_) => {},
        };
        match bus.write_w(lb.wrapping_add(8), old_lba2) {
            Err(_) => {
                self.write_fault(0xFFFF, lb.wrapping_add(8));
                return;
            },
            Ok(_) => {},
        };
        match bus.write_w(lb.wrapping_add(12), old_pc) {
            Err(_) => {
                self.write_fault(0xFFFF, lb.wrapping_add(12));
                return;
            },
            Ok(_) => {},
        };

        let eb = self.PEBA_base.wrapping_add(16 * (np as u32));
        match bus.read_w(eb) {
            Err(_) => {
                self.read_fault(0xFFFF, eb);
                return;
            },
            Ok(x) => {
                self.S_base[PS] = x;
            },
        };
        match bus.read_w(eb.wrapping_add(4)) {
            Err(_) => {
                self.read_fault(0xFFFF, eb.wrapping_add(4));
                return;
            },
            Ok(x) => {
                self.S_limit[PS] = x;
            },
        };
        match bus.read_w(eb.wrapping_add(8)) {
            Err(_) => {
                self.read_fault(0xFFFF, eb.wrapping_add(8));
                return;
            },
            Ok(x) => {
                proof {
                    assert(np << 1u8 < 16) by (bit_vector)
                        requires
                            np < 8,
                    ;
                }
                self.S_key[PS] = (x & 0xFF) as u8;
                self.S_flags[PS] = ((x & 0xFF00) >> 8) as u8;
                self.F[8] = ((((x & 0xFF0000) >> 16) as u8) & 0xF1) | (np << 1);
                self.S_selector[PS] = ssr7;
            },
        };
        match bus.read_w(eb.wrapping_add(12)) {
            Err(_) => {
                self.read_fault(0xFFFF, eb.wrapping_add(12));
                return;
            },
            Ok(x) => {
                self.R[PC] = x;
            },
        };
    }

    /// Escalate to level `pl & 7` iff it is above the current level.
    pub fn pl_esc(&mut self, pl: u8, ssr7: u8, bus: &mut Bus) -> (r: bool)
        requires
            old(self)@.wf(),
            old(bus).wf(),
        ensures
            final(bus).wf(),
            final(self)@.cycles == old(self)@.cycles,
            (final(self)@, final(bus)@, r) == pl_esc_spec(old(self)@, pl, ssr7, old(bus)@),
    {
        let new_priority = pl & 0x7;
        let old_priority = (self.F[8] & 0xE) >> 1;

        if new_priority > old_priority {
            self.pl_set(new_priority, ssr7, bus);
            true
        } else {
            false
        }
    }

    /// Return from the current priority level: restore the PS context,
    /// `F[8]`, the PS selector and the PC from the level's link block.
    pub fn pl_retn(&mut self, bus: &mut Bus)
        requires
            old(self)@.wf(),
            old(bus).wf(),
        ensures
            final(bus)@ == old(bus)@,
            final(bus).wf(),
            final(self)@ == pl_retn_spec(old(self)@, old(bus)@),
    {
        let lb = self.PLBA_base.wrapping_add(16 * (((self.F[8] & 0xE) >> 1) as u32));

        match bus.read_w(lb) {
            Err(_) => {
                self.read_fault(0xFFFF, lb);
                return;
            },
            Ok(x) => {
                self.S_base[PS] = x;
            },
        };
        match bus.read_w(lb.wrapping_add(4)) {
            Err(_) => {
                self.read_fault(0xFFFF, lb.wrapping_add(4));
                return;
            },
            Ok(x) => {
                self.S_limit[PS] = x;
            },
        };
        match bus.read_w(lb.wrapping_add(8)) {
            Err(_) => {
                self.read_fault(0xFFFF, lb.wrapping_add(8));
                return;
            },
            Ok(x) => {
                self.S_key[PS] = (x & 0xFF) as u8;
                self.S_flags[PS] = ((x & 0xFF00) >> 8) as u8;
                self.F[8] = ((x & 0xFF0000) >> 16) as u8;
                self.S_selector[PS] = ((x & 0xFF000000) >> 24) as u8;
            },
        };
        match bus.read_w(lb.wrapping_add(12)) {
            Err(_) => {
                self.read_fault(0xFFFF, lb.wrapping_add(12));
                return;
            },
            Ok(x) => {
                self.R[PC] = x;
            },
        };
    }
}

/// Effect of `copy_segment`.
pub open spec fn copy_segment_spec(c: CpuView, dest: int, src: int) -> CpuView {
    c.with_sel(dest, c.sel[src]).with_sbase(dest, c.sbase[src]).with_slim(dest, c.slim[src]).with_skey(
        dest,
        c.skey[src],
    ).with_sflags(dest, c.sflags[src])
}

/// Instruction length in bytes from the first half-word.
pub open spec fn increment_spec(iword: u16) -> u32 {
    if (iword >> 14u16) & 3 == 1 || (iword >> 14u16) & 3 == 3 {
        4
    } else {
        2
    }
}

} // verus!
