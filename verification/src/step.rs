//! Fetch, decode and execute: one full CPU cycle.
//!
//! Per cycle the CPU clears `R[0]`, fetches one or two big-endian
//! instruction half-words through the protected address path, executes
//! (unless the skip latch set by IF/IFN suppresses it), services the
//! highest pending interrupt line, serves every pending arbitration
//! channel, and counts the cycle.

use vstd::prelude::*;
use crate::bus::{Bus, BusView};
use crate::bus::{bus_read_b_spec, bus_read_h_spec, bus_read_h_big_spec, bus_read_w_spec};
use crate::bus::{bus_write_b_spec, bus_write_h_spec, bus_write_w_spec};
use crate::channel::Channel;
use crate::cpu::{SeriesQ, CpuView, SQAddr, PC, PS, LS};
use crate::cpu::{SUPERVISOR_ACCESS, OUT_OF_BOUNDS, ILLEGAL_INSTRUCTION};
use crate::cpu::{wadd, opcode_spec, rr_reg_d_spec, rr_reg_r_spec, rm_seg_s_spec, rmx_reg_x_spec,
    rmx_idx_i_spec, rr_reg_d, rr_reg_r, rm_seg_s, rmx_reg_x, rmx_idx_i};
use crate::cpu::{access_ok, gen_offset_rm_spec, gen_offset_rmx_spec, gen_addr_rm_spec,
    gen_addr_rmx_spec, copy_segment_spec, increment_spec};
use crate::cpu::{read_fault_spec, write_fault_spec, seg_fault_spec, app_fault_spec, pl_esc_spec};
use crate::alu::{alu_shl_spec, alu_shr_spec, alu_sal_spec, alu_sar_spec, alu_add_spec,
    alu_sub_spec, alu_shl, alu_shr, alu_sal, alu_sar, alu_add, alu_sub};

verus! {

// Memory-operand execution, shared by the RM and RMX families.  Each takes
// the generated effective address; the access check, the bus access and
// the fault on either failure are identical in both families.

/// Load word into `R[d]`.
pub open spec fn load_w_spec(c: CpuView, b: BusView, iw0: u16, seg: int, addr: u32, d: int) -> CpuView {
    if access_ok(c, seg, addr, false, false) {
        match bus_read_w_spec(b, addr) {
            Err(_) => read_fault_spec(c, iw0, addr),
            Ok(v) => c.with_reg(d, v),
        }
    } else {
        seg_fault_spec(c, iw0, addr)
    }
}

/// Load byte, zero-extended, into `R[d]`.  Byte reads can change the
/// addressed device (a port acknowledges), so the bus threads through.
pub open spec fn load_b_tr_spec(c: CpuView, b: BusView, iw0: u16, seg: int, addr: u32, d: int) -> (
    CpuView,
    BusView,
) {
    if access_ok(c, seg, addr, false, false) {
        let r = bus_read_b_spec(b, addr);
        match r.0 {
            Err(_) => (read_fault_spec(c, iw0, addr), r.1),
            Ok(v) => (c.with_reg(d, v as u32), r.1),
        }
    } else {
        (seg_fault_spec(c, iw0, addr), b)
    }
}

/// Load half-word, zero-extended, into `R[d]`.
pub open spec fn load_h_tr_spec(c: CpuView, b: BusView, iw0: u16, seg: int, addr: u32, d: int) -> (
    CpuView,
    BusView,
) {
    if access_ok(c, seg, addr, false, false) {
        let r = bus_read_h_spec(b, addr);
        match r.0 {
            Err(_) => (read_fault_spec(c, iw0, addr), r.1),
            Ok(v) => (c.with_reg(d, v as u32), r.1),
        }
    } else {
        (seg_fault_spec(c, iw0, addr), b)
    }
}

/// Load byte, sign-extended, into `R[d]`.
pub open spec fn load_b_sf_spec(c: CpuView, b: BusView, iw0: u16, seg: int, addr: u32, d: int) -> (
    CpuView,
    BusView,
) {
    if access_ok(c, seg, addr, false, false) {
        let r = bus_read_b_spec(b, addr);
        match r.0 {
            Err(_) => (read_fault_spec(c, iw0, addr), r.1),
            Ok(v) => {
                let c1 = c.with_reg(d, v as u32);
                if v & 0b10000000 != 0 {
                    (c1.with_reg(d, c1.regs[d] | 0xFFFFFF00), r.1)
                } else {
                    (c1, r.1)
                }
            },
        }
    } else {
        (seg_fault_spec(c, iw0, addr), b)
    }
}

/// Load half-word, sign-extended, into `R[d]`.
pub open spec fn load_h_sf_spec(c: CpuView, b: BusView, iw0: u16, seg: int, addr: u32, d: int) -> (
    CpuView,
    BusView,
) {
    if access_ok(c, seg, addr, false, false) {
        let r = bus_read_h_spec(b, addr);
        match r.0 {
            Err(_) => (read_fault_spec(c, iw0, addr), r.1),
            Ok(v) => {
                let c1 = c.with_reg(d, v as u32);
                if v & 0x8000u16 != 0 {
                    (c1.with_reg(d, c1.regs[d] | 0xFFFF0000), r.1)
                } else {
                    (c1, r.1)
                }
            },
        }
    } else {
        (seg_fault_spec(c, iw0, addr), b)
    }
}

/// Load byte into the low byte of `R[d]`, upper bytes kept.
pub open spec fn load_b_ns_spec(c: CpuView, b: BusView, iw0: u16, seg: int, addr: u32, d: int) -> (
    CpuView,
    BusView,
) {
    if access_ok(c, seg, addr, false, false) {
        let r = bus_read_b_spec(b, addr);
        match r.0 {
            Err(_) => (read_fault_spec(c, iw0, addr), r.1),
            Ok(v) => (c.with_reg(d, (c.regs[d] & 0xFFFFFF00) | (v as u32)), r.1),
        }
    } else {
        (seg_fault_spec(c, iw0, addr), b)
    }
}

/// Load half-word into the low half of `R[d]`, upper half kept.
pub open spec fn load_h_ns_spec(c: CpuView, b: BusView, iw0: u16, seg: int, addr: u32, d: int) -> (
    CpuView,
    BusView,
) {
    if access_ok(c, seg, addr, false, false) {
        let r = bus_read_h_spec(b, addr);
        match r.0 {
            Err(_) => (read_fault_spec(c, iw0, addr), r.1),
            Ok(v) => (c.with_reg(d, (c.regs[d] & 0xFFFF0000) | (v as u32)), r.1),
        }
    } else {
        (seg_fault_spec(c, iw0, addr), b)
    }
}

/// Store `R[d]` as a word.
pub open spec fn store_w_spec(c: CpuView, b: BusView, iw0: u16, seg: int, addr: u32, d: int) -> (
    CpuView,
    BusView,
) {
    if access_ok(c, seg, addr, true, false) {
        match bus_write_w_spec(b, addr, c.regs[d]) {
            Err(_) => (write_fault_spec(c, iw0, addr), b),
            Ok(b2) => (c, b2),
        }
    } else {
        (seg_fault_spec(c, iw0, addr), b)
    }
}

/// Store the low byte of `R[d]`.
pub open spec fn store_b_spec(c: CpuView, b: BusView, iw0: u16, seg: int, addr: u32, d: int) -> (
    CpuView,
    BusView,
) {
    if access_ok(c, seg, addr, true, false) {
        match bus_write_b_spec(b, addr, (c.regs[d] & 0xFF) as u8) {
            Err(_) => (write_fault_spec(c, iw0, addr), b),
            Ok(b2) => (c, b2),
        }
    } else {
        (seg_fault_spec(c, iw0, addr), b)
    }
}

/// Store the low half of `R[d]`.
pub open spec fn store_h_spec(c: CpuView, b: BusView, iw0: u16, seg: int, addr: u32, d: int) -> (
    CpuView,
    BusView,
) {
    if access_ok(c, seg, addr, true, false) {
        match bus_write_h_spec(b, addr, (c.regs[d] & 0xFFFF) as u16) {
            Err(_) => (write_fault_spec(c, iw0, addr), b),
            Ok(b2) => (c, b2),
        }
    } else {
        (seg_fault_spec(c, iw0, addr), b)
    }
}

/// Load a segment descriptor from the table into segment register `d`:
/// the selector byte first, then base, limit, key and flags from the
/// 12-byte descriptor, each failed read faulting on the state reached.
/// The two byte reads can change the addressed device, so the bus threads
/// through them.
pub open spec fn load_descriptor_spec(c: CpuView, b: BusView, iw0: u16, d: int, sel: u8) -> (
    CpuView,
    BusView,
) {
    let a0 = wadd(c.sdtr_base, (12 * sel) as u32);
    let c0 = c.with_sel(d, sel);
    match bus_read_w_spec(b, a0) {
        Err(_) => (read_fault_spec(c0, iw0, a0), b),
        Ok(x0) => {
            let c1 = c0.with_sbase(d, x0);
            match bus_read_w_spec(b, wadd(a0, 4)) {
                Err(_) => (read_fault_spec(c1, iw0, wadd(a0, 4)), b),
                Ok(x1) => {
                    let c2 = c1.with_slim(d, x1);
                    let r8 = bus_read_b_spec(b, wadd(a0, 8));
                    match r8.0 {
                        Err(_) => (read_fault_spec(c2, iw0, wadd(a0, 8)), r8.1),
                        Ok(x2) => {
                            let c3 = c2.with_skey(d, x2);
                            let r9 = bus_read_b_spec(r8.1, wadd(a0, 9));
                            match r9.0 {
                                Err(_) => (read_fault_spec(c3, iw0, wadd(a0, 9)), r9.1),
                                Ok(x3) => (c3.with_sflags(d, x3), r9.1),
                            }
                        },
                    }
                },
            }
        },
    }
}

/// The register-register family (opcode high byte 0x00..0x3F): moves,
/// truncations, sign extensions, inserts, ALU, shifts, compare, flag and
/// supervisor register moves, descriptor loads, and the conditional-skip
/// pair.  The bus is read by SSDTR/SSEL/SSELHC and never written; the
/// descriptor loads' byte reads can still change the addressed device, so
/// the bus threads through.
#[verifier::opaque]
pub open spec fn rr_step_spec(c: CpuView, b: BusView, iw0: u16) -> (CpuView, BusView) {
    let op = opcode_spec(iw0);
    let d = rr_reg_d_spec(iw0);
    let r = rr_reg_r_spec(iw0);
    if op == 0x00 {  // MV
        (c.with_reg(d, c.regs[r]), b)
    } else if op == 0x01 {  // LQ
        (c.with_reg(d, r as u32), b)
    } else if op == 0x02 {  // BTR
        (c.with_reg(d, c.regs[r] & 0xFF), b)
    } else if op == 0x03 {  // HTR
        (c.with_reg(d, c.regs[r] & 0xFFFF), b)
    } else if op == 0x04 {  // BSF
        let c1 = c.with_reg(d, c.regs[r] & 0xFF);
        if c1.regs[r] & 0b10000000 != 0 {
            (c1.with_reg(d, c1.regs[d] | 0xFFFFFF00), b)
        } else {
            (c1, b)
        }
    } else if op == 0x05 {  // HSF
        let c1 = c.with_reg(d, c.regs[r] & 0xFFFF);
        if c1.regs[r] & 0x8000u32 != 0 {
            (c1.with_reg(d, c1.regs[d] | 0xFFFF0000), b)
        } else {
            (c1, b)
        }
    } else if op == 0x06 {  // BNS
        (c.with_reg(d, (c.regs[d] & 0xFFFFFF00) | (c.regs[r] & 0xFF)), b)
    } else if op == 0x07 {  // HNS
        (c.with_reg(d, (c.regs[d] & 0xFFFF0000) | (c.regs[r] & 0xFFFF)), b)
    } else if op == 0x08 {  // A
        let y = alu_add_spec(c.regs[d], c.regs[r], c.f[0], false);
        (c.with_reg(d, y.0).with_f(0, y.1), b)
    } else if op == 0x09 {  // AC
        let y = alu_add_spec(c.regs[d], c.regs[r], c.f[0], true);
        (c.with_reg(d, y.0).with_f(0, y.1), b)
    } else if op == 0x0A {  // S
        let y = alu_sub_spec(c.regs[d], c.regs[r], c.f[0], false);
        (c.with_reg(d, y.0).with_f(0, y.1), b)
    } else if op == 0x0B {  // SC
        let y = alu_sub_spec(c.regs[d], c.regs[r], c.f[0], true);
        (c.with_reg(d, y.0).with_f(0, y.1), b)
    } else if op == 0x0C {  // AQ
        let y = alu_add_spec(c.regs[d], r as u32, c.f[0], false);
        (c.with_reg(d, y.0).with_f(0, y.1), b)
    } else if op == 0x0D {  // AQC
        let y = alu_add_spec(c.regs[d], r as u32, c.f[0], true);
        (c.with_reg(d, y.0).with_f(0, y.1), b)
    } else if op == 0x0E {  // SQ
        let y = alu_sub_spec(c.regs[d], r as u32, c.f[0], false);
        (c.with_reg(d, y.0).with_f(0, y.1), b)
    } else if op == 0x0F {  // SQC
        let y = alu_sub_spec(c.regs[d], r as u32, c.f[0], true);
        (c.with_reg(d, y.0).with_f(0, y.1), b)
    } else if op == 0x10 {  // AN
        (c.with_reg(d, c.regs[d] & c.regs[r]), b)
    } else if op == 0x11 {  // O
        (c.with_reg(d, c.regs[d] | c.regs[r]), b)
    } else if op == 0x12 {  // X
        (c.with_reg(d, c.regs[d] ^ c.regs[r]), b)
    } else if op == 0x13 {  // XN
        (c.with_reg(d, !(c.regs[d] ^ c.regs[r])), b)
    } else if op == 0x14 {  // ANQ
        (c.with_reg(d, c.regs[d] & (r as u32)), b)
    } else if op == 0x15 {  // OQ
        (c.with_reg(d, c.regs[d] | (r as u32)), b)
    } else if op == 0x16 {  // XQ
        (c.with_reg(d, c.regs[d] ^ (r as u32)), b)
    } else if op == 0x17 {  // XNQ
        (c.with_reg(d, !(c.regs[d] ^ (r as u32))), b)
    } else if op == 0x18 {  // SL
        let y = alu_shl_spec(c.regs[d], c.regs[r], c.f[0]);
        (c.with_reg(d, y.0).with_f(0, y.1), b)
    } else if op == 0x19 {  // SR
        let y = alu_shr_spec(c.regs[d], c.regs[r], c.f[0]);
        (c.with_reg(d, y.0).with_f(0, y.1), b)
    } else if op == 0x1A {  // ASL
        let y = alu_sal_spec(c.regs[d], c.regs[r], c.f[0]);
        (c.with_reg(d, y.0).with_f(0, y.1), b)
    } else if op == 0x1B {  // ASR
        let y = alu_sar_spec(c.regs[d], c.regs[r], c.f[0]);
        (c.with_reg(d, y.0).with_f(0, y.1), b)
    } else if op == 0x1C {  // SLQ: quick shift, immediate biased by +1
        let y = alu_shl_spec(c.regs[d], (r + 1) as u32, c.f[0]);
        (c.with_reg(d, y.0).with_f(0, y.1), b)
    } else if op == 0x1D {  // SRQ
        let y = alu_shr_spec(c.regs[d], (r + 1) as u32, c.f[0]);
        (c.with_reg(d, y.0).with_f(0, y.1), b)
    } else if op == 0x1E {  // SLQL: long quick shift, immediate biased by +16
        let y = alu_shl_spec(c.regs[d], (r + 16) as u32, c.f[0]);
        (c.with_reg(d, y.0).with_f(0, y.1), b)
    } else if op == 0x1F {  // SRQL
        let y = alu_shr_spec(c.regs[d], (r + 16) as u32, c.f[0]);
        (c.with_reg(d, y.0).with_f(0, y.1), b)
    } else if op == 0x20 {  // C: compare, flags only
        let y = alu_sub_spec(c.regs[d], c.regs[r], c.f[0], false);
        (c.with_f(0, y.1), b)
    } else if op == 0x22 {  // LF
        (c.with_reg(d, c.f[r] as u32), b)
    } else if op == 0x23 {  // SF: F[8..15] are supervisor-only targets
        if c.app_state() && d >= 8 {
            (app_fault_spec(c, iw0, SUPERVISOR_ACCESS), b)
        } else {
            (c.with_f(d, (c.regs[r] & 0xFF) as u8), b)
        }
    } else if op == 0x24 {  // LSDTR
        if c.app_state() {
            (app_fault_spec(c, iw0, SUPERVISOR_ACCESS), b)
        } else {
            (c.with_reg(r, c.sdtr_len as u32).with_reg(d, c.sdtr_base), b)
        }
    } else if op == 0x25 {  // SSDTR, which also reloads PEBA and PLBA
        if c.app_state() {
            (app_fault_spec(c, iw0, SUPERVISOR_ACCESS), b)
        } else {
            let c1 = CpuView { sdtr_len: (c.regs[r] & 0xFF) as u8, sdtr_base: c.regs[d], ..c };
            match bus_read_w_spec(b, c1.sdtr_base) {
                Err(_) => (read_fault_spec(c1, iw0, c1.sdtr_base), b),
                Ok(x) => {
                    let c2 = CpuView { peba: x, ..c1 };
                    match bus_read_w_spec(b, wadd(c1.sdtr_base, 12)) {
                        Err(_) => (read_fault_spec(c2, iw0, wadd(c1.sdtr_base, 12)), b),
                        Ok(y) => (CpuView { plba: y, ..c2 }, b),
                    }
                },
            }
        }
    } else if op == 0x26 {  // LSEL
        (c.with_reg(d, c.sel[r] as u32), b)
    } else if op == 0x27 {  // SSEL
        // the descriptor table holds SDTR_len entries, so valid selectors
        // run 0..SDTR_len-1
        if c.app_state() && d >= 8 {
            (app_fault_spec(c, iw0, SUPERVISOR_ACCESS), b)
        } else if (c.regs[r] & 0xFF) as u8 >= c.sdtr_len {
            (app_fault_spec(c, iw0, OUT_OF_BOUNDS), b)
        } else {
            load_descriptor_spec(c, b, iw0, d, (c.regs[r] & 0xFF) as u8)
        }
    } else if op == 0x28 {  // LMPK
        if c.app_state() {
            (app_fault_spec(c, iw0, SUPERVISOR_ACCESS), b)
        } else {
            (c.with_reg(d, c.mpk[r] as u32), b)
        }
    } else if op == 0x29 {  // SMPK
        if c.app_state() {
            (app_fault_spec(c, iw0, SUPERVISOR_ACCESS), b)
        } else {
            (CpuView { mpk: c.mpk.update(d, (c.regs[r] & 0xFF) as u8), ..c }, b)
        }
    } else if op == 0x2A {  // CSEL
        if c.app_state() && d >= 8 {
            (app_fault_spec(c, iw0, SUPERVISOR_ACCESS), b)
        } else {
            (copy_segment_spec(c, d, r), b)
        }
    } else if op == 0x2B {  // SSELHC
        // same selector bound as SSEL
        if c.app_state() && d >= 8 {
            (app_fault_spec(c, iw0, SUPERVISOR_ACCESS), b)
        } else if r as u8 >= c.sdtr_len {
            (app_fault_spec(c, iw0, OUT_OF_BOUNDS), b)
        } else {
            load_descriptor_spec(c, b, iw0, d, r as u8)
        }
    } else if op == 0x3E {  // IF: execute next instruction iff mask matches
        if ((iw0 & 0xFF) as u8) & c.f[0] == 0 {
            (CpuView { skip: true, ..c }, b)
        } else {
            (c, b)
        }
    } else if op == 0x3F {  // IFN: skip next instruction iff mask matches
        if ((iw0 & 0xFF) as u8) & c.f[0] != 0 {
            (CpuView { skip: true, ..c }, b)
        } else {
            (c, b)
        }
    } else {
        (app_fault_spec(c, 0xFFFF, ILLEGAL_INSTRUCTION), b)
    }
}

/// The RMX family (0x40..0x5F): loads, stores and branch through an
/// index-register effective address.
#[verifier::opaque]
pub open spec fn rmx_step_spec(c: CpuView, b: BusView, iw0: u16, iw1: u16) -> (CpuView, BusView) {
    let op = opcode_spec(iw0);
    let d = rr_reg_d_spec(iw0);
    let r = rr_reg_r_spec(iw0);
    let s = rm_seg_s_spec(iw1);
    let x = rmx_reg_x_spec(iw1);
    let i = rmx_idx_i_spec(iw1);
    let addr = gen_addr_rmx_spec(c, s, r, x, i);
    if op == 0x40 {  // L
        (load_w_spec(c, b, iw0, s, addr, d), b)
    } else if op == 0x41 {  // LA
        (c.with_reg(d, gen_offset_rmx_spec(c, r, x, i)), b)
    } else if op == 0x42 {  // BTR
        load_b_tr_spec(c, b, iw0, s, addr, d)
    } else if op == 0x43 {  // HTR
        load_h_tr_spec(c, b, iw0, s, addr, d)
    } else if op == 0x44 {  // BSF
        load_b_sf_spec(c, b, iw0, s, addr, d)
    } else if op == 0x45 {  // HSF
        load_h_sf_spec(c, b, iw0, s, addr, d)
    } else if op == 0x46 {  // BNS
        load_b_ns_spec(c, b, iw0, s, addr, d)
    } else if op == 0x47 {  // HNS
        load_h_ns_spec(c, b, iw0, s, addr, d)
    } else if op == 0x48 {  // ST
        store_w_spec(c, b, iw0, s, addr, d)
    } else if op == 0x49 {  // BST
        store_b_spec(c, b, iw0, s, addr, d)
    } else if op == 0x4A {  // HST
        store_h_spec(c, b, iw0, s, addr, d)
    } else if op == 0x5F {  // BAL
        let c2 = if d != 0 {
            let c1 = copy_segment_spec(c, LS as int, PS as int);
            c1.with_reg(d, c1.regs[15])
        } else {
            c
        };
        let c3 = copy_segment_spec(c2, PS as int, s);
        (c3.with_reg(15, gen_offset_rmx_spec(c3, r, x, i)), b)
    } else {
        (app_fault_spec(c, 0xFFFF, ILLEGAL_INSTRUCTION), b)
    }
}

/// The RM family (0x60..0x7F): the same operations through a 12-bit
/// displacement effective address.
#[verifier::opaque]
pub open spec fn rm_step_spec(c: CpuView, b: BusView, iw0: u16, iw1: u16) -> (CpuView, BusView) {
    let op = opcode_spec(iw0);
    let d = rr_reg_d_spec(iw0);
    let r = rr_reg_r_spec(iw0);
    let s = rm_seg_s_spec(iw1);
    let addr = gen_addr_rm_spec(c, s, r, iw1);
    if op == 0x60 {  // L
        (load_w_spec(c, b, iw0, s, addr, d), b)
    } else if op == 0x61 {  // LA
        (c.with_reg(d, gen_offset_rm_spec(c, s, r, iw1)), b)
    } else if op == 0x62 {  // BTR
        load_b_tr_spec(c, b, iw0, s, addr, d)
    } else if op == 0x63 {  // HTR
        load_h_tr_spec(c, b, iw0, s, addr, d)
    } else if op == 0x64 {  // BSF
        load_b_sf_spec(c, b, iw0, s, addr, d)
    } else if op == 0x65 {  // HSF
        load_h_sf_spec(c, b, iw0, s, addr, d)
    } else if op == 0x66 {  // BNS
        load_b_ns_spec(c, b, iw0, s, addr, d)
    } else if op == 0x67 {  // HNS
        load_h_ns_spec(c, b, iw0, s, addr, d)
    } else if op == 0x68 {  // ST
        store_w_spec(c, b, iw0, s, addr, d)
    } else if op == 0x69 {  // BST
        store_b_spec(c, b, iw0, s, addr, d)
    } else if op == 0x6A {  // HST
        store_h_spec(c, b, iw0, s, addr, d)
    } else if op == 0x7F {  // BAL
        let c2 = if d != 0 {
            let c1 = copy_segment_spec(c, LS as int, PS as int);
            c1.with_reg(d, c1.regs[15])
        } else {
            c
        };
        let c3 = copy_segment_spec(c2, PS as int, s);
        (c3.with_reg(15, gen_offset_rm_spec(c3, s, r, iw1)), b)
    } else {
        (app_fault_spec(c, 0xFFFF, ILLEGAL_INSTRUCTION), b)
    }
}

/// Execute one decoded instruction: dispatch by the opcode's family, any
/// other high byte raising `ILLEGAL_INSTRUCTION`.
#[verifier::opaque]
pub open spec fn exec_spec(c: CpuView, b: BusView, iw0: u16, iw1: u16) -> (CpuView, BusView) {
    let op = opcode_spec(iw0);
    if op <= 0x3F {
        rr_step_spec(c, b, iw0)
    } else if op <= 0x5F {
        rmx_step_spec(c, b, iw0, iw1)
    } else if op <= 0x7F {
        rm_step_spec(c, b, iw0, iw1)
    } else {
        (app_fault_spec(c, 0xFFFF, ILLEGAL_INSTRUCTION), b)
    }
}

/// Fetch one big-endian half-word at `S_base[PS] + PC` through the
/// execute-mode access check; on success PC advances by 2.
pub open spec fn fetch_half_spec(c: CpuView, b: BusView) -> (bool, u16, CpuView) {
    let addr = wadd(c.regs[15], c.sbase[15]);
    if access_ok(c, 15, addr, false, true) {
        match bus_read_h_big_spec(b, addr) {
            Err(_) => (false, 0, read_fault_spec(c, 0xFFFF, addr)),
            Ok(x) => (true, x, c.with_reg(15, wadd(c.regs[15], 2))),
        }
    } else {
        (false, 0, seg_fault_spec(c, 0xFFFF, addr))
    }
}

/// Fetch a whole instruction: one half-word, and a second when the length
/// discriminator says four bytes.  A fault during either half aborts the
/// cycle's execute step.
pub open spec fn fetch_spec(c: CpuView, b: BusView) -> (bool, u16, u16, CpuView) {
    let f0 = fetch_half_spec(c, b);
    if !f0.0 {
        (false, 0, 0, f0.2)
    } else if increment_spec(f0.1) >= 4 {
        let f1 = fetch_half_spec(f0.2, b);
        if !f1.0 {
            (false, f0.1, 0, f1.2)
        } else {
            (true, f0.1, f1.1, f1.2)
        }
    } else {
        (true, f0.1, 0, f0.2)
    }
}

/// The interrupt line taken this cycle: the highest pending level, with
/// level 0 never selected on its own (an escalation to level 0 can never
/// raise the current level anyway).
pub open spec fn highest_pending(c: CpuView) -> int {
    if c.ipl[7] {
        7
    } else if c.ipl[6] {
        6
    } else if c.ipl[5] {
        5
    } else if c.ipl[4] {
        4
    } else if c.ipl[3] {
        3
    } else if c.ipl[2] {
        2
    } else if c.ipl[1] {
        1
    } else {
        0
    }
}

/// Serving a channel ends the handshake with both lines down; a quiet
/// channel is untouched.
pub open spec fn serve_chan(ch: Channel) -> Channel {
    if ch.brq {
        Channel { brq: false, bgr: false }
    } else {
        ch
    }
}

/// The front half of a cycle: clear `R[0]`, fetch, then execute — unless
/// the skip latch set by IF/IFN suppresses this instruction, in which case
/// the latch is consumed (fetch still advanced PC and checked access).
pub open spec fn cycle_front_spec(c: CpuView, b: BusView) -> (CpuView, BusView) {
    let c0 = c.with_reg(0, 0);
    let sk = c0.skip;
    let f = fetch_spec(c0, b);
    if f.0 && !sk {
        exec_spec(f.3, b, f.1, f.2)
    } else if sk {
        (CpuView { skip: false, ..f.3 }, b)
    } else {
        (f.3, b)
    }
}

/// The back half of a cycle: take the highest pending interrupt line
/// (clearing it when the escalation is accepted), serve every pending
/// channel, and count the cycle, wrapping on overflow.
pub open spec fn cycle_back_spec(c: CpuView, b: BusView) -> (CpuView, BusView) {
    let hi = highest_pending(c);
    let e = pl_esc_spec(c, hi as u8, c.icode[hi], b);
    let c4 = if e.2 {
        CpuView { ipl: e.0.ipl.update(hi, false), ..e.0 }
    } else {
        e.0
    };
    let c5 = CpuView { chans: c4.chans.map_values(|ch: Channel| serve_chan(ch)), ..c4 };
    let c6 = CpuView {
        cycles: if c5.cycles == 0xFFFFFFFFFFFFFFFFu64 {
            0
        } else {
            (c5.cycles + 1) as u64
        },
        ..c5
    };
    (c6, e.1)
}

/// One whole cycle: the fetch/execute front half followed by the
/// interrupt/channel/counter back half.
pub open spec fn step_spec(c: CpuView, b: BusView) -> (CpuView, BusView) {
    let fr = cycle_front_spec(c, b);
    cycle_back_spec(fr.0, fr.1)
}

impl SeriesQ {
    fn exec_load_w(&mut self, bus: &Bus, iw0: u16, seg: usize, addr: u32, d: usize)
        requires
            old(self)@.wf(),
            bus.wf(),
            seg < 16,
            d < 16,
        ensures
            final(self)@.wf(),
            final(self)@.cycles == old(self)@.cycles,
            final(self)@ == load_w_spec(old(self)@, bus@, iw0, seg as int, addr, d as int),
    {
        if self.access_check(seg, addr, false, false) {
            match bus.read_w(addr) {
                Err(_) => self.read_fault(iw0, addr),
                Ok(v) => {
                    self.R[d] = v;
                },
            }
        } else {
            self.seg_fault(iw0, addr);
        }
    }

    fn exec_load_b_tr(&mut self, bus: &mut Bus, iw0: u16, seg: usize, addr: u32, d: usize)
        requires
            old(self)@.wf(),
            old(bus).wf(),
            seg < 16,
            d < 16,
        ensures
            final(self)@.wf(),
            final(bus).wf(),
            final(self)@.cycles == old(self)@.cycles,
            (final(self)@, final(bus)@) == load_b_tr_spec(
                old(self)@,
                old(bus)@,
                iw0,
                seg as int,
                addr,
                d as int,
            ),
    {
        if self.access_check(seg, addr, false, false) {
            match bus.read_b(addr) {
                Err(_) => self.read_fault(iw0, addr),
                Ok(v) => {
                    self.R[d] = v as u32;
                },
            }
        } else {
            self.seg_fault(iw0, addr);
        }
    }

    fn exec_load_h_tr(&mut self, bus: &mut Bus, iw0: u16, seg: usize, addr: u32, d: usize)
        requires
            old(self)@.wf(),
            old(bus).wf(),
            seg < 16,
            d < 16,
        ensures
            final(self)@.wf(),
            final(bus).wf(),
            final(self)@.cycles == old(self)@.cycles,
            (final(self)@, final(bus)@) == load_h_tr_spec(
                old(self)@,
                old(bus)@,
                iw0,
                seg as int,
                addr,
                d as int,
            ),
    {
        if self.access_check(seg, addr, false, false) {
            match bus.read_h(addr) {
                Err(_) => self.read_fault(iw0, addr),
                Ok(v) => {
                    self.R[d] = v as u32;
                },
            }
        } else {
            self.seg_fault(iw0, addr);
        }
    }

    fn exec_load_b_sf(&mut self, bus: &mut Bus, iw0: u16, seg: usize, addr: u32, d: usize)
        requires
            old(self)@.wf(),
            old(bus).wf(),
            seg < 16,
            d < 16,
        ensures
            final(self)@.wf(),
            final(bus).wf(),
            final(self)@.cycles == old(self)@.cycles,
            (final(self)@, final(bus)@) == load_b_sf_spec(
                old(self)@,
                old(bus)@,
                iw0,
                seg as int,
                addr,
                d as int,
            ),
    {
        if self.access_check(seg, addr, false, false) {
            match bus.read_b(addr) {
                Err(_) => self.read_fault(iw0, addr),
                Ok(v) => {
                    self.R[d] = v as u32;
                    if v & 0b10000000 != 0 {
                        self.R[d] = self.R[d] | 0xFFFFFF00;
                    }
                },
            }
        } else {
            self.seg_fault(iw0, addr);
        }
    }

    fn exec_load_h_sf(&mut self, bus: &mut Bus, iw0: u16, seg: usize, addr: u32, d: usize)
        requires
            old(self)@.wf(),
            old(bus).wf(),
            seg < 16,
            d < 16,
        ensures
            final(self)@.wf(),
            final(bus).wf(),
            final(self)@.cycles == old(self)@.cycles,
            (final(self)@, final(bus)@) == load_h_sf_spec(
                old(self)@,
                old(bus)@,
                iw0,
                seg as int,
                addr,
                d as int,
            ),
    {
        if self.access_check(seg, addr, false, false) {
            match bus.read_h(addr) {
                Err(_) => self.read_fault(iw0, addr),
                Ok(v) => {
                    self.R[d] = v as u32;
                    if v & 0x8000 != 0 {
                        self.R[d] = self.R[d] | 0xFFFF0000;
                    }
                },
            }
        } else {
            self.seg_fault(iw0, addr);
        }
    }

    fn exec_load_b_ns(&mut self, bus: &mut Bus, iw0: u16, seg: usize, addr: u32, d: usize)
        requires
            old(self)@.wf(),
            old(bus).wf(),
            seg < 16,
            d < 16,
        ensures
            final(self)@.wf(),
            final(bus).wf(),
            final(self)@.cycles == old(self)@.cycles,
            (final(self)@, final(bus)@) == load_b_ns_spec(
                old(self)@,
                old(bus)@,
                iw0,
                seg as int,
                addr,
                d as int,
            ),
    {
        if self.access_check(seg, addr, false, false) {
            match bus.read_b(addr) {
                Err(_) => self.read_fault(iw0, addr),
                Ok(v) => {
                    self.R[d] = (self.R[d] & 0xFFFFFF00) | (v as u32);
                },
            }
        } else {
            self.seg_fault(iw0, addr);
        }
    }

    fn exec_load_h_ns(&mut self, bus: &mut Bus, iw0: u16, seg: usize, addr: u32, d: usize)
        requires
            old(self)@.wf(),
            old(bus).wf(),
            seg < 16,
            d < 16,
        ensures
            final(self)@.wf(),
            final(bus).wf(),
            final(self)@.cycles == old(self)@.cycles,
            (final(self)@, final(bus)@) == load_h_ns_spec(
                old(self)@,
                old(bus)@,
                iw0,
                seg as int,
                addr,
                d as int,
            ),
    {
        if self.access_check(seg, addr, false, false) {
            match bus.read_h(addr) {
                Err(_) => self.read_fault(iw0, addr),
                Ok(v) => {
                    self.R[d] = (self.R[d] & 0xFFFF0000) | (v as u32);
                },
            }
        } else {
            self.seg_fault(iw0, addr);
        }
    }

    fn exec_store_w(&mut self, bus: &mut Bus, iw0: u16, seg: usize, addr: u32, d: usize)
        requires
            old(self)@.wf(),
            old(bus).wf(),
            seg < 16,
            d < 16,
        ensures
            final(self)@.wf(),
            final(bus).wf(),
            final(self)@.cycles == old(self)@.cycles,
            (final(self)@, final(bus)@) == store_w_spec(
                old(self)@,
                old(bus)@,
                iw0,
                seg as int,
                addr,
                d as int,
            ),
    {
        if self.access_check(seg, addr, true, false) {
            match bus.write_w(addr, self.R[d]) {
                Err(_) => self.write_fault(iw0, addr),
                Ok(_) => {},
            }
        } else {
            self.seg_fault(iw0, addr);
        }
    }

    fn exec_store_b(&mut self, bus: &mut Bus, iw0: u16, seg: usize, addr: u32, d: usize)
        requires
            old(self)@.wf(),
            old(bus).wf(),
            seg < 16,
            d < 16,
        ensures
            final(self)@.wf(),
            final(bus).wf(),
            final(self)@.cycles == old(self)@.cycles,
            (final(self)@, final(bus)@) == store_b_spec(
                old(self)@,
                old(bus)@,
                iw0,
                seg as int,
                addr,
                d as int,
            ),
    {
        if self.access_check(seg, addr, true, false) {
            match bus.write_b(addr, (self.R[d] & 0xFF) as u8) {
                Err(_) => self.write_fault(iw0, addr),
                Ok(_) => {},
            }
        } else {
            self.seg_fault(iw0, addr);
        }
    }

    fn exec_store_h(&mut self, bus: &mut Bus, iw0: u16, seg: usize, addr: u32, d: usize)
        requires
            old(self)@.wf(),
            old(bus).wf(),
            seg < 16,
            d < 16,
        ensures
            final(self)@.wf(),
            final(bus).wf(),
            final(self)@.cycles == old(self)@.cycles,
            (final(self)@, final(bus)@) == store_h_spec(
                old(self)@,
                old(bus)@,
                iw0,
                seg as int,
                addr,
                d as int,
            ),
    {
        if self.access_check(seg, addr, true, false) {
            match bus.write_h(addr, (self.R[d] & 0xFFFF) as u16) {
                Err(_) => self.write_fault(iw0, addr),
                Ok(_) => {},
            }
        } else {
            self.seg_fault(iw0, addr);
        }
    }

    fn load_descriptor(&mut self, bus: &mut Bus, iw0: u16, d: usize, sel: u8)
        requires
            old(self)@.wf(),
            old(bus).wf(),
            d < 16,
        ensures
            final(self)@.wf(),
            final(bus).wf(),
            final(self)@.cycles == old(self)@.cycles,
            (final(self)@, final(bus)@) == load_descriptor_spec(
                old(self)@,
                old(bus)@,
                iw0,
                d as int,
                sel,
            ),
    {
        let a0 = self.SDTR_base.wrapping_add(12 * (sel as u32));
        self.S_selector[d] = sel;
        match bus.read_w(a0) {
            Err(_) => {
                self.read_fault(iw0, a0);
                return;
            },
            Ok(x) => {
                self.S_base[d] = x;
            },
        };
        match bus.read_w(a0.wrapping_add(4)) {
            Err(_) => {
                self.read_fault(iw0, a0.wrapping_add(4));
                return;
            },
            Ok(x) => {
                self.S_limit[d] = x;
            },
        };
        match bus.read_b(a0.wrapping_add(8)) {
            Err(_) => {
                self.read_fault(iw0, a0.wrapping_add(8));
                return;
            },
            Ok(x) => {
                self.S_key[d] = x;
            },
        };
        match bus.read_b(a0.wrapping_add(9)) {
            Err(_) => {
                self.read_fault(iw0, a0.wrapping_add(9));
                return;
            },
            Ok(x) => {
                self.S_flags[d] = x;
            },
        };
    }

    #[verifier::rlimit(100)]
    #[verifier::spinoff_prover]
    fn exec_rr(&mut self, bus: &mut Bus, iw0: u16)
        requires
            old(self)@.wf(),
            old(bus).wf(),
        ensures
            final(self)@.wf(),
            final(bus).wf(),
            final(self)@.cycles == old(self)@.cycles,
            (final(self)@, final(bus)@) == rr_step_spec(old(self)@, old(bus)@, iw0),
    {
        proof {
            reveal(rr_step_spec);
        }
        let op = (iw0 & 0xFF00) >> 8;
        let d = rr_reg_d(iw0);
        let r = rr_reg_r(iw0);
        match op {
            0x00 => {  // MV
                self.R[d] = self.R[r];
            },
            0x01 => {  // LQ
                self.R[d] = r as u32;
            },
            0x02 => {  // BTR
                self.R[d] = self.R[r] & 0xFF;
            },
            0x03 => {  // HTR
                self.R[d] = self.R[r] & 0xFFFF;
            },
            0x04 => {  // BSF
                self.R[d] = self.R[r] & 0xFF;
                if self.R[r] & 0b10000000 != 0 {
                    self.R[d] = self.R[d] | 0xFFFFFF00;
                }
            },
            0x05 => {  // HSF
                self.R[d] = self.R[r] & 0xFFFF;
                if self.R[r] & 0x8000 != 0 {
                    self.R[d] = self.R[d] | 0xFFFF0000;
                }
            },
            0x06 => {  // BNS
                self.R[d] = (self.R[d] & 0xFFFFFF00) | (self.R[r] & 0xFF);
            },
            0x07 => {  // HNS
                self.R[d] = (self.R[d] & 0xFFFF0000) | (self.R[r] & 0xFFFF);
            },
            0x08 => {  // A
                let y = alu_add(self.R[d], self.R[r], self.F[0], false);
                self.R[d] = y.0;
                self.F[0] = y.1;
            },
            0x09 => {  // AC
                let y = alu_add(self.R[d], self.R[r], self.F[0], true);
                self.R[d] = y.0;
                self.F[0] = y.1;
            },
            0x0A => {  // S
                let y = alu_sub(self.R[d], self.R[r], self.F[0], false);
                self.R[d] = y.0;
                self.F[0] = y.1;
            },
            0x0B => {  // SC
                let y = alu_sub(self.R[d], self.R[r], self.F[0], true);
                self.R[d] = y.0;
                self.F[0] = y.1;
            },
            0x0C => {  // AQ
                let y = alu_add(self.R[d], r as u32, self.F[0], false);
                self.R[d] = y.0;
                self.F[0] = y.1;
            },
            0x0D => {  // AQC
                let y = alu_add(self.R[d], r as u32, self.F[0], true);
                self.R[d] = y.0;
                self.F[0] = y.1;
            },
            0x0E => {  // SQ
                let y = alu_sub(self.R[d], r as u32, self.F[0], false);
                self.R[d] = y.0;
                self.F[0] = y.1;
            },
            0x0F => {  // SQC
                let y = alu_sub(self.R[d], r as u32, self.F[0], true);
                self.R[d] = y.0;
                self.F[0] = y.1;
            },
            0x10 => {  // AN
                self.R[d] = self.R[d] & self.R[r];
            },
            0x11 => {  // O
                self.R[d] = self.R[d] | self.R[r];
            },
            0x12 => {  // X
                self.R[d] = self.R[d] ^ self.R[r];
            },
            0x13 => {  // XN
                self.R[d] = !(self.R[d] ^ self.R[r]);
            },
            0x14 => {  // ANQ
                self.R[d] = self.R[d] & (r as u32);
            },
            0x15 => {  // OQ
                self.R[d] = self.R[d] | (r as u32);
            },
            0x16 => {  // XQ
                self.R[d] = self.R[d] ^ (r as u32);
            },
            0x17 => {  // XNQ
                self.R[d] = !(self.R[d] ^ (r as u32));
            },
            0x18 => {  // SL
                let y = alu_shl(self.R[d], self.R[r], self.F[0]);
                self.R[d] = y.0;
                self.F[0] = y.1;
            },
            0x19 => {  // SR
                let y = alu_shr(self.R[d], self.R[r], self.F[0]);
                self.R[d] = y.0;
                self.F[0] = y.1;
            },
            0x1A => {  // ASL
                let y = alu_sal(self.R[d], self.R[r], self.F[0]);
                self.R[d] = y.0;
                self.F[0] = y.1;
            },
            0x1B => {  // ASR
                let y = alu_sar(self.R[d], self.R[r], self.F[0]);
                self.R[d] = y.0;
                self.F[0] = y.1;
            },
            0x1C => {  // SLQ
                let y = alu_shl(self.R[d], r as u32 + 1, self.F[0]);
                self.R[d] = y.0;
                self.F[0] = y.1;
            },
            0x1D => {  // SRQ
                let y = alu_shr(self.R[d], r as u32 + 1, self.F[0]);
                self.R[d] = y.0;
                self.F[0] = y.1;
            },
            0x1E => {  // SLQL
                let y = alu_shl(self.R[d], r as u32 + 16, self.F[0]);
                self.R[d] = y.0;
                self.F[0] = y.1;
            },
            0x1F => {  // SRQL
                let y = alu_shr(self.R[d], r as u32 + 16, self.F[0]);
                self.R[d] = y.0;
                self.F[0] = y.1;
            },
            0x20 => {  // C
                let y = alu_sub(self.R[d], self.R[r], self.F[0], false);
                self.F[0] = y.1;
            },
            0x22 => {  // LF
                self.R[d] = self.F[r] as u32;
            },
            0x23 => {  // SF
                if self.F[8] & 1 != 0 && d >= 8 {
                    self.app_fault(iw0, SUPERVISOR_ACCESS);
                } else {
                    self.F[d] = (self.R[r] & 0xFF) as u8;
                }
            },
            0x24 => {  // LSDTR
                if self.F[8] & 1 != 0 {
                    self.app_fault(iw0, SUPERVISOR_ACCESS);
                } else {
                    self.R[r] = self.SDTR_len as u32;
                    self.R[d] = self.SDTR_base;
                }
            },
            0x25 => {  // SSDTR
                if self.F[8] & 1 != 0 {
                    self.app_fault(iw0, SUPERVISOR_ACCESS);
                } else {
                    self.SDTR_len = (self.R[r] & 0xFF) as u8;
                    self.SDTR_base = self.R[d];
                    let a0 = self.SDTR_base;
                    match bus.read_w(a0) {
                        Err(_) => self.read_fault(iw0, a0),
                        Ok(x) => {
                            self.PEBA_base = x;
                            let a1 = a0.wrapping_add(12);
                            match bus.read_w(a1) {
                                Err(_) => self.read_fault(iw0, a1),
                                Ok(y) => {
                                    self.PLBA_base = y;
                                },
                            }
                        },
                    }
                }
            },
            0x26 => {  // LSEL
                self.R[d] = self.S_selector[r] as u32;
            },
            0x27 => {  // SSEL
                if self.F[8] & 1 != 0 && d >= 8 {
                    self.app_fault(iw0, SUPERVISOR_ACCESS);
                } else if ((self.R[r] & 0xFF) as u8) >= self.SDTR_len {
                    self.app_fault(iw0, OUT_OF_BOUNDS);
                } else {
                    let sel = (self.R[r] & 0xFF) as u8;
                    self.load_descriptor(bus, iw0, d, sel);
                }
            },
            0x28 => {  // LMPK
                if self.F[8] & 1 != 0 {
                    self.app_fault(iw0, SUPERVISOR_ACCESS);
                } else {
                    self.R[d] = self.MPK[r] as u32;
                }
            },
            0x29 => {  // SMPK
                if self.F[8] & 1 != 0 {
                    self.app_fault(iw0, SUPERVISOR_ACCESS);
                } else {
                    self.MPK[d] = (self.R[r] & 0xFF) as u8;
                }
            },
            0x2A => {  // CSEL
                if self.F[8] & 1 != 0 && d >= 8 {
                    self.app_fault(iw0, SUPERVISOR_ACCESS);
                } else {
                    self.copy_segment(d, r);
                }
            },
            0x2B => {  // SSELHC
                if self.F[8] & 1 != 0 && d >= 8 {
                    self.app_fault(iw0, SUPERVISOR_ACCESS);
                } else if (r as u8) >= self.SDTR_len {
                    self.app_fault(iw0, OUT_OF_BOUNDS);
                } else {
                    self.load_descriptor(bus, iw0, d, r as u8);
                }
            },
            0x3E => {  // IF
                let mask = (iw0 & 0xFF) as u8;
                if mask & self.F[0] == 0 {
                    self.skip = true;
                }
            },
            0x3F => {  // IFN
                let mask = (iw0 & 0xFF) as u8;
                if mask & self.F[0] != 0 {
                    self.skip = true;
                }
            },
            _ => {
                self.app_fault(0xFFFF, ILLEGAL_INSTRUCTION);
            },
        }
    }

    fn exec_rmx(&mut self, bus: &mut Bus, iw0: u16, iw1: u16)
        requires
            old(self)@.wf(),
            old(bus).wf(),
        ensures
            final(self)@.wf(),
            final(bus).wf(),
            final(self)@.cycles == old(self)@.cycles,
            (final(self)@, final(bus)@) == rmx_step_spec(old(self)@, old(bus)@, iw0, iw1),
    {
        proof {
            reveal(rmx_step_spec);
        }
        let op = (iw0 & 0xFF00) >> 8;
        let d = rr_reg_d(iw0);
        let r = rr_reg_r(iw0);
        let s = rm_seg_s(iw1);
        let x = rmx_reg_x(iw1);
        let i = rmx_idx_i(iw1);
        match op {
            0x40 => {
                let addr = self.gen_addr_rmx(s, r, x, i);
                self.exec_load_w(bus, iw0, s, addr, d);
            },
            0x41 => {
                self.R[d] = self.gen_offset_rmx(s, r, x, i);
            },
            0x42 => {
                let addr = self.gen_addr_rmx(s, r, x, i);
                self.exec_load_b_tr(bus, iw0, s, addr, d);
            },
            0x43 => {
                let addr = self.gen_addr_rmx(s, r, x, i);
                self.exec_load_h_tr(bus, iw0, s, addr, d);
            },
            0x44 => {
                let addr = self.gen_addr_rmx(s, r, x, i);
                self.exec_load_b_sf(bus, iw0, s, addr, d);
            },
            0x45 => {
                let addr = self.gen_addr_rmx(s, r, x, i);
                self.exec_load_h_sf(bus, iw0, s, addr, d);
            },
            0x46 => {
                let addr = self.gen_addr_rmx(s, r, x, i);
                self.exec_load_b_ns(bus, iw0, s, addr, d);
            },
            0x47 => {
                let addr = self.gen_addr_rmx(s, r, x, i);
                self.exec_load_h_ns(bus, iw0, s, addr, d);
            },
            0x48 => {
                let addr = self.gen_addr_rmx(s, r, x, i);
                self.exec_store_w(bus, iw0, s, addr, d);
            },
            0x49 => {
                let addr = self.gen_addr_rmx(s, r, x, i);
                self.exec_store_b(bus, iw0, s, addr, d);
            },
            0x4A => {
                let addr = self.gen_addr_rmx(s, r, x, i);
                self.exec_store_h(bus, iw0, s, addr, d);
            },
            0x5F => {  // BAL
                if d != 0 {
                    self.copy_segment(LS, PS);
                    self.R[d] = self.R[PC];
                }
                self.copy_segment(PS, s);
                self.R[PC] = self.gen_offset_rmx(s, r, x, i);
            },
            _ => {
                self.app_fault(0xFFFF, ILLEGAL_INSTRUCTION);
            },
        }
    }

    fn exec_rm(&mut self, bus: &mut Bus, iw0: u16, iw1: u16)
        requires
            old(self)@.wf(),
            old(bus).wf(),
        ensures
            final(self)@.wf(),
            final(bus).wf(),
            final(self)@.cycles == old(self)@.cycles,
            (final(self)@, final(bus)@) == rm_step_spec(old(self)@, old(bus)@, iw0, iw1),
    {
        proof {
            reveal(rm_step_spec);
        }
        let op = (iw0 & 0xFF00) >> 8;
        let d = rr_reg_d(iw0);
        let r = rr_reg_r(iw0);
        let s = rm_seg_s(iw1);
        match op {
            0x60 => {
                let addr = self.gen_addr_rm(s, r, iw1);
                self.exec_load_w(bus, iw0, s, addr, d);
            },
            0x61 => {
                self.R[d] = self.gen_offset_rm(s, r, iw1);
            },
            0x62 => {
                let addr = self.gen_addr_rm(s, r, iw1);
                self.exec_load_b_tr(bus, iw0, s, addr, d);
            },
            0x63 => {
                let addr = self.gen_addr_rm(s, r, iw1);
                self.exec_load_h_tr(bus, iw0, s, addr, d);
            },
            0x64 => {
                let addr = self.gen_addr_rm(s, r, iw1);
                self.exec_load_b_sf(bus, iw0, s, addr, d);
            },
            0x65 => {
                let addr = self.gen_addr_rm(s, r, iw1);
                self.exec_load_h_sf(bus, iw0, s, addr, d);
            },
            0x66 => {
                let addr = self.gen_addr_rm(s, r, iw1);
                self.exec_load_b_ns(bus, iw0, s, addr, d);
            },
            0x67 => {
                let addr = self.gen_addr_rm(s, r, iw1);
                self.exec_load_h_ns(bus, iw0, s, addr, d);
            },
            0x68 => {
                let addr = self.gen_addr_rm(s, r, iw1);
                self.exec_store_w(bus, iw0, s, addr, d);
            },
            0x69 => {
                let addr = self.gen_addr_rm(s, r, iw1);
                self.exec_store_b(bus, iw0, s, addr, d);
            },
            0x6A => {
                let addr = self.gen_addr_rm(s, r, iw1);
                self.exec_store_h(bus, iw0, s, addr, d);
            },
            0x7F => {  // BAL
                if d != 0 {
                    self.copy_segment(LS, PS);
                    self.R[d] = self.R[PC];
                }
                self.copy_segment(PS, s);
                self.R[PC] = self.gen_offset_rm(s, r, iw1);
            },
            _ => {
                self.app_fault(0xFFFF, ILLEGAL_INSTRUCTION);
            },
        }
    }

    /// Execute one fetched instruction.
    fn execute(&mut self, bus: &mut Bus, iw0: u16, iw1: u16)
        requires
            old(self)@.wf(),
            old(bus).wf(),
        ensures
            final(self)@.wf(),
            final(bus).wf(),
            final(self)@.cycles == old(self)@.cycles,
            (final(self)@, final(bus)@) == exec_spec(old(self)@, old(bus)@, iw0, iw1),
    {
        proof {
            reveal(exec_spec);
        }
        let op = (iw0 & 0xFF00) >> 8;
        if op <= 0x3F {
            self.exec_rr(bus, iw0);
        } else if op <= 0x5F {
            self.exec_rmx(bus, iw0, iw1);
        } else if op <= 0x7F {
            self.exec_rm(bus, iw0, iw1);
        } else {
            self.app_fault(0xFFFF, ILLEGAL_INSTRUCTION);
        }
    }

    /// Fetch one or two instruction half-words; a fault during fetch
    /// leaves the returned flag false and the instruction unexecuted.
    fn fetch(&mut self, bus: &Bus) -> (r: (bool, u16, u16))
        requires
            old(self)@.wf(),
            bus.wf(),
        ensures
            final(self)@.wf(),
            final(self)@.cycles == old(self)@.cycles,
            ({
                let f = fetch_spec(old(self)@, bus@);
                r.0 == f.0 && r.1 == f.1 && r.2 == f.2 && final(self)@ == f.3
            }),
    {
        let mut iword0: u16 = 0;
        let addr = self.R[PC].wrapping_add(self.S_base[PS]);
        if self.access_check(PS, addr, false, true) {
            match bus.read_h_big(addr) {
                Err(_) => {
                    self.read_fault(0xFFFF, addr);
                    return (false, 0, 0);
                },
                Ok(v) => {
                    iword0 = v;
                    self.R[PC] = self.R[PC].wrapping_add(2);
                },
            }
        } else {
            self.seg_fault(0xFFFF, addr);
            return (false, 0, 0);
        }

        if self.increment(iword0) >= 4 {
            let addr1 = self.R[PC].wrapping_add(self.S_base[PS]);
            if self.access_check(PS, addr1, false, true) {
                match bus.read_h_big(addr1) {
                    Err(_) => {
                        self.read_fault(0xFFFF, addr1);
                        return (false, iword0, 0);
                    },
                    Ok(v) => {
                        self.R[PC] = self.R[PC].wrapping_add(2);
                        return (true, iword0, v);
                    },
                }
            } else {
                self.seg_fault(0xFFFF, addr1);
                return (false, iword0, 0);
            }
        }
        (true, iword0, 0)
    }

    /// The fetch/execute half of the cycle.
    fn cycle_front(&mut self, bus: &mut Bus)
        requires
            old(self)@.wf(),
            old(bus).wf(),
        ensures
            final(self)@.wf(),
            final(bus).wf(),
            final(self)@.cycles == old(self)@.cycles,
            (final(self)@, final(bus)@) == cycle_front_spec(old(self)@, old(bus)@),
    {
        self.R[0] = 0;
        let sk = self.skip;
        let f = self.fetch(bus);
        if f.0 && !sk {
            self.execute(bus, f.1, f.2);
        } else if sk {
            self.skip = false;
        }
    }

    /// The interrupt, channel-service and cycle-count half of the cycle.
    fn cycle_back(&mut self, bus: &mut Bus)
        requires
            old(self)@.wf(),
            old(bus).wf(),
        ensures
            final(self)@.wf(),
            final(bus).wf(),
            final(self)@.cycles == (if old(self)@.cycles == 0xFFFFFFFFFFFFFFFFu64 {
                0u64
            } else {
                (old(self)@.cycles + 1) as u64
            }),
            (final(self)@, final(bus)@) == cycle_back_spec(old(self)@, old(bus)@),
    {
        // service interrupts: highest pending line wins
        let hi: usize = if self.ipl[7] {
            7
        } else if self.ipl[6] {
            6
        } else if self.ipl[5] {
            5
        } else if self.ipl[4] {
            4
        } else if self.ipl[3] {
            3
        } else if self.ipl[2] {
            2
        } else if self.ipl[1] {
            1
        } else {
            0
        };
        let code = self.icode[hi];
        let accepted = self.pl_esc(hi as u8, code, bus);
        if accepted {
            self.ipl[hi] = false;
        }

        // serve DMA channels in index order
        let ghost mid = self@;
        let n = self.channels.len();
        let mut k: usize = 0;
        while k < n
            invariant
                n == self.channels.len(),
                k <= n,
                mid.chans.len() == n,
                forall|j: int| 0 <= j < k ==> self@.chans[j] == serve_chan(mid.chans[j]),
                forall|j: int| k <= j < n ==> self@.chans[j] == mid.chans[j],
                self@ == (CpuView { chans: self@.chans, ..mid }),
            decreases n - k,
        {
            let pending = self.channels[k].check_pending();
            if pending {
                let ch = &mut self.channels[k];
                ch.open();
            }
            k += 1;
            proof {
                assert(self@ =~= (CpuView { chans: self@.chans, ..mid }));
            }
        }
        proof {
            assert(self@.chans =~= mid.chans.map_values(|ch: Channel| serve_chan(ch)));
            assert(self@ =~= (CpuView {
                chans: mid.chans.map_values(|ch: Channel| serve_chan(ch)),
                ..mid
            }));
        }

        self.cycles = self.cycles.wrapping_add(1);
        proof {
            assert(self@ =~= cycle_back_spec(old(self)@, old(bus)@).0);
        }
    }

    /// One whole CPU cycle.  The cycle counter always advances by exactly
    /// one (wrapping), whatever else the cycle did.
    pub fn step(&mut self, bus: &mut Bus)
        requires
            old(self)@.wf(),
            old(bus).wf(),
        ensures
            final(self)@.wf(),
            final(bus).wf(),
            (final(self)@, final(bus)@) == step_spec(old(self)@, old(bus)@),
            final(self)@.cycles == (if old(self)@.cycles == 0xFFFFFFFFFFFFFFFFu64 {
                0u64
            } else {
                (old(self)@.cycles + 1) as u64
            }),
    {
        self.cycle_front(bus);
        self.cycle_back(bus);
    }
}

} // verus!
