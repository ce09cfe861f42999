//! The machine's stated laws, as proved facts about the cycle semantics.

use vstd::prelude::*;
use crate::bus::{BusView, bus_write_w_spec, bus_read_w_spec};
use crate::bus::{lemma_bus_word_round_trip, lemma_bus_write_w_frame, lemma_bus_write_w_ok_stable,
    lemma_bus_read_w_ok_stable};
use crate::cpu::{CpuView, wadd, opcode_spec, rr_reg_d_spec, rr_reg_r_spec, access_ok, ext12_spec,
    pl_set_spec, pl_enter_spec, pl_retn_spec, app_fault_spec, seg_fault_spec, SUPERVISOR_ACCESS};
use crate::step::{step_spec, rr_step_spec, rmx_step_spec, rm_step_spec, exec_spec, load_w_spec,
    store_w_spec};
use crate::alu::alu_shl_spec;
use crate::mem::{BusError, mem_read_h_spec, mem_read_w_spec};

verus! {

/// `R[0]` is observed as zero at the start of every instruction: a whole
/// cycle computes exactly the same machine and bus whatever `R[0]` held
/// when the cycle began.
pub proof fn lemma_zero_register_invisible(c: CpuView, b: BusView)
    requires
        c.wf(),
    ensures
        step_spec(c, b) == step_spec(c.with_reg(0, 0), b),
{
    assert(c.regs.update(0, 0).update(0, 0) =~= c.regs.update(0, 0));
    assert(c.with_reg(0, 0).with_reg(0, 0) =~= c.with_reg(0, 0));
}

/// A reference at or beyond the segment's limit never passes the access
/// check, whatever the key set, the permission flags or the CPU state.
pub proof fn lemma_limit_always_enforced(
    c: CpuView,
    seg: int,
    addr: u32,
    for_write: bool,
    for_exec: bool,
)
    requires
        addr >= c.slim[seg],
    ensures
        !access_ok(c, seg, addr, for_write, for_exec),
{
}

/// Concretely: a word load or store addressed at or beyond the limit is a
/// segmentation fault, regardless of key or permission state.
pub proof fn lemma_beyond_limit_faults(
    c: CpuView,
    b: BusView,
    iw0: u16,
    seg: int,
    addr: u32,
    d: int,
)
    requires
        addr >= c.slim[seg],
    ensures
        load_w_spec(c, b, iw0, seg, addr, d) == seg_fault_spec(c, iw0, addr),
        store_w_spec(c, b, iw0, seg, addr, d) == (seg_fault_spec(c, iw0, addr), b),
{
}

/// Misaligned half-word and word accesses on the reference device are
/// alignment faults, never silently split.
pub proof fn lemma_misaligned_access_checked(m: Seq<u8>, addr: u32)
    requires
        addr as int + 3 < m.len(),
    ensures
        addr % 2 != 0 ==> mem_read_h_spec(m, addr) == Err::<u16, BusError>(BusError::AlignmentCheck),
        addr % 4 != 0 ==> mem_read_w_spec(m, addr) == Err::<u32, BusError>(BusError::AlignmentCheck),
{
}

/// A quick shift's 4-bit immediate is biased by one: immediate 0 shifts by
/// 1, and the "long quick" form shifts by the immediate plus 16.
pub proof fn lemma_quick_shift_bias(c: CpuView, b: BusView, iw0: u16)
    requires
        opcode_spec(iw0) == 0x1C || opcode_spec(iw0) == 0x1E,
    ensures
        ({
            let d = rr_reg_d_spec(iw0);
            let bias: int = if opcode_spec(iw0) == 0x1C {
                1
            } else {
                16
            };
            let y = alu_shl_spec(c.regs[d], (rr_reg_r_spec(iw0) + bias) as u32, c.f[0]);
            rr_step_spec(c, b, iw0) == (c.with_reg(d, y.0).with_f(0, y.1), b)
        }),
{
    reveal(rr_step_spec);
}

/// An RM displacement of exactly 0x800 sign-extends to 0xFFFFF800 whenever
/// the segment's U flag is clear.
pub proof fn lemma_rm_sign_extension(c: CpuView, seg: int, index: u16)
    requires
        index & 0xFFF == 0x800,
        c.sflags[seg] & 1 == 0,
    ensures
        ext12_spec(c, seg, index) == 0xFFFFF800u32,
{
    assert(index & 0xFFF == 0x800 ==> ((index & 0xFFF) as u32) | 0xFFFFF000u32 == 0xFFFFF800u32)
        by (bit_vector);
}

/// The protected half of the register file under application state:
/// `F[8]` and `F[9]` and the selectors of segments 8..14.  (`S_selector[15]`
/// is set by fault entry itself, and `F[10..15]` is the fault record, so
/// both lie outside the invariant; branch-and-link writes `S_selector[14]`
/// by design, so BAL is excluded below.)
pub open spec fn protected_state_kept(c: CpuView, c2: CpuView) -> bool {
    &&& c2.f[8] == c.f[8]
    &&& c2.f[9] == c.f[9]
    &&& forall|j: int| 8 <= j < 15 ==> c2.sel[j] == c.sel[j]
}

/// In application state, no register-register instruction changes `F[8]`,
/// `F[9]` or `S_selector[8..14]`: the supervisor moves fault instead, and
/// fault entry touches only the fault record and `S_selector[15]`.
#[verifier::rlimit(100)]
#[verifier::spinoff_prover]
pub proof fn lemma_app_state_rr_protected(c: CpuView, b: BusView, iw0: u16)
    requires
        c.wf(),
        c.app_state(),
    ensures
        protected_state_kept(c, rr_step_spec(c, b, iw0).0),
{
    reveal(rr_step_spec);
}

/// The same for the RMX family; BAL (0x5F) is excluded since the branch
/// itself rewrites the link and program segments.
#[verifier::rlimit(100)]
#[verifier::spinoff_prover]
pub proof fn lemma_app_state_rmx_protected(c: CpuView, b: BusView, iw0: u16, iw1: u16)
    requires
        c.wf(),
        c.app_state(),
        opcode_spec(iw0) != 0x5F,
    ensures
        protected_state_kept(c, rmx_step_spec(c, b, iw0, iw1).0),
{
    reveal(rmx_step_spec);
}

/// The same for the RM family; BAL (0x7F) is excluded as above.
#[verifier::rlimit(100)]
#[verifier::spinoff_prover]
pub proof fn lemma_app_state_rm_protected(c: CpuView, b: BusView, iw0: u16, iw1: u16)
    requires
        c.wf(),
        c.app_state(),
        opcode_spec(iw0) != 0x7F,
    ensures
        protected_state_kept(c, rm_step_spec(c, b, iw0, iw1).0),
{
    reveal(rm_step_spec);
}

/// The whole execute step keeps the protected state in application state,
/// for every instruction except branch-and-link.
pub proof fn lemma_app_state_protected(c: CpuView, b: BusView, iw0: u16, iw1: u16)
    requires
        c.wf(),
        c.app_state(),
        opcode_spec(iw0) != 0x5F,
        opcode_spec(iw0) != 0x7F,
    ensures
        protected_state_kept(c, exec_spec(c, b, iw0, iw1).0),
{
    reveal(exec_spec);
    let op = opcode_spec(iw0);
    if op <= 0x3F {
        lemma_app_state_rr_protected(c, b, iw0);
    } else if op <= 0x5F {
        lemma_app_state_rmx_protected(c, b, iw0, iw1);
    } else if op <= 0x7F {
        lemma_app_state_rm_protected(c, b, iw0, iw1);
    }
}

/// The other half of the protection story: in application state, an SF,
/// SSEL, CSEL or SSELHC aimed at the supervisor half of its file raises
/// `SUPERVISOR_ACCESS` and does nothing else.
/// The concrete code bytes the fault paths record: the low byte of each
/// sign-extended fault word.  Every contract that writes a selector or an
/// interrupt code writes `(code & 0xFF) as u8`, so these pin the bytes a
/// handler observes.
pub proof fn lemma_fault_code_bytes()
    ensures
        (SUPERVISOR_ACCESS & 0xFF) as u8 == 0xFFu8,
        (crate::cpu::OUT_OF_BOUNDS & 0xFF) as u8 == 0xFEu8,
        (crate::cpu::ILLEGAL_INSTRUCTION & 0xFF) as u8 == 0xFDu8,
        (crate::cpu::SEGMENTATION_FAULT & 0xFF) as u8 == 0xFCu8,
        (crate::cpu::READ_FAULT & 0xFF) as u8 == 0xFBu8,
        (crate::cpu::WRITE_FAULT & 0xFF) as u8 == 0xFAu8,
{
    assert((0xFFFFFFFFu32 & 0xFF) as u8 == 0xFFu8 && (0xFFFFFFFEu32 & 0xFF) as u8 == 0xFEu8 && (
    0xFFFFFFFDu32 & 0xFF) as u8 == 0xFDu8 && (0xFFFFFFFCu32 & 0xFF) as u8 == 0xFCu8 && (
    0xFFFFFFFBu32 & 0xFF) as u8 == 0xFBu8 && (0xFFFFFFFAu32 & 0xFF) as u8 == 0xFAu8)
        by (bit_vector);
}

pub proof fn lemma_protected_write_faults(c: CpuView, b: BusView, iw0: u16)
    requires
        c.wf(),
        c.app_state(),
        rr_reg_d_spec(iw0) >= 8,
        opcode_spec(iw0) == 0x23 || opcode_spec(iw0) == 0x27 || opcode_spec(iw0) == 0x2A
            || opcode_spec(iw0) == 0x2B,
    ensures
        rr_step_spec(c, b, iw0) == (app_fault_spec(c, iw0, SUPERVISOR_ACCESS), b),
{
    reveal(rr_step_spec);
}

/// `pl_retn` after `pl_set(pl, ssr7)` restores the program-segment context
/// (base, limit, key, flags, selector), `F[8]` and the PC exactly, for a
/// link block that lies wholly on writable, readable bus memory and does
/// not wrap the address space.
#[verifier::rlimit(100)]
#[verifier::spinoff_prover]
pub proof fn lemma_pl_round_trip(c: CpuView, b: BusView, pl: u8, ssr7: u8)
    requires
        c.wf(),
        b.wf(),
        c.plba + 16 * (pl & 0x7) + 16 <= 0x100000000,
        ({
            let np = pl & 0x7;
            let lb = wadd(c.plba, (16 * np) as u32);
            let eb = wadd(c.peba, (16 * np) as u32);
            &&& bus_write_w_spec(b, lb, c.sbase[15]) is Ok
            &&& bus_write_w_spec(b, wadd(lb, 4), c.slim[15]) is Ok
            &&& bus_write_w_spec(b, wadd(lb, 8), 0) is Ok
            &&& bus_write_w_spec(b, wadd(lb, 12), 0) is Ok
            &&& bus_read_w_spec(b, eb) is Ok
            &&& bus_read_w_spec(b, wadd(eb, 4)) is Ok
            &&& bus_read_w_spec(b, wadd(eb, 8)) is Ok
            &&& bus_read_w_spec(b, wadd(eb, 12)) is Ok
        }),
    ensures
        ({
            let s1 = pl_set_spec(c, pl, ssr7, b);
            let c2 = pl_retn_spec(s1.0, s1.1);
            &&& c2.sbase[15] == c.sbase[15]
            &&& c2.slim[15] == c.slim[15]
            &&& c2.skey[15] == c.skey[15]
            &&& c2.sflags[15] == c.sflags[15]
            &&& c2.sel[15] == c.sel[15]
            &&& c2.f[8] == c.f[8]
            &&& c2.regs[15] == c.regs[15]
        }),
{
    let np = pl & 0x7;
    assert(pl & 0x7 < 8) by (bit_vector);
    let lb = wadd(c.plba, (16 * np) as u32);
    let eb = wadd(c.peba, (16 * np) as u32);
    let packed = (c.skey[15] as u32) | ((c.sflags[15] as u32) << 8u32) | ((c.f[8] as u32)
        << 16u32) | ((c.sel[15] as u32) << 24u32);

    // chain the four link-block writes
    let b1 = bus_write_w_spec(b, lb, c.sbase[15]).unwrap();
    lemma_bus_write_w_ok_stable(b, lb, c.sbase[15], wadd(lb, 4), c.slim[15], c.slim[15]);
    let b2 = bus_write_w_spec(b1, wadd(lb, 4), c.slim[15]).unwrap();
    lemma_bus_write_w_ok_stable(b, lb, c.sbase[15], wadd(lb, 8), 0, 0);
    lemma_bus_write_w_ok_stable(b1, wadd(lb, 4), c.slim[15], wadd(lb, 8), 0, packed);
    let b3 = bus_write_w_spec(b2, wadd(lb, 8), packed).unwrap();
    lemma_bus_write_w_ok_stable(b, lb, c.sbase[15], wadd(lb, 12), 0, 0);
    lemma_bus_write_w_ok_stable(b1, wadd(lb, 4), c.slim[15], wadd(lb, 12), 0, 0);
    lemma_bus_write_w_ok_stable(b2, wadd(lb, 8), packed, wadd(lb, 12), 0, c.regs[15]);
    let b4 = bus_write_w_spec(b3, wadd(lb, 12), c.regs[15]).unwrap();

    // each link word reads back as written
    lemma_bus_word_round_trip(b, lb, c.sbase[15]);
    lemma_bus_write_w_frame(b1, wadd(lb, 4), c.slim[15], lb);
    lemma_bus_write_w_frame(b2, wadd(lb, 8), packed, lb);
    lemma_bus_write_w_frame(b3, wadd(lb, 12), c.regs[15], lb);
    assert(bus_read_w_spec(b4, lb) == Ok::<u32, BusError>(c.sbase[15]));

    lemma_bus_word_round_trip(b1, wadd(lb, 4), c.slim[15]);
    lemma_bus_write_w_frame(b2, wadd(lb, 8), packed, wadd(lb, 4));
    lemma_bus_write_w_frame(b3, wadd(lb, 12), c.regs[15], wadd(lb, 4));
    assert(bus_read_w_spec(b4, wadd(lb, 4)) == Ok::<u32, BusError>(c.slim[15]));

    lemma_bus_word_round_trip(b2, wadd(lb, 8), packed);
    lemma_bus_write_w_frame(b3, wadd(lb, 12), c.regs[15], wadd(lb, 8));
    assert(bus_read_w_spec(b4, wadd(lb, 8)) == Ok::<u32, BusError>(packed));

    lemma_bus_word_round_trip(b3, wadd(lb, 12), c.regs[15]);
    assert(bus_read_w_spec(b4, wadd(lb, 12)) == Ok::<u32, BusError>(c.regs[15]));

    // the entry-block reads stay readable on the post-write bus
    lemma_bus_read_w_ok_stable(b, lb, c.sbase[15], eb);
    lemma_bus_read_w_ok_stable(b1, wadd(lb, 4), c.slim[15], eb);
    lemma_bus_read_w_ok_stable(b2, wadd(lb, 8), packed, eb);
    lemma_bus_read_w_ok_stable(b3, wadd(lb, 12), c.regs[15], eb);
    lemma_bus_read_w_ok_stable(b, lb, c.sbase[15], wadd(eb, 4));
    lemma_bus_read_w_ok_stable(b1, wadd(lb, 4), c.slim[15], wadd(eb, 4));
    lemma_bus_read_w_ok_stable(b2, wadd(lb, 8), packed, wadd(eb, 4));
    lemma_bus_read_w_ok_stable(b3, wadd(lb, 12), c.regs[15], wadd(eb, 4));
    lemma_bus_read_w_ok_stable(b, lb, c.sbase[15], wadd(eb, 8));
    lemma_bus_read_w_ok_stable(b1, wadd(lb, 4), c.slim[15], wadd(eb, 8));
    lemma_bus_read_w_ok_stable(b2, wadd(lb, 8), packed, wadd(eb, 8));
    lemma_bus_read_w_ok_stable(b3, wadd(lb, 12), c.regs[15], wadd(eb, 8));
    lemma_bus_read_w_ok_stable(b, lb, c.sbase[15], wadd(eb, 12));
    lemma_bus_read_w_ok_stable(b1, wadd(lb, 4), c.slim[15], wadd(eb, 12));
    lemma_bus_read_w_ok_stable(b2, wadd(lb, 8), packed, wadd(eb, 12));
    lemma_bus_read_w_ok_stable(b3, wadd(lb, 12), c.regs[15], wadd(eb, 12));

    let s1 = pl_set_spec(c, pl, ssr7, b);
    assert(s1.1 == b4);
    assert(s1.0 == pl_enter_spec(c, np, ssr7, b4));

    // the entered state runs at level np, with the link-block base intact
    let x2 = bus_read_w_spec(b4, wadd(eb, 8)).unwrap();
    let f8new = ((((x2 & 0xFF0000) >> 16u32) as u8) & 0xF1) | (np << 1u8);
    assert((f8new & 0xE) >> 1u8 == np) by (bit_vector)
        requires
            np < 8,
            f8new == ((((x2 & 0xFF0000) >> 16u32) as u8) & 0xF1) | (np << 1u8),
    ;
    assert(s1.0.plba == c.plba);
    assert(s1.0.level() == np);

    // return: the four reads come back with what pl_set wrote
    let c2 = pl_retn_spec(s1.0, b4);
    let k = c.skey[15];
    let fl = c.sflags[15];
    let f8v = c.f[8];
    let sl = c.sel[15];
    assert((packed & 0xFF) as u8 == k && ((packed & 0xFF00) >> 8u32) as u8 == fl && ((packed
        & 0xFF0000) >> 16u32) as u8 == f8v && ((packed & 0xFF000000) >> 24u32) as u8 == sl)
        by (bit_vector)
        requires
            packed == (k as u32) | ((fl as u32) << 8u32) | ((f8v as u32) << 16u32) | ((sl as u32)
                << 24u32),
    ;
}

} // verus!
