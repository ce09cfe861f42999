use seriesq::bus::{Bus, Device};
use seriesq::cpu::SeriesQ;
use seriesq::alu::{alu_shl, alu_shr, alu_sar};

fn machine() -> (SeriesQ, Bus) {
    let mut b = Bus::new();
    b.attach(0, 0x10000, Device::Ram(vec![0; 0x10000]));
    let mut c = SeriesQ::new();
    c.running = true;
    (c, b)
}

/// Store one instruction half-word in fetch order (big-endian).
fn emit_h(b: &mut Bus, addr: u32, iw: u16) {
    b.write_b(addr, (iw >> 8) as u8).unwrap();
    b.write_b(addr + 1, (iw & 0xFF) as u8).unwrap();
}

fn run(c: &mut SeriesQ, b: &mut Bus, max: usize) {
    let mut n = 0;
    while c.running && n < max {
        c.step(b);
        n += 1;
    }
    assert!(n < max, "program should halt by itself");
}

#[test]
fn condition_skip_loop() {
    // LA R1,0:0,#16; SQ R1,#1; IFN(E); B -8; STOP
    let (mut c, mut b) = machine();
    emit_h(&mut b, 0x00, 0x6110);
    emit_h(&mut b, 0x02, 0x0010);
    emit_h(&mut b, 0x04, 0x0E11);
    emit_h(&mut b, 0x06, 0x3F10);
    emit_h(&mut b, 0x08, 0x7F0F);
    emit_h(&mut b, 0x0A, 0xFFF8);
    emit_h(&mut b, 0x0C, 0xFFFF);
    run(&mut c, &mut b, 1000);
    assert_eq!(c.R[1], 0, "the loop counts R1 down to zero");
    // 0xFFFF has length bits 11, so the stop word fetches as four bytes
    assert_eq!(c.R[15], 0x10, "PC halted just past the stop word");
}

#[test]
fn shift_family() {
    // LA R1,0:0,#16; MV R2,R1; SLQ R2,#0; C R2,R1; SLQL R1,#0; STOP
    let (mut c, mut b) = machine();
    emit_h(&mut b, 0x00, 0x6110);
    emit_h(&mut b, 0x02, 0x0010);
    emit_h(&mut b, 0x04, 0x0021);
    emit_h(&mut b, 0x06, 0x1C20);
    emit_h(&mut b, 0x08, 0x2021);
    emit_h(&mut b, 0x0A, 0x1E10);
    emit_h(&mut b, 0x0C, 0xFFFF);
    run(&mut c, &mut b, 100);
    assert_eq!(c.R[2], 32, "quick shift immediate 0 shifts by 1");
    assert!(c.F[0] & 0x40 != 0, "compare of 16 against 32 sets L");
    assert_eq!(c.R[1], 0x100000, "long quick immediate 0 shifts by 16");

    // the shifter itself
    assert_eq!(alu_sar(0xFFFFFFFC, 1, 0).0, 0xFFFFFFFE);
    let (y, f) = alu_shr(0xFFFFFFFF, 1, 0);
    assert_eq!(y, 0x7FFFFFFF);
    assert!(f & 0x04 != 0, "the bit shifted out lands in C");
    assert_eq!(alu_shl(1, 16, 0).0, 0x10000);
}

#[test]
fn rm_offset_sign_extends() {
    // LA R1, 15:0, #0x800 — segment 15 has U clear, so 0x800 sign-extends
    let (mut c, mut b) = machine();
    emit_h(&mut b, 0x00, 0x6110);
    emit_h(&mut b, 0x02, 0xF800);
    emit_h(&mut b, 0x04, 0xFFFF);
    run(&mut c, &mut b, 100);
    assert_eq!(c.R[1], 0xFFFFF800);
}

#[test]
fn supervisor_fault() {
    // application state at level 0, fault level 3: SF to F[9] faults
    let (mut c, mut b) = machine();
    c.F[8] = 0x31;
    emit_h(&mut b, 0x00, 0x2391);
    emit_h(&mut b, 0x02, 0xFFFF);
    c.step(&mut b);
    assert_eq!(c.F[10], 0x91, "low byte of the faulting instruction word");
    assert_eq!(c.F[11], 0x23, "high byte of the faulting instruction word");
    assert_eq!(c.S_selector[15], 0xFF, "SUPERVISOR_ACCESS code byte");
    assert_eq!(c.icode[3], 0xFF);
    assert_eq!((c.F[8] & 0xE) >> 1, 3, "escalated to the fault priority level");
    assert!(!c.ipl[3], "the accepted line is cleared");
    assert!(c.running);
}

#[test]
fn segment_load() {
    // SSELHC loads descriptor #3 into S[3]
    let (mut c, mut b) = machine();
    c.SDTR_base = 0x100;
    c.SDTR_len = 10;
    b.write_w(0x124, 0xF000).unwrap();
    b.write_w(0x128, 0x10000).unwrap();
    b.write_b(0x12C, 0xFF).unwrap();
    b.write_b(0x12D, 0xF0).unwrap();
    emit_h(&mut b, 0x00, 0x2B33);
    c.step(&mut b);
    assert_eq!(c.S_selector[3], 3);
    assert_eq!(c.S_base[3], 0xF000);
    assert_eq!(c.S_limit[3], 0x10000);
    assert_eq!(c.S_key[3], 0xFF);
    assert_eq!(c.S_flags[3], 0xF0);
}

#[test]
fn dma_round_trip() {
    // CPU spins on a no-op loop while a channel requests the bus
    let (mut c, mut b) = machine();
    b.write_w(0xF000, 0xDEADBEEF).unwrap();
    emit_h(&mut b, 0x00, 0x0000);
    emit_h(&mut b, 0x02, 0x7F0F);
    emit_h(&mut b, 0x04, 0xFFFA);
    let cyc0 = c.cycles;
    c.step(&mut b);
    c.step(&mut b);
    assert_eq!(c.cycles, cyc0 + 2, "the counter advances before the transfer");

    c.channels[0].request();
    assert!(c.channels[0].check_pending());
    c.step(&mut b);
    assert!(!c.channels[0].brq, "the request is served within the next cycle");
    assert!(!c.channels[0].bgr);
    // the peripheral's transfer with the bus held:
    assert_eq!(b.read_w(0xF000).unwrap(), 0xDEADBEEF);
    let cyc1 = c.cycles;
    c.step(&mut b);
    assert_eq!(c.cycles, cyc1 + 1, "and keeps advancing afterwards");
}

#[test]
fn fault_path() {
    // illegal instruction in application state at level 0, fault level 3
    let (mut c, mut b) = machine();
    c.F[8] = 0x31;
    c.PEBA_base = 0x200;
    c.PLBA_base = 0x300;
    b.write_w(0x230, 0x0000).unwrap();
    b.write_w(0x234, 0xFFFF).unwrap();
    b.write_w(0x238, 0x0031F0FF).unwrap();
    b.write_w(0x23C, 0x444).unwrap();
    emit_h(&mut b, 0x00, 0xFFFF);
    c.step(&mut b);
    assert_eq!(c.S_selector[15], 0xFD, "ILLEGAL_INSTRUCTION code byte");
    assert_eq!(c.R[15], 0x444, "PC loaded from the level-3 entry block");
    assert_eq!((c.F[8] & 0xE) >> 1, 3);
    assert_eq!(c.S_limit[15], 0xFFFF);
    assert!(c.running);
}

#[test]
fn priority_level_round_trip() {
    // pl_retn after pl_set restores the saved context exactly
    let (mut c, mut b) = machine();
    c.PEBA_base = 0x200;
    c.PLBA_base = 0x300;
    b.write_w(0x230, 0x2000).unwrap();
    b.write_w(0x234, 0x3000).unwrap();
    b.write_w(0x238, 0x007E00FF).unwrap();
    b.write_w(0x23C, 0x100).unwrap();

    c.pl_set(3, 0xAB, &mut b);
    assert_eq!(c.S_base[15], 0x2000);
    assert_eq!(c.S_limit[15], 0x3000);
    assert_eq!(c.S_key[15], 0xFF);
    assert_eq!(c.S_flags[15], 0x00);
    assert_eq!(c.S_selector[15], 0xAB);
    assert_eq!(c.F[8], 0x76, "entry F[8] with the level bits overwritten");
    assert_eq!(c.R[15], 0x100);

    c.pl_retn(&mut b);
    assert_eq!(c.S_base[15], 0);
    assert_eq!(c.S_limit[15], 0xFFFFFFFF);
    assert_eq!(c.S_key[15], 0xFF);
    assert_eq!(c.S_flags[15], 0xF0);
    assert_eq!(c.S_selector[15], 0);
    assert_eq!(c.F[8], 0xFE, "the prior F[8] comes back in full");
    assert_eq!(c.R[15], 0);
}

#[test]
fn write_fault_records_address() {
    // a store into bus void write-faults; in supervisor state that is a
    // system fault, and at level 7 the machine halts
    let (mut c, mut b) = machine();
    c.R[2] = 0x20000;
    emit_h(&mut b, 0x00, 0x6812);
    emit_h(&mut b, 0x02, 0x0000);
    c.step(&mut b);
    assert!(!c.running, "level 7 fault halts");
    assert_eq!(c.F[12], 0x00);
    assert_eq!(c.F[13], 0x00);
    assert_eq!(c.F[14], 0x02);
    assert_eq!(c.F[15], 0x00);
    assert_eq!(c.F[10], 0x12);
    assert_eq!(c.F[11], 0x68);
}

#[test]
fn out_of_bounds_selector_faults() {
    // SSEL past the descriptor table raises OUT_OF_BOUNDS (code 0xFE); in
    // supervisor state below level 7 that becomes a level-7 system fault
    let (mut c, mut b) = machine();
    c.F[8] = 0x00;
    c.SDTR_base = 0x100;
    c.SDTR_len = 2;
    c.R[1] = 9;
    emit_h(&mut b, 0x00, 0x2731);
    c.step(&mut b);
    assert!(c.running, "the level-7 handler takes over");
    assert_eq!(c.F[10], 0x31);
    assert_eq!(c.F[11], 0x27);
    assert_eq!(c.icode[7], 0xFE);
    assert_eq!((c.F[8] & 0xE) >> 1, 7);
}

#[test]
fn selector_equal_to_table_length_faults() {
    // the table holds SDTR_len descriptors, numbered from 0, so a selector
    // equal to SDTR_len is already past the end
    let (mut c, mut b) = machine();
    c.F[8] = 0x00;
    c.SDTR_base = 0x100;
    c.SDTR_len = 2;
    c.R[1] = 2;
    emit_h(&mut b, 0x00, 0x2731);
    c.step(&mut b);
    assert!(c.running, "the level-7 handler takes over");
    assert_eq!(c.icode[7], 0xFE);
    assert_eq!((c.F[8] & 0xE) >> 1, 7);
}

#[test]
fn zero_register_reads_as_zero() {
    // R[0] is forced to zero before decode, whatever was left in it
    let (mut c, mut b) = machine();
    c.R[0] = 0x1234;
    // MV R1, R0; STOP
    emit_h(&mut b, 0x00, 0x0010);
    emit_h(&mut b, 0x02, 0xFFFF);
    run(&mut c, &mut b, 100);
    assert_eq!(c.R[1], 0);
}

#[test]
fn ssdtr_reloads_block_array_bases() {
    // SSDTR sets the table registers and re-reads PEBA and PLBA from the
    // base words of descriptors #0 and #1
    let (mut c, mut b) = machine();
    b.write_w(0xF00, 0xC100).unwrap();
    b.write_w(0xF0C, 0xC000).unwrap();
    // LA R1,0:0,#0xF00 (segment 0 zero-extends); LQ R2,4; SSDTR R1,R2
    emit_h(&mut b, 0x00, 0x6110);
    emit_h(&mut b, 0x02, 0x0F00);
    emit_h(&mut b, 0x04, 0x0124);
    emit_h(&mut b, 0x06, 0x2512);
    emit_h(&mut b, 0x08, 0xFFFF);
    run(&mut c, &mut b, 100);
    assert_eq!(c.SDTR_base, 0xF00);
    assert_eq!(c.SDTR_len, 4);
    assert_eq!(c.PEBA_base, 0xC100);
    assert_eq!(c.PLBA_base, 0xC000);
}

#[test]
fn if_skips_when_mask_clear() {
    // IF with an unmatched mask suppresses exactly the next instruction
    let (mut c, mut b) = machine();
    // LQ R1,5; IF(E); LQ R1,9; STOP  — flags start clear of E
    c.F[0] = 0;
    emit_h(&mut b, 0x00, 0x0115);
    emit_h(&mut b, 0x02, 0x3E10);
    emit_h(&mut b, 0x04, 0x0119);
    emit_h(&mut b, 0x06, 0xFFFF);
    run(&mut c, &mut b, 100);
    assert_eq!(c.R[1], 5, "the guarded load was skipped");

    // with E set, the guarded instruction executes
    let (mut c2, mut b2) = machine();
    c2.F[0] = 0x10;
    emit_h(&mut b2, 0x00, 0x0115);
    emit_h(&mut b2, 0x02, 0x3E10);
    emit_h(&mut b2, 0x04, 0x0119);
    emit_h(&mut b2, 0x06, 0xFFFF);
    run(&mut c2, &mut b2, 100);
    assert_eq!(c2.R[1], 9);
}

#[test]
fn supervisor_ops_fault_in_app_state() {
    // LMPK in application state raises SUPERVISOR_ACCESS (code 0xFF)
    let (mut c, mut b) = machine();
    c.F[8] = 0x31;
    emit_h(&mut b, 0x00, 0x2810);
    c.step(&mut b);
    assert_eq!(c.S_selector[15], 0xFF);
    assert_eq!(c.F[10], 0x10);
    assert_eq!(c.F[11], 0x28);
    assert_eq!((c.F[8] & 0xE) >> 1, 3, "escalated to the fault level");
}

#[test]
fn read_fault_records_address() {
    // a load from bus void read-faults with the address in F[12..15]
    let (mut c, mut b) = machine();
    c.R[2] = 0x20000;
    emit_h(&mut b, 0x00, 0x6012);
    emit_h(&mut b, 0x02, 0x0000);
    c.step(&mut b);
    assert!(!c.running, "level 7 fault halts");
    assert_eq!(c.F[12], 0x00);
    assert_eq!(c.F[13], 0x00);
    assert_eq!(c.F[14], 0x02);
    assert_eq!(c.F[15], 0x00);
    assert_eq!(c.F[10], 0x12);
    assert_eq!(c.F[11], 0x60);
}

#[test]
fn carry_chains_through_add_and_subtract() {
    // C is the unsigned carry-out of the whole sum, including the case
    // where only the carry-in step overflows
    let (y, f) = seriesq::alu::alu_add(0xFFFFFFFF, 0, 0x04, true);
    assert_eq!(y, 0);
    assert!(f & 0x04 != 0, "carry-in alone can produce a carry-out");
    let (y2, f2) = seriesq::alu::alu_add(0xFFFFFFFF, 1, 0, false);
    assert_eq!(y2, 0);
    assert!(f2 & 0x04 != 0);
    let (y3, f3) = seriesq::alu::alu_add(2, 3, 0x04, true);
    assert_eq!(y3, 6);
    assert!(f3 & 0x04 == 0);

    // and the borrow likewise: equal operands with borrow-in underflow
    let (d, g) = seriesq::alu::alu_sub(5, 5, 0x04, true);
    assert_eq!(d, 0xFFFFFFFF);
    assert!(g & 0x04 != 0, "borrow-in alone can produce a borrow-out");
    let (d2, g2) = seriesq::alu::alu_sub(5, 3, 0x04, true);
    assert_eq!(d2, 1);
    assert!(g2 & 0x04 == 0);
}

#[test]
fn port_is_memory_mapped() {
    // the data port sits on the bus like any device: a program stores a
    // half-word to it, raising the strobe, and reads its mask back
    let (mut c, mut b) = machine();
    b.attach(0x20000, 4, Device::Port(seriesq::periph::Port::new()));
    b.write_b(0x20003, 0x5A).unwrap(); // interrupt mask via the bus
    c.R[2] = 0x20000;
    c.R[1] = 0xBEEF;
    // HST R1, 0:2 (store half through the bus to the port); then
    // BTR R3, 0:2, X'3' (read the mask byte back); STOP
    emit_h(&mut b, 0x00, 0x6A12);
    emit_h(&mut b, 0x02, 0x0000);
    emit_h(&mut b, 0x04, 0x6232);
    emit_h(&mut b, 0x06, 0x0003);
    emit_h(&mut b, 0x08, 0xFFFF);
    run(&mut c, &mut b, 100);
    assert_eq!(c.R[3], 0x5A, "the mask byte came back through the bus");
    match &b.region[1] {
        Device::Port(p) => {
            assert_eq!(p.tx, 0xBEEF, "the store reached the port");
            assert!(p.strobe, "and raised the strobe");
        },
        Device::Ram(_) => panic!("range 1 should be the port"),
    }
}

#[test]
fn port_read_through_bus_acknowledges() {
    // reading the port's inbound byte through the bus clears its pending
    // interrupt, exactly as reading the device directly would
    let mut b = Bus::new();
    let mut p = seriesq::periph::Port::new();
    p.send(0xA55A);
    p.imask = 1;
    p.flag(1);
    assert!(p.ipl);
    b.attach(0x20000, 4, Device::Port(p));
    assert_eq!(b.read_b(0x20000).unwrap(), 0x5A);
    match &b.region[0] {
        Device::Port(q) => assert!(!q.ipl, "the read acknowledged the interrupt"),
        Device::Ram(_) => panic!("range 0 should be the port"),
    }
    // word access to the port is refused
    assert!(b.read_w(0x20000).is_err());
    assert!(b.write_w(0x20000, 1).is_err());
}
