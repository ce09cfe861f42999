use seriesq::mem::{BusError, Memory32};
use seriesq::bus::{Bus, Device};
use seriesq::periph::{Port, LP1204};

fn ram(n: usize) -> Vec<u8> {
    vec![0; n]
}

#[test]
fn word_write_reads_back_bytes() {
    // little-endian consistency: each byte of a written word reads back
    let mut m = ram(64);
    m.write_w(8, 0xDEADBEEF).unwrap();
    assert_eq!(m.read_b(8).unwrap(), 0xEF);
    assert_eq!(m.read_b(9).unwrap(), 0xBE);
    assert_eq!(m.read_b(10).unwrap(), 0xAD);
    assert_eq!(m.read_b(11).unwrap(), 0xDE);
    assert_eq!(m.read_w(8).unwrap(), 0xDEADBEEF);
    assert_eq!(m.read_h(8).unwrap(), 0xBEEF);
    assert_eq!(m.read_h(10).unwrap(), 0xDEAD);
}

#[test]
fn fetch_composition_is_big_endian() {
    let mut m = ram(16);
    m.write_b(4, 0x12).unwrap();
    m.write_b(5, 0x34).unwrap();
    assert_eq!(m.read_h_big(4).unwrap(), 0x1234);
    // while the little-endian half read swaps
    assert_eq!(m.read_h(4).unwrap(), 0x3412);
}

#[test]
fn misaligned_access_is_alignment_check() {
    let mut m = ram(64);
    assert_eq!(m.read_h(3), Err(BusError::AlignmentCheck));
    assert_eq!(m.read_w(6), Err(BusError::AlignmentCheck));
    assert_eq!(m.write_h(3, 1), Err(BusError::AlignmentCheck));
    assert_eq!(m.write_w(6, 1), Err(BusError::AlignmentCheck));
    // big-endian fetch has no alignment requirement
    assert!(m.read_h_big(3).is_ok());
}

#[test]
fn out_of_range_is_invalid_address() {
    let mut m = ram(8);
    assert_eq!(m.read_b(8), Err(BusError::InvalidAddress));
    assert_eq!(m.read_h(7), Err(BusError::InvalidAddress));
    assert_eq!(m.read_w(6), Err(BusError::InvalidAddress));
    assert_eq!(m.write_b(100, 1), Err(BusError::InvalidAddress));
}

#[test]
fn bus_dispatches_to_first_matching_range() {
    let mut b = Bus::new();
    let mut r0 = ram(16);
    r0.write_b(0, 0xAA).unwrap();
    let mut r1 = ram(16);
    r1.write_b(0, 0xBB).unwrap();
    b.attach(0x100, 16, Device::Ram(r0));
    b.attach(0x100, 16, Device::Ram(r1)); // overlapping: first registered wins
    assert_eq!(b.read_b(0x100).unwrap(), 0xAA);
    assert_eq!(b.read_b(0xFF), Err(BusError::InvalidAddress));
    assert_eq!(b.read_b(0x110), Err(BusError::InvalidAddress));
}

#[test]
fn bus_translates_offsets() {
    let mut b = Bus::new();
    b.attach(0x1000, 0x100, Device::Ram(ram(0x100)));
    b.write_w(0x1040, 0xCAFEF00D).unwrap();
    assert_eq!(b.read_w(0x1040).unwrap(), 0xCAFEF00D);
    assert_eq!(b.read_b(0x1040).unwrap(), 0x0D);
    // a second range is reached independently
    b.attach(0x2000, 4, Device::Ram(ram(4)));
    b.write_b(0x2003, 0x7E).unwrap();
    assert_eq!(b.read_b(0x2003).unwrap(), 0x7E);
    assert_eq!(b.read_w(0x1040).unwrap(), 0xCAFEF00D);
}

#[test]
fn port_round_trip() {
    let mut p = Port::new();
    // bus side writes, peripheral side receives while the strobe is up
    p.write(0x1234);
    assert!(p.strobe);
    assert_eq!(p.recv(), 0x1234);
    assert!(!p.strobe);
    assert_eq!(p.recv(), 0);
    // peripheral side sends, bus side reads and acknowledges
    p.send(0xBEEF);
    p.imask = 0x01;
    p.flag(0x01);
    assert!(p.ipl);
    assert_eq!(p.read(), 0xBEEF);
    assert!(!p.ipl);
}

#[test]
fn port_bus_map() {
    let mut p = Port::new();
    p.send(0xA55A);
    assert_eq!(p.read_b(0).unwrap(), 0x5A);
    assert_eq!(p.read_b(1).unwrap(), 0xA5);
    p.flag(0x0F);
    assert_eq!(p.read_b(2).unwrap(), 0x0F);
    assert_eq!(p.lines, 0); // reading the lines clears them
    p.write_b(3, 0xC0).unwrap();
    assert_eq!(p.read_b(3).unwrap(), 0xC0);
    assert_eq!(p.read_b(4), Err(BusError::InvalidAddress));
    p.write_h(0, 0x77AA).unwrap();
    assert!(p.strobe);
    assert_eq!(p.recv(), 0x77AA);
    assert_eq!(p.write_b(0, 1), Err(BusError::InvalidAddress));
    assert_eq!(p.write_h(2, 1), Err(BusError::InvalidAddress));
    assert_eq!(p.read_h(0).unwrap(), 0xA55A);
    assert_eq!(p.read_h(2), Err(BusError::InvalidAddress));
}

#[test]
fn printer_prints_cleaned_buffer() {
    let mut prt = LP1204::new();
    for i in 0..144 {
        prt.buffer[i] = b'A';
    }
    prt.buffer[0] = 0x00; // control character prints as space
    prt.buffer[1] = 0xAD; // soft hyphen prints as hyphen
    prt.buffer[2] = 0xE9; // Latin-1 e-acute decodes to U+00E9
    prt.buffer[3] = 0x7F; // DEL band prints as space
    prt.buffer[144] = 0; // command: print
    prt.buffer[148] = 1; // execute
    let line = prt.service().expect("printer should produce a line");
    let chars: Vec<char> = line.chars().collect();
    assert_eq!(chars.len(), 144);
    assert_eq!(chars[0], ' ');
    assert_eq!(chars[1], '-');
    assert_eq!(chars[2], '\u{e9}');
    assert_eq!(chars[3], ' ');
    assert_eq!(chars[4], 'A');
    assert_eq!(prt.buffer[148], 0, "execute flag cleared");
    // execute flag down: nothing happens
    assert!(prt.service().is_none());
    // execute up but command nonzero: flag cleared, nothing printed
    prt.buffer[144] = 1;
    prt.buffer[148] = 1;
    assert!(prt.service().is_none());
    assert_eq!(prt.buffer[148], 0);
}
