//! The two memory-mapped peripherals: the LP1204 line printer and the 2200
//! data port.
//!
//! Each is modelled as its register state with exact transition contracts.
//! A port attaches to the bus as a device (`Device::Port`), where byte and
//! half-word accesses dispatch into its register map; the thread plumbing
//! that drives the device side lives outside the library.

use vstd::prelude::*;
use encoding::{Encoding, DecoderTrap};
use encoding::all::ISO_8859_1;
use crate::mem::{BusError, Memory32};

verus! {

/// The 2200 data port: a half-word in each direction, a line byte, an
/// interrupt mask, a strobe, and an interrupt-pending flag.
#[derive(Clone, Copy, Debug, PartialEq, Eq, Structural)]
pub struct Port {
    pub tx: u16,
    pub rx: u16,
    /// Device-specific lines: Inbound, Error, Acknowledge, Ready in the low
    /// nibble.
    pub lines: u8,
    pub imask: u8,
    pub strobe: bool,
    pub ipl: bool,
}

/// The port's byte map as the bus sees it: offsets 0/1 read the inbound
/// half-word (acknowledging the interrupt), offset 2 reads and clears the
/// lines, offset 3 reads the interrupt mask.
pub open spec fn port_read_b_spec(p: Port, addr: u32) -> (Result<u8, BusError>, Port) {
    if addr == 0 {
        (Ok((p.rx & 0xFF) as u8), Port { ipl: false, ..p })
    } else if addr == 1 {
        (Ok(((p.rx & 0xFF00) >> 8u16) as u8), Port { ipl: false, ..p })
    } else if addr == 2 {
        (Ok(p.lines), Port { lines: 0, ..p })
    } else if addr == 3 {
        (Ok(p.imask), p)
    } else {
        (Err(BusError::InvalidAddress), p)
    }
}

/// Half-word read: only offset 0, the inbound half-word (acknowledging).
pub open spec fn port_read_h_spec(p: Port, addr: u32) -> (Result<u16, BusError>, Port) {
    if addr == 0 {
        (Ok(p.rx), Port { ipl: false, ..p })
    } else {
        (Err(BusError::InvalidAddress), p)
    }
}

/// Byte write: only offset 3, the interrupt mask.
pub open spec fn port_write_b_spec(p: Port, addr: u32, data: u8) -> Result<Port, BusError> {
    if addr == 3 {
        Ok(Port { imask: data, ..p })
    } else {
        Err(BusError::InvalidAddress)
    }
}

/// Half-word write: only offset 0, outbound data with the strobe raised.
pub open spec fn port_write_h_spec(p: Port, addr: u32, data: u16) -> Result<Port, BusError> {
    if addr == 0 {
        Ok(Port { tx: data, strobe: true, ..p })
    } else {
        Err(BusError::InvalidAddress)
    }
}

impl Port {
    /// A quiet port.
    pub fn new() -> (r: Port)
        ensures
            r == (Port { tx: 0, rx: 0, lines: 0, imask: 0, strobe: false, ipl: false }),
    {
        Port { tx: 0, rx: 0, lines: 0, imask: 0, strobe: false, ipl: false }
    }

    /// Peripheral side: deposit inbound data.
    pub fn send(&mut self, data: u16)
        ensures
            *final(self) == (Port { rx: data, ..*old(self) }),
    {
        self.rx = data;
    }

    /// Peripheral side: take outbound data if the strobe is up, else zero.
    pub fn recv(&mut self) -> (r: u16)
        ensures
            old(self).strobe ==> r == old(self).tx && *final(self) == (Port {
                strobe: false,
                ..*old(self)
            }),
            !old(self).strobe ==> r == 0 && *final(self) == *old(self),
    {
        if self.strobe {
            self.strobe = false;
            self.tx
        } else {
            0
        }
    }

    /// Peripheral side: raise the device lines; any line selected by the
    /// interrupt mask pends the interrupt.
    pub fn flag(&mut self, data: u8)
        ensures
            *final(self) == (Port {
                lines: data,
                ipl: old(self).ipl || (data & old(self).imask != 0),
                ..*old(self)
            }),
    {
        self.lines = data;
        if data & self.imask != 0 {
            self.ipl = true;
        }
    }

    /// Bus side: write outbound data and raise the strobe.
    pub fn write(&mut self, data: u16)
        ensures
            *final(self) == (Port { tx: data, strobe: true, ..*old(self) }),
    {
        self.tx = data;
        self.strobe = true;
    }

    /// Bus side: read inbound data, acknowledging the interrupt.
    pub fn read(&mut self) -> (r: u16)
        ensures
            r == old(self).rx,
            *final(self) == (Port { ipl: false, ..*old(self) }),
    {
        self.ipl = false;
        self.rx
    }

    /// Bus-facing byte map, as `port_read_b_spec` states it.
    pub fn read_b(&mut self, addr: u32) -> (r: Result<u8, BusError>)
        ensures
            (r, *final(self)) == port_read_b_spec(*old(self), addr),
    {
        if addr == 0 {
            Ok((self.read() & 0xFF) as u8)
        } else if addr == 1 {
            Ok(((self.read() & 0xFF00) >> 8) as u8)
        } else if addr == 2 {
            let x = self.lines;
            self.lines = 0;
            Ok(x)
        } else if addr == 3 {
            Ok(self.imask)
        } else {
            Err(BusError::InvalidAddress)
        }
    }

    /// Bus-facing half-word read, as `port_read_h_spec` states it.
    pub fn read_h(&mut self, addr: u32) -> (r: Result<u16, BusError>)
        ensures
            (r, *final(self)) == port_read_h_spec(*old(self), addr),
    {
        if addr == 0 {
            Ok(self.read())
        } else {
            Err(BusError::InvalidAddress)
        }
    }

    /// Bus-facing byte write, as `port_write_b_spec` states it; a refused
    /// offset leaves the port untouched.
    pub fn write_b(&mut self, addr: u32, data: u8) -> (r: Result<(), BusError>)
        ensures
            (match port_write_b_spec(*old(self), addr, data) {
                Ok(p2) => r is Ok && *final(self) == p2,
                Err(e) => r == Err::<(), BusError>(e) && *final(self) == *old(self),
            }),
    {
        if addr == 3 {
            self.imask = data;
            Ok(())
        } else {
            Err(BusError::InvalidAddress)
        }
    }

    /// Bus-facing half-word write, as `port_write_h_spec` states it; a
    /// refused offset leaves the port untouched.
    pub fn write_h(&mut self, addr: u32, data: u16) -> (r: Result<(), BusError>)
        ensures
            (match port_write_h_spec(*old(self), addr, data) {
                Ok(p2) => r is Ok && *final(self) == p2,
                Err(e) => r == Err::<(), BusError>(e) && *final(self) == *old(self),
            }),
    {
        if addr == 0 {
            self.strobe = true;
            self.tx = data;
            Ok(())
        } else {
            Err(BusError::InvalidAddress)
        }
    }
}

/// The printer's byte cleaning: control characters and the 0x7F..0xA0
/// band print as spaces, a soft hyphen as a hyphen, everything else as
/// itself.
pub open spec fn clean_byte_spec(x: u8) -> u8 {
    if x <= 0x1F {
        0x20
    } else if 0x7F <= x && x <= 0xA0 {
        0x20
    } else if x == 0xAD {
        0x2D
    } else {
        x
    }
}

pub fn clean_byte(x: u8) -> (r: u8)
    ensures
        r == clean_byte_spec(x),
{
    if x <= 0x1F {
        0x20
    } else if 0x7F <= x && x <= 0xA0 {
        0x20
    } else if x == 0xAD {
        0x2D
    } else {
        x
    }
}

/// Relies on the `encoding` crate's ISO_8859_1 codec: its forward index is
/// the identity (`iso_8859_1::forward(code) = code`), so decoding maps
/// every byte to the character with the same code point and never fails,
/// whatever the trap.
#[verifier::external_body]
fn latin1_decode(bytes: &Vec<u8>) -> (r: String)
    ensures
        r@.len() == bytes@.len(),
        forall|i: int| 0 <= i < bytes@.len() ==> r@[i] == bytes@[i] as char,
{
    ISO_8859_1.decode(bytes, DecoderTrap::Replace).unwrap_or_default()
}

/// The LP1204 line printer: a 256-byte buffer region.  Byte 148 is the
/// execute flag, byte 144 the command (0 prints the buffer), bytes 0..144
/// the line.
pub struct LP1204 {
    pub ipl: bool,
    pub icode: u8,
    pub buffer: Vec<u8>,
    pub running: bool,
}

impl LP1204 {
    /// A printer with a cleared 256-byte buffer.
    pub fn new() -> (r: LP1204)
        ensures
            !r.ipl,
            r.icode == 0,
            !r.running,
            r.buffer@.len() == 256,
            forall|i: int| 0 <= i < 256 ==> r.buffer@[i] == 0u8,
    {
        let buf: Vec<u8> = vec![0; 256];
        LP1204 { ipl: false, icode: 0, buffer: buf, running: false }
    }

    /// One service turn of the printer loop: when the execute flag (byte
    /// 148) is set, print the buffer if the command byte (144) says so,
    /// and clear the flag.  The printed line is the first 144 buffer
    /// bytes, cleaned and decoded as ISO 8859-1.
    pub fn service(&mut self) -> (r: Option<String>)
        requires
            old(self).buffer@.len() == 256,
        ensures
            final(self).buffer@.len() == 256,
            final(self).ipl == old(self).ipl,
            final(self).icode == old(self).icode,
            final(self).running == old(self).running,
            old(self).buffer@[148] == 0 ==> r is None && final(self).buffer@ == old(
                self,
            ).buffer@,
            old(self).buffer@[148] != 0 ==> final(self).buffer@ == old(self).buffer@.update(
                148,
                0u8,
            ),
            old(self).buffer@[148] != 0 && old(self).buffer@[144] != 0 ==> r is None,
            old(self).buffer@[148] != 0 && old(self).buffer@[144] == 0 ==> r is Some
                && r.unwrap()@.len() == 144 && (forall|i: int|
                0 <= i < 144 ==> r.unwrap()@[i] == clean_byte_spec(old(self).buffer@[i]) as char),
    {
        let exec_flag = match self.buffer.read_b(148) {
            Err(_) => {
                return None;
            },
            Ok(x) => x,
        };
        if exec_flag == 0 {
            return None;
        }

        let mut line: Option<String> = None;
        if self.buffer[144] == 0 {
            let mut cleaned: Vec<u8> = Vec::new();
            let mut i: usize = 0;
            while i < 144
                invariant
                    i <= 144,
                    self.buffer@.len() == 256,
                    cleaned@.len() == i,
                    forall|k: int| 0 <= k < i ==> cleaned@[k] == clean_byte_spec(self.buffer@[k]),
                decreases 144 - i,
            {
                cleaned.push(clean_byte(self.buffer[i]));
                i += 1;
            }
            line = Some(latin1_decode(&cleaned));
        }

        match self.buffer.write_b(148, 0) {
            Err(_) => {
                return None;
            },
            Ok(_) => {},
        };
        line
    }
}

} // verus!
