//! The serial-port driver's protocol knowledge: the device's port layout,
//! the exact initialization byte sequence, the loopback handshake decision,
//! and the line-status tests that gate transmit and receive. The unverified
//! shell performs the actual port reads and writes.

use vstd::prelude::*;

verus! {

/// Base I/O-port addresses of the serial controllers this kernel may use.
#[derive(Clone, Copy, PartialEq, Eq, Structural, Debug)]
pub enum Port {
    COM1,
}

/// The base I/O port of each serial controller.
pub open spec fn port_address(p: Port) -> u16 {
    match p {
        Port::COM1 => 0x3F8,
    }
}

/// The byte the initialization handshake writes in loopback mode and
/// expects to read back.
pub const LOOPBACK_PROBE: u8 = 0xAE;

/// The modem-control byte that leaves loopback and enables normal
/// operation after a successful handshake.
pub const MODE_NORMAL: u8 = 0x0F;

/// The configuration writes of the initialization protocol, relative to
/// base port `a`: disable interrupts, set the divisor latch and a 38400 baud
/// divisor, 8-bit frames, enabled and cleared FIFOs, modem control with
/// IRQs, then loopback mode and the probe byte.
pub open spec fn serial_init_writes(a: u16) -> Seq<(u16, u8)> {
    seq![
        ((a + 1) as u16, 0x00u8),
        ((a + 3) as u16, 0x80u8),
        (a, 0x03u8),
        ((a + 1) as u16, 0x00u8),
        ((a + 3) as u16, 0x03u8),
        ((a + 2) as u16, 0xC7u8),
        ((a + 4) as u16, 0x0Bu8),
        ((a + 4) as u16, 0x1Eu8),
        (a, LOOPBACK_PROBE),
    ]
}

/// One serial device, identified by its base I/O port.
pub struct Serial {
    pub address: u16,
}

impl Serial {
    /// The device's register offsets stay within the 16-bit port space.
    pub open spec fn wf(self) -> bool {
        self.address <= 0xFFFA
    }

    /// The driver for the device at the given port.
    pub fn new(port: Port) -> (s: Serial)
        ensures
            s.address == port_address(port),
            s.wf(),
    {
        match port {
            Port::COM1 => Serial { address: 0x3F8 },
        }
    }

    /// The configuration and loopback-probe writes of the initialization
    /// handshake, in order. After performing them the shell reads the data
    /// port back and passes the reply to `initialize`.
    pub fn initialize_writes(&self) -> (writes: Vec<(u16, u8)>)
        requires
            self.wf(),
        ensures
            writes@ == serial_init_writes(self.address),
    {
        let a = self.address;
        let mut w: Vec<(u16, u8)> = Vec::new();
        w.push((a + 1, 0x00));
        w.push((a + 3, 0x80));
        w.push((a, 0x03));
        w.push((a + 1, 0x00));
        w.push((a + 3, 0x03));
        w.push((a + 2, 0xC7));
        w.push((a + 4, 0x0B));
        w.push((a + 4, 0x1E));
        w.push((a, LOOPBACK_PROBE));
        assert(w@ =~= serial_init_writes(a));
        w
    }

    /// The loopback decision of the initialization handshake: if the data
    /// port echoed the probe byte, the device is sane and the returned
    /// write switches it to normal operation; any other reply is a
    /// boot-time defect — the shell must report it and not proceed past
    /// this initialization step.
    pub fn initialize(&self, loopback: u8) -> (r: Option<(u16, u8)>)
        requires
            self.wf(),
        ensures
            (loopback == LOOPBACK_PROBE) <==> r is Some,
            r matches Some(write) ==> write == (((self.address + 4) as u16), MODE_NORMAL),
    {
        if loopback == LOOPBACK_PROBE {
            Some((self.address + 4, MODE_NORMAL))
        } else {
            None
        }
    }

    /// The I/O port of the line-status register the shell polls.
    pub fn line_status_port(&self) -> (p: u16)
        requires
            self.wf(),
        ensures
            p == self.address + 5,
    {
        self.address + 5
    }

    /// The transmit-buffer-empty bit of a line-status byte: nonzero exactly
    /// when the device can accept the next byte.
    pub fn transmit_empty(&self, status: u8) -> (r: u8)
        ensures
            r == status & 0x20,
    {
        status & 0x20
    }

    /// The data-ready bit of a line-status byte: nonzero exactly when a
    /// received byte is waiting.
    pub fn received(&self, status: u8) -> (r: u8)
        ensures
            r == status & 0x01,
    {
        status & 0x01
    }

    /// One step of the receive poll: given the current line-status byte and
    /// the data-port byte, the received byte when one is ready, else None —
    /// the shell polls again.
    pub fn read(&self, status: u8, data: u8) -> (r: Option<u8>)
        ensures
            (status & 0x01) == 1 <==> r is Some,
            r matches Some(b) ==> b == data,
    {
        if status & 0x01 == 1 {
            Some(data)
        } else {
            None
        }
    }
}

} // verus!
