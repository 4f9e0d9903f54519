use vstd::prelude::*;

verus! {

/// Port used for the short I/O delay: writing to it has no effect on any device.
pub const IO_WAIT_PORT: u16 = 0x80;

/// One single-byte write to a CPU I/O port.
#[derive(Clone, Copy, Debug, PartialEq, Eq, Structural)]
pub struct PortWrite {
    pub port: u16,
    pub value: u8,
}

/// The write that serves as an I/O delay.
pub open spec fn wait_write() -> PortWrite {
    PortWrite { port: IO_WAIT_PORT, value: 0 }
}

/// The writes issued to the I/O ports, in program order.
///
/// Nothing is reordered or merged: the log is the exact sequence the hardware
/// will see once the owner replays it with the `out` instruction.
pub struct PortLog {
    writes: Vec<PortWrite>,
}

impl View for PortLog {
    type V = Seq<PortWrite>;

    closed spec fn view(&self) -> Seq<PortWrite> {
        self.writes@
    }
}

impl PortLog {
    /// An empty log.
    pub fn new() -> (r: PortLog)
        ensures
            r@ == Seq::<PortWrite>::empty(),
    {
        PortLog { writes: Vec::new() }
    }

    /// Emits a single-byte write of `value` to `port`.
    pub fn outb(&mut self, port: u16, value: u8)
        ensures
            final(self)@ == old(self)@.push(PortWrite { port, value }),
    {
        self.writes.push(PortWrite { port, value });
    }

    /// Emits the short I/O delay: a write of zero to an unused port.
    pub fn wait(&mut self)
        ensures
            final(self)@ == old(self)@.push(wait_write()),
    {
        self.outb(IO_WAIT_PORT, 0);
    }

    /// Number of writes recorded and not yet taken.
    pub fn len(&self) -> (r: usize)
        ensures
            r == self@.len(),
    {
        self.writes.len()
    }

    /// Hands out every recorded write, oldest first, and leaves the log empty.
    pub fn take(&mut self) -> (r: Vec<PortWrite>)
        ensures
            r@ == old(self)@,
            final(self)@ == Seq::<PortWrite>::empty(),
    {
        let mut out: Vec<PortWrite> = Vec::new();
        std::mem::swap(&mut out, &mut self.writes);
        out
    }
}

} // verus!
