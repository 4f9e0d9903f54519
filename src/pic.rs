use crate::port::{wait_write, PortLog, PortWrite};
use vstd::prelude::*;

verus! {

pub const PIC_PARENT: u16 = 0x20;
pub const PIC_CHILD: u16 = 0xA0;
pub const PIC_PARENT_COMMAND: u16 = PIC_PARENT;
pub const PIC_PARENT_DATA: u16 = PIC_PARENT + 1;
pub const PIC_CHILD_COMMAND: u16 = PIC_CHILD;
pub const PIC_CHILD_DATA: u16 = PIC_CHILD + 1;
pub const PIC_EOI: u8 = 0x20;
pub const PIC_ICW1_INIT: u8 = 0x11;
pub const PIC_ICW4_8086: u8 = 0x01;
/// Tells the parent that the child is wired to its line 2.
pub const PIC_CASCADE_PARENT: u8 = 4;
/// Tells the child its cascade identity.
pub const PIC_CASCADE_CHILD: u8 = 2;
pub const PIC_MASK_ALL: u8 = 0xFF;

/// A write of `value` to `port`.
pub open spec fn write_of(port: u16, value: u8) -> PortWrite {
    PortWrite { port, value }
}

/// The ten initialization writes, in the order the controllers need them:
/// init command, vector offset, cascade identity and mode to parent then
/// child, then every line masked on both.
pub open spec fn init_sequence(parent_offset: u8, child_offset: u8) -> Seq<PortWrite> {
    seq![
        write_of(PIC_PARENT_COMMAND, PIC_ICW1_INIT),
        write_of(PIC_CHILD_COMMAND, PIC_ICW1_INIT),
        write_of(PIC_PARENT_DATA, parent_offset),
        write_of(PIC_CHILD_DATA, child_offset),
        write_of(PIC_PARENT_DATA, PIC_CASCADE_PARENT),
        write_of(PIC_CHILD_DATA, PIC_CASCADE_CHILD),
        write_of(PIC_PARENT_DATA, PIC_ICW4_8086),
        write_of(PIC_CHILD_DATA, PIC_ICW4_8086),
        write_of(PIC_PARENT_DATA, PIC_MASK_ALL),
        write_of(PIC_CHILD_DATA, PIC_MASK_ALL),
    ]
}

/// `s` with an I/O delay after each write.
pub open spec fn with_delays(s: Seq<PortWrite>) -> Seq<PortWrite>
    decreases s.len(),
{
    if s.len() == 0 {
        s
    } else {
        with_delays(s.drop_last()) + seq![s.last(), wait_write()]
    }
}

/// The end-of-interrupt writes for `irq`: the child too for its lines.
pub open spec fn eoi_writes(irq: u8) -> Seq<PortWrite> {
    if irq >= 8 {
        seq![write_of(PIC_CHILD_COMMAND, PIC_EOI), write_of(PIC_PARENT_COMMAND, PIC_EOI)]
    } else {
        seq![write_of(PIC_PARENT_COMMAND, PIC_EOI)]
    }
}

/// Data port of the controller that owns `irq`.
pub open spec fn mask_port(irq: u8) -> u16 {
    if irq < 8 {
        PIC_PARENT_DATA
    } else {
        PIC_CHILD_DATA
    }
}

/// The line number of `irq` on the controller that owns it.
pub open spec fn mask_line(irq: u8) -> u8 {
    if irq < 8 {
        irq
    } else {
        (irq - 8) as u8
    }
}

/// `mask` with `line` unmasked (its bit cleared).
pub open spec fn line_enabled(mask: u8, line: u8) -> u8 {
    mask & !(1u8 << line)
}

/// `mask` with `line` masked (its bit set).
pub open spec fn line_disabled(mask: u8, line: u8) -> u8 {
    mask | (1u8 << line)
}

/// Whether `line` is masked in `mask`.
pub open spec fn line_masked(mask: u8, line: u8) -> bool {
    mask & (1u8 << line) != 0
}

/// Writes `val` to `port`, then lets the controller settle.
fn outb_wait(ports: &mut PortLog, port: u16, val: u8)
    ensures
        final(ports)@ == old(ports)@ + seq![write_of(port, val), wait_write()],
{
    ports.outb(port, val);
    ports.wait();
    assert(ports@ =~= old(ports)@ + seq![write_of(port, val), wait_write()]);
}

/// Signals end-of-interrupt for `irq`: to the child and then the parent for
/// lines 8 and up, to the parent alone otherwise.
pub fn eoi(ports: &mut PortLog, irq: u8)
    ensures
        final(ports)@ == old(ports)@ + eoi_writes(irq),
{
    if irq >= 8 {
        ports.outb(PIC_CHILD_COMMAND, PIC_EOI);
    }
    ports.outb(PIC_PARENT_COMMAND, PIC_EOI);
    assert(ports@ =~= old(ports)@ + eoi_writes(irq));
}

/// Returns the data port of the controller that owns `irq`, and turns `irq`
/// into its line number on that controller.
pub fn get_port(irq: &mut u8) -> (r: u16)
    ensures
        r == mask_port(*old(irq)),
        *final(irq) == mask_line(*old(irq)),
{
    if *irq < 8 {
        PIC_PARENT_DATA
    } else {
        *irq = *irq - 8;
        PIC_CHILD_DATA
    }
}

/// Unmasks `irq`, given the current content `mask` of its controller's mask
/// register: writes back `mask` with that one bit cleared.
pub fn enable_irq(ports: &mut PortLog, irq: u8, mask: u8)
    requires
        irq < 16,
    ensures
        final(ports)@ == old(ports)@.push(
            write_of(mask_port(irq), line_enabled(mask, mask_line(irq))),
        ),
{
    let mut line = irq;
    let port = get_port(&mut line);
    ports.outb(port, mask & !(1u8 << line));
}

/// Masks `irq`, given the current content `mask` of its controller's mask
/// register: writes back `mask` with that one bit set.
pub fn disable_irq(ports: &mut PortLog, irq: u8, mask: u8)
    requires
        irq < 16,
    ensures
        final(ports)@ == old(ports)@.push(
            write_of(mask_port(irq), line_disabled(mask, mask_line(irq))),
        ),
{
    let mut line = irq;
    let port = get_port(&mut line);
    ports.outb(port, mask | (1u8 << line));
}

/// Moves the interrupt vectors of the parent to `parent_offset` and of the
/// child to `child_offset`, and masks every line: the ten initialization
/// writes, each followed by an I/O delay.
pub fn remap(ports: &mut PortLog, parent_offset: u8, child_offset: u8)
    ensures
        final(ports)@ == old(ports)@ + with_delays(init_sequence(parent_offset, child_offset)),
{
    outb_wait(ports, PIC_PARENT_COMMAND, PIC_ICW1_INIT);
    outb_wait(ports, PIC_CHILD_COMMAND, PIC_ICW1_INIT);
    outb_wait(ports, PIC_PARENT_DATA, parent_offset);
    outb_wait(ports, PIC_CHILD_DATA, child_offset);
    outb_wait(ports, PIC_PARENT_DATA, PIC_CASCADE_PARENT);
    outb_wait(ports, PIC_CHILD_DATA, PIC_CASCADE_CHILD);
    outb_wait(ports, PIC_PARENT_DATA, PIC_ICW4_8086);
    outb_wait(ports, PIC_CHILD_DATA, PIC_ICW4_8086);
    outb_wait(ports, PIC_PARENT_DATA, PIC_MASK_ALL);
    outb_wait(ports, PIC_CHILD_DATA, PIC_MASK_ALL);
    proof {
        let s = init_sequence(parent_offset, child_offset);
        reveal_with_fuel(with_delays, 11);
        assert(s.drop_last().drop_last().drop_last().drop_last().drop_last().drop_last().drop_last().drop_last().drop_last().drop_last() =~= Seq::<PortWrite>::empty());
        assert(ports@ =~= old(ports)@ + with_delays(s));
    }
}

/// The delayed form of a sequence of writes holds each write at an even
/// position, in the original order, and a delay right after it: nothing else
/// and nothing in between.
pub proof fn lemma_delayed_writes_keep_order(s: Seq<PortWrite>)
    ensures
        with_delays(s).len() == 2 * s.len(),
        forall|i: int| 0 <= i < s.len() ==> #[trigger] with_delays(s)[2 * i] == s[i],
        forall|i: int| 0 <= i < s.len() ==> #[trigger] with_delays(s)[2 * i + 1] == wait_write(),
    decreases s.len(),
{
    if s.len() > 0 {
        lemma_delayed_writes_keep_order(s.drop_last());
        let d = with_delays(s.drop_last());
        assert(with_delays(s) == d + seq![s.last(), wait_write()]);
        assert forall|i: int| 0 <= i < s.len() implies #[trigger] with_delays(s)[2 * i] == s[i] by {
            if i < s.len() - 1 {
                assert(s.drop_last()[i] == s[i]);
            }
        }
        assert forall|i: int| 0 <= i < s.len() implies #[trigger] with_delays(s)[2 * i + 1]
            == wait_write() by {
            if i < s.len() - 1 {
                assert(d[2 * i + 1] == wait_write());
            }
        }
    }
}

/// Unmasking a line that was masked and then masking it again gives back
/// the mask register's former content, bit for bit.
pub proof fn lemma_enable_then_disable_restores(mask: u8, irq: u8)
    requires
        irq < 16,
        line_masked(mask, mask_line(irq)),
    ensures
        line_disabled(line_enabled(mask, mask_line(irq)), mask_line(irq)) == mask,
{
    let line = mask_line(irq);
    assert(line < 8);
    assert(mask & (1u8 << line) != 0 ==> (mask & !(1u8 << line)) | (1u8 << line) == mask)
        by (bit_vector)
        requires
            line < 8,
    ;
}

/// Unmasking a line touches no other line, and neither does masking it.
pub proof fn lemma_other_lines_untouched(mask: u8, irq: u8, other: u8)
    requires
        irq < 16,
        other < 8,
        other != mask_line(irq),
    ensures
        line_masked(line_enabled(mask, mask_line(irq)), other) == line_masked(mask, other),
        line_masked(line_disabled(mask, mask_line(irq)), other) == line_masked(mask, other),
        !line_masked(line_enabled(mask, mask_line(irq)), mask_line(irq)),
        line_masked(line_disabled(mask, mask_line(irq)), mask_line(irq)),
{
    let line = mask_line(irq);
    assert(line < 8);
    assert(((mask & !(1u8 << line)) & (1u8 << other) != 0) == (mask & (1u8 << other) != 0)
        && ((mask | (1u8 << line)) & (1u8 << other) != 0) == (mask & (1u8 << other) != 0)
        && (mask & !(1u8 << line)) & (1u8 << line) == 0
        && (mask | (1u8 << line)) & (1u8 << line) != 0) by (bit_vector)
        requires
            line < 8,
            other < 8,
            other != line,
    ;
}

} // verus!
