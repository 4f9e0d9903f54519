use kernel_core::pic::{disable_irq, enable_irq, eoi, get_port, remap};
use kernel_core::port::{PortLog, PortWrite};

fn w(port: u16, value: u8) -> PortWrite {
    PortWrite { port, value }
}

#[test]
fn remap_issues_documented_sequence() {
    let mut ports = PortLog::new();
    remap(&mut ports, 0x20, 0x28);
    let writes = ports.take();
    assert_eq!(writes.len(), 20);
    let commands: Vec<PortWrite> = writes.iter().step_by(2).copied().collect();
    assert_eq!(
        commands,
        vec![
            w(0x20, 0x11),
            w(0xA0, 0x11),
            w(0x21, 0x20),
            w(0xA1, 0x28),
            w(0x21, 4),
            w(0xA1, 2),
            w(0x21, 0x01),
            w(0xA1, 0x01),
            w(0x21, 0xFF),
            w(0xA1, 0xFF),
        ]
    );
    assert!(writes.iter().skip(1).step_by(2).all(|x| *x == w(0x80, 0)));
}

#[test]
fn eoi_signals_child_only_for_high_lines() {
    let mut ports = PortLog::new();
    eoi(&mut ports, 3);
    assert_eq!(ports.take(), vec![w(0x20, 0x20)]);
    eoi(&mut ports, 10);
    assert_eq!(ports.take(), vec![w(0xA0, 0x20), w(0x20, 0x20)]);
}

#[test]
fn get_port_translates_child_lines() {
    let mut irq = 5u8;
    assert_eq!(get_port(&mut irq), 0x21);
    assert_eq!(irq, 5);
    let mut irq = 12u8;
    assert_eq!(get_port(&mut irq), 0xA1);
    assert_eq!(irq, 4);
}

#[test]
fn enable_then_disable_restores_mask() {
    let mut ports = PortLog::new();
    enable_irq(&mut ports, 3, 0xFF);
    let written = ports.take();
    assert_eq!(written, vec![w(0x21, 0xF7)]);
    disable_irq(&mut ports, 3, written[0].value);
    assert_eq!(ports.take(), vec![w(0x21, 0xFF)]);
}

#[test]
fn irq_masking_keeps_other_lines() {
    let mut ports = PortLog::new();
    enable_irq(&mut ports, 10, 0b1010_0101);
    disable_irq(&mut ports, 9, 0b0000_0000);
    assert_eq!(ports.len(), 2);
    assert_eq!(ports.take(), vec![w(0xA1, 0b1010_0001), w(0xA1, 0b0000_0010)]);
}
