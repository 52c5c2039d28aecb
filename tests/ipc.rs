use luma_core::ipc::{ArmIpcControl, IpcMessageAddress, PpcIpcControl};

#[test]
fn ppc_control_bit_positions() {
    let mut c = PpcIpcControl::new();
    assert_eq!(c.bits(), 0);
    c.with_execute(true).with_acknowledge(true);
    assert_eq!(c.bits(), 3);
    c.with_reply(true).with_relaunch(true).with_reply_interrupt(true).with_acknowledge_interrupt(true);
    assert_eq!(c.bits(), 0x3f);
    c.with_acknowledge(false);
    assert_eq!(c.bits(), 0x3d);
    assert!(c.execute() && !c.acknowledge() && c.reply() && c.relaunch());
    assert!(c.reply_interrupt() && c.acknowledge_interrupt());
}

#[test]
fn ppc_control_reads_register_value() {
    let c = PpcIpcControl::from_bits(4);
    assert!(c.reply());
    assert!(!c.execute() && !c.acknowledge());
    let c = PpcIpcControl::from_bits(0xffff_ffc0);
    assert!(!c.execute() && !c.acknowledge_interrupt());
}

#[test]
fn arm_control_bit_positions() {
    let mut c = ArmIpcControl::new();
    c.with_reply(true);
    assert_eq!(c.bits(), 1);
    c.with_relaunch(true);
    assert_eq!(c.bits(), 3);
    c.with_execute(true);
    assert_eq!(c.bits(), 7);
    c.with_acknowledge(true).with_execute_interrupt(true).with_relaunch_interrupt(true);
    assert_eq!(c.bits(), 0x3f);
    c.with_reply(false).with_execute(false);
    assert_eq!(c.bits(), 0x3a);
    assert!(!c.reply() && c.relaunch() && !c.execute() && c.acknowledge());
    assert!(c.execute_interrupt() && c.relaunch_interrupt());
}

#[test]
fn message_address_holds_physical_address() {
    let mut m = IpcMessageAddress::new();
    assert_eq!(m.address(), 0);
    m.with_address(0x1000_0000);
    assert_eq!(m.address(), 0x1000_0000);
    m.with_address(0x13ff_ffe0);
    assert_eq!(m.bits(), 0x13ff_ffe0);
    assert_eq!(IpcMessageAddress::from_bits(0x1234_5678).address(), 0x1234_5678);
}
