use luma_core::exi::usb_gecko::{Error, UsbGecko};
use luma_core::exi::{BusOp, Exi};

#[test]
fn init_deselects_channels_zero_and_one() {
    let (_exi, ops) = Exi::init();
    assert_eq!(
        ops,
        vec![BusOp::Write { addr: 0xcc00_6800, value: 0 }, BusOp::Write { addr: 0xcc00_6814, value: 0 }]
    );
}

#[test]
fn channel_registers() {
    let (exi, _) = Exi::init();
    let ch = exi.get_channel(2);
    assert_eq!(ch.select_device(1, 3), BusOp::Write { addr: 0xcc00_6828, value: 0x130 });
    assert_eq!(ch.write_data(7), BusOp::Write { addr: 0xcc00_6838, value: 7 });
    assert_eq!(ch.read_data(), BusOp::Read { addr: 0xcc00_6838 });
    assert_eq!(ch.write_cr(0x19), BusOp::Write { addr: 0xcc00_6834, value: 0x19 });
    assert_eq!(ch.wait_for_completion(), BusOp::WaitClear { addr: 0xcc00_6834, mask: 1 });
    assert_eq!(ch.deselect_device(), BusOp::Write { addr: 0xcc00_6828, value: 0 });
}

#[test]
fn probe_query_operations() {
    let (exi, _) = Exi::init();
    assert_eq!(
        UsbGecko::probe_ops(&exi),
        vec![
            BusOp::Write { addr: 0xcc00_6814, value: 0xd0 },
            BusOp::Write { addr: 0xcc00_6824, value: 0x9000_0000 },
            BusOp::Write { addr: 0xcc00_6820, value: 0x19 },
            BusOp::WaitClear { addr: 0xcc00_6820, mask: 1 },
            BusOp::Read { addr: 0xcc00_6824 },
        ]
    );
    assert_eq!(UsbGecko::reply_of(0x0470_1234), 0x0470);
}

#[test]
fn gecko_is_found_only_on_its_reply() {
    let (exi, _) = Exi::init();
    let gecko = UsbGecko::new(&exi, 0x0470).unwrap();
    assert_eq!(gecko.query_ops(0xd000)[1], BusOp::Write { addr: 0xcc00_6824, value: 0xd000_0000 });
    assert_eq!(UsbGecko::new(&exi, 0x0471).err(), Some(Error::UsbGeckoNotFound));
    assert_eq!(UsbGecko::new(&exi, 0).err(), Some(Error::UsbGeckoNotFound));
}

#[test]
fn receive_bytes_until_none_waits() {
    let (exi, _) = Exi::init();
    let gecko = UsbGecko::new(&exi, 0x0470).unwrap();
    let mut rx = gecko.receive();
    let mut queries = Vec::new();
    for reply in [0x0400u16, 0x0841, 0x0400, 0x08ff, 0x0000] {
        queries.push(rx.query().unwrap());
        rx.answer(reply);
    }
    assert_eq!(rx.query(), None);
    assert_eq!(queries, vec![0xd000, 0xa000, 0xd000, 0xa000, 0xd000]);
    assert_eq!(rx.finish(), Some(Ok(vec![0x41, 0xff])));
}

#[test]
fn receive_nothing_is_an_error() {
    let (exi, _) = Exi::init();
    let gecko = UsbGecko::new(&exi, 0x0470).unwrap();
    let mut rx = gecko.receive();
    rx.answer(0);
    assert_eq!(rx.finish(), Some(Err(Error::ReceiveImpossible)));
    let mut rx = gecko.receive();
    rx.answer(0x0400);
    rx.answer(0x0041);
    assert_eq!(rx.finish(), Some(Err(Error::ReceiveImpossible)));
    let mut rx = gecko.receive();
    rx.answer(0x0400);
    assert_eq!(rx.finish(), None);
}

#[test]
fn send_waits_for_ready_then_sends_each_byte() {
    let (exi, _) = Exi::init();
    let gecko = UsbGecko::new(&exi, 0x0470).unwrap();
    let mut tx = gecko.send(b"hi");
    let mut queries = Vec::new();
    for reply in [0u16, 0x0400, 0x0400, 0x0400, 0x0400] {
        queries.push(tx.query().unwrap());
        tx.answer(reply);
    }
    assert_eq!(queries, vec![0xc000, 0xc000, 0xb680, 0xc000, 0xb690]);
    assert_eq!(tx.query(), None);
    assert_eq!(tx.finish(), Some(Ok(())));
}

#[test]
fn send_refused_byte_is_an_error() {
    let (exi, _) = Exi::init();
    let gecko = UsbGecko::new(&exi, 0x0470).unwrap();
    let mut tx = gecko.send(&[0xff]);
    tx.answer(0x0400);
    assert_eq!(tx.query(), Some(0xbff0));
    tx.answer(0);
    assert_eq!(tx.finish(), Some(Err(Error::SendImpossible)));
    let tx = gecko.send(&[]);
    assert_eq!(tx.query(), None);
    assert_eq!(tx.finish(), Some(Ok(())));
}
