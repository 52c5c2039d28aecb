use luma_core::cache::CacheRange;
use luma_core::ios::{
    close, ioctl, open, read, reply_value, seek, Action, Buffer, Call, Command,
    ControlBlock, Event, IosError, IpcRegister, Mode, Phase, Request, SeekFrom,
};

/// A coprocessor for the tests: the control register reads come from
/// `ctrl` in turn (then both flags up), the reply lies at `reply_addr`.
struct Sim {
    ctrl: Vec<u32>,
    reply_addr: u32,
    reply: [u32; 8],
    log: Vec<Action>,
}

impl Sim {
    fn replying(ret: i32) -> Sim {
        Sim {
            ctrl: Vec::new(),
            reply_addr: 0x0123_4560,
            reply: [8, ret as u32, 0, 0, 0, 0, 0, 0],
            log: Vec::new(),
        }
    }

    fn run(&mut self, request: Request) -> Result<ControlBlock, IosError> {
        let call = Call::start(request, 0x8001_0000).unwrap();
        self.drive(call)
    }

    fn drive(&mut self, mut call: Call) -> Result<ControlBlock, IosError> {
        loop {
            let action = call.action();
            self.log.push(action);
            let event = match action {
                Action::Finished => break,
                Action::ReadRegister { reg: IpcRegister::ArmMsg } => Event::Value(self.reply_addr),
                Action::ReadRegister { .. } => {
                    if self.ctrl.is_empty() {
                        Event::Value(6)
                    } else {
                        Event::Value(self.ctrl.remove(0))
                    }
                }
                Action::Reclaim { .. } => Event::Block(self.reply),
                _ => Event::Done,
            };
            call.advance(event);
        }
        call.outcome().unwrap()
    }

    fn position(&self, wanted: &Action) -> usize {
        self.log.iter().position(|a| a == wanted).unwrap()
    }
}

fn ctrl_write(value: u32) -> Action {
    Action::WriteRegister { reg: IpcRegister::PpcCtrl, value }
}

#[test]
fn open_then_close_stm_immediate() {
    let path = "/dev/stm/immediate\0";
    let filename = Buffer { addr: 0x8012_3440, len: path.len() as u32 };
    let request = open(filename, Mode::NoAccess).unwrap();
    assert_eq!(request.block.command, Command::Open);
    assert_eq!(request.block.fd, -1);
    assert_eq!(request.block.args, [0x0012_3440, 0, 0, 0, 0]);
    let mut sim = Sim::replying(5);
    let reply = sim.run(request).unwrap();
    assert_eq!(reply_value(&reply), Ok(5));

    let request = close(5);
    assert_eq!(request.block.command, Command::Close);
    assert_eq!(request.block.fd, 5);
    assert_eq!(request.block.args, [0, 0, 0, 0, 0]);
    assert!(request.buffers.is_empty());
    let mut sim = Sim::replying(0);
    let reply = sim.run(request).unwrap();
    assert_eq!(reply_value(&reply), Ok(0));
}

#[test]
fn read_flushes_buffer_before_sending() {
    let buf = Buffer { addr: 0x8010_0010, len: 16 };
    let request = read(3, buf).unwrap();
    assert_eq!(request.block.command, Command::Read);
    assert_eq!(request.block.fd, 3);
    assert_eq!(request.block.args, [0x0010_0010, 16, 0, 0, 0]);
    let mut sim = Sim::replying(16);
    let reply = sim.run(request).unwrap();
    assert_eq!(reply_value(&reply), Ok(16));
    let lines = CacheRange::new(0x8010_0000, 32).unwrap();
    let flush = sim.position(&Action::Flush { range: lines });
    let publish = sim.position(&Action::WriteRegister { reg: IpcRegister::PpcMsg, value: 0x0001_0000 });
    assert_eq!(flush, 0);
    assert!(flush < publish);
}

#[test]
fn round_trip_every_command() {
    let buf = Buffer { addr: 0x9000_0000, len: 64 };
    for ret in [-4i32, 0, 7, i32::MIN, i32::MAX] {
        let requests = vec![
            open(Buffer { addr: 0x9000_0000, len: 32 }, Mode::Read).unwrap(),
            close(1),
            read(1, buf).unwrap(),
            luma_core::ios::write(1, buf).unwrap(),
            seek(1, SeekFrom::End(-3)),
            ioctl(1, 0x2003, buf, buf).unwrap(),
        ];
        for request in requests {
            let mut sim = Sim::replying(ret);
            sim.reply = [8, ret as u32, 9, 1, 2, 3, 4, 0xffff_ffff];
            let reply = sim.run(request).unwrap();
            assert_eq!(reply.command, Command::Async);
            assert_eq!(reply.ret, ret);
            assert_eq!(reply.fd, 9);
            assert_eq!(reply.args, [1, 2, 3, 4, -1]);
            if ret < 0 {
                assert_eq!(reply_value(&reply), Err(IosError::Remote(ret)));
            } else {
                assert_eq!(reply_value(&reply), Ok(ret));
            }
        }
    }
}

#[test]
fn handshake_action_sequence() {
    let mut sim = Sim::replying(0);
    sim.ctrl = vec![0, 0, 2, 0, 4];
    let block_words = close(7).block.to_words();
    sim.run(close(7)).unwrap();
    let lines = CacheRange::new(0x8001_0000, 32).unwrap();
    let expected = vec![
        Action::Store { addr: 0x8001_0000, words: block_words },
        Action::Flush { range: lines },
        Action::WriteRegister { reg: IpcRegister::PpcMsg, value: 0x0001_0000 },
        Action::ReadRegister { reg: IpcRegister::PpcCtrl },
        ctrl_write(1),
        Action::ReadRegister { reg: IpcRegister::PpcCtrl },
        Action::ReadRegister { reg: IpcRegister::PpcCtrl },
        ctrl_write(2),
        Action::ReadRegister { reg: IpcRegister::PpcCtrl },
        Action::ReadRegister { reg: IpcRegister::PpcCtrl },
        Action::ReadRegister { reg: IpcRegister::ArmMsg },
        Action::Reclaim { addr: 0x8123_4560 },
        ctrl_write(4),
        Action::Finished,
    ];
    assert_eq!(sim.log, expected);
}

#[test]
fn acknowledge_already_set_raises_both_flags() {
    let mut sim = Sim::replying(0);
    sim.ctrl = vec![2];
    sim.run(close(1)).unwrap();
    assert!(sim.log.contains(&ctrl_write(3)));
    assert!(!sim.log.contains(&ctrl_write(1)));
}

#[test]
fn bounded_wait_times_out() {
    let mut sim = Sim::replying(0);
    sim.ctrl = vec![0; 10];
    let call = Call::start(close(1), 0x8001_0000).unwrap().with_poll_limit(Some(3));
    assert_eq!(sim.drive(call), Err(IosError::Timeout));
    let polls = sim
        .log
        .iter()
        .filter(|a| **a == Action::ReadRegister { reg: IpcRegister::PpcCtrl })
        .count();
    assert_eq!(polls, 4);

    let mut sim = Sim::replying(0);
    sim.ctrl = vec![0, 0, 4, 0, 0, 0];
    let call = Call::start(close(1), 0x8001_0000).unwrap().with_poll_limit(Some(2));
    assert_eq!(sim.drive(call), Err(IosError::Timeout));
}

#[test]
fn wrong_reply_tag_is_a_desync() {
    let mut sim = Sim::replying(0);
    sim.reply[0] = 3;
    assert_eq!(sim.run(close(1)), Err(IosError::Desync { tag: 3 }));
    assert!(!sim.log.contains(&ctrl_write(4)));
}

#[test]
fn unexpected_event_fails_the_call() {
    let mut call = Call::start(close(1), 0x8001_0000).unwrap();
    assert_eq!(call.phase(), Phase::StoreBlock);
    call.advance(Event::Value(1));
    assert_eq!(call.action(), Action::Finished);
    assert_eq!(call.outcome(), Some(Err(IosError::UnexpectedEvent)));
}

#[test]
fn misaligned_block_is_refused() {
    assert_eq!(Call::start(close(1), 0x8001_0004).err(), Some(IosError::MisalignedBlock));
}

#[test]
fn long_path_is_refused() {
    let name = Buffer { addr: 0x8000_0000, len: 0x40 };
    assert_eq!(open(name, Mode::Read).err(), Some(IosError::NameTooLong));
    let name = Buffer { addr: 0x8000_0000, len: 0x3f };
    assert!(open(name, Mode::ReadWrite).is_ok());
}

#[test]
fn buffer_past_the_address_space_is_refused() {
    let buf = Buffer { addr: 0xffff_fff0, len: 0x20 };
    assert_eq!(read(1, buf).err(), Some(IosError::BadBuffer));
    assert_eq!(luma_core::ios::write(1, buf).err(), Some(IosError::BadBuffer));
}

#[test]
fn seek_whence_values() {
    assert_eq!(seek(4, SeekFrom::Start(10)).block.args, [10, 0, 0, 0, 0]);
    assert_eq!(seek(4, SeekFrom::Current(-2)).block.args, [-2, 1, 0, 0, 0]);
    assert_eq!(seek(4, SeekFrom::End(0)).block.args, [0, 2, 0, 0, 0]);
    assert_eq!(seek(4, SeekFrom::End(0)).block.command, Command::Seek);
}

#[test]
fn ioctl_packs_both_buffers() {
    let a = Buffer { addr: 0x8000_1234, len: 8 };
    let b = Buffer { addr: 0x9000_0040, len: 0 };
    let request = ioctl(4, 0x2003, a, b).unwrap();
    assert_eq!(request.block.command, Command::Ioctl);
    assert_eq!(request.block.args, [0x2003, 0x0000_1234, 8, 0x1000_0040, 0]);
    assert_eq!(request.buffers.len(), 2);
    assert_eq!(request.buffers[0], CacheRange::new(0x8000_1220, 32).unwrap());
    assert_eq!(request.buffers[1], CacheRange::new(0x9000_0040, 0).unwrap());
}

#[test]
fn write_request_layout() {
    let request = luma_core::ios::write(2, Buffer { addr: 0x8000_0020, len: 40 }).unwrap();
    assert_eq!(request.block.command, Command::Write);
    assert_eq!(request.block.args, [0x20, 40, 0, 0, 0]);
    assert_eq!(request.buffers[0], CacheRange::new(0x8000_0020, 64).unwrap());
    assert_eq!(request.block.to_words(), [4, 0, 2, 0x20, 40, 0, 0, 0]);
}

#[test]
fn mode_and_command_values() {
    assert_eq!(Mode::NoAccess.value(), 0);
    assert_eq!(Mode::Read.value(), 1);
    assert_eq!(Mode::Write.value(), 2);
    assert_eq!(Mode::ReadWrite.value(), 3);
    assert_eq!(Command::Open.tag(), 1);
    assert_eq!(Command::Ioctlv.tag(), 7);
    assert_eq!(Command::Async.tag(), 8);
    assert_eq!(IpcRegister::ArmMsg.offset(), 8);
}
