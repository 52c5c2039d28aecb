use luma_core::irq::{
    pending_lines, priority_mask, select_line, Dispatch, Handler, InterruptController,
    InterruptSources, IrqError, IRQ_AI, IRQ_DSP_ARAM, IRQ_EXI0_EXI, IRQ_MEM0,
};

fn sources(cause: u32) -> InterruptSources {
    InterruptSources {
        cause,
        mask: 0xffff_ffff,
        mem_status: 0,
        dsp_status: 0,
        ai_status: 0,
        exi0_status: 0,
        exi1_status: 0,
        exi2_status: 0,
    }
}

fn handler(routine: u32) -> Handler {
    Handler { routine, context: 0x1000 + routine as usize }
}

#[test]
fn empty_cause_is_spurious() {
    let mut ctl = InterruptController::new();
    ctl.register(IRQ_MEM0, handler(1)).unwrap();
    let mut src = sources(0);
    src.mem_status = 1;
    assert_eq!(ctl.dispatch(&src), Dispatch::Spurious);
    assert_eq!(ctl.spurious_count(), 1);
    assert_eq!(ctl.current_mask(), 0);
}

#[test]
fn reserved_cause_bit_alone_is_spurious() {
    let mut ctl = InterruptController::new();
    assert_eq!(ctl.dispatch(&sources(0x1_0000)), Dispatch::Spurious);
    assert_eq!(ctl.spurious_count(), 1);
}

#[test]
fn masked_cause_is_spurious() {
    let mut ctl = InterruptController::new();
    ctl.register(IRQ_MEM0, handler(1)).unwrap();
    let mut src = sources(0x80);
    src.mask = 0x7f;
    src.mem_status = 1;
    assert_eq!(ctl.dispatch(&src), Dispatch::Spurious);
    assert_eq!(ctl.dispatch(&src), Dispatch::Spurious);
    assert_eq!(ctl.spurious_count(), 2);
    assert_eq!(ctl.dropped_count(), 0);
}

#[test]
fn earlier_group_wins() {
    let mut ctl = InterruptController::new();
    ctl.register(IRQ_MEM0, handler(1)).unwrap();
    ctl.register(IRQ_EXI0_EXI, handler(2)).unwrap();
    let mut src = sources(0x90);
    src.mem_status = 0x1;
    src.exi0_status = 0x2;
    assert_eq!(ctl.dispatch(&src), Dispatch::Invoke { irq: IRQ_MEM0, handler: handler(1) });
}

#[test]
fn group_order_beats_line_number() {
    let mut src = sources(0x40);
    src.dsp_status = 0x8 | 0x20;
    let pending = pending_lines(&src);
    assert_eq!(pending, 0x0400_0000 | 0x0200_0000);
    assert_eq!(select_line(pending), IRQ_DSP_ARAM);
}

#[test]
fn lowest_line_wins_within_a_group() {
    let mut src = sources(0x30);
    src.ai_status = 0x8;
    src.exi0_status = 0x8;
    assert_eq!(select_line(pending_lines(&src)), IRQ_AI);
}

#[test]
fn pending_lines_translation() {
    let src = InterruptSources {
        cause: 0xf0,
        mask: 0xffff_ffff,
        mem_status: 0xffff,
        dsp_status: 0xffff,
        ai_status: 0xffff_ffff,
        exi0_status: 0xffff_ffff,
        exi1_status: 0xffff_ffff,
        exi2_status: 0xffff_ffff,
    };
    assert_eq!(pending_lines(&src), 0xffff_8000);
    let mut src = sources(0x20);
    src.mem_status = 0xffff;
    assert_eq!(pending_lines(&src), 0);
    let mut src = sources(0x10);
    src.exi1_status = 0x800;
    src.exi2_status = 0x8;
    assert_eq!(pending_lines(&src), 0x0002_0000 | 0x0000_8000);
}

#[test]
fn priority_table() {
    assert_eq!(priority_mask(0), 0x100);
    assert_eq!(priority_mask(2), 0xf800_0000);
    assert_eq!(priority_mask(7), 0x03ff_8c00);
    assert_eq!(priority_mask(11), 0xffff_ffff);
}

#[test]
fn line_in_service_is_not_reselected() {
    let mut ctl = InterruptController::new();
    ctl.register(IRQ_MEM0, handler(1)).unwrap();
    ctl.register(IRQ_EXI0_EXI, handler(2)).unwrap();
    let mut src = sources(0x90);
    src.mem_status = 0x1;
    src.exi0_status = 0x2;
    assert_eq!(ctl.dispatch(&src), Dispatch::Invoke { irq: IRQ_MEM0, handler: handler(1) });
    assert_eq!(ctl.current_mask(), 0x8000_0000);
    assert_eq!(ctl.dispatch(&src), Dispatch::Invoke { irq: IRQ_EXI0_EXI, handler: handler(2) });
    assert_eq!(ctl.dispatch(&src), Dispatch::Idle);
    ctl.complete();
    assert_eq!(ctl.previous_mask(), 0x8040_0000);
    assert_eq!(ctl.current_mask(), 0);
    assert_eq!(ctl.dispatch(&src), Dispatch::Idle);
    ctl.complete();
    assert_eq!(ctl.dispatch(&src), Dispatch::Invoke { irq: IRQ_MEM0, handler: handler(1) });
}

#[test]
fn unhandled_line_is_dropped_and_counted() {
    let mut ctl = InterruptController::new();
    let mut src = sources(0x80);
    src.mem_status = 0x4;
    assert_eq!(ctl.dispatch(&src), Dispatch::Dropped { irq: 2 });
    assert_eq!(ctl.dropped_count(), 1);
    assert_eq!(ctl.spurious_count(), 0);
}

#[test]
fn registration_replaces_and_removes() {
    let mut ctl = InterruptController::new();
    assert_eq!(ctl.register(5, handler(1)), Ok(None));
    assert_eq!(ctl.register(5, handler(2)), Ok(Some(handler(1))));
    assert_eq!(ctl.handler(5), Some(handler(2)));
    assert_eq!(ctl.unregister(5), Ok(Some(handler(2))));
    assert_eq!(ctl.handler(5), None);
    assert_eq!(ctl.register(32, handler(3)), Err(IrqError::NoSuchLine));
    assert_eq!(ctl.unregister(40), Err(IrqError::NoSuchLine));
    assert_eq!(ctl.handler(32), None);
}
