use rmm::syndrome::{decode, Syndrome, EC_BRK64, EC_HVC64};
use rmm::trap::{
    handle_exception, handle_lower_exception, Fatal, Info, Kind, Source, TrapFrame, HVC_DISPATCH,
    NO_ACTION,
};

fn esr(ec: u32, iss: u32) -> u32 {
    (ec << 26) | (1 << 25) | iss
}

#[test]
fn decode_brk_keeps_immediate() {
    assert_eq!(decode(esr(EC_BRK64, 0x1234)), Syndrome::Brk(0x1234));
    assert_eq!(decode(0xf200_0000), Syndrome::Brk(0));
}

#[test]
fn decode_hvc() {
    assert_eq!(decode(esr(EC_HVC64, 0)), Syndrome::HVC);
    assert_eq!(decode(0x5a00_0007), Syndrome::HVC);
}

#[test]
fn decode_unknown_is_undefined_with_raw_value() {
    assert_eq!(decode(0), Syndrome::Undefined(0));
    assert_eq!(decode(0x9600_0045), Syndrome::Undefined(0x9600_0045));
    assert_eq!(decode(u32::MAX), Syndrome::Undefined(u32::MAX));
}

#[test]
fn decode_is_deterministic() {
    for v in [0u32, 0xf200_0010, 0x5a00_0000, 0x9600_0045, u32::MAX] {
        assert_eq!(decode(v), decode(v));
    }
}

#[test]
fn monitor_breakpoint_steps_over_instruction() {
    let info = Info::new(Source::CurrentSPELx, Kind::Synchronous);
    let mut tf = TrapFrame { elr: 0x8000_1000, spsr: 0x3c5 };
    assert_eq!(handle_exception(info, esr(EC_BRK64, 7), &mut tf), Ok(()));
    assert_eq!(tf.elr, 0x8000_1004);
    assert_eq!(tf.spsr, 0x3c5);
}

#[test]
fn monitor_other_sync_halts() {
    let info = Info::new(Source::CurrentSPEL0, Kind::Synchronous);
    let mut tf = TrapFrame { elr: 0x8000_1000, spsr: 0 };
    let hvc = esr(EC_HVC64, 0);
    assert_eq!(handle_exception(info, hvc, &mut tf), Err(Fatal::Sync(Syndrome::HVC)));
    assert_eq!(
        handle_exception(info, 0x9600_0045, &mut tf),
        Err(Fatal::Sync(Syndrome::Undefined(0x9600_0045)))
    );
    assert_eq!(tf.elr, 0x8000_1000);
}

#[test]
fn monitor_interrupts_halt() {
    let mut tf = TrapFrame { elr: 0x4000, spsr: 0 };
    for kind in [Kind::Irq, Kind::Fiq, Kind::SError] {
        let info = Info::new(Source::CurrentSPELx, kind);
        assert_eq!(handle_exception(info, esr(EC_BRK64, 0), &mut tf), Err(Fatal::Async(kind)));
    }
    assert_eq!(tf.elr, 0x4000);
}

#[test]
fn guest_hvc_dispatches() {
    let info = Info::new(Source::LowerAArch64, Kind::Synchronous);
    assert_eq!(handle_lower_exception(info, esr(EC_HVC64, 0)), Ok(HVC_DISPATCH));
    assert_eq!(HVC_DISPATCH, 1);
}

#[test]
fn guest_interrupts_return_zero() {
    for kind in [Kind::Irq, Kind::Fiq, Kind::SError] {
        let info = Info::new(Source::LowerAArch64, kind);
        assert_eq!(handle_lower_exception(info, esr(EC_HVC64, 0)), Ok(NO_ACTION));
        assert_eq!(handle_lower_exception(info, 0), Ok(0));
    }
}

#[test]
fn guest_other_sync_halts() {
    let info = Info::new(Source::LowerAArch64, Kind::Synchronous);
    assert_eq!(handle_lower_exception(info, esr(EC_BRK64, 3)), Err(Syndrome::Brk(3)));
    assert_eq!(handle_lower_exception(info, 0x9600_0045), Err(Syndrome::Undefined(0x9600_0045)));
}

#[test]
fn info_from_tags() {
    assert_eq!(
        Info::from_tags(2, 1),
        Some(Info { source: Source::LowerAArch64, kind: Kind::Irq })
    );
    assert_eq!(
        Info::from_tags(0, 3),
        Some(Info { source: Source::CurrentSPEL0, kind: Kind::SError })
    );
    assert_eq!(Info::from_tags(4, 0), None);
    assert_eq!(Info::from_tags(1, 4), None);
}

#[test]
fn monitor_breakpoint_at_top_of_address_space_halts() {
    let info = Info::new(Source::CurrentSPELx, Kind::Synchronous);
    let mut tf = TrapFrame { elr: u64::MAX - 3, spsr: 5 };
    assert_eq!(handle_exception(info, esr(EC_BRK64, 2), &mut tf), Err(Fatal::Sync(Syndrome::Brk(2))));
    assert_eq!(tf.elr, u64::MAX - 3);
    let mut last = TrapFrame { elr: u64::MAX - 4, spsr: 5 };
    assert_eq!(handle_exception(info, esr(EC_BRK64, 2), &mut last), Ok(()));
    assert_eq!(last.elr, u64::MAX);
}
