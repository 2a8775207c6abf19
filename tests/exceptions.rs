use micro::arm::cpu::{critical, Core, Event};
use micro::arm::exc::{priority_of, Exception, ExceptionControl, InterruptControl};
use micro::arm::scb::{cpuid, Scb, SystemControl, AIRCR, RESET_REQUEST, SCR, VTOR};

const NOOP: u32 = 0x0800_0101;

const ALL: [Exception; 10] = [
    Exception::NMI,
    Exception::HardFault,
    Exception::SVCall,
    Exception::PendSV,
    Exception::Systick,
    Exception::MemManage,
    Exception::BusFault,
    Exception::UsageFault,
    Exception::DebugMonitor,
    Exception::SecureFault,
];

fn table() -> ExceptionControl {
    ExceptionControl::new(0x0800_0000, 0x2000_8000, 0x0800_0201, NOOP)
}

fn scb() -> Scb {
    Scb::new(0x410F_C241, 0xFA05_0000, 0x200)
}

#[test]
fn new_table_holds_defaults() {
    let t = table();
    assert_eq!(t.word(0), 0x2000_8000);
    assert_eq!(t.word(1), 0x0800_0201);
    for i in 2..16 {
        assert_eq!(t.word(i), NOOP);
    }
    assert_eq!(t.address(), 0x0800_0000);
    assert_eq!(t.default_handler(), NOOP);
}

#[test]
fn handler_slots() {
    let expected = [2usize, 3, 11, 14, 15, 4, 5, 6, 12, 7];
    for (e, slot) in ALL.iter().zip(expected) {
        assert_eq!(e.slot_index(), slot);
    }
}

#[test]
fn install_then_clear_restores_default() {
    for e in ALL {
        let mut core = Core::new();
        let mut t = table();
        t.handler(&mut core, e, 0x0800_1001);
        assert_eq!(t.get_handler(e), 0x0800_1001);
        t.clear(&mut core, e);
        assert_eq!(t.get_handler(e), NOOP);
        assert_ne!(t.get_handler(e), 0);
        for i in 0..16 {
            assert_eq!(t.word(i), table().word(i));
        }
    }
}

#[test]
fn handler_is_masked_and_fenced() {
    let mut core = Core::new();
    let mut t = table();
    t.handler(&mut core, Exception::SVCall, 0x0800_2001);
    let expected = [
        Event::InterruptsMasked,
        Event::Write { addr: 0x0800_0000 + 4 * 11, value: 0x0800_2001 },
        Event::DataMemoryBarrier,
        Event::DataSyncBarrier,
        Event::InstructionSyncBarrier,
        Event::InterruptsUnmasked,
    ];
    assert_eq!(core.len(), expected.len());
    for (i, e) in expected.iter().enumerate() {
        assert_eq!(core.event(i), *e);
    }
    assert!(!core.is_masked());
}

#[test]
fn handler_keeps_mask_when_already_masked() {
    let mut core = Core::new();
    micro::arm::cpu::cpsid_i(&mut core);
    let mut t = table();
    t.handler(&mut core, Exception::PendSV, 0x0800_3001);
    assert!(core.is_masked());
    assert_eq!(core.len(), 6);
    assert_eq!(core.event(5), Event::InstructionSyncBarrier);
}

#[test]
fn relocate_to_aligned_address() {
    let mut core = Core::new();
    let mut s = scb();
    let mut t = table();
    t.handler(&mut core, Exception::Systick, 0x0800_4001);
    let mut core = Core::new();
    let moved = t.relocate(&mut core, &mut s, 0x2000_0000).unwrap();
    assert_eq!(s.vtor_value(), 0x2000_0000);
    assert_eq!(moved.address(), 0x2000_0000);
    for i in 0..16 {
        assert_eq!(moved.word(i), t.word(i));
    }
    assert_eq!(moved.get_handler(Exception::Systick), 0x0800_4001);
    assert_eq!(moved.get_handler(Exception::NMI), NOOP);
    assert_eq!(core.len(), 1 + 16 + 3 + 1 + 3 + 1);
    assert_eq!(core.event(0), Event::InterruptsMasked);
    for i in 0..16usize {
        assert_eq!(core.event(1 + i), Event::Write { addr: 0x2000_0000 + 4 * i as u32, value: t.word(i) });
    }
    assert_eq!(core.event(17), Event::DataMemoryBarrier);
    assert_eq!(core.event(18), Event::DataSyncBarrier);
    assert_eq!(core.event(19), Event::InstructionSyncBarrier);
    assert_eq!(core.event(20), Event::Write { addr: VTOR, value: 0x2000_0000 });
    assert_eq!(core.event(23), Event::InstructionSyncBarrier);
    assert_eq!(core.event(24), Event::InterruptsUnmasked);
    assert!(!core.is_masked());
}

#[test]
fn relocate_to_misaligned_address_changes_nothing() {
    let mut core = Core::new();
    let mut s = scb();
    let t = table();
    let first = t.relocate(&mut core, &mut s, 0x2000_0040).unwrap();
    let before = core.len();
    for bad in [0x2000_0004u32, 0x2000_0020, 0x2000_0041, 0xFFFF_FFFF] {
        assert!(first.relocate(&mut core, &mut s, bad).is_none());
        assert_eq!(s.vtor_value(), 0x2000_0040);
        assert_eq!(core.len(), before);
    }
}

#[test]
fn relocate_to_top_of_memory() {
    let mut core = Core::new();
    let mut s = scb();
    let moved = table().relocate(&mut core, &mut s, 0xFFFF_FFC0).unwrap();
    assert_eq!(s.vtor_value(), 0xFFFF_FFC0);
    assert_eq!(moved.word(15), NOOP);
}

#[test]
fn raw_relocate_copies_words() {
    let mut core = Core::new();
    let mut s = scb();
    let words = vec![1u32, 2, 3];
    let copy = s.relocate(&mut core, &words, 0x100);
    assert_eq!(copy, words);
    assert_eq!(s.vtor_value(), 0x100);
    assert_eq!(core.event(3), Event::Write { addr: 0x108, value: 3 });
}

#[test]
fn exception_priority_lanes() {
    let mut core = Core::new();
    let mut s = scb();
    let mut t = table();
    t.priority(&mut core, &mut s, Exception::PendSV, 0x40);
    assert_eq!(s.shpr(3), 0x0040_0000);
    assert_eq!(priority_of(&s, Exception::PendSV), Some(0x40));
    t.priority(&mut core, &mut s, Exception::Systick, 0xC0);
    t.priority(&mut core, &mut s, Exception::DebugMonitor, 0x20);
    assert_eq!(s.shpr(3), 0xC040_0020);
    assert_eq!(priority_of(&s, Exception::PendSV), Some(0x40));
    t.priority(&mut core, &mut s, Exception::PendSV, 0x80);
    assert_eq!(s.shpr(3), 0xC080_0020);
    t.priority(&mut core, &mut s, Exception::SVCall, 0x10);
    assert_eq!(s.shpr(2), 0x1000_0000);
    t.priority(&mut core, &mut s, Exception::MemManage, 1);
    t.priority(&mut core, &mut s, Exception::BusFault, 2);
    t.priority(&mut core, &mut s, Exception::UsageFault, 3);
    t.priority(&mut core, &mut s, Exception::SecureFault, 4);
    assert_eq!(s.shpr(1), 0x0403_0201);
    assert_eq!(priority_of(&s, Exception::UsageFault), Some(3));
}

#[test]
fn priority_write_is_fenced() {
    let mut core = Core::new();
    let mut s = scb();
    let mut t = table();
    t.priority(&mut core, &mut s, Exception::SVCall, 0xE0);
    assert_eq!(core.len(), 6);
    assert_eq!(core.event(0), Event::InterruptsMasked);
    assert_eq!(core.event(1), Event::Write { addr: 0xE000_ED1C, value: 0xE000_0000 });
    assert_eq!(core.event(5), Event::InterruptsUnmasked);
}

#[test]
fn fixed_priorities_ignore_requests() {
    for e in [Exception::NMI, Exception::HardFault] {
        for p in [0u8, 1, 0x80, 0xFF] {
            let mut core = Core::new();
            let mut s = scb();
            let mut t = table();
            t.priority(&mut core, &mut s, Exception::SVCall, 0x20);
            let before = core.len();
            t.priority(&mut core, &mut s, e, p);
            assert_eq!(core.len(), before);
            assert_eq!((s.shpr(1), s.shpr(2), s.shpr(3)), (0, 0x2000_0000, 0));
            assert_eq!(priority_of(&s, e), None);
            assert!(!core.is_masked());
        }
    }
}

#[test]
fn system_control_words() {
    let mut core = Core::new();
    let mut s = scb();
    assert_eq!(cpuid(&s), 0x410F_C241);
    assert!(s.le());
    assert!(!s.be());
    assert!(s.unaligned());
    s.sevonpend(&mut core, true);
    s.deepsleep(&mut core);
    s.sleeponexit(&mut core, true);
    assert_eq!(s.scr_value(), 0x16);
    s.normalsleep(&mut core);
    s.sevonpend(&mut core, false);
    assert_eq!(s.scr_value(), 0x2);
    s.sleeponexit(&mut core, false);
    assert_eq!(s.scr_value(), 0);
    assert_eq!(core.event(0), Event::Write { addr: SCR, value: 0x10 });
    s.reset(&mut core);
    assert_eq!(s.aircr_value(), RESET_REQUEST);
    assert_eq!(RESET_REQUEST, (0x05FA << 16) | (1 << 2));
    assert_eq!(core.event(core.len() - 1), Event::Write { addr: AIRCR, value: 0x05FA_0004 });
}

#[test]
fn endianness_and_alignment_flags() {
    let s = Scb::new(0, 0x8000, 0x8);
    assert!(s.be());
    assert!(!s.le());
    assert!(!s.unaligned());
}

#[test]
fn vtor_write_is_followed_by_barriers() {
    let mut core = Core::new();
    let mut s = scb();
    s.vtor(&mut core, 0x2000_0400);
    assert_eq!(s.vtor_value(), 0x2000_0400);
    assert_eq!(core.len(), 4);
    assert_eq!(core.event(0), Event::Write { addr: VTOR, value: 0x2000_0400 });
    assert_eq!(core.event(1), Event::DataMemoryBarrier);
    assert_eq!(core.event(2), Event::DataSyncBarrier);
    assert_eq!(core.event(3), Event::InstructionSyncBarrier);
}

#[test]
fn critical_section_restores_mask() {
    let mut core = Core::new();
    let r = critical(&mut core, || 41 + 1);
    assert_eq!(r, 42);
    assert_eq!(core.len(), 2);
    assert_eq!(core.event(0), Event::InterruptsMasked);
    assert_eq!(core.event(1), Event::InterruptsUnmasked);
    assert!(!core.is_masked());
    micro::arm::cpu::cpsid_i(&mut core);
    let r = critical(&mut core, || "done");
    assert_eq!(r, "done");
    assert!(core.is_masked());
    assert_eq!(core.len(), 4);
}

#[test]
fn block_loaded_from_words() {
    let mut core = Core::new();
    let mut s = Scb::load(1, 2, 0x4, 4, 0x2000_0000, 0x0102_0304, 0x8000_0000, 0xF0E0_D0C0);
    assert_eq!(s.vtor_value(), 0x2000_0000);
    assert_eq!(s.scr_value(), 0x4);
    assert_eq!(priority_of(&s, Exception::BusFault), Some(0x03));
    assert_eq!(priority_of(&s, Exception::SVCall), Some(0x80));
    assert_eq!(priority_of(&s, Exception::PendSV), Some(0xE0));
    let mut t = table();
    t.priority(&mut core, &mut s, Exception::PendSV, 0x11);
    assert_eq!(s.shpr(3), 0xF011_D0C0);
    assert_eq!(s.shpr(1), 0x0102_0304);
    s.normalsleep(&mut core);
    assert_eq!(s.scr_value(), 0);
}

#[test]
fn table_loaded_from_words() {
    assert!(ExceptionControl::load(0x100, vec![0; 15], NOOP).is_none());
    assert!(ExceptionControl::load(0x100, vec![0; 16], 0).is_none());
    assert!(ExceptionControl::load(0xFFFF_FFC4, vec![0; 16], NOOP).is_none());
    let words: Vec<u32> = (0..16).map(|i| 0x1000 + i).collect();
    let mut t = ExceptionControl::load(0x2000_0000, words, NOOP).unwrap();
    assert_eq!(t.get_handler(Exception::SVCall), 0x1000 + 11);
    let mut core = Core::new();
    t.clear(&mut core, Exception::SVCall);
    assert_eq!(t.get_handler(Exception::SVCall), NOOP);
    assert_eq!(t.word(12), 0x1000 + 12);
    assert_eq!(t.default_handler(), NOOP);
}
