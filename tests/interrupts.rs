use micro::arm::cpu::{Core, Event};
use micro::arm::irq::IRQTable;
use micro::arm::nvic::{Context, IRQConfig, Nvic, ICER, ICPR, IPR, ISER, ISPR, MAX_IRQS};

#[test]
fn set_pending_reflects_bit_of_word() {
    let mut core = Core::new();
    let mut nvic = Nvic::new();
    let mut cfg: IRQConfig<37> = IRQConfig::new();
    cfg.setpend(&mut core, &mut nvic);
    assert_eq!(nvic.pending_word(1), 1 << 5);
    assert!(nvic.is_pending(37));
    for irq in 0..MAX_IRQS {
        assert_eq!(nvic.is_pending(irq), irq == 37);
        assert!(!nvic.is_enabled(irq));
    }
    assert_eq!(core.len(), 1);
    assert_eq!(core.event(0), Event::Write { addr: ISPR + 4, value: 1 << 5 });
    assert!(!core.is_masked());
}

#[test]
fn disable_clears_only_its_bit() {
    let mut core = Core::new();
    let mut nvic = Nvic::new();
    let mut a: IRQConfig<64> = IRQConfig::new();
    let mut b: IRQConfig<65> = IRQConfig::new();
    let mut c: IRQConfig<95> = IRQConfig::new();
    let mut d: IRQConfig<0> = IRQConfig::new();
    a.enable(&mut core, &mut nvic);
    b.enable(&mut core, &mut nvic);
    c.enable(&mut core, &mut nvic);
    d.enable(&mut core, &mut nvic);
    b.setpend(&mut core, &mut nvic);
    assert_eq!(nvic.enabled_word(2), 0x8000_0003);
    b.disable(&mut core, &mut nvic);
    assert_eq!(nvic.enabled_word(2), 0x8000_0001);
    assert_eq!(nvic.enabled_word(0), 1);
    for irq in 0..MAX_IRQS {
        assert_eq!(nvic.is_enabled(irq), irq == 64 || irq == 95 || irq == 0);
        assert_eq!(nvic.is_pending(irq), irq == 65);
    }
    assert_eq!(core.event(5), Event::Write { addr: ICER + 8, value: 2 });
}

#[test]
fn clear_pending() {
    let mut core = Core::new();
    let mut nvic = Nvic::new();
    let mut a: IRQConfig<495> = IRQConfig::new();
    let mut b: IRQConfig<494> = IRQConfig::new();
    a.setpend(&mut core, &mut nvic);
    b.setpend(&mut core, &mut nvic);
    a.clearpend(&mut core, &mut nvic);
    assert!(!nvic.is_pending(495));
    assert!(nvic.is_pending(494));
    assert_eq!(nvic.pending_word(15), 1 << 14);
    assert_eq!(core.event(2), Event::Write { addr: ICPR + 60, value: 1 << 15 });
    assert_eq!(a.irq(), 495);
}

#[test]
fn enable_address_and_bit() {
    let mut core = Core::new();
    let mut nvic = Nvic::new();
    let mut cfg: IRQConfig<33> = IRQConfig::new();
    cfg.enable(&mut core, &mut nvic);
    assert_eq!(core.event(0), Event::Write { addr: 0xE000_E104, value: 2 });
    assert_eq!(ISER, 0xE000_E100);
}

#[test]
fn irq_priority_lanes() {
    let mut core = Core::new();
    let mut nvic = Nvic::new();
    let mut a: IRQConfig<8> = IRQConfig::new();
    let mut b: IRQConfig<9> = IRQConfig::new();
    let mut c: IRQConfig<11> = IRQConfig::new();
    b.priority(&mut core, &mut nvic, 0x20);
    c.priority(&mut core, &mut nvic, 0xF0);
    a.priority(&mut core, &mut nvic, 0x80);
    assert_eq!(nvic.priority_of(8), 0x80);
    assert_eq!(nvic.priority_of(9), 0x20);
    assert_eq!(nvic.priority_of(10), 0);
    assert_eq!(nvic.priority_of(11), 0xF0);
    assert_eq!(nvic.priority_word(2), 0xF000_2080);
    b.priority(&mut core, &mut nvic, 0x40);
    assert_eq!(nvic.priority_word(2), 0xF000_4080);
    assert_eq!(nvic.priority_of(7), 0);
    assert_eq!(core.event(3), Event::Write { addr: IPR + 8, value: 0xF000_4080 });
}

#[test]
fn context_holds_data_and_config() {
    let mut core = Core::new();
    let mut nvic = Nvic::new();
    let mut cx: Context<u32, 12> = Context::new(7);
    assert_eq!(cx.data, 7);
    cx.cfg.enable(&mut core, &mut nvic);
    assert!(nvic.is_enabled(12));
}

#[test]
fn irq_table_slots() {
    let mut t: IRQTable<8> = IRQTable::new(0x100);
    for i in 0..8 {
        assert_eq!(t.handler(i), 0x100);
    }
    t.set::<3>(0x200);
    t.setn(7, 0x300);
    assert_eq!(t.handler(3), 0x200);
    assert_eq!(t.handler(7), 0x300);
    assert_eq!(t.handler(0), 0x100);
    t.init();
    for i in 0..8 {
        assert_eq!(t.handler(i), 0x100);
    }
}

#[test]
fn controller_loaded_from_words() {
    assert!(Nvic::load(vec![0; 16], vec![0; 16], vec![0; 123]).is_none());
    assert!(Nvic::load(vec![0; 15], vec![0; 16], vec![0; 124]).is_none());
    let mut enabled = vec![0u32; 16];
    enabled[3] = 0x10;
    let mut priority = vec![0u32; 124];
    priority[1] = 0x00C0_0000;
    let mut nvic = Nvic::load(enabled, vec![0; 16], priority).unwrap();
    assert!(nvic.is_enabled(100));
    assert_eq!(nvic.priority_of(6), 0xC0);
    let mut core = Core::new();
    let mut cfg: IRQConfig<7> = IRQConfig::new();
    cfg.priority(&mut core, &mut nvic, 0x10);
    assert_eq!(nvic.priority_word(1), 0x10C0_0000);
}
