use micro::arm::cpu::{Core, Event};
use micro::arm::systick::{Systick, SYST_CSR, SYST_CVR, SYST_RVR};
use micro::arm::units::Systick as SystickBlock;
use micro::buffer::Buffer;
use micro::drivers::i2c::{I2CAddress10bit, I2CAddress7bit};
use micro::freq::{FrequencyS, FrequencyX};
use micro::handler::UserHandler;
use micro::reg::{DefaultRegister, Register};
use micro::res::{Allocation, PreAllocation};

#[test]
fn register_bit_operations() {
    let mut r = DefaultRegister::new(0xF0);
    r.set(0x0F);
    assert_eq!(r.read(), 0xFF);
    r.clear(0x11);
    assert_eq!(r.read(), 0xEE);
    r.toggle(0xFF);
    assert_eq!(r.read(), 0x11);
    r.write(7);
    assert_eq!(r.read(), 7);
}

#[test]
fn systick_control() {
    let mut core = Core::new();
    let mut t = SystickBlock::empty();
    t.processor(&mut core);
    t.interrupt(&mut core, true);
    t.enable(&mut core);
    assert_eq!(t.csr(), 0x7);
    t.external(&mut core);
    t.interrupt(&mut core, false);
    assert_eq!(t.csr(), 0x1);
    t.disable(&mut core);
    assert_eq!(t.csr(), 0);
    let before = core.len();
    let mut t = SystickBlock::load(0x5, 0, 77);
    t.reload(&mut core, 0x1234_5678);
    assert_eq!(t.rvr(), 0x34_5678);
    assert_eq!(t.current(), 77);
    assert_eq!(t.csr(), 0x5);
    assert_eq!(core.len(), before + 1);
    assert_eq!(core.event(0), Event::Write { addr: SYST_CSR, value: 0x4 });
    assert_eq!(core.event(before), Event::Write { addr: SYST_RVR, value: 0x34_5678 });
}

#[test]
fn systick_trait_operations() {
    let mut core = Core::new();
    let mut t = SystickBlock::empty();
    Systick::intenable(&mut t, &mut core);
    Systick::processor(&mut t, &mut core);
    assert_eq!(t.csr(), 0x6);
    Systick::intdisable(&mut t, &mut core);
    Systick::external(&mut t, &mut core);
    assert_eq!(t.csr(), 0);
    let mut t = SystickBlock::load(0, 5, 3);
    let before = core.len();
    Systick::reload(&mut t, &mut core, 1000);
    assert_eq!(Systick::current(&t), 0);
    assert_eq!(t.rvr(), 1000);
    assert_eq!(core.len(), before + 2);
    assert_eq!(core.event(before), Event::Write { addr: SYST_RVR, value: 1000 });
    assert_eq!(core.event(before + 1), Event::Write { addr: SYST_CVR, value: 0 });
}

#[test]
fn debug_status_bits() {
    let d = micro::arm::units::Debug { dfsr: 0x1F, dhcsr: 0 };
    assert!(d.external() && d.vectorcatch() && d.dwt() && d.breakpoint() && d.halt());
    assert!(!d.lockup() && !d.sleeping() && !d.halted());
    let d = micro::arm::units::Debug { dfsr: 0x4, dhcsr: 0x000E_0000 };
    assert!(!d.external() && !d.vectorcatch() && d.dwt() && !d.breakpoint() && !d.halt());
    assert!(d.lockup() && d.sleeping() && d.halted());
}

#[test]
fn frequency_units() {
    assert!(FrequencyS::zero().is_zero());
    assert_eq!(FrequencyS::hz(48).as_hz(), 48);
    assert_eq!(FrequencyS::khz(32).as_hz(), 32_000);
    assert_eq!(FrequencyS::mhz(168).as_hz(), 168_000_000);
    assert_eq!(FrequencyS::ghz(4).as_hz(), 4_000_000_000);
    assert_eq!(FrequencyS::mhz(72).as_khz(), 72_000);
    assert_eq!(FrequencyS::hz(1_999_999).as_mhz(), 1);
    assert_eq!(FrequencyS::hz(999_999_999).as_ghz(), 0);
    assert_eq!(FrequencyS::ghz(2).as_ghz(), 2);
    assert!(!FrequencyS::hz(1).is_zero());
    assert_eq!(FrequencyS::mhz(8).times(9).as_mhz(), 72);
    assert_eq!(FrequencyS::mhz(72).divided(2).as_hz(), 36_000_000);
    assert!(FrequencyS::khz(1) < FrequencyS::mhz(1));
    assert_eq!(FrequencyX::<1000>::new(12).value(), 12);
}

#[test]
fn i2c_address_widths() {
    assert_eq!(I2CAddress7bit::new(0xFF), I2CAddress7bit(0x7F));
    assert_eq!(I2CAddress7bit::new(0x50).0, 0x50);
    assert_eq!(I2CAddress10bit::new(0xFFFF), I2CAddress10bit(0x3FF));
    assert_eq!(I2CAddress10bit::new(0x123).0, 0x123);
    assert_eq!(u16::from(I2CAddress7bit::new(0x2A)), 0x2A);
    assert_eq!(u32::from(I2CAddress10bit::new(0x7FF)), 0x3FF);
}

#[test]
fn buffer_counts() {
    let mut b = Buffer::new(vec![1u8, 2, 3]);
    assert_eq!((b.expected, b.actual), (0, 0));
    b.expected(3);
    b.actual = 2;
    assert_eq!((b.expected, b.actual), (3, 2));
    b.reset();
    assert_eq!((b.expected, b.actual), (0, 0));
    b.expected(2);
    let mut w = b.writer();
    assert_eq!(w.expected, 2);
    assert_eq!(w.len(), 3);
    w.put(1, 9);
    assert_eq!(*w.index(1), 9);
    assert_eq!(*w.index(2), 3);
}

#[test]
fn user_handler_dispatch() {
    assert_eq!(UserHandler::empty().call(), None);
    assert_eq!(UserHandler::isolated(0x800).call(), Some((0x800, None)));
    assert_eq!(UserHandler::contextualized(0x900, 0x2000, true).call(), Some((0x900, Some(0x2000))));
    assert_eq!(UserHandler::contextualized(0x900, 0x2000, false).call(), None);
}

#[test]
fn preallocation_initializes_once() {
    let mut p: PreAllocation<u32> = PreAllocation::empty();
    assert!(p.get().is_none());
    assert!(p.init(5));
    assert!(!p.init(6));
    assert_eq!(*p.get().unwrap().as_ref(), 5);
    let a = Allocation::new(3u8);
    assert_eq!(*Allocation::nonstatic(&a).as_ref(), 3);
    let mut b = Allocation::new(4u8);
    assert_eq!(*Allocation::nonstatic_mut(&mut b).as_ref(), 4);
}

#[test]
fn timer_loaded_from_words() {
    let mut core = Core::new();
    let mut t = SystickBlock::load(0x5, 999, 12);
    assert_eq!(t.current(), 12);
    t.disable(&mut core);
    assert_eq!(t.csr(), 0x4);
    assert_eq!(t.rvr(), 999);
}
