use dac_driver::dma::NoDma;
use dac_driver::driver::Dac;
use dac_driver::peripheral::{Instance, OutputPin, Peripheral, PinMode};
use dac_driver::registers::Holding;
use dac_driver::value::{DualValue, HoldingRegister, Value};

fn dac(peri: &mut Peripheral) -> Dac<Peripheral, NoDma, NoDma> {
    let mut pin1 = OutputPin::<1>::new();
    let mut pin2 = OutputPin::<2>::new();
    Dac::new(peri, NoDma, NoDma, &mut pin1, &mut pin2)
}

#[test]
fn new_dac_claims_the_clock_twice() {
    let mut peri = Peripheral::new();
    let mut pin1 = OutputPin::<1>::new();
    let mut pin2 = OutputPin::<2>::new();
    let mut dac: Dac<Peripheral, NoDma, NoDma> =
        Dac::new(&mut peri, NoDma, NoDma, &mut pin1, &mut pin2);
    assert_eq!(pin1.mode(), PinMode::Analog);
    assert_eq!(pin2.mode(), PinMode::Analog);
    assert_eq!(peri.live_claims(), 2);
    assert!(dac.ch1().registers().en);
    assert!(dac.ch2().registers().en);
    assert!(!dac.ch1().registers().ten);
    assert!(!dac.ch2().registers().ten);
    assert_eq!(dac.ch1().read(), 0);
    assert_eq!(dac.ch2().read(), 0);
}

#[test]
fn channels_are_destroyed_independently() {
    let mut peri = Peripheral::new();
    let (ch1, ch2) = dac(&mut peri).split();
    assert!(peri.is_enabled());
    ch1.release(&mut peri);
    assert!(peri.is_enabled());
    assert_eq!(peri.live_claims(), 1);
    ch2.release(&mut peri);
    assert!(!peri.is_enabled());
    assert_eq!(peri.live_claims(), 0);
}

#[test]
fn channels_are_destroyed_in_the_other_order() {
    let mut peri = Peripheral::new();
    let (ch1, ch2) = dac(&mut peri).split();
    ch2.release(&mut peri);
    assert!(peri.is_enabled());
    ch1.release(&mut peri);
    assert!(!peri.is_enabled());
}

#[test]
fn dual_write_updates_both_outputs() {
    let mut peri = Peripheral::new();
    let mut dac = dac(&mut peri);
    dac.set(DualValue::Bit8(11, 22));
    assert_eq!(dac.ch1().read(), 11);
    assert_eq!(dac.ch2().read(), 22);
    dac.set(DualValue::Bit12Right(4000, 5000));
    assert_eq!(dac.ch1().read(), 4000);
    assert_eq!(dac.ch2().read(), 904);
    dac.set(DualValue::Bit12Left(0xf001, 2));
    assert_eq!(dac.ch1().read(), 1);
    assert_eq!(dac.ch2().read(), 2);
}

#[test]
fn dual_write_goes_to_the_registers_of_its_encoding() {
    let mut peri = Peripheral::new();
    let mut dac = dac(&mut peri);
    dac.set(DualValue::Bit12Left(7, 8));
    assert_eq!(
        dac.ch1().registers().holding,
        Holding { register: HoldingRegister::Left12, data: 7 }
    );
    assert_eq!(
        dac.ch2().registers().holding,
        Holding { register: HoldingRegister::Left12, data: 8 }
    );
    dac.set(DualValue::Bit8(1, 2));
    assert_eq!(dac.ch1().registers().holding.register, HoldingRegister::Right8);
    assert_eq!(dac.ch2().registers().holding.register, HoldingRegister::Right8);
}

#[test]
fn dual_write_is_gated_per_channel() {
    let mut peri = Peripheral::new();
    let mut dac = dac(&mut peri);
    dac.set(DualValue::Bit8(1, 2));
    dac.ch2().set_triggering(true);
    dac.set(DualValue::Bit8(3, 4));
    assert_eq!(dac.ch1().read(), 3);
    assert_eq!(dac.ch2().read(), 2);
    dac.ch2().trigger();
    assert_eq!(dac.ch2().read(), 4);
    assert_eq!(dac.ch1().read(), 3);
}

#[test]
fn borrowed_channel_changes_stay_after_the_borrow() {
    let mut peri = Peripheral::new();
    let mut dac = dac(&mut peri);
    dac.ch1().set(Value::Bit8(9));
    dac.ch1().disable();
    assert_eq!(dac.ch1().read(), 9);
    assert!(!dac.ch1().registers().en);
    assert!(dac.ch2().registers().en);
    assert_eq!(dac.ch2().read(), 0);
}

#[test]
fn split_hands_out_the_channels_as_they_are() {
    let mut peri = Peripheral::new();
    let mut dac = dac(&mut peri);
    dac.set(DualValue::Bit8(100, 200));
    dac.ch2().disable();
    let (mut ch1, ch2) = dac.split();
    assert_eq!(ch1.read(), 100);
    assert_eq!(ch2.read(), 200);
    assert!(ch1.registers().en);
    assert!(!ch2.registers().en);
    ch1.set(Value::Bit8(1));
    assert_eq!(ch1.read(), 1);
    assert_eq!(ch2.read(), 200);
}
