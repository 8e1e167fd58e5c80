use dac_driver::dma::NoDma;
use dac_driver::driver::DacChannel;
use dac_driver::peripheral::{DacPin, Instance, OutputPin, Peripheral, PinMode};
use dac_driver::registers::{ChannelRegs, Holding, TriggerSel};
use dac_driver::value::{HoldingRegister, Value};

type Channel1 = DacChannel<Peripheral, 1, NoDma>;

fn channel(peri: &mut Peripheral) -> Channel1 {
    let mut pin = OutputPin::<1>::new();
    DacChannel::new(peri, NoDma, &mut pin)
}

#[test]
fn new_channel_is_enabled_with_triggering_off() {
    let mut peri = Peripheral::new();
    let mut pin = OutputPin::<1>::new();
    assert_eq!(pin.mode(), PinMode::Input);
    let ch: Channel1 = DacChannel::new(&mut peri, NoDma, &mut pin);
    assert_eq!(pin.mode(), PinMode::Analog);
    assert_eq!(peri.live_claims(), 1);
    assert!(peri.is_enabled());
    assert_eq!(
        ch.registers(),
        ChannelRegs {
            en: true,
            ten: false,
            tsel: TriggerSel::Software,
            dmaen: false,
            holding: Holding { register: HoldingRegister::Right12, data: 0 },
            dor: 0,
        }
    );
    assert_eq!(ch.read(), 0);
}

#[test]
fn new_channel_2_takes_its_own_pin() {
    let mut peri = Peripheral::new();
    let mut pin = OutputPin::<2>::new();
    let ch: DacChannel<Peripheral, 2, NoDma> = DacChannel::new(&mut peri, NoDma, &mut pin);
    assert_eq!(pin.mode(), PinMode::Analog);
    assert!(ch.registers().en);
}

#[test]
fn set_as_analog_switches_the_pin() {
    let mut pin = OutputPin::<1>::new();
    <OutputPin<1> as DacPin<Peripheral, 1>>::set_as_analog(&mut pin);
    assert_eq!(pin.mode(), PinMode::Analog);
}

#[test]
fn bit8_write_with_triggering_off_is_read_back() {
    let mut peri = Peripheral::new();
    let mut ch = channel(&mut peri);
    ch.set(Value::Bit8(200));
    assert_eq!(ch.read(), 200);
}

#[test]
fn gated_write_waits_for_the_trigger() {
    let mut peri = Peripheral::new();
    let mut ch = channel(&mut peri);
    let before = ch.read();
    ch.set_triggering(true);
    ch.set(Value::Bit8(10));
    assert_eq!(ch.read(), before);
    ch.trigger();
    assert_eq!(ch.read(), 10);
}

#[test]
fn gated_write_keeps_the_earlier_output() {
    let mut peri = Peripheral::new();
    let mut ch = channel(&mut peri);
    ch.set(Value::Bit12Right(1234));
    ch.set_triggering(true);
    ch.set(Value::Bit12Right(77));
    assert_eq!(ch.read(), 1234);
    assert_eq!(ch.registers().holding.data, 77);
    ch.set(Value::Bit12Right(78));
    assert_eq!(ch.read(), 1234);
    ch.trigger();
    assert_eq!(ch.read(), 78);
}

#[test]
fn write_goes_to_the_register_of_its_encoding() {
    let mut peri = Peripheral::new();
    let mut ch = channel(&mut peri);
    ch.set(Value::Bit8(255));
    assert_eq!(ch.registers().holding, Holding { register: HoldingRegister::Right8, data: 255 });
    ch.set(Value::Bit12Left(100));
    assert_eq!(ch.registers().holding, Holding { register: HoldingRegister::Left12, data: 100 });
    ch.set(Value::Bit12Right(4095));
    assert_eq!(ch.registers().holding, Holding { register: HoldingRegister::Right12, data: 4095 });
    assert_eq!(ch.read(), 4095);
}

#[test]
fn twelve_bit_values_are_truncated() {
    let mut peri = Peripheral::new();
    let mut ch = channel(&mut peri);
    ch.set(Value::Bit12Right(4096));
    assert_eq!(ch.read(), 0);
    ch.set(Value::Bit12Right(5000));
    assert_eq!(ch.read(), 904);
    assert_eq!(ch.registers().holding.data, 904);
    ch.set(Value::Bit12Left(0xffff));
    assert_eq!(ch.read(), 0x0fff);
    ch.set(Value::Bit12Left(0x1234));
    assert_eq!(ch.read(), 0x0234);
    ch.set(Value::Bit12Right(4095));
    assert_eq!(ch.read(), 4095);
}

#[test]
fn truncation_holds_for_every_word() {
    let mut peri = Peripheral::new();
    let mut ch = channel(&mut peri);
    let mut v: u32 = 0;
    while v <= 0xffff {
        let word = v as u16;
        ch.set(Value::Bit12Left(word));
        assert_eq!(ch.read(), word % 4096);
        ch.set(Value::Bit12Right(word));
        assert_eq!(ch.read(), word % 4096);
        v += 1;
    }
}

#[test]
fn set_enable_changes_the_enable_bit_only() {
    let mut peri = Peripheral::new();
    let mut ch = channel(&mut peri);
    ch.set(Value::Bit8(3));
    let before = ch.registers();
    ch.set_enable(false);
    assert_eq!(ch.registers(), ChannelRegs { en: false, ..before });
    ch.set_enable(false);
    assert_eq!(ch.registers(), ChannelRegs { en: false, ..before });
    ch.set_enable(true);
    assert_eq!(ch.registers(), before);
}

#[test]
fn enable_and_disable_are_idempotent() {
    let mut peri = Peripheral::new();
    let mut ch = channel(&mut peri);
    ch.disable();
    assert!(!ch.registers().en);
    ch.disable();
    assert!(!ch.registers().en);
    ch.enable();
    assert!(ch.registers().en);
    ch.enable();
    assert!(ch.registers().en);
}

#[test]
fn set_trigger_disables_an_enabled_channel() {
    let mut peri = Peripheral::new();
    let mut ch = channel(&mut peri);
    assert!(ch.registers().en);
    ch.set_trigger(TriggerSel::Timer(6));
    assert!(!ch.registers().en);
    assert_eq!(ch.registers().tsel, TriggerSel::Timer(6));
    ch.enable();
    assert!(ch.registers().en);
    assert_eq!(ch.registers().tsel, TriggerSel::Timer(6));
}

#[test]
fn set_trigger_leaves_a_disabled_channel_disabled() {
    let mut peri = Peripheral::new();
    let mut ch = channel(&mut peri);
    ch.disable();
    ch.set_trigger(TriggerSel::External(9));
    assert!(!ch.registers().en);
    assert_eq!(ch.registers().tsel, TriggerSel::External(9));
    ch.set_trigger(TriggerSel::Software);
    assert!(!ch.registers().en);
    assert_eq!(ch.registers().tsel, TriggerSel::Software);
}

#[test]
fn set_triggering_keeps_the_enable_bit() {
    let mut peri = Peripheral::new();
    let mut ch = channel(&mut peri);
    ch.set_triggering(true);
    assert!(ch.registers().ten);
    assert!(ch.registers().en);
    ch.disable();
    ch.set_triggering(false);
    assert!(!ch.registers().ten);
    assert!(!ch.registers().en);
}

#[test]
fn trigger_without_triggering_changes_nothing() {
    let mut peri = Peripheral::new();
    let mut ch = channel(&mut peri);
    ch.set(Value::Bit8(5));
    let before = ch.registers();
    ch.trigger();
    assert_eq!(ch.registers(), before);
}

#[test]
fn software_trigger_is_ignored_for_another_source() {
    let mut peri = Peripheral::new();
    let mut ch = channel(&mut peri);
    ch.set(Value::Bit8(5));
    ch.set_trigger(TriggerSel::Timer(2));
    ch.enable();
    ch.set_triggering(true);
    ch.set(Value::Bit8(9));
    ch.trigger();
    assert_eq!(ch.read(), 5);
    ch.set_trigger(TriggerSel::Software);
    ch.trigger();
    assert_eq!(ch.read(), 9);
}

#[test]
fn output_does_not_depend_on_the_enable_bit() {
    let mut peri = Peripheral::new();
    let mut ch = channel(&mut peri);
    ch.disable();
    ch.set(Value::Bit12Right(321));
    assert_eq!(ch.read(), 321);
}

#[test]
fn release_gives_the_claim_back() {
    let mut peri = Peripheral::new();
    let ch = channel(&mut peri);
    assert_eq!(peri.live_claims(), 1);
    ch.release(&mut peri);
    assert_eq!(peri.live_claims(), 0);
    assert!(!peri.is_enabled());
}

#[test]
fn peripheral_counts_its_claims() {
    let mut peri = Peripheral::new();
    assert!(!peri.is_enabled());
    assert!(peri.can_claim(1));
    assert!(peri.can_claim(0xffff_ffff));
    peri.disable();
    assert_eq!(peri.live_claims(), 0);
    peri.enable_and_reset();
    peri.enable_and_reset();
    peri.enable_and_reset();
    assert_eq!(peri.live_claims(), 3);
    peri.disable();
    assert_eq!(peri.live_claims(), 2);
    assert!(peri.is_enabled());
    assert!(peri.can_claim(0xffff_fffd));
    assert!(!peri.can_claim(0xffff_fffe));
}
