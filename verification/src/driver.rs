//! The driver: a single channel, and the pair of channels of one converter.
//!
//! A channel owns the register subset of its index and, if it was given one,
//! a DMA binding. Changes of its control fields are read-modify-writes made
//! inside a critical section, so that an interrupt handler that touches the
//! same register cannot tear them.

use core::marker::PhantomData;
use vstd::prelude::*;
use crate::dma::{stream_step, DmaChannel, NoDma, Progress, Transfer, TransferOptions, WriteTarget};
use crate::peripheral::{claimed, released, DacPin, Instance, MAX_CLAIMS};
use crate::registers::{
    dual_written,
    write_dhr12ld,
    write_dhr12rd,
    write_dhr8rd,
    ChannelRegs,
    ControlUpdate,
    TriggerSel,
};
use crate::value::{DualValue, Value, ValueArray};

verus! {

/// Driver for a single converter channel.
///
/// If you want to use both channels, either together or independently,
/// create a [`Dac`] first and use it to access each channel.
pub struct DacChannel<T: Instance, const N: u8, DMA = NoDma> {
    phantom: PhantomData<T>,
    regs: ChannelRegs,
    dma: DMA,
}

/// Channel 1 type alias.
pub type DacCh1<T, DMA = NoDma> = DacChannel<T, 1, DMA>;

/// Channel 2 type alias.
pub type DacCh2<T, DMA = NoDma> = DacChannel<T, 2, DMA>;

/// Run one read-modify-write of a channel's control fields inside a critical
/// section.
///
/// Calls `critical_section::with`, which acquires the critical section, calls
/// the closure once, releases the critical section and returns what the
/// closure returned. The contract claims that the registers afterwards are
/// those that [`ChannelRegs::modify`] leaves.
#[verifier::external_body]
fn modify_in_critical_section(regs: &mut ChannelRegs, update: ControlUpdate)
    ensures
        *final(regs) == old(regs).modified(update),
{
    critical_section::with(|_| regs.modify(update))
}

impl<T: Instance, const N: u8, DMA> View for DacChannel<T, N, DMA> {
    type V = ChannelRegs;

    /// The channel's registers.
    closed spec fn view(&self) -> ChannelRegs {
        self.regs
    }
}

impl<T: Instance, const N: u8, DMA> DacChannel<T, N, DMA> {
    /// The channel's DMA binding.
    pub closed spec fn dma(&self) -> DMA {
        self.dma
    }

    /// Create a new `DacChannel` instance, claiming the converter's clock.
    ///
    /// If you're not using DMA, pass [`NoDma`] for the `dma` argument.
    ///
    /// The channel is enabled on creation and begins to drive the output pin.
    /// Note that `set_trigger()` will disable the channel; you must re-enable
    /// it with `enable()`.
    ///
    /// By default, triggering is disabled, but it can be enabled using
    /// [`DacChannel::set_triggering()`].
    pub fn new<P: DacPin<T, N>>(peri: &mut T, dma: DMA, pin: &mut P) -> (dac: Self)
        requires
            old(peri).claims() + 1 <= MAX_CLAIMS,
        ensures
            final(pin).is_analog(),
            final(peri).claims() == claimed(old(peri).claims()),
            dac@ == ChannelRegs::reset().modified(ControlUpdate::Enable(true)),
            dac.dma() == dma,
    {
        pin.set_as_analog();
        peri.enable_and_reset();
        let mut dac = Self { phantom: PhantomData, regs: ChannelRegs::at_reset(), dma };
        dac.enable();
        dac
    }

    /// Destroy the channel, giving its claim on the converter's clock back.
    pub fn release(self, peri: &mut T)
        ensures
            final(peri).claims() == released(old(peri).claims()),
    {
        peri.disable();
    }

    /// Enable or disable this channel.
    pub fn set_enable(&mut self, on: bool)
        ensures
            final(self)@ == old(self)@.modified(ControlUpdate::Enable(on)),
            final(self).dma() == old(self).dma(),
    {
        modify_in_critical_section(&mut self.regs, ControlUpdate::Enable(on));
    }

    /// Enable this channel.
    pub fn enable(&mut self)
        ensures
            final(self)@ == old(self)@.modified(ControlUpdate::Enable(true)),
            final(self).dma() == old(self).dma(),
    {
        self.set_enable(true)
    }

    /// Disable this channel.
    pub fn disable(&mut self)
        ensures
            final(self)@ == old(self)@.modified(ControlUpdate::Enable(false)),
            final(self).dma() == old(self).dma(),
    {
        self.set_enable(false)
    }

    /// Set the trigger source for this channel.
    ///
    /// This method disables the channel, so you may need to re-enable afterwards.
    pub fn set_trigger(&mut self, source: TriggerSel)
        ensures
            final(self)@ == old(self)@.modified(ControlUpdate::TriggerSource(source)),
            !final(self)@.en,
            final(self).dma() == old(self).dma(),
    {
        modify_in_critical_section(&mut self.regs, ControlUpdate::TriggerSource(source));
    }

    /// Enable or disable triggering for this channel.
    pub fn set_triggering(&mut self, on: bool)
        ensures
            final(self)@ == old(self)@.modified(ControlUpdate::Triggering(on)),
            final(self)@.en == old(self)@.en,
            final(self).dma() == old(self).dma(),
    {
        modify_in_critical_section(&mut self.regs, ControlUpdate::Triggering(on));
    }

    /// Software trigger this channel.
    pub fn trigger(&mut self)
        ensures
            final(self)@ == old(self)@.triggered(),
            final(self).dma() == old(self).dma(),
    {
        self.regs.write_swtrig();
    }

    /// Write a new value to this channel.
    ///
    /// If triggering is not enabled, the new value is immediately output; otherwise,
    /// it will be output after the next trigger.
    pub fn set(&mut self, value: Value)
        ensures
            final(self)@ == old(self)@.written(value),
            final(self).dma() == old(self).dma(),
    {
        match value {
            Value::Bit8(v) => self.regs.write_dhr8r(v),
            Value::Bit12Left(v) => self.regs.write_dhr12l(v),
            Value::Bit12Right(v) => self.regs.write_dhr12r(v),
        }
    }

    /// A copy of the channel's registers as they stand.
    pub fn registers(&self) -> (regs: ChannelRegs)
        ensures
            regs == self@,
    {
        self.regs
    }

    /// Read the current output value of the channel.
    pub fn read(&self) -> (code: u16)
        ensures
            code == self@.dor,
    {
        self.regs.read_dor()
    }
}

impl<T: Instance, const N: u8> DacChannel<T, N, DmaChannel> {
    /// Begin to write `data` to this channel via DMA.
    ///
    /// Enables the channel and its DMA requests, and describes the transfer
    /// for the DMA engine to run: from `data` to the data-holding register of
    /// this channel that takes its encoding.
    ///
    /// To prevent delays or glitches when outputting a periodic waveform, the
    /// `circular` flag can be set. This describes a circular transfer that
    /// continually outputs `data`. Note that for performance reasons in
    /// circular mode the transfer-complete interrupt is disabled.
    pub fn start_write<'a>(&mut self, data: ValueArray<'a>, circular: bool) -> (transfer: Transfer<
        'a,
    >)
        ensures
            final(self)@ == old(self)@.modified(ControlUpdate::Streaming(true)),
            final(self).dma() == old(self).dma(),
            transfer == (Transfer {
                request: old(self).dma().request,
                source: data,
                destination: WriteTarget { register: data.register(), channel: N },
                options: TransferOptions::streaming(circular),
                moved: 0,
            }),
            transfer.wf(),
    {
        self.regs.modify(ControlUpdate::Streaming(true));
        Transfer::new(self.dma.request(), data, N, circular)
    }

    /// Follow a running transfer by one step: either the next DMA request
    /// is served and its sample written to this channel, or the transfer has
    /// ended and the channel is switched off.
    pub fn advance_write(&mut self, transfer: &mut Transfer<'_>) -> (progress: Progress)
        requires
            old(transfer).wf(),
        ensures
            (final(self)@, *final(transfer), progress) == stream_step(old(self)@, *old(transfer)),
            final(transfer).wf(),
            final(self).dma() == old(self).dma(),
    {
        match transfer.next() {
            Some(sample) => {
                self.set(sample);
                Progress::Pending
            },
            None => {
                if transfer.options.circular {
                    Progress::Pending
                } else {
                    self.finish_write();
                    Progress::Complete
                }
            },
        }
    }

    /// End a streaming write whose transfer has completed: disables the
    /// channel and its DMA requests.
    pub fn finish_write(&mut self)
        ensures
            final(self)@ == old(self)@.modified(ControlUpdate::Streaming(false)),
            final(self).dma() == old(self).dma(),
    {
        self.regs.modify(ControlUpdate::Streaming(false));
    }
}

/// Converter driver.
///
/// Use this struct when you want to use both channels, either together or
/// independently.
pub struct Dac<T: Instance, DMACh1 = NoDma, DMACh2 = NoDma> {
    ch1: DacCh1<T, DMACh1>,
    ch2: DacCh2<T, DMACh2>,
}

impl<T: Instance, DMACh1, DMACh2> Dac<T, DMACh1, DMACh2> {
    /// The two channels.
    pub closed spec fn channels(&self) -> (DacCh1<T, DMACh1>, DacCh2<T, DMACh2>) {
        (self.ch1, self.ch2)
    }

    /// Create a new `Dac` instance, claiming the converter's clock once for
    /// each channel.
    ///
    /// This struct allows you to access both channels of the converter. You
    /// can either call `split()` to obtain separate `DacChannel`s, or use
    /// methods on `Dac` to use the two channels together.
    ///
    /// The channels are enabled on creation and begin to drive their output
    /// pins. Note that `set_trigger()` will disable a channel; you must
    /// re-enable it with `enable()`.
    ///
    /// By default, triggering is disabled, but it can be enabled using the
    /// `set_triggering()` method on the underlying channels.
    pub fn new<P1: DacPin<T, 1>, P2: DacPin<T, 2>>(
        peri: &mut T,
        dma_ch1: DMACh1,
        dma_ch2: DMACh2,
        pin_ch1: &mut P1,
        pin_ch2: &mut P2,
    ) -> (dac: Self)
        requires
            old(peri).claims() + 2 <= MAX_CLAIMS,
        ensures
            final(pin_ch1).is_analog(),
            final(pin_ch2).is_analog(),
            final(peri).claims() == claimed(claimed(old(peri).claims())),
            dac.channels().0@ == ChannelRegs::reset().modified(ControlUpdate::Enable(true)),
            dac.channels().1@ == ChannelRegs::reset().modified(ControlUpdate::Enable(true)),
            dac.channels().0.dma() == dma_ch1,
            dac.channels().1.dma() == dma_ch2,
    {
        pin_ch1.set_as_analog();
        pin_ch2.set_as_analog();

        // Enable twice to increment the reference count for each channel.
        peri.enable_and_reset();
        peri.enable_and_reset();

        let mut ch1 = DacCh1 { phantom: PhantomData, regs: ChannelRegs::at_reset(), dma: dma_ch1 };
        ch1.enable();

        let mut ch2 = DacCh2 { phantom: PhantomData, regs: ChannelRegs::at_reset(), dma: dma_ch2 };
        ch2.enable();

        Self { ch1, ch2 }
    }

    /// Split this `Dac` into separate channels.
    ///
    /// You can access and move the channels around separately after splitting.
    pub fn split(self) -> (channels: (DacCh1<T, DMACh1>, DacCh2<T, DMACh2>))
        ensures
            channels == self.channels(),
    {
        (self.ch1, self.ch2)
    }

    /// Temporarily access channel 1.
    pub fn ch1(&mut self) -> (ch: &mut DacCh1<T, DMACh1>)
        ensures
            *ch == old(self).channels().0,
            final(self).channels() == (*final(ch), old(self).channels().1),
    {
        &mut self.ch1
    }

    /// Temporarily access channel 2.
    pub fn ch2(&mut self) -> (ch: &mut DacCh2<T, DMACh2>)
        ensures
            *ch == old(self).channels().1,
            final(self).channels() == (old(self).channels().0, *final(ch)),
    {
        &mut self.ch2
    }

    /// Simultaneously update channels 1 and 2 with a new value.
    ///
    /// If triggering is not enabled, the new values are immediately output;
    /// otherwise, they will be output after the next trigger.
    pub fn set(&mut self, values: DualValue)
        ensures
            (final(self).channels().0@, final(self).channels().1@) == dual_written(
                old(self).channels().0@,
                old(self).channels().1@,
                values,
            ),
            final(self).channels().0.dma() == old(self).channels().0.dma(),
            final(self).channels().1.dma() == old(self).channels().1.dma(),
    {
        match values {
            DualValue::Bit8(v1, v2) => write_dhr8rd(&mut self.ch1.regs, &mut self.ch2.regs, v1, v2),
            DualValue::Bit12Left(v1, v2) => write_dhr12ld(
                &mut self.ch1.regs,
                &mut self.ch2.regs,
                v1,
                v2,
            ),
            DualValue::Bit12Right(v1, v2) => write_dhr12rd(
                &mut self.ch1.regs,
                &mut self.ch2.regs,
                v1,
                v2,
            ),
        }
    }
}

} // verus!
