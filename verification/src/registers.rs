//! The registers of one converter channel, and what the hardware does when
//! they are written.
//!
//! A channel has four control fields (output enable, trigger enable, trigger
//! source, DMA request enable), a data-holding register that takes a sample
//! in one of three encodings, and a data-output register that shows the
//! sample being converted. A sample written to the holding register moves to
//! the output at once while triggering is off, and on the next trigger while
//! it is on.

use vstd::prelude::*;
use crate::value::{DualValue, HoldingRegister, Value};

verus! {

/// The event that moves a held sample to the output while triggering is on.
#[derive(Debug, Copy, Clone, PartialEq, Eq, Structural)]
pub enum TriggerSel {
    /// The software trigger, raised by writing the software-trigger register.
    Software,
    /// The update event of the timer with this number.
    Timer(u8),
    /// The external interrupt line with this number.
    External(u8),
}

/// What the data-holding register holds: the sample code, and the encoding it
/// was written in.
#[derive(Debug, Copy, Clone, PartialEq, Eq, Structural)]
pub struct Holding {
    pub register: HoldingRegister,
    pub data: u16,
}

/// One read-modify-write of a channel's control fields.
#[derive(Debug, Copy, Clone, PartialEq, Eq, Structural)]
pub enum ControlUpdate {
    /// Set the output enable bit.
    Enable(bool),
    /// Clear the output enable bit and select the trigger source.
    TriggerSource(TriggerSel),
    /// Set the trigger enable bit.
    Triggering(bool),
    /// Set the output enable bit and the DMA request enable bit together.
    Streaming(bool),
}

/// The register subset of one channel.
#[derive(Debug, Copy, Clone, PartialEq, Eq, Structural)]
pub struct ChannelRegs {
    /// Output enable.
    pub en: bool,
    /// Trigger enable: writes wait for a trigger before they reach the output.
    pub ten: bool,
    /// Trigger source.
    pub tsel: TriggerSel,
    /// DMA request enable.
    pub dmaen: bool,
    /// Data-holding register.
    pub holding: Holding,
    /// Data-output register.
    pub dor: u16,
}

impl ChannelRegs {
    /// The registers after a reset: everything off, the software trigger
    /// selected, both data registers zero.
    pub open spec fn reset() -> ChannelRegs {
        ChannelRegs {
            en: false,
            ten: false,
            tsel: TriggerSel::Software,
            dmaen: false,
            holding: Holding { register: HoldingRegister::Right12, data: 0 },
            dor: 0,
        }
    }

    /// The data registers hold nothing wider than they are: the holding
    /// register a code of the width of its encoding, the output register a
    /// code of twelve bits.
    pub open spec fn wf(self) -> bool {
        &&& self.holding.data <= self.holding.register.max_code()
        &&& self.dor <= 0x0fff
    }

    /// The registers after one read-modify-write of the control fields.
    pub open spec fn modified(self, update: ControlUpdate) -> ChannelRegs {
        match update {
            ControlUpdate::Enable(on) => ChannelRegs { en: on, ..self },
            ControlUpdate::TriggerSource(source) => ChannelRegs { en: false, tsel: source, ..self },
            ControlUpdate::Triggering(on) => ChannelRegs { ten: on, ..self },
            ControlUpdate::Streaming(on) => ChannelRegs { en: on, dmaen: on, ..self },
        }
    }

    /// The registers after `data` was stored in the holding register through
    /// `register`: the output follows at once unless triggering is on.
    pub open spec fn loaded(self, register: HoldingRegister, data: u16) -> ChannelRegs {
        ChannelRegs {
            holding: Holding { register, data },
            dor: if self.ten {
                self.dor
            } else {
                data
            },
            ..self
        }
    }

    /// The registers after `value` was written to its data-holding register.
    pub open spec fn written(self, value: Value) -> ChannelRegs {
        self.loaded(value.register(), value.code())
    }

    /// The registers after a software trigger: the held sample reaches the
    /// output if triggering is on and the software trigger is the source;
    /// otherwise nothing changes.
    pub open spec fn triggered(self) -> ChannelRegs {
        if self.ten && self.tsel == TriggerSel::Software {
            ChannelRegs { dor: self.holding.data, ..self }
        } else {
            self
        }
    }

    /// The registers in their reset state.
    pub fn at_reset() -> (regs: ChannelRegs)
        ensures
            regs == ChannelRegs::reset(),
    {
        ChannelRegs {
            en: false,
            ten: false,
            tsel: TriggerSel::Software,
            dmaen: false,
            holding: Holding { register: HoldingRegister::Right12, data: 0 },
            dor: 0,
        }
    }

    /// Read-modify-write of the control fields.
    pub fn modify(&mut self, update: ControlUpdate)
        ensures
            *final(self) == old(self).modified(update),
    {
        match update {
            ControlUpdate::Enable(on) => {
                self.en = on;
            },
            ControlUpdate::TriggerSource(source) => {
                self.en = false;
                self.tsel = source;
            },
            ControlUpdate::Triggering(on) => {
                self.ten = on;
            },
            ControlUpdate::Streaming(on) => {
                self.en = on;
                self.dmaen = on;
            },
        }
    }

    /// Write to the 8-bit right-aligned data-holding register.
    pub fn write_dhr8r(&mut self, v: u8)
        ensures
            *final(self) == old(self).written(Value::Bit8(v)),
    {
        self.load(HoldingRegister::Right8, v as u16);
    }

    /// Write to the 12-bit left-aligned data-holding register. The register
    /// keeps the low twelve bits of `v`.
    pub fn write_dhr12l(&mut self, v: u16)
        ensures
            *final(self) == old(self).written(Value::Bit12Left(v)),
    {
        self.load(HoldingRegister::Left12, v & 0x0fff);
    }

    /// Write to the 12-bit right-aligned data-holding register. The register
    /// keeps the low twelve bits of `v`.
    pub fn write_dhr12r(&mut self, v: u16)
        ensures
            *final(self) == old(self).written(Value::Bit12Right(v)),
    {
        self.load(HoldingRegister::Right12, v & 0x0fff);
    }

    /// Write the channel's bit of the software-trigger register.
    pub fn write_swtrig(&mut self)
        ensures
            *final(self) == old(self).triggered(),
    {
        let by_software = match self.tsel {
            TriggerSel::Software => true,
            _ => false,
        };
        if self.ten && by_software {
            self.dor = self.holding.data;
        }
    }

    /// Read the data-output register.
    pub fn read_dor(&self) -> (code: u16)
        ensures
            code == self.dor,
    {
        self.dor
    }

    fn load(&mut self, register: HoldingRegister, data: u16)
        ensures
            *final(self) == old(self).loaded(register, data),
    {
        self.holding = Holding { register, data };
        if !self.ten {
            self.dor = data;
        }
    }
}

/// The registers of both channels after one write of `values` to the dual
/// data-holding register of their encoding.
pub open spec fn dual_written(ch1: ChannelRegs, ch2: ChannelRegs, values: DualValue) -> (
    ChannelRegs,
    ChannelRegs,
) {
    (ch1.written(values.first()), ch2.written(values.second()))
}

/// Write to the dual 8-bit right-aligned data-holding register: one write
/// that loads both channels.
pub fn write_dhr8rd(ch1: &mut ChannelRegs, ch2: &mut ChannelRegs, v1: u8, v2: u8)
    ensures
        (*final(ch1), *final(ch2)) == dual_written(*old(ch1), *old(ch2), DualValue::Bit8(v1, v2)),
{
    ch1.write_dhr8r(v1);
    ch2.write_dhr8r(v2);
}

/// Write to the dual 12-bit left-aligned data-holding register: one write
/// that loads both channels.
pub fn write_dhr12ld(ch1: &mut ChannelRegs, ch2: &mut ChannelRegs, v1: u16, v2: u16)
    ensures
        (*final(ch1), *final(ch2)) == dual_written(
            *old(ch1),
            *old(ch2),
            DualValue::Bit12Left(v1, v2),
        ),
{
    ch1.write_dhr12l(v1);
    ch2.write_dhr12l(v2);
}

/// Write to the dual 12-bit right-aligned data-holding register: one write
/// that loads both channels.
pub fn write_dhr12rd(ch1: &mut ChannelRegs, ch2: &mut ChannelRegs, v1: u16, v2: u16)
    ensures
        (*final(ch1), *final(ch2)) == dual_written(
            *old(ch1),
            *old(ch2),
            DualValue::Bit12Right(v1, v2),
        ),
{
    ch1.write_dhr12r(v1);
    ch2.write_dhr12r(v2);
}

} // verus!
