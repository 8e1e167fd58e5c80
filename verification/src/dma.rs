//! Streaming a buffer of samples to a channel by DMA: the capability a
//! channel is bound to, the description of one transfer, and how far a
//! transfer has come.

use vstd::prelude::*;
use crate::registers::{ChannelRegs, ControlUpdate};
use crate::value::{HoldingRegister, Value, ValueArray};

verus! {

/// The binding of a channel that cannot stream.
#[derive(Debug, Copy, Clone, PartialEq, Eq, Structural)]
pub struct NoDma;

/// The binding of a channel that can stream: a DMA channel, with the request
/// line that connects it to the converter.
#[derive(Debug, Copy, Clone, PartialEq, Eq, Structural)]
pub struct DmaChannel {
    pub request: u8,
}

impl DmaChannel {
    /// A DMA channel on the given request line.
    pub fn new(request: u8) -> (dma: DmaChannel)
        ensures
            dma.request == request,
    {
        DmaChannel { request }
    }

    /// The request line of this channel.
    pub fn request(&self) -> (request: u8)
        ensures
            request == self.request,
    {
        self.request
    }
}

/// How the DMA engine runs a transfer.
#[derive(Debug, Copy, Clone, PartialEq, Eq, Structural)]
pub struct TransferOptions {
    /// Start again from the first sample after the last one.
    pub circular: bool,
    /// Raise an interrupt when half of the buffer was moved.
    pub half_transfer_ir: bool,
    /// Raise an interrupt when the whole buffer was moved.
    pub complete_transfer_ir: bool,
}

impl TransferOptions {
    /// The options of a streaming write: the half-transfer interrupt is
    /// never used, and the completion interrupt only where the transfer ends.
    pub open spec fn streaming(circular: bool) -> TransferOptions {
        TransferOptions { circular, half_transfer_ir: false, complete_transfer_ir: !circular }
    }
}

/// Where a transfer writes to: a data-holding register of one channel.
#[derive(Debug, Copy, Clone, PartialEq, Eq, Structural)]
pub struct WriteTarget {
    pub register: HoldingRegister,
    pub channel: u8,
}

/// Whether a streaming write has come to its end.
#[derive(Debug, Copy, Clone, PartialEq, Eq, Structural)]
pub enum Progress {
    /// The transfer is still running.
    Pending,
    /// Every sample was moved and the channel was switched off.
    Complete,
}

/// One DMA transfer from a buffer of samples to a data-holding register,
/// together with its progress.
#[derive(Debug, Copy, Clone)]
pub struct Transfer<'a> {
    /// Request line the transfer is paced by.
    pub request: u8,
    /// The buffer the samples are read from.
    pub source: ValueArray<'a>,
    /// The register the samples are written to.
    pub destination: WriteTarget,
    /// Transfer options.
    pub options: TransferOptions,
    /// Number of samples of the current pass over the buffer that were moved.
    pub moved: usize,
}

impl<'a> Transfer<'a> {
    /// Number of samples in the buffer.
    pub open spec fn len(self) -> nat {
        self.source.samples().len()
    }

    /// The transfer writes where its samples belong and has not run past its
    /// buffer, whose length fits in a machine word; a circular one is back at
    /// the start once a pass is done.
    pub open spec fn wf(self) -> bool {
        &&& self.destination.register == self.source.register()
        &&& self.len() <= usize::MAX
        &&& self.moved <= self.len()
        &&& self.options.circular && self.len() > 0 ==> self.moved < self.len()
    }

    /// Whether a sample is left to move in the current pass.
    pub open spec fn has_next(self) -> bool {
        self.moved < self.len()
    }

    /// The sample the next DMA request moves, if the current pass has one
    /// left.
    pub open spec fn next_sample(self) -> Option<Value> {
        if self.has_next() {
            Some(self.source.samples()[self.moved as int])
        } else {
            None
        }
    }

    /// The transfer after the next DMA request was served: one more sample
    /// is moved, and a circular transfer starts its next pass after the last
    /// sample. With no sample left nothing changes.
    pub open spec fn advanced(self) -> Transfer<'a> {
        if !self.has_next() {
            self
        } else if self.options.circular && self.moved + 1 == self.len() {
            Transfer { moved: 0, ..self }
        } else {
            Transfer { moved: (self.moved + 1) as usize, ..self }
        }
    }

    /// Describe a streaming write of `source` to channel `channel`, with
    /// nothing moved yet.
    pub fn new(request: u8, source: ValueArray<'a>, channel: u8, circular: bool) -> (transfer:
        Transfer<'a>)
        ensures
            transfer.request == request,
            transfer.source == source,
            transfer.destination == (WriteTarget { register: source.register(), channel }),
            transfer.options == TransferOptions::streaming(circular),
            transfer.moved == 0,
            transfer.wf(),
    {
        let register = match source {
            ValueArray::Bit8(_) => HoldingRegister::Right8,
            ValueArray::Bit12Left(_) => HoldingRegister::Left12,
            ValueArray::Bit12Right(_) => HoldingRegister::Right12,
        };
        let options = TransferOptions {
            circular,
            half_transfer_ir: false,
            complete_transfer_ir: !circular,
        };
        let transfer = Transfer {
            request,
            source,
            destination: WriteTarget { register, channel },
            options,
            moved: 0,
        };
        let len = source.len();
        assert(transfer.len() == len);
        transfer
    }

    /// Serve one DMA request: take the next sample to move, if the current
    /// pass has one left.
    pub fn next(&mut self) -> (sample: Option<Value>)
        requires
            old(self).wf(),
        ensures
            sample == old(self).next_sample(),
            *final(self) == old(self).advanced(),
            final(self).wf(),
    {
        let len = self.source.len();
        if self.moved < len {
            let value = self.source.sample(self.moved);
            if self.options.circular && self.moved + 1 == len {
                self.moved = 0;
            } else {
                self.moved = self.moved + 1;
            }
            Some(value)
        } else {
            None
        }
    }
}

/// A channel's registers, the transfer that feeds it, and what the driver
/// reports, after one step of a streaming write.
///
/// While the current pass has a sample left, the next DMA request writes it
/// to the channel and the write stays pending. Once a transfer that is not
/// circular has moved all of its samples, the write completes: the output
/// enable and DMA request enable bits are cleared. A circular transfer never
/// gets there.
pub open spec fn stream_step<'a>(regs: ChannelRegs, transfer: Transfer<'a>) -> (
    ChannelRegs,
    Transfer<'a>,
    Progress,
) {
    match transfer.next_sample() {
        Some(sample) => (regs.written(sample), transfer.advanced(), Progress::Pending),
        None => if transfer.options.circular {
            (regs, transfer, Progress::Pending)
        } else {
            (regs.modified(ControlUpdate::Streaming(false)), transfer, Progress::Complete)
        },
    }
}

/// Registers and transfer after `steps` steps of a streaming write.
pub open spec fn stream_run<'a>(regs: ChannelRegs, transfer: Transfer<'a>, steps: nat) -> (
    ChannelRegs,
    Transfer<'a>,
)
    decreases steps,
{
    if steps == 0 {
        (regs, transfer)
    } else {
        let before = stream_run(regs, transfer, (steps - 1) as nat);
        let after = stream_step(before.0, before.1);
        (after.0, after.1)
    }
}

} // verus!
