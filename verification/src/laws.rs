//! What holds of the converter whatever it is asked to do, proved from the
//! register model.

use vstd::prelude::*;
use crate::dma::{stream_run, stream_step, Progress, Transfer};
use crate::peripheral::{claimed, clocked, released};
use crate::registers::{dual_written, ChannelRegs, ControlUpdate, TriggerSel};
use crate::value::{low12, DualValue, Value};

verus! {

/// The low twelve bits of a word are the word modulo 4096; a word that
/// fits in twelve bits is kept as it is.
pub proof fn lemma_low12(v: u16)
    ensures
        low12(v) == v % 4096,
        low12(v) <= 0x0fff,
        v <= 0x0fff ==> low12(v) == v,
{
    assert(v & 0x0fff == v % 4096) by (bit_vector);
}

/// Truncation: a 12-bit value is stored as its low twelve bits, in either
/// alignment, however large the word is that carries it.
pub proof fn law_truncation(regs: ChannelRegs, v: u16)
    ensures
        regs.written(Value::Bit12Left(v)).holding.data == v % 4096,
        regs.written(Value::Bit12Right(v)).holding.data == v % 4096,
        !regs.ten ==> regs.written(Value::Bit12Left(v)).dor == v % 4096,
        !regs.ten ==> regs.written(Value::Bit12Right(v)).dor == v % 4096,
{
    lemma_low12(v);
}

/// The data registers never hold more than their width: the registers are
/// well-formed after a reset, and every write, trigger and change of the
/// control fields keeps them so.
pub proof fn law_codes_fit(regs: ChannelRegs, value: Value, update: ControlUpdate)
    requires
        regs.wf(),
    ensures
        ChannelRegs::reset().wf(),
        regs.written(value).wf(),
        regs.triggered().wf(),
        regs.modified(update).wf(),
{
    match value {
        Value::Bit8(v) => {},
        Value::Bit12Left(v) => {
            lemma_low12(v);
        },
        Value::Bit12Right(v) => {
            lemma_low12(v);
        },
    }
}

/// Immediate output: while triggering is off, a written value is at the
/// output at once.
pub proof fn law_immediate_output(regs: ChannelRegs, value: Value)
    requires
        !regs.ten,
    ensures
        regs.written(value).dor == value.code(),
{
}

/// Gated output: while triggering is on, a written value is held back and
/// the output stays as it was, also across changes of the enable bit and of
/// the trigger source; a software trigger then brings the held value to the
/// output if the software trigger is the selected source, and changes
/// nothing if it is not.
pub proof fn law_gated_output(regs: ChannelRegs, value: Value, update: ControlUpdate)
    requires
        regs.ten,
    ensures
        regs.written(value).dor == regs.dor,
        regs.written(value).holding.data == value.code(),
        regs.written(value).modified(update).dor == regs.dor,
        regs.tsel == TriggerSel::Software ==> regs.written(value).triggered().dor == value.code(),
        regs.tsel != TriggerSel::Software ==> regs.written(value).triggered() == regs.written(
            value,
        ),
{
}

/// A software trigger changes nothing while triggering is off.
pub proof fn law_trigger_needs_triggering(regs: ChannelRegs)
    requires
        !regs.ten,
    ensures
        regs.triggered() == regs,
{
}

/// Selecting a trigger source leaves the channel disabled whatever state it
/// was in, and doing it again changes nothing more; only enabling the channel
/// brings the output back, and that keeps the selected source.
pub proof fn law_set_trigger_disables(regs: ChannelRegs, source: TriggerSel)
    ensures
        !regs.modified(ControlUpdate::TriggerSource(source)).en,
        regs.modified(ControlUpdate::TriggerSource(source)).tsel == source,
        regs.modified(ControlUpdate::TriggerSource(source)).modified(
            ControlUpdate::TriggerSource(source),
        ) == regs.modified(ControlUpdate::TriggerSource(source)),
        regs.modified(ControlUpdate::TriggerSource(source)).modified(
            ControlUpdate::Enable(true),
        ).en,
        regs.modified(ControlUpdate::TriggerSource(source)).modified(
            ControlUpdate::Enable(true),
        ).tsel == source,
{
}

/// Changes of the control fields are idempotent, and gating writes by the
/// trigger does not touch the enable bit.
pub proof fn law_control_updates(regs: ChannelRegs, update: ControlUpdate, on: bool)
    ensures
        regs.modified(update).modified(update) == regs.modified(update),
        regs.modified(ControlUpdate::Triggering(on)).en == regs.en,
        regs.modified(update).holding == regs.holding,
        regs.modified(update).dor == regs.dor,
{
}

/// A dual write loads both channels in one step: afterwards each holding
/// register has its own new value, and with triggering off on both channels
/// both outputs have changed together.
pub proof fn law_dual_write(ch1: ChannelRegs, ch2: ChannelRegs, values: DualValue)
    ensures
        dual_written(ch1, ch2, values).0.holding.data == values.first().code(),
        dual_written(ch1, ch2, values).1.holding.data == values.second().code(),
        values.first().register() == values.second().register(),
        !ch1.ten ==> dual_written(ch1, ch2, values).0.dor == values.first().code(),
        !ch2.ten ==> dual_written(ch1, ch2, values).1.dor == values.second().code(),
        ch1.ten ==> dual_written(ch1, ch2, values).0.dor == ch1.dor,
        ch2.ten ==> dual_written(ch1, ch2, values).1.dor == ch2.dor,
{
}

/// A streaming write never touches the control fields before it completes,
/// and it keeps describing the same transfer.
pub proof fn lemma_stream_run_keeps_control<'a>(
    regs: ChannelRegs,
    transfer: Transfer<'a>,
    steps: nat,
)
    requires
        transfer.wf(),
        transfer.options.circular || steps <= transfer.len() - transfer.moved,
    ensures
        stream_run(regs, transfer, steps).1.wf(),
        stream_run(regs, transfer, steps).1.source == transfer.source,
        stream_run(regs, transfer, steps).1.options == transfer.options,
        stream_run(regs, transfer, steps).1.destination == transfer.destination,
        stream_run(regs, transfer, steps).1.request == transfer.request,
        stream_run(regs, transfer, steps).0.en == regs.en,
        stream_run(regs, transfer, steps).0.dmaen == regs.dmaen,
        stream_run(regs, transfer, steps).0.ten == regs.ten,
        stream_run(regs, transfer, steps).0.tsel == regs.tsel,
        !transfer.options.circular ==> stream_run(regs, transfer, steps).1.moved == transfer.moved
            + steps,
    decreases steps,
{
    if steps > 0 {
        lemma_stream_run_keeps_control(regs, transfer, (steps - 1) as nat);
    }
}

/// A streaming write that is not circular, over a buffer of N samples,
/// stays pending until exactly N samples were moved, and completes at the
/// step after that, which leaves both the enable and the DMA request enable
/// bit cleared.
pub proof fn law_stream_completes<'a>(regs: ChannelRegs, transfer: Transfer<'a>, steps: nat)
    requires
        transfer.wf(),
        !transfer.options.circular,
        transfer.moved == 0,
        steps <= transfer.len(),
    ensures
        stream_run(regs, transfer, steps).1.moved == steps,
        stream_run(regs, transfer, steps).0.en == regs.en,
        stream_run(regs, transfer, steps).0.dmaen == regs.dmaen,
        steps < transfer.len() ==> stream_step(
            stream_run(regs, transfer, steps).0,
            stream_run(regs, transfer, steps).1,
        ).2 == Progress::Pending,
        steps == transfer.len() ==> stream_step(
            stream_run(regs, transfer, steps).0,
            stream_run(regs, transfer, steps).1,
        ).2 == Progress::Complete,
        steps == transfer.len() ==> !stream_step(
            stream_run(regs, transfer, steps).0,
            stream_run(regs, transfer, steps).1,
        ).0.en,
        steps == transfer.len() ==> !stream_step(
            stream_run(regs, transfer, steps).0,
            stream_run(regs, transfer, steps).1,
        ).0.dmaen,
        steps == transfer.len() ==> stream_step(
            stream_run(regs, transfer, steps).0,
            stream_run(regs, transfer, steps).1,
        ).1.moved == transfer.len(),
{
    lemma_stream_run_keeps_control(regs, transfer, steps);
}

/// A circular streaming write does not complete on its own: every step,
/// however many came before, leaves it pending, with the enable and the DMA
/// request enable bit as they were.
pub proof fn law_stream_circular_runs_on<'a>(regs: ChannelRegs, transfer: Transfer<'a>, steps: nat)
    requires
        transfer.wf(),
        transfer.options.circular,
    ensures
        stream_step(
            stream_run(regs, transfer, steps).0,
            stream_run(regs, transfer, steps).1,
        ).2 == Progress::Pending,
        stream_run(regs, transfer, steps).0.en == regs.en,
        stream_run(regs, transfer, steps).0.dmaen == regs.dmaen,
        stream_run(regs, transfer, steps).1.options.circular,
{
    lemma_stream_run_keeps_control(regs, transfer, steps);
}

/// While triggering is off, the output follows a streaming write sample by
/// sample: after each step that moved a sample, it shows that sample.
pub proof fn law_stream_output<'a>(regs: ChannelRegs, transfer: Transfer<'a>, steps: nat)
    requires
        transfer.wf(),
        !transfer.options.circular,
        transfer.moved == 0,
        !regs.ten,
        0 < steps <= transfer.len(),
    ensures
        stream_run(regs, transfer, steps).0.dor == transfer.source.samples()[steps - 1].code(),
{
    lemma_stream_run_keeps_control(regs, transfer, (steps - 1) as nat);
}

/// Two channels made together hold two claims on the clock; destroying one
/// leaves the converter clocked, destroying the other gives back what was
/// claimed, and if nothing else held a claim the clock is then off.
pub proof fn law_claims_are_counted(claims: nat)
    ensures
        clocked(claimed(claimed(claims))),
        clocked(released(claimed(claimed(claims)))),
        released(released(claimed(claimed(claims)))) == claims,
        claims == 0 ==> !clocked(released(released(claimed(claimed(claims))))),
{
}

} // verus!
