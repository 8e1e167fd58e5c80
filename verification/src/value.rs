//! Sample encodings accepted by the converter: one sample, a pair of samples
//! for both channels, and a borrowed buffer of samples for streaming.

use vstd::prelude::*;
use vstd::slice::slice_index_get;

verus! {

/// The data-holding register a sample is written to. Each one takes a sample
/// of its own width and alignment.
#[derive(Debug, Copy, Clone, PartialEq, Eq, Structural)]
pub enum HoldingRegister {
    /// 8 bit, right-aligned
    Right8,
    /// 12 bit, left-aligned
    Left12,
    /// 12 bit, right-aligned
    Right12,
}

/// Single 8 or 12 bit value that can be output by the converter.
///
/// 12-bit values outside the permitted range are silently truncated.
#[derive(Debug, Copy, Clone, PartialEq, Eq, Structural)]
pub enum Value {
    /// 8 bit value
    Bit8(u8),
    /// 12 bit value stored in a u16, left-aligned
    Bit12Left(u16),
    /// 12 bit value stored in a u16, right-aligned
    Bit12Right(u16),
}

/// Dual 8 or 12 bit values that can be output by channels 1 and 2
/// simultaneously.
///
/// 12-bit values outside the permitted range are silently truncated.
#[derive(Debug, Copy, Clone, PartialEq, Eq, Structural)]
pub enum DualValue {
    /// 8 bit value
    Bit8(u8, u8),
    /// 12 bit value stored in a u16, left-aligned
    Bit12Left(u16, u16),
    /// 12 bit value stored in a u16, right-aligned
    Bit12Right(u16, u16),
}

/// Array variant of [`Value`]: a borrowed buffer of samples that all share one
/// encoding.
#[derive(Debug, Copy, Clone, PartialEq, Eq)]
pub enum ValueArray<'a> {
    /// 8 bit values
    Bit8(&'a [u8]),
    /// 12 bit value stored in a u16, left-aligned
    Bit12Left(&'a [u16]),
    /// 12 bit values stored in a u16, right-aligned
    Bit12Right(&'a [u16]),
}

/// The low twelve bits of `v`: what a 12-bit data-holding register keeps of a
/// 16-bit word.
pub open spec fn low12(v: u16) -> u16 {
    v & 0x0fff
}

impl HoldingRegister {
    /// The largest code the register can hold.
    pub open spec fn max_code(self) -> u16 {
        match self {
            HoldingRegister::Right8 => 0x00ff,
            HoldingRegister::Left12 => 0x0fff,
            HoldingRegister::Right12 => 0x0fff,
        }
    }
}

impl Value {
    /// The data-holding register that takes this value.
    pub open spec fn register(self) -> HoldingRegister {
        match self {
            Value::Bit8(_) => HoldingRegister::Right8,
            Value::Bit12Left(_) => HoldingRegister::Left12,
            Value::Bit12Right(_) => HoldingRegister::Right12,
        }
    }

    /// The code the hardware stores for this value: an 8-bit sample as it
    /// is, a 12-bit sample cut down to its low twelve bits.
    pub open spec fn code(self) -> u16 {
        match self {
            Value::Bit8(v) => v as u16,
            Value::Bit12Left(v) => low12(v),
            Value::Bit12Right(v) => low12(v),
        }
    }
}

impl DualValue {
    /// The value meant for channel 1.
    pub open spec fn first(self) -> Value {
        match self {
            DualValue::Bit8(v1, _) => Value::Bit8(v1),
            DualValue::Bit12Left(v1, _) => Value::Bit12Left(v1),
            DualValue::Bit12Right(v1, _) => Value::Bit12Right(v1),
        }
    }

    /// The value meant for channel 2.
    pub open spec fn second(self) -> Value {
        match self {
            DualValue::Bit8(_, v2) => Value::Bit8(v2),
            DualValue::Bit12Left(_, v2) => Value::Bit12Left(v2),
            DualValue::Bit12Right(_, v2) => Value::Bit12Right(v2),
        }
    }
}

impl<'a> ValueArray<'a> {
    /// The data-holding register that takes the samples of this buffer.
    pub open spec fn register(self) -> HoldingRegister {
        match self {
            ValueArray::Bit8(_) => HoldingRegister::Right8,
            ValueArray::Bit12Left(_) => HoldingRegister::Left12,
            ValueArray::Bit12Right(_) => HoldingRegister::Right12,
        }
    }

    /// The buffer as a sequence of single values.
    pub open spec fn samples(self) -> Seq<Value> {
        match self {
            ValueArray::Bit8(buf) => Seq::new(buf@.len(), |i: int| Value::Bit8(buf@[i])),
            ValueArray::Bit12Left(buf) => Seq::new(buf@.len(), |i: int| Value::Bit12Left(buf@[i])),
            ValueArray::Bit12Right(buf) => Seq::new(
                buf@.len(),
                |i: int| Value::Bit12Right(buf@[i]),
            ),
        }
    }

    /// Number of samples in the buffer.
    pub fn len(&self) -> (n: usize)
        ensures
            n == self.samples().len(),
    {
        match self {
            ValueArray::Bit8(buf) => buf.len(),
            ValueArray::Bit12Left(buf) => buf.len(),
            ValueArray::Bit12Right(buf) => buf.len(),
        }
    }

    /// The sample at position `i`.
    pub fn sample(&self, i: usize) -> (value: Value)
        requires
            i < self.samples().len(),
        ensures
            value == self.samples()[i as int],
    {
        match self {
            ValueArray::Bit8(buf) => Value::Bit8(*slice_index_get(buf, i)),
            ValueArray::Bit12Left(buf) => Value::Bit12Left(*slice_index_get(buf, i)),
            ValueArray::Bit12Right(buf) => Value::Bit12Right(*slice_index_get(buf, i)),
        }
    }
}

} // verus!
