//! The memory bus: a flat, byte-addressable 16-bit address space, plus the
//! one-way draw-signal side channel to an external display consumer.
//!
//! The bus owns the 64 KiB RAM image, zero-initialised, and is total over
//! every 16-bit address: no read or write can fail. Draw signals are sent
//! best-effort over a non-blocking channel and are silently discarded when
//! no consumer is attached or the consumer is gone; the CPU never blocks on
//! the sink.

use vstd::prelude::*;
use crate::state::MEM_SIZE;

verus! {

/// A one-way message to the display: draw one pixel at `(x, y)` in one of
/// the four palette colors `0..=3`.
#[derive(Clone, Copy, Debug)]
pub enum DrawSignal {
    DrawPixel(u16, u16, u8),
}

#[verifier::external_type_specification]
#[verifier::external_body]
#[verifier::reject_recursive_types(T)]
pub struct ExSender<T>(std::sync::mpsc::Sender<T>);

/// Relies on std::sync::mpsc::Sender::send: a non-blocking send over an
/// asynchronous channel; the error returned when the receiver is gone is
/// discarded, so the call never fails and never suspends the caller.
#[verifier::external_body]
fn channel_send(sender: &std::sync::mpsc::Sender<DrawSignal>, signal: DrawSignal) {
    let _ = sender.send(signal);
}

/// One byte fetched as an instruction opcode, tagged to discourage
/// accidental arithmetic on it.
#[derive(Clone, Copy, Debug, PartialEq, Eq, Structural)]
pub struct OpCode(pub u8);

/// The memory bus: the RAM image and the optional draw-signal sink.
pub struct Bus {
    ram: Vec<u8>,
    gpu_sender: Option<std::sync::mpsc::Sender<DrawSignal>>,
}

impl Bus {
    /// The mathematical contents of the RAM image.
    pub closed spec fn view(&self) -> Seq<u8> {
        self.ram@
    }

    /// The RAM image covers the whole address space.
    pub open spec fn wf(&self) -> bool {
        self@.len() == MEM_SIZE
    }

    /// Attach a draw-signal sink; the RAM image is untouched.
    pub fn with_gpu(self, gpu_sender: std::sync::mpsc::Sender<DrawSignal>) -> (r: Self)
        ensures
            r@ == self@,
            r.wf() == self.wf(),
    {
        Bus { ram: self.ram, gpu_sender: Some(gpu_sender) }
    }

    /// Read one byte from the RAM image. Total: no 16-bit address can fail.
    pub fn fetch(&self, index: u16) -> (r: u8)
        requires
            self.wf(),
        ensures
            r == self@[index as int],
    {
        self.ram[index as usize]
    }

    /// Overwrite one byte of the RAM image. Total over all 16-bit addresses.
    pub fn write_mem(&mut self, addr: u16, content: u8)
        requires
            old(self).wf(),
        ensures
            final(self).wf(),
            final(self)@ == old(self)@.update(addr as int, content),
    {
        self.ram.set(addr as usize, content);
    }

    /// Forward a draw event to the sink, if one is attached. Best effort:
    /// a missing or closed sink discards the signal.
    pub fn send_gpu_signal(&self, signal: DrawSignal) {
        match &self.gpu_sender {
            Some(sender) => channel_send(sender, signal),
            None => {},
        }
    }

    /// Read one byte and tag it as an opcode.
    pub fn fetch_op(&self, index: u16) -> (r: OpCode)
        requires
            self.wf(),
        ensures
            r.0 == self@[index as int],
    {
        OpCode(self.fetch(index))
    }
}

impl Default for Bus {
    /// A bus with no sink attached and memory zero-initialised.
    fn default() -> (r: Bus)
        ensures
            r.wf(),
            forall|i: int| 0 <= i < MEM_SIZE ==> r@[i] == 0u8,
    {
        Bus { ram: vec![0u8; MEM_SIZE], gpu_sender: None }
    }
}

} // verus!
