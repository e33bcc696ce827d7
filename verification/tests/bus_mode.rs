//! The bus, the draw-signal side channel, the CPU modes, the error
//! taxonomy, and the cycle accounting discipline.

use gb_cpu::bus::{Bus, DrawSignal, OpCode};
use gb_cpu::cpu::{Cpu, CpuMode};
use gb_cpu::debugger::Debugger;
use gb_cpu::instruction::CpuError;
use gb_cpu::state::{V8, V16};
use std::sync::mpsc;

fn boot(bytes: &[(u16, u8)]) -> Cpu {
    let mut bus = Bus::default();
    for &(addr, b) in bytes {
        bus.write_mem(addr, b);
    }
    Cpu::new(bus)
}

#[test]
fn memory_starts_zeroed() {
    let bus = Bus::default();
    assert_eq!(bus.fetch(0), 0);
    assert_eq!(bus.fetch(0xFFFF), 0);
}

#[test]
fn write_then_fetch_op() {
    let mut bus = Bus::default();
    bus.write_mem(0x1234, 0xC3);
    assert_eq!(bus.fetch(0x1234), 0xC3);
    let OpCode(b) = bus.fetch_op(0x1234);
    assert_eq!(b, 0xC3);
}

#[test]
fn draw_signal_reaches_attached_sink() {
    let (tx, rx) = mpsc::channel();
    let bus = Bus::default().with_gpu(tx);
    bus.send_gpu_signal(DrawSignal::DrawPixel(7, 9, 2));
    let DrawSignal::DrawPixel(x, y, color) = rx.try_recv().unwrap();
    assert_eq!((x, y, color), (7, 9, 2));
}

#[test]
fn draw_signal_discarded_without_sink() {
    let bus = Bus::default();
    bus.send_gpu_signal(DrawSignal::DrawPixel(0, 0, 0));
}

#[test]
fn draw_signal_discarded_when_receiver_gone() {
    let (tx, rx) = mpsc::channel::<DrawSignal>();
    drop(rx);
    let bus = Bus::default().with_gpu(tx);
    bus.send_gpu_signal(DrawSignal::DrawPixel(1, 1, 1));
}

#[test]
fn non_run_modes_are_noops() {
    let mut cpu = boot(&[(0, 0xC3), (1, 0x34), (2, 0x12)]);
    cpu.set_mode(CpuMode::Halt);
    assert_eq!(cpu.step(), Ok(0));
    assert_eq!(cpu.r(V16::PC), 0);
    cpu.set_mode(CpuMode::Shutdown);
    assert_eq!(cpu.step(), Ok(0));
    cpu.set_mode(CpuMode::DebugGpu);
    assert_eq!(cpu.step(), Ok(0));
    cpu.set_mode(CpuMode::Run);
    cpu.step().unwrap();
    assert_eq!(cpu.r(V16::PC), 0x1234);
}

#[test]
fn two_byte_prefix_is_typed_failure() {
    let mut cpu = boot(&[(0, 0xCB)]);
    assert_eq!(cpu.step(), Err(CpuError::UnimplementedOpcode(0xCB)));
    assert_eq!(cpu.r(V16::PC), 0);
}

#[test]
fn halt_is_typed_failure() {
    let mut cpu = boot(&[(0, 0x76)]);
    assert_eq!(cpu.step(), Err(CpuError::UnimplementedOpcode(0x76)));
}

#[test]
fn interrupt_opcodes_are_typed_failures() {
    for op in [0xF3u8, 0xFB, 0xD9, 0xE8, 0xF8, 0xF9] {
        let mut cpu = boot(&[(0, op)]);
        assert_eq!(cpu.step(), Err(CpuError::UnimplementedOpcode(op)));
    }
}

#[test]
fn illegal_byte_is_decoder_gap() {
    let mut cpu = boot(&[(0, 0xD3)]);
    assert_eq!(cpu.step(), Err(CpuError::DecoderGap(0xD3)));
    assert_eq!(cpu.r(V16::PC), 0);
}

#[test]
fn cycle_counts_follow_accesses() {
    // NOP: program-counter read, opcode fetch, program-counter write.
    let mut cpu = boot(&[(0, 0x00)]);
    assert_eq!(cpu.step(), Ok(3));
    // ADD A,B: two register reads, four flag-group writes, one register
    // write, plus the step frame of three.
    let mut cpu = boot(&[(0, 0x80)]);
    assert_eq!(cpu.step(), Ok(10));
    // PUSH BC: pair read, stack-pointer read, two memory writes, one
    // stack-pointer write, plus the frame.
    let mut cpu = boot(&[(0, 0xC5)]);
    cpu.w(V16::SP, 0xFFFE);
    assert_eq!(cpu.step(), Ok(8));
}

#[test]
fn cycle_counts_reproducible() {
    let run = || {
        let mut cpu = boot(&[(0, 0x3E), (1, 0x07), (2, 0x87)]);
        cpu.step().unwrap() + cpu.step().unwrap()
    };
    assert_eq!(run(), run());
}

#[test]
fn raw_memory_writes() {
    let mut cpu = boot(&[]);
    cpu.write_mem16_raw(0x10, 7);
    assert_eq!(cpu.fetch_mem(0x10), 7);
    cpu.w(V16::HL, 0x4000);
    cpu.w(V8::A, 0x2A);
    cpu.write_mem8(V16::HL, V8::A);
    assert_eq!(cpu.fetch_mem(0x4000), 0x2A);
}

#[test]
fn debugger_defaults_on() {
    let dbg = Debugger::default();
    assert!(dbg.show_gui);
    assert!(dbg.init_cpu);
}
