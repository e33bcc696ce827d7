//! End-to-end scenarios: one instruction (or a short sequence) stepped on a
//! fresh machine, registers zero, F = 0, SP and memory as stated.

use gb_cpu::bus::Bus;
use gb_cpu::cpu::Cpu;
use gb_cpu::state::{V8, V16};

fn boot(bytes: &[(u16, u8)]) -> Cpu {
    let mut bus = Bus::default();
    for &(addr, b) in bytes {
        bus.write_mem(addr, b);
    }
    Cpu::new(bus)
}

#[test]
fn ld_bc_imm16() {
    let mut cpu = boot(&[(0, 0x01), (1, 0x34), (2, 0x12)]);
    let cycles = cpu.step().unwrap();
    assert_eq!(cpu.r(V16::BC), 0x1234);
    assert_eq!(cpu.r(V16::PC), 3);
    assert_eq!(cpu.r(V8::F), 0);
    assert_eq!(cycles, 6);
}

#[test]
fn add_a_b_half_carry() {
    let mut cpu = boot(&[(0, 0x80)]);
    cpu.w(V8::A, 0x0F);
    cpu.w(V8::B, 0x01);
    cpu.step().unwrap();
    assert_eq!(cpu.r(V8::A), 0x10);
    assert_eq!(cpu.r(V16::PC), 1);
    // Z = 0, N = 0, H = 1, C = 0
    assert_eq!(cpu.r(V8::F), 0x20);
}

#[test]
fn sub_a_b_borrow() {
    let mut cpu = boot(&[(0, 0x90)]);
    cpu.w(V8::A, 0x10);
    cpu.w(V8::B, 0x01);
    cpu.step().unwrap();
    assert_eq!(cpu.r(V8::A), 0x0F);
    // Z = 0, N = 1, H = 1, C = 0
    assert_eq!(cpu.r(V8::F), 0x60);
}

#[test]
fn cp_a_b_equal() {
    let mut cpu = boot(&[(0, 0xB8)]);
    cpu.w(V8::A, 0x42);
    cpu.w(V8::B, 0x42);
    cpu.step().unwrap();
    assert_eq!(cpu.r(V8::A), 0x42);
    // Z = 1, N = 1, H = 0, C = 0
    assert_eq!(cpu.r(V8::F), 0xC0);
}

#[test]
fn jr_nz_taken() {
    let mut cpu = boot(&[(0x100, 0x20), (0x101, 0x05)]);
    cpu.w(V16::PC, 0x100);
    cpu.step().unwrap();
    assert_eq!(cpu.r(V16::PC), 0x107);
}

#[test]
fn call_then_ret() {
    let mut cpu = boot(&[(0x100, 0xCD), (0x101, 0x34), (0x102, 0x12), (0x1234, 0xC9)]);
    cpu.w(V16::PC, 0x100);
    cpu.w(V16::SP, 0xFFFE);
    cpu.step().unwrap();
    assert_eq!(cpu.r(V16::PC), 0x1234);
    assert_eq!(cpu.r(V16::SP), 0xFFFC);
    assert_eq!(cpu.fetch_mem(0xFFFC), 0x03);
    assert_eq!(cpu.fetch_mem(0xFFFD), 0x01);
    cpu.step().unwrap();
    assert_eq!(cpu.r(V16::PC), 0x0103);
    assert_eq!(cpu.r(V16::SP), 0xFFFE);
}
