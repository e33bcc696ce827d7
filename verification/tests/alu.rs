//! The arithmetic and logic families: exact results and exact flag bytes.
//! Flag byte layout: Z = 0x80, N = 0x40, H = 0x20, C = 0x10.

use gb_cpu::bus::Bus;
use gb_cpu::cpu::Cpu;
use gb_cpu::state::{V8, V16};

fn boot(bytes: &[(u16, u8)]) -> Cpu {
    let mut bus = Bus::default();
    for &(addr, b) in bytes {
        bus.write_mem(addr, b);
    }
    Cpu::new(bus)
}

#[test]
fn adc_includes_carry_in() {
    let mut cpu = boot(&[(0, 0x88)]);
    cpu.w(V8::A, 0xFF);
    cpu.w(V8::B, 0x00);
    cpu.w(V8::F, 0x10);
    cpu.step().unwrap();
    assert_eq!(cpu.r(V8::A), 0x00);
    // Z = 1, N = 0, H = 1, C = 1
    assert_eq!(cpu.r(V8::F), 0xB0);
}

#[test]
fn sbc_includes_borrow_in() {
    let mut cpu = boot(&[(0, 0x98)]);
    cpu.w(V8::A, 0x10);
    cpu.w(V8::B, 0x00);
    cpu.w(V8::F, 0x10);
    cpu.step().unwrap();
    assert_eq!(cpu.r(V8::A), 0x0F);
    // Z = 0, N = 1, H = 1, C = 0
    assert_eq!(cpu.r(V8::F), 0x60);
}

#[test]
fn add_mem_hl() {
    let mut cpu = boot(&[(0, 0x86), (0x2000, 0x22)]);
    cpu.w(V8::A, 0x11);
    cpu.w(V16::HL, 0x2000);
    cpu.step().unwrap();
    assert_eq!(cpu.r(V8::A), 0x33);
    assert_eq!(cpu.r(V8::F), 0x00);
}

#[test]
fn and_imm() {
    let mut cpu = boot(&[(0, 0xE6), (1, 0x0F)]);
    cpu.w(V8::A, 0x3C);
    cpu.step().unwrap();
    assert_eq!(cpu.r(V8::A), 0x0C);
    assert_eq!(cpu.r(V8::F), 0x20);
    assert_eq!(cpu.r(V16::PC), 2);
}

#[test]
fn or_imm_zero() {
    let mut cpu = boot(&[(0, 0xF6), (1, 0x00)]);
    cpu.step().unwrap();
    assert_eq!(cpu.r(V8::A), 0x00);
    assert_eq!(cpu.r(V8::F), 0x80);
}

#[test]
fn xor_imm() {
    let mut cpu = boot(&[(0, 0xEE), (1, 0xFF)]);
    cpu.w(V8::A, 0xF0);
    cpu.step().unwrap();
    assert_eq!(cpu.r(V8::A), 0x0F);
    assert_eq!(cpu.r(V8::F), 0x00);
}

#[test]
fn cp_imm_borrow() {
    let mut cpu = boot(&[(0, 0xFE), (1, 0x50)]);
    cpu.w(V8::A, 0x40);
    cpu.step().unwrap();
    assert_eq!(cpu.r(V8::A), 0x40);
    // Z = 0, N = 1, H = 0, C = 1
    assert_eq!(cpu.r(V8::F), 0x50);
}

#[test]
fn rlca_carries_bit7() {
    let mut cpu = boot(&[(0, 0x07)]);
    cpu.w(V8::A, 0x85);
    cpu.step().unwrap();
    assert_eq!(cpu.r(V8::A), 0x0B);
    assert_eq!(cpu.r(V8::F), 0x10);
}

#[test]
fn rla_shifts_left() {
    let mut cpu = boot(&[(0, 0x17)]);
    cpu.w(V8::A, 0x85);
    cpu.step().unwrap();
    assert_eq!(cpu.r(V8::A), 0x0A);
    assert_eq!(cpu.r(V8::F), 0x10);
}

#[test]
fn rrca_carries_bit0() {
    let mut cpu = boot(&[(0, 0x0F)]);
    cpu.w(V8::A, 0x01);
    cpu.step().unwrap();
    assert_eq!(cpu.r(V8::A), 0x80);
    assert_eq!(cpu.r(V8::F), 0x10);
}

#[test]
fn rra_shifts_right() {
    let mut cpu = boot(&[(0, 0x1F)]);
    cpu.w(V8::A, 0x01);
    cpu.step().unwrap();
    assert_eq!(cpu.r(V8::A), 0x00);
    assert_eq!(cpu.r(V8::F), 0x10);
}

#[test]
fn daa_adjusts_low_nibble_on_half_carry() {
    let mut cpu = boot(&[(0, 0x27)]);
    cpu.w(V8::A, 0x00);
    cpu.w(V8::F, 0x20);
    cpu.step().unwrap();
    assert_eq!(cpu.r(V8::A), 0x06);
    assert_eq!(cpu.r(V8::F), 0x00);
}

#[test]
fn daa_adjusts_high_nibble_on_carry() {
    let mut cpu = boot(&[(0, 0x27)]);
    cpu.w(V8::A, 0x00);
    cpu.w(V8::F, 0x10);
    cpu.step().unwrap();
    assert_eq!(cpu.r(V8::A), 0x60);
    assert_eq!(cpu.r(V8::F), 0x00);
}

#[test]
fn add16_hl_half_carry_bit11() {
    let mut cpu = boot(&[(0, 0x09)]);
    cpu.w(V16::HL, 0x0FFF);
    cpu.w(V16::BC, 0x0001);
    cpu.step().unwrap();
    assert_eq!(cpu.r(V16::HL), 0x1000);
    assert_eq!(cpu.r(V8::F), 0x20);
}

#[test]
fn add16_hl_carry_keeps_zero_flag() {
    let mut cpu = boot(&[(0, 0x39)]);
    cpu.w(V16::HL, 0x8000);
    cpu.w(V16::SP, 0x8000);
    cpu.w(V8::F, 0x80);
    cpu.step().unwrap();
    assert_eq!(cpu.r(V16::HL), 0x0000);
    // Z kept, C from bit 15, H clear, N clear
    assert_eq!(cpu.r(V8::F), 0x90);
}

#[test]
fn inc16_wraps_without_flags() {
    let mut cpu = boot(&[(0, 0x03)]);
    cpu.w(V16::BC, 0xFFFF);
    cpu.w(V8::F, 0xF0);
    cpu.step().unwrap();
    assert_eq!(cpu.r(V16::BC), 0x0000);
    assert_eq!(cpu.r(V8::F), 0xF0);
}

#[test]
fn dec16_wraps_without_flags() {
    let mut cpu = boot(&[(0, 0x0B)]);
    cpu.w(V8::F, 0x50);
    cpu.step().unwrap();
    assert_eq!(cpu.r(V16::BC), 0xFFFF);
    assert_eq!(cpu.r(V8::F), 0x50);
}

#[test]
fn inc_mem_hl_keeps_carry() {
    let mut cpu = boot(&[(0, 0x34), (0x2000, 0xFF)]);
    cpu.w(V16::HL, 0x2000);
    cpu.w(V8::F, 0x10);
    cpu.step().unwrap();
    assert_eq!(cpu.fetch_mem(0x2000), 0x00);
    // Z = 1, N = 0, H = 1, C kept
    assert_eq!(cpu.r(V8::F), 0xB0);
}

#[test]
fn dec_mem_hl_half_borrow() {
    let mut cpu = boot(&[(0, 0x35), (0x2000, 0x10)]);
    cpu.w(V16::HL, 0x2000);
    cpu.step().unwrap();
    assert_eq!(cpu.fetch_mem(0x2000), 0x0F);
    assert_eq!(cpu.r(V8::F), 0x60);
}

#[test]
fn cpl_sets_n_and_h_only() {
    let mut cpu = boot(&[(0, 0x2F)]);
    cpu.w(V8::A, 0x35);
    cpu.w(V8::F, 0x90);
    cpu.step().unwrap();
    assert_eq!(cpu.r(V8::A), 0xCA);
    // Z and C kept, N and H forced on
    assert_eq!(cpu.r(V8::F), 0xF0);
}

#[test]
fn scf_keeps_zero() {
    let mut cpu = boot(&[(0, 0x37)]);
    cpu.w(V8::F, 0x80);
    cpu.step().unwrap();
    assert_eq!(cpu.r(V8::F), 0x90);
}

#[test]
fn ccf_flips_carry() {
    let mut cpu = boot(&[(0, 0x3F), (1, 0x3F)]);
    cpu.w(V8::F, 0x10);
    cpu.step().unwrap();
    assert_eq!(cpu.r(V8::F), 0x00);
    cpu.step().unwrap();
    assert_eq!(cpu.r(V8::F), 0x10);
}

#[test]
fn sub_writes_result_to_a() {
    let mut cpu = boot(&[(0, 0xD6), (1, 0x01)]);
    cpu.w(V8::A, 0x00);
    cpu.step().unwrap();
    assert_eq!(cpu.r(V8::A), 0xFF);
    // Z = 0, N = 1, H = 1, C = 1
    assert_eq!(cpu.r(V8::F), 0x70);
}
