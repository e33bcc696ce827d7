//! Control flow and memory movement: jumps, calls, returns, restarts, and
//! the load/store families.

use gb_cpu::bus::Bus;
use gb_cpu::cpu::Cpu;
use gb_cpu::state::{V8, V16};

fn boot(bytes: &[(u16, u8)]) -> Cpu {
    let mut bus = Bus::default();
    for &(addr, b) in bytes {
        bus.write_mem(addr, b);
    }
    Cpu::new(bus)
}

#[test]
fn jr_backwards() {
    let mut cpu = boot(&[(0x100, 0x18), (0x101, 0xFE)]);
    cpu.w(V16::PC, 0x100);
    cpu.step().unwrap();
    assert_eq!(cpu.r(V16::PC), 0x100);
}

#[test]
fn jr_nz_not_taken() {
    let mut cpu = boot(&[(0, 0x20), (1, 0x05)]);
    cpu.w(V8::F, 0x80);
    cpu.step().unwrap();
    assert_eq!(cpu.r(V16::PC), 2);
}

#[test]
fn jr_c_taken() {
    let mut cpu = boot(&[(0, 0x38), (1, 0x10)]);
    cpu.w(V8::F, 0x10);
    cpu.step().unwrap();
    assert_eq!(cpu.r(V16::PC), 0x12);
}

#[test]
fn jp_absolute() {
    let mut cpu = boot(&[(0, 0xC3), (1, 0x34), (2, 0x12)]);
    let cycles = cpu.step().unwrap();
    assert_eq!(cpu.r(V16::PC), 0x1234);
    assert_eq!(cycles, 5);
}

#[test]
fn jp_hl() {
    let mut cpu = boot(&[(0, 0xE9)]);
    cpu.w(V16::HL, 0x4000);
    cpu.step().unwrap();
    assert_eq!(cpu.r(V16::PC), 0x4000);
}

#[test]
fn jp_z_not_taken_advances_three() {
    let mut cpu = boot(&[(0, 0xCA), (1, 0x34), (2, 0x12)]);
    cpu.step().unwrap();
    assert_eq!(cpu.r(V16::PC), 3);
}

#[test]
fn call_nc_not_taken_leaves_stack() {
    let mut cpu = boot(&[(0, 0xD4), (1, 0x34), (2, 0x12)]);
    cpu.w(V16::SP, 0xFFFE);
    cpu.w(V8::F, 0x10);
    cpu.step().unwrap();
    assert_eq!(cpu.r(V16::PC), 3);
    assert_eq!(cpu.r(V16::SP), 0xFFFE);
}

#[test]
fn call_z_taken_pushes_return() {
    let mut cpu = boot(&[(0x200, 0xCC), (0x201, 0x00), (0x202, 0x30)]);
    cpu.w(V16::PC, 0x200);
    cpu.w(V16::SP, 0xFFFE);
    cpu.w(V8::F, 0x80);
    cpu.step().unwrap();
    assert_eq!(cpu.r(V16::PC), 0x3000);
    assert_eq!(cpu.r(V16::SP), 0xFFFC);
    assert_eq!(cpu.fetch_mem(0xFFFC), 0x03);
    assert_eq!(cpu.fetch_mem(0xFFFD), 0x02);
}

#[test]
fn rst_pushes_next_address() {
    let mut cpu = boot(&[(0x200, 0xEF)]);
    cpu.w(V16::PC, 0x200);
    cpu.w(V16::SP, 0xFFFE);
    cpu.step().unwrap();
    assert_eq!(cpu.r(V16::PC), 0x28);
    assert_eq!(cpu.r(V16::SP), 0xFFFC);
    assert_eq!(cpu.fetch_mem(0xFFFC), 0x01);
    assert_eq!(cpu.fetch_mem(0xFFFD), 0x02);
}

#[test]
fn ret_nz_taken() {
    let mut cpu = boot(&[(0, 0xC0), (0x8000, 0x34), (0x8001, 0x12)]);
    cpu.w(V16::SP, 0x8000);
    cpu.step().unwrap();
    assert_eq!(cpu.r(V16::PC), 0x1234);
    assert_eq!(cpu.r(V16::SP), 0x8002);
}

#[test]
fn ret_nz_not_taken() {
    let mut cpu = boot(&[(0, 0xC0)]);
    cpu.w(V16::SP, 0x8000);
    cpu.w(V8::F, 0x80);
    cpu.step().unwrap();
    assert_eq!(cpu.r(V16::PC), 1);
    assert_eq!(cpu.r(V16::SP), 0x8000);
}

#[test]
fn ld_sp_imm16() {
    let mut cpu = boot(&[(0, 0x31), (1, 0xFE), (2, 0xFF)]);
    cpu.step().unwrap();
    assert_eq!(cpu.r(V16::SP), 0xFFFE);
    assert_eq!(cpu.r(V16::PC), 3);
}

#[test]
fn store_sp_to_memory() {
    let mut cpu = boot(&[(0, 0x08), (1, 0x00), (2, 0x20)]);
    cpu.w(V16::SP, 0xBEEF);
    cpu.step().unwrap();
    assert_eq!(cpu.fetch_mem(0x2000), 0xEF);
    assert_eq!(cpu.fetch_mem(0x2001), 0xBE);
    assert_eq!(cpu.r(V16::PC), 3);
}

#[test]
fn store_hl_incr() {
    let mut cpu = boot(&[(0, 0x22)]);
    cpu.w(V16::HL, 0x1234);
    cpu.w(V8::A, 0xAB);
    cpu.step().unwrap();
    assert_eq!(cpu.fetch_mem(0x1234), 0xAB);
    assert_eq!(cpu.r(V16::HL), 0x1235);
}

#[test]
fn load_hl_decr() {
    let mut cpu = boot(&[(0, 0x3A), (0x1234, 0x55)]);
    cpu.w(V16::HL, 0x1234);
    cpu.step().unwrap();
    assert_eq!(cpu.r(V8::A), 0x55);
    assert_eq!(cpu.r(V16::HL), 0x1233);
}

#[test]
fn ld_a_imm8() {
    let mut cpu = boot(&[(0, 0x3E), (1, 0x77)]);
    cpu.step().unwrap();
    assert_eq!(cpu.r(V8::A), 0x77);
    assert_eq!(cpu.r(V16::PC), 2);
}

#[test]
fn ld_b_a() {
    let mut cpu = boot(&[(0, 0x47)]);
    cpu.w(V8::A, 0x99);
    cpu.step().unwrap();
    assert_eq!(cpu.r(V8::B), 0x99);
}

#[test]
fn ld_a_from_hl() {
    let mut cpu = boot(&[(0, 0x7E), (0x3000, 0x42)]);
    cpu.w(V16::HL, 0x3000);
    cpu.step().unwrap();
    assert_eq!(cpu.r(V8::A), 0x42);
}

#[test]
fn store_b_to_hl() {
    let mut cpu = boot(&[(0, 0x70)]);
    cpu.w(V16::HL, 0x3000);
    cpu.w(V8::B, 0x17);
    cpu.step().unwrap();
    assert_eq!(cpu.fetch_mem(0x3000), 0x17);
}

#[test]
fn ld_a_from_bc() {
    let mut cpu = boot(&[(0, 0x0A), (0x2500, 0x61)]);
    cpu.w(V16::BC, 0x2500);
    cpu.step().unwrap();
    assert_eq!(cpu.r(V8::A), 0x61);
}

#[test]
fn store_a_to_de() {
    let mut cpu = boot(&[(0, 0x12)]);
    cpu.w(V16::DE, 0x2600);
    cpu.w(V8::A, 0x7C);
    cpu.step().unwrap();
    assert_eq!(cpu.fetch_mem(0x2600), 0x7C);
}

#[test]
fn store_imm_to_hl() {
    let mut cpu = boot(&[(0, 0x36), (1, 0x5A)]);
    cpu.w(V16::HL, 0x2700);
    cpu.step().unwrap();
    assert_eq!(cpu.fetch_mem(0x2700), 0x5A);
    assert_eq!(cpu.r(V16::PC), 2);
}

#[test]
fn io_page_store_and_read() {
    let mut cpu = boot(&[(0, 0xE0), (1, 0x80), (2, 0xF0), (3, 0x80)]);
    cpu.w(V8::A, 0x42);
    cpu.step().unwrap();
    assert_eq!(cpu.fetch_mem(0xFF80), 0x42);
    assert_eq!(cpu.r(V16::PC), 2);
    cpu.w(V8::A, 0x00);
    cpu.step().unwrap();
    assert_eq!(cpu.r(V8::A), 0x42);
    assert_eq!(cpu.r(V16::PC), 4);
}

#[test]
fn io_page_via_c() {
    let mut cpu = boot(&[(0, 0xE2), (1, 0xF2)]);
    cpu.w(V8::C, 0x81);
    cpu.w(V8::A, 0x9C);
    cpu.step().unwrap();
    assert_eq!(cpu.fetch_mem(0xFF81), 0x9C);
    cpu.w(V8::A, 0x00);
    cpu.step().unwrap();
    assert_eq!(cpu.r(V8::A), 0x9C);
}
