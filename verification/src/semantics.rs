//! The architectural meaning of every implemented instruction, written once
//! as a mathematical interpreter over [`CpuState`].
//!
//! [`spec_exec`] gives, for one decoded instruction, the state after the
//! instruction's side effects, the program-counter move it requests, and the
//! cycles it charges; [`spec_step`] adds opcode fetch, decoding, the error
//! cases, and the committing of the program counter. The executable machine
//! in [`crate::cpu`] is proved to agree with these functions exactly.
//!
//! Cycle accounting follows the architectural-access discipline: every
//! register read, register write, memory read and memory write charges one
//! cycle; decoding charges nothing. A read-modify-write of the flag register
//! charges one cycle per flag-group write, and reading one flag for a
//! condition charges one read of `F`.

use vstd::prelude::*;
use crate::instruction::{
    AddressMove, CpuError, Instruction, pair_sel, reg8_sel, spec_decode, stack_pair_sel,
    stub_kind,
};
use crate::state::{CpuState, V8, compose16, high8, low8};

verus! {

/// The outcome of executing one instruction: the state after its side
/// effects (the program counter still holds its pre-instruction value), the
/// requested program-counter move, and the cycles charged.
#[verifier::ext_equal]
pub ghost struct Effect {
    pub post: CpuState,
    pub mv: AddressMove,
    pub cycles: nat,
}

/// 16-bit wrap-around addition.
pub open spec fn wadd16(x: u16, y: u16) -> u16 {
    if x + y > 0xFFFF {
        (x + y - 0x10000) as u16
    } else {
        (x + y) as u16
    }
}

/// 16-bit wrap-around subtraction.
pub open spec fn wsub16(x: u16, y: u16) -> u16 {
    if x - y < 0 {
        (x - y + 0x10000) as u16
    } else {
        (x - y) as u16
    }
}

/// The low byte of an 8-bit addition with carry-in.
pub open spec fn add_res(x: u8, y: u8, cin: int) -> u8 {
    if x + y + cin > 255 {
        (x + y + cin - 256) as u8
    } else {
        (x + y + cin) as u8
    }
}

/// The carry flag of an 8-bit addition: carry out of bit 7.
pub open spec fn add_cf(x: u8, y: u8, cin: int) -> bool {
    x + y + cin > 255
}

/// The half-carry flag of an 8-bit addition: carry out of bit 3.
pub open spec fn add_hf(x: u8, y: u8, cin: int) -> bool {
    x % 16 + y % 16 + cin > 15
}

/// The low byte of an 8-bit subtraction with borrow-in.
pub open spec fn sub_res(x: u8, y: u8, cin: int) -> u8 {
    if x - y - cin < 0 {
        (x - y - cin + 256) as u8
    } else {
        (x - y - cin) as u8
    }
}

/// The carry flag of an 8-bit subtraction: borrow into bit 7.
pub open spec fn sub_cf(x: u8, y: u8, cin: int) -> bool {
    x < y + cin
}

/// The half-carry flag of an 8-bit subtraction: borrow into bit 3.
pub open spec fn sub_hf(x: u8, y: u8, cin: int) -> bool {
    x % 16 < y % 16 + cin
}

/// State after `A <- A + y + cin` with the add flag rule:
/// `Z` from the result, `N = 0`, `H` from bit 3, `C` from bit 7.
pub open spec fn add_post(s: CpuState, y: u8, cin: int) -> CpuState {
    CpuState {
        a: add_res(s.a, y, cin),
        zf: add_res(s.a, y, cin) == 0,
        nf: false,
        hf: add_hf(s.a, y, cin),
        cf: add_cf(s.a, y, cin),
        ..s
    }
}

/// State after `A <- A - y - cin` with the subtract flag rule:
/// `Z` from the result, `N = 1`, `H` and `C` from the borrows.
pub open spec fn sub_post(s: CpuState, y: u8, cin: int) -> CpuState {
    CpuState {
        a: sub_res(s.a, y, cin),
        zf: sub_res(s.a, y, cin) == 0,
        nf: true,
        hf: sub_hf(s.a, y, cin),
        cf: sub_cf(s.a, y, cin),
        ..s
    }
}

/// State after `A <- A & y`: `N = 0`, `H = 1`, `C = 0`.
pub open spec fn and_post(s: CpuState, y: u8) -> CpuState {
    CpuState { a: s.a & y, zf: (s.a & y) == 0, nf: false, hf: true, cf: false, ..s }
}

/// State after `A <- A ^ y`: `N = H = C = 0`.
pub open spec fn xor_post(s: CpuState, y: u8) -> CpuState {
    CpuState { a: s.a ^ y, zf: (s.a ^ y) == 0, nf: false, hf: false, cf: false, ..s }
}

/// State after `A <- A | y`: `N = H = C = 0`.
pub open spec fn or_post(s: CpuState, y: u8) -> CpuState {
    CpuState { a: s.a | y, zf: (s.a | y) == 0, nf: false, hf: false, cf: false, ..s }
}

/// State after comparing `A` with `y`: the flags of a subtraction, with `A`
/// itself left unchanged.
pub open spec fn cp_post(s: CpuState, y: u8) -> CpuState {
    CpuState {
        zf: s.a == y,
        nf: true,
        hf: sub_hf(s.a, y, 0),
        cf: sub_cf(s.a, y, 0),
        ..s
    }
}

/// State after incrementing the 8-bit register `r`: `Z` from the result,
/// `N = 0`, `H` set exactly when the low nibble was `0xF`, `C` unchanged.
pub open spec fn inc8_post(s: CpuState, r: V8) -> CpuState {
    let v = s.read8(r);
    let s1 = s.write8(r, add_res(v, 1, 0));
    CpuState { zf: add_res(v, 1, 0) == 0, nf: false, hf: v % 16 == 15, ..s1 }
}

/// State after decrementing the 8-bit register `r`: `Z` from the result,
/// `N = 1`, `H` set exactly when the low nibble was `0`, `C` unchanged.
pub open spec fn dec8_post(s: CpuState, r: V8) -> CpuState {
    let v = s.read8(r);
    let s1 = s.write8(r, sub_res(v, 1, 0));
    CpuState { zf: sub_res(v, 1, 0) == 0, nf: true, hf: v % 16 == 0, ..s1 }
}

/// The value rotated left circularly: bit 7 moves to bit 0.
pub open spec fn rlc_val(v: u8) -> u8 {
    ((v * 2) % 256 + v / 128) as u8
}

/// The value shifted left; bit 0 becomes zero.
pub open spec fn rl_val(v: u8) -> u8 {
    ((v * 2) % 256) as u8
}

/// The value rotated right circularly: bit 0 moves to bit 7.
pub open spec fn rrc_val(v: u8) -> u8 {
    (v / 2 + (v % 2) * 128) as u8
}

/// The value shifted right; bit 7 becomes zero.
pub open spec fn rr_val(v: u8) -> u8 {
    (v / 2) as u8
}

/// State after a rotate of `A`: the rotated value `v2` is written to `A`,
/// the rotated-out bit `cout` becomes `C`, and `Z = N = H = 0`.
pub open spec fn rot_post(s: CpuState, v2: u8, cout: bool) -> CpuState {
    CpuState { a: v2, zf: false, nf: false, hf: false, cf: cout, ..s }
}

/// State after `HL <- HL + y`: `N = 0`, `H` is the carry out of bit 11,
/// `C` the carry out of bit 15, and `Z` is unchanged.
pub open spec fn add16_hl_post(s: CpuState, y: u16) -> CpuState {
    CpuState {
        hl: wadd16(s.hl, y),
        nf: false,
        hf: ((s.hl ^ y ^ wadd16(s.hl, y)) & 0x1000) != 0,
        cf: s.hl + y > 0xFFFF,
        ..s
    }
}

/// State after the decimal adjust of `A`: the adjustment adds `0x06` when
/// `H` asks for it (or, after a subtraction, when the low nibble exceeds 9)
/// and `0x60` when `C` asks for it (or, after a subtraction, when `A` is at
/// least `0xA0`); `Z` follows the result, `H` clears, `C` reports the
/// adjustment's own overflow, and `N` is kept.
pub open spec fn daa_post(s: CpuState) -> CpuState {
    let adjust = (if s.hf || (s.nf && s.a % 16 > 9) { 6int } else { 0int })
        + (if s.cf || (s.nf && s.a >= 0xA0) { 0x60int } else { 0int });
    CpuState {
        a: ((s.a + adjust) % 256) as u8,
        zf: (s.a + adjust) % 256 == 0,
        hf: false,
        cf: s.a + adjust > 255,
        ..s
    }
}

/// The immediate byte of a two-byte instruction: the byte after the opcode.
pub open spec fn imm8(s: CpuState) -> u8 {
    s.mem_read(wadd16(s.pc, 1))
}

/// The little-endian immediate word of a three-byte instruction.
pub open spec fn imm16(s: CpuState) -> u16 {
    compose16(s.mem_read(wadd16(s.pc, 2)), s.mem_read(wadd16(s.pc, 1)))
}

/// The target of a taken relative jump: the address after the two-byte
/// instruction, moved by the sign-extended displacement `d` (adding
/// `d - 256`, kept non-negative as `d + 0xFF00`, when bit 7 of `d` is set).
pub open spec fn jr_target(pc: u16, d: u8) -> u16 {
    if d < 128 {
        ((pc + 2 + d) % 0x10000) as u16
    } else {
        ((pc + 2 + d + 0xFF00) % 0x10000) as u16
    }
}

/// Whether the condition named by the two-bit field `(op / 8) % 4` holds:
/// `0 = NZ`, `1 = Z`, `2 = NC`, `3 = C`.
pub open spec fn cond_holds(s: CpuState, op: u8) -> bool {
    if op / 8 % 4 == 0 {
        !s.zf
    } else if op / 8 % 4 == 1 {
        s.zf
    } else if op / 8 % 4 == 2 {
        !s.cf
    } else {
        s.cf
    }
}

/// State after pushing the word `v`: its low byte lands at `SP - 2`, its
/// high byte at `SP - 1`, and `SP` drops by two.
pub open spec fn push16_post(s: CpuState, v: u16) -> CpuState {
    let s1 = s.mem_write(wsub16(s.sp, 2), low8(v));
    let s2 = s1.mem_write(wsub16(s.sp, 1), high8(v));
    CpuState { sp: wsub16(s.sp, 2), ..s2 }
}

/// The word at the top of the stack: low byte at `SP`, high byte at
/// `SP + 1`.
pub open spec fn pop16_val(s: CpuState) -> u16 {
    compose16(s.mem_read(wadd16(s.sp, 1)), s.mem_read(s.sp))
}

/// State after dropping the top word of the stack.
pub open spec fn pop16_drop(s: CpuState) -> CpuState {
    CpuState { sp: wadd16(s.sp, 2), ..s }
}

/// The meaning of one decoded, implemented instruction `i` with opcode byte
/// `op`, executed in state `s`: the state after its side effects, the
/// program-counter move, and the cycles charged.
///
/// For the stub kinds (`stub_kind`) the executor raises an error instead of
/// running anything; the value this function gives them is never relied on.
pub open spec fn spec_exec(s: CpuState, i: Instruction, op: u8) -> Effect {
    match i {
        Instruction::Nop => Effect { post: s, mv: AddressMove::Add(1), cycles: 0 },
        Instruction::Load16Mem => Effect {
            post: s.write16(pair_sel(op / 16), imm16(s)),
            mv: AddressMove::Add(3),
            cycles: 3,
        },
        Instruction::Store8Mem => {
            let addr = if op == 0x02 { s.bc } else if op == 0x12 { s.de } else { s.hl };
            let v = if op < 0x40 { s.a } else { s.read8(reg8_sel(op % 8)) };
            Effect { post: s.mem_write(addr, v), mv: AddressMove::Add(1), cycles: 3 }
        },
        Instruction::Increment16 => Effect {
            post: s.write16(pair_sel(op / 16), wadd16(s.read16(pair_sel(op / 16)), 1)),
            mv: AddressMove::Add(1),
            cycles: 2,
        },
        Instruction::Decrement16 => Effect {
            post: s.write16(pair_sel(op / 16), wsub16(s.read16(pair_sel(op / 16)), 1)),
            mv: AddressMove::Add(1),
            cycles: 2,
        },
        Instruction::Increment8 => Effect {
            post: inc8_post(s, reg8_sel(op / 8 % 8)),
            mv: AddressMove::Add(1),
            cycles: 5,
        },
        Instruction::Decrement8 => Effect {
            post: dec8_post(s, reg8_sel(op / 8 % 8)),
            mv: AddressMove::Add(1),
            cycles: 5,
        },
        Instruction::Load8Mem => Effect {
            post: s.write8(reg8_sel(op / 8 % 8), imm8(s)),
            mv: AddressMove::Add(2),
            cycles: 2,
        },
        Instruction::RotateLeftCircle => Effect {
            post: rot_post(s, rlc_val(s.a), s.a >= 128),
            mv: AddressMove::Add(1),
            cycles: 6,
        },
        Instruction::RotateLeft => Effect {
            post: rot_post(s, rl_val(s.a), s.a >= 128),
            mv: AddressMove::Add(1),
            cycles: 6,
        },
        Instruction::RotateRightCircle => Effect {
            post: rot_post(s, rrc_val(s.a), s.a % 2 == 1),
            mv: AddressMove::Add(1),
            cycles: 6,
        },
        Instruction::RotateRight => Effect {
            post: rot_post(s, rr_val(s.a), s.a % 2 == 1),
            mv: AddressMove::Add(1),
            cycles: 6,
        },
        Instruction::StoreSP => Effect {
            post: s.mem_write(imm16(s), low8(s.sp)).mem_write(wadd16(imm16(s), 1), high8(s.sp)),
            mv: AddressMove::Add(3),
            cycles: 5,
        },
        Instruction::Add16toHL => Effect {
            post: add16_hl_post(s, s.read16(pair_sel(op / 16))),
            mv: AddressMove::Add(1),
            cycles: 6,
        },
        Instruction::Load16Meminto8 => {
            let addr = if op == 0x0A { s.bc } else if op == 0x1A { s.de } else { s.hl };
            let dst = if op == 0x0A || op == 0x1A { V8::A } else { reg8_sel(op / 8 % 8) };
            Effect { post: s.write8(dst, s.mem_read(addr)), mv: AddressMove::Add(1), cycles: 3 }
        },
        Instruction::JumpRelative => Effect {
            post: s,
            mv: if op == 0x18 || cond_holds(s, op) {
                AddressMove::To(jr_target(s.pc, imm8(s)))
            } else {
                AddressMove::Add(2)
            },
            cycles: if op == 0x18 { 1nat } else { 2nat },
        },
        Instruction::StoreHlIncr => Effect {
            post: CpuState { hl: wadd16(s.hl, 1), ..s.mem_write(s.hl, s.a) },
            mv: AddressMove::Add(1),
            cycles: 4,
        },
        Instruction::StoreHlDecr => Effect {
            post: CpuState { hl: wsub16(s.hl, 1), ..s.mem_write(s.hl, s.a) },
            mv: AddressMove::Add(1),
            cycles: 4,
        },
        Instruction::Load8MemHlIncr => Effect {
            post: CpuState { a: s.mem_read(s.hl), hl: wadd16(s.hl, 1), ..s },
            mv: AddressMove::Add(1),
            cycles: 4,
        },
        Instruction::Load8MemHlDecr => Effect {
            post: CpuState { a: s.mem_read(s.hl), hl: wsub16(s.hl, 1), ..s },
            mv: AddressMove::Add(1),
            cycles: 4,
        },
        Instruction::Daa => Effect { post: daa_post(s), mv: AddressMove::Add(1), cycles: 8 },
        Instruction::ComplementA => Effect {
            post: CpuState { a: (255 - s.a) as u8, nf: true, hf: true, ..s },
            mv: AddressMove::Add(1),
            cycles: 4,
        },
        Instruction::IncMemHl => {
            let v = s.mem_read(s.hl);
            let s1 = s.mem_write(s.hl, add_res(v, 1, 0));
            Effect {
                post: CpuState {
                    zf: add_res(v, 1, 0) == 0,
                    nf: false,
                    hf: v % 16 == 15,
                    ..s1
                },
                mv: AddressMove::Add(1),
                cycles: 6,
            }
        },
        Instruction::DecMemHl => {
            let v = s.mem_read(s.hl);
            let s1 = s.mem_write(s.hl, sub_res(v, 1, 0));
            Effect {
                post: CpuState {
                    zf: sub_res(v, 1, 0) == 0,
                    nf: true,
                    hf: v % 16 == 0,
                    ..s1
                },
                mv: AddressMove::Add(1),
                cycles: 6,
            }
        },
        Instruction::StoreXMemHl => Effect {
            post: s.mem_write(s.hl, imm8(s)),
            mv: AddressMove::Add(2),
            cycles: 3,
        },
        Instruction::SetCarryFlag => Effect {
            post: CpuState { nf: false, hf: false, cf: true, ..s },
            mv: AddressMove::Add(1),
            cycles: 3,
        },
        Instruction::FlipCarryFlag => Effect {
            post: CpuState { nf: false, hf: false, cf: !s.cf, ..s },
            mv: AddressMove::Add(1),
            cycles: 4,
        },
        Instruction::Load8into8 => Effect {
            post: s.write8(reg8_sel(op / 8 % 8), s.read8(reg8_sel(op % 8))),
            mv: AddressMove::Add(1),
            cycles: 2,
        },
        Instruction::Add8toA => Effect {
            post: add_post(s, s.read8(reg8_sel(op % 8)), 0),
            mv: AddressMove::Add(1),
            cycles: 7,
        },
        Instruction::AddMemToA => Effect {
            post: add_post(s, s.mem_read(s.hl), 0),
            mv: AddressMove::Add(1),
            cycles: 8,
        },
        Instruction::Add8AndFlagToA => Effect {
            post: add_post(s, s.read8(reg8_sel(op % 8)), if s.cf { 1int } else { 0int }),
            mv: AddressMove::Add(1),
            cycles: 8,
        },
        Instruction::AddMemHlAndFlagToA => Effect {
            post: add_post(s, s.mem_read(s.hl), if s.cf { 1int } else { 0int }),
            mv: AddressMove::Add(1),
            cycles: 9,
        },
        Instruction::Sub8fromA => Effect {
            post: sub_post(s, s.read8(reg8_sel(op % 8)), 0),
            mv: AddressMove::Add(1),
            cycles: 7,
        },
        Instruction::SubMemToA => Effect {
            post: sub_post(s, s.mem_read(s.hl), 0),
            mv: AddressMove::Add(1),
            cycles: 8,
        },
        Instruction::Sub8AndFlagToA => Effect {
            post: sub_post(s, s.read8(reg8_sel(op % 8)), if s.cf { 1int } else { 0int }),
            mv: AddressMove::Add(1),
            cycles: 8,
        },
        Instruction::SubMemHlAndFlagToA => Effect {
            post: sub_post(s, s.mem_read(s.hl), if s.cf { 1int } else { 0int }),
            mv: AddressMove::Add(1),
            cycles: 9,
        },
        Instruction::And8A => Effect {
            post: and_post(s, s.read8(reg8_sel(op % 8))),
            mv: AddressMove::Add(1),
            cycles: 7,
        },
        Instruction::AndMemHlA => Effect {
            post: and_post(s, s.mem_read(s.hl)),
            mv: AddressMove::Add(1),
            cycles: 8,
        },
        Instruction::Xor8A => Effect {
            post: xor_post(s, s.read8(reg8_sel(op % 8))),
            mv: AddressMove::Add(1),
            cycles: 7,
        },
        Instruction::XorMemHlA => Effect {
            post: xor_post(s, s.mem_read(s.hl)),
            mv: AddressMove::Add(1),
            cycles: 8,
        },
        Instruction::Or8A => Effect {
            post: or_post(s, s.read8(reg8_sel(op % 8))),
            mv: AddressMove::Add(1),
            cycles: 7,
        },
        Instruction::OrMemHlA => Effect {
            post: or_post(s, s.mem_read(s.hl)),
            mv: AddressMove::Add(1),
            cycles: 8,
        },
        Instruction::Compare8A => Effect {
            post: cp_post(s, s.read8(reg8_sel(op % 8))),
            mv: AddressMove::Add(1),
            cycles: 6,
        },
        Instruction::CompareMemHlA => Effect {
            post: cp_post(s, s.mem_read(s.hl)),
            mv: AddressMove::Add(1),
            cycles: 7,
        },
        Instruction::ReturnIfFlag => if cond_holds(s, op) {
            Effect { post: pop16_drop(s), mv: AddressMove::To(pop16_val(s)), cycles: 5 }
        } else {
            Effect { post: s, mv: AddressMove::Add(1), cycles: 1 }
        },
        Instruction::Pop16 => Effect {
            post: pop16_drop(s).write16(stack_pair_sel(op / 16), pop16_val(s)),
            mv: AddressMove::Add(1),
            cycles: 5,
        },
        Instruction::JumpIfFlag => Effect {
            post: s,
            mv: if cond_holds(s, op) {
                AddressMove::To(imm16(s))
            } else {
                AddressMove::Add(3)
            },
            cycles: 3,
        },
        Instruction::Jump16 => if op == 0xC3 {
            Effect { post: s, mv: AddressMove::To(imm16(s)), cycles: 2 }
        } else {
            Effect { post: s, mv: AddressMove::To(s.hl), cycles: 1 }
        },
        Instruction::CallIfFlag => if cond_holds(s, op) {
            Effect {
                post: push16_post(s, wadd16(s.pc, 3)),
                mv: AddressMove::To(imm16(s)),
                cycles: 8,
            }
        } else {
            Effect { post: s, mv: AddressMove::Add(3), cycles: 3 }
        },
        Instruction::Push16 => Effect {
            post: push16_post(s, s.read16(stack_pair_sel(op / 16))),
            mv: AddressMove::Add(1),
            cycles: 5,
        },
        Instruction::Add8ImmToA => Effect {
            post: add_post(s, imm8(s), 0),
            mv: AddressMove::Add(2),
            cycles: 7,
        },
        Instruction::Sub8ImmToA => Effect {
            post: sub_post(s, imm8(s), 0),
            mv: AddressMove::Add(2),
            cycles: 7,
        },
        Instruction::And8ImmToA => Effect {
            post: and_post(s, imm8(s)),
            mv: AddressMove::Add(2),
            cycles: 7,
        },
        Instruction::Or8ImmToA => Effect {
            post: or_post(s, imm8(s)),
            mv: AddressMove::Add(2),
            cycles: 7,
        },
        Instruction::AddImmAndFlagToA => Effect {
            post: add_post(s, imm8(s), if s.cf { 1int } else { 0int }),
            mv: AddressMove::Add(2),
            cycles: 8,
        },
        Instruction::SubImmAndFlagToA => Effect {
            post: sub_post(s, imm8(s), if s.cf { 1int } else { 0int }),
            mv: AddressMove::Add(2),
            cycles: 8,
        },
        Instruction::XorImmToA => Effect {
            post: xor_post(s, imm8(s)),
            mv: AddressMove::Add(2),
            cycles: 7,
        },
        Instruction::CompareImmToA => Effect {
            post: cp_post(s, imm8(s)),
            mv: AddressMove::Add(2),
            cycles: 6,
        },
        Instruction::CallN => Effect {
            post: push16_post(s, wadd16(s.pc, 1)),
            mv: AddressMove::To((op & 0x38) as u16),
            cycles: 5,
        },
        Instruction::Return => Effect {
            post: pop16_drop(s),
            mv: AddressMove::To(pop16_val(s)),
            cycles: 4,
        },
        Instruction::Call => Effect {
            post: push16_post(s, wadd16(s.pc, 3)),
            mv: AddressMove::To(imm16(s)),
            cycles: 7,
        },
        Instruction::StoreAToIoImm => Effect {
            post: s.mem_write(compose16(0xFF, imm8(s)), s.a),
            mv: AddressMove::Add(2),
            cycles: 3,
        },
        Instruction::ReadAFromIoImm => Effect {
            post: CpuState { a: s.mem_read(compose16(0xFF, imm8(s))), ..s },
            mv: AddressMove::Add(2),
            cycles: 3,
        },
        Instruction::StoreAToIoC => Effect {
            post: s.mem_write(compose16(0xFF, s.c()), s.a),
            mv: AddressMove::Add(1),
            cycles: 3,
        },
        Instruction::ReadAFromIoC => Effect {
            post: CpuState { a: s.mem_read(compose16(0xFF, s.c())), ..s },
            mv: AddressMove::Add(1),
            cycles: 3,
        },
        _ => Effect { post: s, mv: AddressMove::Add(1), cycles: 0 },
    }
}

/// The meaning of one whole step in the `Run` mode: fetch the opcode at the
/// program counter, decode it, execute it, and commit the program counter.
///
/// A byte that names no kind is a `DecoderGap`; a kind whose executor case
/// is deliberately absent is an `UnimplementedOpcode`. Both leave the
/// architectural state untouched.
///
/// The cycle total is the instruction's own charges plus three for the
/// step's frame: the program-counter read, the opcode fetch, and the
/// program-counter write-back.
pub open spec fn spec_step(s: CpuState) -> Result<Effect, CpuError> {
    let op = s.mem_read(s.pc);
    match spec_decode(op) {
        Option::None => Result::Err(CpuError::DecoderGap(op)),
        Option::Some(i) => if stub_kind(i) {
            Result::Err(CpuError::UnimplementedOpcode(op))
        } else {
            let e = spec_exec(s, i, op);
            Result::Ok(Effect {
                post: CpuState { pc: e.mv.spec_apply(s.pc), ..e.post },
                mv: e.mv,
                cycles: e.cycles + 3,
            })
        },
    }
}

} // verus!
