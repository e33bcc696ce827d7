//! The architectural laws of the core, stated and proved once over the
//! mathematical interpreter: decoder totality, register-pair consistency,
//! the flag register's low nibble, and the round trips of the increment,
//! stack and call instructions.

use vstd::prelude::*;
use crate::instruction::{Instruction, gap_byte, reg8_sel, spec_decode, stack_pair_sel};
use crate::semantics::{inc8_post, spec_exec, wadd16};
use crate::state::{
    CpuState, V8, V16, compose16, lemma_compose_high_low, lemma_flag_byte_bits,
    lemma_high_low_compose,
};

verus! {

/// The decoder is total with no overlap: every opcode byte names exactly
/// one instruction kind, except for the documented gap bytes, which name
/// none.
pub proof fn lemma_decoder_total(b: u8)
    ensures
        (spec_decode(b) is None) <==> gap_byte(b),
{
}

/// Reading a register after writing it gives back the written value, for
/// every register but the flag register (whose low nibble is architectural
/// zero).
pub proof fn lemma_read8_write8(s: CpuState, r: V8, v: u8)
    requires
        r != V8::F,
    ensures
        s.write8(r, v).read8(r) == v,
{
    lemma_high_low_compose(v, s.c());
    lemma_high_low_compose(s.b(), v);
    lemma_high_low_compose(v, s.e());
    lemma_high_low_compose(s.d(), v);
    lemma_high_low_compose(v, s.l());
    lemma_high_low_compose(s.h(), v);
}

/// For every register pair, the composed 16-bit value equals the
/// composition of its 8-bit halves, both before and after any 8-bit write.
pub proof fn lemma_pair_compose(s: CpuState, r: V8, v: u8)
    ensures
        s.read16(V16::BC) == compose16(s.read8(V8::B), s.read8(V8::C)),
        s.read16(V16::DE) == compose16(s.read8(V8::D), s.read8(V8::E)),
        s.read16(V16::HL) == compose16(s.read8(V8::H), s.read8(V8::L)),
        s.read16(V16::AF) == compose16(s.read8(V8::A), s.read8(V8::F)),
        s.write8(r, v).read16(V16::BC) == compose16(
            s.write8(r, v).read8(V8::B),
            s.write8(r, v).read8(V8::C),
        ),
        s.write8(r, v).read16(V16::DE) == compose16(
            s.write8(r, v).read8(V8::D),
            s.write8(r, v).read8(V8::E),
        ),
        s.write8(r, v).read16(V16::HL) == compose16(
            s.write8(r, v).read8(V8::H),
            s.write8(r, v).read8(V8::L),
        ),
        s.write8(r, v).read16(V16::AF) == compose16(
            s.write8(r, v).read8(V8::A),
            s.write8(r, v).read8(V8::F),
        ),
{
    lemma_compose_high_low(s.bc);
    lemma_compose_high_low(s.de);
    lemma_compose_high_low(s.hl);
    let s2 = s.write8(r, v);
    lemma_compose_high_low(s2.bc);
    lemma_compose_high_low(s2.de);
    lemma_compose_high_low(s2.hl);
}

/// After any write to `F` through the architectural setter, bits 0..3 of
/// `F` are zero; indeed the flag register always has a zero low nibble.
pub proof fn lemma_flag_low_nibble_zero(s: CpuState, v: u8)
    ensures
        s.f() % 16 == 0,
        s.write8(V8::F, v).f() % 16 == 0,
{
}

/// After `Pop AF`, the low nibble of `F` is zero regardless of the two
/// popped bytes.
pub proof fn lemma_pop_af_low_nibble(s: CpuState)
    requires
        s.wf(),
    ensures
        spec_exec(s, Instruction::Pop16, 0xF1).post.f() % 16 == 0,
{
}

/// The wrap-around 8-bit sum is the sum modulo 256, and its carry is set
/// exactly when the plain sum reaches 256.
proof fn lemma_add_res_mod(x: u8, y: u8)
    ensures
        crate::semantics::add_res(x, y, 0) == (x + y) % 256,
        crate::semantics::add_cf(x, y, 0) == (x + y >= 256),
{
}

/// `Add A,r` with `A = a` and `r = b` yields `A = (a + b) mod 256`,
/// `C = (a + b) >= 256`, `H = (a mod 16) + (b mod 16) > 15`,
/// `Z = (result == 0)` and `N = 0`.
#[verifier::rlimit(100)]
#[verifier::spinoff_prover]
pub proof fn lemma_add8(s: CpuState, op: u8)
    ensures
        ({
            let y = s.read8(reg8_sel(op % 8));
            let post = spec_exec(s, Instruction::Add8toA, op).post;
            post.a == (s.a + y) % 256 && post.cf == (s.a + y >= 256) && post.hf == (s.a % 16
                + y % 16 > 15) && post.zf == (post.a == 0) && post.nf == false
        }),
{
    lemma_add_res_mod(s.a, s.read8(reg8_sel(op % 8)));
}

/// `Cmp r` leaves `A` unchanged and sets the four flags exactly as the
/// corresponding `Sub` would.
pub proof fn lemma_cmp_flags_as_sub(s: CpuState, op_cmp: u8, op_sub: u8)
    requires
        reg8_sel(op_cmp % 8) == reg8_sel(op_sub % 8),
    ensures
        ({
            let pc = spec_exec(s, Instruction::Compare8A, op_cmp).post;
            let ps = spec_exec(s, Instruction::Sub8fromA, op_sub).post;
            pc.a == s.a && pc.zf == ps.zf && pc.nf == ps.nf && pc.hf == ps.hf && pc.cf
                == ps.cf
        }),
{
}

/// `Inc8 r; Dec8 r` restores the register and leaves the carry flag
/// untouched across the pair; the zero flag ends up reporting whether the
/// restored register is zero, so it too is restored whenever it agreed
/// with the register beforehand. The half-carry flag may differ.
#[verifier::rlimit(100)]
#[verifier::spinoff_prover]
pub proof fn lemma_inc_dec_restores(s: CpuState, op_inc: u8, op_dec: u8)
    requires
        reg8_sel(op_inc / 8 % 8) == reg8_sel(op_dec / 8 % 8),
    ensures
        ({
            let r = reg8_sel(op_inc / 8 % 8);
            let s1 = spec_exec(s, Instruction::Increment8, op_inc).post;
            let s2 = spec_exec(s1, Instruction::Decrement8, op_dec).post;
            s2.read8(r) == s.read8(r) && s2.cf == s.cf && s2.zf == (s.read8(r) == 0) && (
            s.zf == (s.read8(r) == 0) ==> s2.zf == s.zf)
        }),
{
    let r = reg8_sel(op_inc / 8 % 8);
    let v = s.read8(r);
    let s1 = inc8_post(s, r);
    assert(r != V8::F);
    lemma_read8_write8(s, r, crate::semantics::add_res(v, 1, 0));
    let sw = s.write8(r, crate::semantics::add_res(v, 1, 0));
    assert(s1.read8(r) == sw.read8(r));
    lemma_read8_write8(s1, r, crate::semantics::sub_res(s1.read8(r), 1, 0));
}

/// `Push rr; Pop rr` restores the pair exactly and restores the stack
/// pointer; for `AF` the flag register's low nibble was already zero, so
/// the architectural mask on pop changes nothing.
#[verifier::rlimit(100)]
#[verifier::spinoff_prover]
pub proof fn lemma_push_pop(s: CpuState, op_push: u8, op_pop: u8)
    requires
        s.wf(),
        stack_pair_sel(op_push / 16) == stack_pair_sel(op_pop / 16),
    ensures
        ({
            let rr = stack_pair_sel(op_push / 16);
            let s1 = spec_exec(s, Instruction::Push16, op_push).post;
            let s2 = spec_exec(s1, Instruction::Pop16, op_pop).post;
            s2.read16(rr) == s.read16(rr) && s2.sp == s.sp
        }),
{
    let rr = stack_pair_sel(op_push / 16);
    let v = s.read16(rr);
    lemma_compose_high_low(v);
    lemma_high_low_compose(s.a, s.f());
    lemma_flag_byte_bits(s.zf, s.nf, s.hf, s.cf);
}

/// `Call addr; Return` brings the program counter to the byte after the
/// three-byte call and restores the stack pointer.
#[verifier::rlimit(100)]
#[verifier::spinoff_prover]
pub proof fn lemma_call_return(s: CpuState)
    requires
        s.wf(),
    ensures
        ({
            let e1 = spec_exec(s, Instruction::Call, 0xCD);
            let s1 = CpuState { pc: e1.mv.spec_apply(s.pc), ..e1.post };
            let e2 = spec_exec(s1, Instruction::Return, 0xC9);
            let s2 = CpuState { pc: e2.mv.spec_apply(s1.pc), ..e2.post };
            s2.pc == wadd16(s.pc, 3) && s2.sp == s.sp
        }),
{
    lemma_compose_high_low(wadd16(s.pc, 3));
}

} // verus!


