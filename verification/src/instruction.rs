//! Opcode decoding: the total map from an opcode byte to an instruction kind.
//!
//! Every one of the 256 opcode bytes either names exactly one instruction
//! kind or is a decoder gap (an illegal byte). A handful of decoded kinds
//! (interrupt control, the two-byte prefix table, and the signed stack
//! arithmetic group) are deliberately left unimplemented by the executor;
//! they surface as a typed error, never as a silent no-op.

use vstd::prelude::*;
use crate::bus::OpCode;
use crate::state::{V8, V16};

verus! {

/// One instruction kind per family of opcodes. The operand (which register,
/// which condition, which restart vector) is recovered from the opcode byte
/// itself by the executor.
#[derive(Clone, Copy, Debug, PartialEq, Eq, Structural)]
pub enum Instruction {
    Nop,
    Load16Mem,
    Store8Mem,
    Increment16,
    Increment8,
    Decrement8,
    Load8Mem,
    RotateLeftCircle,
    StoreSP,
    Add16toHL,
    Decrement16,
    JumpRelative,
    StoreHlIncr,
    StoreHlDecr,
    Daa,
    Load8MemHlIncr,
    Load8MemHlDecr,
    ComplementA,
    IncMemHl,
    DecMemHl,
    StoreXMemHl,
    SetCarryFlag,
    FlipCarryFlag,
    RotateRightCircle,
    RotateLeft,
    RotateRight,
    Load8into8,
    Load16Meminto8,
    Halt,
    Add8toA,
    AddMemToA,
    Add8AndFlagToA,
    AddMemHlAndFlagToA,
    Sub8fromA,
    SubMemToA,
    Sub8AndFlagToA,
    SubMemHlAndFlagToA,
    And8A,
    AndMemHlA,
    Xor8A,
    XorMemHlA,
    Or8A,
    OrMemHlA,
    Compare8A,
    CompareMemHlA,
    ReturnIfFlag,
    Pop16,
    JumpIfFlag,
    Jump16,
    CallIfFlag,
    Push16,
    Add8ImmToA,
    Sub8ImmToA,
    And8ImmToA,
    Or8ImmToA,
    AddImmAndFlagToA,
    SubImmAndFlagToA,
    XorImmToA,
    CompareImmToA,
    CallN,
    Return,
    ReturnInterrupt,
    Call,
    StoreAToIoImm,
    ReadAFromIoImm,
    StoreAToIoC,
    ReadAFromIoC,
    DisableInterrupts,
    EnableInterrupts,
    AddImmAsSignedToSp,
    LoadSignedImmPlusSpInHl,
    LoadHlinSp,
    TwoByteInstruction,
}

/// How the program counter moves after an instruction: either forward by the
/// instruction's size, or to an absolute address.
#[derive(Clone, Copy, Debug, PartialEq, Eq, Structural)]
pub enum AddressMove {
    Add(u16),
    To(u16),
}

impl AddressMove {
    /// The program counter that results from committing this move, starting
    /// from the counter value the instruction was fetched at.
    pub open spec fn spec_apply(self, pc: u16) -> u16 {
        match self {
            AddressMove::Add(k) => ((pc + k) % 0x10000) as u16,
            AddressMove::To(a) => a,
        }
    }

    /// Commit the move to a program counter value.
    pub fn apply(self, pc: u16) -> (r: u16)
        ensures
            r == self.spec_apply(pc),
    {
        match self {
            AddressMove::Add(k) => pc.wrapping_add(k),
            AddressMove::To(a) => a,
        }
    }
}

/// The executor's error taxonomy: an opcode whose kind is deliberately not
/// implemented, or a byte that names no kind at all. Both carry the opcode
/// byte and leave the machine state untouched.
#[derive(Clone, Copy, Debug, PartialEq, Eq, Structural)]
pub enum CpuError {
    UnimplementedOpcode(u8),
    DecoderGap(u8),
}

/// The opcode bytes that name no instruction kind.
pub open spec fn gap_byte(b: u8) -> bool {
    b == 0x10 || b == 0xD3 || b == 0xDB || b == 0xDD || b == 0xE3 || b == 0xE4
        || b == 0xEA || b == 0xEB || b == 0xEC || b == 0xED || b == 0xF4
        || b == 0xFA || b == 0xFC || b == 0xFD
}

/// The decoded kinds whose executor cases are deliberately absent: interrupt
/// control, the two-byte prefix table, and the signed SP arithmetic group.
pub open spec fn stub_kind(i: Instruction) -> bool {
    i == Instruction::Halt || i == Instruction::ReturnInterrupt
        || i == Instruction::DisableInterrupts || i == Instruction::EnableInterrupts
        || i == Instruction::AddImmAsSignedToSp
        || i == Instruction::LoadSignedImmPlusSpInHl || i == Instruction::LoadHlinSp
        || i == Instruction::TwoByteInstruction
}

/// The instruction kind named by an opcode byte, or `None` for a gap.
pub open spec fn spec_decode(b: u8) -> Option<Instruction> {
    if b == 0x00 {
        Some(Instruction::Nop)
    } else if b == 0x01 || b == 0x11 || b == 0x21 || b == 0x31 {
        Some(Instruction::Load16Mem)
    } else if b == 0x02 || b == 0x12 {
        Some(Instruction::Store8Mem)
    } else if b == 0x03 || b == 0x13 || b == 0x23 || b == 0x33 {
        Some(Instruction::Increment16)
    } else if b == 0x04 || b == 0x14 || b == 0x24 || b == 0x0C || b == 0x1C || b == 0x2C
        || b == 0x3C {
        Some(Instruction::Increment8)
    } else if b == 0x05 || b == 0x15 || b == 0x25 || b == 0x0D || b == 0x1D || b == 0x2D
        || b == 0x3D {
        Some(Instruction::Decrement8)
    } else if b == 0x06 || b == 0x16 || b == 0x26 || b == 0x0E || b == 0x1E || b == 0x2E
        || b == 0x3E {
        Some(Instruction::Load8Mem)
    } else if b == 0x07 {
        Some(Instruction::RotateLeftCircle)
    } else if b == 0x0F {
        Some(Instruction::RotateRightCircle)
    } else if b == 0x17 {
        Some(Instruction::RotateLeft)
    } else if b == 0x1F {
        Some(Instruction::RotateRight)
    } else if b == 0x08 {
        Some(Instruction::StoreSP)
    } else if b == 0x09 || b == 0x19 || b == 0x29 || b == 0x39 {
        Some(Instruction::Add16toHL)
    } else if b == 0x0A || b == 0x1A {
        Some(Instruction::Load16Meminto8)
    } else if b == 0x0B || b == 0x1B || b == 0x2B || b == 0x3B {
        Some(Instruction::Decrement16)
    } else if b == 0x18 || b == 0x20 || b == 0x28 || b == 0x30 || b == 0x38 {
        Some(Instruction::JumpRelative)
    } else if b == 0x22 {
        Some(Instruction::StoreHlIncr)
    } else if b == 0x32 {
        Some(Instruction::StoreHlDecr)
    } else if b == 0x27 {
        Some(Instruction::Daa)
    } else if b == 0x2F {
        Some(Instruction::ComplementA)
    } else if b == 0x2A {
        Some(Instruction::Load8MemHlIncr)
    } else if b == 0x3A {
        Some(Instruction::Load8MemHlDecr)
    } else if b == 0x34 {
        Some(Instruction::IncMemHl)
    } else if b == 0x35 {
        Some(Instruction::DecMemHl)
    } else if b == 0x36 {
        Some(Instruction::StoreXMemHl)
    } else if b == 0x37 {
        Some(Instruction::SetCarryFlag)
    } else if b == 0x3F {
        Some(Instruction::FlipCarryFlag)
    } else if b == 0x76 {
        Some(Instruction::Halt)
    } else if 0x40 <= b && b <= 0x7F && b % 8 == 6 {
        Some(Instruction::Load16Meminto8)
    } else if 0x70 <= b && b <= 0x77 {
        Some(Instruction::Store8Mem)
    } else if 0x40 <= b && b <= 0x7F {
        Some(Instruction::Load8into8)
    } else if b == 0x86 {
        Some(Instruction::AddMemToA)
    } else if 0x80 <= b && b <= 0x87 {
        Some(Instruction::Add8toA)
    } else if b == 0x8E {
        Some(Instruction::AddMemHlAndFlagToA)
    } else if 0x88 <= b && b <= 0x8F {
        Some(Instruction::Add8AndFlagToA)
    } else if b == 0x96 {
        Some(Instruction::SubMemToA)
    } else if 0x90 <= b && b <= 0x97 {
        Some(Instruction::Sub8fromA)
    } else if b == 0x9E {
        Some(Instruction::SubMemHlAndFlagToA)
    } else if 0x98 <= b && b <= 0x9F {
        Some(Instruction::Sub8AndFlagToA)
    } else if b == 0xA6 {
        Some(Instruction::AndMemHlA)
    } else if 0xA0 <= b && b <= 0xA7 {
        Some(Instruction::And8A)
    } else if b == 0xAE {
        Some(Instruction::XorMemHlA)
    } else if 0xA8 <= b && b <= 0xAF {
        Some(Instruction::Xor8A)
    } else if b == 0xB6 {
        Some(Instruction::OrMemHlA)
    } else if 0xB0 <= b && b <= 0xB7 {
        Some(Instruction::Or8A)
    } else if b == 0xBE {
        Some(Instruction::CompareMemHlA)
    } else if 0xB8 <= b && b <= 0xBF {
        Some(Instruction::Compare8A)
    } else if b == 0xC0 || b == 0xC8 || b == 0xD0 || b == 0xD8 {
        Some(Instruction::ReturnIfFlag)
    } else if b == 0xC1 || b == 0xD1 || b == 0xE1 || b == 0xF1 {
        Some(Instruction::Pop16)
    } else if b == 0xC2 || b == 0xCA || b == 0xD2 || b == 0xDA {
        Some(Instruction::JumpIfFlag)
    } else if b == 0xC3 || b == 0xE9 {
        Some(Instruction::Jump16)
    } else if b == 0xC4 || b == 0xCC || b == 0xD4 || b == 0xDC {
        Some(Instruction::CallIfFlag)
    } else if b == 0xC5 || b == 0xD5 || b == 0xE5 || b == 0xF5 {
        Some(Instruction::Push16)
    } else if b == 0xC6 {
        Some(Instruction::Add8ImmToA)
    } else if b == 0xD6 {
        Some(Instruction::Sub8ImmToA)
    } else if b == 0xE6 {
        Some(Instruction::And8ImmToA)
    } else if b == 0xF6 {
        Some(Instruction::Or8ImmToA)
    } else if b == 0xCE {
        Some(Instruction::AddImmAndFlagToA)
    } else if b == 0xDE {
        Some(Instruction::SubImmAndFlagToA)
    } else if b == 0xEE {
        Some(Instruction::XorImmToA)
    } else if b == 0xFE {
        Some(Instruction::CompareImmToA)
    } else if b == 0xC7 || b == 0xCF || b == 0xD7 || b == 0xDF || b == 0xE7 || b == 0xEF
        || b == 0xF7 || b == 0xFF {
        Some(Instruction::CallN)
    } else if b == 0xC9 {
        Some(Instruction::Return)
    } else if b == 0xD9 {
        Some(Instruction::ReturnInterrupt)
    } else if b == 0xCB {
        Some(Instruction::TwoByteInstruction)
    } else if b == 0xCD {
        Some(Instruction::Call)
    } else if b == 0xE0 {
        Some(Instruction::StoreAToIoImm)
    } else if b == 0xF0 {
        Some(Instruction::ReadAFromIoImm)
    } else if b == 0xE2 {
        Some(Instruction::StoreAToIoC)
    } else if b == 0xF2 {
        Some(Instruction::ReadAFromIoC)
    } else if b == 0xE8 {
        Some(Instruction::AddImmAsSignedToSp)
    } else if b == 0xF8 {
        Some(Instruction::LoadSignedImmPlusSpInHl)
    } else if b == 0xF9 {
        Some(Instruction::LoadHlinSp)
    } else if b == 0xF3 {
        Some(Instruction::DisableInterrupts)
    } else if b == 0xFB {
        Some(Instruction::EnableInterrupts)
    } else {
        None
    }
}

/// Decode one opcode byte.
pub fn decode(op: OpCode) -> (r: Option<Instruction>)
    ensures
        r == spec_decode(op.0),
{
    let b = op.0;
    if b == 0x00 {
        Some(Instruction::Nop)
    } else if b == 0x01 || b == 0x11 || b == 0x21 || b == 0x31 {
        Some(Instruction::Load16Mem)
    } else if b == 0x02 || b == 0x12 {
        Some(Instruction::Store8Mem)
    } else if b == 0x03 || b == 0x13 || b == 0x23 || b == 0x33 {
        Some(Instruction::Increment16)
    } else if b == 0x04 || b == 0x14 || b == 0x24 || b == 0x0C || b == 0x1C || b == 0x2C
        || b == 0x3C {
        Some(Instruction::Increment8)
    } else if b == 0x05 || b == 0x15 || b == 0x25 || b == 0x0D || b == 0x1D || b == 0x2D
        || b == 0x3D {
        Some(Instruction::Decrement8)
    } else if b == 0x06 || b == 0x16 || b == 0x26 || b == 0x0E || b == 0x1E || b == 0x2E
        || b == 0x3E {
        Some(Instruction::Load8Mem)
    } else if b == 0x07 {
        Some(Instruction::RotateLeftCircle)
    } else if b == 0x0F {
        Some(Instruction::RotateRightCircle)
    } else if b == 0x17 {
        Some(Instruction::RotateLeft)
    } else if b == 0x1F {
        Some(Instruction::RotateRight)
    } else if b == 0x08 {
        Some(Instruction::StoreSP)
    } else if b == 0x09 || b == 0x19 || b == 0x29 || b == 0x39 {
        Some(Instruction::Add16toHL)
    } else if b == 0x0A || b == 0x1A {
        Some(Instruction::Load16Meminto8)
    } else if b == 0x0B || b == 0x1B || b == 0x2B || b == 0x3B {
        Some(Instruction::Decrement16)
    } else if b == 0x18 || b == 0x20 || b == 0x28 || b == 0x30 || b == 0x38 {
        Some(Instruction::JumpRelative)
    } else if b == 0x22 {
        Some(Instruction::StoreHlIncr)
    } else if b == 0x32 {
        Some(Instruction::StoreHlDecr)
    } else if b == 0x27 {
        Some(Instruction::Daa)
    } else if b == 0x2F {
        Some(Instruction::ComplementA)
    } else if b == 0x2A {
        Some(Instruction::Load8MemHlIncr)
    } else if b == 0x3A {
        Some(Instruction::Load8MemHlDecr)
    } else if b == 0x34 {
        Some(Instruction::IncMemHl)
    } else if b == 0x35 {
        Some(Instruction::DecMemHl)
    } else if b == 0x36 {
        Some(Instruction::StoreXMemHl)
    } else if b == 0x37 {
        Some(Instruction::SetCarryFlag)
    } else if b == 0x3F {
        Some(Instruction::FlipCarryFlag)
    } else if b == 0x76 {
        Some(Instruction::Halt)
    } else if 0x40 <= b && b <= 0x7F && b % 8 == 6 {
        Some(Instruction::Load16Meminto8)
    } else if 0x70 <= b && b <= 0x77 {
        Some(Instruction::Store8Mem)
    } else if 0x40 <= b && b <= 0x7F {
        Some(Instruction::Load8into8)
    } else if b == 0x86 {
        Some(Instruction::AddMemToA)
    } else if 0x80 <= b && b <= 0x87 {
        Some(Instruction::Add8toA)
    } else if b == 0x8E {
        Some(Instruction::AddMemHlAndFlagToA)
    } else if 0x88 <= b && b <= 0x8F {
        Some(Instruction::Add8AndFlagToA)
    } else if b == 0x96 {
        Some(Instruction::SubMemToA)
    } else if 0x90 <= b && b <= 0x97 {
        Some(Instruction::Sub8fromA)
    } else if b == 0x9E {
        Some(Instruction::SubMemHlAndFlagToA)
    } else if 0x98 <= b && b <= 0x9F {
        Some(Instruction::Sub8AndFlagToA)
    } else if b == 0xA6 {
        Some(Instruction::AndMemHlA)
    } else if 0xA0 <= b && b <= 0xA7 {
        Some(Instruction::And8A)
    } else if b == 0xAE {
        Some(Instruction::XorMemHlA)
    } else if 0xA8 <= b && b <= 0xAF {
        Some(Instruction::Xor8A)
    } else if b == 0xB6 {
        Some(Instruction::OrMemHlA)
    } else if 0xB0 <= b && b <= 0xB7 {
        Some(Instruction::Or8A)
    } else if b == 0xBE {
        Some(Instruction::CompareMemHlA)
    } else if 0xB8 <= b && b <= 0xBF {
        Some(Instruction::Compare8A)
    } else if b == 0xC0 || b == 0xC8 || b == 0xD0 || b == 0xD8 {
        Some(Instruction::ReturnIfFlag)
    } else if b == 0xC1 || b == 0xD1 || b == 0xE1 || b == 0xF1 {
        Some(Instruction::Pop16)
    } else if b == 0xC2 || b == 0xCA || b == 0xD2 || b == 0xDA {
        Some(Instruction::JumpIfFlag)
    } else if b == 0xC3 || b == 0xE9 {
        Some(Instruction::Jump16)
    } else if b == 0xC4 || b == 0xCC || b == 0xD4 || b == 0xDC {
        Some(Instruction::CallIfFlag)
    } else if b == 0xC5 || b == 0xD5 || b == 0xE5 || b == 0xF5 {
        Some(Instruction::Push16)
    } else if b == 0xC6 {
        Some(Instruction::Add8ImmToA)
    } else if b == 0xD6 {
        Some(Instruction::Sub8ImmToA)
    } else if b == 0xE6 {
        Some(Instruction::And8ImmToA)
    } else if b == 0xF6 {
        Some(Instruction::Or8ImmToA)
    } else if b == 0xCE {
        Some(Instruction::AddImmAndFlagToA)
    } else if b == 0xDE {
        Some(Instruction::SubImmAndFlagToA)
    } else if b == 0xEE {
        Some(Instruction::XorImmToA)
    } else if b == 0xFE {
        Some(Instruction::CompareImmToA)
    } else if b == 0xC7 || b == 0xCF || b == 0xD7 || b == 0xDF || b == 0xE7 || b == 0xEF
        || b == 0xF7 || b == 0xFF {
        Some(Instruction::CallN)
    } else if b == 0xC9 {
        Some(Instruction::Return)
    } else if b == 0xD9 {
        Some(Instruction::ReturnInterrupt)
    } else if b == 0xCB {
        Some(Instruction::TwoByteInstruction)
    } else if b == 0xCD {
        Some(Instruction::Call)
    } else if b == 0xE0 {
        Some(Instruction::StoreAToIoImm)
    } else if b == 0xF0 {
        Some(Instruction::ReadAFromIoImm)
    } else if b == 0xE2 {
        Some(Instruction::StoreAToIoC)
    } else if b == 0xF2 {
        Some(Instruction::ReadAFromIoC)
    } else if b == 0xE8 {
        Some(Instruction::AddImmAsSignedToSp)
    } else if b == 0xF8 {
        Some(Instruction::LoadSignedImmPlusSpInHl)
    } else if b == 0xF9 {
        Some(Instruction::LoadHlinSp)
    } else if b == 0xF3 {
        Some(Instruction::DisableInterrupts)
    } else if b == 0xFB {
        Some(Instruction::EnableInterrupts)
    } else {
        None
    }
}

/// The 8-bit register addressed by the three-bit field `i % 8`, using the
/// architectural encoding `0=B 1=C 2=D 3=E 4=H 5=L 7=A`. Code `6` addresses
/// memory through `HL` and is carved out by the decoder into the dedicated
/// memory kinds; it is mapped here, arbitrarily, like code `0`.
pub open spec fn reg8_sel(i: u8) -> V8 {
    if i % 8 == 1 {
        V8::C
    } else if i % 8 == 2 {
        V8::D
    } else if i % 8 == 3 {
        V8::E
    } else if i % 8 == 4 {
        V8::H
    } else if i % 8 == 5 {
        V8::L
    } else if i % 8 == 7 {
        V8::A
    } else {
        V8::B
    }
}

/// Pick the 8-bit register for a three-bit operand field.
pub fn reg8_for(i: u8) -> (r: V8)
    ensures
        r == reg8_sel(i),
{
    let code = i % 8;
    if code == 1 {
        V8::C
    } else if code == 2 {
        V8::D
    } else if code == 3 {
        V8::E
    } else if code == 4 {
        V8::H
    } else if code == 5 {
        V8::L
    } else if code == 7 {
        V8::A
    } else {
        V8::B
    }
}

/// The register pair addressed by the two-bit field `i % 4` in the
/// arithmetic encoding `0=BC 1=DE 2=HL 3=SP`.
pub open spec fn pair_sel(i: u8) -> V16 {
    if i % 4 == 0 {
        V16::BC
    } else if i % 4 == 1 {
        V16::DE
    } else if i % 4 == 2 {
        V16::HL
    } else {
        V16::SP
    }
}

/// Pick the register pair for a two-bit operand field, arithmetic encoding.
pub fn pair_for(i: u8) -> (r: V16)
    ensures
        r == pair_sel(i),
{
    let code = i % 4;
    if code == 0 {
        V16::BC
    } else if code == 1 {
        V16::DE
    } else if code == 2 {
        V16::HL
    } else {
        V16::SP
    }
}

/// The register pair addressed by the two-bit field `i % 4` in the stack
/// encoding `0=BC 1=DE 2=HL 3=AF`.
pub open spec fn stack_pair_sel(i: u8) -> V16 {
    if i % 4 == 0 {
        V16::BC
    } else if i % 4 == 1 {
        V16::DE
    } else if i % 4 == 2 {
        V16::HL
    } else {
        V16::AF
    }
}

/// Pick the register pair for a two-bit operand field, stack encoding.
pub fn stack_pair_for(i: u8) -> (r: V16)
    ensures
        r == stack_pair_sel(i),
{
    let code = i % 4;
    if code == 0 {
        V16::BC
    } else if code == 1 {
        V16::DE
    } else if code == 2 {
        V16::HL
    } else {
        V16::AF
    }
}

} // verus!
