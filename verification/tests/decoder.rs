//! The decoder: total over all 256 opcode bytes, with exactly the
//! documented gaps, and the expected kind on spot-checked bytes.

use gb_cpu::bus::OpCode;
use gb_cpu::instruction::{AddressMove, Instruction, decode};

const GAPS: [u8; 14] = [
    0x10, 0xD3, 0xDB, 0xDD, 0xE3, 0xE4, 0xEA, 0xEB, 0xEC, 0xED, 0xF4, 0xFA, 0xFC, 0xFD,
];

#[test]
fn decoder_total_except_gaps() {
    for b in 0..=255u8 {
        let decoded = decode(OpCode(b));
        let is_gap = GAPS.contains(&b);
        assert_eq!(decoded.is_none(), is_gap, "opcode {b:#04x}");
    }
}

#[test]
fn decoder_spot_checks() {
    assert_eq!(decode(OpCode(0x00)), Some(Instruction::Nop));
    assert_eq!(decode(OpCode(0x31)), Some(Instruction::Load16Mem));
    assert_eq!(decode(OpCode(0x76)), Some(Instruction::Halt));
    assert_eq!(decode(OpCode(0x77)), Some(Instruction::Store8Mem));
    assert_eq!(decode(OpCode(0x7E)), Some(Instruction::Load16Meminto8));
    assert_eq!(decode(OpCode(0x46)), Some(Instruction::Load16Meminto8));
    assert_eq!(decode(OpCode(0x41)), Some(Instruction::Load8into8));
    assert_eq!(decode(OpCode(0x34)), Some(Instruction::IncMemHl));
    assert_eq!(decode(OpCode(0x35)), Some(Instruction::DecMemHl));
    assert_eq!(decode(OpCode(0x36)), Some(Instruction::StoreXMemHl));
    assert_eq!(decode(OpCode(0x86)), Some(Instruction::AddMemToA));
    assert_eq!(decode(OpCode(0x87)), Some(Instruction::Add8toA));
    assert_eq!(decode(OpCode(0x8E)), Some(Instruction::AddMemHlAndFlagToA));
    assert_eq!(decode(OpCode(0x9F)), Some(Instruction::Sub8AndFlagToA));
    assert_eq!(decode(OpCode(0xBE)), Some(Instruction::CompareMemHlA));
    assert_eq!(decode(OpCode(0xC9)), Some(Instruction::Return));
    assert_eq!(decode(OpCode(0xCB)), Some(Instruction::TwoByteInstruction));
    assert_eq!(decode(OpCode(0xCD)), Some(Instruction::Call));
    assert_eq!(decode(OpCode(0xD9)), Some(Instruction::ReturnInterrupt));
    assert_eq!(decode(OpCode(0xE0)), Some(Instruction::StoreAToIoImm));
    assert_eq!(decode(OpCode(0xE8)), Some(Instruction::AddImmAsSignedToSp));
    assert_eq!(decode(OpCode(0xE9)), Some(Instruction::Jump16));
    assert_eq!(decode(OpCode(0xF1)), Some(Instruction::Pop16));
    assert_eq!(decode(OpCode(0xF3)), Some(Instruction::DisableInterrupts));
    assert_eq!(decode(OpCode(0xFB)), Some(Instruction::EnableInterrupts));
    assert_eq!(decode(OpCode(0xFF)), Some(Instruction::CallN));
}

#[test]
fn address_move_apply() {
    assert_eq!(AddressMove::Add(3).apply(0x0100), 0x0103);
    assert_eq!(AddressMove::Add(2).apply(0xFFFF), 0x0001);
    assert_eq!(AddressMove::To(0x1234).apply(0x0100), 0x1234);
}
