//! The architectural state of the CPU, as a mathematical value.
//!
//! A [`CpuState`] holds the six 16-bit register cells (with `AF` kept as the
//! accumulator plus four flag booleans, so that the low nibble of `F` is zero
//! by construction), the program counter, the stack pointer, and the 64 KiB
//! memory image. Every contract in the crate speaks about values of this
//! type; the executable `Cpu` is related to it through its view.

use vstd::prelude::*;

verus! {

/// The number of bytes in the address space: one past the highest address.
pub const MEM_SIZE: usize = 0x10000;

/// The 8-bit registers. `F` is the flag register, the low half of `AF`.
#[derive(Clone, Copy, Debug, PartialEq, Eq, Structural)]
pub enum V8 {
    A,
    B,
    C,
    D,
    E,
    F,
    H,
    L,
}

/// The 16-bit register pairs, the program counter and the stack pointer.
#[derive(Clone, Copy, Debug, PartialEq, Eq, Structural)]
pub enum V16 {
    AF,
    BC,
    DE,
    HL,
    PC,
    SP,
}

/// The 16-bit value whose high byte is `hi` and whose low byte is `lo`.
pub open spec fn compose16(hi: u8, lo: u8) -> u16 {
    (hi * 256 + lo) as u16
}

/// The high byte of a 16-bit value.
pub open spec fn high8(v: u16) -> u8 {
    (v / 256) as u8
}

/// The low byte of a 16-bit value.
pub open spec fn low8(v: u16) -> u8 {
    (v % 256) as u8
}

/// The flag register byte built from the four flag booleans:
/// `Z` is bit 7, `N` bit 6, `H` bit 5, `C` bit 4; bits 0..3 are zero.
pub open spec fn flag_byte(z: bool, n: bool, h: bool, c: bool) -> u8 {
    ((if z { 128int } else { 0int }) + (if n { 64int } else { 0int })
        + (if h { 32int } else { 0int }) + (if c { 16int } else { 0int })) as u8
}

/// Bit 7 of a byte: where the byte is a flag register value, the `Z` flag.
pub open spec fn bit7(v: u8) -> bool {
    v / 128 % 2 == 1
}

/// Bit 6 of a byte: where the byte is a flag register value, the `N` flag.
pub open spec fn bit6(v: u8) -> bool {
    v / 64 % 2 == 1
}

/// Bit 5 of a byte: where the byte is a flag register value, the `H` flag.
pub open spec fn bit5(v: u8) -> bool {
    v / 32 % 2 == 1
}

/// Bit 4 of a byte: where the byte is a flag register value, the `C` flag.
pub open spec fn bit4(v: u8) -> bool {
    v / 16 % 2 == 1
}

/// Composing the two bytes of a 16-bit value gives the value back.
pub proof fn lemma_compose_high_low(v: u16)
    ensures
        compose16(high8(v), low8(v)) == v,
{
}

/// The two bytes of a composed 16-bit value are the bytes it was built from.
pub proof fn lemma_high_low_compose(hi: u8, lo: u8)
    ensures
        high8(compose16(hi, lo)) == hi,
        low8(compose16(hi, lo)) == lo,
{
}

/// Reading the four flag bits out of a flag byte gives back the booleans the
/// byte was built from, and the low nibble of the byte is zero.
pub proof fn lemma_flag_byte_bits(z: bool, n: bool, h: bool, c: bool)
    ensures
        bit7(flag_byte(z, n, h, c)) == z,
        bit6(flag_byte(z, n, h, c)) == n,
        bit5(flag_byte(z, n, h, c)) == h,
        bit4(flag_byte(z, n, h, c)) == c,
        flag_byte(z, n, h, c) % 16 == 0,
{
}

/// Compose two bytes into the 16-bit value they spell.
pub fn compose(hi: u8, lo: u8) -> (r: u16)
    ensures
        r == compose16(hi, lo),
{
    (hi as u16) * 256 + (lo as u16)
}

/// The high byte of a 16-bit value.
pub fn high(v: u16) -> (r: u8)
    ensures
        r == high8(v),
{
    (v / 256) as u8
}

/// The low byte of a 16-bit value.
pub fn low(v: u16) -> (r: u8)
    ensures
        r == low8(v),
{
    (v % 256) as u8
}

/// Build the flag register byte from the four flag booleans.
pub fn flags_to_byte(z: bool, n: bool, h: bool, c: bool) -> (r: u8)
    ensures
        r == flag_byte(z, n, h, c),
{
    (if z { 128u8 } else { 0u8 }) + (if n { 64u8 } else { 0u8 }) + (if h { 32u8 } else { 0u8 })
        + (if c { 16u8 } else { 0u8 })
}

/// The architectural CPU state: registers, flags, and the memory image.
#[verifier::ext_equal]
pub ghost struct CpuState {
    pub bc: u16,
    pub de: u16,
    pub hl: u16,
    pub a: u8,
    pub zf: bool,
    pub nf: bool,
    pub hf: bool,
    pub cf: bool,
    pub pc: u16,
    pub sp: u16,
    pub mem: Seq<u8>,
}

impl CpuState {
    /// The memory image covers the whole 16-bit address space.
    pub open spec fn wf(self) -> bool {
        self.mem.len() == MEM_SIZE
    }

    /// The flag register: `Z N H C` in bits 7..4, low nibble zero.
    pub open spec fn f(self) -> u8 {
        flag_byte(self.zf, self.nf, self.hf, self.cf)
    }

    /// The accumulator pair: `A` is the high byte, `F` the low byte.
    pub open spec fn af(self) -> u16 {
        compose16(self.a, self.f())
    }

    pub open spec fn b(self) -> u8 {
        high8(self.bc)
    }

    pub open spec fn c(self) -> u8 {
        low8(self.bc)
    }

    pub open spec fn d(self) -> u8 {
        high8(self.de)
    }

    pub open spec fn e(self) -> u8 {
        low8(self.de)
    }

    pub open spec fn h(self) -> u8 {
        high8(self.hl)
    }

    pub open spec fn l(self) -> u8 {
        low8(self.hl)
    }

    /// The value of an 8-bit register.
    pub open spec fn read8(self, r: V8) -> u8 {
        match r {
            V8::A => self.a,
            V8::B => self.b(),
            V8::C => self.c(),
            V8::D => self.d(),
            V8::E => self.e(),
            V8::F => self.f(),
            V8::H => self.h(),
            V8::L => self.l(),
        }
    }

    /// The state after an architectural write to an 8-bit register.
    ///
    /// A write to one half of a pair leaves the other half unchanged. A write
    /// to `F` keeps only the four flag bits: bits 0..3 of `F` are always zero
    /// afterwards.
    pub open spec fn write8(self, r: V8, v: u8) -> CpuState {
        match r {
            V8::A => CpuState { a: v, ..self },
            V8::B => CpuState { bc: compose16(v, self.c()), ..self },
            V8::C => CpuState { bc: compose16(self.b(), v), ..self },
            V8::D => CpuState { de: compose16(v, self.e()), ..self },
            V8::E => CpuState { de: compose16(self.d(), v), ..self },
            V8::F => CpuState {
                zf: bit7(v),
                nf: bit6(v),
                hf: bit5(v),
                cf: bit4(v),
                ..self
            },
            V8::H => CpuState { hl: compose16(v, self.l()), ..self },
            V8::L => CpuState { hl: compose16(self.h(), v), ..self },
        }
    }

    /// The value of a 16-bit register.
    pub open spec fn read16(self, r: V16) -> u16 {
        match r {
            V16::AF => self.af(),
            V16::BC => self.bc,
            V16::DE => self.de,
            V16::HL => self.hl,
            V16::PC => self.pc,
            V16::SP => self.sp,
        }
    }

    /// The state after an architectural write to a 16-bit register.
    ///
    /// A write to `AF` writes the accumulator and the flag register; the low
    /// nibble of the written `F` value is discarded.
    pub open spec fn write16(self, r: V16, v: u16) -> CpuState {
        match r {
            V16::AF => CpuState {
                a: high8(v),
                zf: bit7(low8(v)),
                nf: bit6(low8(v)),
                hf: bit5(low8(v)),
                cf: bit4(low8(v)),
                ..self
            },
            V16::BC => CpuState { bc: v, ..self },
            V16::DE => CpuState { de: v, ..self },
            V16::HL => CpuState { hl: v, ..self },
            V16::PC => CpuState { pc: v, ..self },
            V16::SP => CpuState { sp: v, ..self },
        }
    }

    /// The byte in memory at `addr`.
    pub open spec fn mem_read(self, addr: u16) -> u8 {
        self.mem[addr as int]
    }

    /// The state after writing one byte of memory.
    pub open spec fn mem_write(self, addr: u16, v: u8) -> CpuState {
        CpuState { mem: self.mem.update(addr as int, v), ..self }
    }
}

} // verus!
