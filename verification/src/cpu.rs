//! The executable CPU: the register file, the cycle counter, the mode, and
//! the instruction executor, proved to agree with the mathematical
//! interpreter in [`crate::semantics`].
//!
//! The register file keeps the 16-bit cells `BC`, `DE`, `HL` whole and
//! splits `AF` into the accumulator and four flag booleans, so the low
//! nibble of `F` is zero by construction. The 8-bit views of the cells use
//! one fixed composition everywhere: the low byte is the low half.

use vstd::prelude::*;
use crate::bus::{Bus, OpCode};
use crate::instruction::{
    AddressMove, CpuError, Instruction, decode, pair_for, reg8_for, stack_pair_for,
};
use crate::semantics::{
    add_post, and_post, cp_post, imm8, imm16, or_post, pop16_drop, pop16_val, push16_post,
    rlc_val, rl_val, rrc_val, rr_val, spec_exec, spec_step, sub_post, xor_post,
};
use crate::state::{CpuState, V8, V16, compose, flags_to_byte, high, low};

verus! {

/// What the driver loop does with the CPU: only `Run` executes
/// instructions; in every other mode a step is a no-op.
#[derive(Clone, Copy, Debug, PartialEq, Eq, Structural)]
pub enum CpuMode {
    Run,
    Halt,
    DebugGpu,
    Shutdown,
}

/// The CPU: its bus, register file, cycle counter and mode.
pub struct Cpu {
    bus: Bus,
    bc: u16,
    de: u16,
    hl: u16,
    a: u8,
    zf: bool,
    nf: bool,
    hf: bool,
    cf: bool,
    pc: u16,
    sp: u16,
    cycles: u64,
    mode: CpuMode,
}

/// Something an architectural read can address: an 8-bit register, a 16-bit
/// register, and whatever else a client models. `read_spec` says which value
/// the read returns, as a function of the architectural state.
pub trait Read {
    type Value;

    spec fn read_spec(&self, s: CpuState) -> Self::Value;

    fn read(&self, cpu: &Cpu) -> (v: Self::Value)
        ensures
            v == self.read_spec(cpu@),
    ;
}

/// Something an architectural write can address. `write_spec` says what the
/// architectural state becomes; a write never touches the cycle counter,
/// the mode, or the memory image's size.
pub trait Write {
    type Value;

    spec fn write_spec(&self, s: CpuState, v: Self::Value) -> CpuState;

    fn write(&self, cpu: &mut Cpu, v: Self::Value)
        ensures
            final(cpu)@ == self.write_spec(old(cpu)@, v),
            final(cpu).cycles_spec() == old(cpu).cycles_spec(),
            final(cpu).mode_spec() == old(cpu).mode_spec(),
            final(cpu).wf() == old(cpu).wf(),
    ;
}

impl Read for V8 {
    type Value = u8;

    open spec fn read_spec(&self, s: CpuState) -> u8 {
        s.read8(*self)
    }

    fn read(&self, cpu: &Cpu) -> (v: u8)
        ensures
            v == self.read_spec(cpu@),
    {
        match self {
            V8::A => cpu.a,
            V8::B => high(cpu.bc),
            V8::C => low(cpu.bc),
            V8::D => high(cpu.de),
            V8::E => low(cpu.de),
            V8::F => flags_to_byte(cpu.zf, cpu.nf, cpu.hf, cpu.cf),
            V8::H => high(cpu.hl),
            V8::L => low(cpu.hl),
        }
    }
}

impl Write for V8 {
    type Value = u8;

    open spec fn write_spec(&self, s: CpuState, v: u8) -> CpuState {
        s.write8(*self, v)
    }

    fn write(&self, cpu: &mut Cpu, v: u8)
        ensures
            final(cpu)@ == self.write_spec(old(cpu)@, v),
            final(cpu).cycles_spec() == old(cpu).cycles_spec(),
            final(cpu).mode_spec() == old(cpu).mode_spec(),
            final(cpu).wf() == old(cpu).wf(),
    {
        match self {
            V8::A => {
                cpu.a = v;
            },
            V8::B => {
                cpu.bc = compose(v, low(cpu.bc));
            },
            V8::C => {
                cpu.bc = compose(high(cpu.bc), v);
            },
            V8::D => {
                cpu.de = compose(v, low(cpu.de));
            },
            V8::E => {
                cpu.de = compose(high(cpu.de), v);
            },
            V8::F => {
                cpu.zf = v / 128 % 2 == 1;
                cpu.nf = v / 64 % 2 == 1;
                cpu.hf = v / 32 % 2 == 1;
                cpu.cf = v / 16 % 2 == 1;
            },
            V8::H => {
                cpu.hl = compose(v, low(cpu.hl));
            },
            V8::L => {
                cpu.hl = compose(high(cpu.hl), v);
            },
        }
    }
}

impl Read for V16 {
    type Value = u16;

    open spec fn read_spec(&self, s: CpuState) -> u16 {
        s.read16(*self)
    }

    fn read(&self, cpu: &Cpu) -> (v: u16)
        ensures
            v == self.read_spec(cpu@),
    {
        match self {
            V16::AF => compose(cpu.a, flags_to_byte(cpu.zf, cpu.nf, cpu.hf, cpu.cf)),
            V16::BC => cpu.bc,
            V16::DE => cpu.de,
            V16::HL => cpu.hl,
            V16::PC => cpu.pc,
            V16::SP => cpu.sp,
        }
    }
}

impl Write for V16 {
    type Value = u16;

    open spec fn write_spec(&self, s: CpuState, v: u16) -> CpuState {
        s.write16(*self, v)
    }

    fn write(&self, cpu: &mut Cpu, v: u16)
        ensures
            final(cpu)@ == self.write_spec(old(cpu)@, v),
            final(cpu).cycles_spec() == old(cpu).cycles_spec(),
            final(cpu).mode_spec() == old(cpu).mode_spec(),
            final(cpu).wf() == old(cpu).wf(),
    {
        match self {
            V16::AF => {
                let f = low(v);
                cpu.a = high(v);
                cpu.zf = f / 128 % 2 == 1;
                cpu.nf = f / 64 % 2 == 1;
                cpu.hf = f / 32 % 2 == 1;
                cpu.cf = f / 16 % 2 == 1;
            },
            V16::BC => {
                cpu.bc = v;
            },
            V16::DE => {
                cpu.de = v;
            },
            V16::HL => {
                cpu.hl = v;
            },
            V16::PC => {
                cpu.pc = v;
            },
            V16::SP => {
                cpu.sp = v;
            },
        }
    }
}

impl Cpu {
    /// The architectural state: registers, flags, and the memory image.
    pub closed spec fn view(&self) -> CpuState {
        CpuState {
            bc: self.bc,
            de: self.de,
            hl: self.hl,
            a: self.a,
            zf: self.zf,
            nf: self.nf,
            hf: self.hf,
            cf: self.cf,
            pc: self.pc,
            sp: self.sp,
            mem: self.bus@,
        }
    }

    /// The cycle counter.
    pub closed spec fn cycles_spec(&self) -> u64 {
        self.cycles
    }

    /// The current mode.
    pub closed spec fn mode_spec(&self) -> CpuMode {
        self.mode
    }

    /// The memory image covers the whole address space.
    pub open spec fn wf(&self) -> bool {
        self@.wf()
    }

    /// A CPU in the `Run` mode with all registers zero, the cycle counter
    /// zero, and the given bus.
    pub fn new(bus: Bus) -> (r: Self)
        requires
            bus.wf(),
        ensures
            r.wf(),
            r@ == (CpuState {
                bc: 0,
                de: 0,
                hl: 0,
                a: 0,
                zf: false,
                nf: false,
                hf: false,
                cf: false,
                pc: 0,
                sp: 0,
                mem: bus@,
            }),
            r.cycles_spec() == 0,
            r.mode_spec() == CpuMode::Run,
    {
        Cpu {
            bus,
            bc: 0,
            de: 0,
            hl: 0,
            a: 0,
            zf: false,
            nf: false,
            hf: false,
            cf: false,
            pc: 0,
            sp: 0,
            cycles: 0,
            mode: CpuMode::Run,
        }
    }

    /// Change the mode; observed at the next step boundary.
    pub fn set_mode(&mut self, mode: CpuMode)
        ensures
            final(self)@ == old(self)@,
            final(self).mode_spec() == mode,
            final(self).cycles_spec() == old(self).cycles_spec(),
    {
        self.mode = mode;
    }

    /// Charge one cycle.
    pub fn incr_cycles(&mut self)
        requires
            old(self).cycles_spec() < u64::MAX,
        ensures
            final(self)@ == old(self)@,
            final(self).cycles_spec() == old(self).cycles_spec() + 1,
            final(self).mode_spec() == old(self).mode_spec(),
    {
        self.cycles = self.cycles + 1;
    }

    /// Architectural read of a register: charges one cycle.
    pub fn r<R: Read>(&mut self, reg: R) -> (v: R::Value)
        requires
            old(self).cycles_spec() < u64::MAX,
        ensures
            v == reg.read_spec(old(self)@),
            final(self)@ == old(self)@,
            final(self).cycles_spec() == old(self).cycles_spec() + 1,
            final(self).mode_spec() == old(self).mode_spec(),
    {
        self.incr_cycles();
        reg.read(self)
    }

    /// Architectural write of a register: charges one cycle.
    pub fn w<W: Write>(&mut self, reg: W, value: W::Value)
        requires
            old(self).cycles_spec() < u64::MAX,
        ensures
            final(self)@ == reg.write_spec(old(self)@, value),
            final(self).cycles_spec() == old(self).cycles_spec() + 1,
            final(self).mode_spec() == old(self).mode_spec(),
            final(self).wf() == old(self).wf(),
    {
        self.incr_cycles();
        reg.write(self, value);
    }

    /// Architectural read of one memory byte: charges one cycle.
    fn mem_get(&mut self, addr: u16) -> (v: u8)
        requires
            old(self).wf(),
            old(self).cycles_spec() < u64::MAX,
        ensures
            v == old(self)@.mem_read(addr),
            final(self)@ == old(self)@,
            final(self).cycles_spec() == old(self).cycles_spec() + 1,
            final(self).mode_spec() == old(self).mode_spec(),
    {
        self.incr_cycles();
        self.bus.fetch(addr)
    }

    /// Architectural write of one memory byte: charges one cycle.
    fn mem_put(&mut self, addr: u16, v: u8)
        requires
            old(self).wf(),
            old(self).cycles_spec() < u64::MAX,
        ensures
            final(self)@ == old(self)@.mem_write(addr, v),
            final(self).wf(),
            final(self).cycles_spec() == old(self).cycles_spec() + 1,
            final(self).mode_spec() == old(self).mode_spec(),
    {
        self.incr_cycles();
        self.bus.write_mem(addr, v);
    }

    /// Write the content register's value to memory at the address held in
    /// the address register. Charges three cycles: two register reads and
    /// one memory write.
    pub fn write_mem8(&mut self, addr: V16, content: V8)
        requires
            old(self).wf(),
            old(self).cycles_spec() + 3 <= u64::MAX,
        ensures
            final(self)@ == old(self)@.mem_write(
                old(self)@.read16(addr),
                old(self)@.read8(content),
            ),
            final(self).wf(),
            final(self).cycles_spec() == old(self).cycles_spec() + 3,
            final(self).mode_spec() == old(self).mode_spec(),
    {
        let addr_v = self.r(addr);
        let content_v = self.r(content);
        self.mem_put(addr_v, content_v);
    }

    /// Write a raw byte to a raw address. Charges one cycle: the memory
    /// write itself.
    pub fn write_mem16_raw(&mut self, addr: u16, content: u8)
        requires
            old(self).wf(),
            old(self).cycles_spec() < u64::MAX,
        ensures
            final(self)@ == old(self)@.mem_write(addr, content),
            final(self).wf(),
            final(self).cycles_spec() == old(self).cycles_spec() + 1,
            final(self).mode_spec() == old(self).mode_spec(),
    {
        self.mem_put(addr, content);
    }

    /// Read one memory byte without charging a cycle: an observer's access,
    /// not an architectural one.
    pub fn fetch_mem(&self, addr: u16) -> (v: u8)
        requires
            self.wf(),
        ensures
            v == self@.mem_read(addr),
    {
        self.bus.fetch(addr)
    }

    /// The current program counter. Charges one cycle.
    fn pc(&mut self) -> (v: u16)
        requires
            old(self).cycles_spec() < u64::MAX,
        ensures
            v == old(self)@.pc,
            final(self)@ == old(self)@,
            final(self).cycles_spec() == old(self).cycles_spec() + 1,
            final(self).mode_spec() == old(self).mode_spec(),
    {
        self.r(V16::PC)
    }

    /// The immediate byte of the current instruction: the byte after the
    /// opcode. Charges one cycle.
    fn next_byte(&mut self) -> (v: u8)
        requires
            old(self).wf(),
            old(self).cycles_spec() < u64::MAX,
        ensures
            v == imm8(old(self)@),
            final(self)@ == old(self)@,
            final(self).cycles_spec() == old(self).cycles_spec() + 1,
            final(self).mode_spec() == old(self).mode_spec(),
    {
        let addr = self.pc.wrapping_add(1);
        self.mem_get(addr)
    }

    /// The little-endian immediate word of the current instruction.
    /// Charges two cycles.
    fn next_word(&mut self) -> (v: u16)
        requires
            old(self).wf(),
            old(self).cycles_spec() + 2 <= u64::MAX,
        ensures
            v == imm16(old(self)@),
            final(self)@ == old(self)@,
            final(self).cycles_spec() == old(self).cycles_spec() + 2,
            final(self).mode_spec() == old(self).mode_spec(),
    {
        let lo_addr = self.pc.wrapping_add(1);
        let lo = self.mem_get(lo_addr);
        let hi_addr = self.pc.wrapping_add(2);
        let hi = self.mem_get(hi_addr);
        compose(hi, lo)
    }

    /// Whether the subtract flag is set. Charges one cycle.
    fn subtract_flag(&mut self) -> (v: bool)
        requires
            old(self).cycles_spec() < u64::MAX,
        ensures
            v == old(self)@.nf,
            final(self)@ == old(self)@,
            final(self).cycles_spec() == old(self).cycles_spec() + 1,
            final(self).mode_spec() == old(self).mode_spec(),
    {
        self.incr_cycles();
        self.nf
    }

    /// Whether the zero flag is set. Charges one cycle.
    fn zero_flag(&mut self) -> (v: bool)
        requires
            old(self).cycles_spec() < u64::MAX,
        ensures
            v == old(self)@.zf,
            final(self)@ == old(self)@,
            final(self).cycles_spec() == old(self).cycles_spec() + 1,
            final(self).mode_spec() == old(self).mode_spec(),
    {
        self.incr_cycles();
        self.zf
    }

    /// Whether the half-carry flag is set. Charges one cycle.
    fn half_carry_flag(&mut self) -> (v: bool)
        requires
            old(self).cycles_spec() < u64::MAX,
        ensures
            v == old(self)@.hf,
            final(self)@ == old(self)@,
            final(self).cycles_spec() == old(self).cycles_spec() + 1,
            final(self).mode_spec() == old(self).mode_spec(),
    {
        self.incr_cycles();
        self.hf
    }

    /// Whether the carry flag is set. Charges one cycle.
    fn carry_flag(&mut self) -> (v: bool)
        requires
            old(self).cycles_spec() < u64::MAX,
        ensures
            v == old(self)@.cf,
            final(self)@ == old(self)@,
            final(self).cycles_spec() == old(self).cycles_spec() + 1,
            final(self).mode_spec() == old(self).mode_spec(),
    {
        self.incr_cycles();
        self.cf
    }

    /// Force the subtract flag to `v`. Charges one cycle.
    fn set_subtract(&mut self, v: bool)
        requires
            old(self).cycles_spec() < u64::MAX,
        ensures
            final(self)@ == (CpuState { nf: v, ..old(self)@ }),
            final(self).cycles_spec() == old(self).cycles_spec() + 1,
            final(self).mode_spec() == old(self).mode_spec(),
    {
        self.incr_cycles();
        self.nf = v;
    }

    /// Force the carry flag to `v`. Charges one cycle.
    fn set_carry(&mut self, v: bool)
        requires
            old(self).cycles_spec() < u64::MAX,
        ensures
            final(self)@ == (CpuState { cf: v, ..old(self)@ }),
            final(self).cycles_spec() == old(self).cycles_spec() + 1,
            final(self).mode_spec() == old(self).mode_spec(),
    {
        self.incr_cycles();
        self.cf = v;
    }

    /// Force the half-carry flag to `v`. Charges one cycle.
    fn set_half_carry(&mut self, v: bool)
        requires
            old(self).cycles_spec() < u64::MAX,
        ensures
            final(self)@ == (CpuState { hf: v, ..old(self)@ }),
            final(self).cycles_spec() == old(self).cycles_spec() + 1,
            final(self).mode_spec() == old(self).mode_spec(),
    {
        self.incr_cycles();
        self.hf = v;
    }

    /// Force the zero flag to `v`. Charges one cycle.
    fn set_zero(&mut self, v: bool)
        requires
            old(self).cycles_spec() < u64::MAX,
        ensures
            final(self)@ == (CpuState { zf: v, ..old(self)@ }),
            final(self).cycles_spec() == old(self).cycles_spec() + 1,
            final(self).mode_spec() == old(self).mode_spec(),
    {
        self.incr_cycles();
        self.zf = v;
    }

    /// Rotate a value left circularly, bit 7 into both carry and bit 0.
    /// Sets `C` from bit 7 and clears `Z`, `N`, `H`. Charges four cycles.
    fn rotate_left_circle(&mut self, v: u8) -> (r: u8)
        requires
            old(self).cycles_spec() + 4 <= u64::MAX,
        ensures
            r == rlc_val(v),
            final(self)@ == (CpuState {
                zf: false,
                nf: false,
                hf: false,
                cf: v >= 128,
                ..old(self)@
            }),
            final(self).cycles_spec() == old(self).cycles_spec() + 4,
            final(self).mode_spec() == old(self).mode_spec(),
    {
        self.set_carry(v >= 128);
        self.set_zero(false);
        self.set_subtract(false);
        self.set_half_carry(false);
        (((v as u16) * 2 % 256) as u8) + v / 128
    }

    /// Shift a value left; bit 7 goes to carry, bit 0 becomes zero.
    /// Clears `Z`, `N`, `H`. Charges four cycles.
    fn rotate_left(&mut self, v: u8) -> (r: u8)
        requires
            old(self).cycles_spec() + 4 <= u64::MAX,
        ensures
            r == rl_val(v),
            final(self)@ == (CpuState {
                zf: false,
                nf: false,
                hf: false,
                cf: v >= 128,
                ..old(self)@
            }),
            final(self).cycles_spec() == old(self).cycles_spec() + 4,
            final(self).mode_spec() == old(self).mode_spec(),
    {
        self.set_carry(v >= 128);
        self.set_zero(false);
        self.set_subtract(false);
        self.set_half_carry(false);
        ((v as u16) * 2 % 256) as u8
    }

    /// Rotate a value right circularly, bit 0 into both carry and bit 7.
    /// Clears `Z`, `N`, `H`. Charges four cycles.
    fn rotate_right_circle(&mut self, v: u8) -> (r: u8)
        requires
            old(self).cycles_spec() + 4 <= u64::MAX,
        ensures
            r == rrc_val(v),
            final(self)@ == (CpuState {
                zf: false,
                nf: false,
                hf: false,
                cf: v % 2 == 1,
                ..old(self)@
            }),
            final(self).cycles_spec() == old(self).cycles_spec() + 4,
            final(self).mode_spec() == old(self).mode_spec(),
    {
        self.set_carry(v % 2 == 1);
        self.set_zero(false);
        self.set_subtract(false);
        self.set_half_carry(false);
        v / 2 + (v % 2) * 128
    }

    /// Shift a value right; bit 0 goes to carry, bit 7 becomes zero.
    /// Clears `Z`, `N`, `H`. Charges four cycles.
    fn rotate_right(&mut self, v: u8) -> (r: u8)
        requires
            old(self).cycles_spec() + 4 <= u64::MAX,
        ensures
            r == rr_val(v),
            final(self)@ == (CpuState {
                zf: false,
                nf: false,
                hf: false,
                cf: v % 2 == 1,
                ..old(self)@
            }),
            final(self).cycles_spec() == old(self).cycles_spec() + 4,
            final(self).mode_spec() == old(self).mode_spec(),
    {
        self.set_carry(v % 2 == 1);
        self.set_zero(false);
        self.set_subtract(false);
        self.set_half_carry(false);
        v / 2
    }

    /// `A <- A + y + cin` with the add flag rule. Charges six cycles.
    fn alu_add(&mut self, y: u8, cin: u8)
        requires
            cin <= 1,
            old(self).cycles_spec() + 6 <= u64::MAX,
        ensures
            final(self)@ == add_post(old(self)@, y, cin as int),
            final(self).cycles_spec() == old(self).cycles_spec() + 6,
            final(self).mode_spec() == old(self).mode_spec(),
            final(self).wf() == old(self).wf(),
    {
        let a = self.r(V8::A);
        let total: u16 = a as u16 + y as u16 + cin as u16;
        let res: u8 = if total > 255 {
            (total - 256) as u8
        } else {
            total as u8
        };
        self.set_carry(total > 255);
        self.set_zero(res == 0);
        self.set_subtract(false);
        self.set_half_carry(a % 16 + y % 16 + cin > 15);
        self.w(V8::A, res);
    }

    /// `A <- A - y - cin` with the subtract flag rule. Charges six cycles.
    fn alu_sub(&mut self, y: u8, cin: u8)
        requires
            cin <= 1,
            old(self).cycles_spec() + 6 <= u64::MAX,
        ensures
            final(self)@ == sub_post(old(self)@, y, cin as int),
            final(self).cycles_spec() == old(self).cycles_spec() + 6,
            final(self).mode_spec() == old(self).mode_spec(),
            final(self).wf() == old(self).wf(),
    {
        let a = self.r(V8::A);
        let yc: u16 = y as u16 + cin as u16;
        let res: u8 = if (a as u16) < yc {
            (a as u16 + 256 - yc) as u8
        } else {
            (a as u16 - yc) as u8
        };
        self.set_carry((a as u16) < yc);
        self.set_zero(res == 0);
        self.set_subtract(true);
        self.set_half_carry(((a % 16) as u16) < ((y % 16) as u16) + (cin as u16));
        self.w(V8::A, res);
    }

    /// `A <- A & y`: `N = 0`, `H = 1`, `C = 0`. Charges six cycles.
    fn alu_and(&mut self, y: u8)
        requires
            old(self).cycles_spec() + 6 <= u64::MAX,
        ensures
            final(self)@ == and_post(old(self)@, y),
            final(self).cycles_spec() == old(self).cycles_spec() + 6,
            final(self).mode_spec() == old(self).mode_spec(),
            final(self).wf() == old(self).wf(),
    {
        let a = self.r(V8::A);
        let res = a & y;
        self.set_zero(res == 0);
        self.set_subtract(false);
        self.set_half_carry(true);
        self.set_carry(false);
        self.w(V8::A, res);
    }

    /// `A <- A ^ y`: `N = H = C = 0`. Charges six cycles.
    fn alu_xor(&mut self, y: u8)
        requires
            old(self).cycles_spec() + 6 <= u64::MAX,
        ensures
            final(self)@ == xor_post(old(self)@, y),
            final(self).cycles_spec() == old(self).cycles_spec() + 6,
            final(self).mode_spec() == old(self).mode_spec(),
            final(self).wf() == old(self).wf(),
    {
        let a = self.r(V8::A);
        let res = a ^ y;
        self.set_zero(res == 0);
        self.set_subtract(false);
        self.set_half_carry(false);
        self.set_carry(false);
        self.w(V8::A, res);
    }

    /// `A <- A | y`: `N = H = C = 0`. Charges six cycles.
    fn alu_or(&mut self, y: u8)
        requires
            old(self).cycles_spec() + 6 <= u64::MAX,
        ensures
            final(self)@ == or_post(old(self)@, y),
            final(self).cycles_spec() == old(self).cycles_spec() + 6,
            final(self).mode_spec() == old(self).mode_spec(),
            final(self).wf() == old(self).wf(),
    {
        let a = self.r(V8::A);
        let res = a | y;
        self.set_zero(res == 0);
        self.set_subtract(false);
        self.set_half_carry(false);
        self.set_carry(false);
        self.w(V8::A, res);
    }

    /// Compare `A` with `y`: the flags of a subtraction, `A` untouched.
    /// Charges five cycles.
    fn alu_cp(&mut self, y: u8)
        requires
            old(self).cycles_spec() + 5 <= u64::MAX,
        ensures
            final(self)@ == cp_post(old(self)@, y),
            final(self).cycles_spec() == old(self).cycles_spec() + 5,
            final(self).mode_spec() == old(self).mode_spec(),
            final(self).wf() == old(self).wf(),
    {
        let a = self.r(V8::A);
        self.set_zero(a == y);
        self.set_half_carry(a % 16 < y % 16);
        self.set_subtract(true);
        self.set_carry(a < y);
    }

    /// Push a word: low byte to `SP - 2`, high byte to `SP - 1`, then
    /// `SP <- SP - 2`. Charges four cycles.
    fn push_word(&mut self, v: u16)
        requires
            old(self).wf(),
            old(self).cycles_spec() + 4 <= u64::MAX,
        ensures
            final(self)@ == push16_post(old(self)@, v),
            final(self).wf(),
            final(self).cycles_spec() == old(self).cycles_spec() + 4,
            final(self).mode_spec() == old(self).mode_spec(),
    {
        let sp = self.r(V16::SP);
        self.mem_put(sp.wrapping_sub(2), low(v));
        self.mem_put(sp.wrapping_sub(1), high(v));
        self.w(V16::SP, sp.wrapping_sub(2));
    }

    /// Pop a word: low byte from `SP`, high byte from `SP + 1`, then
    /// `SP <- SP + 2`. Charges four cycles.
    fn pop_word(&mut self) -> (v: u16)
        requires
            old(self).wf(),
            old(self).cycles_spec() + 4 <= u64::MAX,
        ensures
            v == pop16_val(old(self)@),
            final(self)@ == pop16_drop(old(self)@),
            final(self).wf(),
            final(self).cycles_spec() == old(self).cycles_spec() + 4,
            final(self).mode_spec() == old(self).mode_spec(),
    {
        let sp = self.r(V16::SP);
        let lower = self.mem_get(sp);
        let upper = self.mem_get(sp.wrapping_add(1));
        self.w(V16::SP, sp.wrapping_add(2));
        compose(upper, lower)
    }

    /// Run one decoded instruction against the register file and the bus.
    ///
    /// For an implemented kind the result is exactly what the interpreter
    /// [`spec_exec`] says: the same post state, the same program-counter
    /// move, the same cycle charge. For a stub kind nothing happens and the
    /// typed `UnimplementedOpcode` error is returned.
    fn execute(&mut self, instruction: Instruction, op: OpCode) -> (r: Result<
        AddressMove,
        CpuError,
    >)
        requires
            old(self).wf(),
            old(self).cycles_spec() + 16 <= u64::MAX,
        ensures
            final(self).wf(),
            final(self).mode_spec() == old(self).mode_spec(),
            crate::instruction::stub_kind(instruction) ==> r == Err::<AddressMove, CpuError>(
                CpuError::UnimplementedOpcode(op.0),
            ) && final(self)@ == old(self)@
                && final(self).cycles_spec() == old(self).cycles_spec(),
            !crate::instruction::stub_kind(instruction) ==> ({
                let e = spec_exec(old(self)@, instruction, op.0);
                r == Ok::<AddressMove, CpuError>(e.mv) && final(self)@ == e.post
                    && final(self).cycles_spec() == old(self).cycles_spec() + e.cycles
            }),
    {
        match instruction {
            Instruction::Halt
            | Instruction::ReturnInterrupt
            | Instruction::DisableInterrupts
            | Instruction::EnableInterrupts
            | Instruction::AddImmAsSignedToSp
            | Instruction::LoadSignedImmPlusSpInHl
            | Instruction::LoadHlinSp
            | Instruction::TwoByteInstruction => Err(CpuError::UnimplementedOpcode(op.0)),
            Instruction::Load16Mem
            | Instruction::Load8Mem
            | Instruction::StoreXMemHl
            | Instruction::StoreSP => Ok(self.exec_load_store(instruction, op)),
            Instruction::Store8Mem => Ok(self.exec_store8(op)),
            Instruction::Load8into8 => Ok(self.exec_move8(op)),
            Instruction::Load16Meminto8 => Ok(self.exec_load_indirect(op)),
            Instruction::StoreHlIncr
            | Instruction::StoreHlDecr
            | Instruction::Load8MemHlIncr
            | Instruction::Load8MemHlDecr
            | Instruction::StoreAToIoImm
            | Instruction::ReadAFromIoImm
            | Instruction::StoreAToIoC
            | Instruction::ReadAFromIoC => Ok(self.exec_hl_io(instruction, op)),
            Instruction::Increment16
            | Instruction::Decrement16
            | Instruction::Add16toHL
            | Instruction::ComplementA => Ok(self.exec_arith16(instruction, op)),
            Instruction::Increment8
            | Instruction::Decrement8
            | Instruction::IncMemHl
            | Instruction::DecMemHl
            | Instruction::Daa => Ok(self.exec_inc_dec8(instruction, op)),
            Instruction::Add8toA
            | Instruction::AddMemToA
            | Instruction::Add8AndFlagToA
            | Instruction::AddMemHlAndFlagToA
            | Instruction::Sub8fromA
            | Instruction::SubMemToA
            | Instruction::Sub8AndFlagToA
            | Instruction::SubMemHlAndFlagToA
            | Instruction::Add8ImmToA
            | Instruction::Sub8ImmToA
            | Instruction::AddImmAndFlagToA
            | Instruction::SubImmAndFlagToA => Ok(self.exec_add_sub(instruction, op)),
            Instruction::And8A
            | Instruction::AndMemHlA
            | Instruction::Xor8A
            | Instruction::XorMemHlA
            | Instruction::Or8A
            | Instruction::OrMemHlA
            | Instruction::Compare8A
            | Instruction::CompareMemHlA
            | Instruction::And8ImmToA
            | Instruction::Or8ImmToA
            | Instruction::XorImmToA
            | Instruction::CompareImmToA
            | Instruction::RotateLeftCircle
            | Instruction::RotateLeft
            | Instruction::RotateRightCircle
            | Instruction::RotateRight
            | Instruction::SetCarryFlag
            | Instruction::FlipCarryFlag => Ok(self.exec_logic(instruction, op)),
            Instruction::Nop
            | Instruction::JumpRelative
            | Instruction::ReturnIfFlag
            | Instruction::JumpIfFlag
            | Instruction::Jump16
            | Instruction::Return => Ok(self.exec_jumps(instruction, op)),
            Instruction::Pop16
            | Instruction::CallIfFlag
            | Instruction::Push16
            | Instruction::CallN
            | Instruction::Call => Ok(self.exec_stack_calls(instruction, op)),
        }
    }

    /// The load and store family: register moves, immediate loads, the
    /// The plain load and store family: register moves, immediate loads,
    /// The immediate loads and the stack-pointer store.
    #[verifier::rlimit(100)]
    #[verifier::spinoff_prover]
    fn exec_load_store(&mut self, instruction: Instruction, op: OpCode) -> (mv: AddressMove)
        requires
            old(self).wf(),
            old(self).cycles_spec() + 16 <= u64::MAX,
            matches!(instruction,
                Instruction::Load16Mem
                | Instruction::Load8Mem
                | Instruction::StoreXMemHl
                | Instruction::StoreSP),
        ensures
            final(self).wf(),
            final(self).mode_spec() == old(self).mode_spec(),
            ({
                let e = spec_exec(old(self)@, instruction, op.0);
                mv == e.mv && final(self)@ == e.post
                    && final(self).cycles_spec() == old(self).cycles_spec() + e.cycles
            }),
    {
        let b = op.0;
        match instruction {
            Instruction::Load16Mem => {
                let new = self.next_word();
                self.w(pair_for(b / 16), new);
                AddressMove::Add(3)
            },
            Instruction::Load8Mem => {
                let n = self.next_byte();
                self.w(reg8_for(b / 8), n);
                AddressMove::Add(2)
            },
            Instruction::StoreXMemHl => {
                let x = self.next_byte();
                let hl = self.r(V16::HL);
                self.mem_put(hl, x);
                AddressMove::Add(2)
            },
            _ => {
                let pos = self.next_word();
                let sp = self.r(V16::SP);
                self.write_mem16_raw(pos, low(sp));
                self.write_mem16_raw(pos.wrapping_add(1), high(sp));
                AddressMove::Add(3)
            },
        }
    }

    /// The register-to-register moves and the indirect transfers whose
    /// Store one 8-bit register to memory through `BC`, `DE` or `HL`.
    #[verifier::rlimit(100)]
    #[verifier::spinoff_prover]
    fn exec_store8(&mut self, op: OpCode) -> (mv: AddressMove)
        requires
            old(self).wf(),
            old(self).cycles_spec() + 16 <= u64::MAX,
        ensures
            final(self).wf(),
            final(self).mode_spec() == old(self).mode_spec(),
            ({
                let e = spec_exec(old(self)@, Instruction::Store8Mem, op.0);
                mv == e.mv && final(self)@ == e.post
                    && final(self).cycles_spec() == old(self).cycles_spec() + e.cycles
            }),
    {
        let b = op.0;
        let address = if b == 0x02 {
        V16::BC
        } else if b == 0x12 {
        V16::DE
        } else {
        V16::HL
        };
        let content = if b < 0x40 {
        V8::A
        } else {
        reg8_for(b)
        };
        self.write_mem8(address, content);
        AddressMove::Add(1)
    }

    /// Move one 8-bit register into another, both picked from the opcode.
    #[verifier::rlimit(100)]
    #[verifier::spinoff_prover]
    fn exec_move8(&mut self, op: OpCode) -> (mv: AddressMove)
        requires
            old(self).wf(),
            old(self).cycles_spec() + 16 <= u64::MAX,
        ensures
            final(self).wf(),
            final(self).mode_spec() == old(self).mode_spec(),
            ({
                let e = spec_exec(old(self)@, Instruction::Load8into8, op.0);
                mv == e.mv && final(self)@ == e.post
                    && final(self).cycles_spec() == old(self).cycles_spec() + e.cycles
            }),
    {
        let b = op.0;
        let from = reg8_for(b);
        let into = reg8_for(b / 8);
        proof {
            assert(from == crate::instruction::reg8_sel(b % 8));
            assert(into == crate::instruction::reg8_sel(b / 8 % 8));
        }
        let from_value = self.r(from);
        self.w(into, from_value);
        proof {
            assert(self@ =~= spec_exec(old(self)@, Instruction::Load8into8, op.0).post);
        }
        AddressMove::Add(1)
    }

    /// Load an 8-bit register from memory through `BC`, `DE` or `HL`.
    #[verifier::rlimit(100)]
    #[verifier::spinoff_prover]
    fn exec_load_indirect(&mut self, op: OpCode) -> (mv: AddressMove)
        requires
            old(self).wf(),
            old(self).cycles_spec() + 16 <= u64::MAX,
        ensures
            final(self).wf(),
            final(self).mode_spec() == old(self).mode_spec(),
            ({
                let e = spec_exec(old(self)@, Instruction::Load16Meminto8, op.0);
                mv == e.mv && final(self)@ == e.post
                    && final(self).cycles_spec() == old(self).cycles_spec() + e.cycles
            }),
    {
        let b = op.0;
        let addr_reg = if b == 0x0A {
        V16::BC
        } else if b == 0x1A {
        V16::DE
        } else {
        V16::HL
        };
        let into = if b == 0x0A || b == 0x1A {
        V8::A
        } else {
        reg8_for(b / 8)
        };
        let addr = self.r(addr_reg);
        let content = self.mem_get(addr);
        self.w(into, content);
        AddressMove::Add(1)
    }

    /// The `HL`-indirect transfers with post-step, and the IO-page
    /// accesses at `0xFF00 | offset`.
    #[verifier::rlimit(100)]
    #[verifier::spinoff_prover]
    fn exec_hl_io(&mut self, instruction: Instruction, op: OpCode) -> (mv: AddressMove)
        requires
            old(self).wf(),
            old(self).cycles_spec() + 16 <= u64::MAX,
            matches!(instruction,
                Instruction::StoreHlIncr
                | Instruction::StoreHlDecr
                | Instruction::Load8MemHlIncr
                | Instruction::Load8MemHlDecr
                | Instruction::StoreAToIoImm
                | Instruction::ReadAFromIoImm
                | Instruction::StoreAToIoC
                | Instruction::ReadAFromIoC),
        ensures
            final(self).wf(),
            final(self).mode_spec() == old(self).mode_spec(),
            ({
                let e = spec_exec(old(self)@, instruction, op.0);
                mv == e.mv && final(self)@ == e.post
                    && final(self).cycles_spec() == old(self).cycles_spec() + e.cycles
            }),
    {
        let b = op.0;
        match instruction {
            Instruction::StoreHlIncr => {
                let hl = self.r(V16::HL);
                let a = self.r(V8::A);
                self.mem_put(hl, a);
                self.w(V16::HL, hl.wrapping_add(1));
                AddressMove::Add(1)
            },
            Instruction::StoreHlDecr => {
                let hl = self.r(V16::HL);
                let a = self.r(V8::A);
                self.mem_put(hl, a);
                self.w(V16::HL, hl.wrapping_sub(1));
                AddressMove::Add(1)
            },
            Instruction::Load8MemHlIncr => {
                let position = self.r(V16::HL);
                let content = self.mem_get(position);
                self.w(V8::A, content);
                self.w(V16::HL, position.wrapping_add(1));
                AddressMove::Add(1)
            },
            Instruction::Load8MemHlDecr => {
                let position = self.r(V16::HL);
                let content = self.mem_get(position);
                self.w(V8::A, content);
                self.w(V16::HL, position.wrapping_sub(1));
                AddressMove::Add(1)
            },
            Instruction::StoreAToIoImm => {
                let offset = self.next_byte();
                let a = self.r(V8::A);
                self.mem_put(compose(0xFF, offset), a);
                AddressMove::Add(2)
            },
            Instruction::ReadAFromIoImm => {
                let offset = self.next_byte();
                let content = self.mem_get(compose(0xFF, offset));
                self.w(V8::A, content);
                AddressMove::Add(2)
            },
            Instruction::StoreAToIoC => {
                let offset = self.r(V8::C);
                let a = self.r(V8::A);
                self.mem_put(compose(0xFF, offset), a);
                AddressMove::Add(1)
            },
            _ => {
                let offset = self.r(V8::C);
                let content = self.mem_get(compose(0xFF, offset));
                self.w(V8::A, content);
                AddressMove::Add(1)
            },
        }
    }

    /// The 16-bit increment, decrement and add family, and the
    /// accumulator complement.
    #[verifier::rlimit(100)]
    #[verifier::spinoff_prover]
    fn exec_arith16(&mut self, instruction: Instruction, op: OpCode) -> (mv: AddressMove)
        requires
            old(self).wf(),
            old(self).cycles_spec() + 16 <= u64::MAX,
            matches!(instruction,
                Instruction::Increment16
                | Instruction::Decrement16
                | Instruction::Add16toHL
                | Instruction::ComplementA),
        ensures
            final(self).wf(),
            final(self).mode_spec() == old(self).mode_spec(),
            ({
                let e = spec_exec(old(self)@, instruction, op.0);
                mv == e.mv && final(self)@ == e.post
                    && final(self).cycles_spec() == old(self).cycles_spec() + e.cycles
            }),
    {
        let b = op.0;
        match instruction {
            Instruction::Increment16 => {
                let reg = pair_for(b / 16);
                let old_v = self.r(reg);
                self.w(reg, old_v.wrapping_add(1));
                AddressMove::Add(1)
            },
            Instruction::Decrement16 => {
                let reg = pair_for(b / 16);
                let old_v = self.r(reg);
                self.w(reg, old_v.wrapping_sub(1));
                AddressMove::Add(1)
            },
            Instruction::Add16toHL => {
                let current = self.r(V16::HL);
                let add_v = self.r(pair_for(b / 16));
                let new = current.wrapping_add(add_v);
                self.set_carry(current as u32 + add_v as u32 > 0xFFFF);
                self.set_subtract(false);
                self.set_half_carry((current ^ add_v ^ new) & 0x1000 != 0);
                self.w(V16::HL, new);
                AddressMove::Add(1)
            },
            _ => {
                let old_v = self.r(V8::A);
                self.w(V8::A, 255 - old_v);
                self.set_half_carry(true);
                self.set_subtract(true);
                AddressMove::Add(1)
            },
        }
    }

    /// The 8-bit increment and decrement family, and the decimal adjust.
    #[verifier::rlimit(100)]
    #[verifier::spinoff_prover]
    fn exec_inc_dec8(&mut self, instruction: Instruction, op: OpCode) -> (mv: AddressMove)
        requires
            old(self).wf(),
            old(self).cycles_spec() + 16 <= u64::MAX,
            matches!(instruction,
                Instruction::Increment8
                | Instruction::Decrement8
                | Instruction::IncMemHl
                | Instruction::DecMemHl
                | Instruction::Daa),
        ensures
            final(self).wf(),
            final(self).mode_spec() == old(self).mode_spec(),
            ({
                let e = spec_exec(old(self)@, instruction, op.0);
                mv == e.mv && final(self)@ == e.post
                    && final(self).cycles_spec() == old(self).cycles_spec() + e.cycles
            }),
    {
        let b = op.0;
        match instruction {
            Instruction::Increment8 => {
                let reg = reg8_for(b / 8);
                let old_v = self.r(reg);
                self.set_zero(old_v == 255);
                self.set_subtract(false);
                self.set_half_carry(old_v % 16 == 15);
                self.w(reg, old_v.wrapping_add(1));
                AddressMove::Add(1)
            },
            Instruction::Decrement8 => {
                let reg = reg8_for(b / 8);
                let old_v = self.r(reg);
                self.set_zero(old_v == 1);
                self.set_subtract(true);
                self.set_half_carry(old_v % 16 == 0);
                self.w(reg, old_v.wrapping_sub(1));
                AddressMove::Add(1)
            },
            Instruction::IncMemHl => {
                let hl = self.r(V16::HL);
                let n = self.mem_get(hl);
                let res = n.wrapping_add(1);
                self.mem_put(hl, res);
                self.set_subtract(false);
                self.set_zero(res == 0);
                self.set_half_carry(n % 16 == 15);
                AddressMove::Add(1)
            },
            Instruction::DecMemHl => {
                let hl = self.r(V16::HL);
                let n = self.mem_get(hl);
                let res = n.wrapping_sub(1);
                self.mem_put(hl, res);
                self.set_subtract(true);
                self.set_zero(res == 0);
                self.set_half_carry(n % 16 == 0);
                AddressMove::Add(1)
            },
            _ => {
                let a = self.r(V8::A);
                let hf = self.half_carry_flag();
                let cf = self.carry_flag();
                let nf = self.subtract_flag();
                let adj6 = hf || (nf && a % 16 > 9);
                let adj60 = cf || (nf && a >= 0xA0);
                let adjust: u8 = (if adj6 {
                    6u8
                } else {
                    0u8
                }) + (if adj60 {
                    0x60u8
                } else {
                    0u8
                });
                let total: u16 = a as u16 + adjust as u16;
                let res: u8 = (total % 256) as u8;
                self.w(V8::A, res);
                self.set_carry(total > 255);
                self.set_zero(res == 0);
                self.set_half_carry(false);
                AddressMove::Add(1)
            },
        }
    }

    /// The 8-bit add and subtract family, with and without carry-in.
    #[verifier::rlimit(100)]
    #[verifier::spinoff_prover]
    fn exec_add_sub(&mut self, instruction: Instruction, op: OpCode) -> (mv: AddressMove)
        requires
            old(self).wf(),
            old(self).cycles_spec() + 16 <= u64::MAX,
            matches!(instruction,
                Instruction::Add8toA
                | Instruction::AddMemToA
                | Instruction::Add8AndFlagToA
                | Instruction::AddMemHlAndFlagToA
                | Instruction::Sub8fromA
                | Instruction::SubMemToA
                | Instruction::Sub8AndFlagToA
                | Instruction::SubMemHlAndFlagToA
                | Instruction::Add8ImmToA
                | Instruction::Sub8ImmToA
                | Instruction::AddImmAndFlagToA
                | Instruction::SubImmAndFlagToA),
        ensures
            final(self).wf(),
            final(self).mode_spec() == old(self).mode_spec(),
            ({
                let e = spec_exec(old(self)@, instruction, op.0);
                mv == e.mv && final(self)@ == e.post
                    && final(self).cycles_spec() == old(self).cycles_spec() + e.cycles
            }),
    {
        let b = op.0;
        match instruction {
            Instruction::Add8toA => {
                let add_v = self.r(reg8_for(b));
                self.alu_add(add_v, 0);
                AddressMove::Add(1)
            },
            Instruction::AddMemToA => {
                let hl = self.r(V16::HL);
                let content = self.mem_get(hl);
                self.alu_add(content, 0);
                AddressMove::Add(1)
            },
            Instruction::Add8AndFlagToA => {
                let adder = self.r(reg8_for(b));
                let carry = if self.carry_flag() {
                    1u8
                } else {
                    0u8
                };
                self.alu_add(adder, carry);
                AddressMove::Add(1)
            },
            Instruction::AddMemHlAndFlagToA => {
                let position = self.r(V16::HL);
                let adder = self.mem_get(position);
                let carry = if self.carry_flag() {
                    1u8
                } else {
                    0u8
                };
                self.alu_add(adder, carry);
                AddressMove::Add(1)
            },
            Instruction::Sub8fromA => {
                let sub_v = self.r(reg8_for(b));
                self.alu_sub(sub_v, 0);
                AddressMove::Add(1)
            },
            Instruction::SubMemToA => {
                let hl = self.r(V16::HL);
                let content = self.mem_get(hl);
                self.alu_sub(content, 0);
                AddressMove::Add(1)
            },
            Instruction::Sub8AndFlagToA => {
                let sub_v = self.r(reg8_for(b));
                let carry = if self.carry_flag() {
                    1u8
                } else {
                    0u8
                };
                self.alu_sub(sub_v, carry);
                AddressMove::Add(1)
            },
            Instruction::SubMemHlAndFlagToA => {
                let hl = self.r(V16::HL);
                let content = self.mem_get(hl);
                let carry = if self.carry_flag() {
                    1u8
                } else {
                    0u8
                };
                self.alu_sub(content, carry);
                AddressMove::Add(1)
            },
            Instruction::Add8ImmToA => {
                let add_v = self.next_byte();
                self.alu_add(add_v, 0);
                AddressMove::Add(2)
            },
            Instruction::Sub8ImmToA => {
                let sub_v = self.next_byte();
                self.alu_sub(sub_v, 0);
                AddressMove::Add(2)
            },
            Instruction::AddImmAndFlagToA => {
                let add_v = self.next_byte();
                let carry = if self.carry_flag() {
                    1u8
                } else {
                    0u8
                };
                self.alu_add(add_v, carry);
                AddressMove::Add(2)
            },
            _ => {
                let sub_v = self.next_byte();
                let carry = if self.carry_flag() {
                    1u8
                } else {
                    0u8
                };
                self.alu_sub(sub_v, carry);
                AddressMove::Add(2)
            },
        }
    }

    /// The bitwise, compare, rotate and carry-flag family.
    #[verifier::rlimit(100)]
    #[verifier::spinoff_prover]
    fn exec_logic(&mut self, instruction: Instruction, op: OpCode) -> (mv: AddressMove)
        requires
            old(self).wf(),
            old(self).cycles_spec() + 16 <= u64::MAX,
            matches!(instruction,
                Instruction::And8A
                | Instruction::AndMemHlA
                | Instruction::Xor8A
                | Instruction::XorMemHlA
                | Instruction::Or8A
                | Instruction::OrMemHlA
                | Instruction::Compare8A
                | Instruction::CompareMemHlA
                | Instruction::And8ImmToA
                | Instruction::Or8ImmToA
                | Instruction::XorImmToA
                | Instruction::CompareImmToA
                | Instruction::RotateLeftCircle
                | Instruction::RotateLeft
                | Instruction::RotateRightCircle
                | Instruction::RotateRight
                | Instruction::SetCarryFlag
                | Instruction::FlipCarryFlag),
        ensures
            final(self).wf(),
            final(self).mode_spec() == old(self).mode_spec(),
            ({
                let e = spec_exec(old(self)@, instruction, op.0);
                mv == e.mv && final(self)@ == e.post
                    && final(self).cycles_spec() == old(self).cycles_spec() + e.cycles
            }),
    {
        let b = op.0;
        match instruction {
            Instruction::And8A => {
                let sec = self.r(reg8_for(b));
                self.alu_and(sec);
                AddressMove::Add(1)
            },
            Instruction::AndMemHlA => {
                let position = self.r(V16::HL);
                let content = self.mem_get(position);
                self.alu_and(content);
                AddressMove::Add(1)
            },
            Instruction::Xor8A => {
                let sec = self.r(reg8_for(b));
                self.alu_xor(sec);
                AddressMove::Add(1)
            },
            Instruction::XorMemHlA => {
                let position = self.r(V16::HL);
                let content = self.mem_get(position);
                self.alu_xor(content);
                AddressMove::Add(1)
            },
            Instruction::Or8A => {
                let sec = self.r(reg8_for(b));
                self.alu_or(sec);
                AddressMove::Add(1)
            },
            Instruction::OrMemHlA => {
                let position = self.r(V16::HL);
                let content = self.mem_get(position);
                self.alu_or(content);
                AddressMove::Add(1)
            },
            Instruction::Compare8A => {
                let cmp = self.r(reg8_for(b));
                self.alu_cp(cmp);
                AddressMove::Add(1)
            },
            Instruction::CompareMemHlA => {
                let position = self.r(V16::HL);
                let cmp = self.mem_get(position);
                self.alu_cp(cmp);
                AddressMove::Add(1)
            },
            Instruction::And8ImmToA => {
                let sec = self.next_byte();
                self.alu_and(sec);
                AddressMove::Add(2)
            },
            Instruction::Or8ImmToA => {
                let sec = self.next_byte();
                self.alu_or(sec);
                AddressMove::Add(2)
            },
            Instruction::XorImmToA => {
                let sec = self.next_byte();
                self.alu_xor(sec);
                AddressMove::Add(2)
            },
            Instruction::CompareImmToA => {
                let cmp = self.next_byte();
                self.alu_cp(cmp);
                AddressMove::Add(2)
            },
            Instruction::RotateLeftCircle => {
                let a = self.r(V8::A);
                let a2 = self.rotate_left_circle(a);
                self.w(V8::A, a2);
                AddressMove::Add(1)
            },
            Instruction::RotateLeft => {
                let a = self.r(V8::A);
                let a2 = self.rotate_left(a);
                self.w(V8::A, a2);
                AddressMove::Add(1)
            },
            Instruction::RotateRightCircle => {
                let a = self.r(V8::A);
                let a2 = self.rotate_right_circle(a);
                self.w(V8::A, a2);
                AddressMove::Add(1)
            },
            Instruction::RotateRight => {
                let a = self.r(V8::A);
                let a2 = self.rotate_right(a);
                self.w(V8::A, a2);
                AddressMove::Add(1)
            },
            Instruction::SetCarryFlag => {
                self.set_carry(true);
                self.set_half_carry(false);
                self.set_subtract(false);
                AddressMove::Add(1)
            },
            _ => {
                let current = self.carry_flag();
                self.set_carry(!current);
                self.set_half_carry(false);
                self.set_subtract(false);
                AddressMove::Add(1)
            },
        }
    }

    /// The jump and return family, including the conditional forms.
    #[verifier::rlimit(100)]
    #[verifier::spinoff_prover]
    fn exec_jumps(&mut self, instruction: Instruction, op: OpCode) -> (mv: AddressMove)
        requires
            old(self).wf(),
            old(self).cycles_spec() + 16 <= u64::MAX,
            matches!(instruction,
                Instruction::Nop
                | Instruction::JumpRelative
                | Instruction::ReturnIfFlag
                | Instruction::JumpIfFlag
                | Instruction::Jump16
                | Instruction::Return),
        ensures
            final(self).wf(),
            final(self).mode_spec() == old(self).mode_spec(),
            ({
                let e = spec_exec(old(self)@, instruction, op.0);
                mv == e.mv && final(self)@ == e.post
                    && final(self).cycles_spec() == old(self).cycles_spec() + e.cycles
            }),
    {
        let b = op.0;
        match instruction {
            Instruction::Nop => AddressMove::Add(1),
            Instruction::JumpRelative => {
                let distance = self.next_byte();
                let ext: u32 = if distance < 128 {
                    distance as u32
                } else {
                    distance as u32 + 0xFF00
                };
                let target = ((self.pc as u32 + 2 + ext) % 0x10000) as u16;
                let taken = if b == 0x18 {
                    true
                } else {
                    let code = b / 8 % 4;
                    if code == 0 {
                        !self.zero_flag()
                    } else if code == 1 {
                        self.zero_flag()
                    } else if code == 2 {
                        !self.carry_flag()
                    } else {
                        self.carry_flag()
                    }
                };
                if taken {
                    AddressMove::To(target)
                } else {
                    AddressMove::Add(2)
                }
            },
            Instruction::ReturnIfFlag => {
                let code = b / 8 % 4;
                let should_return = if code == 0 {
                    !self.zero_flag()
                } else if code == 1 {
                    self.zero_flag()
                } else if code == 2 {
                    !self.carry_flag()
                } else {
                    self.carry_flag()
                };
                if should_return {
                    let target = self.pop_word();
                    AddressMove::To(target)
                } else {
                    AddressMove::Add(1)
                }
            },
            Instruction::JumpIfFlag => {
                let addr = self.next_word();
                let code = b / 8 % 4;
                let should_jump = if code == 0 {
                    !self.zero_flag()
                } else if code == 1 {
                    self.zero_flag()
                } else if code == 2 {
                    !self.carry_flag()
                } else {
                    self.carry_flag()
                };
                if should_jump {
                    AddressMove::To(addr)
                } else {
                    AddressMove::Add(3)
                }
            },
            Instruction::Jump16 => {
                if b == 0xC3 {
                    let addr = self.next_word();
                    AddressMove::To(addr)
                } else {
                    let addr = self.r(V16::HL);
                    AddressMove::To(addr)
                }
            },
            _ => {
                let target = self.pop_word();
                AddressMove::To(target)
            },
        }
    }

    /// The stack and call family: pushes, pops, calls and restarts.
    #[verifier::rlimit(100)]
    #[verifier::spinoff_prover]
    fn exec_stack_calls(&mut self, instruction: Instruction, op: OpCode) -> (mv: AddressMove)
        requires
            old(self).wf(),
            old(self).cycles_spec() + 16 <= u64::MAX,
            matches!(instruction,
                Instruction::Pop16
                | Instruction::CallIfFlag
                | Instruction::Push16
                | Instruction::CallN
                | Instruction::Call),
        ensures
            final(self).wf(),
            final(self).mode_spec() == old(self).mode_spec(),
            ({
                let e = spec_exec(old(self)@, instruction, op.0);
                mv == e.mv && final(self)@ == e.post
                    && final(self).cycles_spec() == old(self).cycles_spec() + e.cycles
            }),
    {
        let b = op.0;
        match instruction {
            Instruction::Pop16 => {
                let value = self.pop_word();
                self.w(stack_pair_for(b / 16), value);
                AddressMove::Add(1)
            },
            Instruction::CallIfFlag => {
                let addr = self.next_word();
                let code = b / 8 % 4;
                let should_call = if code == 0 {
                    !self.zero_flag()
                } else if code == 1 {
                    self.zero_flag()
                } else if code == 2 {
                    !self.carry_flag()
                } else {
                    self.carry_flag()
                };
                if should_call {
                    let pc_v = self.r(V16::PC);
                    self.push_word(pc_v.wrapping_add(3));
                    AddressMove::To(addr)
                } else {
                    AddressMove::Add(3)
                }
            },
            Instruction::Push16 => {
                let content = self.r(stack_pair_for(b / 16));
                self.push_word(content);
                AddressMove::Add(1)
            },
            Instruction::CallN => {
                let pc_v = self.r(V16::PC);
                self.push_word(pc_v.wrapping_add(1));
                AddressMove::To((b & 0x38) as u16)
            },
            _ => {
                let new_pc = self.next_word();
                let pc_v = self.r(V16::PC);
                self.push_word(pc_v.wrapping_add(3));
                AddressMove::To(new_pc)
            },
        }
    }

    /// Execute one instruction at the program counter and commit the
    /// program-counter move: exactly what [`spec_step`] says, including the
    /// returned cycle count. In any mode but `Run`, a no-op returning zero
    /// cycles. On an error the architectural state is untouched and only
    /// the two fetch cycles were charged.
    pub fn step(&mut self) -> (r: Result<u64, CpuError>)
        requires
            old(self).wf(),
        ensures
            final(self).wf(),
            final(self).mode_spec() == old(self).mode_spec(),
            old(self).mode_spec() != CpuMode::Run ==> r == Ok::<u64, CpuError>(0)
                && final(self)@ == old(self)@
                && final(self).cycles_spec() == old(self).cycles_spec(),
            old(self).mode_spec() == CpuMode::Run ==> match spec_step(old(self)@) {
                Result::Ok(e) => r == Ok::<u64, CpuError>(e.cycles as u64)
                    && final(self)@ == e.post && final(self).cycles_spec() == e.cycles,
                Result::Err(err) => r == Err::<u64, CpuError>(err)
                    && final(self)@ == old(self)@ && final(self).cycles_spec() == 2,
            },
    {
        if self.mode != CpuMode::Run {
            return Ok(0);
        }
        self.cycles = 0;
        let pc_v = self.pc();
        self.incr_cycles();
        let op = self.bus.fetch_op(pc_v);
        match decode(op) {
            None => Err(CpuError::DecoderGap(op.0)),
            Some(instruction) => {
                match self.execute(instruction, op) {
                    Err(e) => Err(e),
                    Ok(address_move) => {
                        self.w(V16::PC, address_move.apply(pc_v));
                        Ok(self.cycles)
                    },
                }
            },
        }
    }
}

} // verus!
