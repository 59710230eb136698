use vstd::prelude::*;
use crate::decoder::{decode, decode_spec, DecodeError};
use crate::itxs::Instruction;
use crate::memory::{
    load_word_spec, word_access_error, word_access_ok, write_word, Memory, MemoryError,
};
use crate::constants::{DEFAULT_MEMORY_SIZE, MAX_MEMORY_SIZE};

verus! {

/// Why a step or the execution of an instruction failed.
#[derive(Debug, PartialEq)]
pub enum CPUError {
    Memory(MemoryError),
    Decode(DecodeError),
    InvalidOperation { funct7: u8 },
}

impl From<MemoryError> for CPUError {
    fn from(e: MemoryError) -> (r: Self) {
        CPUError::Memory(e)
    }
}

impl vstd::std_specs::convert::FromSpecImpl<MemoryError> for CPUError {
    open spec fn obeys_from_spec() -> bool {
        true
    }

    open spec fn from_spec(e: MemoryError) -> Self {
        CPUError::Memory(e)
    }
}

impl From<DecodeError> for CPUError {
    fn from(e: DecodeError) -> (r: Self) {
        CPUError::Decode(e)
    }
}

impl vstd::std_specs::convert::FromSpecImpl<DecodeError> for CPUError {
    open spec fn obeys_from_spec() -> bool {
        true
    }

    open spec fn from_spec(e: DecodeError) -> Self {
        CPUError::Decode(e)
    }
}

pub type StepResult = Instruction;

/// The machine as contracts see it: the 32 registers as they read (the
/// first always 0), the program counter and the bytes of memory.
pub struct CpuState {
    pub regs: Seq<u32>,
    pub pc: u32,
    pub mem: Seq<u8>,
}

/// `x` reduced to 32 bits.
pub open spec fn wrap32(x: int) -> u32 {
    (x % 0x1_0000_0000) as u32
}

/// The two's complement value of a word.
pub open spec fn signed(x: u32) -> int {
    if x >= 0x8000_0000 {
        x - 0x1_0000_0000
    } else {
        x as int
    }
}

/// The quotient of `x` by `d`, rounded toward zero.
pub open spec fn div_toward_zero(x: int, d: int) -> int
    recommends
        d != 0,
{
    if x >= 0 && d > 0 {
        x / d
    } else if x < 0 && d < 0 {
        (-x) / (-d)
    } else if x < 0 {
        -((-x) / d)
    } else {
        -(x / (-d))
    }
}

/// What is left of `x` after `div_toward_zero(x, d)`; it has the sign of `x`.
pub open spec fn rem_toward_zero(x: int, d: int) -> int
    recommends
        d != 0,
{
    if x >= 0 && d > 0 {
        x % d
    } else if x < 0 && d < 0 {
        -((-x) % (-d))
    } else if x < 0 {
        -((-x) % d)
    } else {
        x % (-d)
    }
}

/// Signed division of words; a zero divisor gives all ones, and the one
/// quotient that does not fit wraps.
pub open spec fn div_spec(a: u32, b: u32) -> u32 {
    if b == 0 {
        0xFFFF_FFFF
    } else {
        wrap32(div_toward_zero(signed(a), signed(b)))
    }
}

/// Unsigned division of words; a zero divisor gives the largest word.
pub open spec fn divu_spec(a: u32, b: u32) -> u32 {
    if b == 0 {
        0xFFFF_FFFF
    } else {
        (a / b) as u32
    }
}

/// Signed remainder of words; a zero divisor gives the dividend.
pub open spec fn rem_spec(a: u32, b: u32) -> u32 {
    if b == 0 {
        a
    } else {
        wrap32(rem_toward_zero(signed(a), signed(b)))
    }
}

/// Unsigned remainder of words; a zero divisor gives the dividend.
pub open spec fn remu_spec(a: u32, b: u32) -> u32 {
    if b == 0 {
        a
    } else {
        (a % b) as u32
    }
}

/// `v` shifted right by `shamt`, the vacated bits filled with its top bit.
pub open spec fn sra_spec(v: u32, shamt: u8) -> u32
    recommends
        shamt < 32,
{
    if v & 0x8000_0000 != 0 {
        (v >> shamt) | !(0xFFFF_FFFFu32 >> shamt)
    } else {
        v >> shamt
    }
}

/// What a shift-immediate instruction computes: a sign-extending right
/// shift where the flag is set, a left shift where it is not.
pub open spec fn shift_spec(v: u32, shamt: u8, is_srai: bool) -> u32
    recommends
        shamt < 32,
{
    if is_srai {
        sra_spec(v, shamt)
    } else {
        v << shamt
    }
}

impl CpuState {
    /// The state after a write of `value` to register `idx`: nothing changes
    /// for register 0, nor for an index that names no register.
    pub open spec fn with_reg(self, idx: int, value: u32) -> CpuState {
        if 0 < idx < 32 {
            CpuState { regs: self.regs.update(idx, value), pc: self.pc, mem: self.mem }
        } else {
            self
        }
    }

    pub open spec fn with_pc(self, pc: u32) -> CpuState {
        CpuState { regs: self.regs, pc, mem: self.mem }
    }

    pub open spec fn with_mem(self, mem: Seq<u8>) -> CpuState {
        CpuState { regs: self.regs, pc: self.pc, mem }
    }

    /// The state in which a machine is made: registers and counter zero,
    /// `size` zero bytes of memory.
    pub open spec fn initial(size: nat) -> CpuState {
        CpuState { regs: Seq::new(32, |i: int| 0u32), pc: 0, mem: Seq::new(size, |i: int| 0u8) }
    }
}

/// What executing `instr` in state `s` gives: the next state, or the error,
/// and then the state stays as it is.
pub open spec fn execute_spec(s: CpuState, instr: Instruction) -> Result<CpuState, CPUError>
    recommends
        instr.operands_in_range(),
        s.regs.len() == 32,
{
    match instr {
        Instruction::LUI { rd, imm } => Ok(s.with_reg(rd as int, imm)),
        Instruction::AUIPC { rd, imm } => Ok(s.with_reg(rd as int, wrap32(s.pc + imm))),
        Instruction::JAL { rd, imm } => Ok(
            s.with_reg(rd as int, wrap32(s.pc + 4)).with_pc(wrap32(s.pc + imm)),
        ),
        Instruction::JALR { rd, rs1, imm } => {
            let linked = s.with_reg(rd as int, wrap32(s.pc + 4));
            Ok(linked.with_pc(wrap32(linked.regs[rs1 as int] + imm) & 0xFFFF_FFFE))
        },
        Instruction::OP_IMM { rd, rs1, imm } => Ok(
            s.with_reg(rd as int, wrap32(s.regs[rs1 as int] + imm)),
        ),
        Instruction::SHIFT_IMM { rd, rs1, shamt, is_srai } => Ok(
            s.with_reg(rd as int, shift_spec(s.regs[rs1 as int], shamt, is_srai)),
        ),
        Instruction::LOAD { rd, rs1, imm } => {
            match load_word_spec(s.mem, wrap32(s.regs[rs1 as int] + imm)) {
                Ok(word) => Ok(s.with_reg(rd as int, word)),
                Err(e) => Err(CPUError::Memory(e)),
            }
        },
        Instruction::STORE { rs1, rs2, imm } => {
            let addr = wrap32(s.regs[rs1 as int] + imm);
            if word_access_ok(addr, s.mem.len() as int) {
                Ok(s.with_mem(write_word(s.mem, addr as int, s.regs[rs2 as int])))
            } else {
                Err(CPUError::Memory(word_access_error(addr, s.mem.len())))
            }
        },
        Instruction::BRANCH { rs1, rs2, imm } => {
            if s.regs[rs1 as int] == s.regs[rs2 as int] {
                Ok(s.with_pc(wrap32(s.pc + imm)))
            } else {
                Ok(s)
            }
        },
        Instruction::OP { rd, rs1, rs2, funct7 } => {
            if funct7 == 0x00 {
                Ok(s.with_reg(rd as int, wrap32(s.regs[rs1 as int] + s.regs[rs2 as int])))
            } else if funct7 == 0x20 {
                Ok(s.with_reg(rd as int, wrap32(s.regs[rs1 as int] - s.regs[rs2 as int])))
            } else {
                Err(CPUError::InvalidOperation { funct7 })
            }
        },
        Instruction::ECALL | Instruction::EBREAK => Ok(s),
        Instruction::MUL { rd, rs1, rs2 } => Ok(
            s.with_reg(rd as int, wrap32(s.regs[rs1 as int] * s.regs[rs2 as int])),
        ),
        Instruction::DIV { rd, rs1, rs2 } => Ok(
            s.with_reg(rd as int, div_spec(s.regs[rs1 as int], s.regs[rs2 as int])),
        ),
        Instruction::DIVU { rd, rs1, rs2 } => Ok(
            s.with_reg(rd as int, divu_spec(s.regs[rs1 as int], s.regs[rs2 as int])),
        ),
        Instruction::REM { rd, rs1, rs2 } => Ok(
            s.with_reg(rd as int, rem_spec(s.regs[rs1 as int], s.regs[rs2 as int])),
        ),
        Instruction::REMU { rd, rs1, rs2 } => Ok(
            s.with_reg(rd as int, remu_spec(s.regs[rs1 as int], s.regs[rs2 as int])),
        ),
    }
}

/// What one step in state `s` returns: the instruction at the counter, or
/// why none could be fetched or decoded.
pub open spec fn step_spec(s: CpuState) -> Result<Instruction, CPUError> {
    match load_word_spec(s.mem, s.pc) {
        Err(e) => Err(CPUError::Memory(e)),
        Ok(word) => match decode_spec(word) {
            Err(e) => Err(CPUError::Decode(e)),
            Ok(instr) => Ok(instr),
        },
    }
}

/// The register file as it reads: slot 0 gives 0 whatever it holds.
#[verifier::opaque]
pub open spec fn readable(regs: [u32; 32]) -> Seq<u32> {
    Seq::new(
        32,
        |i: int|
            if i == 0 {
                0u32
            } else {
                regs@[i]
            },
    )
}

/// A register machine: 32 registers, a program counter and its memory.
pub struct CPU {
    pub regs: [u32; 32],
    pub pc: u32,
    pub memory: Memory,
}

impl View for CPU {
    type V = CpuState;

    open spec fn view(&self) -> CpuState {
        CpuState { regs: readable(self.regs), pc: self.pc, mem: self.memory@ }
    }
}

impl Default for CPU {
    fn default() -> (r: Self)
        ensures
            r@ == CpuState::initial(DEFAULT_MEMORY_SIZE as nat),
    {
        let cpu = CPU { regs: [0;32], pc: 0, memory: Memory::default() };
        reveal(readable);
        assert(cpu@.regs =~= Seq::new(32, |i: int| 0u32));
        cpu
    }
}

impl CPU {
    /// There are 32 registers; the first reads as 0 in every state of the
    /// machine, and a write to it, whatever the value, leaves the state as
    /// it is.
    pub proof fn lemma_register_zero(&self)
        ensures
            self@.regs.len() == 32,
            self@.regs[0] == 0,
            forall|value: u32| #[trigger] self@.with_reg(0, value) == self@,
    {
        reveal(readable);
    }

    /// A machine in its initial state with `mem_size` bytes of memory;
    /// refused as the memory is.
    pub fn new(mem_size: usize) -> (r: Result<Self, MemoryError>)
        ensures
            1 <= mem_size <= MAX_MEMORY_SIZE ==> r is Ok && r->Ok_0@ == CpuState::initial(
                mem_size as nat,
            ),
            !(1 <= mem_size <= MAX_MEMORY_SIZE) ==> r is Err && r->Err_0 == (
            MemoryError::OutOfBounds { addr: mem_size as u32, size: MAX_MEMORY_SIZE }),
    {
        match Memory::new(mem_size) {
            Ok(memory) => {
                let cpu = CPU { regs: [0;32], pc: 0, memory };
                reveal(readable);
                assert(cpu@.regs =~= Seq::new(32, |i: int| 0u32));
                Ok(cpu)
            },
            Err(e) => Err(e),
        }
    }

    /// Reads register `idx`; register 0 reads as 0.
    pub fn read_reg(&self, idx: usize) -> (r: u32)
        requires
            idx < 32,
        ensures
            r == self@.regs[idx as int],
            idx == 0 ==> r == 0,
    {
        reveal(readable);
        if idx == 0 {
            0
        } else {
            self.regs[idx]
        }
    }

    /// Writes register `idx`; a write to register 0, or to an index that
    /// names no register, changes nothing.
    pub fn write_reg(&mut self, idx: usize, value: u32)
        ensures
            final(self)@ == old(self)@.with_reg(idx as int, value),
    {
        reveal(readable);
        if idx != 0 && idx < 32 {
            self.regs[idx] = value;
            assert(self@.regs =~= old(self)@.regs.update(idx as int, value));
        }
    }

    /// Moves the program counter on by `offset`, wrapping.
    pub fn advance_pc(&mut self, offset: u32)
        ensures
            final(self)@ == old(self)@.with_pc(wrap32(old(self)@.pc + offset)),
    {
        self.pc = self.pc.wrapping_add(offset);
    }

    /// Fetches the word at the program counter and decodes it; on success
    /// the counter moves on by 4, on failure nothing changes.
    pub fn step(&mut self) -> (r: Result<StepResult, CPUError>)
        ensures
            r == step_spec(old(self)@),
            r is Ok ==> final(self)@ == old(self)@.with_pc(wrap32(old(self)@.pc + 4)),
            r is Ok ==> r->Ok_0.well_formed(),
            r is Err ==> final(self)@ == old(self)@,
    {
        let word: u32 = match self.memory.fetch(self.pc) {
            Ok(word) => word,
            Err(e) => {
                return Err(CPUError::from(e));
            },
        };
        let insn: Instruction = match decode(word) {
            Ok(insn) => insn,
            Err(e) => {
                return Err(CPUError::from(e));
            },
        };
        self.advance_pc(4);
        Ok(insn)
    }
}

/// The two's complement reading of a word, as a signed number.
fn to_signed(x: u32) -> (r: i32)
    ensures
        r == signed(x),
{
    assert((x as i32) == (if x >= 0x8000_0000u32 {
        (x - 0x1_0000_0000) as i32
    } else {
        x as i32
    })) by (bit_vector);
    #[verifier::truncate]
    (x as i32)
}

/// The word that holds a signed number in two's complement.
fn to_word(x: i32) -> (r: u32)
    ensures
        r == wrap32(x as int),
{
    assert((x as u32) == (if x < 0i32 {
        (x + 0x1_0000_0000) as u32
    } else {
        x as u32
    })) by (bit_vector);
    #[verifier::truncate]
    (x as u32)
}

/// `a + imm`, wrapping.
fn add_offset(a: u32, imm: i32) -> (r: u32)
    ensures
        r == wrap32(a + imm),
{
    a.wrapping_add_signed(imm)
}

/// `a + b`, wrapping.
fn add_words(a: u32, b: u32) -> (r: u32)
    ensures
        r == wrap32(a + b),
{
    a.wrapping_add(b)
}

/// `a - b`, wrapping.
fn sub_words(a: u32, b: u32) -> (r: u32)
    ensures
        r == wrap32(a - b),
{
    a.wrapping_sub(b)
}

/// The low 32 bits of `a * b`.
fn mul_words(a: u32, b: u32) -> (r: u32)
    ensures
        r == wrap32(a * b),
{
    a.wrapping_mul(b)
}

/// A shift by an immediate: sign-extending to the right, or to the left.
fn shift_word(v: u32, shamt: u8, is_srai: bool) -> (r: u32)
    requires
        shamt < 32,
    ensures
        r == shift_spec(v, shamt, is_srai),
{
    if is_srai {
        assert((((v as i32) >> shamt) as u32) == (if v & 0x8000_0000u32 != 0 {
            (v >> shamt) | !(0xFFFF_FFFFu32 >> shamt)
        } else {
            v >> shamt
        })) by (bit_vector)
            requires
                shamt < 32,
        ;
        #[verifier::truncate]
        (((#[verifier::truncate]
        (v as i32)) >> shamt) as u32)
    } else {
        v << shamt
    }
}

/// Zero divided by anything but zero is zero, and nothing is left.
proof fn lemma_zero_dividend(d: int)
    ensures
        d != 0 ==> div_toward_zero(0, d) == 0 && rem_toward_zero(0, d) == 0,
{
    if d > 0 {
        assert(0int / d == 0 && 0int % d == 0) by (nonlinear_arith)
            requires
                d > 0,
        ;
    } else if d < 0 {
        let e = -d;
        assert(0int / e == 0 && 0int % e == 0) by (nonlinear_arith)
            requires
                e > 0,
        ;
    }
}

/// Signed division of words.
fn div_words(a: u32, b: u32) -> (r: u32)
    ensures
        r == div_spec(a, b),
{
    let x: i32 = to_signed(a);
    let y: i32 = to_signed(b);
    proof {
        lemma_zero_dividend(signed(b));
    }
    let q: i32 = if y == 0 {
        -1
    } else {
        match x.checked_div(y) {
            Some(q) => q,
            None => i32::MIN,
        }
    };
    to_word(q)
}

/// Unsigned division of words.
fn divu_words(a: u32, b: u32) -> (r: u32)
    ensures
        r == divu_spec(a, b),
{
    if b == 0 {
        u32::MAX
    } else {
        a / b
    }
}

/// Signed remainder of words.
fn rem_words(a: u32, b: u32) -> (r: u32)
    ensures
        r == rem_spec(a, b),
{
    let x: i32 = to_signed(a);
    let y: i32 = to_signed(b);
    proof {
        lemma_zero_dividend(signed(b));
    }
    let q: i32 = if y == 0 {
        x
    } else {
        match x.checked_rem(y) {
            Some(q) => q,
            None => 0,
        }
    };
    to_word(q)
}

/// Unsigned remainder of words.
fn remu_words(a: u32, b: u32) -> (r: u32)
    ensures
        r == remu_spec(a, b),
{
    if b == 0 {
        a
    } else {
        a % b
    }
}

impl CPU {
    /// Applies one decoded instruction to registers, counter and memory.
    /// Arithmetic wraps at 32 bits; a failed memory access, or an unknown
    /// register-register operation, leaves the machine as it was.
    pub fn execute(&mut self, instr: Instruction) -> (r: Result<(), CPUError>)
        requires
            instr.operands_in_range(),
        ensures
            match execute_spec(old(self)@, instr) {
                Ok(next) => r is Ok && final(self)@ == next,
                Err(e) => r == Err::<(), CPUError>(e) && final(self)@ == old(self)@,
            },
    {
        match instr {
            Instruction::LUI { rd, imm } => {
                self.write_reg(rd as usize, imm);
                Ok(())
            },
            Instruction::AUIPC { rd, imm } => {
                let val: u32 = add_words(self.pc, imm);
                self.write_reg(rd as usize, val);
                Ok(())
            },
            Instruction::JAL { rd, imm } => {
                let ret: u32 = add_words(self.pc, 4);
                self.write_reg(rd as usize, ret);
                self.pc = add_offset(self.pc, imm);
                Ok(())
            },
            Instruction::JALR { rd, rs1, imm } => {
                let ret: u32 = add_words(self.pc, 4);
                self.write_reg(rd as usize, ret);
                let base: u32 = self.read_reg(rs1 as usize);
                let target: u32 = add_offset(base, imm) & 0xFFFF_FFFE;
                self.pc = target;
                Ok(())
            },
            Instruction::OP_IMM { rd, rs1, imm } => {
                let res: u32 = add_offset(self.read_reg(rs1 as usize), imm);
                self.write_reg(rd as usize, res);
                Ok(())
            },
            Instruction::SHIFT_IMM { rd, rs1, shamt, is_srai } => {
                let v: u32 = self.read_reg(rs1 as usize);
                let res: u32 = shift_word(v, shamt, is_srai);
                self.write_reg(rd as usize, res);
                Ok(())
            },
            Instruction::LOAD { rd, rs1, imm } => {
                let addr: u32 = add_offset(self.read_reg(rs1 as usize), imm);
                let word: u32 = match self.memory.load_word(addr) {
                    Ok(word) => word,
                    Err(e) => {
                        return Err(CPUError::from(e));
                    },
                };
                self.write_reg(rd as usize, word);
                Ok(())
            },
            Instruction::STORE { rs1, rs2, imm } => {
                let addr: u32 = add_offset(self.read_reg(rs1 as usize), imm);
                let val: u32 = self.read_reg(rs2 as usize);
                match self.memory.store_word(addr, val) {
                    Ok(()) => Ok(()),
                    Err(e) => Err(CPUError::from(e)),
                }
            },
            Instruction::BRANCH { rs1, rs2, imm } => {
                let v1: u32 = self.read_reg(rs1 as usize);
                let v2: u32 = self.read_reg(rs2 as usize);
                if v1 == v2 {
                    self.pc = add_offset(self.pc, imm);
                }
                Ok(())
            },
            Instruction::OP { rd, rs1, rs2, funct7 } => {
                let a: u32 = self.read_reg(rs1 as usize);
                let b: u32 = self.read_reg(rs2 as usize);
                let res: u32 = match funct7 {
                    0x00 => add_words(a, b),
                    0x20 => sub_words(a, b),
                    _ => {
                        return Err(CPUError::InvalidOperation { funct7 });
                    },
                };
                self.write_reg(rd as usize, res);
                Ok(())
            },
            Instruction::ECALL | Instruction::EBREAK => Ok(()),
            Instruction::MUL { rd, rs1, rs2 } => {
                let res: u32 = mul_words(self.read_reg(rs1 as usize), self.read_reg(rs2 as usize));
                self.write_reg(rd as usize, res);
                Ok(())
            },
            Instruction::DIV { rd, rs1, rs2 } => {
                let res: u32 = div_words(self.read_reg(rs1 as usize), self.read_reg(rs2 as usize));
                self.write_reg(rd as usize, res);
                Ok(())
            },
            Instruction::DIVU { rd, rs1, rs2 } => {
                let res: u32 = divu_words(self.read_reg(rs1 as usize), self.read_reg(rs2 as usize));
                self.write_reg(rd as usize, res);
                Ok(())
            },
            Instruction::REM { rd, rs1, rs2 } => {
                let res: u32 = rem_words(self.read_reg(rs1 as usize), self.read_reg(rs2 as usize));
                self.write_reg(rd as usize, res);
                Ok(())
            },
            Instruction::REMU { rd, rs1, rs2 } => {
                let res: u32 = remu_words(self.read_reg(rs1 as usize), self.read_reg(rs2 as usize));
                self.write_reg(rd as usize, res);
                Ok(())
            },
        }
    }
}

} // verus!
