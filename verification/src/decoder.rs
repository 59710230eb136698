use vstd::prelude::*;
use crate::itxs::Instruction;

verus! {

/// Why a word is not an instruction.
#[derive(Debug, PartialEq)]
pub enum DecodeError {
    UnknownOpcode(u8),
    InvalidInstruction(u32),
}

/// Bits 0 to 6: the opcode.
pub open spec fn opcode_of(word: u32) -> u8 {
    (word & 0x7F) as u8
}

/// Bits 7 to 11: the destination register.
pub open spec fn rd_of(word: u32) -> u8 {
    ((word >> 7) & 0x1F) as u8
}

/// Bits 12 to 14.
pub open spec fn funct3_of(word: u32) -> u8 {
    ((word >> 12) & 0x07) as u8
}

/// Bits 15 to 19: the first source register.
pub open spec fn rs1_of(word: u32) -> u8 {
    ((word >> 15) & 0x1F) as u8
}

/// Bits 20 to 24: the second source register, or a shift amount.
pub open spec fn rs2_of(word: u32) -> u8 {
    ((word >> 20) & 0x1F) as u8
}

/// Bits 25 to 31.
pub open spec fn funct7_of(word: u32) -> u8 {
    ((word >> 25) & 0x7F) as u8
}

/// The signed value of the low `bits` bits of `raw`, read as a two's
/// complement number of that width.
pub open spec fn sign_extend(raw: u32, bits: u32) -> i32
    recommends
        1 <= bits <= 31,
        raw < (1u32 << bits),
{
    if raw >= (1u32 << ((bits - 1) as u32)) {
        (raw - (1u32 << bits)) as i32
    } else {
        raw as i32
    }
}

/// The 12 bits of an I-type immediate, as they stand in bits 20 to 31.
pub open spec fn raw_i(word: u32) -> u32 {
    word >> 20
}

/// The 12 bits of an S-type immediate: bits 25 to 31 above bits 7 to 11.
pub open spec fn raw_s(word: u32) -> u32 {
    (((word >> 25) & 0x7F) << 5) | ((word >> 7) & 0x1F)
}

/// The 13 bits of a B-type immediate: bit 31, bit 7, bits 25 to 30, bits 8
/// to 11, and a zero.
pub open spec fn raw_b(word: u32) -> u32 {
    (((word >> 31) & 0x01) << 12) | (((word >> 7) & 0x01) << 11) | (((word >> 25) & 0x3F) << 5) | (((
    word >> 8) & 0x0F) << 1)
}

/// The 21 bits of a J-type immediate: bit 31, bits 12 to 19, bit 20, bits
/// 21 to 30, and a zero.
pub open spec fn raw_j(word: u32) -> u32 {
    (((word >> 31) & 0x01) << 20) | (((word >> 12) & 0xFF) << 12) | (((word >> 20) & 0x01) << 11)
        | (((word >> 21) & 0x3FF) << 1)
}

/// The I-type immediate of a word.
pub open spec fn imm_i_of(word: u32) -> i32 {
    sign_extend(raw_i(word), 12)
}

/// The S-type immediate of a word.
pub open spec fn imm_s_of(word: u32) -> i32 {
    sign_extend(raw_s(word), 12)
}

/// The B-type immediate of a word.
pub open spec fn imm_b_of(word: u32) -> i32 {
    sign_extend(raw_b(word), 13)
}

/// Bits 12 to 31 in place, the low 12 bits zero.
pub open spec fn imm_u_of(word: u32) -> u32 {
    word & 0xFFFFF000
}

/// The J-type immediate of a word.
pub open spec fn imm_j_of(word: u32) -> i32 {
    sign_extend(raw_j(word), 21)
}

/// What a word of the register-register family stands for.
pub open spec fn op_spec(word: u32) -> Result<Instruction, DecodeError> {
    let f3 = funct3_of(word);
    let f7 = funct7_of(word);
    let rd = rd_of(word);
    let rs1 = rs1_of(word);
    let rs2 = rs2_of(word);
    if f3 == 0 && (f7 == 0x00 || f7 == 0x20) {
        Ok(Instruction::OP { rd, rs1, rs2, funct7: f7 })
    } else if f7 != 0x01 {
        Err(DecodeError::InvalidInstruction(word))
    } else if f3 == 0 {
        Ok(Instruction::MUL { rd, rs1, rs2 })
    } else if f3 == 4 {
        Ok(Instruction::DIV { rd, rs1, rs2 })
    } else if f3 == 5 {
        Ok(Instruction::DIVU { rd, rs1, rs2 })
    } else if f3 == 6 {
        Ok(Instruction::REM { rd, rs1, rs2 })
    } else if f3 == 7 {
        Ok(Instruction::REMU { rd, rs1, rs2 })
    } else {
        Err(DecodeError::InvalidInstruction(word))
    }
}

/// What a word of the system family stands for.
pub open spec fn system_spec(word: u32) -> Result<Instruction, DecodeError> {
    if funct3_of(word) == 0 && imm_i_of(word) == 0 {
        Ok(Instruction::ECALL)
    } else if funct3_of(word) == 0 && imm_i_of(word) == 1 {
        Ok(Instruction::EBREAK)
    } else {
        Err(DecodeError::InvalidInstruction(word))
    }
}

/// The shift-immediate instruction that a word holds.
pub open spec fn shift_imm_spec(word: u32) -> Instruction {
    Instruction::SHIFT_IMM {
        rd: rd_of(word),
        rs1: rs1_of(word),
        shamt: rs2_of(word),
        is_srai: funct7_of(word) == 0x20,
    }
}

/// The instruction that a word stands for, or why it stands for none.
pub open spec fn decode_spec(word: u32) -> Result<Instruction, DecodeError> {
    let opcode = opcode_of(word);
    if opcode == 0x37 {
        Ok(Instruction::LUI { rd: rd_of(word), imm: imm_u_of(word) })
    } else if opcode == 0x17 {
        Ok(Instruction::AUIPC { rd: rd_of(word), imm: imm_u_of(word) })
    } else if opcode == 0x6F {
        Ok(Instruction::JAL { rd: rd_of(word), imm: imm_j_of(word) })
    } else if opcode == 0x67 {
        Ok(Instruction::JALR { rd: rd_of(word), rs1: rs1_of(word), imm: imm_i_of(word) })
    } else if opcode == 0x03 {
        Ok(Instruction::LOAD { rd: rd_of(word), rs1: rs1_of(word), imm: imm_i_of(word) })
    } else if opcode == 0x13 {
        if funct3_of(word) == 1 || funct3_of(word) == 5 {
            Ok(shift_imm_spec(word))
        } else {
            Ok(Instruction::OP_IMM { rd: rd_of(word), rs1: rs1_of(word), imm: imm_i_of(word) })
        }
    } else if opcode == 0x23 {
        Ok(Instruction::STORE { rs1: rs1_of(word), rs2: rs2_of(word), imm: imm_s_of(word) })
    } else if opcode == 0x63 {
        Ok(Instruction::BRANCH { rs1: rs1_of(word), rs2: rs2_of(word), imm: imm_b_of(word) })
    } else if opcode == 0x33 || opcode == 0x3B {
        op_spec(word)
    } else if opcode == 0x73 {
        system_spec(word)
    } else {
        Err(DecodeError::UnknownOpcode(opcode))
    }
}

/// Decodes one instruction word.
pub fn decode(word: u32) -> (r: Result<Instruction, DecodeError>)
    ensures
        r == decode_spec(word),
        r is Ok ==> r->Ok_0.well_formed(),
{
    let opcode: u8 = (word & 0x7F) as u8;
    proof {
        lemma_fields_in_range(word);
    }
    match opcode {
        0x37 => decode_u_type(word, lui),
        0x17 => decode_u_type(word, auipc),
        0x6F => decode_j_type(word, jal),
        0x67 => decode_i_type(word, jalr),
        0x03 => decode_load_type(word),
        0x13 => {
            let f3: u8 = funct3(word);
            if f3 == 0x1 || f3 == 0x5 {
                decode_shift_imm_type(word)
            } else {
                decode_op_imm_type(word)
            }
        },
        0x23 => decode_store_type(word),
        0x63 => decode_branch_type(word),
        0x33 => decode_op_type(word),
        0x73 => decode_system(word),
        0x3B => decode_op_type(word),
        _ => Err(DecodeError::UnknownOpcode(opcode)),
    }
}

/// What holds of the immediates of every word: the 12-bit ones lie in
/// `-2048..2048`; a branch offset is even and lies in `-4096..4096`; a jump
/// offset is even and lies in `-1048576..1048576`; the low 12 bits of an
/// upper immediate are zero.
pub proof fn lemma_immediate_ranges(word: u32)
    ensures
        -2048 <= imm_i_of(word) < 2048,
        -2048 <= imm_s_of(word) < 2048,
        -4096 <= imm_b_of(word) < 4096,
        imm_b_of(word) % 2 == 0,
        -1048576 <= imm_j_of(word) < 1048576,
        imm_j_of(word) % 2 == 0,
        imm_u_of(word) & 0xFFF == 0,
{
    let i = raw_i(word);
    let s = raw_s(word);
    let b = raw_b(word);
    let j = raw_j(word);
    assert((word >> 20) < 0x1000) by (bit_vector);
    assert(s < 0x1000) by (bit_vector)
        requires
            s == ((((word >> 25) & 0x7F) << 5) | ((word >> 7) & 0x1F)),
    ;
    assert(b < 0x2000 && b % 2 == 0) by (bit_vector)
        requires
            b == ((((word >> 31) & 0x01) << 12) | (((word >> 7) & 0x01) << 11) | (((word >> 25)
                & 0x3F) << 5) | (((word >> 8) & 0x0F) << 1)),
    ;
    assert(j < 0x20_0000 && j % 2 == 0) by (bit_vector)
        requires
            j == ((((word >> 31) & 0x01) << 20) | (((word >> 12) & 0xFF) << 12) | (((word >> 20)
                & 0x01) << 11) | (((word >> 21) & 0x3FF) << 1)),
    ;
    assert((word & 0xFFFFF000) & 0xFFF == 0) by (bit_vector);
    assert((1u32 << 11u32) == 0x800 && (1u32 << 12u32) == 0x1000 && (1u32 << 13u32) == 0x2000 && (
    1u32 << 20u32) == 0x10_0000 && (1u32 << 21u32) == 0x20_0000) by (bit_vector);
}

fn lui(rd: u8, imm: u32) -> (i: Instruction)
    ensures
        i == (Instruction::LUI { rd, imm }),
{
    Instruction::LUI { rd, imm }
}

fn auipc(rd: u8, imm: u32) -> (i: Instruction)
    ensures
        i == (Instruction::AUIPC { rd, imm }),
{
    Instruction::AUIPC { rd, imm }
}

fn jal(rd: u8, imm: i32) -> (i: Instruction)
    ensures
        i == (Instruction::JAL { rd, imm }),
{
    Instruction::JAL { rd, imm }
}

fn jalr(rd: u8, rs1: u8, imm: i32) -> (i: Instruction)
    ensures
        i == (Instruction::JALR { rd, rs1, imm }),
{
    Instruction::JALR { rd, rs1, imm }
}

/// Every register field, and the shift amount, is below 32.
pub proof fn lemma_fields_in_range(word: u32)
    ensures
        rd_of(word) < 32,
        rs1_of(word) < 32,
        rs2_of(word) < 32,
        funct3_of(word) < 8,
        funct7_of(word) < 128,
        opcode_of(word) < 128,
{
    assert(((word >> 7) & 0x1F) < 32) by (bit_vector);
    assert(((word >> 15) & 0x1F) < 32) by (bit_vector);
    assert(((word >> 20) & 0x1F) < 32) by (bit_vector);
    assert(((word >> 12) & 0x07) < 8) by (bit_vector);
    assert(((word >> 25) & 0x7F) < 128) by (bit_vector);
    assert((word & 0x7F) < 128) by (bit_vector);
}

/// The destination register field of a word.
pub fn rd(word: u32) -> (r: u8)
    ensures
        r == rd_of(word),
        r < 32,
{
    proof {
        lemma_fields_in_range(word);
    }
    ((word >> 7) & 0x1F) as u8
}

/// The three-bit function field of a word.
pub fn funct3(word: u32) -> (r: u8)
    ensures
        r == funct3_of(word),
        r < 8,
{
    proof {
        lemma_fields_in_range(word);
    }
    ((word >> 12) & 0x07) as u8
}

/// The first source register field of a word.
pub fn rs1(word: u32) -> (r: u8)
    ensures
        r == rs1_of(word),
        r < 32,
{
    proof {
        lemma_fields_in_range(word);
    }
    ((word >> 15) & 0x1F) as u8
}

/// The second source register field of a word.
pub fn rs2(word: u32) -> (r: u8)
    ensures
        r == rs2_of(word),
        r < 32,
{
    proof {
        lemma_fields_in_range(word);
    }
    ((word >> 20) & 0x1F) as u8
}

/// The seven-bit function field of a word.
pub fn funct7(word: u32) -> (r: u8)
    ensures
        r == funct7_of(word),
        r < 128,
{
    proof {
        lemma_fields_in_range(word);
    }
    ((word >> 25) & 0x7F) as u8
}

/// The I-type immediate: bits 20 to 31, sign-extended from 12 bits.
pub fn immediate_i(word: u32) -> (r: i32)
    ensures
        r == imm_i_of(word),
        -2048 <= r < 2048,
{
    assert(((word as i32) >> 20) == (if (word >> 20) >= (1u32 << 11u32) {
        ((word >> 20) - (1u32 << 12u32)) as i32
    } else {
        (word >> 20) as i32
    }) && -2048 <= ((word as i32) >> 20) < 2048) by (bit_vector);
    (#[verifier::truncate]
    (word as i32)) >> 20
}

/// The S-type immediate: bits 25 to 31 above bits 7 to 11, sign-extended
/// from 12 bits.
pub fn immediate_s(word: u32) -> (r: i32)
    ensures
        r == imm_s_of(word),
        -2048 <= r < 2048,
{
    let lo: u32 = (word >> 7) & 0x1F;
    let hi: u32 = (word >> 25) & 0x7F;
    let raw: u32 = (hi << 5) | lo;
    assert(raw == raw_s(word));
    assert(raw < 0x1000) by (bit_vector)
        requires
            raw == ((((word >> 25) & 0x7F) << 5) | ((word >> 7) & 0x1F)),
    ;
    assert((((raw as i32) << 20) >> 20) == (if raw >= (1u32 << 11u32) {
        (raw - (1u32 << 12u32)) as i32
    } else {
        raw as i32
    }) && -2048 <= (((raw as i32) << 20) >> 20) < 2048) by (bit_vector)
        requires
            raw < 0x1000,
    ;
    ((raw as i32) << 20) >> 20
}

/// The B-type immediate: an even offset, sign-extended from 13 bits.
pub fn immediate_b(word: u32) -> (r: i32)
    ensures
        r == imm_b_of(word),
        -4096 <= r < 4096,
{
    let b11_5: u32 = (word >> 25) & 0x3F;
    let b4_1: u32 = (word >> 8) & 0x0F;
    let b11: u32 = (word >> 7) & 0x01;
    let b12: u32 = (word >> 31) & 0x01;
    let raw: u32 = (b12 << 12) | (b11 << 11) | (b11_5 << 5) | (b4_1 << 1);
    assert(raw == raw_b(word));
    assert(raw < 0x2000) by (bit_vector)
        requires
            raw == ((((word >> 31) & 0x01) << 12) | (((word >> 7) & 0x01) << 11) | (((word >> 25)
                & 0x3F) << 5) | (((word >> 8) & 0x0F) << 1)),
    ;
    assert((((raw as i32) << 19) >> 19) == (if raw >= (1u32 << 12u32) {
        (raw - (1u32 << 13u32)) as i32
    } else {
        raw as i32
    }) && -4096 <= (((raw as i32) << 19) >> 19) < 4096) by (bit_vector)
        requires
            raw < 0x2000,
    ;
    ((raw as i32) << 19) >> 19
}

/// The U-type immediate: the upper 20 bits of the word in place.
pub fn immediate_u(word: u32) -> (r: u32)
    ensures
        r == imm_u_of(word),
{
    word & 0xFFFFF000
}

/// The J-type immediate: an even offset, sign-extended from 21 bits.
pub fn immediate_j(word: u32) -> (r: i32)
    ensures
        r == imm_j_of(word),
        -1048576 <= r < 1048576,
{
    let b20: u32 = (word >> 31) & 0x01;
    let b10_1: u32 = (word >> 21) & 0x3FF;
    let b11: u32 = (word >> 20) & 0x01;
    let b19_12: u32 = (word >> 12) & 0xFF;
    let raw: u32 = (b20 << 20) | (b19_12 << 12) | (b11 << 11) | (b10_1 << 1);
    assert(raw == raw_j(word));
    assert(raw < 0x20_0000) by (bit_vector)
        requires
            raw == ((((word >> 31) & 0x01) << 20) | (((word >> 12) & 0xFF) << 12) | (((word >> 20)
                & 0x01) << 11) | (((word >> 21) & 0x3FF) << 1)),
    ;
    assert((((raw as i32) << 11) >> 11) == (if raw >= (1u32 << 20u32) {
        (raw - (1u32 << 21u32)) as i32
    } else {
        raw as i32
    }) && -1048576 <= (((raw as i32) << 11) >> 11) < 1048576) by (bit_vector)
        requires
            raw < 0x20_0000,
    ;
    ((raw as i32) << 11) >> 11
}

/// Hands the destination register and the U-type immediate to `ctor`.
pub fn decode_u_type<F>(word: u32, ctor: F) -> (r: Result<Instruction, DecodeError>) where
    F: Fn(u8, u32) -> Instruction,

    requires
        ctor.requires((rd_of(word), imm_u_of(word))),
    ensures
        r is Ok,
        ctor.ensures((rd_of(word), imm_u_of(word)), r->Ok_0),
{
    Ok(ctor(rd(word), immediate_u(word)))
}

/// Hands the destination register, the first source register and the
/// I-type immediate to `ctor`.
pub fn decode_i_type<F>(word: u32, ctor: F) -> (r: Result<Instruction, DecodeError>) where
    F: Fn(u8, u8, i32) -> Instruction,

    requires
        ctor.requires((rd_of(word), rs1_of(word), imm_i_of(word))),
    ensures
        r is Ok,
        ctor.ensures((rd_of(word), rs1_of(word), imm_i_of(word)), r->Ok_0),
{
    Ok(ctor(rd(word), rs1(word), immediate_i(word)))
}

/// Hands the destination register and the J-type immediate to `ctor`.
pub fn decode_j_type<F>(word: u32, ctor: F) -> (r: Result<Instruction, DecodeError>) where
    F: Fn(u8, i32) -> Instruction,

    requires
        ctor.requires((rd_of(word), imm_j_of(word))),
    ensures
        r is Ok,
        ctor.ensures((rd_of(word), imm_j_of(word)), r->Ok_0),
{
    Ok(ctor(rd(word), immediate_j(word)))
}

/// Decodes a word load.
pub fn decode_load_type(word: u32) -> (r: Result<Instruction, DecodeError>)
    ensures
        r == Ok::<Instruction, DecodeError>(
            Instruction::LOAD { rd: rd_of(word), rs1: rs1_of(word), imm: imm_i_of(word) },
        ),
{
    Ok(Instruction::LOAD { rd: rd(word), rs1: rs1(word), imm: immediate_i(word) })
}

/// Decodes an add of an immediate.
pub fn decode_op_imm_type(word: u32) -> (r: Result<Instruction, DecodeError>)
    ensures
        r == Ok::<Instruction, DecodeError>(
            Instruction::OP_IMM { rd: rd_of(word), rs1: rs1_of(word), imm: imm_i_of(word) },
        ),
{
    Ok(Instruction::OP_IMM { rd: rd(word), rs1: rs1(word), imm: immediate_i(word) })
}

/// Decodes a shift by an immediate; the flag is set by `funct7 == 0x20`,
/// whichever way the shift goes.
pub fn decode_shift_imm_type(word: u32) -> (r: Result<Instruction, DecodeError>)
    ensures
        r == Ok::<Instruction, DecodeError>(shift_imm_spec(word)),
{
    let shamt: u8 = ((word >> 20) & 0x1F) as u8;
    let is_srai: bool = funct7(word) == 0x20;
    Ok(Instruction::SHIFT_IMM { rd: rd(word), rs1: rs1(word), shamt, is_srai })
}

/// Decodes a word store.
pub fn decode_store_type(word: u32) -> (r: Result<Instruction, DecodeError>)
    ensures
        r == Ok::<Instruction, DecodeError>(
            Instruction::STORE { rs1: rs1_of(word), rs2: rs2_of(word), imm: imm_s_of(word) },
        ),
{
    Ok(Instruction::STORE { rs1: rs1(word), rs2: rs2(word), imm: immediate_s(word) })
}

/// Decodes a branch; `funct3` is not looked at.
pub fn decode_branch_type(word: u32) -> (r: Result<Instruction, DecodeError>)
    ensures
        r == Ok::<Instruction, DecodeError>(
            Instruction::BRANCH { rs1: rs1_of(word), rs2: rs2_of(word), imm: imm_b_of(word) },
        ),
{
    Ok(Instruction::BRANCH { rs1: rs1(word), rs2: rs2(word), imm: immediate_b(word) })
}

/// Decodes a word of the register-register family.
pub fn decode_op_type(word: u32) -> (r: Result<Instruction, DecodeError>)
    ensures
        r == op_spec(word),
{
    let f3: u8 = funct3(word);
    let f7: u8 = funct7(word);
    let rd: u8 = rd(word);
    let rs1: u8 = rs1(word);
    let rs2: u8 = rs2(word);
    match (f3, f7) {
        (0x0, 0x00) => Ok(Instruction::OP { rd, rs1, rs2, funct7: f7 }),
        (0x0, 0x20) => Ok(Instruction::OP { rd, rs1, rs2, funct7: f7 }),
        (0x0, 0x01) => Ok(Instruction::MUL { rd, rs1, rs2 }),
        (0x4, 0x01) => Ok(Instruction::DIV { rd, rs1, rs2 }),
        (0x5, 0x01) => Ok(Instruction::DIVU { rd, rs1, rs2 }),
        (0x6, 0x01) => Ok(Instruction::REM { rd, rs1, rs2 }),
        (0x7, 0x01) => Ok(Instruction::REMU { rd, rs1, rs2 }),
        _ => Err(DecodeError::InvalidInstruction(word)),
    }
}

/// Decodes a word of the system family.
pub fn decode_system(word: u32) -> (r: Result<Instruction, DecodeError>)
    ensures
        r == system_spec(word),
{
    match (funct3(word), immediate_i(word)) {
        (0x0, 0x0) => Ok(Instruction::ECALL),
        (0x0, 0x1) => Ok(Instruction::EBREAK),
        _ => Err(DecodeError::InvalidInstruction(word)),
    }
}

} // verus!
