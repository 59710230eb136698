use vstd::prelude::*;

verus! {

/// One decoded instruction with its operands. Register operands are indices
/// into the register file; every immediate is sign-extended but that of
/// `LUI` and `AUIPC`, which is held already shifted into the upper 20 bits.
#[derive(Debug, PartialEq, Clone)]
#[allow(non_camel_case_types)]
#[allow(inconsistent_fields)]
pub enum Instruction {
    LUI { rd: u8, imm: u32 },
    AUIPC { rd: u8, imm: u32 },
    JAL { rd: u8, imm: i32 },
    JALR { rd: u8, rs1: u8, imm: i32 },
    LOAD { rd: u8, rs1: u8, imm: i32 },
    OP_IMM { rd: u8, rs1: u8, imm: i32 },
    SHIFT_IMM { rd: u8, rs1: u8, shamt: u8, is_srai: bool },
    STORE { rs1: u8, rs2: u8, imm: i32 },
    BRANCH { rs1: u8, rs2: u8, imm: i32 },
    OP { rd: u8, rs1: u8, rs2: u8, funct7: u8 },
    ECALL,
    EBREAK,
    MUL { rd: u8, rs1: u8, rs2: u8 },
    DIV { rd: u8, rs1: u8, rs2: u8 },
    DIVU { rd: u8, rs1: u8, rs2: u8 },
    REM { rd: u8, rs1: u8, rs2: u8 },
    REMU { rd: u8, rs1: u8, rs2: u8 },
}

impl Instruction {
    /// Whether the register that the instruction writes, if it writes one,
    /// is one of the 32 registers.
    pub open spec fn destination_in_range(self) -> bool {
        match self {
            Instruction::LUI { rd, .. }
            | Instruction::AUIPC { rd, .. }
            | Instruction::JAL { rd, .. }
            | Instruction::JALR { rd, .. }
            | Instruction::LOAD { rd, .. }
            | Instruction::OP_IMM { rd, .. }
            | Instruction::SHIFT_IMM { rd, .. }
            | Instruction::OP { rd, .. }
            | Instruction::MUL { rd, .. }
            | Instruction::DIV { rd, .. }
            | Instruction::DIVU { rd, .. }
            | Instruction::REM { rd, .. }
            | Instruction::REMU { rd, .. } => rd < 32,
            Instruction::STORE { .. }
            | Instruction::BRANCH { .. }
            | Instruction::ECALL
            | Instruction::EBREAK => true,
        }
    }

    /// Tells whether every register that the instruction reads is one of
    /// the 32 registers, and a shift amount is below the word's width.
    pub fn has_operands_in_range(&self) -> (r: bool)
        ensures
            r == self.operands_in_range(),
    {
        match self {
            Instruction::LUI { .. } | Instruction::AUIPC { .. } | Instruction::JAL { .. } => true,
            Instruction::ECALL | Instruction::EBREAK => true,
            Instruction::JALR { rs1, .. } | Instruction::LOAD { rs1, .. } | Instruction::OP_IMM {
                rs1,
                ..
            } => *rs1 < 32,
            Instruction::SHIFT_IMM { rs1, shamt, .. } => *rs1 < 32 && *shamt < 32,
            Instruction::STORE { rs1, rs2, .. }
            | Instruction::BRANCH { rs1, rs2, .. }
            | Instruction::OP { rs1, rs2, .. }
            | Instruction::MUL { rs1, rs2, .. }
            | Instruction::DIV { rs1, rs2, .. }
            | Instruction::DIVU { rs1, rs2, .. }
            | Instruction::REM { rs1, rs2, .. }
            | Instruction::REMU { rs1, rs2, .. } => *rs1 < 32 && *rs2 < 32,
        }
    }

    /// Whether every register index is below 32 and a shift amount below
    /// the word's width: what holds of every instruction that is decoded.
    pub open spec fn well_formed(self) -> bool {
        self.operands_in_range() && self.destination_in_range()
    }

    /// Whether every register that the instruction reads is one of the 32
    /// registers, and a shift amount is below the word's width.
    pub open spec fn operands_in_range(self) -> bool {
        match self {
            Instruction::LUI { .. } | Instruction::AUIPC { .. } | Instruction::JAL { .. } => true,
            Instruction::ECALL | Instruction::EBREAK => true,
            Instruction::JALR { rs1, .. } | Instruction::LOAD { rs1, .. } | Instruction::OP_IMM {
                rs1,
                ..
            } => rs1 < 32,
            Instruction::SHIFT_IMM { rs1, shamt, .. } => rs1 < 32 && shamt < 32,
            Instruction::STORE { rs1, rs2, .. }
            | Instruction::BRANCH { rs1, rs2, .. }
            | Instruction::OP { rs1, rs2, .. }
            | Instruction::MUL { rs1, rs2, .. }
            | Instruction::DIV { rs1, rs2, .. }
            | Instruction::DIVU { rs1, rs2, .. }
            | Instruction::REM { rs1, rs2, .. }
            | Instruction::REMU { rs1, rs2, .. } => rs1 < 32 && rs2 < 32,
        }
    }
}

} // verus!
