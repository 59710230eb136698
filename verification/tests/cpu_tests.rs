use riscv_vm::constants::{DEFAULT_MEMORY_SIZE, MAX_MEMORY_SIZE};
use riscv_vm::cpu::{CPUError, CPU};
use riscv_vm::decoder::DecodeError;
use riscv_vm::itxs::Instruction;
use riscv_vm::memory::MemoryError;

fn return_cpu() -> CPU {
    CPU::default()
}

#[test]
fn test_new_cpu() {
    let cpu = return_cpu();
    assert_eq!(cpu.pc, 0);
    for i in 0..32 {
        assert_eq!(cpu.read_reg(i), 0);
    }
}

#[test]
fn test_read_write_regs() {
    let mut cpu = return_cpu();
    cpu.write_reg(1, 0xdead_beef);
    assert_eq!(cpu.read_reg(1), 0xdead_beef);
    cpu.write_reg(0, 0x12345678);
    assert_eq!(cpu.read_reg(0), 0);
}

#[test]
fn test_step_fetch_decode() {
    let mut cpu = return_cpu();
    cpu.memory.store_word(0, 0x0050_0113).unwrap();
    let insn = cpu.step().unwrap();
    assert_eq!(
        insn,
        Instruction::OP_IMM {
            rd: 2,
            rs1: 0,
            imm: 5
        }
    );
    assert_eq!(cpu.pc, 4);
}

#[test]
fn test_step_memory_error() {
    let mut cpu = CPU::new(4).unwrap();
    cpu.memory.store_word(0, 0x0000_0013).unwrap();

    let insn = cpu.step().unwrap();
    assert_eq!(
        insn,
        Instruction::OP_IMM {
            rd: 0,
            rs1: 0,
            imm: 0
        }
    );
    assert_eq!(cpu.pc, 4);

    let err = cpu.step().unwrap_err();
    assert!(matches!(err, CPUError::Memory(_)));
}

#[test]
fn test_step_decode_error() {
    let mut cpu = return_cpu();
    cpu.memory.store_byte(0, 0xFF).unwrap();
    let err = cpu.step().unwrap_err();
    matches!(err, CPUError::Decode(_));
}

#[test]
fn test_add_and_sub() {
    let mut cpu = return_cpu();
    cpu.write_reg(1, 10);
    cpu.write_reg(2, 3);
    cpu.execute(Instruction::OP {
        rd: 3,
        rs1: 1,
        rs2: 2,
        funct7: 0x00,
    })
    .unwrap();
    assert_eq!(cpu.read_reg(3), 13);
    cpu.execute(Instruction::OP {
        rd: 4,
        rs1: 1,
        rs2: 2,
        funct7: 0x20,
    })
    .unwrap();
    assert_eq!(cpu.read_reg(4), 7);
}

#[test]
fn test_load_store() {
    let mut cpu = return_cpu();
    cpu.write_reg(1, 100);
    cpu.write_reg(2, 0xDEADBEEF);
    cpu.execute(Instruction::STORE {
        rs1: 1,
        rs2: 2,
        imm: 0,
    })
    .unwrap();
    cpu.execute(Instruction::LOAD {
        rd: 3,
        rs1: 1,
        imm: 0,
    })
    .unwrap();
    assert_eq!(cpu.read_reg(3), 0xDEADBEEF);
}

#[test]
fn test_mul_div_rem() {
    let mut cpu = return_cpu();
    cpu.write_reg(1, 15);
    cpu.write_reg(2, 4);
    cpu.execute(Instruction::MUL {
        rd: 3,
        rs1: 1,
        rs2: 2,
    })
    .unwrap();
    assert_eq!(cpu.read_reg(3), 60);
    cpu.execute(Instruction::DIV {
        rd: 4,
        rs1: 1,
        rs2: 2,
    })
    .unwrap();
    assert_eq!(cpu.read_reg(4), 3);
    cpu.execute(Instruction::DIVU {
        rd: 5,
        rs1: 1,
        rs2: 2,
    })
    .unwrap();
    assert_eq!(cpu.read_reg(5), 3);
    cpu.execute(Instruction::REM {
        rd: 6,
        rs1: 1,
        rs2: 2,
    })
    .unwrap();
    assert_eq!(cpu.read_reg(6), 3);
    cpu.execute(Instruction::REMU {
        rd: 7,
        rs1: 1,
        rs2: 2,
    })
    .unwrap();
    assert_eq!(cpu.read_reg(7), 3);
}

#[test]
fn test_auipc_jal_jalr() {
    let mut cpu = return_cpu();

    cpu.pc = 100;
    cpu.execute(Instruction::AUIPC { rd: 1, imm: 20 }).unwrap();
    assert_eq!(cpu.read_reg(1), 120);

    cpu.pc = 200;
    cpu.execute(Instruction::JAL { rd: 2, imm: 16 }).unwrap();
    assert_eq!(cpu.read_reg(2), 204);
    assert_eq!(cpu.pc, 216);

    cpu.write_reg(3, 0);
    cpu.execute(Instruction::JALR {
        rd: 3,
        rs1: 1,
        imm: 4,
    })
    .unwrap();

    assert_eq!(cpu.read_reg(3), 220);
    assert_eq!(cpu.pc, 124);
}

#[test]
fn test_shift_imm() {
    let mut cpu = return_cpu();
    cpu.write_reg(1, 1);
    cpu.execute(Instruction::SHIFT_IMM {
        rd: 2,
        rs1: 1,
        shamt: 3,
        is_srai: false,
    })
    .unwrap();
    assert_eq!(cpu.read_reg(2), 8);
    cpu.write_reg(1, u32::MAX);
    cpu.execute(Instruction::SHIFT_IMM {
        rd: 2,
        rs1: 1,
        shamt: 1,
        is_srai: true,
    })
    .unwrap();
    assert_eq!(cpu.read_reg(2), u32::MAX);
}

#[test]
fn test_branch_equal() {
    let mut cpu = return_cpu();
    cpu.pc = 10;
    cpu.write_reg(1, 5);
    cpu.write_reg(2, 5);
    cpu.execute(Instruction::BRANCH {
        rs1: 1,
        rs2: 2,
        imm: 8,
    })
    .unwrap();
    assert_eq!(cpu.pc, 18);
    cpu.pc = 10;
    cpu.write_reg(2, 6);
    cpu.execute(Instruction::BRANCH {
        rs1: 1,
        rs2: 2,
        imm: 8,
    })
    .unwrap();
    assert_eq!(cpu.pc, 10);
}

#[test]
fn test_ecall_ebreak() {
    let mut cpu = return_cpu();
    cpu.pc = 30;
    cpu.execute(Instruction::ECALL).unwrap();
    assert_eq!(cpu.pc, 30);
    cpu.execute(Instruction::EBREAK).unwrap();
    assert_eq!(cpu.pc, 30);
}

#[test]
fn test_new_cpu_sizes() {
    let cpu = CPU::new(64).unwrap();
    assert_eq!(cpu.pc, 0);
    assert_eq!(cpu.memory.size(), 64);
    for i in 0..32 {
        assert_eq!(cpu.read_reg(i), 0);
    }
    assert_eq!(return_cpu().memory.size(), DEFAULT_MEMORY_SIZE);
    assert_eq!(
        CPU::new(0).err(),
        Some(MemoryError::OutOfBounds {
            addr: 0,
            size: MAX_MEMORY_SIZE
        })
    );
    assert_eq!(
        CPU::new(MAX_MEMORY_SIZE + 1).err(),
        Some(MemoryError::OutOfBounds {
            addr: (MAX_MEMORY_SIZE + 1) as u32,
            size: MAX_MEMORY_SIZE
        })
    );
}

#[test]
fn test_register_zero_always_reads_zero() {
    let mut cpu = return_cpu();
    for v in [0u32, 1, 0x1234_5678, 0x8000_0000, u32::MAX] {
        cpu.write_reg(0, v);
        assert_eq!(cpu.read_reg(0), 0);
    }
    cpu.execute(Instruction::LUI {
        rd: 0,
        imm: 0xFFFF_F000,
    })
    .unwrap();
    assert_eq!(cpu.read_reg(0), 0);
    cpu.write_reg(5, 9);
    cpu.execute(Instruction::OP_IMM {
        rd: 0,
        rs1: 5,
        imm: 1,
    })
    .unwrap();
    assert_eq!(cpu.read_reg(0), 0);
    assert_eq!(cpu.read_reg(5), 9);
}

#[test]
fn test_write_to_register_out_of_range_is_ignored() {
    let mut cpu = return_cpu();
    cpu.write_reg(32, 7);
    cpu.write_reg(1000, 7);
    for i in 0..32 {
        assert_eq!(cpu.read_reg(i), 0);
    }
    cpu.write_reg(31, 7);
    assert_eq!(cpu.read_reg(31), 7);
}

#[test]
fn test_advance_pc_wraps() {
    let mut cpu = return_cpu();
    cpu.advance_pc(8);
    assert_eq!(cpu.pc, 8);
    cpu.pc = 0xFFFF_FFFC;
    cpu.advance_pc(4);
    assert_eq!(cpu.pc, 0);
    cpu.pc = 0xFFFF_FFFE;
    cpu.advance_pc(4);
    assert_eq!(cpu.pc, 2);
}

#[test]
fn test_step_errors_leave_pc() {
    let mut cpu = CPU::new(16).unwrap();
    cpu.pc = 16;
    assert_eq!(
        cpu.step(),
        Err(CPUError::Memory(MemoryError::OutOfBounds {
            addr: 16,
            size: 16
        }))
    );
    assert_eq!(cpu.pc, 16);
    cpu.pc = 6;
    assert_eq!(
        cpu.step(),
        Err(CPUError::Memory(MemoryError::UnalignedAccess {
            addr: 6,
            align: 4
        }))
    );
    assert_eq!(cpu.pc, 6);
    cpu.pc = 8;
    cpu.memory.store_word(8, 0x0020_0073).unwrap();
    assert_eq!(
        cpu.step(),
        Err(CPUError::Decode(DecodeError::InvalidInstruction(
            0x0020_0073
        )))
    );
    assert_eq!(cpu.pc, 8);
    cpu.memory.store_word(8, 0xFFFF_FFFF).unwrap();
    assert_eq!(
        cpu.step(),
        Err(CPUError::Decode(DecodeError::UnknownOpcode(0x7F)))
    );
    assert_eq!(cpu.pc, 8);
    cpu.memory.store_word(8, 0x0050_0113).unwrap();
    assert!(cpu.step().is_ok());
    assert_eq!(cpu.pc, 12);
}

#[test]
fn test_errors_convert() {
    let m = MemoryError::UnalignedAccess { addr: 2, align: 4 };
    assert_eq!(
        CPUError::from(m),
        CPUError::Memory(MemoryError::UnalignedAccess { addr: 2, align: 4 })
    );
    assert_eq!(
        CPUError::from(DecodeError::UnknownOpcode(3)),
        CPUError::Decode(DecodeError::UnknownOpcode(3))
    );
}

#[test]
fn test_lui_and_auipc_wrap() {
    let mut cpu = return_cpu();
    cpu.execute(Instruction::LUI {
        rd: 1,
        imm: 0x1234_5000,
    })
    .unwrap();
    assert_eq!(cpu.read_reg(1), 0x1234_5000);
    cpu.pc = 0xFFFF_F004;
    cpu.execute(Instruction::AUIPC {
        rd: 2,
        imm: 0x0000_1000,
    })
    .unwrap();
    assert_eq!(cpu.read_reg(2), 4);
    assert_eq!(cpu.pc, 0xFFFF_F004);
}

#[test]
fn test_jumps_with_negative_offsets() {
    let mut cpu = return_cpu();
    cpu.pc = 100;
    cpu.execute(Instruction::JAL { rd: 1, imm: -20 }).unwrap();
    assert_eq!(cpu.read_reg(1), 104);
    assert_eq!(cpu.pc, 80);
    cpu.pc = 4;
    cpu.execute(Instruction::JAL { rd: 0, imm: -8 }).unwrap();
    assert_eq!(cpu.pc, 0xFFFF_FFFC);
    cpu.pc = 40;
    cpu.write_reg(5, 103);
    cpu.execute(Instruction::JALR {
        rd: 6,
        rs1: 5,
        imm: -2,
    })
    .unwrap();
    assert_eq!(cpu.read_reg(6), 44);
    assert_eq!(cpu.pc, 100);
    // the destination is written before the base is read
    cpu.pc = 40;
    cpu.write_reg(7, 1000);
    cpu.execute(Instruction::JALR {
        rd: 7,
        rs1: 7,
        imm: 9,
    })
    .unwrap();
    assert_eq!(cpu.read_reg(7), 44);
    assert_eq!(cpu.pc, 52);
}

#[test]
fn test_op_imm_wraps() {
    let mut cpu = return_cpu();
    cpu.write_reg(1, 3);
    cpu.execute(Instruction::OP_IMM {
        rd: 2,
        rs1: 1,
        imm: -5,
    })
    .unwrap();
    assert_eq!(cpu.read_reg(2), 0xFFFF_FFFE);
    cpu.write_reg(1, u32::MAX);
    cpu.execute(Instruction::OP_IMM {
        rd: 2,
        rs1: 1,
        imm: 2,
    })
    .unwrap();
    assert_eq!(cpu.read_reg(2), 1);
    cpu.execute(Instruction::OP_IMM {
        rd: 3,
        rs1: 1,
        imm: 0,
    })
    .unwrap();
    assert_eq!(cpu.read_reg(3), u32::MAX);
}

#[test]
fn test_shift_imm_edges() {
    let mut cpu = return_cpu();
    cpu.write_reg(1, 0x8000_0001);
    cpu.execute(Instruction::SHIFT_IMM {
        rd: 2,
        rs1: 1,
        shamt: 31,
        is_srai: false,
    })
    .unwrap();
    assert_eq!(cpu.read_reg(2), 0x8000_0000);
    cpu.execute(Instruction::SHIFT_IMM {
        rd: 2,
        rs1: 1,
        shamt: 0,
        is_srai: true,
    })
    .unwrap();
    assert_eq!(cpu.read_reg(2), 0x8000_0001);
    cpu.execute(Instruction::SHIFT_IMM {
        rd: 2,
        rs1: 1,
        shamt: 4,
        is_srai: true,
    })
    .unwrap();
    assert_eq!(cpu.read_reg(2), 0xF800_0000);
    cpu.execute(Instruction::SHIFT_IMM {
        rd: 2,
        rs1: 1,
        shamt: 31,
        is_srai: true,
    })
    .unwrap();
    assert_eq!(cpu.read_reg(2), 0xFFFF_FFFF);
    cpu.write_reg(1, 0x7000_0010);
    cpu.execute(Instruction::SHIFT_IMM {
        rd: 2,
        rs1: 1,
        shamt: 4,
        is_srai: true,
    })
    .unwrap();
    assert_eq!(cpu.read_reg(2), 0x0700_0001);
}

#[test]
fn test_load_store_errors_and_offsets() {
    let mut cpu = CPU::new(64).unwrap();
    cpu.write_reg(1, 20);
    cpu.write_reg(2, 0xCAFE_F00D);
    cpu.execute(Instruction::STORE {
        rs1: 1,
        rs2: 2,
        imm: -4,
    })
    .unwrap();
    assert_eq!(cpu.memory.load_word(16).unwrap(), 0xCAFE_F00D);
    cpu.execute(Instruction::LOAD {
        rd: 3,
        rs1: 1,
        imm: -4,
    })
    .unwrap();
    assert_eq!(cpu.read_reg(3), 0xCAFE_F00D);
    assert_eq!(
        cpu.execute(Instruction::LOAD {
            rd: 3,
            rs1: 1,
            imm: 1,
        }),
        Err(CPUError::Memory(MemoryError::UnalignedAccess {
            addr: 21,
            align: 4
        }))
    );
    assert_eq!(
        cpu.execute(Instruction::STORE {
            rs1: 1,
            rs2: 2,
            imm: 44,
        }),
        Err(CPUError::Memory(MemoryError::OutOfBounds {
            addr: 64,
            size: 64
        }))
    );
    assert_eq!(
        cpu.execute(Instruction::LOAD {
            rd: 3,
            rs1: 0,
            imm: -4,
        }),
        Err(CPUError::Memory(MemoryError::OutOfBounds {
            addr: 0xFFFF_FFFC,
            size: 64
        }))
    );
    assert_eq!(cpu.read_reg(3), 0xCAFE_F00D);
    assert_eq!(cpu.memory.load_word(60).unwrap(), 0);
}

#[test]
fn test_branch_wraps_and_negative() {
    let mut cpu = return_cpu();
    cpu.pc = 8;
    cpu.execute(Instruction::BRANCH {
        rs1: 0,
        rs2: 0,
        imm: -12,
    })
    .unwrap();
    assert_eq!(cpu.pc, 0xFFFF_FFFC);
}

#[test]
fn test_op_wraps_and_invalid_operation() {
    let mut cpu = return_cpu();
    cpu.write_reg(1, u32::MAX);
    cpu.write_reg(2, 2);
    cpu.execute(Instruction::OP {
        rd: 3,
        rs1: 1,
        rs2: 2,
        funct7: 0x00,
    })
    .unwrap();
    assert_eq!(cpu.read_reg(3), 1);
    cpu.execute(Instruction::OP {
        rd: 3,
        rs1: 2,
        rs2: 1,
        funct7: 0x20,
    })
    .unwrap();
    assert_eq!(cpu.read_reg(3), 3);
    assert_eq!(
        cpu.execute(Instruction::OP {
            rd: 3,
            rs1: 2,
            rs2: 1,
            funct7: 0x01,
        }),
        Err(CPUError::InvalidOperation { funct7: 0x01 })
    );
    assert_eq!(cpu.read_reg(3), 3);
}

#[test]
fn test_mul_wraps() {
    let mut cpu = return_cpu();
    cpu.write_reg(1, 0x1_0001);
    cpu.write_reg(2, 0x1_0001);
    cpu.execute(Instruction::MUL {
        rd: 3,
        rs1: 1,
        rs2: 2,
    })
    .unwrap();
    assert_eq!(cpu.read_reg(3), 0x0002_0001);
    cpu.write_reg(1, u32::MAX);
    cpu.write_reg(2, u32::MAX);
    cpu.execute(Instruction::MUL {
        rd: 3,
        rs1: 1,
        rs2: 2,
    })
    .unwrap();
    assert_eq!(cpu.read_reg(3), 1);
}

#[test]
fn test_division_by_zero() {
    let mut cpu = return_cpu();
    cpu.write_reg(1, 0xFFFF_FFF9);
    cpu.execute(Instruction::DIV {
        rd: 3,
        rs1: 1,
        rs2: 2,
    })
    .unwrap();
    assert_eq!(cpu.read_reg(3), 0xFFFF_FFFF);
    cpu.execute(Instruction::DIVU {
        rd: 4,
        rs1: 1,
        rs2: 2,
    })
    .unwrap();
    assert_eq!(cpu.read_reg(4), u32::MAX);
    cpu.execute(Instruction::REM {
        rd: 5,
        rs1: 1,
        rs2: 2,
    })
    .unwrap();
    assert_eq!(cpu.read_reg(5), 0xFFFF_FFF9);
    cpu.execute(Instruction::REMU {
        rd: 6,
        rs1: 1,
        rs2: 2,
    })
    .unwrap();
    assert_eq!(cpu.read_reg(6), 0xFFFF_FFF9);
}

#[test]
fn test_signed_division_rounds_toward_zero() {
    let mut cpu = return_cpu();
    // -7 and 2
    cpu.write_reg(1, 0xFFFF_FFF9);
    cpu.write_reg(2, 2);
    cpu.execute(Instruction::DIV {
        rd: 3,
        rs1: 1,
        rs2: 2,
    })
    .unwrap();
    assert_eq!(cpu.read_reg(3), 0xFFFF_FFFD);
    cpu.execute(Instruction::REM {
        rd: 4,
        rs1: 1,
        rs2: 2,
    })
    .unwrap();
    assert_eq!(cpu.read_reg(4), 0xFFFF_FFFF);
    cpu.execute(Instruction::DIVU {
        rd: 5,
        rs1: 1,
        rs2: 2,
    })
    .unwrap();
    assert_eq!(cpu.read_reg(5), 0x7FFF_FFFC);
    cpu.execute(Instruction::REMU {
        rd: 6,
        rs1: 1,
        rs2: 2,
    })
    .unwrap();
    assert_eq!(cpu.read_reg(6), 1);
    // 7 and -2
    cpu.write_reg(1, 7);
    cpu.write_reg(2, 0xFFFF_FFFE);
    cpu.execute(Instruction::DIV {
        rd: 3,
        rs1: 1,
        rs2: 2,
    })
    .unwrap();
    assert_eq!(cpu.read_reg(3), 0xFFFF_FFFD);
    cpu.execute(Instruction::REM {
        rd: 4,
        rs1: 1,
        rs2: 2,
    })
    .unwrap();
    assert_eq!(cpu.read_reg(4), 1);
    // -7 and -2
    cpu.write_reg(1, 0xFFFF_FFF9);
    cpu.execute(Instruction::DIV {
        rd: 3,
        rs1: 1,
        rs2: 2,
    })
    .unwrap();
    assert_eq!(cpu.read_reg(3), 3);
    cpu.execute(Instruction::REM {
        rd: 4,
        rs1: 1,
        rs2: 2,
    })
    .unwrap();
    assert_eq!(cpu.read_reg(4), 0xFFFF_FFFF);
}

#[test]
fn test_signed_division_overflow_wraps() {
    let mut cpu = return_cpu();
    cpu.write_reg(1, 0x8000_0000);
    cpu.write_reg(2, 0xFFFF_FFFF);
    cpu.execute(Instruction::DIV {
        rd: 3,
        rs1: 1,
        rs2: 2,
    })
    .unwrap();
    assert_eq!(cpu.read_reg(3), 0x8000_0000);
    cpu.execute(Instruction::REM {
        rd: 4,
        rs1: 1,
        rs2: 2,
    })
    .unwrap();
    assert_eq!(cpu.read_reg(4), 0);
}

#[test]
fn test_run_a_small_program() {
    let mut cpu = CPU::new(64).unwrap();
    // addi x2, x0, 5; addi x1, x2, -5 is 0xFFB10093; sw x2, 32(x0)
    cpu.memory.store_word(0, 0x0050_0113).unwrap();
    cpu.memory.store_word(4, 0xFFB1_0093).unwrap();
    cpu.memory.store_word(8, 0x0220_2023).unwrap();
    for _ in 0..3 {
        let insn = cpu.step().unwrap();
        cpu.execute(insn).unwrap();
    }
    assert_eq!(cpu.pc, 12);
    assert_eq!(cpu.read_reg(2), 5);
    assert_eq!(cpu.read_reg(1), 0);
    assert_eq!(cpu.memory.load_word(32).unwrap(), 5);
}

#[test]
fn test_operands_in_range() {
    assert!(Instruction::ECALL.has_operands_in_range());
    assert!(Instruction::LUI { rd: 200, imm: 0 }.has_operands_in_range());
    assert!(Instruction::OP {
        rd: 40,
        rs1: 31,
        rs2: 31,
        funct7: 9
    }
    .has_operands_in_range());
    assert!(!Instruction::OP {
        rd: 1,
        rs1: 32,
        rs2: 0,
        funct7: 0
    }
    .has_operands_in_range());
    assert!(!Instruction::STORE {
        rs1: 0,
        rs2: 32,
        imm: 0
    }
    .has_operands_in_range());
    assert!(!Instruction::SHIFT_IMM {
        rd: 1,
        rs1: 1,
        shamt: 32,
        is_srai: false
    }
    .has_operands_in_range());
    assert!(Instruction::SHIFT_IMM {
        rd: 1,
        rs1: 1,
        shamt: 31,
        is_srai: true
    }
    .has_operands_in_range());
    // a destination that names no register is written nowhere
    let mut cpu = return_cpu();
    cpu.execute(Instruction::LUI {
        rd: 200,
        imm: 0x1000,
    })
    .unwrap();
    for i in 0..32 {
        assert_eq!(cpu.read_reg(i), 0);
    }
}
