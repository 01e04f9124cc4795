use shape_vm::i386::bytecode::ByteCode;
use shape_vm::i386::error::{DecodePhase, DisassemblyError};
use shape_vm::i386::instr::Instr;
use shape_vm::i386::operand::{
    AddressingMethod, MemRef, OpPrefix, Operand, OperandDecodeState, OperandDef, OperandType, Reg,
};
use shape_vm::i386::table::{opcode_table, uses_extension, ConditionCode, FlagKind, Mnemonic};

fn one(code: &[u8]) -> (Instr, usize) {
    let mut ip = 0usize;
    let instr = Instr::decode_one(code, &mut ip).unwrap();
    (instr, ip)
}

fn fails(code: &[u8]) -> DisassemblyError {
    let mut ip = 0usize;
    let error = Instr::decode_one(code, &mut ip).err().unwrap();
    assert_eq!(ip, 0);
    error
}

#[test]
fn pop_of_every_register() {
    let registers = [
        Reg::EAX,
        Reg::ECX,
        Reg::EDX,
        Reg::EBX,
        Reg::ESP,
        Reg::EBP,
        Reg::ESI,
        Reg::EDI,
    ];
    for r in 0..8u8 {
        let (instr, ip) = one(&[0x58 | r]);
        assert_eq!(instr.mnemonic, Mnemonic::Pop);
        assert_eq!(instr.operands, vec![Operand::Register(registers[r as usize])]);
        assert_eq!(ip, 1);
    }
}

#[test]
fn lookup_falls_back_to_the_base_opcode() {
    assert!(opcode_table(0x5B, 0).is_none());
    let def = Instr::lookup_op((0x5B, 0), 0).unwrap();
    assert_eq!(def.mnemonic, Mnemonic::Pop);
    let exact = Instr::lookup_op((0x58, 0), 0).unwrap();
    assert_eq!(exact.mnemonic, Mnemonic::Pop);
    assert_eq!(def.operands, exact.operands);
    // The extension does not stand in the way of the base opcode.
    assert!(opcode_table(0x83, 0).is_none());
    assert!(opcode_table(0x80, 0).is_none());
    assert_eq!(
        Instr::lookup_op((0x83, 0), 9).err(),
        Some(DisassemblyError::UnknownOpcode { offset: 9, opcode: 0x83, extension: 0 })
    );
    assert_eq!(Instr::lookup_op((0x83, 7), 0).unwrap().mnemonic, Mnemonic::Compare);
}

#[test]
fn push_takes_a_signed_immediate() {
    let (instr, ip) = one(&[0x68, 0xFE, 0xFF, 0xFF, 0xFF]);
    assert_eq!(instr.mnemonic, Mnemonic::Push);
    assert_eq!(instr.operands, vec![Operand::Imm32s(-2)]);
    assert_eq!(ip, 5);
    let (instr, ip) = one(&[0x66, 0x68, 0x00, 0x80]);
    assert_eq!(instr.operands, vec![Operand::Imm32s(-32768)]);
    assert_eq!(ip, 4);
}

#[test]
fn jump_if_not_zero() {
    let (instr, ip) = one(&[0x75, 0xF0]);
    assert_eq!(instr.mnemonic, Mnemonic::Jcc(ConditionCode::Check(FlagKind::ZF, false)));
    assert_eq!(instr.operands, vec![Operand::Imm32s(-16)]);
    assert_eq!(ip, 2);
}

#[test]
fn add_to_memory() {
    // add dword [0x12345678], 0x0A0B0C0D
    let (instr, ip) = one(&[0x81, 0x05, 0x78, 0x56, 0x34, 0x12, 0x0D, 0x0C, 0x0B, 0x0A]);
    assert_eq!(instr.mnemonic, Mnemonic::Add);
    assert_eq!(
        instr.operands,
        vec![Operand::Memory(MemRef::displacement(0x12345678)), Operand::Imm32(0x0A0B0C0D)]
    );
    assert_eq!(ip, 10);
    // add ecx, 1
    let (instr, _) = one(&[0x81, 0xC1, 1, 0, 0, 0]);
    assert_eq!(instr.operands, vec![Operand::Register(Reg::ECX), Operand::Imm32(1)]);
    // with the operand size toggled: add ax, 0xFFFF
    let (instr, ip) = one(&[0x66, 0x81, 0xC0, 0xFF, 0xFF]);
    assert_eq!(instr.operands, vec![Operand::Register(Reg::AX), Operand::Imm32(0xFFFF)]);
    assert_eq!(ip, 5);
}

#[test]
fn compare_with_a_byte() {
    // cmp dword [ebp - 4], -1
    let (instr, ip) = one(&[0x83, 0x7D, 0xFC, 0xFF]);
    assert_eq!(instr.mnemonic, Mnemonic::Compare);
    assert_eq!(
        instr.operands,
        vec![
            Operand::Memory(MemRef::base_plus_displacement(Reg::EBP, -4)),
            Operand::Imm32s(-1)
        ]
    );
    assert_eq!(ip, 4);
}

#[test]
fn move_register_to_memory() {
    // mov [0x00004000], edx
    let (instr, ip) = one(&[0x89, 0x15, 0x00, 0x40, 0x00, 0x00]);
    assert_eq!(instr.mnemonic, Mnemonic::Move);
    assert_eq!(
        instr.operands,
        vec![Operand::Memory(MemRef::displacement(0x4000)), Operand::Register(Reg::EDX)]
    );
    assert_eq!(ip, 6);
    // mov esi, ebx
    let (instr, ip) = one(&[0x89, 0xDE]);
    assert_eq!(instr.operands, vec![Operand::Register(Reg::ESI), Operand::Register(Reg::EBX)]);
    assert_eq!(ip, 2);
    // mov [..], ax
    let (instr, _) = one(&[0x66, 0x89, 0x05, 0x10, 0x00, 0x00, 0x80]);
    assert_eq!(
        instr.operands,
        vec![Operand::Memory(MemRef::displacement(-2147483632)), Operand::Register(Reg::AX)]
    );
}

#[test]
fn move_from_a_direct_address() {
    let (instr, ip) = one(&[0xA1, 0x44, 0x33, 0x22, 0x11]);
    assert_eq!(instr.mnemonic, Mnemonic::Move);
    assert_eq!(
        instr.operands,
        vec![Operand::Register(Reg::EAX), Operand::Memory(MemRef::displacement(0x11223344))]
    );
    assert_eq!(ip, 5);
    let (instr, _) = one(&[0x66, 0xA1, 0x44, 0x33, 0x22, 0x11]);
    assert_eq!(instr.operands[0], Operand::Register(Reg::AX));
}

#[test]
fn return_call_and_shift() {
    let (instr, ip) = one(&[0xC3, 0x90]);
    assert_eq!(instr.mnemonic, Mnemonic::Return);
    assert!(instr.operands.is_empty());
    assert_eq!(ip, 1);
    let (instr, ip) = one(&[0xE8, 0x10, 0x00, 0x00, 0x80]);
    assert_eq!(instr.mnemonic, Mnemonic::Call);
    assert_eq!(instr.operands, vec![Operand::Imm32(0x80000010)]);
    assert_eq!(ip, 5);
    // sar eax, 1
    let (instr, ip) = one(&[0xD1, 0xF8]);
    assert_eq!(instr.mnemonic, Mnemonic::Sar);
    assert_eq!(instr.operands, vec![Operand::Register(Reg::EAX), Operand::Imm32(1)]);
    assert_eq!(ip, 2);
}

#[test]
fn prefixes_other_than_the_two_sizes_change_nothing() {
    for prefix in [0x26u8, 0x2E, 0x36, 0x3E, 0x64, 0x65, 0x9B, 0xF0, 0xF2, 0xF3] {
        let (instr, ip) = one(&[prefix, 0x68, 1, 0, 0, 0]);
        assert_eq!(instr.operands, vec![Operand::Imm32s(1)]);
        assert_eq!(ip, 6);
        assert!(OpPrefix::is_prefix(prefix));
        assert_eq!(OpPrefix::default().apply(prefix), OpPrefix::default());
    }
    assert!(OpPrefix::default().apply(0x66).toggle_operand_size);
    assert!(!OpPrefix::default().apply(0x66).toggle_address_size);
    assert!(OpPrefix::default().apply(0x67).toggle_address_size);
    assert!(!OpPrefix::is_prefix(0x68));
    let mut ip = 1usize;
    let prefix = OpPrefix::from_bytes(&[0x66, 0x66, 0x67, 0xF3, 0x90], &mut ip);
    assert_eq!(ip, 4);
    assert!(prefix.toggle_operand_size && prefix.toggle_address_size);
}

#[test]
fn unknown_opcodes() {
    assert_eq!(
        fails(&[0x90]),
        DisassemblyError::UnknownOpcode { offset: 0, opcode: 0x90, extension: 0 }
    );
    assert_eq!(
        fails(&[0x66, 0x67, 0x83, 0x10]),
        DisassemblyError::UnknownOpcode { offset: 2, opcode: 0x83, extension: 2 }
    );
    assert_eq!(
        fails(&[0xD1, 0xE0]),
        DisassemblyError::UnknownOpcode { offset: 0, opcode: 0xD1, extension: 4 }
    );
}

#[test]
fn truncated_instructions() {
    let truncated = |phase| DisassemblyError::TruncatedInstruction { phase };
    assert_eq!(fails(&[]), truncated(DecodePhase::ReadOp));
    assert_eq!(fails(&[0x66]), truncated(DecodePhase::ReadOp));
    assert_eq!(fails(&[0x83]), truncated(DecodePhase::DecodeOpExt));
    assert_eq!(fails(&[0x89]), truncated(DecodePhase::ReadModrm));
    assert_eq!(fails(&[0x75]), truncated(DecodePhase::Read1));
    assert_eq!(fails(&[0x83, 0x7D]), truncated(DecodePhase::Read1));
    assert_eq!(fails(&[0x66, 0x68, 0x01]), truncated(DecodePhase::Read2));
    assert_eq!(fails(&[0x68, 1, 2, 3]), truncated(DecodePhase::Read4));
    assert_eq!(fails(&[0xA1, 1, 2, 3]), truncated(DecodePhase::Read4));
    assert_eq!(fails(&[0x81, 0x05, 1, 2, 3, 4, 5, 6, 7]), truncated(DecodePhase::Read4));
}

#[test]
fn unsupported_addressing_forms() {
    // mode 0 with a register pointer
    assert_eq!(fails(&[0x89, 0x00]), DisassemblyError::UnsupportedAddressingForm);
    // mode 0 with a scale-index-base byte
    assert_eq!(fails(&[0x89, 0x04, 0x24]), DisassemblyError::UnsupportedAddressingForm);
    // mode 1 with a scale-index-base byte
    assert_eq!(fails(&[0x89, 0x44, 0x24, 0x08]), DisassemblyError::UnsupportedAddressingForm);
    // mode 2: a base register with a displacement of four bytes
    assert_eq!(
        fails(&[0x89, 0x85, 0, 0, 0, 0]),
        DisassemblyError::UnsupportedAddressingForm
    );
    // a direct address under a toggled address size
    assert_eq!(
        fails(&[0x67, 0x89, 0x05, 0, 0, 0, 0]),
        DisassemblyError::UnsupportedAddressingForm
    );
    // a 16-bit register other than AX
    assert_eq!(fails(&[0x66, 0x89, 0xC9]), DisassemblyError::UnsupportedAddressingForm);
}

#[test]
fn disassemble_a_fragment() {
    let code = [
        0xA1u8, 0x00, 0x40, 0x00, 0x00, // mov eax, [0x4000]
        0x83, 0xF8, 0x01, // cmp eax, 1
        0x75, 0x02, // jne +2
        0xD1, 0xF8, // sar eax, 1
        0x68, 0x10, 0x00, 0x00, 0xAA, // push
        0xC3, // ret
    ];
    let instrs = Instr::disassemble(&code).unwrap();
    let mnemonics: Vec<Mnemonic> = instrs.iter().map(|i| i.mnemonic).collect();
    assert_eq!(
        mnemonics,
        vec![
            Mnemonic::Move,
            Mnemonic::Compare,
            Mnemonic::Jcc(ConditionCode::Check(FlagKind::ZF, false)),
            Mnemonic::Sar,
            Mnemonic::Push,
            Mnemonic::Return
        ]
    );
    let block = ByteCode::disassemble(&code, 0xAA00_0100).unwrap();
    assert_eq!(block.offsets, vec![0, 5, 8, 10, 12, 17]);
    assert_eq!(block.size, 18);
    assert_eq!(block.start_addr, 0xAA00_0100);
    assert_eq!(block.address_of(2), 0xAA00_0108);
    assert_eq!(block.next_address(2), 0xAA00_010A);
    assert_eq!(block.next_address(5), 0xAA00_0112);
    assert_eq!(block.instrs.len(), instrs.len());
}

#[test]
fn disassembling_twice_gives_the_same() {
    let code = [0x58u8, 0x68, 1, 2, 3, 4, 0x89, 0xC1, 0xC3];
    let first = Instr::disassemble(&code).unwrap();
    let second = Instr::disassemble(&code).unwrap();
    assert_eq!(first.len(), second.len());
    for (a, b) in first.iter().zip(second.iter()) {
        assert_eq!(a.mnemonic, b.mnemonic);
        assert_eq!(a.operands, b.operands);
    }
    let bad = [0x58u8, 0x90];
    assert_eq!(Instr::disassemble(&bad).err(), Instr::disassemble(&bad).err());
    assert_eq!(
        Instr::disassemble(&bad).err(),
        Some(DisassemblyError::UnknownOpcode { offset: 1, opcode: 0x90, extension: 0 })
    );
    assert!(Instr::disassemble(&[]).unwrap().is_empty());
}

#[test]
fn operands_share_one_modrm_byte() {
    let code = [0xD1u8];
    let mut ip = 0usize;
    let mut state = OperandDecodeState::initial(OpPrefix::default(), 0x89);
    assert_eq!(state.read_modrm(&code, &mut ip), Ok((3, 2, 1)));
    assert_eq!(ip, 1);
    assert_eq!(state.read_modrm(&code, &mut ip), Ok((3, 2, 1)));
    assert_eq!(ip, 1);
    assert_eq!(state.modrm, Some(0xD1));
    let g = OperandDef { method: AddressingMethod::G, ty: OperandType::v };
    assert_eq!(
        Operand::from_bytes(&code, &mut ip, &g, &mut state),
        Ok(Operand::Register(Reg::EDX))
    );
    assert_eq!(ip, 1);
}

#[test]
fn operand_helpers() {
    assert_eq!(Operand::modrm(0b01_101_010), (1, 5, 2));
    assert_eq!(Operand::register(0), Reg::EAX);
    assert_eq!(Operand::register(7), Reg::EDI);
    assert_eq!(Operand::maybe_toggle_reg_size(Reg::EAX, true), Ok(Reg::AX));
    assert_eq!(Operand::maybe_toggle_reg_size(Reg::EBX, false), Ok(Reg::EBX));
    assert_eq!(
        Operand::maybe_toggle_reg_size(Reg::EBX, true),
        Err(DisassemblyError::UnsupportedAddressingForm)
    );
    let code = [0x01u8, 0x02, 0x03, 0x84];
    let mut ip = 0usize;
    assert_eq!(Operand::read_n_32(&code, &mut ip, false, true), Ok(Operand::Imm32s(-2080177663)));
    assert_eq!(ip, 4);
    ip = 2;
    assert_eq!(Operand::read_n_32(&code, &mut ip, true, false), Ok(Operand::Imm32(0x8403)));
    ip = 2;
    assert_eq!(Operand::read_n_32(&code, &mut ip, true, true), Ok(Operand::Imm32s(-31741)));
    ip = 3;
    assert_eq!(Operand::read1(&code, &mut ip), Ok(0x84));
    assert_eq!(
        Operand::read1(&code, &mut ip),
        Err(DisassemblyError::TruncatedInstruction { phase: DecodePhase::Read1 })
    );
    assert_eq!(ip, 4);
    ip = 1;
    assert_eq!(Operand::read2(&code, &mut ip), Ok(0x0302));
    ip = 0;
    assert_eq!(Operand::read4(&code, &mut ip), Ok(0x84030201));
    let m = MemRef::base_plus_displacement(Reg::ESI, -8);
    assert_eq!((m.displacement, m.base, m.index, m.scale), (-8, Some(Reg::ESI), None, 1));
    let m = MemRef::displacement(12);
    assert_eq!((m.displacement, m.base, m.index, m.scale), (12, None, None, 1));
    assert!(uses_extension(0x83) && uses_extension(0xD1) && uses_extension(0xFF));
    assert!(!uses_extension(0x89) && !uses_extension(0x58));
}

#[test]
fn every_table_entry() {
    let entries: [(u8, u8, Mnemonic, usize); 10] = [
        (0x58, 0, Mnemonic::Pop, 1),
        (0x68, 0, Mnemonic::Push, 1),
        (0x75, 0, Mnemonic::Jcc(ConditionCode::Check(FlagKind::ZF, false)), 1),
        (0x81, 0, Mnemonic::Add, 2),
        (0x83, 7, Mnemonic::Compare, 2),
        (0x89, 0, Mnemonic::Move, 2),
        (0xA1, 0, Mnemonic::Move, 2),
        (0xC3, 0, Mnemonic::Return, 0),
        (0xD1, 7, Mnemonic::Sar, 2),
        (0xE8, 0, Mnemonic::Call, 1),
    ];
    for (op, ext, mnemonic, operands) in entries {
        let def = opcode_table(op, ext).unwrap();
        assert_eq!(def.mnemonic, mnemonic);
        assert_eq!(def.operands.len(), operands);
    }
    assert!(opcode_table(0x58, 1).is_none());
    assert!(opcode_table(0x00, 0).is_none());
}

#[test]
fn lib_it_works() {
    let fragments: Vec<Vec<u8>> = vec![
        vec![0xA1, 0x00, 0x40, 0x00, 0x00, 0x83, 0xF8, 0x01, 0x75, 0x02, 0xD1, 0xF8, 0xC3],
        vec![0x66, 0xA1, 0x10, 0x00, 0x00, 0x00, 0x66, 0x89, 0x05, 0x20, 0x00, 0x00, 0x00, 0xC3],
        vec![0x68, 0x34, 0x12, 0x00, 0xAA, 0xE8, 0x00, 0x01, 0x00, 0x00],
        vec![0x58, 0x59, 0x5A, 0x5B, 0x81, 0x05, 0x00, 0x10, 0x00, 0x00, 0x04, 0x00, 0x00, 0x00],
        vec![],
    ];
    for (i, data) in fragments.iter().enumerate() {
        println!("AT: {}", i);
        let bc = Instr::disassemble(data);
        if let Err(ref e) = bc {
            if let DisassemblyError::UnknownOpcode { offset, opcode, extension } = e {
                println!("Unknown OpCode: {:2X} /{}", opcode, extension);
                let mut line2 = String::new();
                for _ in 0..offset * 3 {
                    line2 += "-";
                }
                line2 += "^";
                println!("{:?}\n{}", data, line2);
            }
            println!("Error: {:?}", e);
        }
        bc.unwrap();
    }
}
