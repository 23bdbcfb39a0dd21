use rv32sim::ast::{
    BranchCondition, Instruction, IntegerImmediateOperation, IntegerRegisterOperation, JumpTarget,
    LoadError, LoadWidth, Operand, Register, StoreWidth,
};
use rv32sim::literal::{parse_i32, parse_u32};

fn reg_op(name: &str) -> Operand {
    Operand::Register(name.to_string())
}

fn num(value: &str) -> Operand {
    Operand::Number(value.to_string())
}

fn decode(mnemonic: &str, operands: Vec<Operand>) -> Result<Instruction, LoadError> {
    Instruction::from_operands(mnemonic, &operands)
}

#[test]
fn register_names_map_to_indices() {
    assert_eq!(Register::from_name("zero"), Ok(Register { index: 0 }));
    assert_eq!(Register::from_name("sp"), Ok(Register { index: 2 }));
    assert_eq!(Register::from_name("s0"), Ok(Register { index: 8 }));
    assert_eq!(Register::from_name("fp"), Ok(Register { index: 8 }));
    assert_eq!(Register::from_name("a1"), Ok(Register { index: 11 }));
    assert_eq!(Register::from_name("s11"), Ok(Register { index: 27 }));
    assert_eq!(Register::from_name("t6"), Ok(Register { index: 31 }));
    assert_eq!(Register::from_name("x5"), Err(LoadError::InvalidRegisterName));
    assert_eq!(Register::from_name("Zero"), Err(LoadError::InvalidRegisterName));
}

#[test]
fn mnemonics_name_operations() {
    assert_eq!(BranchCondition::from_instruction_name("bgeu"), Some(BranchCondition::Geu));
    assert_eq!(BranchCondition::from_instruction_name("add"), None);
    assert_eq!(LoadWidth::from_instruction_name("lhu"), Some(LoadWidth::Hu));
    assert_eq!(LoadWidth::from_instruction_name("sw"), None);
    assert_eq!(StoreWidth::from_instruction_name("sh"), Some(StoreWidth::H));
    assert_eq!(StoreWidth::from_instruction_name("lh"), None);
    assert_eq!(
        IntegerImmediateOperation::from_instruction_name("sltiu"),
        Some(IntegerImmediateOperation::Sltu)
    );
    assert_eq!(IntegerImmediateOperation::from_instruction_name("sub"), None);
    assert_eq!(
        IntegerRegisterOperation::from_instruction_name("sub"),
        Some(IntegerRegisterOperation::Sub)
    );
    assert_eq!(IntegerRegisterOperation::from_instruction_name("subi"), None);
}

#[test]
fn literals_decimal_and_hex() {
    assert_eq!(parse_u32("0"), Some(0));
    assert_eq!(parse_u32("4096"), Some(4096));
    assert_eq!(parse_u32("0x10"), Some(16));
    assert_eq!(parse_u32("0xfF"), Some(255));
    assert_eq!(parse_u32("4294967295"), Some(u32::MAX));
    assert_eq!(parse_u32("0xFFFFFFFF"), Some(u32::MAX));
    assert_eq!(parse_u32("4294967296"), None);
    assert_eq!(parse_u32("0x100000000"), None);
    assert_eq!(parse_u32(""), None);
    assert_eq!(parse_u32("0x"), None);
    assert_eq!(parse_u32("12a"), None);
    assert_eq!(parse_u32("-1"), None);
    assert_eq!(parse_i32("-1"), Some(-1));
    assert_eq!(parse_i32("2147483647"), Some(i32::MAX));
    assert_eq!(parse_i32("2147483648"), None);
    assert_eq!(parse_i32("-2147483648"), Some(i32::MIN));
    assert_eq!(parse_i32("-2147483649"), None);
    assert_eq!(parse_i32("-0x10"), Some(-16));
    assert_eq!(parse_i32("0x7FFFFFFF"), Some(i32::MAX));
    assert_eq!(parse_i32("0x80000000"), None);
    assert_eq!(parse_i32("-"), None);
}

#[test]
fn decodes_each_family() {
    assert!(matches!(
        decode("lui", vec![reg_op("a0"), num("0x12345")]),
        Ok(Instruction::Lui(Register { index: 10 }, 0x12345))
    ));
    assert!(matches!(
        decode("auipc", vec![reg_op("t0"), num("1")]),
        Ok(Instruction::Auipc(Register { index: 5 }, 1))
    ));
    match decode("jal", vec![reg_op("ra"), Operand::LabelName("loop".to_string())]) {
        Ok(Instruction::Jal(Register { index: 1 }, JumpTarget::Label(name))) => {
            assert_eq!(name, "loop")
        }
        other => panic!("{:?}", other),
    }
    assert!(matches!(
        decode("jal", vec![reg_op("ra"), num("-8")]),
        Ok(Instruction::Jal(Register { index: 1 }, JumpTarget::Offset(-8)))
    ));
    assert!(matches!(
        decode("jalr", vec![reg_op("ra"), reg_op("sp"), num("1")]),
        Ok(Instruction::Jalr(Register { index: 1 }, Register { index: 2 }, 1))
    ));
    assert!(matches!(
        decode("bne", vec![reg_op("a0"), reg_op("a1"), num("12")]),
        Ok(Instruction::Branch(BranchCondition::Ne, _, _, JumpTarget::Offset(12)))
    ));
    match decode(
        "lh",
        vec![reg_op("a0"), Operand::Address("-4".to_string(), "fp".to_string())],
    ) {
        Ok(Instruction::Load(LoadWidth::H, Register { index: 10 }, a)) => {
            assert_eq!(a.offset, -4);
            assert_eq!(a.base, Register { index: 8 });
        }
        other => panic!("{:?}", other),
    }
    assert!(matches!(
        decode("sb", vec![reg_op("a0"), Operand::Address("0".to_string(), "sp".to_string())]),
        Ok(Instruction::Store(StoreWidth::B, _, _))
    ));
    assert!(matches!(
        decode("srai", vec![reg_op("a0"), reg_op("a0"), num("3")]),
        Ok(Instruction::IntegerImmediate(IntegerImmediateOperation::Sra, _, _, 3))
    ));
    assert!(matches!(
        decode("and", vec![reg_op("a0"), reg_op("a1"), reg_op("a2")]),
        Ok(Instruction::IntegerRegister(IntegerRegisterOperation::And, _, _, Register { index: 12 }))
    ));
}

#[test]
fn decode_errors() {
    assert_eq!(
        decode("mul", vec![reg_op("a0"), reg_op("a1"), reg_op("a2")]).unwrap_err(),
        LoadError::UnsupportedInstruction
    );
    assert_eq!(
        decode("add", vec![reg_op("a0"), reg_op("a1")]).unwrap_err(),
        LoadError::InvalidOperands
    );
    assert_eq!(
        decode("add", vec![reg_op("a0"), num("1"), reg_op("a2")]).unwrap_err(),
        LoadError::InvalidOperands
    );
    assert_eq!(
        decode("add", vec![reg_op("a0"), reg_op("x1"), reg_op("a2")]).unwrap_err(),
        LoadError::InvalidRegisterName
    );
    assert_eq!(
        decode("addi", vec![reg_op("a0"), reg_op("a1"), num("0xZZ")]).unwrap_err(),
        LoadError::InvalidNumericLiteral
    );
    assert_eq!(
        decode("lui", vec![reg_op("a0"), num("4294967296")]).unwrap_err(),
        LoadError::InvalidNumericLiteral
    );
    assert_eq!(
        decode("lw", vec![reg_op("a0"), Operand::Address("0".to_string(), "q".to_string())])
            .unwrap_err(),
        LoadError::InvalidRegisterName
    );
    assert_eq!(
        decode("lw", vec![reg_op("bad"), num("4")]).unwrap_err(),
        LoadError::InvalidRegisterName
    );
}
