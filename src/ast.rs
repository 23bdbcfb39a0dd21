//! Operands, instructions and programs, before any address is assigned.

use crate::literal::{i32_literal, parse_i32, parse_u32, u32_literal};
use vstd::prelude::*;

verus! {

/// A general-purpose register, by index; a valid index lies in `0..32`.
#[derive(Debug, Copy, Clone, PartialEq, Eq, Structural)]
pub struct Register {
    pub index: u8,
}

/// Where a jump or a taken branch goes: a label resolved against the label
/// table, or an offset added directly to the program counter.
#[derive(Debug, Clone)]
pub enum JumpTarget {
    Label(String),
    Offset(i32),
}

/// A load or store operand: base register plus signed offset.
#[derive(Debug, Copy, Clone, PartialEq, Eq, Structural)]
pub struct Address {
    pub offset: i32,
    pub base: Register,
}

#[derive(Debug, Copy, Clone, PartialEq, Eq, Structural)]
pub enum BranchCondition { Eq, Ne, Lt, Ge, Ltu, Geu }

#[derive(Debug, Copy, Clone, PartialEq, Eq, Structural)]
pub enum LoadWidth { B, H, W, Bu, Hu }

#[derive(Debug, Copy, Clone, PartialEq, Eq, Structural)]
pub enum StoreWidth { B, H, W }

#[derive(Debug, Copy, Clone, PartialEq, Eq, Structural)]
pub enum IntegerImmediateOperation { Add, Slt, Sltu, Xor, Or, And, Sll, Srl, Sra }

#[derive(Debug, Copy, Clone, PartialEq, Eq, Structural)]
pub enum IntegerRegisterOperation { Add, Sub, Sll, Slt, Sltu, Xor, Srl, Sra, Or, And }

#[derive(Debug, Clone)]
pub enum Instruction {
    Lui(Register, u32),
    Auipc(Register, u32),
    Jal(Register, JumpTarget),
    Jalr(Register, Register, i32),
    Branch(BranchCondition, Register, Register, JumpTarget),
    Load(LoadWidth, Register, Address),
    Store(StoreWidth, Register, Address),
    IntegerImmediate(IntegerImmediateOperation, Register, Register, i32),
    IntegerRegister(IntegerRegisterOperation, Register, Register, Register),
}

#[derive(Debug, Clone)]
pub struct Label {
    pub name: String,
}

#[derive(Debug, Clone)]
pub enum Line {
    Instruction(Instruction),
    Label(Label),
}

#[derive(Debug, Clone)]
pub struct Program {
    pub lines: Vec<Line>,
}

/// Why a program could not be built or loaded.
#[derive(Debug, Copy, Clone, PartialEq, Eq, Structural)]
pub enum LoadError {
    /// A register operand names no register.
    InvalidRegisterName,
    /// A numeric operand is malformed or out of range for its field.
    InvalidNumericLiteral,
    /// The mnemonic names no instruction of the subset.
    UnsupportedInstruction,
    /// The operands do not fit the mnemonic, in number or in kind.
    InvalidOperands,
    /// The program holds more instructions than instruction memory has slots.
    ProgramTooLarge,
}

impl Register {
    pub open spec fn wf(self) -> bool {
        self.index < 32
    }
}

impl Instruction {
    /// Every register the instruction names is a valid one.
    pub open spec fn wf(&self) -> bool {
        match *self {
            Instruction::Lui(rd, _) => rd.wf(),
            Instruction::Auipc(rd, _) => rd.wf(),
            Instruction::Jal(rd, _) => rd.wf(),
            Instruction::Jalr(rd, base, _) => rd.wf() && base.wf(),
            Instruction::Branch(_, rs1, rs2, _) => rs1.wf() && rs2.wf(),
            Instruction::Load(_, rd, a) => rd.wf() && a.base.wf(),
            Instruction::Store(_, rs, a) => rs.wf() && a.base.wf(),
            Instruction::IntegerImmediate(_, rd, rs1, _) => rd.wf() && rs1.wf(),
            Instruction::IntegerRegister(_, rd, rs1, rs2) => rd.wf() && rs1.wf() && rs2.wf(),
        }
    }
}

impl Line {
    pub open spec fn wf(&self) -> bool {
        match *self {
            Line::Instruction(i) => i.wf(),
            Line::Label(_) => true,
        }
    }
}

impl Program {
    pub open spec fn wf(&self) -> bool {
        forall|i: int| 0 <= i < self.lines@.len() ==> #[trigger] self.lines@[i].wf()
    }
}

/// Whether two strings hold the same characters.
fn same_text(a: &str, b: &str) -> (r: bool)
    ensures
        r == (a@ == b@),
{
    a.to_owned() == b.to_owned()
}

/// The register index that an assembly name stands for; `fp` is another name
/// for `s0`.
pub open spec fn register_index_of(name: Seq<char>) -> Option<u8> {
    if name == "zero"@ {
        Some(0u8)
    } else if name == "ra"@ {
        Some(1u8)
    } else if name == "sp"@ {
        Some(2u8)
    } else if name == "gp"@ {
        Some(3u8)
    } else if name == "tp"@ {
        Some(4u8)
    } else if name == "t0"@ {
        Some(5u8)
    } else if name == "t1"@ {
        Some(6u8)
    } else if name == "t2"@ {
        Some(7u8)
    } else if name == "s0"@ {
        Some(8u8)
    } else if name == "fp"@ {
        Some(8u8)
    } else if name == "s1"@ {
        Some(9u8)
    } else if name == "a0"@ {
        Some(10u8)
    } else if name == "a1"@ {
        Some(11u8)
    } else if name == "a2"@ {
        Some(12u8)
    } else if name == "a3"@ {
        Some(13u8)
    } else if name == "a4"@ {
        Some(14u8)
    } else if name == "a5"@ {
        Some(15u8)
    } else if name == "a6"@ {
        Some(16u8)
    } else if name == "a7"@ {
        Some(17u8)
    } else if name == "s2"@ {
        Some(18u8)
    } else if name == "s3"@ {
        Some(19u8)
    } else if name == "s4"@ {
        Some(20u8)
    } else if name == "s5"@ {
        Some(21u8)
    } else if name == "s6"@ {
        Some(22u8)
    } else if name == "s7"@ {
        Some(23u8)
    } else if name == "s8"@ {
        Some(24u8)
    } else if name == "s9"@ {
        Some(25u8)
    } else if name == "s10"@ {
        Some(26u8)
    } else if name == "s11"@ {
        Some(27u8)
    } else if name == "t3"@ {
        Some(28u8)
    } else if name == "t4"@ {
        Some(29u8)
    } else if name == "t5"@ {
        Some(30u8)
    } else if name == "t6"@ {
        Some(31u8)
    } else {
        None
    }
}

impl Register {
    /// The register an assembly name stands for.
    pub fn from_name(name: &str) -> (r: Result<Register, LoadError>)
        ensures
            r == (match register_index_of(name@) {
                Some(index) => Ok(Register { index }),
                None => Err(LoadError::InvalidRegisterName),
            }),
            r matches Ok(reg) ==> reg.wf(),
    {
        let index: Option<u8> = if same_text(name, "zero") {
            Some(0u8)
        } else if same_text(name, "ra") {
            Some(1u8)
        } else if same_text(name, "sp") {
            Some(2u8)
        } else if same_text(name, "gp") {
            Some(3u8)
        } else if same_text(name, "tp") {
            Some(4u8)
        } else if same_text(name, "t0") {
            Some(5u8)
        } else if same_text(name, "t1") {
            Some(6u8)
        } else if same_text(name, "t2") {
            Some(7u8)
        } else if same_text(name, "s0") {
            Some(8u8)
        } else if same_text(name, "fp") {
            Some(8u8)
        } else if same_text(name, "s1") {
            Some(9u8)
        } else if same_text(name, "a0") {
            Some(10u8)
        } else if same_text(name, "a1") {
            Some(11u8)
        } else if same_text(name, "a2") {
            Some(12u8)
        } else if same_text(name, "a3") {
            Some(13u8)
        } else if same_text(name, "a4") {
            Some(14u8)
        } else if same_text(name, "a5") {
            Some(15u8)
        } else if same_text(name, "a6") {
            Some(16u8)
        } else if same_text(name, "a7") {
            Some(17u8)
        } else if same_text(name, "s2") {
            Some(18u8)
        } else if same_text(name, "s3") {
            Some(19u8)
        } else if same_text(name, "s4") {
            Some(20u8)
        } else if same_text(name, "s5") {
            Some(21u8)
        } else if same_text(name, "s6") {
            Some(22u8)
        } else if same_text(name, "s7") {
            Some(23u8)
        } else if same_text(name, "s8") {
            Some(24u8)
        } else if same_text(name, "s9") {
            Some(25u8)
        } else if same_text(name, "s10") {
            Some(26u8)
        } else if same_text(name, "s11") {
            Some(27u8)
        } else if same_text(name, "t3") {
            Some(28u8)
        } else if same_text(name, "t4") {
            Some(29u8)
        } else if same_text(name, "t5") {
            Some(30u8)
        } else if same_text(name, "t6") {
            Some(31u8)
        } else {
            None
        };
        match index {
            Some(index) => Ok(Register { index }),
            None => Err(LoadError::InvalidRegisterName),
        }
    }
}

/// The branch condition a mnemonic names.
pub open spec fn branch_condition_named(name: Seq<char>) -> Option<BranchCondition> {
    if name == "beq"@ {
        Some(BranchCondition::Eq)
    } else if name == "bne"@ {
        Some(BranchCondition::Ne)
    } else if name == "blt"@ {
        Some(BranchCondition::Lt)
    } else if name == "bge"@ {
        Some(BranchCondition::Ge)
    } else if name == "bltu"@ {
        Some(BranchCondition::Ltu)
    } else if name == "bgeu"@ {
        Some(BranchCondition::Geu)
    } else {
        None
    }
}

impl BranchCondition {
    pub fn from_instruction_name(name: &str) -> (r: Option<Self>)
        ensures
            r == branch_condition_named(name@),
    {
        if same_text(name, "beq") {
            Some(BranchCondition::Eq)
        } else if same_text(name, "bne") {
            Some(BranchCondition::Ne)
        } else if same_text(name, "blt") {
            Some(BranchCondition::Lt)
        } else if same_text(name, "bge") {
            Some(BranchCondition::Ge)
        } else if same_text(name, "bltu") {
            Some(BranchCondition::Ltu)
        } else if same_text(name, "bgeu") {
            Some(BranchCondition::Geu)
        } else {
            None
        }
    }
}

/// The load width a mnemonic names.
pub open spec fn load_width_named(name: Seq<char>) -> Option<LoadWidth> {
    if name == "lb"@ {
        Some(LoadWidth::B)
    } else if name == "lh"@ {
        Some(LoadWidth::H)
    } else if name == "lw"@ {
        Some(LoadWidth::W)
    } else if name == "lbu"@ {
        Some(LoadWidth::Bu)
    } else if name == "lhu"@ {
        Some(LoadWidth::Hu)
    } else {
        None
    }
}

impl LoadWidth {
    pub fn from_instruction_name(name: &str) -> (r: Option<Self>)
        ensures
            r == load_width_named(name@),
    {
        if same_text(name, "lb") {
            Some(LoadWidth::B)
        } else if same_text(name, "lh") {
            Some(LoadWidth::H)
        } else if same_text(name, "lw") {
            Some(LoadWidth::W)
        } else if same_text(name, "lbu") {
            Some(LoadWidth::Bu)
        } else if same_text(name, "lhu") {
            Some(LoadWidth::Hu)
        } else {
            None
        }
    }
}

/// The store width a mnemonic names.
pub open spec fn store_width_named(name: Seq<char>) -> Option<StoreWidth> {
    if name == "sb"@ {
        Some(StoreWidth::B)
    } else if name == "sh"@ {
        Some(StoreWidth::H)
    } else if name == "sw"@ {
        Some(StoreWidth::W)
    } else {
        None
    }
}

impl StoreWidth {
    pub fn from_instruction_name(name: &str) -> (r: Option<Self>)
        ensures
            r == store_width_named(name@),
    {
        if same_text(name, "sb") {
            Some(StoreWidth::B)
        } else if same_text(name, "sh") {
            Some(StoreWidth::H)
        } else if same_text(name, "sw") {
            Some(StoreWidth::W)
        } else {
            None
        }
    }
}

/// The immediate operation a mnemonic names.
pub open spec fn immediate_operation_named(name: Seq<char>) -> Option<IntegerImmediateOperation> {
    if name == "addi"@ {
        Some(IntegerImmediateOperation::Add)
    } else if name == "slti"@ {
        Some(IntegerImmediateOperation::Slt)
    } else if name == "sltiu"@ {
        Some(IntegerImmediateOperation::Sltu)
    } else if name == "xori"@ {
        Some(IntegerImmediateOperation::Xor)
    } else if name == "ori"@ {
        Some(IntegerImmediateOperation::Or)
    } else if name == "andi"@ {
        Some(IntegerImmediateOperation::And)
    } else if name == "slli"@ {
        Some(IntegerImmediateOperation::Sll)
    } else if name == "srli"@ {
        Some(IntegerImmediateOperation::Srl)
    } else if name == "srai"@ {
        Some(IntegerImmediateOperation::Sra)
    } else {
        None
    }
}

impl IntegerImmediateOperation {
    pub fn from_instruction_name(name: &str) -> (r: Option<Self>)
        ensures
            r == immediate_operation_named(name@),
    {
        if same_text(name, "addi") {
            Some(IntegerImmediateOperation::Add)
        } else if same_text(name, "slti") {
            Some(IntegerImmediateOperation::Slt)
        } else if same_text(name, "sltiu") {
            Some(IntegerImmediateOperation::Sltu)
        } else if same_text(name, "xori") {
            Some(IntegerImmediateOperation::Xor)
        } else if same_text(name, "ori") {
            Some(IntegerImmediateOperation::Or)
        } else if same_text(name, "andi") {
            Some(IntegerImmediateOperation::And)
        } else if same_text(name, "slli") {
            Some(IntegerImmediateOperation::Sll)
        } else if same_text(name, "srli") {
            Some(IntegerImmediateOperation::Srl)
        } else if same_text(name, "srai") {
            Some(IntegerImmediateOperation::Sra)
        } else {
            None
        }
    }
}

/// The register operation a mnemonic names.
pub open spec fn register_operation_named(name: Seq<char>) -> Option<IntegerRegisterOperation> {
    if name == "add"@ {
        Some(IntegerRegisterOperation::Add)
    } else if name == "sub"@ {
        Some(IntegerRegisterOperation::Sub)
    } else if name == "sll"@ {
        Some(IntegerRegisterOperation::Sll)
    } else if name == "slt"@ {
        Some(IntegerRegisterOperation::Slt)
    } else if name == "sltu"@ {
        Some(IntegerRegisterOperation::Sltu)
    } else if name == "xor"@ {
        Some(IntegerRegisterOperation::Xor)
    } else if name == "srl"@ {
        Some(IntegerRegisterOperation::Srl)
    } else if name == "sra"@ {
        Some(IntegerRegisterOperation::Sra)
    } else if name == "or"@ {
        Some(IntegerRegisterOperation::Or)
    } else if name == "and"@ {
        Some(IntegerRegisterOperation::And)
    } else {
        None
    }
}

impl IntegerRegisterOperation {
    pub fn from_instruction_name(name: &str) -> (r: Option<Self>)
        ensures
            r == register_operation_named(name@),
    {
        if same_text(name, "add") {
            Some(IntegerRegisterOperation::Add)
        } else if same_text(name, "sub") {
            Some(IntegerRegisterOperation::Sub)
        } else if same_text(name, "sll") {
            Some(IntegerRegisterOperation::Sll)
        } else if same_text(name, "slt") {
            Some(IntegerRegisterOperation::Slt)
        } else if same_text(name, "sltu") {
            Some(IntegerRegisterOperation::Sltu)
        } else if same_text(name, "xor") {
            Some(IntegerRegisterOperation::Xor)
        } else if same_text(name, "srl") {
            Some(IntegerRegisterOperation::Srl)
        } else if same_text(name, "sra") {
            Some(IntegerRegisterOperation::Sra)
        } else if same_text(name, "or") {
            Some(IntegerRegisterOperation::Or)
        } else if same_text(name, "and") {
            Some(IntegerRegisterOperation::And)
        } else {
            None
        }
    }
}


/// One operand as the front end hands it over: a register name, a numeric
/// literal, an `offset(base)` pair, or a label name.
#[derive(Debug, Clone)]
pub enum Operand {
    Register(String),
    Number(String),
    Address(String, String),
    LabelName(String),
}

pub open spec fn register_operand(op: Operand) -> Result<Register, LoadError> {
    match op {
        Operand::Register(name) => match register_index_of(name@) {
            Some(index) => Ok(Register { index }),
            None => Err(LoadError::InvalidRegisterName),
        },
        _ => Err(LoadError::InvalidOperands),
    }
}

pub open spec fn u32_operand(op: Operand) -> Result<u32, LoadError> {
    match op {
        Operand::Number(text) => match u32_literal(text@) {
            Some(v) => Ok(v),
            None => Err(LoadError::InvalidNumericLiteral),
        },
        _ => Err(LoadError::InvalidOperands),
    }
}

pub open spec fn i32_operand(op: Operand) -> Result<i32, LoadError> {
    match op {
        Operand::Number(text) => match i32_literal(text@) {
            Some(v) => Ok(v),
            None => Err(LoadError::InvalidNumericLiteral),
        },
        _ => Err(LoadError::InvalidOperands),
    }
}

pub open spec fn address_operand(op: Operand) -> Result<Address, LoadError> {
    match op {
        Operand::Address(offset, base) => match i32_literal(offset@) {
            None => Err(LoadError::InvalidNumericLiteral),
            Some(offset) => match register_index_of(base@) {
                Some(index) => Ok(Address { offset, base: Register { index } }),
                None => Err(LoadError::InvalidRegisterName),
            },
        },
        _ => Err(LoadError::InvalidOperands),
    }
}

pub open spec fn target_operand(op: Operand) -> Result<JumpTarget, LoadError> {
    match op {
        Operand::LabelName(name) => Ok(JumpTarget::Label(name)),
        Operand::Number(text) => match i32_literal(text@) {
            Some(v) => Ok(JumpTarget::Offset(v)),
            None => Err(LoadError::InvalidNumericLiteral),
        },
        _ => Err(LoadError::InvalidOperands),
    }
}

pub open spec fn decode_upper(ops: Seq<Operand>, lui: bool) -> Result<Instruction, LoadError> {
    if ops.len() != 2 {
        Err(LoadError::InvalidOperands)
    } else {
        match (register_operand(ops[0]), u32_operand(ops[1])) {
            (Err(e), _) => Err(e),
            (Ok(_), Err(e)) => Err(e),
            (Ok(rd), Ok(imm)) => Ok(
                if lui {
                    Instruction::Lui(rd, imm)
                } else {
                    Instruction::Auipc(rd, imm)
                },
            ),
        }
    }
}

pub open spec fn decode_jal(ops: Seq<Operand>) -> Result<Instruction, LoadError> {
    if ops.len() != 2 {
        Err(LoadError::InvalidOperands)
    } else {
        match (register_operand(ops[0]), target_operand(ops[1])) {
            (Err(e), _) => Err(e),
            (Ok(_), Err(e)) => Err(e),
            (Ok(rd), Ok(target)) => Ok(Instruction::Jal(rd, target)),
        }
    }
}

pub open spec fn decode_jalr(ops: Seq<Operand>) -> Result<Instruction, LoadError> {
    if ops.len() != 3 {
        Err(LoadError::InvalidOperands)
    } else {
        match (register_operand(ops[0]), register_operand(ops[1]), i32_operand(ops[2])) {
            (Err(e), _, _) => Err(e),
            (Ok(_), Err(e), _) => Err(e),
            (Ok(_), Ok(_), Err(e)) => Err(e),
            (Ok(rd), Ok(base), Ok(offset)) => Ok(Instruction::Jalr(rd, base, offset)),
        }
    }
}

pub open spec fn decode_branch(c: BranchCondition, ops: Seq<Operand>) -> Result<Instruction, LoadError> {
    if ops.len() != 3 {
        Err(LoadError::InvalidOperands)
    } else {
        match (register_operand(ops[0]), register_operand(ops[1]), target_operand(ops[2])) {
            (Err(e), _, _) => Err(e),
            (Ok(_), Err(e), _) => Err(e),
            (Ok(_), Ok(_), Err(e)) => Err(e),
            (Ok(rs1), Ok(rs2), Ok(target)) => Ok(Instruction::Branch(c, rs1, rs2, target)),
        }
    }
}

pub open spec fn decode_load(w: LoadWidth, ops: Seq<Operand>) -> Result<Instruction, LoadError> {
    if ops.len() != 2 {
        Err(LoadError::InvalidOperands)
    } else {
        match (register_operand(ops[0]), address_operand(ops[1])) {
            (Err(e), _) => Err(e),
            (Ok(_), Err(e)) => Err(e),
            (Ok(rd), Ok(a)) => Ok(Instruction::Load(w, rd, a)),
        }
    }
}

pub open spec fn decode_store(w: StoreWidth, ops: Seq<Operand>) -> Result<Instruction, LoadError> {
    if ops.len() != 2 {
        Err(LoadError::InvalidOperands)
    } else {
        match (register_operand(ops[0]), address_operand(ops[1])) {
            (Err(e), _) => Err(e),
            (Ok(_), Err(e)) => Err(e),
            (Ok(rs), Ok(a)) => Ok(Instruction::Store(w, rs, a)),
        }
    }
}

pub open spec fn decode_immediate(
    op: IntegerImmediateOperation,
    ops: Seq<Operand>,
) -> Result<Instruction, LoadError> {
    if ops.len() != 3 {
        Err(LoadError::InvalidOperands)
    } else {
        match (register_operand(ops[0]), register_operand(ops[1]), i32_operand(ops[2])) {
            (Err(e), _, _) => Err(e),
            (Ok(_), Err(e), _) => Err(e),
            (Ok(_), Ok(_), Err(e)) => Err(e),
            (Ok(rd), Ok(rs1), Ok(imm)) => Ok(Instruction::IntegerImmediate(op, rd, rs1, imm)),
        }
    }
}

pub open spec fn decode_register(
    op: IntegerRegisterOperation,
    ops: Seq<Operand>,
) -> Result<Instruction, LoadError> {
    if ops.len() != 3 {
        Err(LoadError::InvalidOperands)
    } else {
        match (register_operand(ops[0]), register_operand(ops[1]), register_operand(ops[2])) {
            (Err(e), _, _) => Err(e),
            (Ok(_), Err(e), _) => Err(e),
            (Ok(_), Ok(_), Err(e)) => Err(e),
            (Ok(rd), Ok(rs1), Ok(rs2)) => Ok(Instruction::IntegerRegister(op, rd, rs1, rs2)),
        }
    }
}

/// The instruction a mnemonic and its operands denote. The operand count is
/// checked first, then the operands in order; the first that fails decides
/// the error.
pub open spec fn decode(m: Seq<char>, ops: Seq<Operand>) -> Result<Instruction, LoadError> {
    if m == "lui"@ {
        decode_upper(ops, true)
    } else if m == "auipc"@ {
        decode_upper(ops, false)
    } else if m == "jal"@ {
        decode_jal(ops)
    } else if m == "jalr"@ {
        decode_jalr(ops)
    } else if branch_condition_named(m) is Some {
        decode_branch(branch_condition_named(m)->0, ops)
    } else if load_width_named(m) is Some {
        decode_load(load_width_named(m)->0, ops)
    } else if store_width_named(m) is Some {
        decode_store(store_width_named(m)->0, ops)
    } else if immediate_operation_named(m) is Some {
        decode_immediate(immediate_operation_named(m)->0, ops)
    } else if register_operation_named(m) is Some {
        decode_register(register_operation_named(m)->0, ops)
    } else {
        Err(LoadError::UnsupportedInstruction)
    }
}

impl Operand {
    fn to_register(&self) -> (r: Result<Register, LoadError>)
        ensures
            r == register_operand(*self),
            r matches Ok(reg) ==> reg.wf(),
    {
        match self {
            Operand::Register(name) => Register::from_name(name.as_str()),
            _ => Err(LoadError::InvalidOperands),
        }
    }

    fn to_u32(&self) -> (r: Result<u32, LoadError>)
        ensures
            r == u32_operand(*self),
    {
        match self {
            Operand::Number(text) => match parse_u32(text.as_str()) {
                Some(v) => Ok(v),
                None => Err(LoadError::InvalidNumericLiteral),
            },
            _ => Err(LoadError::InvalidOperands),
        }
    }

    fn to_i32(&self) -> (r: Result<i32, LoadError>)
        ensures
            r == i32_operand(*self),
    {
        match self {
            Operand::Number(text) => match parse_i32(text.as_str()) {
                Some(v) => Ok(v),
                None => Err(LoadError::InvalidNumericLiteral),
            },
            _ => Err(LoadError::InvalidOperands),
        }
    }

    fn to_address(&self) -> (r: Result<Address, LoadError>)
        ensures
            r == address_operand(*self),
            r matches Ok(a) ==> a.base.wf(),
    {
        match self {
            Operand::Address(offset, base) => {
                let offset = match parse_i32(offset.as_str()) {
                    Some(v) => v,
                    None => {
                        return Err(LoadError::InvalidNumericLiteral);
                    },
                };
                match Register::from_name(base.as_str()) {
                    Ok(base) => Ok(Address { offset, base }),
                    Err(e) => Err(e),
                }
            },
            _ => Err(LoadError::InvalidOperands),
        }
    }

    fn to_target(&self) -> (r: Result<JumpTarget, LoadError>)
        ensures
            r == target_operand(*self),
    {
        match self {
            Operand::LabelName(name) => Ok(JumpTarget::Label(name.clone())),
            Operand::Number(text) => match parse_i32(text.as_str()) {
                Some(v) => Ok(JumpTarget::Offset(v)),
                None => Err(LoadError::InvalidNumericLiteral),
            },
            _ => Err(LoadError::InvalidOperands),
        }
    }
}

impl Instruction {
    fn upper_from(operands: &Vec<Operand>, lui: bool) -> (r: Result<Instruction, LoadError>)
        ensures
            r == decode_upper(operands@, lui),
            r matches Ok(i) ==> i.wf(),
    {
        if operands.len() != 2 {
            return Err(LoadError::InvalidOperands);
        }
        let rd = match operands[0].to_register() {
            Ok(r) => r,
            Err(e) => {
                return Err(e);
            },
        };
        let imm = match operands[1].to_u32() {
            Ok(v) => v,
            Err(e) => {
                return Err(e);
            },
        };
        if lui {
            Ok(Instruction::Lui(rd, imm))
        } else {
            Ok(Instruction::Auipc(rd, imm))
        }
    }

    fn jal_from(operands: &Vec<Operand>) -> (r: Result<Instruction, LoadError>)
        ensures
            r == decode_jal(operands@),
            r matches Ok(i) ==> i.wf(),
    {
        if operands.len() != 2 {
            return Err(LoadError::InvalidOperands);
        }
        let rd = match operands[0].to_register() {
            Ok(r) => r,
            Err(e) => {
                return Err(e);
            },
        };
        match operands[1].to_target() {
            Ok(target) => Ok(Instruction::Jal(rd, target)),
            Err(e) => Err(e),
        }
    }

    fn jalr_from(operands: &Vec<Operand>) -> (r: Result<Instruction, LoadError>)
        ensures
            r == decode_jalr(operands@),
            r matches Ok(i) ==> i.wf(),
    {
        if operands.len() != 3 {
            return Err(LoadError::InvalidOperands);
        }
        let rd = match operands[0].to_register() {
            Ok(r) => r,
            Err(e) => {
                return Err(e);
            },
        };
        let base = match operands[1].to_register() {
            Ok(r) => r,
            Err(e) => {
                return Err(e);
            },
        };
        match operands[2].to_i32() {
            Ok(offset) => Ok(Instruction::Jalr(rd, base, offset)),
            Err(e) => Err(e),
        }
    }

    fn branch_from(condition: BranchCondition, operands: &Vec<Operand>) -> (r: Result<
        Instruction,
        LoadError,
    >)
        ensures
            r == decode_branch(condition, operands@),
            r matches Ok(i) ==> i.wf(),
    {
        if operands.len() != 3 {
            return Err(LoadError::InvalidOperands);
        }
        let rs1 = match operands[0].to_register() {
            Ok(r) => r,
            Err(e) => {
                return Err(e);
            },
        };
        let rs2 = match operands[1].to_register() {
            Ok(r) => r,
            Err(e) => {
                return Err(e);
            },
        };
        match operands[2].to_target() {
            Ok(target) => Ok(Instruction::Branch(condition, rs1, rs2, target)),
            Err(e) => Err(e),
        }
    }

    fn load_from(width: LoadWidth, operands: &Vec<Operand>) -> (r: Result<Instruction, LoadError>)
        ensures
            r == decode_load(width, operands@),
            r matches Ok(i) ==> i.wf(),
    {
        if operands.len() != 2 {
            return Err(LoadError::InvalidOperands);
        }
        let rd = match operands[0].to_register() {
            Ok(r) => r,
            Err(e) => {
                return Err(e);
            },
        };
        match operands[1].to_address() {
            Ok(a) => Ok(Instruction::Load(width, rd, a)),
            Err(e) => Err(e),
        }
    }

    fn store_from(width: StoreWidth, operands: &Vec<Operand>) -> (r: Result<Instruction, LoadError>)
        ensures
            r == decode_store(width, operands@),
            r matches Ok(i) ==> i.wf(),
    {
        if operands.len() != 2 {
            return Err(LoadError::InvalidOperands);
        }
        let rs = match operands[0].to_register() {
            Ok(r) => r,
            Err(e) => {
                return Err(e);
            },
        };
        match operands[1].to_address() {
            Ok(a) => Ok(Instruction::Store(width, rs, a)),
            Err(e) => Err(e),
        }
    }

    fn immediate_from(op: IntegerImmediateOperation, operands: &Vec<Operand>) -> (r: Result<
        Instruction,
        LoadError,
    >)
        ensures
            r == decode_immediate(op, operands@),
            r matches Ok(i) ==> i.wf(),
    {
        if operands.len() != 3 {
            return Err(LoadError::InvalidOperands);
        }
        let rd = match operands[0].to_register() {
            Ok(r) => r,
            Err(e) => {
                return Err(e);
            },
        };
        let rs1 = match operands[1].to_register() {
            Ok(r) => r,
            Err(e) => {
                return Err(e);
            },
        };
        match operands[2].to_i32() {
            Ok(imm) => Ok(Instruction::IntegerImmediate(op, rd, rs1, imm)),
            Err(e) => Err(e),
        }
    }

    fn register_from(op: IntegerRegisterOperation, operands: &Vec<Operand>) -> (r: Result<
        Instruction,
        LoadError,
    >)
        ensures
            r == decode_register(op, operands@),
            r matches Ok(i) ==> i.wf(),
    {
        if operands.len() != 3 {
            return Err(LoadError::InvalidOperands);
        }
        let rd = match operands[0].to_register() {
            Ok(r) => r,
            Err(e) => {
                return Err(e);
            },
        };
        let rs1 = match operands[1].to_register() {
            Ok(r) => r,
            Err(e) => {
                return Err(e);
            },
        };
        match operands[2].to_register() {
            Ok(rs2) => Ok(Instruction::IntegerRegister(op, rd, rs1, rs2)),
            Err(e) => Err(e),
        }
    }

    /// Builds an instruction from its mnemonic and operands.
    pub fn from_operands(mnemonic: &str, operands: &Vec<Operand>) -> (r: Result<
        Instruction,
        LoadError,
    >)
        ensures
            r == decode(mnemonic@, operands@),
            r matches Ok(i) ==> i.wf(),
    {
        if same_text(mnemonic, "lui") {
            Self::upper_from(operands, true)
        } else if same_text(mnemonic, "auipc") {
            Self::upper_from(operands, false)
        } else if same_text(mnemonic, "jal") {
            Self::jal_from(operands)
        } else if same_text(mnemonic, "jalr") {
            Self::jalr_from(operands)
        } else if let Some(condition) = BranchCondition::from_instruction_name(mnemonic) {
            Self::branch_from(condition, operands)
        } else if let Some(width) = LoadWidth::from_instruction_name(mnemonic) {
            Self::load_from(width, operands)
        } else if let Some(width) = StoreWidth::from_instruction_name(mnemonic) {
            Self::store_from(width, operands)
        } else if let Some(op) = IntegerImmediateOperation::from_instruction_name(mnemonic) {
            Self::immediate_from(op, operands)
        } else if let Some(op) = IntegerRegisterOperation::from_instruction_name(mnemonic) {
            Self::register_from(op, operands)
        } else {
            Err(LoadError::UnsupportedInstruction)
        }
    }
}

impl Instruction {
    /// Whether every register the instruction names is valid.
    pub fn is_valid(&self) -> (r: bool)
        ensures
            r == self.wf(),
    {
        match self {
            Instruction::Lui(rd, _) => rd.index < 32,
            Instruction::Auipc(rd, _) => rd.index < 32,
            Instruction::Jal(rd, _) => rd.index < 32,
            Instruction::Jalr(rd, base, _) => rd.index < 32 && base.index < 32,
            Instruction::Branch(_, rs1, rs2, _) => rs1.index < 32 && rs2.index < 32,
            Instruction::Load(_, rd, a) => rd.index < 32 && a.base.index < 32,
            Instruction::Store(_, rs, a) => rs.index < 32 && a.base.index < 32,
            Instruction::IntegerImmediate(_, rd, rs1, _) => rd.index < 32 && rs1.index < 32,
            Instruction::IntegerRegister(_, rd, rs1, rs2) => rd.index < 32 && rs1.index < 32
                && rs2.index < 32,
        }
    }
}

impl Program {
    /// Whether every register the program names is valid.
    pub fn is_valid(&self) -> (r: bool)
        ensures
            r == self.wf(),
    {
        let mut i: usize = 0;
        while i < self.lines.len()
            invariant
                i <= self.lines@.len(),
                forall|j: int| 0 <= j < i ==> #[trigger] self.lines@[j].wf(),
            decreases self.lines@.len() - i,
        {
            let ok = match &self.lines[i] {
                Line::Instruction(instruction) => instruction.is_valid(),
                Line::Label(_) => true,
            };
            if !ok {
                assert(!self.lines@[i as int].wf());
                return false;
            }
            i = i + 1;
        }
        true
    }
}

} // verus!
