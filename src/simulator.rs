//! Architectural state and the fetch-execute step.
//!
//! Memories are fixed in size and indexed by masked address, so every access
//! wraps within its window instead of faulting. A byte-enable bit that is set
//! means "this byte takes part" for loads and stores alike.

use crate::ast::{
    Address, BranchCondition, Instruction, IntegerImmediateOperation, IntegerRegisterOperation,
    JumpTarget, LoadError, LoadWidth, Line, Program, Register, StoreWidth,
};
use vstd::prelude::*;

verus! {

pub const NUM_REGISTERS: usize = 32;

/// Instruction memory size in bytes.
pub const INSTRUCTION_MEMORY_SIZE: usize = 4096;

/// Instruction memory size in 4-byte slots.
pub const INSTRUCTION_SLOTS: usize = 1024;

/// Data memory size in bytes.
pub const DATA_MEMORY_SIZE: usize = 16384;

/// Initial value of the stack pointer (register 2).
pub const INITIAL_STACK_POINTER: u32 = 0xF00;

/// Why a step could not execute.
#[derive(Debug, Copy, Clone, PartialEq, Eq, Structural)]
pub enum ExecError {
    /// A jump or taken branch names a label that the program does not define.
    UnknownLabel,
    /// The fetched slot holds no instruction.
    InvalidOpcode,
}

// ---------------------------------------------------------------- arithmetic

/// An integer reduced modulo 2^32.
pub open spec fn wrap32(x: int) -> u32 {
    (x % 0x1_0000_0000) as u32
}

fn add_wrapping(a: u32, b: u32) -> (r: u32)
    ensures
        r == wrap32(a + b),
{
    a.wrapping_add(b)
}

fn sub_wrapping(a: u32, b: u32) -> (r: u32)
    ensures
        r == wrap32(a - b),
{
    a.wrapping_sub(b)
}

// ---------------------------------------------------------------- model

/// The whole machine as mathematical values.
pub struct MachineState {
    pub pc: u32,
    pub registers: Seq<u32>,
    pub instructions: Seq<Option<Instruction>>,
    pub data: Seq<u8>,
    pub labels: Map<Seq<char>, u32>,
}

/// Register `r` as the program sees it: register 0 always reads as 0.
pub open spec fn read_register(regs: Seq<u32>, r: Register) -> u32 {
    if r.index == 0 {
        0
    } else {
        regs[r.index as int]
    }
}

/// The register file after writing `value` to `r`; a write to register 0 is dropped.
pub open spec fn write_register(regs: Seq<u32>, r: Register, value: u32) -> Seq<u32> {
    if r.index == 0 {
        regs
    } else {
        regs.update(r.index as int, value)
    }
}

pub open spec fn initial_registers() -> Seq<u32> {
    Seq::new(32, |i: int| if i == 2 { INITIAL_STACK_POINTER } else { 0u32 })
}

impl MachineState {
    pub open spec fn wf(self) -> bool {
        &&& self.registers.len() == NUM_REGISTERS
        &&& self.registers[0] == 0
        &&& self.instructions.len() == INSTRUCTION_SLOTS
        &&& self.data.len() == DATA_MEMORY_SIZE
        &&& forall|k: int|
            0 <= k < self.instructions.len() && (#[trigger] self.instructions[k]) is Some
                ==> self.instructions[k]->0.wf()
    }

    pub open spec fn reg(self, r: Register) -> u32 {
        read_register(self.registers, r)
    }

    pub open spec fn with_reg(self, r: Register, value: u32) -> MachineState {
        MachineState { registers: write_register(self.registers, r, value), ..self }
    }

    pub open spec fn with_pc(self, pc: u32) -> MachineState {
        MachineState { pc, ..self }
    }

    pub open spec fn with_data(self, data: Seq<u8>) -> MachineState {
        MachineState { data, ..self }
    }
}

/// The byte offset within instruction memory that an address selects.
pub open spec fn instruction_translate(address: u32) -> u32 {
    address & 0xFFF
}

/// The instruction slot that an address selects.
pub open spec fn instruction_slot(address: u32) -> int {
    (instruction_translate(address) / 4) as int
}

/// The byte of data memory that an address selects.
pub open spec fn data_translate(address: u32) -> u32 {
    address & 0x3FFF
}

// ---------------------------------------------------------------- data memory model

/// The enable bit for byte `i` of a 4-byte access.
pub open spec fn enable_bit(i: u32) -> u8 {
    if i == 0 {
        1
    } else if i == 1 {
        2
    } else if i == 2 {
        4
    } else {
        8
    }
}

pub open spec fn byte_enabled(enable: u8, i: u32) -> bool {
    enable & enable_bit(i) != 0
}

/// Byte `i` of a load window at `address`: the memory byte if enabled, else 0.
pub open spec fn load_byte(mem: Seq<u8>, enable: u8, address: u32, i: u32) -> u8 {
    if byte_enabled(enable, i) {
        mem[data_translate(wrap32(address + i)) as int]
    } else {
        0
    }
}

/// Four bytes read as a little-endian word.
pub open spec fn le_word(b0: u8, b1: u8, b2: u8, b3: u8) -> u32 {
    (b0 as u32) | ((b1 as u32) << 8u32) | ((b2 as u32) << 16u32) | ((b3 as u32) << 24u32)
}

/// The little-endian word at `address`, with disabled bytes read as 0.
pub open spec fn load_word(mem: Seq<u8>, enable: u8, address: u32) -> u32 {
    le_word(
        load_byte(mem, enable, address, 0),
        load_byte(mem, enable, address, 1),
        load_byte(mem, enable, address, 2),
        load_byte(mem, enable, address, 3),
    )
}

/// Byte `i` of `value` in little-endian order.
pub open spec fn byte_of(value: u32, i: u32) -> u8 {
    ((value >> (8 * i)) & 0xFF) as u8
}

/// Memory after writing byte `i` of `value` at `address + i`, if that byte is enabled.
pub open spec fn store_byte(mem: Seq<u8>, enable: u8, address: u32, value: u32, i: u32) -> Seq<u8> {
    if byte_enabled(enable, i) {
        mem.update(data_translate(wrap32(address + i)) as int, byte_of(value, i))
    } else {
        mem
    }
}

/// Memory after a masked little-endian store of `value` at `address`.
pub open spec fn store_word(mem: Seq<u8>, enable: u8, address: u32, value: u32) -> Seq<u8> {
    store_byte(
        store_byte(
            store_byte(store_byte(mem, enable, address, value, 0), enable, address, value, 1),
            enable,
            address,
            value,
            2,
        ),
        enable,
        address,
        value,
        3,
    )
}

pub open spec fn load_enable(width: LoadWidth) -> u8 {
    match width {
        LoadWidth::B | LoadWidth::Bu => 0b0001,
        LoadWidth::H | LoadWidth::Hu => 0b0011,
        LoadWidth::W => 0b1111,
    }
}

pub open spec fn store_enable(width: StoreWidth) -> u8 {
    match width {
        StoreWidth::B => 0b0001,
        StoreWidth::H => 0b0011,
        StoreWidth::W => 0b1111,
    }
}

pub open spec fn sign_extend_byte(x: u32) -> u32 {
    if x & 0x80 != 0 {
        x | 0xFFFF_FF00
    } else {
        x & 0xFF
    }
}

pub open spec fn sign_extend_half(x: u32) -> u32 {
    if x & 0x8000 != 0 {
        x | 0xFFFF_0000
    } else {
        x & 0xFFFF
    }
}

/// The register value a load of `width` yields from the masked word `raw`.
pub open spec fn extend(width: LoadWidth, raw: u32) -> u32 {
    match width {
        LoadWidth::B => sign_extend_byte(raw),
        LoadWidth::H => sign_extend_half(raw),
        LoadWidth::W => raw,
        LoadWidth::Bu => raw & 0xFF,
        LoadWidth::Hu => raw & 0xFFFF,
    }
}

pub open spec fn load_value(mem: Seq<u8>, width: LoadWidth, address: u32) -> u32 {
    extend(width, load_word(mem, load_enable(width), address))
}

// ---------------------------------------------------------------- data memory

struct DataMemory {
    memory: Vec<u8>,
}

impl DataMemory {
    spec fn wf(&self) -> bool {
        self.memory@.len() == DATA_MEMORY_SIZE
    }

    fn new() -> (r: Self)
        ensures
            r.wf(),
            r.memory@ == Seq::new(DATA_MEMORY_SIZE as nat, |i: int| 0u8),
    {
        let mut memory: Vec<u8> = Vec::new();
        while memory.len() < DATA_MEMORY_SIZE
            invariant
                memory@.len() <= DATA_MEMORY_SIZE,
                forall|i: int| 0 <= i < memory@.len() ==> memory@[i] == 0,
            decreases DATA_MEMORY_SIZE - memory@.len(),
        {
            memory.push(0);
        }
        assert(memory@ =~= Seq::new(DATA_MEMORY_SIZE as nat, |i: int| 0u8));
        DataMemory { memory }
    }

    fn translate(address: u32) -> (r: u32)
        ensures
            r == data_translate(address),
            r < DATA_MEMORY_SIZE,
    {
        assert(address & 0x3FFF < 16384) by (bit_vector);
        address & 0x3FFF
    }

    fn enabled(byte_enable: u8, i: u32) -> (r: bool)
        requires
            i < 4,
        ensures
            r == byte_enabled(byte_enable, i),
    {
        let bit: u8 = if i == 0 {
            1
        } else if i == 1 {
            2
        } else if i == 2 {
            4
        } else {
            8
        };
        byte_enable & bit != 0
    }

    fn byte(&self, byte_enable: u8, address: u32, i: u32) -> (r: u8)
        requires
            self.wf(),
            i < 4,
        ensures
            r == load_byte(self.memory@, byte_enable, address, i),
    {
        if Self::enabled(byte_enable, i) {
            self.memory[Self::translate(add_wrapping(address, i)) as usize]
        } else {
            0
        }
    }

    fn load(&self, byte_enable: u8, address: u32) -> (r: u32)
        requires
            self.wf(),
        ensures
            r == load_word(self.memory@, byte_enable, address),
    {
        let b0 = self.byte(byte_enable, address, 0);
        let b1 = self.byte(byte_enable, address, 1);
        let b2 = self.byte(byte_enable, address, 2);
        let b3 = self.byte(byte_enable, address, 3);
        (b0 as u32) | ((b1 as u32) << 8u32) | ((b2 as u32) << 16u32) | ((b3 as u32) << 24u32)
    }

    fn store_one(&mut self, byte_enable: u8, address: u32, value: u32, i: u32)
        requires
            old(self).wf(),
            i < 4,
        ensures
            final(self).wf(),
            final(self).memory@ == store_byte(old(self).memory@, byte_enable, address, value, i),
    {
        if Self::enabled(byte_enable, i) {
            let at = Self::translate(add_wrapping(address, i)) as usize;
            self.memory[at] = ((value >> (8 * i)) & 0xFF) as u8;
        }
    }

    fn store(&mut self, byte_enable: u8, address: u32, value: u32)
        requires
            old(self).wf(),
        ensures
            final(self).wf(),
            final(self).memory@ == store_word(old(self).memory@, byte_enable, address, value),
    {
        self.store_one(byte_enable, address, value, 0);
        self.store_one(byte_enable, address, value, 1);
        self.store_one(byte_enable, address, value, 2);
        self.store_one(byte_enable, address, value, 3);
    }
}

// ---------------------------------------------------------------- register file

struct RegisterFile {
    registers: Vec<u32>,
}

impl RegisterFile {
    spec fn wf(&self) -> bool {
        self.registers@.len() == NUM_REGISTERS && self.registers@[0] == 0
    }

    fn new() -> (r: Self)
        ensures
            r.wf(),
            r.registers@ == initial_registers(),
    {
        let mut registers: Vec<u32> = Vec::new();
        while registers.len() < NUM_REGISTERS
            invariant
                registers@.len() <= NUM_REGISTERS,
                forall|i: int| 0 <= i < registers@.len() ==> registers@[i] == 0,
            decreases NUM_REGISTERS - registers@.len(),
        {
            registers.push(0);
        }
        registers[2] = INITIAL_STACK_POINTER;
        assert(registers@ =~= initial_registers());
        RegisterFile { registers }
    }

    fn index(&self, r: Register) -> (v: u32)
        requires
            self.wf(),
            r.wf(),
        ensures
            v == read_register(self.registers@, r),
    {
        if r.index == 0 {
            0
        } else {
            self.registers[r.index as usize]
        }
    }

    fn set(&mut self, r: Register, value: u32)
        requires
            old(self).wf(),
            r.wf(),
        ensures
            final(self).wf(),
            final(self).registers@ == write_register(old(self).registers@, r, value),
    {
        if r.index != 0 {
            self.registers[r.index as usize] = value;
        }
    }
}

// ---------------------------------------------------------------- label table

struct LabelEntry {
    name: String,
    address: u32,
}

/// The mapping that a sequence of bindings describes; a later binding of a
/// name overrides an earlier one.
pub open spec fn bindings_map(entries: Seq<(Seq<char>, u32)>) -> Map<Seq<char>, u32>
    decreases entries.len(),
{
    if entries.len() == 0 {
        Map::empty()
    } else {
        bindings_map(entries.drop_last()).insert(entries.last().0, entries.last().1)
    }
}

proof fn lemma_bindings_suffix(entries: Seq<(Seq<char>, u32)>, i: int, name: Seq<char>)
    requires
        0 <= i <= entries.len(),
        forall|j: int| i <= j < entries.len() ==> (#[trigger] entries[j]).0 != name,
    ensures
        bindings_map(entries).contains_key(name) == bindings_map(entries.take(i)).contains_key(name),
        bindings_map(entries).contains_key(name) ==> bindings_map(entries)[name]
            == bindings_map(entries.take(i))[name],
    decreases entries.len(),
{
    if entries.len() > i {
        let rest = entries.drop_last();
        assert(rest.take(i) =~= entries.take(i));
        assert(entries[entries.len() - 1].0 != name);
        lemma_bindings_suffix(rest, i, name);
    } else {
        assert(entries.take(i) =~= entries);
    }
}

struct LabelTable {
    entries: Vec<LabelEntry>,
}

impl LabelTable {
    spec fn bindings(&self) -> Seq<(Seq<char>, u32)> {
        self.entries@.map_values(|e: LabelEntry| (e.name@, e.address))
    }

    closed spec fn view(&self) -> Map<Seq<char>, u32> {
        bindings_map(self.bindings())
    }

    fn new() -> (r: Self)
        ensures
            r.view() == Map::<Seq<char>, u32>::empty(),
    {
        let r = LabelTable { entries: Vec::new() };
        assert(r.bindings().len() == 0);
        r
    }

    fn insert(&mut self, name: String, address: u32)
        ensures
            final(self).view() == old(self).view().insert(name@, address),
    {
        let ghost before = self.bindings();
        self.entries.push(LabelEntry { name, address });
        assert(self.bindings().drop_last() =~= before);
    }

    fn get(&self, name: &String) -> (r: Option<u32>)
        ensures
            r == (if self.view().contains_key(name@) {
                Some(self.view()[name@])
            } else {
                None
            }),
    {
        let ghost b = self.bindings();
        let mut i: usize = self.entries.len();
        while i > 0
            invariant
                i <= self.entries@.len(),
                b == self.bindings(),
                forall|j: int| i <= j < b.len() ==> (#[trigger] b[j]).0 != name@,
            decreases i,
        {
            let entry = &self.entries[i - 1];
            if entry.name == *name {
                proof {
                    lemma_bindings_suffix(b, i as int, name@);
                    assert(b.take(i as int).drop_last() =~= b.take(i - 1));
                }
                return Some(entry.address);
            }
            i = i - 1;
        }
        proof {
            lemma_bindings_suffix(b, 0, name@);
            assert(b.take(0).len() == 0);
        }
        None
    }
}

// ---------------------------------------------------------------- loader model

/// The instruction lines of a program, in order.
pub open spec fn instructions_of(lines: Seq<Line>) -> Seq<Instruction>
    decreases lines.len(),
{
    if lines.len() == 0 {
        Seq::empty()
    } else {
        let before = instructions_of(lines.drop_last());
        match lines.last() {
            Line::Instruction(i) => before.push(i),
            Line::Label(_) => before,
        }
    }
}

/// The label table of a program: each label is bound to the address of the
/// next instruction line; the last of several equal names wins.
pub open spec fn labels_of(lines: Seq<Line>) -> Map<Seq<char>, u32>
    decreases lines.len(),
{
    if lines.len() == 0 {
        Map::empty()
    } else {
        let before = labels_of(lines.drop_last());
        match lines.last() {
            Line::Instruction(_) => before,
            Line::Label(l) => before.insert(
                l.name@,
                (4 * instructions_of(lines.drop_last()).len()) as u32,
            ),
        }
    }
}

/// The instruction-memory image of a program: instruction `k` in slot `k`,
/// and no instruction in the slots after the last one.
pub open spec fn image_of(lines: Seq<Line>) -> Seq<Option<Instruction>> {
    Seq::new(
        INSTRUCTION_SLOTS as nat,
        |k: int|
            if k < instructions_of(lines).len() {
                Some(instructions_of(lines)[k])
            } else {
                None
            },
    )
}

/// A program fits in instruction memory.
pub open spec fn fits(lines: Seq<Line>) -> bool {
    instructions_of(lines).len() <= INSTRUCTION_SLOTS
}

proof fn lemma_instructions_grow(lines: Seq<Line>, i: int)
    requires
        0 <= i <= lines.len(),
    ensures
        instructions_of(lines.take(i)).len() <= instructions_of(lines).len(),
    decreases lines.len(),
{
    if i < lines.len() {
        lemma_instructions_grow(lines.drop_last(), i);
        assert(lines.drop_last().take(i) =~= lines.take(i));
    } else {
        assert(lines.take(i) =~= lines);
    }
}

proof fn lemma_instructions_wf(lines: Seq<Line>)
    requires
        forall|i: int| 0 <= i < lines.len() ==> #[trigger] lines[i].wf(),
    ensures
        forall|k: int|
            0 <= k < instructions_of(lines).len() ==> #[trigger] instructions_of(lines)[k].wf(),
    decreases lines.len(),
{
    if lines.len() > 0 {
        let rest = lines.drop_last();
        assert forall|i: int| 0 <= i < rest.len() implies #[trigger] rest[i].wf() by {
            assert(rest[i] == lines[i]);
        }
        lemma_instructions_wf(rest);
        assert(lines[lines.len() - 1].wf());
        let before = instructions_of(rest);
        match lines.last() {
            Line::Instruction(i) => {
                assert(instructions_of(lines) == before.push(i));
                assert forall|k: int|
                    0 <= k < instructions_of(lines).len() implies #[trigger] instructions_of(
                    lines,
                )[k].wf() by {
                    if k < before.len() {
                        assert(instructions_of(lines)[k] == before[k]);
                    }
                }
            },
            Line::Label(_) => {
                assert(instructions_of(lines) == before);
            },
        }
    }
}

// ---------------------------------------------------------------- instruction memory

struct InstructionMemory {
    memory: Vec<Option<Instruction>>,
}

impl InstructionMemory {
    /// Lays the program's instructions into consecutive slots from address 0,
    /// binding each label in `label_to_address` to the address of the next
    /// instruction.
    fn new(lines: Vec<Line>, label_to_address: &mut LabelTable) -> (r: Result<Self, LoadError>)
        ensures
            r is Ok <==> fits(lines@),
            r matches Err(e) ==> e == LoadError::ProgramTooLarge,
            r matches Ok(m) ==> m.memory@ == image_of(lines@),
            r is Ok ==> final(label_to_address).view() == old(label_to_address).view().union_prefer_right(
                labels_of(lines@),
            ),
    {
        let ghost all = lines@;
        let ghost start = label_to_address.view();
        let mut rest = lines;
        let n = rest.len();
        let mut memory: Vec<Option<Instruction>> = Vec::new();
        let mut address: u32 = 0;
        let mut k: usize = 0;
        while rest.len() > 0
            invariant
                k + rest@.len() == all.len(),
                all == lines@,
                all.len() == n,
                rest@ == all.skip(k as int),
                memory@ == instructions_of(all.take(k as int)).map_values(
                    |i: Instruction| Some(i),
                ),
                memory@.len() <= INSTRUCTION_SLOTS,
                address == 4 * memory@.len(),
                label_to_address.view() == start.union_prefer_right(labels_of(all.take(k as int))),
                start == old(label_to_address).view(),
            decreases rest@.len(),
        {
            let ghost prefix = all.take(k as int);
            assert(all.take(k + 1).drop_last() =~= prefix);
            assert(all.take(k + 1).last() == all[k as int]);
            assert(rest@[0] == all[k as int]);
            let line = rest.remove(0);
            match line {
                Line::Instruction(instruction) => {
                    if memory.len() == INSTRUCTION_SLOTS {
                        proof {
                            assert(instructions_of(all.take(k + 1)).len() == memory@.len() + 1);
                            lemma_instructions_grow(all, k + 1);
                            assert(!fits(all));
                            assert(instructions_of(all).len() > INSTRUCTION_SLOTS);
                        }
                        return Err(LoadError::ProgramTooLarge);
                    }
                    memory.push(Some(instruction));
                    address = address + 4;
                    assert(memory@ =~= instructions_of(all.take(k + 1)).map_values(
                        |i: Instruction| Some(i),
                    ));
                },
                Line::Label(label) => {
                    label_to_address.insert(label.name, address);
                    assert(label_to_address.view() =~= start.union_prefer_right(
                        labels_of(all.take(k + 1)),
                    ));
                },
            }
            k = k + 1;
            assert(rest@ =~= all.skip(k as int));
        }
        assert(all.take(k as int) =~= all);
        let ghost used = memory@.len();
        while memory.len() < INSTRUCTION_SLOTS
            invariant
                used <= memory@.len() <= INSTRUCTION_SLOTS,
                used == instructions_of(all).len(),
                all == lines@,
                start == old(label_to_address).view(),
                label_to_address.view() == start.union_prefer_right(labels_of(all)),
                forall|j: int| 0 <= j < used ==> memory@[j] == Some(instructions_of(all)[j]),
                forall|j: int| used <= j < memory@.len() ==> memory@[j] is None,
            decreases INSTRUCTION_SLOTS - memory@.len(),
        {
            memory.push(None);
        }
        assert(memory@ =~= image_of(all));
        Ok(InstructionMemory { memory })
    }

    fn translate(address: u32) -> (r: u32)
        ensures
            r == instruction_translate(address),
            r < INSTRUCTION_MEMORY_SIZE,
    {
        assert(address & 0xFFF < 4096) by (bit_vector);
        address & 0xFFF
    }
}

// ---------------------------------------------------------------- execution model

pub open spec fn branch_taken(condition: BranchCondition, a: u32, b: u32) -> bool {
    match condition {
        BranchCondition::Eq => a == b,
        BranchCondition::Ne => a != b,
        BranchCondition::Lt => (a as i32) < (b as i32),
        BranchCondition::Ge => (a as i32) >= (b as i32),
        BranchCondition::Ltu => a < b,
        BranchCondition::Geu => a >= b,
    }
}

/// Only the low five bits of a shift operand count.
pub open spec fn shift_amount(b: u32) -> u32 {
    b & 0x1F
}

/// The result of an integer operation on two 32-bit operands.
pub open spec fn alu(op: IntegerRegisterOperation, a: u32, b: u32) -> u32 {
    match op {
        IntegerRegisterOperation::Add => wrap32(a + b),
        IntegerRegisterOperation::Sub => wrap32(a - b),
        IntegerRegisterOperation::Sll => a << shift_amount(b),
        IntegerRegisterOperation::Slt => if (a as i32) < (b as i32) { 1 } else { 0 },
        IntegerRegisterOperation::Sltu => if a < b { 1 } else { 0 },
        IntegerRegisterOperation::Xor => a ^ b,
        IntegerRegisterOperation::Srl => a >> shift_amount(b),
        IntegerRegisterOperation::Sra => ((a as i32) >> shift_amount(b)) as u32,
        IntegerRegisterOperation::Or => a | b,
        IntegerRegisterOperation::And => a & b,
    }
}

/// The register-register operation that an immediate operation performs.
pub open spec fn register_form(op: IntegerImmediateOperation) -> IntegerRegisterOperation {
    match op {
        IntegerImmediateOperation::Add => IntegerRegisterOperation::Add,
        IntegerImmediateOperation::Slt => IntegerRegisterOperation::Slt,
        IntegerImmediateOperation::Sltu => IntegerRegisterOperation::Sltu,
        IntegerImmediateOperation::Xor => IntegerRegisterOperation::Xor,
        IntegerImmediateOperation::Or => IntegerRegisterOperation::Or,
        IntegerImmediateOperation::And => IntegerRegisterOperation::And,
        IntegerImmediateOperation::Sll => IntegerRegisterOperation::Sll,
        IntegerImmediateOperation::Srl => IntegerRegisterOperation::Srl,
        IntegerImmediateOperation::Sra => IntegerRegisterOperation::Sra,
    }
}

/// The value an upper-immediate instruction places: the low 20 bits of the
/// immediate, shifted into bits 12 to 31.
pub open spec fn upper_immediate(imm: u32) -> u32 {
    (imm & 0xFFFFF) << 12u32
}

impl MachineState {
    pub open spec fn effective_address(self, a: Address) -> u32 {
        wrap32(self.reg(a.base) + a.offset)
    }

    /// The address a jump target denotes, if it can be resolved.
    pub open spec fn resolve(self, target: JumpTarget) -> Option<u32> {
        match target {
            JumpTarget::Label(name) => if self.labels.contains_key(name@) {
                Some(self.labels[name@])
            } else {
                None
            },
            JumpTarget::Offset(offset) => Some(wrap32(self.pc + offset)),
        }
    }

    /// One fetch-execute step: the next state, or why the step cannot run.
    pub open spec fn step(self) -> Result<MachineState, ExecError> {
        let next = wrap32(self.pc + 4);
        match self.instructions[instruction_slot(self.pc)] {
            None => Err(ExecError::InvalidOpcode),
            Some(instruction) => match instruction {
                Instruction::Lui(rd, imm) => Ok(
                    self.with_reg(rd, upper_immediate(imm)).with_pc(next),
                ),
                Instruction::Auipc(rd, imm) => Ok(
                    self.with_reg(rd, wrap32(self.pc + upper_immediate(imm))).with_pc(next),
                ),
                Instruction::Jal(rd, target) => match self.resolve(target) {
                    Some(to) => Ok(self.with_reg(rd, next).with_pc(to)),
                    None => Err(ExecError::UnknownLabel),
                },
                Instruction::Jalr(rd, base, offset) => Ok(
                    self.with_reg(rd, next).with_pc(
                        wrap32(self.reg(base) + offset) & 0xFFFF_FFFE,
                    ),
                ),
                Instruction::Branch(condition, rs1, rs2, target) => if branch_taken(
                    condition,
                    self.reg(rs1),
                    self.reg(rs2),
                ) {
                    match self.resolve(target) {
                        Some(to) => Ok(self.with_pc(to)),
                        None => Err(ExecError::UnknownLabel),
                    }
                } else {
                    Ok(self.with_pc(next))
                },
                Instruction::Load(width, rd, a) => Ok(
                    self.with_reg(
                        rd,
                        load_value(self.data, width, self.effective_address(a)),
                    ).with_pc(next),
                ),
                Instruction::Store(width, rs, a) => Ok(
                    self.with_data(
                        store_word(
                            self.data,
                            store_enable(width),
                            self.effective_address(a),
                            self.reg(rs),
                        ),
                    ).with_pc(next),
                ),
                Instruction::IntegerImmediate(op, rd, rs1, imm) => Ok(
                    self.with_reg(rd, alu(register_form(op), self.reg(rs1), imm as u32)).with_pc(
                        next,
                    ),
                ),
                Instruction::IntegerRegister(op, rd, rs1, rs2) => Ok(
                    self.with_reg(rd, alu(op, self.reg(rs1), self.reg(rs2))).with_pc(next),
                ),
            },
        }
    }
}

/// The state right after loading a program.
pub open spec fn initial_state(lines: Seq<Line>) -> MachineState {
    MachineState {
        pc: 0,
        registers: initial_registers(),
        instructions: image_of(lines),
        data: Seq::new(DATA_MEMORY_SIZE as nat, |i: int| 0u8),
        labels: labels_of(lines),
    }
}

// ---------------------------------------------------------------- execution helpers

fn execute_alu(op: IntegerRegisterOperation, a: u32, b: u32) -> (r: u32)
    ensures
        r == alu(op, a, b),
{
    let shift = b & 0x1F;
    assert(b & 0x1F < 32) by (bit_vector);
    match op {
        IntegerRegisterOperation::Add => add_wrapping(a, b),
        IntegerRegisterOperation::Sub => sub_wrapping(a, b),
        IntegerRegisterOperation::Sll => a << shift,
        IntegerRegisterOperation::Slt => if (a as i32) < (b as i32) { 1 } else { 0 },
        IntegerRegisterOperation::Sltu => if a < b { 1 } else { 0 },
        IntegerRegisterOperation::Xor => a ^ b,
        IntegerRegisterOperation::Srl => a >> shift,
        IntegerRegisterOperation::Sra => ((a as i32) >> shift) as u32,
        IntegerRegisterOperation::Or => a | b,
        IntegerRegisterOperation::And => a & b,
    }
}

fn register_form_of(op: IntegerImmediateOperation) -> (r: IntegerRegisterOperation)
    ensures
        r == register_form(op),
{
    match op {
        IntegerImmediateOperation::Add => IntegerRegisterOperation::Add,
        IntegerImmediateOperation::Slt => IntegerRegisterOperation::Slt,
        IntegerImmediateOperation::Sltu => IntegerRegisterOperation::Sltu,
        IntegerImmediateOperation::Xor => IntegerRegisterOperation::Xor,
        IntegerImmediateOperation::Or => IntegerRegisterOperation::Or,
        IntegerImmediateOperation::And => IntegerRegisterOperation::And,
        IntegerImmediateOperation::Sll => IntegerRegisterOperation::Sll,
        IntegerImmediateOperation::Srl => IntegerRegisterOperation::Srl,
        IntegerImmediateOperation::Sra => IntegerRegisterOperation::Sra,
    }
}

fn compare(condition: BranchCondition, a: u32, b: u32) -> (r: bool)
    ensures
        r == branch_taken(condition, a, b),
{
    match condition {
        BranchCondition::Eq => a == b,
        BranchCondition::Ne => a != b,
        BranchCondition::Lt => (a as i32) < (b as i32),
        BranchCondition::Ge => (a as i32) >= (b as i32),
        BranchCondition::Ltu => a < b,
        BranchCondition::Geu => a >= b,
    }
}

fn load_enable_of(width: LoadWidth) -> (r: u8)
    ensures
        r == load_enable(width),
{
    match width {
        LoadWidth::B | LoadWidth::Bu => 0b0001,
        LoadWidth::H | LoadWidth::Hu => 0b0011,
        LoadWidth::W => 0b1111,
    }
}

fn store_enable_of(width: StoreWidth) -> (r: u8)
    ensures
        r == store_enable(width),
{
    match width {
        StoreWidth::B => 0b0001,
        StoreWidth::H => 0b0011,
        StoreWidth::W => 0b1111,
    }
}

fn extend_loaded(width: LoadWidth, raw: u32) -> (r: u32)
    ensures
        r == extend(width, raw),
{
    match width {
        LoadWidth::B => if raw & 0x80 != 0 {
            raw | 0xFFFF_FF00
        } else {
            raw & 0xFF
        },
        LoadWidth::H => if raw & 0x8000 != 0 {
            raw | 0xFFFF_0000
        } else {
            raw & 0xFFFF
        },
        LoadWidth::W => raw,
        LoadWidth::Bu => raw & 0xFF,
        LoadWidth::Hu => raw & 0xFFFF,
    }
}

// ---------------------------------------------------------------- state

/// The machine being simulated: program counter, register file, instruction
/// memory, data memory and the label table built at load time.
pub struct State {
    pc: u32,
    register: RegisterFile,
    instruction_memory: InstructionMemory,
    data_memory: DataMemory,
    label_to_address: LabelTable,
}

impl View for State {
    type V = MachineState;

    closed spec fn view(&self) -> MachineState {
        MachineState {
            pc: self.pc,
            registers: self.register.registers@,
            instructions: self.instruction_memory.memory@,
            data: self.data_memory.memory@,
            labels: self.label_to_address.view(),
        }
    }
}

impl State {
    pub open spec fn wf(&self) -> bool {
        self@.wf()
    }

    /// Loads a program: instructions from address 0 in steps of 4, labels
    /// bound to the next instruction's address, registers cleared but for the
    /// stack pointer, data memory zeroed, and the program counter at 0.
    pub fn new(program: Program) -> (r: Result<State, LoadError>)
        requires
            program.wf(),
        ensures
            r is Ok <==> fits(program.lines@),
            r matches Err(e) ==> e == LoadError::ProgramTooLarge,
            r matches Ok(s) ==> s.wf() && s@ == initial_state(program.lines@),
    {
        let ghost lines = program.lines@;
        let mut label_to_address = LabelTable::new();
        let instruction_memory = match InstructionMemory::new(program.lines, &mut label_to_address) {
            Ok(m) => m,
            Err(e) => {
                return Err(e);
            },
        };
        proof {
            lemma_instructions_wf(lines);
            assert(label_to_address.view() =~= labels_of(lines));
        }
        let s = State {
            pc: 0,
            register: RegisterFile::new(),
            instruction_memory,
            data_memory: DataMemory::new(),
            label_to_address,
        };
        assert(s@ =~= initial_state(lines));
        Ok(s)
    }

    /// `address + offset`, wrapping modulo 2^32.
    fn address_add_offset(address: u32, offset: i32) -> (r: u32)
        ensures
            r == wrap32(address + offset),
    {
        address.wrapping_add_signed(offset)
    }

    fn resolve_target(&self, target: &JumpTarget) -> (r: Option<u32>)
        ensures
            r == self@.resolve(*target),
    {
        match target {
            JumpTarget::Label(name) => self.label_to_address.get(name),
            JumpTarget::Offset(offset) => Some(Self::address_add_offset(self.pc, *offset)),
        }
    }

    /// The program counter.
    pub fn pc(&self) -> (r: u32)
        ensures
            r == self@.pc,
    {
        self.pc
    }

    /// The value of a register as instructions read it.
    pub fn register(&self, r: Register) -> (v: u32)
        requires
            self.wf(),
            r.wf(),
        ensures
            v == self@.reg(r),
    {
        self.register.index(r)
    }

    /// Executes the instruction at the program counter. On an error the state
    /// is left as it was.
    pub fn next(&mut self) -> (r: Result<(), ExecError>)
        requires
            old(self).wf(),
        ensures
            final(self).wf(),
            match old(self)@.step() {
                Ok(t) => r is Ok && final(self)@ == t,
                Err(e) => r == Err::<(), ExecError>(e) && final(self)@ == old(self)@,
            },
    {
        let slot = (InstructionMemory::translate(self.pc) / 4) as usize;
        let next = add_wrapping(self.pc, 4);
        assert(self@.instructions[slot as int] is Some ==> self@.instructions[slot as int]->0.wf());
        match &self.instruction_memory.memory[slot] {
            None => Err(ExecError::InvalidOpcode),
            Some(instruction) => {
                match instruction {
                    Instruction::Lui(rd, imm) => {
                        self.register.set(*rd, (*imm & 0xFFFFF) << 12u32);
                        self.pc = next;
                    },
                    Instruction::Auipc(rd, imm) => {
                        let value = add_wrapping(self.pc, (*imm & 0xFFFFF) << 12u32);
                        self.register.set(*rd, value);
                        self.pc = next;
                    },
                    Instruction::Jal(rd, target) => {
                        let to = match self.resolve_target(target) {
                            Some(to) => to,
                            None => {
                                return Err(ExecError::UnknownLabel);
                            },
                        };
                        self.register.set(*rd, next);
                        self.pc = to;
                    },
                    Instruction::Jalr(rd, base, offset) => {
                        let to = Self::address_add_offset(self.register.index(*base), *offset)
                            & 0xFFFF_FFFE;
                        self.register.set(*rd, next);
                        self.pc = to;
                    },
                    Instruction::Branch(condition, rs1, rs2, target) => {
                        let a = self.register.index(*rs1);
                        let b = self.register.index(*rs2);
                        if compare(*condition, a, b) {
                            match self.resolve_target(target) {
                                Some(to) => {
                                    self.pc = to;
                                },
                                None => {
                                    return Err(ExecError::UnknownLabel);
                                },
                            }
                        } else {
                            self.pc = next;
                        }
                    },
                    Instruction::Load(width, rd, address) => {
                        let at = Self::address_add_offset(
                            self.register.index(address.base),
                            address.offset,
                        );
                        let raw = self.data_memory.load(load_enable_of(*width), at);
                        self.register.set(*rd, extend_loaded(*width, raw));
                        self.pc = next;
                    },
                    Instruction::Store(width, rs, address) => {
                        let at = Self::address_add_offset(
                            self.register.index(address.base),
                            address.offset,
                        );
                        let value = self.register.index(*rs);
                        self.data_memory.store(store_enable_of(*width), at, value);
                        self.pc = next;
                    },
                    Instruction::IntegerImmediate(op, rd, rs1, imm) => {
                        let a = self.register.index(*rs1);
                        let value = execute_alu(register_form_of(*op), a, *imm as u32);
                        self.register.set(*rd, value);
                        self.pc = next;
                    },
                    Instruction::IntegerRegister(op, rd, rs1, rs2) => {
                        let a = self.register.index(*rs1);
                        let b = self.register.index(*rs2);
                        let value = execute_alu(*op, a, b);
                        self.register.set(*rd, value);
                        self.pc = next;
                    },
                }
                Ok(())
            },
        }
    }
}

} // verus!
