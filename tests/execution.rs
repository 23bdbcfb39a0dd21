use rv32sim::ast::{
    Address, BranchCondition, Instruction, IntegerImmediateOperation, IntegerRegisterOperation,
    JumpTarget, Label, Line, LoadError, LoadWidth, Operand, Program, Register, StoreWidth,
};
use rv32sim::simulator::{ExecError, State};

const ZERO: u8 = 0;
const RA: u8 = 1;
const SP: u8 = 2;
const T0: u8 = 5;
const T1: u8 = 6;
const T2: u8 = 7;
const A0: u8 = 10;
const A1: u8 = 11;

fn r(index: u8) -> Register {
    Register { index }
}

fn addi(rd: u8, rs1: u8, imm: i32) -> Instruction {
    Instruction::IntegerImmediate(IntegerImmediateOperation::Add, r(rd), r(rs1), imm)
}

fn nop() -> Instruction {
    addi(ZERO, ZERO, 0)
}

fn label(name: &str) -> Line {
    Line::Label(Label { name: name.to_string() })
}

fn program(lines: Vec<Line>) -> Program {
    Program { lines }
}

fn of(instructions: Vec<Instruction>) -> Program {
    program(instructions.into_iter().map(Line::Instruction).collect())
}

fn load(p: Program) -> State {
    State::new(p).expect("program fits")
}

fn run(state: &mut State, steps: usize) {
    for _ in 0..steps {
        state.next().expect("step runs");
    }
}

fn text(mnemonic: &str, operands: Vec<Operand>) -> Instruction {
    Instruction::from_operands(mnemonic, &operands).expect("instruction decodes")
}

fn reg_op(name: &str) -> Operand {
    Operand::Register(name.to_string())
}

fn num(value: &str) -> Operand {
    Operand::Number(value.to_string())
}

fn addr(offset: &str, base: &str) -> Operand {
    Operand::Address(offset.to_string(), base.to_string())
}

#[test]
fn register_zero_ignores_writes() {
    let mut s = load(of(vec![
        addi(ZERO, ZERO, 5),
        Instruction::Lui(r(ZERO), 1),
        Instruction::Jal(r(ZERO), JumpTarget::Offset(4)),
        Instruction::IntegerRegister(IntegerRegisterOperation::Sub, r(ZERO), r(SP), r(ZERO)),
    ]));
    for _ in 0..4 {
        s.next().unwrap();
        assert_eq!(s.register(r(ZERO)), 0);
    }
}

#[test]
fn loading_twice_gives_the_same_machine() {
    let p = program(vec![
        Line::Instruction(Instruction::Jal(r(RA), JumpTarget::Label("end".to_string()))),
        Line::Instruction(addi(A0, ZERO, 1)),
        label("end"),
        Line::Instruction(addi(A1, ZERO, 2)),
    ]);
    let mut a = load(p.clone());
    let mut b = load(p);
    for _ in 0..2 {
        a.next().unwrap();
        b.next().unwrap();
        assert_eq!(a.pc(), b.pc());
        for i in 0..32 {
            assert_eq!(a.register(r(i)), b.register(r(i)));
        }
    }
    assert_eq!(a.pc(), 12);
    assert_eq!(a.register(r(A1)), 2);
}

#[test]
fn lui_and_auipc_place_the_upper_immediate() {
    let mut s = load(of(vec![Instruction::Lui(r(A0), 1)]));
    s.next().unwrap();
    assert_eq!(s.register(r(A0)), 1 << 12);
    assert_eq!(s.register(r(A0)), 4096);

    let mut s = load(of(vec![Instruction::Auipc(r(A0), 1)]));
    s.next().unwrap();
    assert_eq!(s.register(r(A0)), 4096);
}

#[test]
fn upper_immediate_keeps_only_twenty_bits() {
    let mut s = load(of(vec![Instruction::Lui(r(A0), 0x1_2345_6)]));
    s.next().unwrap();
    assert_eq!(s.register(r(A0)), 0x2345_6000);
}

#[test]
fn auipc_adds_the_program_counter() {
    let mut s = load(of(vec![nop(), Instruction::Auipc(r(A0), 2)]));
    run(&mut s, 2);
    assert_eq!(s.register(r(A0)), 4 + 2 * 4096);
}

#[test]
fn jal_to_label_links_and_jumps() {
    let mut lines = vec![Line::Instruction(Instruction::Jal(
        r(RA),
        JumpTarget::Label("L".to_string()),
    ))];
    for _ in 0..24 {
        lines.push(Line::Instruction(nop()));
    }
    lines.push(label("L"));
    lines.push(Line::Instruction(nop()));
    let mut s = load(program(lines));
    s.next().unwrap();
    assert_eq!(s.register(r(RA)), 4);
    assert_eq!(s.pc(), 100);
}

#[test]
fn jal_offset_is_added_to_the_program_counter() {
    let mut s = load(of(vec![nop(), Instruction::Jal(r(RA), JumpTarget::Offset(7))]));
    run(&mut s, 2);
    assert_eq!(s.pc(), 11);
    assert_eq!(s.register(r(RA)), 8);
}

#[test]
fn jalr_clears_bit_zero() {
    let mut s = load(of(vec![addi(SP, ZERO, 8), Instruction::Jalr(r(RA), r(SP), 1)]));
    run(&mut s, 2);
    assert_eq!(s.pc(), 8);
    assert_eq!(s.register(r(RA)), 8);
}

#[test]
fn store_then_load_round_trips() {
    let mut s = load(of(vec![
        text("addi", vec![reg_op("a0"), reg_op("zero"), num("5")]),
        text("sw", vec![reg_op("a0"), addr("0", "sp")]),
        text("lw", vec![reg_op("a1"), addr("0", "sp")]),
    ]));
    run(&mut s, 3);
    assert_eq!(s.register(r(A1)), 5);
}

#[test]
fn signed_and_unsigned_branches_differ() {
    let blt = of(vec![
        addi(T0, ZERO, -1),
        addi(T1, ZERO, 1),
        Instruction::Branch(BranchCondition::Lt, r(T0), r(T1), JumpTarget::Offset(100)),
    ]);
    let mut s = load(blt);
    run(&mut s, 3);
    assert_eq!(s.register(r(T0)), 0xFFFF_FFFF);
    assert_eq!(s.pc(), 108);

    let bltu = of(vec![
        addi(T0, ZERO, -1),
        addi(T1, ZERO, 1),
        Instruction::Branch(BranchCondition::Ltu, r(T0), r(T1), JumpTarget::Offset(100)),
    ]);
    let mut s = load(bltu);
    run(&mut s, 3);
    assert_eq!(s.pc(), 12);
}

#[test]
fn other_branch_conditions() {
    let cases = [
        (BranchCondition::Eq, 3, 3, true),
        (BranchCondition::Eq, 3, 4, false),
        (BranchCondition::Ne, 3, 4, true),
        (BranchCondition::Ge, -1, 1, false),
        (BranchCondition::Ge, 1, 1, true),
        (BranchCondition::Geu, -1, 1, true),
    ];
    for (condition, a, b, taken) in cases {
        let mut s = load(of(vec![
            addi(T0, ZERO, a),
            addi(T1, ZERO, b),
            Instruction::Branch(condition, r(T0), r(T1), JumpTarget::Offset(40)),
        ]));
        run(&mut s, 3);
        assert_eq!(s.pc(), if taken { 48 } else { 12 });
    }
}

#[test]
fn shift_amount_uses_low_five_bits() {
    let shift = |amount: i32| {
        let mut s = load(of(vec![
            addi(T0, ZERO, 3),
            addi(T1, ZERO, amount),
            Instruction::IntegerRegister(IntegerRegisterOperation::Sll, r(T2), r(T0), r(T1)),
        ]));
        run(&mut s, 3);
        s.register(r(T2))
    };
    assert_eq!(shift(33), shift(1));
    assert_eq!(shift(33), 6);
}

#[test]
fn fetch_wraps_within_instruction_memory() {
    let mut instructions = vec![addi(A0, A0, 1)];
    for _ in 1..1024 {
        instructions.push(nop());
    }
    let mut s = load(of(instructions));
    run(&mut s, 1024);
    assert_eq!(s.pc(), 4096);
    assert_eq!(s.register(r(A0)), 1);
    s.next().unwrap();
    assert_eq!(s.pc(), 4100);
    assert_eq!(s.register(r(A0)), 2);
}

#[test]
fn program_counter_wraps_at_32_bits() {
    let mut instructions = vec![Instruction::Jal(r(ZERO), JumpTarget::Offset(-4))];
    for _ in 1..1023 {
        instructions.push(nop());
    }
    instructions.push(addi(A1, ZERO, 9));
    let mut s = load(of(instructions));
    s.next().unwrap();
    assert_eq!(s.pc(), 0xFFFF_FFFC);
    s.next().unwrap();
    assert_eq!(s.register(r(A1)), 9);
    assert_eq!(s.pc(), 0);
}

#[test]
fn immediate_operations() {
    let cases = [
        (IntegerImmediateOperation::Add, 7, -3, 4u32),
        (IntegerImmediateOperation::Slt, -5, 2, 1),
        (IntegerImmediateOperation::Sltu, -5, 2, 0),
        (IntegerImmediateOperation::Xor, 0b1100, 0b1010, 0b0110),
        (IntegerImmediateOperation::Or, 0b1100, 0b1010, 0b1110),
        (IntegerImmediateOperation::And, 0b1100, 0b1010, 0b1000),
        (IntegerImmediateOperation::Sll, 1, 35, 8),
        (IntegerImmediateOperation::Srl, -16, 2, 0x3FFF_FFFC),
        (IntegerImmediateOperation::Sra, -16, 2, 0xFFFF_FFFC),
    ];
    for (op, a, imm, expected) in cases {
        let mut s = load(of(vec![
            addi(T0, ZERO, a),
            Instruction::IntegerImmediate(op, r(T1), r(T0), imm),
        ]));
        run(&mut s, 2);
        assert_eq!(s.register(r(T1)), expected, "{:?}", op);
    }
}

#[test]
fn register_operations() {
    let cases = [
        (IntegerRegisterOperation::Add, -1, 1, 0u32),
        (IntegerRegisterOperation::Sub, 0, 1, 0xFFFF_FFFF),
        (IntegerRegisterOperation::Slt, -1, 0, 1),
        (IntegerRegisterOperation::Sltu, -1, 0, 0),
        (IntegerRegisterOperation::Xor, 6, 3, 5),
        (IntegerRegisterOperation::Srl, -1, 28, 0xF),
        (IntegerRegisterOperation::Sra, -256, 4, 0xFFFF_FFF0),
        (IntegerRegisterOperation::Or, 4, 1, 5),
        (IntegerRegisterOperation::And, 6, 3, 2),
    ];
    for (op, a, b, expected) in cases {
        let mut s = load(of(vec![
            addi(T0, ZERO, a),
            addi(T1, ZERO, b),
            Instruction::IntegerRegister(op, r(T2), r(T0), r(T1)),
        ]));
        run(&mut s, 3);
        assert_eq!(s.register(r(T2)), expected, "{:?}", op);
    }
}

#[test]
fn load_widths_extend_as_named() {
    let at = Address { offset: 0, base: r(SP) };
    let mut s = load(of(vec![
        addi(T0, ZERO, 0x80FF),
        Instruction::Store(StoreWidth::W, r(T0), at),
        Instruction::Load(LoadWidth::B, r(A0), at),
        Instruction::Load(LoadWidth::Bu, r(A1), at),
        Instruction::Load(LoadWidth::H, r(T1), at),
        Instruction::Load(LoadWidth::Hu, r(T2), at),
    ]));
    run(&mut s, 6);
    assert_eq!(s.register(r(A0)), 0xFFFF_FFFF);
    assert_eq!(s.register(r(A1)), 0xFF);
    assert_eq!(s.register(r(T1)), 0xFFFF_80FF);
    assert_eq!(s.register(r(T2)), 0x80FF);
}

#[test]
fn narrow_stores_write_only_their_bytes() {
    let at = Address { offset: 0, base: r(SP) };
    let mut s = load(of(vec![
        addi(T0, ZERO, -1),
        Instruction::Store(StoreWidth::W, r(T0), at),
        addi(T1, ZERO, 0x1234),
        Instruction::Store(StoreWidth::B, r(T1), at),
        Instruction::Load(LoadWidth::W, r(A0), at),
        Instruction::Store(StoreWidth::H, r(T1), at),
        Instruction::Load(LoadWidth::W, r(A1), at),
    ]));
    run(&mut s, 7);
    assert_eq!(s.register(r(A0)), 0xFFFF_FF34);
    assert_eq!(s.register(r(A1)), 0xFFFF_1234);
}

#[test]
fn data_addresses_wrap_within_data_memory() {
    let mut s = load(of(vec![
        addi(T0, ZERO, 0x3FFE),
        Instruction::Lui(r(T1), 0x11223),
        addi(T1, T1, 0x344),
        Instruction::Store(StoreWidth::W, r(T1), Address { offset: 0, base: r(T0) }),
        Instruction::Load(LoadWidth::Hu, r(A0), Address { offset: 0, base: r(ZERO) }),
        Instruction::Load(LoadWidth::W, r(A1), Address { offset: 0x4000 - 2, base: r(ZERO) }),
    ]));
    run(&mut s, 6);
    assert_eq!(s.register(r(A0)), 0x1122);
    assert_eq!(s.register(r(A1)), 0x1122_3344);
}

#[test]
fn effective_address_wraps_around_zero() {
    let mut s = load(of(vec![
        addi(T0, ZERO, 77),
        Instruction::Store(StoreWidth::W, r(T0), Address { offset: -4, base: r(ZERO) }),
        Instruction::Load(LoadWidth::W, r(A0), Address { offset: 0x3FFC, base: r(ZERO) }),
    ]));
    run(&mut s, 3);
    assert_eq!(s.register(r(A0)), 77);
}

#[test]
fn stack_pointer_starts_at_0xf00() {
    let s = load(of(vec![nop()]));
    assert_eq!(s.register(r(SP)), 0xF00);
    assert_eq!(s.pc(), 0);
}

#[test]
fn unknown_label_leaves_the_state_alone() {
    let mut s = load(of(vec![Instruction::Jal(r(RA), JumpTarget::Label("nowhere".to_string()))]));
    assert_eq!(s.next(), Err(ExecError::UnknownLabel));
    assert_eq!(s.pc(), 0);
    assert_eq!(s.register(r(RA)), 0);
}

#[test]
fn untaken_branch_ignores_unknown_label() {
    let mut s = load(of(vec![Instruction::Branch(
        BranchCondition::Ne,
        r(ZERO),
        r(ZERO),
        JumpTarget::Label("nowhere".to_string()),
    )]));
    assert_eq!(s.next(), Ok(()));
    assert_eq!(s.pc(), 4);
}

#[test]
fn empty_slot_is_an_invalid_opcode() {
    let mut s = load(of(vec![nop()]));
    s.next().unwrap();
    assert_eq!(s.next(), Err(ExecError::InvalidOpcode));
    assert_eq!(s.pc(), 4);
}

#[test]
fn label_at_end_binds_past_the_last_instruction() {
    let mut s = load(program(vec![
        Line::Instruction(Instruction::Jal(r(ZERO), JumpTarget::Label("end".to_string()))),
        label("end"),
    ]));
    s.next().unwrap();
    assert_eq!(s.pc(), 4);
}

#[test]
fn duplicate_label_last_binding_wins() {
    let mut s = load(program(vec![
        label("x"),
        Line::Instruction(Instruction::Jal(r(ZERO), JumpTarget::Label("x".to_string()))),
        label("x"),
        Line::Instruction(nop()),
    ]));
    s.next().unwrap();
    assert_eq!(s.pc(), 4);
}

#[test]
fn program_too_large_is_refused() {
    let full: Vec<Instruction> = (0..1024).map(|_| nop()).collect();
    assert!(State::new(of(full.clone())).is_ok());
    let mut over = full;
    over.push(nop());
    assert!(matches!(State::new(of(over)), Err(LoadError::ProgramTooLarge)));
}

#[test]
fn program_validity_checks_register_indices() {
    assert!(of(vec![addi(A0, ZERO, 1)]).is_valid());
    assert!(!of(vec![addi(32, ZERO, 1)]).is_valid());
}
