//! Properties that hold of every program and every run.

use crate::ast::{Instruction, IntegerRegisterOperation, Line, LoadWidth, Register, StoreWidth};
use crate::simulator::{
    alu, byte_of, data_translate, le_word, load_enable, load_value, load_word, fits, DATA_MEMORY_SIZE, store_byte, store_enable, store_word, initial_state, instruction_slot, instruction_translate, wrap32, MachineState, State,
};
use vstd::prelude::*;

verus! {

/// The state after at most `n` steps from `s`; a step that fails stops the run
/// where it stands.
pub open spec fn run(s: MachineState, n: nat) -> MachineState
    decreases n,
{
    if n == 0 {
        s
    } else {
        match s.step() {
            Ok(t) => run(t, (n - 1) as nat),
            Err(_) => s,
        }
    }
}

/// A step keeps the machine well formed: register 0 still holds 0 and the
/// memories keep their sizes.
pub proof fn lemma_step_preserves_wf(s: MachineState)
    requires
        s.wf(),
    ensures
        s.step() matches Ok(t) ==> t.wf(),
{
    let slot = instruction_slot(s.pc);
    let pc = s.pc;
    assert(pc & 0xFFF < 4096) by (bit_vector);
    assert(0 <= slot < s.instructions.len());
    if let Some(Instruction::Store(width, rs, a)) = s.instructions[slot] {
        lemma_store_keeps_size(s.data, store_enable(width), s.effective_address(a), s.reg(rs));
    }
    if let Ok(t) = s.step() {
        assert(t.instructions == s.instructions);
        assert(t.registers.len() == 32);
        assert(t.registers[0] == 0);
        assert(t.data.len() == s.data.len());
    }
}

proof fn lemma_store_keeps_size(mem: Seq<u8>, enable: u8, address: u32, value: u32)
    requires
        mem.len() == DATA_MEMORY_SIZE,
    ensures
        store_word(mem, enable, address, value).len() == mem.len(),
{
    assert forall|x: u32| #[trigger] data_translate(x) < 16384 by {
        assert(x & 0x3FFF < 16384) by (bit_vector);
    }
    let m0 = store_byte(mem, enable, address, value, 0);
    let m1 = store_byte(m0, enable, address, value, 1);
    let m2 = store_byte(m1, enable, address, value, 2);
    assert(m0.len() == mem.len());
    assert(m1.len() == mem.len());
    assert(m2.len() == mem.len());
}

/// Register 0 reads as 0, and still holds 0, after any number of steps of
/// any loaded program, whatever its instructions write.
pub proof fn lemma_register_zero_stays_zero(s: MachineState, n: nat, r: Register)
    requires
        s.wf(),
        r.index == 0,
    ensures
        run(s, n).wf(),
        run(s, n).reg(r) == 0,
        run(s, n).registers[0] == 0,
    decreases n,
{
    if n > 0 {
        lemma_step_preserves_wf(s);
        if let Ok(t) = s.step() {
            lemma_register_zero_stays_zero(t, (n - 1) as nat, r);
        }
    }
}

/// Loading is a function of the program: two loads of the same program give
/// the same instruction memory and the same label table.
pub proof fn lemma_load_deterministic(lines: Seq<Line>, a: State, b: State)
    requires
        fits(lines),
        a@ == initial_state(lines),
        b@ == initial_state(lines),
    ensures
        a@.instructions == b@.instructions,
        a@.labels == b@.labels,
        a@ == b@,
{
}

/// Shifts use only the low five bits of the shift operand: shifting by `b`
/// and by `b mod 32` agree, so a shift by 33 is a shift by 1.
pub proof fn lemma_shift_amount_masked(op: IntegerRegisterOperation, a: u32, b: u32)
    requires
        op == IntegerRegisterOperation::Sll || op == IntegerRegisterOperation::Srl || op
            == IntegerRegisterOperation::Sra,
    ensures
        alu(op, a, b) == alu(op, a, b % 32),
        alu(op, a, 33) == alu(op, a, 1),
{
    assert(b & 0x1F == (b % 32) & 0x1F) by (bit_vector);
    assert(33u32 & 0x1F == 1u32 & 0x1F) by (bit_vector);
}

/// The program counter wraps modulo 2^32, and instruction fetch wraps within
/// the 4 KiB instruction window: stepping past its end lands on slot 0.
pub proof fn lemma_pc_wraps(pc: u32)
    ensures
        0 <= instruction_slot(pc) < 1024,
        instruction_slot(wrap32(pc + 4096)) == instruction_slot(pc),
        instruction_translate(pc) == 0xFFC ==> instruction_slot(wrap32(pc + 4)) == 0,
        pc == 0xFFFF_FFFC ==> wrap32(pc + 4) == 0,
{
    assert(pc & 0xFFF < 4096) by (bit_vector);
    let big: u32 = wrap32(pc + 4096);
    let small: u32 = wrap32(pc + 4);
    if pc <= 0xFFFF_EFFF {
        assert(big == pc + 4096);
        assert(((pc + 4096) as u32) & 0xFFF == pc & 0xFFF) by (bit_vector)
            requires
                pc <= 0xFFFF_EFFF,
        ;
    } else {
        assert(big == pc - 0xFFFF_F000);
        assert(((pc - 0xFFFF_F000) as u32) & 0xFFF == pc & 0xFFF) by (bit_vector)
            requires
                pc > 0xFFFF_EFFF,
        ;
    }
    if pc & 0xFFF == 0xFFC {
        if pc <= 0xFFFF_FFFB {
            assert(small == pc + 4);
            assert(((pc + 4) as u32) & 0xFFF == 0) by (bit_vector)
                requires
                    pc <= 0xFFFF_FFFB,
                    pc & 0xFFF == 0xFFC,
            ;
        } else {
            assert(small == pc - 0xFFFF_FFFC);
            assert(((pc - 0xFFFF_FFFC) as u32) & 0xFFF == 0) by (bit_vector)
                requires
                    pc > 0xFFFF_FFFB,
                    pc & 0xFFF == 0xFFC,
            ;
        }
    }
}

/// A `jalr` target always has bit 0 clear, whatever the base and the offset;
/// with base 8 and offset 1 it is 8.
pub proof fn lemma_jalr_target_aligned(base: u32, offset: i32)
    ensures
        (wrap32(base + offset) & 0xFFFF_FFFE) & 1 == 0,
        base == 8 && offset == 1 ==> wrap32(base + offset) & 0xFFFF_FFFE == 8,
{
    let t = wrap32(base + offset);
    assert((t & 0xFFFF_FFFE) & 1 == 0) by (bit_vector);
    if base == 8 && offset == 1 {
        assert(t == 9);
        assert(9u32 & 0xFFFF_FFFE == 8) by (bit_vector);
    }
}

/// A word stored at an address and then loaded from the same address reads
/// back unchanged, wherever the address falls in data memory.
pub proof fn lemma_store_load_word(mem: Seq<u8>, address: u32, value: u32)
    requires
        mem.len() == DATA_MEMORY_SIZE,
    ensures
        load_value(
            store_word(mem, store_enable(StoreWidth::W), address, value),
            LoadWidth::W,
            address,
        ) == value,
{
    let en = store_enable(StoreWidth::W);
    assert(en & 1 != 0 && en & 2 != 0 && en & 4 != 0 && en & 8 != 0) by (bit_vector)
        requires
            en == 15,
    ;
    assert forall|x: u32| #[trigger] data_translate(x) == x % 16384 by {
        assert(x & 0x3FFF == x % 16384) by (bit_vector);
    }
    let a0 = data_translate(wrap32(address + 0));
    let a1 = data_translate(wrap32(address + 1));
    let a2 = data_translate(wrap32(address + 2));
    let a3 = data_translate(wrap32(address + 3));
    assert(a0 != a1 && a0 != a2 && a0 != a3 && a1 != a2 && a1 != a3 && a2 != a3) by {
        let base = address as int;
        assert(a0 == (base % 0x1_0000_0000) % 16384);
        assert(a1 == ((base + 1) % 0x1_0000_0000) % 16384);
        assert(a2 == ((base + 2) % 0x1_0000_0000) % 16384);
        assert(a3 == ((base + 3) % 0x1_0000_0000) % 16384);
    }
    let m0 = store_byte(mem, en, address, value, 0);
    let m1 = store_byte(m0, en, address, value, 1);
    let m2 = store_byte(m1, en, address, value, 2);
    let m3 = store_byte(m2, en, address, value, 3);
    assert(m3[a0 as int] == byte_of(value, 0));
    assert(m3[a1 as int] == byte_of(value, 1));
    assert(m3[a2 as int] == byte_of(value, 2));
    assert(m3[a3 as int] == byte_of(value, 3));
    let w = load_word(m3, load_enable(LoadWidth::W), address);
    assert(w == le_word(byte_of(value, 0), byte_of(value, 1), byte_of(value, 2), byte_of(value, 3)));
    assert(((value >> 0u32) & 0xFF) as u8 as u32 | ((((value >> 8u32) & 0xFF) as u8 as u32) << 8u32)
        | ((((value >> 16u32) & 0xFF) as u8 as u32) << 16u32) | ((((value >> 24u32) & 0xFF) as u8
        as u32) << 24u32) == value) by (bit_vector);
}

} // verus!
