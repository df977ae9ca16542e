//! The engines shift by an operand of the program without masking it, so an
//! instruction that shifts a 16-bit value by 16 or more overflows inside the
//! engine. These functions recognise such an instruction before it is handed
//! to the engine; the adapters report it as a fault instead.
use vstd::prelude::*;
use crate::engine::{word_to_byte, word_value};
use crate::processor::{read_word, word_at};
use monistode_emulator::acc_processor::AccProcessor;
use monistode_emulator::cisc_processor::CiscProcessor;
use monistode_emulator::risc_processor::RiscProcessor;
use monistode_emulator::stack_processor::StackProcessor;

verus! {

/// The byte at `address` of a 65536-byte memory, wrapping around.
pub open spec fn byte_at(mem: Seq<u8>, address: int) -> u8 {
    mem[address % 65536]
}

/// The stack machine's next instruction is `LshImm` (35) or `RshImm` (36), and
/// its immediate (three six-bit words after the opcode, kept to 16 bits) is 16
/// or more.
pub open spec fn stack_shift_overflows(p: StackProcessor) -> bool {
    let t = p.text_memory.memory@;
    let pc = p.registers.pc as int;
    let op = word_value(t[pc]);
    let high = word_value(t[(pc + 1) % 65536]) as int;
    let middle = word_value(t[(pc + 2) % 65536]) as int;
    let low = word_value(t[(pc + 3) % 65536]) as int;
    (op == 35 || op == 36) && (high % 16) * 4096 + middle * 64 + low >= 16
}

/// The accumulator machine's next instruction is `Lsh` (129) or `Rsh` (130),
/// and its immediate (the big-endian word after the opcode) is 16 or more.
pub open spec fn acc_shift_overflows(p: AccProcessor) -> bool {
    let m = p.memory.memory@;
    let pc = p.registers.pc as int;
    let op = m[pc];
    (op == 129 || op == 130) && word_at(m, pc + 1) >= 16
}

/// The value of a RISC register by its number: R0 to R3, then SP.
pub open spec fn risc_register(p: RiscProcessor, id: int) -> Option<u16> {
    if 0 <= id < 4 {
        Some(p.registers.r@[id])
    } else if id == 4 {
        Some(p.registers.sp)
    } else {
        None
    }
}

/// The RISC machine's next instruction is `Lsh` or `Rsh` (opcodes 16 and 17 in
/// the top six bits), and the register that holds the shift amount (bits 1 to 3
/// of the next byte) exists and holds 16 or more.
pub open spec fn risc_shift_overflows(p: RiscProcessor) -> bool {
    let m = p.memory.memory@;
    let pc = p.registers.pc as int;
    let op = m[pc] / 4;
    let amount = (byte_at(m, pc + 1) / 2) % 8;
    (op == 16 || op == 17) && match risc_register(p, amount as int) {
        Some(v) => v >= 16,
        None => false,
    }
}

/// The CISC machine's next instruction is a shift by an immediate that is 16 or
/// more: for the register and register-address forms (134 to 137) the
/// immediate follows the register byte; for the offset forms (193, 194) it
/// follows the register byte and the 16-bit offset.
pub open spec fn cisc_shift_overflows(p: CiscProcessor) -> bool {
    let m = p.memory.memory@;
    let pc = p.registers.pc as int;
    let op = m[pc];
    ||| (op == 134 || op == 135 || op == 136 || op == 137) && word_at(m, pc + 2) >= 16
    ||| (op == 193 || op == 194) && word_at(m, pc + 4) >= 16
}

pub fn stack_shift_check(p: &StackProcessor) -> (r: bool)
    requires
        p.text_memory.memory@.len() == 65536,
    ensures
        r == stack_shift_overflows(*p),
{
    let t = &p.text_memory.memory;
    let pc = p.registers.pc as usize;
    let op = word_to_byte(t[pc]);
    if op != 35 && op != 36 {
        return false;
    }
    let high = word_to_byte(t[(pc + 1) % 65536]) as u32;
    let middle = word_to_byte(t[(pc + 2) % 65536]) as u32;
    let low = word_to_byte(t[(pc + 3) % 65536]) as u32;
    (high % 16) * 4096 + middle * 64 + low >= 16
}

pub fn acc_shift_check(p: &AccProcessor) -> (r: bool)
    requires
        p.memory.memory@.len() == 65536,
    ensures
        r == acc_shift_overflows(*p),
{
    let m = &p.memory.memory;
    let pc = p.registers.pc;
    let op = m[pc as usize];
    (op == 129 || op == 130) && read_word(m, pc as u32 + 1) >= 16
}

pub fn risc_shift_check(p: &RiscProcessor) -> (r: bool)
    requires
        p.memory.memory@.len() == 65536,
    ensures
        r == risc_shift_overflows(*p),
{
    let m = &p.memory.memory;
    let pc = p.registers.pc as usize;
    let op = m[pc] / 4;
    if op != 16 && op != 17 {
        return false;
    }
    let amount = (m[(pc + 1) % 65536] / 2) % 8;
    if amount < 4 {
        p.registers.r[amount as usize] >= 16
    } else if amount == 4 {
        p.registers.sp >= 16
    } else {
        false
    }
}

pub fn cisc_shift_check(p: &CiscProcessor) -> (r: bool)
    requires
        p.memory.memory@.len() == 65536,
    ensures
        r == cisc_shift_overflows(*p),
{
    let m = &p.memory.memory;
    let pc = p.registers.pc;
    let op = m[pc as usize];
    if op == 134 || op == 135 || op == 136 || op == 137 {
        read_word(m, pc as u32 + 2) >= 16
    } else if op == 193 || op == 194 {
        read_word(m, pc as u32 + 4) >= 16
    } else {
        false
    }
}

} // verus!
