//! The capability interface that every architecture adapter offers, and the
//! selector that routes each call to the one adapter of a session.
use vstd::prelude::*;
use crate::engine::{image_architecture, image_entry, parse_image, parsed_image, parses};
use crate::loader::{image_frame_check, image_frame_ok};
use monistode_binutils::Executable;
use crate::memory::{segments_of, write_accepted, written, MemoryBlock, MemoryType, SegmentView};
use crate::ports::PortHandlers;
use crate::processors::acc::AccProcessorWrapper;
use crate::processors::cisc::CiscProcessorWrapper;
use crate::processors::risc::RiscProcessorWrapper;
use crate::processors::stack::StackProcessorWrapper;
use crate::processors::{
    architecture_matches, image_tag, initial_registers, loaded_memory, shaped, ProcessorType,
};
use crate::registers::{registers_of, RegisterState, RegisterView};
use monistode_emulator::common::ProcessorContinue;

verus! {

/// What a run reports: the machine may go on, it halted, or it faulted.
#[derive(Clone, Copy, Debug, PartialEq, Eq, Structural)]
pub enum WasmProcessorContinue {
    Continue,
    Error,
    Halt,
}

/// The status that the engine's answer to one instruction stands for.
pub fn status_of(c: ProcessorContinue) -> (r: WasmProcessorContinue)
    ensures
        r == match c {
            ProcessorContinue::KeepRunning => WasmProcessorContinue::Continue,
            ProcessorContinue::Error => WasmProcessorContinue::Error,
            ProcessorContinue::Halt => WasmProcessorContinue::Halt,
        },
{
    match c {
        ProcessorContinue::KeepRunning => WasmProcessorContinue::Continue,
        ProcessorContinue::Error => WasmProcessorContinue::Error,
        ProcessorContinue::Halt => WasmProcessorContinue::Halt,
    }
}

/// The 16-bit word stored big-endian at `address` of a 65536-byte memory (the
/// second byte wraps around to address 0).
pub open spec fn word_at(mem: Seq<u8>, address: int) -> u16 {
    (mem[address % 65536] as int * 256 + mem[(address + 1) % 65536] as int) as u16
}

/// The word `depth` slots below the stack pointer: each slot is two bytes, and
/// addresses wrap around at 65536.
pub open spec fn peek_value(mem: Seq<u8>, pointer: u16, depth: u8) -> u16 {
    word_at(mem, pointer as int + 2 * depth as int)
}

/// Reads the big-endian word at `address` of a 65536-byte memory.
pub fn read_word(mem: &Vec<u8>, address: u32) -> (r: u16)
    requires
        mem@.len() == 65536,
    ensures
        r == word_at(mem@, address as int),
{
    let first: u32 = address % 65536;
    let second: u32 = ((address % 65536) + 1) % 65536;
    assert(second as int == (address as int + 1) % 65536);
    let high = mem[first as usize];
    let low = mem[second as usize];
    high as u16 * 256 + low as u16
}

/// Reads the word `depth` slots below `pointer` in a 65536-byte memory.
pub fn read_stack_word(mem: &Vec<u8>, pointer: u16, depth: u8) -> (r: u16)
    requires
        mem@.len() == 65536,
    ensures
        r == peek_value(mem@, pointer, depth),
{
    read_word(mem, pointer as u32 + 2 * depth as u32)
}

/// The value that PC takes when an image is loaded: its entry point, cut to
/// 16 bits.
pub open spec fn entry_pc(image: Executable) -> u16 {
    (image_entry(image) % 65536) as u16
}

/// The decision after one instruction, the `done`-th of a budget of `budget`:
/// a halt or a fault ends the run with that status, a spent budget ends it with
/// `Continue`, and otherwise the run goes on (`None`).
pub fn controller_next(s: WasmProcessorContinue, done: u64, budget: u64) -> (r: Option<
    WasmProcessorContinue,
>)
    requires
        done < budget,
    ensures
        r == if s != WasmProcessorContinue::Continue {
            Some(s)
        } else if done + 1 >= budget {
            Some(WasmProcessorContinue::Continue)
        } else {
            None::<WasmProcessorContinue>
        },
{
    if s != WasmProcessorContinue::Continue {
        Some(s)
    } else if done + 1 >= budget {
        Some(WasmProcessorContinue::Continue)
    } else {
        None
    }
}

/// The message of a refused load.
pub open spec fn load_refusal(arch: ProcessorType, image: Executable) -> Seq<char> {
    if !architecture_matches(image_architecture(image), arch) {
        "Invalid architecture"@
    } else {
        "Executable does not fit in memory"@
    }
}

/// The contract that each architecture adapter meets.
pub trait WasmProcessor: Sized {
    /// The architecture that the adapter stands for.
    spec fn architecture(&self) -> ProcessorType;

    /// The shape that the adapter's memories keep.
    spec fn well_formed(&self) -> bool;

    /// The segments, in the order `get_memory` reports them.
    spec fn memory(&self) -> Seq<SegmentView>;

    /// The registers, in the order `get_registers` reports them.
    spec fn registers(&self) -> Seq<RegisterView>;

    /// One more than the largest value that a cell of the given segment holds.
    spec fn cell_limit(&self, kind: MemoryType) -> nat;

    /// The memory that holds the stack that `peek_stack` reads.
    spec fn stack_memory(&self) -> Seq<u8>;

    /// The pointer to the top of that stack.
    spec fn stack_pointer(&self) -> u16;

    /// Whether each segment of the image fits the adapter's memory.
    spec fn fits(&self, image: Executable) -> bool;

    /// Whether the next instruction shifts by 16 or more, which the engine
    /// cannot do; such a step is reported as a fault.
    spec fn shift_overflows(&self) -> bool;

    /// A well-formed adapter has its architecture's segments and registers.
    proof fn lemma_shape(&self)
        requires
            self.well_formed(),
        ensures
            shaped(self.architecture(), self.memory(), self.registers()),
    ;

    fn get_memory(&self) -> (r: Vec<MemoryBlock>)
        requires
            self.well_formed(),
        ensures
            segments_of(r@) == self.memory(),
    ;

    /// Writes one cell; false, with nothing changed, where the segment is
    /// missing, the index is out of range or the value does not fit a cell.
    fn set_memory(&mut self, mem_type: MemoryType, index: usize, value: u8) -> (r: bool)
        requires
            old(self).well_formed(),
        ensures
            final(self).well_formed(),
            final(self).architecture() == old(self).architecture(),
            r == write_accepted(
                old(self).memory(),
                mem_type,
                index as int,
                value,
                old(self).cell_limit(mem_type),
            ),
            r ==> final(self).memory() == written(old(self).memory(), mem_type, index as int, value),
            !r ==> *final(self) == *old(self),
            final(self).registers() == old(self).registers(),
    ;

    fn get_registers(&self) -> (r: Vec<RegisterState>)
        ensures
            registers_of(r@) == self.registers(),
    ;

    /// Loads a parsed image into fresh memory with reset registers and PC at the
    /// image's entry point. An image of another architecture, or one that does
    /// not fit, is refused and nothing changes.
    fn load_image(&mut self, image: &Executable) -> (r: Result<(), String>)
        requires
            old(self).well_formed(),
        ensures
            final(self).well_formed(),
            final(self).architecture() == old(self).architecture(),
            r is Ok <==> architecture_matches(image_architecture(*image), old(self).architecture())
                && old(self).fits(*image),
            r is Ok ==> final(self).registers() == initial_registers(
                old(self).architecture(),
                entry_pc(*image),
            ),
            r is Ok ==> final(self).memory() == loaded_memory(old(self).architecture(), *image),
            r is Err ==> *final(self) == *old(self) && r->Err_0@ == load_refusal(old(self).architecture(), *image),
    ;

    /// Parses `binary` and loads it. Bytes that do not frame or parse as an
    /// image are refused with "Failed to load executable"; otherwise the result
    /// is that of `load_image` on the parsed image. A refusal changes nothing.
    fn load_executable(&mut self, binary: &[u8]) -> (r: Result<(), String>)
        requires
            old(self).well_formed(),
        ensures
            final(self).well_formed(),
            final(self).architecture() == old(self).architecture(),
            r is Ok <==> image_frame_ok(binary@) && parses(binary@) && architecture_matches(
                image_architecture(parsed_image(binary@)),
                old(self).architecture(),
            ) && old(self).fits(parsed_image(binary@)),
            r is Ok ==> final(self).registers() == initial_registers(
                old(self).architecture(),
                entry_pc(parsed_image(binary@)),
            ),
            r is Ok ==> final(self).memory() == loaded_memory(
                old(self).architecture(),
                parsed_image(binary@),
            ),
            r is Ok ==> binary@.len() > 0 && image_tag(old(self).architecture()) == Some(binary@[0]),
            r is Err ==> *final(self) == *old(self),
            !(image_frame_ok(binary@) && parses(binary@)) ==> r is Err && r->Err_0@
                == "Failed to load executable"@,
            image_frame_ok(binary@) && parses(binary@) && r is Err ==> r->Err_0@ == load_refusal(
                old(self).architecture(),
                parsed_image(binary@),
            ),
    {
        if !image_frame_check(binary) {
            return Err("Failed to load executable".to_string());
        }
        match parse_image(binary) {
            Ok((_, image)) => self.load_image(&image),
            Err(_) => Err("Failed to load executable".to_string()),
        }
    }

    fn peek_stack(&self, n: u8) -> (r: u16)
        requires
            self.well_formed(),
        ensures
            r == peek_value(self.stack_memory(), self.stack_pointer(), n),
    ;

    /// Executes one instruction, handing its port operations to `ports`. An
    /// instruction that would shift by 16 or more is a fault: it is not
    /// executed, and nothing changes.
    fn step<H: PortHandlers>(&mut self, ports: &mut H) -> (r: WasmProcessorContinue)
        requires
            old(self).well_formed(),
        ensures
            final(self).well_formed(),
            final(self).architecture() == old(self).architecture(),
            old(self).shift_overflows() ==> r == WasmProcessorContinue::Error && *final(self)
                == *old(self) && *final(ports) == *old(ports),
    ;

    /// Executes at most `budget` instructions, stopping at the first halt or
    /// fault, and returns the status with the number of instructions taken:
    /// `Continue` only when the whole budget ran. With no budget nothing is
    /// executed and the handlers are not called.
    fn run_budget<H: PortHandlers>(&mut self, ports: &mut H, budget: u64) -> (r: (
        WasmProcessorContinue,
        u64,
    ))
        requires
            old(self).well_formed(),
        ensures
            final(self).well_formed(),
            final(self).architecture() == old(self).architecture(),
            r.1 <= budget,
            budget > 0 ==> r.1 >= 1,
            r.0 == WasmProcessorContinue::Continue ==> r.1 == budget,
            budget == 0 ==> r == (WasmProcessorContinue::Continue, 0u64) && *final(self) == *old(
                self,
            ) && *final(ports) == *old(ports),
    {
        if budget == 0 {
            return (WasmProcessorContinue::Continue, 0);
        }
        let mut done: u64 = 0;
        loop
            invariant
                self.well_formed(),
                self.architecture() == old(self).architecture(),
                done < budget,
            decreases budget - done,
        {
            let s = self.step(ports);
            match controller_next(s, done, budget) {
                Some(end) => {
                    return (end, done + 1);
                },
                None => {},
            }
            done = done + 1;
        }
    }

    /// Executes at most `n` instructions, stopping at the first halt or fault;
    /// `Continue` only when all `n` ran.
    fn run_n<H: PortHandlers>(&mut self, ports: &mut H, n: u32) -> (r: WasmProcessorContinue)
        requires
            old(self).well_formed(),
        ensures
            final(self).well_formed(),
            final(self).architecture() == old(self).architecture(),
            n == 0 ==> r == WasmProcessorContinue::Continue && *final(self) == *old(self)
                && *final(ports) == *old(ports),
    {
        self.run_budget(ports, n as u64).0
    }

    /// Executes until a halt or a fault (or, in principle, `u64::MAX`
    /// instructions).
    fn run<H: PortHandlers>(&mut self, ports: &mut H) -> (r: WasmProcessorContinue)
        requires
            old(self).well_formed(),
        ensures
            final(self).well_formed(),
            final(self).architecture() == old(self).architecture(),
    {
        self.run_budget(ports, u64::MAX).0
    }
}

/// The one adapter of a session.
pub enum WasmProcessorEnum {
    Stack(StackProcessorWrapper),
    Acc(AccProcessorWrapper),
    Risc(RiscProcessorWrapper),
    Cisc(CiscProcessorWrapper),
}

impl WasmProcessor for WasmProcessorEnum {
    open spec fn architecture(&self) -> ProcessorType {
        match self {
            WasmProcessorEnum::Stack(p) => p.architecture(),
            WasmProcessorEnum::Acc(p) => p.architecture(),
            WasmProcessorEnum::Risc(p) => p.architecture(),
            WasmProcessorEnum::Cisc(p) => p.architecture(),
        }
    }

    open spec fn well_formed(&self) -> bool {
        match self {
            WasmProcessorEnum::Stack(p) => p.well_formed() && p.architecture() == ProcessorType::Stack,
            WasmProcessorEnum::Acc(p) => p.well_formed() && p.architecture() == ProcessorType::Acc,
            WasmProcessorEnum::Risc(p) => p.well_formed() && p.architecture() == ProcessorType::Risc,
            WasmProcessorEnum::Cisc(p) => p.well_formed() && p.architecture() == ProcessorType::Cisc,
        }
    }

    open spec fn memory(&self) -> Seq<SegmentView> {
        match self {
            WasmProcessorEnum::Stack(p) => p.memory(),
            WasmProcessorEnum::Acc(p) => p.memory(),
            WasmProcessorEnum::Risc(p) => p.memory(),
            WasmProcessorEnum::Cisc(p) => p.memory(),
        }
    }

    open spec fn registers(&self) -> Seq<RegisterView> {
        match self {
            WasmProcessorEnum::Stack(p) => p.registers(),
            WasmProcessorEnum::Acc(p) => p.registers(),
            WasmProcessorEnum::Risc(p) => p.registers(),
            WasmProcessorEnum::Cisc(p) => p.registers(),
        }
    }

    open spec fn cell_limit(&self, kind: MemoryType) -> nat {
        match self {
            WasmProcessorEnum::Stack(p) => p.cell_limit(kind),
            WasmProcessorEnum::Acc(p) => p.cell_limit(kind),
            WasmProcessorEnum::Risc(p) => p.cell_limit(kind),
            WasmProcessorEnum::Cisc(p) => p.cell_limit(kind),
        }
    }

    open spec fn stack_memory(&self) -> Seq<u8> {
        match self {
            WasmProcessorEnum::Stack(p) => p.stack_memory(),
            WasmProcessorEnum::Acc(p) => p.stack_memory(),
            WasmProcessorEnum::Risc(p) => p.stack_memory(),
            WasmProcessorEnum::Cisc(p) => p.stack_memory(),
        }
    }

    open spec fn stack_pointer(&self) -> u16 {
        match self {
            WasmProcessorEnum::Stack(p) => p.stack_pointer(),
            WasmProcessorEnum::Acc(p) => p.stack_pointer(),
            WasmProcessorEnum::Risc(p) => p.stack_pointer(),
            WasmProcessorEnum::Cisc(p) => p.stack_pointer(),
        }
    }

    open spec fn fits(&self, image: Executable) -> bool {
        match self {
            WasmProcessorEnum::Stack(p) => p.fits(image),
            WasmProcessorEnum::Acc(p) => p.fits(image),
            WasmProcessorEnum::Risc(p) => p.fits(image),
            WasmProcessorEnum::Cisc(p) => p.fits(image),
        }
    }

    open spec fn shift_overflows(&self) -> bool {
        match self {
            WasmProcessorEnum::Stack(p) => p.shift_overflows(),
            WasmProcessorEnum::Acc(p) => p.shift_overflows(),
            WasmProcessorEnum::Risc(p) => p.shift_overflows(),
            WasmProcessorEnum::Cisc(p) => p.shift_overflows(),
        }
    }

    proof fn lemma_shape(&self) {
        match self {
            WasmProcessorEnum::Stack(p) => p.lemma_shape(),
            WasmProcessorEnum::Acc(p) => p.lemma_shape(),
            WasmProcessorEnum::Risc(p) => p.lemma_shape(),
            WasmProcessorEnum::Cisc(p) => p.lemma_shape(),
        }
    }

    fn get_memory(&self) -> (r: Vec<MemoryBlock>) {
        match self {
            WasmProcessorEnum::Stack(p) => p.get_memory(),
            WasmProcessorEnum::Acc(p) => p.get_memory(),
            WasmProcessorEnum::Risc(p) => p.get_memory(),
            WasmProcessorEnum::Cisc(p) => p.get_memory(),
        }
    }

    fn set_memory(&mut self, mem_type: MemoryType, index: usize, value: u8) -> (r: bool) {
        match self {
            WasmProcessorEnum::Stack(p) => p.set_memory(mem_type, index, value),
            WasmProcessorEnum::Acc(p) => p.set_memory(mem_type, index, value),
            WasmProcessorEnum::Risc(p) => p.set_memory(mem_type, index, value),
            WasmProcessorEnum::Cisc(p) => p.set_memory(mem_type, index, value),
        }
    }

    fn get_registers(&self) -> (r: Vec<RegisterState>) {
        match self {
            WasmProcessorEnum::Stack(p) => p.get_registers(),
            WasmProcessorEnum::Acc(p) => p.get_registers(),
            WasmProcessorEnum::Risc(p) => p.get_registers(),
            WasmProcessorEnum::Cisc(p) => p.get_registers(),
        }
    }

    fn load_image(&mut self, image: &Executable) -> (r: Result<(), String>) {
        match self {
            WasmProcessorEnum::Stack(p) => {
                let ghost before = *p;
                let r = p.load_image(image);
                assert(before.fits(*image) == old(self).fits(*image));
                r
            },
            WasmProcessorEnum::Acc(p) => p.load_image(image),
            WasmProcessorEnum::Risc(p) => p.load_image(image),
            WasmProcessorEnum::Cisc(p) => p.load_image(image),
        }
    }

    fn peek_stack(&self, n: u8) -> (r: u16) {
        match self {
            WasmProcessorEnum::Stack(p) => p.peek_stack(n),
            WasmProcessorEnum::Acc(p) => p.peek_stack(n),
            WasmProcessorEnum::Risc(p) => p.peek_stack(n),
            WasmProcessorEnum::Cisc(p) => p.peek_stack(n),
        }
    }

    fn step<H: PortHandlers>(&mut self, ports: &mut H) -> (r: WasmProcessorContinue) {
        match self {
            WasmProcessorEnum::Stack(p) => {
                let ghost before = *p;
                let r = p.step(ports);
                assert(before.shift_overflows() == old(self).shift_overflows());
                r
            },
            WasmProcessorEnum::Acc(p) => {
                let ghost before = *p;
                let r = p.step(ports);
                assert(before.shift_overflows() == old(self).shift_overflows());
                r
            },
            WasmProcessorEnum::Risc(p) => {
                let ghost before = *p;
                let r = p.step(ports);
                assert(before.shift_overflows() == old(self).shift_overflows());
                r
            },
            WasmProcessorEnum::Cisc(p) => {
                let ghost before = *p;
                let r = p.step(ports);
                assert(before.shift_overflows() == old(self).shift_overflows());
                r
            },
        }
    }
}

} // verus!
