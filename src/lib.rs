//! A uniform control and inspection surface over four emulated processors (a
//! stack machine, an accumulator machine, a RISC machine and a CISC machine):
//! load an executable image, run it with the host's port handlers, and read or
//! patch memory and registers between runs.
use vstd::prelude::*;
use crate::memory::{segments_of, write_accepted, written, MemoryBlock, MemoryType, SegmentView};
use crate::ports::PortHandlers;
use crate::engine::{image_architecture, parsed_image, parses};
use crate::loader::image_frame_ok;
use crate::processor::{
    entry_pc, load_refusal, peek_value, WasmProcessor, WasmProcessorContinue, WasmProcessorEnum,
};
use crate::processors::{
    architecture_matches, create_processor, image_tag, initial_memory, initial_registers,
    loaded_memory, shaped,
    ProcessorType,
};
use crate::registers::{registers_of, RegisterState, RegisterView};

pub mod engine;
pub mod laws;
pub mod loader;
pub mod memory;
pub mod ports;
pub mod processor;
pub mod processors;
pub mod registers;
pub mod shifts;

pub use crate::processors::available_processors;

verus! {

/// One session: a single machine of a fixed architecture, and the status that
/// its last run reached. After a halt or a fault the status stays until a new
/// program is loaded.
pub struct Runner {
    processor: WasmProcessorEnum,
    status: WasmProcessorContinue,
}

impl Runner {
    /// The session's machine.
    pub closed spec fn machine(&self) -> WasmProcessorEnum {
        self.processor
    }

    /// The status that the session is in.
    pub closed spec fn status(&self) -> WasmProcessorContinue {
        self.status
    }

    /// The machine keeps its engine's shape and its architecture's layout of
    /// segments and registers.
    pub open spec fn well_formed(&self) -> bool {
        &&& self.machine().well_formed()
        &&& shaped(self.architecture(), self.memory(), self.registers())
    }

    pub open spec fn architecture(&self) -> ProcessorType {
        self.machine().architecture()
    }

    pub open spec fn memory(&self) -> Seq<SegmentView> {
        self.machine().memory()
    }

    pub open spec fn registers(&self) -> Seq<RegisterView> {
        self.machine().registers()
    }

    /// A fresh machine of the given architecture, ready to run.
    pub fn new(processor_type: ProcessorType) -> (r: Self)
        ensures
            r.well_formed(),
            r.architecture() == processor_type,
            r.memory() == initial_memory(processor_type),
            r.registers() == initial_registers(processor_type, 0),
            r.status() == WasmProcessorContinue::Continue,
    {
        let r = Runner {
            processor: create_processor(processor_type),
            status: WasmProcessorContinue::Continue,
        };
        proof {
            r.processor.lemma_shape();
        }
        r
    }

    /// Loads an executable image. Bytes that do not frame or parse as an image
    /// are refused with "Failed to load executable", an image of another
    /// architecture with "Invalid architecture", and one that does not fit in
    /// memory with "Executable does not fit in memory"; a refusal leaves the
    /// session exactly as it was. On success the machine has fresh memory
    /// holding the image, its registers are reset with PC at the image's entry
    /// point, and it is ready to run.
    pub fn load_program(&mut self, program: &[u8]) -> (r: Result<(), String>)
        requires
            old(self).well_formed(),
        ensures
            final(self).well_formed(),
            final(self).architecture() == old(self).architecture(),
            r is Ok <==> image_frame_ok(program@) && parses(program@) && architecture_matches(
                image_architecture(parsed_image(program@)),
                old(self).architecture(),
            ) && old(self).machine().fits(parsed_image(program@)),
            r is Ok ==> final(self).registers() == initial_registers(
                old(self).architecture(),
                entry_pc(parsed_image(program@)),
            ),
            r is Ok ==> final(self).memory() == loaded_memory(
                old(self).architecture(),
                parsed_image(program@),
            ),
            r is Ok ==> final(self).status() == WasmProcessorContinue::Continue,
            r is Err ==> *final(self) == *old(self),
            !(program@.len() > 0 && image_tag(old(self).architecture()) == Some(program@[0]))
                ==> r is Err && *final(self) == *old(self),
            !(image_frame_ok(program@) && parses(program@)) ==> r is Err && r->Err_0@
                == "Failed to load executable"@,
            image_frame_ok(program@) && parses(program@) && r is Err ==> r->Err_0@ == load_refusal(
                old(self).architecture(),
                parsed_image(program@),
            ),
    {
        let r = self.processor.load_executable(program);
        if r.is_ok() {
            self.status = WasmProcessorContinue::Continue;
        }
        proof {
            self.processor.lemma_shape();
        }
        r
    }

    /// Executes until the machine halts or faults (or, in principle, for
    /// `u64::MAX` instructions). A session that already halted or faulted
    /// reports that status again, executes nothing and calls no handler.
    pub fn run<H: PortHandlers>(&mut self, ports: &mut H) -> (r: WasmProcessorContinue)
        requires
            old(self).well_formed(),
        ensures
            final(self).well_formed(),
            final(self).architecture() == old(self).architecture(),
            final(self).status() == r,
            old(self).status() != WasmProcessorContinue::Continue ==> r == old(self).status()
                && *final(self) == *old(self) && *final(ports) == *old(ports),
    {
        if self.status != WasmProcessorContinue::Continue {
            return self.status;
        }
        let r = self.processor.run(ports);
        self.status = r;
        proof {
            self.processor.lemma_shape();
        }
        r
    }

    /// Executes at most `n` instructions, stopping at a halt or a fault. With
    /// `n == 0` nothing is executed and no handler is called. A session that
    /// already halted or faulted reports that status again, executes nothing
    /// and calls no handler.
    pub fn run_n<H: PortHandlers>(&mut self, ports: &mut H, n: u32) -> (r: WasmProcessorContinue)
        requires
            old(self).well_formed(),
        ensures
            final(self).well_formed(),
            final(self).architecture() == old(self).architecture(),
            final(self).status() == r,
            old(self).status() != WasmProcessorContinue::Continue ==> r == old(self).status()
                && *final(self) == *old(self) && *final(ports) == *old(ports),
            old(self).status() == WasmProcessorContinue::Continue && n == 0 ==> r
                == WasmProcessorContinue::Continue && *final(self) == *old(self) && *final(ports)
                == *old(ports),
    {
        if self.status != WasmProcessorContinue::Continue {
            return self.status;
        }
        let r = self.processor.run_n(ports, n);
        self.status = r;
        proof {
            self.processor.lemma_shape();
        }
        r
    }

    /// A snapshot of every segment: text first, then data where the machine
    /// keeps it apart.
    pub fn get_memory(&self) -> (r: Vec<MemoryBlock>)
        requires
            self.well_formed(),
        ensures
            segments_of(r@) == self.memory(),
    {
        self.processor.get_memory()
    }

    /// Writes one cell. False, with the session unchanged, where the machine has
    /// no such segment, `index` lies outside it or `value` does not fit a cell
    /// (the stack machine's text holds six-bit words).
    pub fn set_memory(&mut self, mem_type: MemoryType, index: usize, value: u8) -> (r: bool)
        requires
            old(self).well_formed(),
        ensures
            final(self).well_formed(),
            final(self).architecture() == old(self).architecture(),
            r == write_accepted(
                old(self).memory(),
                mem_type,
                index as int,
                value,
                old(self).machine().cell_limit(mem_type),
            ),
            r ==> final(self).memory() == written(old(self).memory(), mem_type, index as int, value),
            !r ==> *final(self) == *old(self),
            final(self).registers() == old(self).registers(),
            final(self).status() == old(self).status(),
    {
        let r = self.processor.set_memory(mem_type, index, value);
        proof {
            self.processor.lemma_shape();
        }
        r
    }

    /// A snapshot of the registers in the architecture's order.
    pub fn get_registers(&self) -> (r: Vec<RegisterState>)
        ensures
            registers_of(r@) == self.registers(),
    {
        self.processor.get_registers()
    }

    /// The word `n` slots below the top of the machine's stack.
    pub fn peek_stack(&self, n: u8) -> (r: u16)
        requires
            self.well_formed(),
        ensures
            r == peek_value(self.machine().stack_memory(), self.machine().stack_pointer(), n),
    {
        self.processor.peek_stack(n)
    }
}

} // verus!
