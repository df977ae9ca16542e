//! The CISC machine: one byte-addressed memory for code and data, with the
//! stack growing downward from SP inside it.
use vstd::prelude::*;
use crate::engine::cisc_step;
use crate::memory::{
    block, lemma_one_segment, segments_of, written, MemoryBlock, MemoryType,
    SegmentView,
};
use crate::ports::PortHandlers;
use crate::processor::{read_stack_word, status_of, WasmProcessor, WasmProcessorContinue};
use crate::processors::{initial_memory, initial_registers, register_names, ProcessorType};
use crate::registers::{push_register, registers_of, RegisterState, RegisterView};
use monistode_binutils::Executable;
use monistode_emulator::cisc_processor::CiscProcessor;

verus! {

pub struct CiscProcessorWrapper {
    processor: CiscProcessor,
}

impl CiscProcessorWrapper {
    pub fn new() -> (r: Self)
        ensures
            r.well_formed(),
            r.architecture() == ProcessorType::Cisc,
            r.memory() == initial_memory(ProcessorType::Cisc),
            r.registers() == initial_registers(ProcessorType::Cisc, 0),
    {
        let r = CiscProcessorWrapper { processor: CiscProcessor::new() };
        assert(r.registers() =~= initial_registers(ProcessorType::Cisc, 0));
        r
    }
}

impl WasmProcessor for CiscProcessorWrapper {
    open spec fn architecture(&self) -> ProcessorType {
        ProcessorType::Cisc
    }

    closed spec fn well_formed(&self) -> bool {
        self.processor.memory.memory@.len() == 65536
    }

    closed spec fn memory(&self) -> Seq<SegmentView> {
        seq![(MemoryType::Text, self.processor.memory.memory@)]
    }

    closed spec fn registers(&self) -> Seq<RegisterView> {
        seq![
            ("PC"@, self.processor.registers.pc),
            ("FR"@, self.processor.registers.fr.0 as u16),
            ("SP"@, self.processor.registers.sp),
            ("BP"@, self.processor.registers.bp),
            ("R00"@, self.processor.registers.r@[0]),
            ("R01"@, self.processor.registers.r@[1]),
            ("R02"@, self.processor.registers.r@[2]),
            ("R03"@, self.processor.registers.r@[3]),
        ]
    }

    open spec fn cell_limit(&self, kind: MemoryType) -> nat {
        256
    }

    open spec fn stack_memory(&self) -> Seq<u8> {
        self.memory()[0].1
    }

    open spec fn stack_pointer(&self) -> u16 {
        self.registers()[2].1
    }

    open spec fn fits(&self, image: Executable) -> bool {
        true
    }

    closed spec fn shift_overflows(&self) -> bool {
        crate::shifts::cisc_shift_overflows(self.processor)
    }

    proof fn lemma_shape(&self) {
        assert(register_names(ProcessorType::Cisc) =~= self.registers().map_values(|r: RegisterView| r.0));
    }

    fn get_memory(&self) -> (r: Vec<MemoryBlock>) {
        let memory = &self.processor.memory.memory;
        let mut values: Vec<u8> = Vec::new();
        let mut i: usize = 0;
        while i < memory.len()
            invariant
                i <= memory@.len(),
                values@ == memory@.take(i as int),
            decreases memory@.len() - i,
        {
            values.push(memory[i]);
            i = i + 1;
            assert(values@ =~= memory@.take(i as int));
        }
        assert(memory@.take(i as int) =~= memory@);
        let mut r: Vec<MemoryBlock> = Vec::new();
        r.push(block(MemoryType::Text, values));
        assert(segments_of(r@) =~= self.memory());
        r
    }

    fn set_memory(&mut self, mem_type: MemoryType, index: usize, value: u8) -> (r: bool) {
        proof {
            lemma_one_segment(old(self).memory()[0], mem_type, index as int, value);
        }
        match mem_type {
            MemoryType::Text => {
                if index >= self.processor.memory.memory.len() {
                    return false;
                }
                self.processor.memory.memory.set(index, value);
                assert(self.memory() =~= written(old(self).memory(), mem_type, index as int, value));
                true
            },
            MemoryType::Data => false,
        }
    }

    fn get_registers(&self) -> (r: Vec<RegisterState>) {
        let mut r: Vec<RegisterState> = Vec::new();
        push_register(&mut r, "PC", self.processor.registers.pc);
        push_register(&mut r, "FR", self.processor.registers.fr.0 as u16);
        push_register(&mut r, "SP", self.processor.registers.sp);
        push_register(&mut r, "BP", self.processor.registers.bp);
        push_register(&mut r, "R00", self.processor.registers.r[0]);
        push_register(&mut r, "R01", self.processor.registers.r[1]);
        push_register(&mut r, "R02", self.processor.registers.r[2]);
        push_register(&mut r, "R03", self.processor.registers.r[3]);
        assert(registers_of(r@) =~= self.registers());
        r
    }

    fn load_image(&mut self, image: &Executable) -> (r: Result<(), String>) {
        // The engine has no loader for this machine, and no image can declare it.
        Err("Invalid architecture".to_string())
    }

    fn peek_stack(&self, n: u8) -> (r: u16) {
        read_stack_word(&self.processor.memory.memory, self.processor.registers.sp, n)
    }

    fn step<H: PortHandlers>(&mut self, ports: &mut H) -> (r: WasmProcessorContinue) {
        if crate::shifts::cisc_shift_check(&self.processor) {
            return WasmProcessorContinue::Error;
        }
        status_of(cisc_step(&mut self.processor, ports))
    }
}

} // verus!
