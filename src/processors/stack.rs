//! The stack machine: six-bit instruction words in a text memory of its own,
//! bytes in a separate data memory, and a register stack inside data.
use vstd::prelude::*;
use crate::engine::{
    byte_to_word, stack_load, stack_step,
    word_to_byte, word_value,
};
use crate::loader::stack_image_fits;
use crate::memory::{
    block, lemma_two_segments, segments_of, written, MemoryBlock, MemoryType,
    SegmentView,
};
use crate::ports::PortHandlers;
use crate::processor::{read_stack_word, status_of, WasmProcessor, WasmProcessorContinue};
use crate::processors::{initial_memory, initial_registers, register_names, zeroed, ProcessorType};
use crate::registers::{push_register, registers_of, RegisterState, RegisterView};
use monistode_binutils::{Architecture, Executable};
use monistode_emulator::stack_processor::StackProcessor;
use ux::u6;

verus! {

pub struct StackProcessorWrapper {
    processor: StackProcessor,
}

/// The text memory as bytes.
pub open spec fn text_bytes(words: Seq<u6>) -> Seq<u8> {
    words.map_values(|w: u6| word_value(w))
}

impl StackProcessorWrapper {
    pub fn new() -> (r: Self)
        ensures
            r.well_formed(),
            r.architecture() == ProcessorType::Stack,
            r.memory() == initial_memory(ProcessorType::Stack),
            r.registers() == initial_registers(ProcessorType::Stack, 0),
    {
        let r = StackProcessorWrapper { processor: StackProcessor::new() };
        assert(text_bytes(r.processor.text_memory.memory@) =~= zeroed());
        r
    }
}

impl WasmProcessor for StackProcessorWrapper {
    open spec fn architecture(&self) -> ProcessorType {
        ProcessorType::Stack
    }

    closed spec fn well_formed(&self) -> bool {
        &&& self.processor.text_memory.memory@.len() == 65536
        &&& self.processor.data_memory.memory@.len() == 65536
        &&& forall|i: int|
            0 <= i < 65536 ==> word_value(#[trigger] self.processor.text_memory.memory@[i]) < 64
    }

    closed spec fn memory(&self) -> Seq<SegmentView> {
        seq![
            (MemoryType::Text, text_bytes(self.processor.text_memory.memory@)),
            (MemoryType::Data, self.processor.data_memory.memory@),
        ]
    }

    closed spec fn registers(&self) -> Seq<RegisterView> {
        seq![
            ("PC"@, self.processor.registers.pc),
            ("FR"@, self.processor.registers.fr.0),
            ("TOS"@, self.processor.registers.tos),
            ("SP"@, self.processor.registers.sp),
        ]
    }

    open spec fn cell_limit(&self, kind: MemoryType) -> nat {
        match kind {
            MemoryType::Text => 64,
            MemoryType::Data => 256,
        }
    }

    open spec fn stack_memory(&self) -> Seq<u8> {
        self.memory()[1].1
    }

    open spec fn stack_pointer(&self) -> u16 {
        self.registers()[2].1
    }

    open spec fn fits(&self, image: Executable) -> bool {
        crate::loader::stack_image_fits_spec(image)
    }

    closed spec fn shift_overflows(&self) -> bool {
        crate::shifts::stack_shift_overflows(self.processor)
    }

    proof fn lemma_shape(&self) {
        assert(forall|i: int| 0 <= i < 65536 ==> #[trigger] self.memory()[0].1[i] == word_value(
            self.processor.text_memory.memory@[i],
        ));
        assert(register_names(ProcessorType::Stack) =~= self.registers().map_values(|r: RegisterView| r.0));
    }

    fn get_memory(&self) -> (r: Vec<MemoryBlock>) {
        let text = &self.processor.text_memory.memory;
        let mut text_values: Vec<u8> = Vec::new();
        let mut i: usize = 0;
        while i < text.len()
            invariant
                i <= text@.len(),
                text_values@ == text_bytes(text@).take(i as int),
            decreases text@.len() - i,
        {
            text_values.push(word_to_byte(text[i]));
            i = i + 1;
            assert(text_values@ =~= text_bytes(text@).take(i as int));
        }
        assert(text_bytes(text@).take(i as int) =~= text_bytes(text@));
        let data = &self.processor.data_memory.memory;
        let mut data_values: Vec<u8> = Vec::new();
        let mut j: usize = 0;
        while j < data.len()
            invariant
                j <= data@.len(),
                data_values@ == data@.take(j as int),
            decreases data@.len() - j,
        {
            data_values.push(data[j]);
            j = j + 1;
            assert(data_values@ =~= data@.take(j as int));
        }
        assert(data@.take(j as int) =~= data@);
        let mut r: Vec<MemoryBlock> = Vec::new();
        r.push(block(MemoryType::Text, text_values));
        r.push(block(MemoryType::Data, data_values));
        assert(segments_of(r@) =~= self.memory());
        r
    }

    fn set_memory(&mut self, mem_type: MemoryType, index: usize, value: u8) -> (r: bool) {
        proof {
            lemma_two_segments(old(self).memory()[0], old(self).memory()[1], mem_type, index as int, value);
        }
        match mem_type {
            MemoryType::Text => {
                if index >= self.processor.text_memory.memory.len() || value >= 64 {
                    return false;
                }
                let w = byte_to_word(value);
                self.processor.text_memory.memory.set(index, w);
                assert(text_bytes(self.processor.text_memory.memory@) =~= text_bytes(
                    old(self).processor.text_memory.memory@,
                ).update(index as int, value));
                assert(self.memory() =~= written(old(self).memory(), mem_type, index as int, value));
                true
            },
            MemoryType::Data => {
                if index >= self.processor.data_memory.memory.len() {
                    return false;
                }
                self.processor.data_memory.memory.set(index, value);
                assert(self.memory() =~= written(old(self).memory(), mem_type, index as int, value));
                true
            },
        }
    }

    fn get_registers(&self) -> (r: Vec<RegisterState>) {
        let mut r: Vec<RegisterState> = Vec::new();
        push_register(&mut r, "PC", self.processor.registers.pc);
        push_register(&mut r, "FR", self.processor.registers.fr.0);
        push_register(&mut r, "TOS", self.processor.registers.tos);
        push_register(&mut r, "SP", self.processor.registers.sp);
        assert(registers_of(r@) =~= self.registers());
        r
    }

    fn load_image(&mut self, image: &Executable) -> (r: Result<(), String>) {
        match crate::engine::architecture_of(image) {
            Architecture::Stack => {},
            _ => {
                return Err("Invalid architecture".to_string());
            },
        }
        if !stack_image_fits(image) {
            return Err("Executable does not fit in memory".to_string());
        }
        let mut fresh = StackProcessor::new();
        let _ = stack_load(&mut fresh, image);
        self.processor = fresh;
        assert(self.registers() =~= initial_registers(
            ProcessorType::Stack,
            crate::processor::entry_pc(*image),
        ));
        Ok(())
    }

    fn peek_stack(&self, n: u8) -> (r: u16) {
        read_stack_word(&self.processor.data_memory.memory, self.processor.registers.tos, n)
    }

    fn step<H: PortHandlers>(&mut self, ports: &mut H) -> (r: WasmProcessorContinue) {
        if crate::shifts::stack_shift_check(&self.processor) {
            return WasmProcessorContinue::Error;
        }
        status_of(stack_step(&mut self.processor, ports))
    }
}

} // verus!
