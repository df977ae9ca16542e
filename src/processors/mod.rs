//! The four architectures, what each looks like after a reset, and the
//! constructor that picks one.
use vstd::prelude::*;
use crate::engine::{
    acc_loaded_memory, architecture_tag, risc_loaded_memory, stack_loaded_data, stack_loaded_text,
};
use monistode_binutils::Executable;
use monistode_binutils::Architecture;
use crate::memory::{MemoryType, SegmentView};
use crate::processor::{WasmProcessor, WasmProcessorEnum};
use crate::registers::RegisterView;

pub mod acc;
pub mod cisc;
pub mod risc;
pub mod stack;

verus! {

/// The architectures that a session can run.
#[derive(Clone, Copy, Debug, PartialEq, Eq, Structural)]
pub enum ProcessorType {
    Stack,
    Acc,
    Risc,
    Cisc,
}

/// The tag byte with which an image declares the architecture; the CISC machine
/// has none, so no image is ever of it.
pub open spec fn image_tag(t: ProcessorType) -> Option<u8> {
    match t {
        ProcessorType::Stack => Some(0u8),
        ProcessorType::Acc => Some(1u8),
        ProcessorType::Risc => Some(2u8),
        ProcessorType::Cisc => None,
    }
}

/// Whether an image's declared architecture is the given one.
pub open spec fn architecture_matches(a: Architecture, t: ProcessorType) -> bool {
    image_tag(t) == Some(architecture_tag(a))
}

/// The registers of a machine right after a reset, with PC at `pc`.
pub open spec fn initial_registers(t: ProcessorType, pc: u16) -> Seq<RegisterView> {
    match t {
        ProcessorType::Stack => seq![
            ("PC"@, pc),
            ("FR"@, 0u16),
            ("TOS"@, 256u16),
            ("SP"@, 1024u16),
        ],
        ProcessorType::Acc => seq![
            ("PC"@, pc),
            ("FR"@, 0u16),
            ("SP"@, 1024u16),
            ("ACC"@, 0u16),
            ("IR1"@, 0u16),
            ("IR2"@, 0u16),
        ],
        ProcessorType::Risc => seq![
            ("PC"@, pc),
            ("FR"@, 0u16),
            ("SP"@, 1024u16),
            ("R00"@, 0u16),
            ("R01"@, 0u16),
            ("R10"@, 0u16),
            ("R11"@, 0u16),
        ],
        ProcessorType::Cisc => seq![
            ("PC"@, pc),
            ("FR"@, 0u16),
            ("SP"@, 1024u16),
            ("BP"@, 0u16),
            ("R00"@, 0u16),
            ("R01"@, 0u16),
            ("R02"@, 0u16),
            ("R03"@, 0u16),
        ],
    }
}

/// The register names of an architecture, in the order snapshots list them.
pub open spec fn register_names(t: ProcessorType) -> Seq<Seq<char>> {
    initial_registers(t, 0).map_values(|r: RegisterView| r.0)
}

/// The layout that a machine of architecture `t` keeps in every state: text
/// first, as 65536 cells (below 64 on the stack machine, whose words have six
/// bits), then, on the stack machine only, 65536 bytes of data; and the
/// architecture's registers, by name, in their fixed order.
pub open spec fn shaped(t: ProcessorType, mem: Seq<SegmentView>, regs: Seq<RegisterView>) -> bool {
    &&& regs.len() == register_names(t).len()
    &&& forall|i: int| 0 <= i < regs.len() ==> #[trigger] regs[i].0 == register_names(t)[i]
    &&& mem.len() >= 1
    &&& mem[0].0 == MemoryType::Text
    &&& mem[0].1.len() == 65536
    &&& match t {
        ProcessorType::Stack => {
            &&& mem.len() == 2
            &&& mem[1].0 == MemoryType::Data
            &&& mem[1].1.len() == 65536
            &&& forall|i: int| 0 <= i < 65536 ==> #[trigger] mem[0].1[i] < 64
        },
        _ => mem.len() == 1,
    }
}

/// 65536 zero bytes.
pub open spec fn zeroed() -> Seq<u8> {
    Seq::new(65536, |i: int| 0u8)
}

/// The segments of a fresh machine: the stack machine keeps text and data
/// apart, the others have one memory for both.
pub open spec fn initial_memory(t: ProcessorType) -> Seq<SegmentView> {
    match t {
        ProcessorType::Stack => seq![(MemoryType::Text, zeroed()), (MemoryType::Data, zeroed())],
        _ => seq![(MemoryType::Text, zeroed())],
    }
}

/// The segments of a fresh machine of architecture `t` after the engine loads
/// `image` (no image is ever loaded on the CISC machine).
pub open spec fn loaded_memory(t: ProcessorType, image: Executable) -> Seq<SegmentView> {
    match t {
        ProcessorType::Stack => seq![
            (MemoryType::Text, stack_loaded_text(image)),
            (MemoryType::Data, stack_loaded_data(image)),
        ],
        ProcessorType::Acc => seq![(MemoryType::Text, acc_loaded_memory(image))],
        ProcessorType::Risc => seq![(MemoryType::Text, risc_loaded_memory(image))],
        ProcessorType::Cisc => initial_memory(ProcessorType::Cisc),
    }
}

/// A fresh machine of the given architecture.
pub fn create_processor(processor_type: ProcessorType) -> (r: WasmProcessorEnum)
    ensures
        r.well_formed(),
        r.architecture() == processor_type,
        r.memory() == initial_memory(processor_type),
        r.registers() == initial_registers(processor_type, 0),
{
    match processor_type {
        ProcessorType::Stack => WasmProcessorEnum::Stack(stack::StackProcessorWrapper::new()),
        ProcessorType::Acc => WasmProcessorEnum::Acc(acc::AccProcessorWrapper::new()),
        ProcessorType::Risc => WasmProcessorEnum::Risc(risc::RiscProcessorWrapper::new()),
        ProcessorType::Cisc => WasmProcessorEnum::Cisc(cisc::CiscProcessorWrapper::new()),
    }
}

/// The name, the description and the architecture of a machine on offer.
pub struct ProcessorMetadata {
    pub name: String,
    pub description: String,
    pub type_: ProcessorType,
}

impl ProcessorMetadata {
    pub fn name(&self) -> (r: String)
        ensures
            r@ == self.name@,
    {
        self.name.clone()
    }

    pub fn description(&self) -> (r: String)
        ensures
            r@ == self.description@,
    {
        self.description.clone()
    }

    pub fn type_(&self) -> (r: ProcessorType)
        ensures
            r == self.type_,
    {
        self.type_
    }
}

/// The catalogue entry of one architecture.
pub open spec fn metadata_of(t: ProcessorType) -> (Seq<char>, Seq<char>) {
    match t {
        ProcessorType::Stack => ("Stack"@, "Stack-based processor"@),
        ProcessorType::Acc => ("Accumulator"@, "Accumulator-based processor"@),
        ProcessorType::Risc => ("RISC"@, "RISC processor"@),
        ProcessorType::Cisc => ("CISC"@, "CISC processor"@),
    }
}

/// The architectures in the order they are offered.
pub open spec fn catalogue() -> Seq<ProcessorType> {
    seq![ProcessorType::Stack, ProcessorType::Acc, ProcessorType::Risc, ProcessorType::Cisc]
}

fn metadata(name: &str, description: &str, type_: ProcessorType) -> (r: ProcessorMetadata)
    ensures
        r.name@ == name@,
        r.description@ == description@,
        r.type_ == type_,
{
    ProcessorMetadata { name: name.to_string(), description: description.to_string(), type_ }
}

/// Every architecture, each once, with its name and description.
pub fn available_processors() -> (r: Vec<ProcessorMetadata>)
    ensures
        r@.len() == catalogue().len(),
        forall|i: int|
            0 <= i < r@.len() ==> {
                &&& (#[trigger] r@[i]).type_ == catalogue()[i]
                &&& (r@[i].name@, r@[i].description@) == metadata_of(catalogue()[i])
            },
{
    let mut r: Vec<ProcessorMetadata> = Vec::new();
    r.push(metadata("Stack", "Stack-based processor", ProcessorType::Stack));
    r.push(metadata("Accumulator", "Accumulator-based processor", ProcessorType::Acc));
    r.push(metadata("RISC", "RISC processor", ProcessorType::Risc));
    r.push(metadata("CISC", "CISC processor", ProcessorType::Cisc));
    r
}

} // verus!
