//! The emulator engine and the executable loader, as this library sees them.
//!
//! The processors of `monistode_emulator` expose their memory and registers as
//! public fields, so Verus reads those fields directly. What the engine computes
//! (one instruction, loading an image) and what the loader parses are trusted
//! calls, each stated below with what the crates' sources show.
use vstd::prelude::*;
use crate::loader::image_frame_ok;
use crate::ports::{port_input_value, PortHandlers};
use crate::shifts::{acc_shift_overflows, cisc_shift_overflows, risc_shift_overflows, stack_shift_overflows};
use monistode_binutils::{Architecture, Executable, Serializable, SerializationError};
use monistode_emulator::acc_processor::{AccProcessor, AccProcessorFlagRegister, AccRegisters};
use monistode_emulator::cisc_processor::{CiscProcessor, CiscProcessorFlagRegister, CiscRegisters};
use monistode_emulator::common::{Processor, ProcessorContinue};
use monistode_emulator::memory::Memory;
use monistode_emulator::risc_processor::{RiscProcessor, RiscProcessorFlagRegister, RiscRegisters};
use monistode_emulator::stack_processor::{StackProcessor, StackProcessorFlagRegister, StackProcessorRegisters};
use ux::u6;

verus! {

// ---------------------------------------------------------------------------
// Types of the engine
// ---------------------------------------------------------------------------

#[verifier::external_type_specification]
#[verifier::external_body]
pub struct ExSixBitWord(u6);

#[verifier::external_type_specification]
#[verifier::reject_recursive_types(T)]
pub struct ExMemory<T>(Memory<T>);

#[verifier::external_type_specification]
pub struct ExProcessorContinue(ProcessorContinue);

#[verifier::external_type_specification]
pub struct ExStackFlags(StackProcessorFlagRegister);

#[verifier::external_type_specification]
pub struct ExStackRegisters(StackProcessorRegisters);

#[verifier::external_type_specification]
pub struct ExStackProcessor(StackProcessor);

#[verifier::external_type_specification]
pub struct ExAccFlags(AccProcessorFlagRegister);

#[verifier::external_type_specification]
pub struct ExAccRegisters(AccRegisters);

#[verifier::external_type_specification]
pub struct ExAccProcessor(AccProcessor);

#[verifier::external_type_specification]
pub struct ExRiscFlags(RiscProcessorFlagRegister);

#[verifier::external_type_specification]
pub struct ExRiscRegisters(RiscRegisters);

#[verifier::external_type_specification]
pub struct ExRiscProcessor(RiscProcessor);

#[verifier::external_type_specification]
pub struct ExCiscFlags(CiscProcessorFlagRegister);

#[verifier::external_type_specification]
pub struct ExCiscRegisters(CiscRegisters);

#[verifier::external_type_specification]
pub struct ExCiscProcessor(CiscProcessor);

// ---------------------------------------------------------------------------
// Types of the loader
// ---------------------------------------------------------------------------

#[verifier::external_type_specification]
pub struct ExArchitecture(Architecture);

#[verifier::external_type_specification]
pub struct ExSerializationError(SerializationError);

#[verifier::external_type_specification]
#[verifier::external_body]
pub struct ExExecutable(Executable);

// ---------------------------------------------------------------------------
// Six-bit instruction words
// ---------------------------------------------------------------------------

/// The number that a six-bit word holds.
pub uninterp spec fn word_value(w: u6) -> u8;

/// Relies on ux's `From<u6> for u8`: it returns the word's value, which is below 64.
#[verifier::external_body]
pub(crate) fn word_to_byte(w: u6) -> (r: u8)
    ensures
        r == word_value(w),
        r < 64,
{
    u8::from(w)
}

/// Relies on `u6::new`: it holds the given value, and panics above 63.
#[verifier::external_body]
pub(crate) fn byte_to_word(b: u8) -> (r: u6)
    requires
        b < 64,
    ensures
        word_value(r) == b,
{
    u6::new(b)
}

// ---------------------------------------------------------------------------
// Fresh processors
// ---------------------------------------------------------------------------

/// Relies on `StackProcessor::new`: 65536 zero words of text, 65536 zero bytes of
/// data, and the reset registers.
pub assume_specification[ StackProcessor::new ]() -> (r: StackProcessor)
    ensures
        r.text_memory.memory@.len() == 65536,
        forall|i: int| 0 <= i < 65536 ==> word_value(#[trigger] r.text_memory.memory@[i]) == 0,
        r.data_memory.memory@ == Seq::new(65536, |i: int| 0u8),
        r.registers.pc == 0,
        r.registers.fr.0 == 0,
        r.registers.tos == 256,
        r.registers.sp == 1024,
;

/// Relies on `AccProcessor::new`: 65536 zero bytes and the reset registers.
pub assume_specification[ AccProcessor::new ]() -> (r: AccProcessor)
    ensures
        r.memory.memory@ == Seq::new(65536, |i: int| 0u8),
        r.registers.pc == 0,
        r.registers.fr.0 == 0,
        r.registers.sp == 1024,
        r.registers.acc == 0,
        r.registers.ir1 == 0,
        r.registers.ir2 == 0,
;

/// Relies on `RiscProcessor::new`: 65536 zero bytes and the reset registers.
pub assume_specification[ RiscProcessor::new ]() -> (r: RiscProcessor)
    ensures
        r.memory.memory@ == Seq::new(65536, |i: int| 0u8),
        r.registers.pc == 0,
        r.registers.fr.0 == 0,
        r.registers.sp == 1024,
        r.registers.r@ == seq![0u16, 0u16, 0u16, 0u16],
;

/// Relies on `CiscProcessor::new`: 65536 zero bytes and the reset registers.
pub assume_specification[ CiscProcessor::new ]() -> (r: CiscProcessor)
    ensures
        r.memory.memory@ == Seq::new(65536, |i: int| 0u8),
        r.registers.pc == 0,
        r.registers.fr.0 == 0,
        r.registers.sp == 1024,
        r.registers.bp == 0,
        r.registers.r@ == seq![0u16, 0u16, 0u16, 0u16],
;

// ---------------------------------------------------------------------------
// One instruction
//
// Each engine shifts by an operand of the program without masking it, so a
// shift by 16 or more overflows inside the engine (a panic in builds with
// overflow checks); a state whose next instruction does so is left out.
// ---------------------------------------------------------------------------

/// Relies on the stack engine's `run_command`: it executes one instruction and
/// only indexes its memories, which keep their lengths (every address is a
/// `u16`, so 65536 cells leave no index out of range). Port operations go to
/// `ports` in the order the instruction issues them.
#[verifier::external_body]
pub(crate) fn stack_step<H: PortHandlers>(p: &mut StackProcessor, ports: &mut H) -> (r: ProcessorContinue)
    requires
        old(p).text_memory.memory@.len() == 65536,
        old(p).data_memory.memory@.len() == 65536,
        !stack_shift_overflows(*old(p)),
    ensures
        final(p).text_memory.memory@.len() == old(p).text_memory.memory@.len(),
        final(p).data_memory.memory@.len() == old(p).data_memory.memory@.len(),
        forall|i: int|
            0 <= i < final(p).text_memory.memory@.len() ==> word_value(
                #[trigger] final(p).text_memory.memory@[i],
            ) < 64,
{
    let ports = std::cell::RefCell::new(ports);
    p.run_command(
        |port, value| ports.borrow_mut().output(port, value),
        |port| port_input_value(ports.borrow_mut().input(port)),
    )
}

/// Relies on the accumulator engine's `run_command`: it executes one instruction
/// and only indexes its memory, which keeps its length.
#[verifier::external_body]
pub(crate) fn acc_step<H: PortHandlers>(p: &mut AccProcessor, ports: &mut H) -> (r: ProcessorContinue)
    requires
        old(p).memory.memory@.len() == 65536,
        !acc_shift_overflows(*old(p)),
    ensures
        final(p).memory.memory@.len() == old(p).memory.memory@.len(),
{
    let ports = std::cell::RefCell::new(ports);
    p.run_command(
        |port, value| ports.borrow_mut().output(port, value),
        |port| port_input_value(ports.borrow_mut().input(port)),
    )
}

/// Relies on the RISC engine's `run_command`: it executes one instruction and
/// only indexes its memory, which keeps its length.
#[verifier::external_body]
pub(crate) fn risc_step<H: PortHandlers>(p: &mut RiscProcessor, ports: &mut H) -> (r: ProcessorContinue)
    requires
        old(p).memory.memory@.len() == 65536,
        !risc_shift_overflows(*old(p)),
    ensures
        final(p).memory.memory@.len() == old(p).memory.memory@.len(),
{
    let ports = std::cell::RefCell::new(ports);
    p.run_command(
        |port, value| ports.borrow_mut().output(port, value),
        |port| port_input_value(ports.borrow_mut().input(port)),
    )
}

/// Relies on the CISC engine's `run_command`: it executes one instruction and
/// only indexes its memory, which keeps its length.
#[verifier::external_body]
pub(crate) fn cisc_step<H: PortHandlers>(p: &mut CiscProcessor, ports: &mut H) -> (r: ProcessorContinue)
    requires
        old(p).memory.memory@.len() == 65536,
        !cisc_shift_overflows(*old(p)),
    ensures
        final(p).memory.memory@.len() == old(p).memory.memory@.len(),
{
    let ports = std::cell::RefCell::new(ports);
    p.run_command(
        |port, value| ports.borrow_mut().output(port, value),
        |port| port_input_value(ports.borrow_mut().input(port)),
    )
}

// ---------------------------------------------------------------------------
// Executable images
// ---------------------------------------------------------------------------

/// What the loader reads of one segment of an image: where it starts, how many
/// cells it fills, how many bits it carries, and two of its flags.
#[derive(Clone, Copy)]
pub struct SegmentInfo {
    pub start: u64,
    pub size: u64,
    pub bits: usize,
    pub executable: bool,
    pub readable: bool,
}

/// Whether the loader accepts `data` as an image.
pub uninterp spec fn parses(data: Seq<u8>) -> bool;

/// The image that the loader makes of `data`.
pub uninterp spec fn parsed_image(data: Seq<u8>) -> Executable;

/// The architecture that an image declares.
pub uninterp spec fn image_architecture(e: Executable) -> Architecture;

/// The entry point that an image declares.
pub uninterp spec fn image_entry(e: Executable) -> u64;

/// The segments of an image, in the order the image lists them.
pub uninterp spec fn image_layout(e: Executable) -> Seq<SegmentInfo>;

/// The byte with which an image declares an architecture.
pub open spec fn architecture_tag(a: Architecture) -> u8 {
    match a {
        Architecture::Stack => 0,
        Architecture::Accumulator => 1,
        Architecture::Risc => 2,
    }
}

/// Relies on `Executable::deserialize` (monistode-binutils): its result depends
/// on the bytes alone; an image starts with a 17-byte header whose first byte
/// is the architecture tag (0, 1 or 2), and a shorter input or another tag is
/// an error. The parser slices and adds the sizes that the image declares
/// without checking them first, so it is only handed images whose declared
/// sizes stay inside the data.
#[verifier::external_body]
pub(crate) fn parse_image(data: &[u8]) -> (r: Result<(usize, Executable), SerializationError>)
    requires
        image_frame_ok(data@),
    ensures
        r is Ok <==> parses(data@),
        r is Ok ==> r->Ok_0.1 == parsed_image(data@),
        r is Ok ==> data@.len() >= 17 && architecture_tag(image_architecture(r->Ok_0.1)) == data@[0],
{
    Executable::deserialize(data)
}

/// Relies on `Executable::architecture`.
#[verifier::external_body]
pub(crate) fn architecture_of(e: &Executable) -> (r: Architecture)
    ensures
        r == image_architecture(*e),
{
    e.architecture()
}

/// Relies on `Executable::segments`; each segment's public fields
/// `address_space_start`, `address_space_size` and `flags` are copied, and
/// its bit count is bitvec's `BitVec::len` of the field `data`.
#[verifier::external_body]
pub(crate) fn layout_of(e: &Executable) -> (r: Vec<SegmentInfo>)
    ensures
        r@ == image_layout(*e),
{
    e.segments()
        .iter()
        .map(|s| SegmentInfo {
            start: s.address_space_start,
            size: s.address_space_size,
            bits: s.data.len(),
            executable: s.flags.executable,
            readable: s.flags.readable,
        })
        .collect()
}

/// The text of a fresh stack machine, as bytes, after the engine loads `e`.
pub uninterp spec fn stack_loaded_text(e: Executable) -> Seq<u8>;

/// The data of a fresh stack machine after the engine loads `e`.
pub uninterp spec fn stack_loaded_data(e: Executable) -> Seq<u8>;

/// The memory of a fresh accumulator machine after the engine loads `e`.
pub uninterp spec fn acc_loaded_memory(e: Executable) -> Seq<u8>;

/// The memory of a fresh RISC machine after the engine loads `e`.
pub uninterp spec fn risc_loaded_memory(e: Executable) -> Seq<u8>;

/// Whether the stack engine can copy a segment without leaving its memories:
/// an executable segment is read as six-bit words into text, a readable one as
/// bytes into data; others are skipped.
pub open spec fn stack_segment_fits(s: SegmentInfo) -> bool {
    let start = s.start as int;
    let size = s.size as int;
    let bits = s.bits as int;
    &&& s.executable ==> (size == 0 || start + size <= 65536) && 6 * size <= bits
    &&& (!s.executable && s.readable) ==> (size == 0 || start + size <= 65536) && 8 * size <= bits
        + 7
}

/// Whether a byte-addressed engine can copy a segment into its 65536 bytes.
pub open spec fn byte_segment_fits(s: SegmentInfo) -> bool {
    let start = s.start as int;
    let size = s.size as int;
    &&& size == 0 || start + size <= 65536
    &&& 8 * size <= s.bits as int
}

/// Relies on the stack engine's `load_executable`: on a fresh machine and for a
/// stack image it copies
/// the segments into text and data (indexing them, so their lengths stay), sets
/// PC to the entry point, leaves the other registers, and succeeds. A segment
/// that does not fit would make it index out of range.
#[verifier::external_body]
pub(crate) fn stack_load(p: &mut StackProcessor, e: &Executable) -> (r: Result<(), String>)
    requires
        image_architecture(*e) == Architecture::Stack,
        forall|i: int|
            0 <= i < image_layout(*e).len() ==> stack_segment_fits(#[trigger] image_layout(*e)[i]),
        old(p).text_memory.memory@.len() == 65536,
        forall|i: int| 0 <= i < 65536 ==> word_value(#[trigger] old(p).text_memory.memory@[i]) == 0,
        old(p).data_memory.memory@ == Seq::new(65536, |i: int| 0u8),
    ensures
        r is Ok,
        final(p).text_memory.memory@.map_values(|w: u6| word_value(w)) == stack_loaded_text(*e),
        final(p).data_memory.memory@ == stack_loaded_data(*e),
        final(p).text_memory.memory@.len() == 65536,
        final(p).data_memory.memory@.len() == 65536,
        forall|i: int| 0 <= i < 65536 ==> word_value(#[trigger] final(p).text_memory.memory@[i]) < 64,
        final(p).registers.pc as int == image_entry(*e) % 65536,
        final(p).registers.fr == old(p).registers.fr,
        final(p).registers.tos == old(p).registers.tos,
        final(p).registers.sp == old(p).registers.sp,
{
    p.load_executable(e)
}

/// Relies on the accumulator engine's `load_executable`: on a fresh machine and
/// for an accumulator image it copies the segments into memory as bytes, sets PC to the entry
/// point, leaves the other registers, and succeeds.
#[verifier::external_body]
pub(crate) fn acc_load(p: &mut AccProcessor, e: &Executable) -> (r: Result<(), String>)
    requires
        image_architecture(*e) == Architecture::Accumulator,
        forall|i: int|
            0 <= i < image_layout(*e).len() ==> byte_segment_fits(#[trigger] image_layout(*e)[i]),
        old(p).memory.memory@ == Seq::new(65536, |i: int| 0u8),
    ensures
        r is Ok,
        final(p).memory.memory@ == acc_loaded_memory(*e),
        final(p).memory.memory@.len() == 65536,
        final(p).registers.pc as int == image_entry(*e) % 65536,
        final(p).registers.fr == old(p).registers.fr,
        final(p).registers.sp == old(p).registers.sp,
        final(p).registers.acc == old(p).registers.acc,
        final(p).registers.ir1 == old(p).registers.ir1,
        final(p).registers.ir2 == old(p).registers.ir2,
{
    p.load_executable(e)
}

/// Relies on the RISC engine's `load_executable`: on a fresh machine and for a
/// RISC image it copies the
/// segments into memory as bytes, sets PC to the entry point, leaves the other
/// registers, and succeeds.
#[verifier::external_body]
pub(crate) fn risc_load(p: &mut RiscProcessor, e: &Executable) -> (r: Result<(), String>)
    requires
        image_architecture(*e) == Architecture::Risc,
        forall|i: int|
            0 <= i < image_layout(*e).len() ==> byte_segment_fits(#[trigger] image_layout(*e)[i]),
        old(p).memory.memory@ == Seq::new(65536, |i: int| 0u8),
    ensures
        r is Ok,
        final(p).memory.memory@ == risc_loaded_memory(*e),
        final(p).memory.memory@.len() == 65536,
        final(p).registers.pc as int == image_entry(*e) % 65536,
        final(p).registers.fr == old(p).registers.fr,
        final(p).registers.sp == old(p).registers.sp,
        final(p).registers.r == old(p).registers.r,
{
    p.load_executable(e)
}

} // verus!
