//! Facts about the memory and stack models that hold across calls.
use vstd::prelude::*;
use crate::memory::{
    find_segment, lemma_one_segment, lemma_two_segments, write_accepted, written, MemoryType,
    SegmentView,
};
use crate::processors::{shaped, ProcessorType};
use crate::registers::RegisterView;
use crate::processor::peek_value;

verus! {

/// A write at an index at or past the end of its segment is refused; with the
/// contract of `set_memory` (a refused write changes nothing) a snapshot taken
/// afterwards shows no change at any offset.
pub proof fn lemma_out_of_range_write_refused(
    segs: Seq<SegmentView>,
    kind: MemoryType,
    index: int,
    value: u8,
    cell_limit: nat,
)
    requires
        find_segment(segs, kind) is Some ==> index >= find_segment(segs, kind)->0.len(),
    ensures
        !write_accepted(segs, kind, index, value, cell_limit),
{
}

/// After an accepted write, reading the segment back shows the written value at
/// the written offset and the old bytes everywhere else.
pub proof fn lemma_write_then_read(
    segs: Seq<SegmentView>,
    kind: MemoryType,
    index: int,
    value: u8,
    cell_limit: nat,
)
    requires
        write_accepted(segs, kind, index, value, cell_limit),
    ensures
        find_segment(written(segs, kind, index, value), kind) == Some(
            find_segment(segs, kind)->0.update(index, value),
        ),
        find_segment(written(segs, kind, index, value), kind)->0[index] == value,
    decreases segs.len(),
{
    let after = written(segs, kind, index, value);
    if segs[0].0 != kind {
        assert(after.drop_first() =~= written(segs.drop_first(), kind, index, value));
        lemma_write_then_read(segs.drop_first(), kind, index, value, cell_limit);
    }
}

/// The stack pointer after a push onto a downward-growing stack: two bytes
/// lower, wrapping below zero.
pub open spec fn pushed_pointer(pointer: u16) -> u16 {
    ((pointer as int - 2) % 65536) as u16
}

/// The memory after pushing `value`: its high byte at the new stack pointer,
/// its low byte at the next address (wrapping at the end of memory).
pub open spec fn pushed_memory(mem: Seq<u8>, pointer: u16, value: u16) -> Seq<u8> {
    let top = pushed_pointer(pointer) as int;
    mem.update(top, (value / 256) as u8).update((top + 1) % 65536, (value % 256) as u8)
}

/// Right after a push, peeking at depth 0 reads the pushed value back.
pub proof fn lemma_peek_after_push(mem: Seq<u8>, pointer: u16, value: u16)
    requires
        mem.len() == 65536,
    ensures
        peek_value(pushed_memory(mem, pointer, value), pushed_pointer(pointer), 0) == value,
{
    let top = pushed_pointer(pointer) as int;
    let after = pushed_memory(mem, pointer, value);
    assert(top % 65536 == top);
    assert((top + 1) % 65536 != top);
    assert(after[top] == (value / 256) as u8);
    assert(after[(top + 1) % 65536] == (value % 256) as u8);
}

/// On a machine of any architecture, Text is the first segment; only the stack
/// machine has a Data segment, the second. So a Text write at an index below
/// 65536 is in range everywhere, and a Data write is refused except on the
/// stack machine.
pub proof fn lemma_segments_of_shape(t: ProcessorType, mem: Seq<SegmentView>, regs: Seq<RegisterView>)
    requires
        shaped(t, mem, regs),
    ensures
        find_segment(mem, MemoryType::Text) == Some(mem[0].1),
        t == ProcessorType::Stack ==> find_segment(mem, MemoryType::Data) == Some(mem[1].1),
        t != ProcessorType::Stack ==> find_segment(mem, MemoryType::Data) is None,
{
    if t == ProcessorType::Stack {
        assert(mem =~= seq![mem[0], mem[1]]);
        lemma_two_segments(mem[0], mem[1], MemoryType::Text, 0, 0);
        lemma_two_segments(mem[0], mem[1], MemoryType::Data, 0, 0);
    } else {
        assert(mem =~= seq![mem[0]]);
        lemma_one_segment(mem[0], MemoryType::Text, 0, 0);
        lemma_one_segment(mem[0], MemoryType::Data, 0, 0);
    }
}

} // verus!
