//! Memory segments as the host sees them: a kind and a sequence of bytes.
use vstd::prelude::*;

verus! {

/// The two kinds of segment: code, and operand storage where the machine keeps
/// it apart from code.
#[derive(Clone, Copy, Debug, PartialEq, Eq, Structural)]
pub enum MemoryType {
    Text,
    Data,
}

/// A snapshot of one segment.
pub struct MemoryBlock {
    pub memory_type: MemoryType,
    pub values: Vec<u8>,
}

/// A segment in the model: its kind and its bytes.
pub type SegmentView = (MemoryType, Seq<u8>);

impl MemoryBlock {
    pub open spec fn segment(&self) -> SegmentView {
        (self.memory_type, self.values@)
    }

    pub fn values(&self) -> (r: Vec<u8>)
        ensures
            r@ == self.values@,
    {
        let mut out: Vec<u8> = Vec::new();
        let mut i: usize = 0;
        while i < self.values.len()
            invariant
                i <= self.values@.len(),
                out@ == self.values@.take(i as int),
            decreases self.values@.len() - i,
        {
            out.push(self.values[i]);
            i = i + 1;
            assert(out@ =~= self.values@.take(i as int));
        }
        assert(self.values@.take(i as int) =~= self.values@);
        out
    }

    pub fn cell_type(&self) -> (r: MemoryType)
        ensures
            r == self.memory_type,
    {
        self.memory_type
    }

    /// The kind's name: "text" or "data".
    pub fn cell_type_name(&self) -> (r: String)
        ensures
            r@ == kind_name(self.memory_type),
    {
        match self.memory_type {
            MemoryType::Text => "text".to_string(),
            MemoryType::Data => "data".to_string(),
        }
    }
}

pub open spec fn kind_name(kind: MemoryType) -> Seq<char> {
    match kind {
        MemoryType::Text => "text"@,
        MemoryType::Data => "data"@,
    }
}

/// The segments of a snapshot, in order.
pub open spec fn segments_of(blocks: Seq<MemoryBlock>) -> Seq<SegmentView> {
    blocks.map_values(|b: MemoryBlock| b.segment())
}

/// The bytes of the first segment of the given kind, if there is one.
pub open spec fn find_segment(segs: Seq<SegmentView>, kind: MemoryType) -> Option<Seq<u8>>
    decreases segs.len(),
{
    if segs.len() == 0 {
        None
    } else if segs[0].0 == kind {
        Some(segs[0].1)
    } else {
        find_segment(segs.drop_first(), kind)
    }
}

/// Whether a write of `value` at `index` of the segment `kind` is accepted:
/// the segment exists, the index lies inside it, and the value fits a cell
/// (`cell_limit` is one more than the largest value a cell holds).
pub open spec fn write_accepted(
    segs: Seq<SegmentView>,
    kind: MemoryType,
    index: int,
    value: u8,
    cell_limit: nat,
) -> bool {
    match find_segment(segs, kind) {
        Some(bytes) => 0 <= index < bytes.len() && value < cell_limit,
        None => false,
    }
}

/// The segments after `value` is written at `index` of the segment `kind`.
pub open spec fn written(segs: Seq<SegmentView>, kind: MemoryType, index: int, value: u8) -> Seq<
    SegmentView,
> {
    segs.map_values(
        |s: SegmentView|
            if s.0 == kind {
                (s.0, s.1.update(index, value))
            } else {
                s
            },
    )
}

/// A snapshot block of the given kind holding a copy of `values`.
pub fn block(kind: MemoryType, values: Vec<u8>) -> (r: MemoryBlock)
    ensures
        r.segment() == (kind, values@),
{
    MemoryBlock { memory_type: kind, values }
}

/// What `find_segment` and `written` give on a memory of one segment.
pub proof fn lemma_one_segment(a: SegmentView, kind: MemoryType, index: int, value: u8)
    ensures
        find_segment(seq![a], kind) == if a.0 == kind {
            Some(a.1)
        } else {
            None::<Seq<u8>>
        },
        written(seq![a], kind, index, value) == seq![
            if a.0 == kind {
                (a.0, a.1.update(index, value))
            } else {
                a
            },
        ],
{
    reveal_with_fuel(find_segment, 2);
    assert(seq![a].drop_first() =~= Seq::<SegmentView>::empty());
    assert(written(seq![a], kind, index, value) =~= seq![
        if a.0 == kind {
            (a.0, a.1.update(index, value))
        } else {
            a
        },
    ]);
}

/// What `find_segment` and `written` give on a memory of two segments.
pub proof fn lemma_two_segments(
    a: SegmentView,
    b: SegmentView,
    kind: MemoryType,
    index: int,
    value: u8,
)
    ensures
        find_segment(seq![a, b], kind) == if a.0 == kind {
            Some(a.1)
        } else if b.0 == kind {
            Some(b.1)
        } else {
            None::<Seq<u8>>
        },
        written(seq![a, b], kind, index, value) == seq![
            if a.0 == kind {
                (a.0, a.1.update(index, value))
            } else {
                a
            },
            if b.0 == kind {
                (b.0, b.1.update(index, value))
            } else {
                b
            },
        ],
{
    reveal_with_fuel(find_segment, 3);
    assert(seq![a, b].drop_first() =~= seq![b]);
    assert(seq![b].drop_first() =~= Seq::<SegmentView>::empty());
    assert(written(seq![a, b], kind, index, value) =~= seq![
        if a.0 == kind {
            (a.0, a.1.update(index, value))
        } else {
            a
        },
        if b.0 == kind {
            (b.0, b.1.update(index, value))
        } else {
            b
        },
    ]);
}

} // verus!
