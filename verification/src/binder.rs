//! Buffers, bind-group layouts and bind groups.
//!
//! A buffer is byte-addressable memory with a usage tag; three roles appear
//! in the compute workflow: storage inputs that are also copy sources, and a
//! host-mappable staging buffer that receives the copy.  A layout is an
//! ordered list of binding slots; a bind group assigns one buffer to each
//! declared slot with a matching access mode.  Building a bind group checks
//! that every declared slot is satisfied by exactly one assignment and that
//! no assignment's access mode conflicts with its slot's.

use vstd::prelude::*;

verus! {

/// Usage roles a buffer is created with.
#[derive(Clone, Copy, Debug, PartialEq, Eq, Structural)]
pub struct BufferUsage {
    /// Readable and writable by kernels as a storage binding.
    pub storage: bool,
    /// May serve as the source of a buffer-to-buffer copy.
    pub copy_source: bool,
    /// May serve as the destination of a buffer-to-buffer copy.
    pub copy_destination: bool,
    /// May be mapped for host reads after device completion.
    pub host_mappable: bool,
}

/// A device buffer, modelled by the bytes it holds and its usage roles.
pub struct Buffer {
    pub usage: BufferUsage,
    pub data: Vec<u8>,
}

impl Buffer {
    /// Byte size the buffer was created with.
    pub open spec fn size(self) -> nat {
        self.data@.len()
    }
}

/// Creates a buffer pre-populated with host data; its size is exactly the
/// byte length of the data.
pub fn upload(bytes: Vec<u8>, usage: BufferUsage) -> (buffer: Buffer)
    ensures
        buffer.data@ == bytes@,
        buffer.usage == usage,
{
    Buffer { usage, data: bytes }
}

/// Creates an empty (zero-filled) host-mappable, copy-destination staging
/// buffer of the given size.
pub fn allocate_staging(size: usize) -> (buffer: Buffer)
    ensures
        buffer.data@.len() == size,
        forall|i: int| 0 <= i < size ==> buffer.data@[i] == 0u8,
        buffer.usage == (BufferUsage {
            storage: false,
            copy_source: false,
            copy_destination: true,
            host_mappable: true,
        }),
{
    let mut data: Vec<u8> = Vec::new();
    let mut i: usize = 0;
    while i < size
        invariant
            i <= size,
            data@.len() == i,
            forall|k: int| 0 <= k < i ==> data@[k] == 0u8,
        decreases size - i,
    {
        data.push(0u8);
        i = i + 1;
    }
    Buffer {
        usage: BufferUsage {
            storage: false,
            copy_source: false,
            copy_destination: true,
            host_mappable: true,
        },
        data,
    }
}

/// Copies the first `byte_length` bytes of `source` over the front of
/// `destination`, leaving the rest of the destination untouched; both
/// buffers must carry the matching copy roles.
pub fn copy_buffer_to_buffer(source: &Buffer, destination: &mut Buffer, byte_length: usize)
    requires
        source.usage.copy_source,
        old(destination).usage.copy_destination,
        byte_length <= source.data@.len(),
        byte_length <= old(destination).data@.len(),
    ensures
        final(destination).usage == old(destination).usage,
        final(destination).data@ == source.data@.take(byte_length as int)
            + old(destination).data@.skip(byte_length as int),
{
    let mut i: usize = 0;
    while i < byte_length
        invariant
            i <= byte_length,
            byte_length <= source.data@.len(),
            byte_length <= destination.data@.len(),
            destination.usage == old(destination).usage,
            destination.data@.len() == old(destination).data@.len(),
            forall|k: int| 0 <= k < i ==> destination.data@[k] == source.data@[k],
            forall|k: int| i <= k < destination.data@.len()
                ==> destination.data@[k] == old(destination).data@[k],
        decreases byte_length - i,
    {
        destination.data[i] = source.data[i];
        i = i + 1;
    }
    assert(destination.data@ =~= source.data@.take(byte_length as int)
        + old(destination).data@.skip(byte_length as int));
}

/// Kernel stage a binding slot is visible to.
#[derive(Clone, Copy, Debug, PartialEq, Eq, Structural)]
pub enum StageVisibility {
    Compute,
    Vertex,
    Fragment,
}

/// Access mode a slot declares for its buffer.
#[derive(Clone, Copy, Debug, PartialEq, Eq, Structural)]
pub enum AccessMode {
    ReadWrite,
    ReadOnly,
}

/// One binding slot of a kernel's declared interface.
#[derive(Clone, Copy, Debug, PartialEq, Eq, Structural)]
pub struct BindingSlot {
    pub index: u32,
    pub visibility: StageVisibility,
    pub access: AccessMode,
}

/// An ordered set of binding slots, mirroring a kernel's declared binding
/// order exactly.
pub struct BindGroupLayout {
    pub slots: Vec<BindingSlot>,
}

/// Builds a layout whose slots are exactly the given ordered slot list; no
/// implicit slot inference takes place.
pub fn build_layout(slots: Vec<BindingSlot>) -> (layout: BindGroupLayout)
    ensures
        layout.slots@ == slots@,
{
    BindGroupLayout { slots }
}

/// One buffer assignment of a bind group: the slot index it fills, the
/// access mode it claims, and the buffer itself.
pub struct BindGroupEntry {
    pub index: u32,
    pub access: AccessMode,
    pub buffer: Buffer,
}

/// A concrete assignment of buffers to a layout's slots.
pub struct BindGroup {
    pub entries: Vec<BindGroupEntry>,
}

/// Why a bind group could not be built.
#[derive(Clone, Copy, Debug, PartialEq, Eq, Structural)]
pub enum BindingMismatchError {
    /// A declared slot has no assignment with its index.
    MissingSlot { index: u32 },
    /// A declared slot is claimed by more than one assignment.
    DuplicateAssignment { index: u32 },
    /// The assignment for a slot claims a different access mode than the
    /// slot declares.
    AccessConflict { index: u32 },
}

/// How many assignments claim the given slot index.
pub open spec fn match_count(entries: Seq<BindGroupEntry>, index: u32) -> nat
    decreases entries.len(),
{
    if entries.len() == 0 {
        0
    } else {
        match_count(entries.drop_last(), index)
            + if entries.last().index == index { 1nat } else { 0nat }
    }
}

/// Whether some assignment claims the slot index with a conflicting access
/// mode.
pub open spec fn has_conflict(entries: Seq<BindGroupEntry>, slot: BindingSlot) -> bool {
    exists|j: int|
        0 <= j < entries.len() && entries[j].index == slot.index
            && entries[j].access != slot.access
}

/// The verdict on one declared slot: the error it raises, or none.
pub open spec fn slot_error(
    slot: BindingSlot,
    entries: Seq<BindGroupEntry>,
) -> Option<BindingMismatchError> {
    if match_count(entries, slot.index) == 0 {
        Some(BindingMismatchError::MissingSlot { index: slot.index })
    } else if match_count(entries, slot.index) > 1 {
        Some(BindingMismatchError::DuplicateAssignment { index: slot.index })
    } else if has_conflict(entries, slot) {
        Some(BindingMismatchError::AccessConflict { index: slot.index })
    } else {
        None
    }
}

/// Whether every declared slot is satisfied by exactly one assignment with
/// the declared access mode.
pub open spec fn slots_satisfied(slots: Seq<BindingSlot>, entries: Seq<BindGroupEntry>) -> bool {
    forall|i: int| 0 <= i < slots.len() ==> slot_error(slots[i], entries) is None
}

/// Builds a bind group from a layout and buffer assignments.  Succeeds
/// exactly when every declared slot is satisfied by exactly one assignment
/// whose access mode matches; otherwise reports the verdict of the first
/// failing slot in declaration order.
pub fn build_bind_group(layout: &BindGroupLayout, entries: Vec<BindGroupEntry>) -> (result: Result<
    BindGroup,
    BindingMismatchError,
>)
    ensures
        result is Ok <==> slots_satisfied(layout.slots@, entries@),
        result matches Ok(group) ==> group.entries@ == entries@,
        result matches Err(e) ==> exists|i: int|
            {
                &&& 0 <= i < layout.slots@.len()
                &&& slot_error(layout.slots@[i], entries@) == Some(e)
                &&& forall|k: int| 0 <= k < i ==> #[trigger] slot_error(layout.slots@[k], entries@) is None
            },
{
    let mut i: usize = 0;
    while i < layout.slots.len()
        invariant
            i <= layout.slots@.len(),
            forall|k: int| 0 <= k < i ==> #[trigger] slot_error(layout.slots@[k], entries@) is None,
        decreases layout.slots@.len() - i,
    {
        let slot = layout.slots[i];
        let mut count: usize = 0;
        let mut conflict: bool = false;
        let mut j: usize = 0;
        while j < entries.len()
            invariant
                j <= entries@.len(),
                count <= j,
                count == match_count(entries@.take(j as int), slot.index),
                conflict == has_conflict(entries@.take(j as int), slot),
            decreases entries@.len() - j,
        {
            proof {
                assert(entries@.take(j as int + 1).drop_last() =~= entries@.take(j as int));
                assert(entries@.take(j as int + 1).last() == entries@[j as int]);
            }
            if entries[j].index == slot.index {
                count = count + 1;
                if !matches_access(entries[j].access, slot.access) {
                    conflict = true;
                }
            }
            proof {
                let t0 = entries@.take(j as int);
                let t1 = entries@.take(j as int + 1);
                if entries@[j as int].index == slot.index
                    && entries@[j as int].access != slot.access {
                    assert(t1[j as int] == entries@[j as int]);
                    assert(has_conflict(t1, slot));
                }
                if has_conflict(t0, slot) {
                    let w = choose|w: int|
                        0 <= w < t0.len() && t0[w].index == slot.index
                            && t0[w].access != slot.access;
                    assert(t1[w] == t0[w]);
                    assert(has_conflict(t1, slot));
                }
                if has_conflict(t1, slot) && !has_conflict(t0, slot) {
                    let w = choose|w: int|
                        0 <= w < t1.len() && t1[w].index == slot.index
                            && t1[w].access != slot.access;
                    if w < j as int {
                        assert(t0[w] == t1[w]);
                        assert(has_conflict(t0, slot));
                    }
                }
            }
            j = j + 1;
        }
        proof {
            assert(entries@.take(entries@.len() as int) =~= entries@);
        }
        if count == 0 {
            return Err(BindingMismatchError::MissingSlot { index: slot.index });
        }
        if count > 1 {
            return Err(BindingMismatchError::DuplicateAssignment { index: slot.index });
        }
        if conflict {
            return Err(BindingMismatchError::AccessConflict { index: slot.index });
        }
        i = i + 1;
    }
    Ok(BindGroup { entries })
}

/// Compares two access modes.
fn matches_access(a: AccessMode, b: AccessMode) -> (r: bool)
    ensures
        r == (a == b),
{
    match (a, b) {
        (AccessMode::ReadWrite, AccessMode::ReadWrite) => true,
        (AccessMode::ReadOnly, AccessMode::ReadOnly) => true,
        _ => false,
    }
}

/// Two assignments with the two distinct declared indices and the declared
/// access modes satisfy a two-slot layout.
pub proof fn lemma_two_entries_satisfy(slots: Seq<BindingSlot>, entries: Seq<BindGroupEntry>)
    requires
        slots.len() == 2,
        entries.len() == 2,
        slots[0].index != slots[1].index,
        entries[0].index == slots[0].index,
        entries[1].index == slots[1].index,
        entries[0].access == slots[0].access,
        entries[1].access == slots[1].access,
    ensures
        slots_satisfied(slots, entries),
{
    let first = seq![entries[0]];
    assert(first.drop_last() =~= Seq::<BindGroupEntry>::empty());
    assert(entries.drop_last() =~= first);
    assert(match_count(Seq::<BindGroupEntry>::empty(), slots[0].index) == 0);
    assert(match_count(Seq::<BindGroupEntry>::empty(), slots[1].index) == 0);
    assert(match_count(first, slots[0].index) == 1);
    assert(match_count(first, slots[1].index) == 0);
    assert(match_count(entries, slots[0].index) == 1);
    assert(match_count(entries, slots[1].index) == 1);
    assert(!has_conflict(entries, slots[0])) by {
        if has_conflict(entries, slots[0]) {
            let j = choose|j: int|
                0 <= j < entries.len() && entries[j].index == slots[0].index
                    && entries[j].access != slots[0].access;
            assert(j == 0 || j == 1);
        }
    }
    assert(!has_conflict(entries, slots[1])) by {
        if has_conflict(entries, slots[1]) {
            let j = choose|j: int|
                0 <= j < entries.len() && entries[j].index == slots[1].index
                    && entries[j].access != slots[1].access;
            assert(j == 0 || j == 1);
        }
    }
    assert forall|i: int| 0 <= i < slots.len() implies slot_error(slots[i], entries) is None by {
        assert(i == 0 || i == 1);
    }
}

/// Layouts built from identical slot descriptions are interchangeable for
/// binding purposes: they accept exactly the same assignments, with the
/// same verdict on every slot.
pub proof fn lemma_layouts_interchangeable(
    a: BindGroupLayout,
    b: BindGroupLayout,
    entries: Seq<BindGroupEntry>,
)
    requires
        a.slots@ == b.slots@,
    ensures
        slots_satisfied(a.slots@, entries) == slots_satisfied(b.slots@, entries),
        forall|i: int| 0 <= i < a.slots@.len()
            ==> #[trigger] slot_error(a.slots@[i], entries) == slot_error(b.slots@[i], entries),
{
}

} // verus!
