//! Workgroup sizing for a single compute dispatch.
//!
//! A kernel runs in fixed 16x16 workgroups; covering a `width x height` grid
//! takes the ceiling division of each dimension by 16, with a single layer
//! along z.  Dispatching that many workgroups covers every cell even when a
//! dimension is not a multiple of 16.

use crate::binder::{
    allocate_staging, build_bind_group, build_layout, copy_buffer_to_buffer,
    lemma_two_entries_satisfy, slots_satisfied, upload, AccessMode, BindGroup, BindGroupEntry,
    BindGroupLayout, BindingSlot, Buffer, BufferUsage, StageVisibility,
};
use crate::codec::{bytes_to_words, decode_words, encode_words, flatten_grid, words_to_bytes};
use vstd::prelude::*;

verus! {

/// Edge length of the fixed square workgroup a kernel is compiled for.
pub const WORKGROUP_DIM: u32 = 16;

/// Ceiling division of a grid extent by the workgroup edge.
pub open spec fn workgroups_along(extent: int) -> int {
    (extent + 15) / 16
}

/// The workgroup counts of one encoded compute pass, one per axis.
#[derive(Clone, Copy, Debug, PartialEq, Eq, Structural)]
pub struct EncodedPass {
    pub workgroups_x: u32,
    pub workgroups_y: u32,
    pub workgroups_z: u32,
}

/// Number of workgroups needed to cover `extent` invocations along one axis.
pub fn workgroup_count(extent: u32) -> (r: u32)
    ensures
        r == workgroups_along(extent as int),
{
    let quotient: u32 = extent / WORKGROUP_DIM;
    let remainder: u32 = extent % WORKGROUP_DIM;
    if remainder == 0 {
        assert(quotient == workgroups_along(extent as int)) by (nonlinear_arith)
            requires
                quotient == extent as int / 16,
                remainder == extent as int % 16,
                remainder == 0,
        ;
        quotient
    } else {
        assert(quotient + 1 == workgroups_along(extent as int)) by (nonlinear_arith)
            requires
                quotient == extent as int / 16,
                remainder == extent as int % 16,
                remainder != 0,
        ;
        quotient + 1
    }
}

/// Sizes one compute pass over a `grid_width x grid_height` grid: the
/// dispatch covers the grid with ceiling division along x and y and a single
/// layer along z.
pub fn dispatch(grid_width: u32, grid_height: u32) -> (pass: EncodedPass)
    ensures
        pass.workgroups_x == workgroups_along(grid_width as int),
        pass.workgroups_y == workgroups_along(grid_height as int),
        pass.workgroups_z == 1,
{
    EncodedPass {
        workgroups_x: workgroup_count(grid_width),
        workgroups_y: workgroup_count(grid_height),
        workgroups_z: 1,
    }
}

/// The kernel's declared binding interface for the grid workflow: the grid
/// itself at slot zero, read-write, and the scalar row-width parameter at
/// slot one, read-only, both visible to the compute stage.
pub open spec fn grid_kernel_slots() -> Seq<BindingSlot> {
    seq![
        BindingSlot {
            index: 0,
            visibility: StageVisibility::Compute,
            access: AccessMode::ReadWrite,
        },
        BindingSlot {
            index: 1,
            visibility: StageVisibility::Compute,
            access: AccessMode::ReadOnly,
        },
    ]
}

/// The usage roles of the two input buffers: storage bindings that can also
/// serve as copy sources.
pub open spec fn input_usage() -> BufferUsage {
    BufferUsage { storage: true, copy_source: true, copy_destination: false, host_mappable: false }
}

/// Everything a one-shot grid dispatch submits: the layout and bind group
/// over the uploaded buffers, the staging buffer the result is copied into,
/// the sized pass, and the length of that copy.
pub struct ComputeJob {
    pub layout: BindGroupLayout,
    pub bind_group: BindGroup,
    pub staging: Buffer,
    pub pass: EncodedPass,
    pub copy_byte_length: usize,
}

/// The row-major word sequence of a grid.
pub open spec fn grid_flat(grid: Seq<Vec<u32>>) -> Seq<u32> {
    grid.map_values(|row: Vec<u32>| row@).flatten()
}

/// A rectangular grid flattens to exactly width times height words.
pub proof fn lemma_grid_flat_len(grid: Seq<Vec<u32>>, width: nat)
    requires
        forall|i: int| 0 <= i < grid.len() ==> (#[trigger] grid[i])@.len() == width,
    ensures
        grid_flat(grid).len() == grid.len() * width,
    decreases grid.len(),
{
    let mapped = grid.map_values(|row: Vec<u32>| row@);
    if grid.len() == 0 {
        assert(grid.len() * width == 0) by (nonlinear_arith)
            requires grid.len() == 0,
        ;
    } else {
        let rest = grid.drop_first();
        lemma_grid_flat_len(rest, width);
        assert(rest.map_values(|row: Vec<u32>| row@) =~= mapped.drop_first());
        assert(grid_flat(grid).len() == width + rest.len() * width);
        assert(width + rest.len() * width == grid.len() * width) by (nonlinear_arith)
            requires rest.len() + 1 == grid.len(),
        ;
    }
}

/// Lays out the whole one-shot compute dispatch for a rectangular grid of
/// words: uploads the flattened grid and its row width, binds them to the
/// kernel's two slots, sizes the pass by ceiling division, and sizes the
/// staging buffer to exactly the byte length of the grid data it will
/// receive.
pub fn plan_grid_compute(grid: &Vec<Vec<u32>>) -> (job: ComputeJob)
    requires
        grid@.len() >= 1,
        grid@[0]@.len() >= 1,
        forall|i: int| 0 <= i < grid@.len() ==> (#[trigger] grid@[i])@.len() == grid@[0]@.len(),
        grid@.len() <= u32::MAX,
        grid@[0]@.len() <= u32::MAX,
    ensures
        job.layout.slots@ == grid_kernel_slots(),
        job.bind_group.entries@.len() == 2,
        job.bind_group.entries@[0].index == 0,
        job.bind_group.entries@[0].access == AccessMode::ReadWrite,
        job.bind_group.entries@[0].buffer.usage == input_usage(),
        job.bind_group.entries@[0].buffer.data@ == words_to_bytes(grid_flat(grid@)),
        job.bind_group.entries@[1].index == 1,
        job.bind_group.entries@[1].access == AccessMode::ReadOnly,
        job.bind_group.entries@[1].buffer.usage == input_usage(),
        job.bind_group.entries@[1].buffer.data@ == words_to_bytes(
            seq![grid@[0]@.len() as u32],
        ),
        slots_satisfied(job.layout.slots@, job.bind_group.entries@),
        job.copy_byte_length == 4 * grid_flat(grid@).len(),
        job.copy_byte_length == 4 * (grid@.len() * grid@[0]@.len()),
        job.staging.data@.len() == job.copy_byte_length,
        forall|i: int| 0 <= i < job.staging.data@.len() ==> job.staging.data@[i] == 0u8,
        job.staging.usage.host_mappable && job.staging.usage.copy_destination,
        job.pass.workgroups_x == workgroups_along(grid@[0]@.len() as int),
        job.pass.workgroups_y == workgroups_along(grid@.len() as int),
        job.pass.workgroups_z == 1,
{
    let width = grid[0].len();
    let height = grid.len();

    proof {
        lemma_grid_flat_len(grid@, grid@[0]@.len());
    }
    let flat = flatten_grid(grid);
    let grid_bytes = encode_words(&flat);
    let copy_byte_length = grid_bytes.len();

    let mut width_words: Vec<u32> = Vec::new();
    width_words.push(width as u32);
    let width_bytes = encode_words(&width_words);
    proof {
        assert(width_words@ =~= seq![grid@[0]@.len() as u32]);
    }

    let usage = BufferUsage {
        storage: true,
        copy_source: true,
        copy_destination: false,
        host_mappable: false,
    };
    let grid_buffer = upload(grid_bytes, usage);
    let width_buffer = upload(width_bytes, usage);
    let staging = allocate_staging(copy_byte_length);

    let mut slots: Vec<BindingSlot> = Vec::new();
    slots.push(BindingSlot {
        index: 0,
        visibility: StageVisibility::Compute,
        access: AccessMode::ReadWrite,
    });
    slots.push(BindingSlot {
        index: 1,
        visibility: StageVisibility::Compute,
        access: AccessMode::ReadOnly,
    });
    proof {
        assert(slots@ =~= grid_kernel_slots());
    }
    let layout = build_layout(slots);

    let mut entries: Vec<BindGroupEntry> = Vec::new();
    entries.push(BindGroupEntry { index: 0, access: AccessMode::ReadWrite, buffer: grid_buffer });
    entries.push(BindGroupEntry { index: 1, access: AccessMode::ReadOnly, buffer: width_buffer });
    proof {
        lemma_two_entries_satisfy(layout.slots@, entries@);
    }
    let bind_group = match build_bind_group(&layout, entries) {
        Ok(group) => group,
        Err(_) => vstd::pervasive::unreached(),
    };

    let pass = dispatch(width as u32, height as u32);

    ComputeJob { layout, bind_group, staging, pass, copy_byte_length }
}

/// Copies `byte_length` bytes of the dispatch's output buffer into the
/// staging buffer — whose size must equal that length — and decodes the
/// received bytes as 32-bit unsigned words, the host-side view of the
/// blocking readback that follows device completion.
pub fn read_back(source: &Buffer, staging: &mut Buffer, byte_length: usize) -> (words: Vec<u32>)
    requires
        source.usage.copy_source,
        old(staging).usage.copy_destination,
        old(staging).usage.host_mappable,
        byte_length <= source.data@.len(),
        byte_length == old(staging).data@.len(),
        byte_length % 4 == 0,
    ensures
        final(staging).usage == old(staging).usage,
        final(staging).data@ == source.data@.take(byte_length as int),
        words@ == bytes_to_words(source.data@.take(byte_length as int)),
{
    copy_buffer_to_buffer(source, staging, byte_length);
    proof {
        assert(staging.data@ =~= source.data@.take(byte_length as int));
    }
    decode_words(&staging.data)
}

} // verus!
