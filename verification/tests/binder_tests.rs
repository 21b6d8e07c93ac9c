use gpu_orchestration::binder::{
    allocate_staging, build_bind_group, build_layout, copy_buffer_to_buffer, upload, AccessMode,
    BindGroupEntry, BindingMismatchError, BindingSlot, BufferUsage, StageVisibility,
};
use gpu_orchestration::context::{validate_adapter, AdapterCapabilities, StartupError};
use gpu_orchestration::dispatch::{plan_grid_compute, read_back};

fn input_usage() -> BufferUsage {
    BufferUsage { storage: true, copy_source: true, copy_destination: false, host_mappable: false }
}

fn grid_slots() -> Vec<BindingSlot> {
    vec![
        BindingSlot { index: 0, visibility: StageVisibility::Compute, access: AccessMode::ReadWrite },
        BindingSlot { index: 1, visibility: StageVisibility::Compute, access: AccessMode::ReadOnly },
    ]
}

fn entry(index: u32, access: AccessMode, bytes: Vec<u8>) -> BindGroupEntry {
    BindGroupEntry { index, access, buffer: upload(bytes, input_usage()) }
}

#[test]
fn layouts_mirror_their_slot_list_exactly() {
    let layout = build_layout(grid_slots());
    assert_eq!(layout.slots, grid_slots());
}

#[test]
fn identical_slot_descriptions_build_interchangeable_layouts() {
    let first = build_layout(grid_slots());
    let second = build_layout(grid_slots());
    assert_eq!(first.slots, second.slots);

    // Both accept the same assignments with the same verdict.
    let assignments = || vec![
        entry(0, AccessMode::ReadWrite, vec![1, 2, 3, 4]),
        entry(1, AccessMode::ReadOnly, vec![9, 0, 0, 0]),
    ];
    assert!(build_bind_group(&first, assignments()).is_ok());
    assert!(build_bind_group(&second, assignments()).is_ok());

    let conflicting = || vec![
        entry(0, AccessMode::ReadOnly, vec![1, 2, 3, 4]),
        entry(1, AccessMode::ReadOnly, vec![9, 0, 0, 0]),
    ];
    assert_eq!(
        build_bind_group(&first, conflicting()).err(),
        build_bind_group(&second, conflicting()).err()
    );
}

#[test]
fn complete_assignments_build_a_bind_group() {
    let layout = build_layout(grid_slots());
    let group = build_bind_group(
        &layout,
        vec![
            entry(0, AccessMode::ReadWrite, vec![1, 2, 3, 4]),
            entry(1, AccessMode::ReadOnly, vec![9, 0, 0, 0]),
        ],
    )
    .expect("both slots are satisfied");
    assert_eq!(group.entries.len(), 2);
    assert_eq!(group.entries[0].buffer.data, vec![1, 2, 3, 4]);
    assert_eq!(group.entries[1].buffer.data, vec![9, 0, 0, 0]);
}

#[test]
fn an_unassigned_slot_is_reported_missing() {
    let layout = build_layout(grid_slots());
    let result = build_bind_group(&layout, vec![entry(0, AccessMode::ReadWrite, vec![1, 2, 3, 4])]);
    assert_eq!(result.err(), Some(BindingMismatchError::MissingSlot { index: 1 }));
}

#[test]
fn a_doubly_assigned_slot_is_reported_duplicate() {
    let layout = build_layout(grid_slots());
    let result = build_bind_group(
        &layout,
        vec![
            entry(0, AccessMode::ReadWrite, vec![1, 2, 3, 4]),
            entry(0, AccessMode::ReadWrite, vec![5, 6, 7, 8]),
            entry(1, AccessMode::ReadOnly, vec![9, 0, 0, 0]),
        ],
    );
    assert_eq!(result.err(), Some(BindingMismatchError::DuplicateAssignment { index: 0 }));
}

#[test]
fn a_conflicting_access_mode_is_reported() {
    let layout = build_layout(grid_slots());
    let result = build_bind_group(
        &layout,
        vec![
            entry(0, AccessMode::ReadWrite, vec![1, 2, 3, 4]),
            entry(1, AccessMode::ReadWrite, vec![9, 0, 0, 0]),
        ],
    );
    assert_eq!(result.err(), Some(BindingMismatchError::AccessConflict { index: 1 }));
}

#[test]
fn staging_buffers_are_zero_filled_and_host_mappable() {
    let staging = allocate_staging(8);
    assert_eq!(staging.data, vec![0u8; 8]);
    assert!(staging.usage.host_mappable);
    assert!(staging.usage.copy_destination);
    assert!(!staging.usage.storage);
    assert!(!staging.usage.copy_source);
}

#[test]
fn copies_replace_the_destination_prefix_only() {
    let source = upload(vec![1, 2, 3, 4], input_usage());
    let mut destination = allocate_staging(6);
    copy_buffer_to_buffer(&source, &mut destination, 4);
    assert_eq!(destination.data, vec![1, 2, 3, 4, 0, 0]);
}

#[test]
fn grid_plans_bind_data_and_width_and_size_the_staging_buffer() {
    let grid = vec![vec![7u32, 8, 9], vec![10, 11, 12]];
    let job = plan_grid_compute(&grid);

    assert_eq!(job.layout.slots, grid_slots());
    assert_eq!(job.bind_group.entries.len(), 2);
    assert_eq!(
        job.bind_group.entries[0].buffer.data,
        vec![7, 0, 0, 0, 8, 0, 0, 0, 9, 0, 0, 0, 10, 0, 0, 0, 11, 0, 0, 0, 12, 0, 0, 0]
    );
    assert_eq!(job.bind_group.entries[1].buffer.data, vec![3, 0, 0, 0]);
    assert_eq!(job.copy_byte_length, 24);
    assert_eq!(job.staging.data.len(), 24);
    assert_eq!((job.pass.workgroups_x, job.pass.workgroups_y, job.pass.workgroups_z), (1, 1, 1));
}

#[test]
fn the_all_zero_full_hd_grid_reads_back_zeroes() {
    let grid: Vec<Vec<u32>> = vec![vec![0u32; 1920]; 1080];
    let mut job = plan_grid_compute(&grid);
    assert_eq!((job.pass.workgroups_x, job.pass.workgroups_y, job.pass.workgroups_z), (120, 68, 1));

    let words = read_back(&job.bind_group.entries[0].buffer, &mut job.staging, 1920 * 1080 * 4);
    assert_eq!(words.len(), 1920 * 1080);
    for index in 0..20 {
        assert_eq!(words[index], 0);
    }
}

#[test]
fn adapters_without_compute_support_are_rejected_when_required() {
    let no_compute = AdapterCapabilities { compute_shaders: false };
    let with_compute = AdapterCapabilities { compute_shaders: true };
    assert_eq!(validate_adapter(&no_compute, true), Err(StartupError::UnsupportedAdapter));
    assert_eq!(validate_adapter(&with_compute, true), Ok(()));
    assert_eq!(validate_adapter(&no_compute, false), Ok(()));
}
