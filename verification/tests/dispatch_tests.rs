use gpu_orchestration::dispatch::{dispatch, workgroup_count, EncodedPass};

#[test]
fn full_hd_grid_dispatch() {
    let pass = dispatch(1920, 1080);
    assert_eq!(
        pass,
        EncodedPass { workgroups_x: 120, workgroups_y: 68, workgroups_z: 1 }
    );
}

#[test]
fn exact_multiples_need_no_extra_workgroup() {
    assert_eq!(workgroup_count(16), 1);
    assert_eq!(workgroup_count(32), 2);
    let pass = dispatch(16, 160);
    assert_eq!(pass.workgroups_x, 1);
    assert_eq!(pass.workgroups_y, 10);
    assert_eq!(pass.workgroups_z, 1);
}

#[test]
fn remainders_round_up() {
    assert_eq!(workgroup_count(1), 1);
    assert_eq!(workgroup_count(15), 1);
    assert_eq!(workgroup_count(17), 2);
    let pass = dispatch(17, 33);
    assert_eq!(pass.workgroups_x, 2);
    assert_eq!(pass.workgroups_y, 3);
}

#[test]
fn smallest_grid_gets_one_workgroup_per_axis() {
    let pass = dispatch(1, 1);
    assert_eq!(
        pass,
        EncodedPass { workgroups_x: 1, workgroups_y: 1, workgroups_z: 1 }
    );
}

#[test]
fn empty_extent_dispatches_nothing_along_axis() {
    assert_eq!(workgroup_count(0), 0);
}

#[test]
fn largest_extent_does_not_overflow() {
    assert_eq!(workgroup_count(u32::MAX), u32::MAX / 16 + 1);
}
