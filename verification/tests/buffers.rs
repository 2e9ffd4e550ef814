use weiss_py::batch_debug::{ensure_batch_out_debug_dims, DebugOut};
use weiss_py::batch_minimal::{
    ensure_batch_out_minimal_dims, ensure_batch_out_minimal_i16_legal_ids_dims,
    ensure_batch_out_minimal_nomask_dims, MinimalLegalIdsOut, MinimalNoMaskOut, MinimalOut,
};
use weiss_py::batch_trajectory::{
    ensure_batch_out_trajectory_dims, ensure_batch_out_trajectory_i16_legal_ids_dims,
    ensure_batch_out_trajectory_nomask_dims, TrajectoryLegalIdsOut, TrajectoryNoMaskOut,
    TrajectoryOut,
};
use weiss_py::errors::{ArrayName, Axis, BufferError};
use weiss_py::layout::{initial_fill, Encoding};
use weiss_py::shape::{
    ensure_action_space_u16, ensure_first_dim, ensure_first_two_dims, ensure_len,
    ensure_third_dim, ArrayView,
};

const ENC: Encoding = Encoding { obs_len: 7, action_space: 5, spec_hash: 0xabcdef };

fn view(shape: &[usize]) -> ArrayView {
    ArrayView { shape: shape.to_vec(), contiguous: true }
}

#[test]
fn minimal_new_lays_out_buffers() {
    let out = MinimalOut::new(ENC, 3).unwrap();
    assert_eq!(out.obs.shape, vec![3, 7]);
    assert_eq!(out.masks.shape, vec![3, 5]);
    assert_eq!(out.rewards.shape, vec![3]);
    assert_eq!(out.spec_hash.shape, vec![3]);
    assert!(out.obs.contiguous && out.spec_hash.contiguous);
}

#[test]
fn minimal_new_refuses_zero_envs() {
    assert_eq!(MinimalOut::new(ENC, 0).err(), Some(BufferError::ZeroEnvs));
    assert_eq!(MinimalNoMaskOut::new(ENC, 0).err(), Some(BufferError::ZeroEnvs));
    assert_eq!(DebugOut::new(ENC, 0, 4).err(), Some(BufferError::ZeroEnvs));
}

#[test]
fn fresh_minimal_buffers_pass_dims_check() {
    let out = MinimalOut::new(ENC, 4).unwrap();
    assert_eq!(ensure_batch_out_minimal_dims(&out, ENC, 4), Ok(()));
}

#[test]
fn minimal_dims_reports_first_wrong_buffer() {
    let mut out = MinimalOut::new(ENC, 4).unwrap();
    out.rewards = view(&[3]);
    out.obs = view(&[4, 6]);
    assert_eq!(
        ensure_batch_out_minimal_dims(&out, ENC, 4),
        Err(BufferError::DimMismatch { name: ArrayName::Obs, axis: Axis::Second, got: 6, expected: 7 })
    );
    out.obs = view(&[4, 7]);
    assert_eq!(
        ensure_batch_out_minimal_dims(&out, ENC, 4),
        Err(BufferError::DimMismatch {
            name: ArrayName::Rewards,
            axis: Axis::First,
            got: 3,
            expected: 4
        })
    );
}

#[test]
fn dims_check_ignores_contiguity() {
    let mut out = MinimalOut::new(ENC, 2).unwrap();
    out.masks.contiguous = false;
    assert_eq!(ensure_batch_out_minimal_dims(&out, ENC, 2), Ok(()));
}

#[test]
fn legal_ids_new_lays_out_flat_ids() {
    let out = MinimalLegalIdsOut::new(ENC, 3).unwrap();
    assert_eq!(out.legal_ids.shape, vec![15]);
    assert_eq!(out.legal_offsets.shape, vec![4]);
    assert_eq!(out.obs.shape, vec![3, 7]);
    assert_eq!(ensure_batch_out_minimal_i16_legal_ids_dims(&out, ENC, 3), Ok(()));
}

#[test]
fn legal_ids_refuses_wide_action_space_before_zero_envs() {
    let wide = Encoding { obs_len: 7, action_space: 70_000, spec_hash: 0 };
    assert_eq!(
        MinimalLegalIdsOut::new(wide, 0).err(),
        Some(BufferError::ActionSpaceTooLarge { action_space: 70_000 })
    );
    assert_eq!(MinimalLegalIdsOut::new(ENC, 0).err(), Some(BufferError::ZeroEnvs));
    assert_eq!(
        TrajectoryLegalIdsOut::new(wide, 0, 0).err(),
        Some(BufferError::ActionSpaceTooLarge { action_space: 70_000 })
    );
}

#[test]
fn legal_ids_dims_report_overflow() {
    let huge = Encoding { obs_len: 7, action_space: 65_535, spec_hash: 0 };
    let out = MinimalLegalIdsOut {
        obs: view(&[usize::MAX, 7]),
        legal_ids: view(&[0]),
        legal_offsets: view(&[0]),
        rewards: view(&[0]),
        terminated: view(&[0]),
        truncated: view(&[0]),
        actor: view(&[0]),
        decision_kind: view(&[0]),
        decision_id: view(&[0]),
        engine_status: view(&[0]),
        spec_hash: view(&[0]),
    };
    assert_eq!(
        ensure_batch_out_minimal_i16_legal_ids_dims(&out, huge, usize::MAX),
        Err(BufferError::LegalIdsSizeOverflow)
    );
    let one = Encoding { obs_len: 7, action_space: 1, spec_hash: 0 };
    let mut out = out;
    out.legal_ids = view(&[usize::MAX]);
    assert_eq!(
        ensure_batch_out_minimal_i16_legal_ids_dims(&out, one, usize::MAX),
        Err(BufferError::LegalOffsetsSizeOverflow)
    );
}

#[test]
fn nomask_new_and_dims() {
    let out = MinimalNoMaskOut::new(ENC, 2).unwrap();
    assert_eq!(out.obs.shape, vec![2, 7]);
    assert_eq!(ensure_batch_out_minimal_nomask_dims(&out, ENC, 2), Ok(()));
    assert_eq!(
        ensure_batch_out_minimal_nomask_dims(&out, ENC, 3),
        Err(BufferError::DimMismatch { name: ArrayName::Obs, axis: Axis::First, got: 2, expected: 3 })
    );
}

#[test]
fn trajectory_new_lays_out_steps_rows() {
    let out = TrajectoryOut::new(ENC, 6, 2).unwrap();
    assert_eq!(out.steps, 6);
    assert_eq!(out.obs.shape, vec![6, 2, 7]);
    assert_eq!(out.masks.shape, vec![6, 2, 5]);
    assert_eq!(out.actions.shape, vec![6, 2]);
    assert_eq!(ensure_batch_out_trajectory_dims(&out, ENC, 6, 2), Ok(()));
}

#[test]
fn trajectory_new_refuses_zero_steps_or_envs() {
    assert_eq!(TrajectoryOut::new(ENC, 0, 2).err(), Some(BufferError::ZeroStepsOrEnvs));
    assert_eq!(TrajectoryOut::new(ENC, 2, 0).err(), Some(BufferError::ZeroStepsOrEnvs));
    assert_eq!(TrajectoryNoMaskOut::new(ENC, 0, 0).err(), Some(BufferError::ZeroStepsOrEnvs));
    assert_eq!(TrajectoryLegalIdsOut::new(ENC, 0, 1).err(), Some(BufferError::ZeroStepsOrEnvs));
}

#[test]
fn trajectory_dims_check_third_axis_after_leading_axes() {
    let mut out = TrajectoryOut::new(ENC, 3, 2).unwrap();
    out.masks = view(&[3, 2, 4]);
    out.obs = view(&[3, 2, 8]);
    assert_eq!(
        ensure_batch_out_trajectory_dims(&out, ENC, 3, 2),
        Err(BufferError::DimMismatch { name: ArrayName::Obs, axis: Axis::Third, got: 8, expected: 7 })
    );
    out.obs = view(&[3, 2, 7]);
    assert_eq!(
        ensure_batch_out_trajectory_dims(&out, ENC, 3, 2),
        Err(BufferError::DimMismatch { name: ArrayName::Masks, axis: Axis::Third, got: 4, expected: 5 })
    );
}

#[test]
fn trajectory_legal_ids_layout() {
    let out = TrajectoryLegalIdsOut::new(ENC, 4, 3).unwrap();
    assert_eq!(out.legal_ids.shape, vec![4, 15]);
    assert_eq!(out.legal_offsets.shape, vec![4, 4]);
    assert_eq!(ensure_batch_out_trajectory_i16_legal_ids_dims(&out, ENC, 4, 3), Ok(()));
    assert_eq!(
        ensure_batch_out_trajectory_i16_legal_ids_dims(&out, ENC, 4, 2),
        Err(BufferError::DimMismatch { name: ArrayName::Obs, axis: Axis::Second, got: 3, expected: 2 })
    );
}

#[test]
fn trajectory_nomask_layout() {
    let out = TrajectoryNoMaskOut::new(ENC, 2, 5).unwrap();
    assert_eq!(out.obs.shape, vec![2, 5, 7]);
    assert_eq!(ensure_batch_out_trajectory_nomask_dims(&out, ENC, 2, 5), Ok(()));
}

#[test]
fn debug_layout_and_event_capacity() {
    let out = DebugOut::new(ENC, 3, 16).unwrap();
    assert_eq!(out.event_codes.shape, vec![3, 16]);
    assert_eq!(ensure_batch_out_debug_dims(&out, ENC, 3, 16), Ok(()));
    assert_eq!(
        ensure_batch_out_debug_dims(&out, ENC, 3, 8),
        Err(BufferError::DimMismatch {
            name: ArrayName::EventCodes,
            axis: Axis::Second,
            got: 16,
            expected: 8
        })
    );
}

#[test]
fn first_dim_helpers() {
    let a = view(&[4, 2]);
    assert_eq!(ensure_first_dim(ArrayName::Obs, &a, 4, None), Ok(()));
    assert_eq!(ensure_first_two_dims(ArrayName::Obs, &a, 4, 2), Ok(()));
    let empty = view(&[]);
    assert_eq!(
        ensure_first_dim(ArrayName::Actor, &empty, 1, None),
        Err(BufferError::DimMismatch { name: ArrayName::Actor, axis: Axis::First, got: 0, expected: 1 })
    );
    assert_eq!(
        ensure_third_dim(ArrayName::Masks, &a, 3),
        Err(BufferError::DimMismatch { name: ArrayName::Masks, axis: Axis::Third, got: 0, expected: 3 })
    );
    assert_eq!(
        ensure_len(ArrayName::DoneMask, 2, 3),
        Err(BufferError::LenMismatch { name: ArrayName::DoneMask, got: 2, expected: 3 })
    );
}

#[test]
fn action_space_u16_bound() {
    assert_eq!(ensure_action_space_u16(65_535), Ok(()));
    assert_eq!(
        ensure_action_space_u16(65_536),
        Err(BufferError::ActionSpaceTooLarge { action_space: 65_536 })
    );
}

#[test]
fn fresh_buffers_are_filled_with_spec_hash_only_there() {
    assert_eq!(initial_fill(ArrayName::SpecHash, ENC), 0xabcdef);
    assert_eq!(initial_fill(ArrayName::Obs, ENC), 0);
    assert_eq!(initial_fill(ArrayName::Terminated, ENC), 0);
}

#[test]
fn fresh_buffers_are_refused_for_other_sizes() {
    let out = TrajectoryLegalIdsOut::new(ENC, 4, 3).unwrap();
    assert_eq!(
        ensure_batch_out_trajectory_i16_legal_ids_dims(&out, ENC, 5, 3),
        Err(BufferError::DimMismatch { name: ArrayName::Obs, axis: Axis::First, got: 4, expected: 5 })
    );
    let out = TrajectoryOut::new(ENC, 2, 3).unwrap();
    assert!(ensure_batch_out_trajectory_dims(&out, ENC, 2, 4).is_err());
    let out = MinimalOut::new(ENC, 3).unwrap();
    assert_eq!(
        ensure_batch_out_minimal_dims(&out, ENC, 2),
        Err(BufferError::DimMismatch { name: ArrayName::Obs, axis: Axis::First, got: 3, expected: 2 })
    );
    let out = MinimalNoMaskOut::new(ENC, 3).unwrap();
    assert!(ensure_batch_out_minimal_nomask_dims(&out, ENC, 4).is_err());
    let out = DebugOut::new(ENC, 3, 16).unwrap();
    assert!(ensure_batch_out_debug_dims(&out, ENC, 2, 16).is_err());
}
