use weiss_py::batch_debug::DebugOut;
use weiss_py::batch_minimal::{MinimalLegalIdsOut, MinimalNoMaskOut, MinimalOut};
use weiss_py::batch_trajectory::{TrajectoryLegalIdsOut, TrajectoryOut};
use weiss_py::errors::{ArrayName, Axis, BufferError};
use weiss_py::layout::Encoding;
use weiss_py::pool::{OutBatch, OutTrajectory, PoolLayout};
use weiss_py::shape::{validate_indices_and_seeds, ArrayView, SliceArg};

const ENC: Encoding = Encoding { obs_len: 6, action_space: 4, spec_hash: 9 };
const POOL: PoolLayout = PoolLayout { enc: ENC, num_envs: 3, event_capacity: 8 };

fn arg(len: usize) -> SliceArg {
    SliceArg { contiguous: true, len }
}

fn strided(len: usize) -> SliceArg {
    SliceArg { contiguous: false, len }
}

fn minimal() -> OutBatch {
    OutBatch::Minimal(MinimalOut::new(ENC, 3).unwrap())
}

fn logits(rows: usize, cols: usize) -> ArrayView {
    ArrayView { shape: vec![rows, cols], contiguous: true }
}

#[test]
fn fresh_buffers_accept_reset_and_step() {
    for out in [
        minimal(),
        OutBatch::LegalIds(MinimalLegalIdsOut::new(ENC, 3).unwrap()),
        OutBatch::NoMask(MinimalNoMaskOut::new(ENC, 3).unwrap()),
        OutBatch::Debug(DebugOut::new(ENC, 3, 8).unwrap()),
    ] {
        assert_eq!(POOL.check_reset(&out), Ok(()));
        assert_eq!(POOL.check_step(arg(3), &out), Ok(()));
    }
}

#[test]
fn buffers_for_another_pool_size_are_refused() {
    let out = OutBatch::Minimal(MinimalOut::new(ENC, 2).unwrap());
    assert_eq!(
        POOL.check_reset(&out),
        Err(BufferError::DimMismatch { name: ArrayName::Obs, axis: Axis::First, got: 2, expected: 3 })
    );
}

#[test]
fn step_reports_dims_before_actions_before_contiguity() {
    let mut buffers = MinimalOut::new(ENC, 3).unwrap();
    buffers.rewards.contiguous = false;
    let out = OutBatch::Minimal(buffers);
    assert_eq!(
        POOL.check_step(strided(3), &out),
        Err(BufferError::NotContiguous { name: ArrayName::Actions })
    );
    assert_eq!(
        POOL.check_step(arg(2), &out),
        Err(BufferError::LenMismatch { name: ArrayName::Actions, got: 2, expected: 3 })
    );
    assert_eq!(
        POOL.check_step(arg(3), &out),
        Err(BufferError::NotContiguous { name: ArrayName::Rewards })
    );
}

#[test]
fn reset_done_checks_done_mask() {
    assert_eq!(
        POOL.check_reset_done(arg(4), &minimal()),
        Err(BufferError::LenMismatch { name: ArrayName::DoneMask, got: 4, expected: 3 })
    );
    assert_eq!(POOL.check_reset_done(arg(3), &minimal()), Ok(()));
}

#[test]
fn step_sample_uniform_checks_seeds_then_actions() {
    assert_eq!(
        POOL.check_step_sample_uniform(arg(2), arg(1), &minimal()),
        Err(BufferError::LenMismatch { name: ArrayName::Seeds, got: 2, expected: 3 })
    );
    assert_eq!(
        POOL.check_step_sample_uniform(arg(3), strided(3), &minimal()),
        Err(BufferError::NotContiguous { name: ArrayName::Actions })
    );
    assert_eq!(POOL.check_step_sample_uniform(arg(3), arg(3), &minimal()), Ok(()));
}

#[test]
fn auto_reset_checks_only_code_contiguity() {
    assert_eq!(POOL.check_auto_reset(arg(10), &minimal()), Ok(()));
    assert_eq!(
        POOL.check_auto_reset(strided(3), &minimal()),
        Err(BufferError::NotContiguous { name: ArrayName::Codes })
    );
}

#[test]
fn seeded_reset_validates_indices_and_seeds() {
    assert_eq!(POOL.check_reset_with_seeds(&vec![0, 2], &vec![11, 12], &minimal()), Ok(()));
    assert_eq!(
        POOL.check_reset_with_seeds(&vec![0, 2], &vec![11], &minimal()),
        Err(BufferError::IndicesSeedsLenMismatch { got: 2, expected: 1 })
    );
    assert_eq!(
        POOL.check_reset_with_seeds(&vec![0, 3, 5], &vec![1, 2, 3], &minimal()),
        Err(BufferError::IndexOutOfBounds { pos: 1, index: 3, max: 2 })
    );
}

#[test]
fn index_bound_on_empty_pool_saturates() {
    assert_eq!(
        validate_indices_and_seeds(&vec![0], &vec![5], 0),
        Err(BufferError::IndexOutOfBounds { pos: 0, index: 0, max: 0 })
    );
    assert_eq!(validate_indices_and_seeds(&vec![], &vec![], 0), Ok(()));
}

#[test]
fn logits_steps_check_shape_first() {
    assert_eq!(
        POOL.check_step_select_logits(&logits(3, 5), strided(0), &minimal()),
        Err(BufferError::LogitsShape)
    );
    let mut strided_logits = logits(3, 4);
    strided_logits.contiguous = false;
    assert_eq!(
        POOL.check_step_select_logits(&strided_logits, arg(3), &minimal()),
        Err(BufferError::NotContiguous { name: ArrayName::Logits })
    );
    assert_eq!(POOL.check_step_select_logits(&logits(3, 4), arg(3), &minimal()), Ok(()));
    assert_eq!(
        POOL.check_step_sample_logits(&logits(3, 4), arg(1), arg(3), &minimal()),
        Err(BufferError::LenMismatch { name: ArrayName::Seeds, got: 1, expected: 3 })
    );
    assert_eq!(POOL.check_step_sample_logits(&logits(3, 4), arg(3), arg(3), &minimal()), Ok(()));
}

#[test]
fn rollout_checks_steps_after_dims() {
    let out = OutTrajectory::Full(TrajectoryOut::new(ENC, 5, 3).unwrap());
    assert_eq!(POOL.check_rollout(5, &out), Ok(()));
    assert_eq!(
        POOL.check_rollout(4, &out),
        Err(BufferError::DimMismatch { name: ArrayName::Obs, axis: Axis::First, got: 5, expected: 4 })
    );
    assert_eq!(POOL.check_rollout_sample(5, strided(3), &out), Err(BufferError::NotContiguous {
        name: ArrayName::Seeds,
    }));
    let legal = OutTrajectory::LegalIds(TrajectoryLegalIdsOut::new(ENC, 2, 3).unwrap());
    assert_eq!(POOL.check_rollout_sample(2, arg(3), &legal), Ok(()));
}

#[test]
fn rollout_refuses_steps_the_buffer_was_not_made_for() {
    let mut buffers = TrajectoryOut::new(ENC, 5, 3).unwrap();
    buffers.steps = 6;
    let out = OutTrajectory::Full(buffers);
    assert_eq!(POOL.check_rollout(5, &out), Err(BufferError::StepsMismatch));
}

#[test]
fn legal_action_ids_buffers() {
    assert_eq!(POOL.check_legal_action_ids(arg(12), arg(4)), Ok(()));
    assert_eq!(
        POOL.check_legal_action_ids(arg(11), arg(4)),
        Err(BufferError::IdsTooSmall { got: 11, need: 12 })
    );
    assert_eq!(
        POOL.check_legal_action_ids(arg(12), arg(3)),
        Err(BufferError::OffsetsTooSmall { got: 3, need: 4 })
    );
    assert_eq!(
        POOL.check_legal_action_ids(arg(0), strided(0)),
        Err(BufferError::NotContiguous { name: ArrayName::Offsets })
    );
    let huge = PoolLayout { enc: ENC, num_envs: usize::MAX, event_capacity: 0 };
    assert_eq!(huge.check_legal_action_ids(arg(0), arg(0)), Err(BufferError::IdsSizeOverflow));
    let one = PoolLayout {
        enc: Encoding { obs_len: 1, action_space: 1, spec_hash: 0 },
        num_envs: usize::MAX,
        event_capacity: 0,
    };
    assert_eq!(
        one.check_legal_action_ids(arg(usize::MAX), arg(0)),
        Err(BufferError::OffsetsSizeOverflow)
    );
}

#[test]
fn legal_ids_batch_buffers_fit_legal_action_ids() {
    let out = MinimalLegalIdsOut::new(ENC, 3).unwrap();
    assert_eq!(
        POOL.check_legal_action_ids(arg(out.legal_ids.shape[0]), arg(out.legal_offsets.shape[0])),
        Ok(())
    );
}

#[test]
fn sample_uniform_checks_contiguity_before_lengths() {
    assert_eq!(
        POOL.check_sample_uniform(arg(1), strided(1)),
        Err(BufferError::NotContiguous { name: ArrayName::Actions })
    );
    assert_eq!(
        POOL.check_sample_uniform(arg(3), arg(2)),
        Err(BufferError::LenMismatch { name: ArrayName::Actions, got: 2, expected: 3 })
    );
    assert_eq!(POOL.check_sample_uniform(arg(3), arg(3)), Ok(()));
}

#[test]
fn logits_only_checks() {
    assert_eq!(POOL.check_select_logits(&logits(2, 4), arg(3)), Err(BufferError::LogitsShape));
    assert_eq!(POOL.check_select_logits(&logits(3, 4), arg(3)), Ok(()));
    assert_eq!(
        POOL.check_sample_logits(&logits(3, 4), arg(3), arg(4)),
        Err(BufferError::LenMismatch { name: ArrayName::Actions, got: 4, expected: 3 })
    );
}

#[test]
fn legal_ids_and_sample_order() {
    assert_eq!(
        POOL.check_legal_ids_and_sample(strided(0), strided(0), strided(0), arg(3)),
        Err(BufferError::NotContiguous { name: ArrayName::Seeds })
    );
    assert_eq!(
        POOL.check_legal_ids_and_sample(arg(1), arg(4), arg(1), arg(1)),
        Err(BufferError::IdsTooSmall { got: 1, need: 12 })
    );
    assert_eq!(
        POOL.check_legal_ids_and_sample(arg(12), arg(4), arg(2), arg(3)),
        Err(BufferError::LenMismatch { name: ArrayName::Seeds, got: 2, expected: 3 })
    );
    assert_eq!(POOL.check_legal_ids_and_sample(arg(12), arg(4), arg(3), arg(3)), Ok(()));
}

#[test]
fn describe_action_ids_wants_one_per_env() {
    assert_eq!(POOL.check_action_ids_len(3), Ok(()));
    assert_eq!(POOL.check_action_ids_len(2), Err(BufferError::ActionIdsLenMismatch));
}
