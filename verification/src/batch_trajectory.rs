//! Rollout output buffers of a pool: their layout, and the checks run on them.
use vstd::prelude::*;

use crate::errors::{ArrayName, BufferError};
use crate::layout::{fresh_view, is_fresh_view, shape2, shape3, Encoding};
use crate::shape::{
    dim_at,
    action_space_u16_check, all_hold, contiguity_check, ensure_action_space_u16,
    ensure_contiguous, ensure_first_two_dims, ensure_third_dim, ensure_legal_ids_dims, ensure_legal_offsets_dims,
    first_dim_check, first_failure, lemma_first_failure_bounds, third_dim_check, group_checks, legal_ids_dim_check, legal_offsets_dim_check,
    run_checks, ArrayView, Check,
};

verus! {

broadcast use group_checks;

/// The output buffers of a rollout with a dense action mask, one row per
/// step (Python classes `BatchOutTrajectory` and `BatchOutTrajectoryI16`,
/// which differ only in the element type of `obs`).
pub struct TrajectoryOut {
    /// The number of steps the buffers were laid out for.
    pub steps: usize,
    pub obs: ArrayView,
    pub masks: ArrayView,
    pub rewards: ArrayView,
    pub terminated: ArrayView,
    pub truncated: ArrayView,
    pub actor: ArrayView,
    pub decision_kind: ArrayView,
    pub decision_id: ArrayView,
    pub engine_status: ArrayView,
    pub spec_hash: ArrayView,
    pub actions: ArrayView,
}

impl TrajectoryOut {
    /// The buffers are the ones laid out for `steps` steps of `num_envs`
    /// environments: `obs` is `(steps, num_envs, obs_len)`, `masks` is
    /// `(steps, num_envs, action_space)`, every other buffer is
    /// `(steps, num_envs)`, and all are contiguous.
    pub open spec fn is_fresh(self, enc: Encoding, steps: usize, num_envs: usize) -> bool {
        &&& self.steps == steps
        &&& is_fresh_view(self.obs, seq![steps, num_envs, enc.obs_len])
        &&& is_fresh_view(self.masks, seq![steps, num_envs, enc.action_space])
        &&& is_fresh_view(self.rewards, seq![steps, num_envs])
        &&& is_fresh_view(self.terminated, seq![steps, num_envs])
        &&& is_fresh_view(self.truncated, seq![steps, num_envs])
        &&& is_fresh_view(self.actor, seq![steps, num_envs])
        &&& is_fresh_view(self.decision_kind, seq![steps, num_envs])
        &&& is_fresh_view(self.decision_id, seq![steps, num_envs])
        &&& is_fresh_view(self.engine_status, seq![steps, num_envs])
        &&& is_fresh_view(self.spec_hash, seq![steps, num_envs])
        &&& is_fresh_view(self.actions, seq![steps, num_envs])
    }

    /// The dimension checks of `ensure_batch_out_trajectory_dims`, in the order they are run.
    pub open spec fn dims_checks(self, enc: Encoding, steps: usize, num_envs: usize) -> Seq<Check> {
        seq![
            first_dim_check(ArrayName::Obs, self.obs.shape@, steps, Some(num_envs)),
            first_dim_check(ArrayName::Masks, self.masks.shape@, steps, Some(num_envs)),
            third_dim_check(ArrayName::Obs, self.obs.shape@, enc.obs_len),
            third_dim_check(ArrayName::Masks, self.masks.shape@, enc.action_space),
            first_dim_check(ArrayName::Rewards, self.rewards.shape@, steps, Some(num_envs)),
            first_dim_check(ArrayName::Terminated, self.terminated.shape@, steps, Some(num_envs)),
            first_dim_check(ArrayName::Truncated, self.truncated.shape@, steps, Some(num_envs)),
            first_dim_check(ArrayName::Actor, self.actor.shape@, steps, Some(num_envs)),
            first_dim_check(ArrayName::DecisionKind, self.decision_kind.shape@, steps, Some(num_envs)),
            first_dim_check(ArrayName::DecisionId, self.decision_id.shape@, steps, Some(num_envs)),
            first_dim_check(ArrayName::EngineStatus, self.engine_status.shape@, steps, Some(num_envs)),
            first_dim_check(ArrayName::SpecHash, self.spec_hash.shape@, steps, Some(num_envs)),
            first_dim_check(ArrayName::Actions, self.actions.shape@, steps, Some(num_envs)),
        ]
    }

    /// The checks that every buffer can be borrowed as a slice, in the order the buffers are borrowed.
    pub open spec fn contiguity_checks(self) -> Seq<Check> {
        seq![
            contiguity_check(ArrayName::Obs, self.obs.contiguous),
            contiguity_check(ArrayName::Masks, self.masks.contiguous),
            contiguity_check(ArrayName::Rewards, self.rewards.contiguous),
            contiguity_check(ArrayName::Terminated, self.terminated.contiguous),
            contiguity_check(ArrayName::Truncated, self.truncated.contiguous),
            contiguity_check(ArrayName::Actor, self.actor.contiguous),
            contiguity_check(ArrayName::DecisionKind, self.decision_kind.contiguous),
            contiguity_check(ArrayName::DecisionId, self.decision_id.contiguous),
            contiguity_check(ArrayName::EngineStatus, self.engine_status.contiguous),
            contiguity_check(ArrayName::SpecHash, self.spec_hash.contiguous),
            contiguity_check(ArrayName::Actions, self.actions.contiguous),
        ]
    }

    /// Lays out the buffers for `steps` steps of `num_envs` environments; zero steps or environments are refused.
    pub fn new(enc: Encoding, steps: usize, num_envs: usize) -> (r: Result<Self, BufferError>)
        ensures
            steps == 0 || num_envs == 0 ==> r == Err::<Self, BufferError>(BufferError::ZeroStepsOrEnvs),
            steps > 0 && num_envs > 0 ==> (r matches Ok(out) && out.is_fresh(enc, steps, num_envs)),
    {
        if steps == 0 || num_envs == 0 {
            return Err(BufferError::ZeroStepsOrEnvs);
        }
        Ok(
            TrajectoryOut {
                steps,
                obs: fresh_view(shape3(steps, num_envs, enc.obs_len)),
                masks: fresh_view(shape3(steps, num_envs, enc.action_space)),
                rewards: fresh_view(shape2(steps, num_envs)),
                terminated: fresh_view(shape2(steps, num_envs)),
                truncated: fresh_view(shape2(steps, num_envs)),
                actor: fresh_view(shape2(steps, num_envs)),
                decision_kind: fresh_view(shape2(steps, num_envs)),
                decision_id: fresh_view(shape2(steps, num_envs)),
                engine_status: fresh_view(shape2(steps, num_envs)),
                spec_hash: fresh_view(shape2(steps, num_envs)),
                actions: fresh_view(shape2(steps, num_envs)),
            },
        )
    }

    /// The dimension checks, as a list.
    pub fn dims_check_list(&self, enc: Encoding, steps: usize, num_envs: usize) -> (v: Vec<Check>)
        ensures
            v@ == self.dims_checks(enc, steps, num_envs),
    {
        let mut v = Vec::new();
        v.push(ensure_first_two_dims(ArrayName::Obs, &self.obs, steps, num_envs));
        v.push(ensure_first_two_dims(ArrayName::Masks, &self.masks, steps, num_envs));
        v.push(ensure_third_dim(ArrayName::Obs, &self.obs, enc.obs_len));
        v.push(ensure_third_dim(ArrayName::Masks, &self.masks, enc.action_space));
        v.push(ensure_first_two_dims(ArrayName::Rewards, &self.rewards, steps, num_envs));
        v.push(ensure_first_two_dims(ArrayName::Terminated, &self.terminated, steps, num_envs));
        v.push(ensure_first_two_dims(ArrayName::Truncated, &self.truncated, steps, num_envs));
        v.push(ensure_first_two_dims(ArrayName::Actor, &self.actor, steps, num_envs));
        v.push(ensure_first_two_dims(ArrayName::DecisionKind, &self.decision_kind, steps, num_envs));
        v.push(ensure_first_two_dims(ArrayName::DecisionId, &self.decision_id, steps, num_envs));
        v.push(ensure_first_two_dims(ArrayName::EngineStatus, &self.engine_status, steps, num_envs));
        v.push(ensure_first_two_dims(ArrayName::SpecHash, &self.spec_hash, steps, num_envs));
        v.push(ensure_first_two_dims(ArrayName::Actions, &self.actions, steps, num_envs));
        v
    }

    /// The contiguity checks, as a list.
    pub fn contiguity_check_list(&self) -> (v: Vec<Check>)
        ensures
            v@ == self.contiguity_checks(),
    {
        let mut v = Vec::new();
        v.push(ensure_contiguous(ArrayName::Obs, &self.obs));
        v.push(ensure_contiguous(ArrayName::Masks, &self.masks));
        v.push(ensure_contiguous(ArrayName::Rewards, &self.rewards));
        v.push(ensure_contiguous(ArrayName::Terminated, &self.terminated));
        v.push(ensure_contiguous(ArrayName::Truncated, &self.truncated));
        v.push(ensure_contiguous(ArrayName::Actor, &self.actor));
        v.push(ensure_contiguous(ArrayName::DecisionKind, &self.decision_kind));
        v.push(ensure_contiguous(ArrayName::DecisionId, &self.decision_id));
        v.push(ensure_contiguous(ArrayName::EngineStatus, &self.engine_status));
        v.push(ensure_contiguous(ArrayName::SpecHash, &self.spec_hash));
        v.push(ensure_contiguous(ArrayName::Actions, &self.actions));
        v
    }
}

/// Checks that the buffers of `out` are shaped for `steps` steps of
/// `num_envs` environments, reporting the first buffer that is not.
pub fn ensure_batch_out_trajectory_dims(out: &TrajectoryOut, enc: Encoding, steps: usize, num_envs: usize) -> (r: Check)
    ensures
        r == first_failure(out.dims_checks(enc, steps, num_envs)),
        r is Ok <==> all_hold(out.dims_checks(enc, steps, num_envs)),
{
    run_checks(&out.dims_check_list(enc, steps, num_envs))
}

/// Rollout buffers laid out for `steps` steps of `num_envs` environments
/// pass the dimension checks for those sizes, and all of them can be borrowed as slices.
pub proof fn fresh_trajectory_out_is_accepted(out: TrajectoryOut, enc: Encoding, steps: usize, num_envs: usize)
    requires
        out.is_fresh(enc, steps, num_envs),
    ensures
        all_hold(out.dims_checks(enc, steps, num_envs)),
        all_hold(out.contiguity_checks()),
{
}

/// The output buffers of a rollout that list legal action ids instead of a
/// dense mask, one row per step (Python class `BatchOutTrajectoryI16LegalIds`).
pub struct TrajectoryLegalIdsOut {
    /// The number of steps the buffers were laid out for.
    pub steps: usize,
    pub obs: ArrayView,
    pub legal_ids: ArrayView,
    pub legal_offsets: ArrayView,
    pub rewards: ArrayView,
    pub terminated: ArrayView,
    pub truncated: ArrayView,
    pub actor: ArrayView,
    pub decision_kind: ArrayView,
    pub decision_id: ArrayView,
    pub engine_status: ArrayView,
    pub spec_hash: ArrayView,
    pub actions: ArrayView,
}

impl TrajectoryLegalIdsOut {
    /// The buffers are the ones laid out for `steps` steps of `num_envs`
    /// environments: `obs` is `(steps, num_envs, obs_len)`, `legal_ids` is
    /// `(steps, num_envs * action_space)`, `legal_offsets` is
    /// `(steps, num_envs + 1)`, every other buffer is `(steps, num_envs)`,
    /// and all are contiguous.
    pub open spec fn is_fresh(self, enc: Encoding, steps: usize, num_envs: usize) -> bool {
        &&& self.steps == steps
        &&& is_fresh_view(self.obs, seq![steps, num_envs, enc.obs_len])
        &&& is_fresh_view(self.legal_ids, seq![steps, (num_envs * enc.action_space) as usize])
        &&& is_fresh_view(self.legal_offsets, seq![steps, (num_envs + 1) as usize])
        &&& is_fresh_view(self.rewards, seq![steps, num_envs])
        &&& is_fresh_view(self.terminated, seq![steps, num_envs])
        &&& is_fresh_view(self.truncated, seq![steps, num_envs])
        &&& is_fresh_view(self.actor, seq![steps, num_envs])
        &&& is_fresh_view(self.decision_kind, seq![steps, num_envs])
        &&& is_fresh_view(self.decision_id, seq![steps, num_envs])
        &&& is_fresh_view(self.engine_status, seq![steps, num_envs])
        &&& is_fresh_view(self.spec_hash, seq![steps, num_envs])
        &&& is_fresh_view(self.actions, seq![steps, num_envs])
    }

    /// The dimension checks of `ensure_batch_out_trajectory_i16_legal_ids_dims`, in the order they are run.
    pub open spec fn dims_checks(self, enc: Encoding, steps: usize, num_envs: usize) -> Seq<Check> {
        seq![
            action_space_u16_check(enc.action_space),
            first_dim_check(ArrayName::Obs, self.obs.shape@, steps, Some(num_envs)),
            third_dim_check(ArrayName::Obs, self.obs.shape@, enc.obs_len),
            legal_ids_dim_check(self.legal_ids.shape@, Some(steps), num_envs, enc.action_space),
            legal_offsets_dim_check(self.legal_offsets.shape@, Some(steps), num_envs),
            first_dim_check(ArrayName::Rewards, self.rewards.shape@, steps, Some(num_envs)),
            first_dim_check(ArrayName::Terminated, self.terminated.shape@, steps, Some(num_envs)),
            first_dim_check(ArrayName::Truncated, self.truncated.shape@, steps, Some(num_envs)),
            first_dim_check(ArrayName::Actor, self.actor.shape@, steps, Some(num_envs)),
            first_dim_check(ArrayName::DecisionKind, self.decision_kind.shape@, steps, Some(num_envs)),
            first_dim_check(ArrayName::DecisionId, self.decision_id.shape@, steps, Some(num_envs)),
            first_dim_check(ArrayName::EngineStatus, self.engine_status.shape@, steps, Some(num_envs)),
            first_dim_check(ArrayName::SpecHash, self.spec_hash.shape@, steps, Some(num_envs)),
            first_dim_check(ArrayName::Actions, self.actions.shape@, steps, Some(num_envs)),
        ]
    }

    /// The checks that every buffer can be borrowed as a slice, in the order the buffers are borrowed.
    pub open spec fn contiguity_checks(self) -> Seq<Check> {
        seq![
            contiguity_check(ArrayName::Obs, self.obs.contiguous),
            contiguity_check(ArrayName::LegalIds, self.legal_ids.contiguous),
            contiguity_check(ArrayName::LegalOffsets, self.legal_offsets.contiguous),
            contiguity_check(ArrayName::Rewards, self.rewards.contiguous),
            contiguity_check(ArrayName::Terminated, self.terminated.contiguous),
            contiguity_check(ArrayName::Truncated, self.truncated.contiguous),
            contiguity_check(ArrayName::Actor, self.actor.contiguous),
            contiguity_check(ArrayName::DecisionKind, self.decision_kind.contiguous),
            contiguity_check(ArrayName::DecisionId, self.decision_id.contiguous),
            contiguity_check(ArrayName::EngineStatus, self.engine_status.contiguous),
            contiguity_check(ArrayName::SpecHash, self.spec_hash.contiguous),
            contiguity_check(ArrayName::Actions, self.actions.contiguous),
        ]
    }

    /// Lays out the buffers for `steps` steps of `num_envs` environments. An
    /// action space that does not fit `u16` is refused first, then zero steps
    /// or environments.
    pub fn new(enc: Encoding, steps: usize, num_envs: usize) -> (r: Result<Self, BufferError>)
        requires
            enc.action_space <= u16::MAX && steps > 0 && num_envs > 0 ==> num_envs * enc.action_space <= usize::MAX && num_envs + 1 <= usize::MAX,
        ensures
            enc.action_space > u16::MAX ==> r == Err::<Self, BufferError>(BufferError::ActionSpaceTooLarge { action_space: enc.action_space }),
            enc.action_space <= u16::MAX && (steps == 0 || num_envs == 0) ==> r == Err::<Self, BufferError>(BufferError::ZeroStepsOrEnvs),
            enc.action_space <= u16::MAX && steps > 0 && num_envs > 0 ==> (r matches Ok(out) && out.is_fresh(enc, steps, num_envs)),
    {
        if enc.action_space > u16::MAX as usize {
            return Err(BufferError::ActionSpaceTooLarge { action_space: enc.action_space });
        }
        if steps == 0 || num_envs == 0 {
            return Err(BufferError::ZeroStepsOrEnvs);
        }
        Ok(
            TrajectoryLegalIdsOut {
                steps,
                obs: fresh_view(shape3(steps, num_envs, enc.obs_len)),
                legal_ids: fresh_view(shape2(steps, num_envs * enc.action_space)),
                legal_offsets: fresh_view(shape2(steps, num_envs + 1)),
                rewards: fresh_view(shape2(steps, num_envs)),
                terminated: fresh_view(shape2(steps, num_envs)),
                truncated: fresh_view(shape2(steps, num_envs)),
                actor: fresh_view(shape2(steps, num_envs)),
                decision_kind: fresh_view(shape2(steps, num_envs)),
                decision_id: fresh_view(shape2(steps, num_envs)),
                engine_status: fresh_view(shape2(steps, num_envs)),
                spec_hash: fresh_view(shape2(steps, num_envs)),
                actions: fresh_view(shape2(steps, num_envs)),
            },
        )
    }

    /// The dimension checks, as a list.
    pub fn dims_check_list(&self, enc: Encoding, steps: usize, num_envs: usize) -> (v: Vec<Check>)
        ensures
            v@ == self.dims_checks(enc, steps, num_envs),
    {
        let mut v = Vec::new();
        v.push(ensure_action_space_u16(enc.action_space));
        v.push(ensure_first_two_dims(ArrayName::Obs, &self.obs, steps, num_envs));
        v.push(ensure_third_dim(ArrayName::Obs, &self.obs, enc.obs_len));
        v.push(ensure_legal_ids_dims(&self.legal_ids, Some(steps), num_envs, enc.action_space));
        v.push(ensure_legal_offsets_dims(&self.legal_offsets, Some(steps), num_envs));
        v.push(ensure_first_two_dims(ArrayName::Rewards, &self.rewards, steps, num_envs));
        v.push(ensure_first_two_dims(ArrayName::Terminated, &self.terminated, steps, num_envs));
        v.push(ensure_first_two_dims(ArrayName::Truncated, &self.truncated, steps, num_envs));
        v.push(ensure_first_two_dims(ArrayName::Actor, &self.actor, steps, num_envs));
        v.push(ensure_first_two_dims(ArrayName::DecisionKind, &self.decision_kind, steps, num_envs));
        v.push(ensure_first_two_dims(ArrayName::DecisionId, &self.decision_id, steps, num_envs));
        v.push(ensure_first_two_dims(ArrayName::EngineStatus, &self.engine_status, steps, num_envs));
        v.push(ensure_first_two_dims(ArrayName::SpecHash, &self.spec_hash, steps, num_envs));
        v.push(ensure_first_two_dims(ArrayName::Actions, &self.actions, steps, num_envs));
        v
    }

    /// The contiguity checks, as a list.
    pub fn contiguity_check_list(&self) -> (v: Vec<Check>)
        ensures
            v@ == self.contiguity_checks(),
    {
        let mut v = Vec::new();
        v.push(ensure_contiguous(ArrayName::Obs, &self.obs));
        v.push(ensure_contiguous(ArrayName::LegalIds, &self.legal_ids));
        v.push(ensure_contiguous(ArrayName::LegalOffsets, &self.legal_offsets));
        v.push(ensure_contiguous(ArrayName::Rewards, &self.rewards));
        v.push(ensure_contiguous(ArrayName::Terminated, &self.terminated));
        v.push(ensure_contiguous(ArrayName::Truncated, &self.truncated));
        v.push(ensure_contiguous(ArrayName::Actor, &self.actor));
        v.push(ensure_contiguous(ArrayName::DecisionKind, &self.decision_kind));
        v.push(ensure_contiguous(ArrayName::DecisionId, &self.decision_id));
        v.push(ensure_contiguous(ArrayName::EngineStatus, &self.engine_status));
        v.push(ensure_contiguous(ArrayName::SpecHash, &self.spec_hash));
        v.push(ensure_contiguous(ArrayName::Actions, &self.actions));
        v
    }
}

/// Checks that the action space fits `u16` and that the buffers of `out`
/// are shaped for `steps` steps of `num_envs` environments, reporting the first failure.
pub fn ensure_batch_out_trajectory_i16_legal_ids_dims(out: &TrajectoryLegalIdsOut, enc: Encoding, steps: usize, num_envs: usize) -> (r: Check)
    ensures
        r == first_failure(out.dims_checks(enc, steps, num_envs)),
        r is Ok <==> all_hold(out.dims_checks(enc, steps, num_envs)),
{
    run_checks(&out.dims_check_list(enc, steps, num_envs))
}

/// Legal-ids rollout buffers laid out for `steps` steps of `num_envs`
/// environments pass the dimension checks for those sizes whenever the action
/// space fits `u16` and the sizes fit `usize`, and all of them can be borrowed as slices.
pub proof fn fresh_trajectory_legal_ids_out_is_accepted(out: TrajectoryLegalIdsOut, enc: Encoding, steps: usize, num_envs: usize)
    requires
        out.is_fresh(enc, steps, num_envs),
        enc.action_space <= u16::MAX,
        num_envs * enc.action_space <= usize::MAX,
        num_envs + 1 <= usize::MAX,
    ensures
        all_hold(out.dims_checks(enc, steps, num_envs)),
        all_hold(out.contiguity_checks()),
{
}

/// The output buffers of a rollout without any action mask, one row per
/// step (Python class `BatchOutTrajectoryNoMask`).
pub struct TrajectoryNoMaskOut {
    /// The number of steps the buffers were laid out for.
    pub steps: usize,
    pub obs: ArrayView,
    pub rewards: ArrayView,
    pub terminated: ArrayView,
    pub truncated: ArrayView,
    pub actor: ArrayView,
    pub decision_kind: ArrayView,
    pub decision_id: ArrayView,
    pub engine_status: ArrayView,
    pub spec_hash: ArrayView,
    pub actions: ArrayView,
}

impl TrajectoryNoMaskOut {
    /// The buffers are the ones laid out for `steps` steps of `num_envs`
    /// environments: `obs` is `(steps, num_envs, obs_len)`, every other buffer
    /// is `(steps, num_envs)`, and all are contiguous.
    pub open spec fn is_fresh(self, enc: Encoding, steps: usize, num_envs: usize) -> bool {
        &&& self.steps == steps
        &&& is_fresh_view(self.obs, seq![steps, num_envs, enc.obs_len])
        &&& is_fresh_view(self.rewards, seq![steps, num_envs])
        &&& is_fresh_view(self.terminated, seq![steps, num_envs])
        &&& is_fresh_view(self.truncated, seq![steps, num_envs])
        &&& is_fresh_view(self.actor, seq![steps, num_envs])
        &&& is_fresh_view(self.decision_kind, seq![steps, num_envs])
        &&& is_fresh_view(self.decision_id, seq![steps, num_envs])
        &&& is_fresh_view(self.engine_status, seq![steps, num_envs])
        &&& is_fresh_view(self.spec_hash, seq![steps, num_envs])
        &&& is_fresh_view(self.actions, seq![steps, num_envs])
    }

    /// The dimension checks of `ensure_batch_out_trajectory_nomask_dims`, in the order they are run.
    pub open spec fn dims_checks(self, enc: Encoding, steps: usize, num_envs: usize) -> Seq<Check> {
        seq![
            first_dim_check(ArrayName::Obs, self.obs.shape@, steps, Some(num_envs)),
            third_dim_check(ArrayName::Obs, self.obs.shape@, enc.obs_len),
            first_dim_check(ArrayName::Rewards, self.rewards.shape@, steps, Some(num_envs)),
            first_dim_check(ArrayName::Terminated, self.terminated.shape@, steps, Some(num_envs)),
            first_dim_check(ArrayName::Truncated, self.truncated.shape@, steps, Some(num_envs)),
            first_dim_check(ArrayName::Actor, self.actor.shape@, steps, Some(num_envs)),
            first_dim_check(ArrayName::DecisionKind, self.decision_kind.shape@, steps, Some(num_envs)),
            first_dim_check(ArrayName::DecisionId, self.decision_id.shape@, steps, Some(num_envs)),
            first_dim_check(ArrayName::EngineStatus, self.engine_status.shape@, steps, Some(num_envs)),
            first_dim_check(ArrayName::SpecHash, self.spec_hash.shape@, steps, Some(num_envs)),
            first_dim_check(ArrayName::Actions, self.actions.shape@, steps, Some(num_envs)),
        ]
    }

    /// The checks that every buffer can be borrowed as a slice, in the order the buffers are borrowed.
    pub open spec fn contiguity_checks(self) -> Seq<Check> {
        seq![
            contiguity_check(ArrayName::Obs, self.obs.contiguous),
            contiguity_check(ArrayName::Rewards, self.rewards.contiguous),
            contiguity_check(ArrayName::Terminated, self.terminated.contiguous),
            contiguity_check(ArrayName::Truncated, self.truncated.contiguous),
            contiguity_check(ArrayName::Actor, self.actor.contiguous),
            contiguity_check(ArrayName::DecisionKind, self.decision_kind.contiguous),
            contiguity_check(ArrayName::DecisionId, self.decision_id.contiguous),
            contiguity_check(ArrayName::EngineStatus, self.engine_status.contiguous),
            contiguity_check(ArrayName::SpecHash, self.spec_hash.contiguous),
            contiguity_check(ArrayName::Actions, self.actions.contiguous),
        ]
    }

    /// Lays out the buffers for `steps` steps of `num_envs` environments; zero steps or environments are refused.
    pub fn new(enc: Encoding, steps: usize, num_envs: usize) -> (r: Result<Self, BufferError>)
        ensures
            steps == 0 || num_envs == 0 ==> r == Err::<Self, BufferError>(BufferError::ZeroStepsOrEnvs),
            steps > 0 && num_envs > 0 ==> (r matches Ok(out) && out.is_fresh(enc, steps, num_envs)),
    {
        if steps == 0 || num_envs == 0 {
            return Err(BufferError::ZeroStepsOrEnvs);
        }
        Ok(
            TrajectoryNoMaskOut {
                steps,
                obs: fresh_view(shape3(steps, num_envs, enc.obs_len)),
                rewards: fresh_view(shape2(steps, num_envs)),
                terminated: fresh_view(shape2(steps, num_envs)),
                truncated: fresh_view(shape2(steps, num_envs)),
                actor: fresh_view(shape2(steps, num_envs)),
                decision_kind: fresh_view(shape2(steps, num_envs)),
                decision_id: fresh_view(shape2(steps, num_envs)),
                engine_status: fresh_view(shape2(steps, num_envs)),
                spec_hash: fresh_view(shape2(steps, num_envs)),
                actions: fresh_view(shape2(steps, num_envs)),
            },
        )
    }

    /// The dimension checks, as a list.
    pub fn dims_check_list(&self, enc: Encoding, steps: usize, num_envs: usize) -> (v: Vec<Check>)
        ensures
            v@ == self.dims_checks(enc, steps, num_envs),
    {
        let mut v = Vec::new();
        v.push(ensure_first_two_dims(ArrayName::Obs, &self.obs, steps, num_envs));
        v.push(ensure_third_dim(ArrayName::Obs, &self.obs, enc.obs_len));
        v.push(ensure_first_two_dims(ArrayName::Rewards, &self.rewards, steps, num_envs));
        v.push(ensure_first_two_dims(ArrayName::Terminated, &self.terminated, steps, num_envs));
        v.push(ensure_first_two_dims(ArrayName::Truncated, &self.truncated, steps, num_envs));
        v.push(ensure_first_two_dims(ArrayName::Actor, &self.actor, steps, num_envs));
        v.push(ensure_first_two_dims(ArrayName::DecisionKind, &self.decision_kind, steps, num_envs));
        v.push(ensure_first_two_dims(ArrayName::DecisionId, &self.decision_id, steps, num_envs));
        v.push(ensure_first_two_dims(ArrayName::EngineStatus, &self.engine_status, steps, num_envs));
        v.push(ensure_first_two_dims(ArrayName::SpecHash, &self.spec_hash, steps, num_envs));
        v.push(ensure_first_two_dims(ArrayName::Actions, &self.actions, steps, num_envs));
        v
    }

    /// The contiguity checks, as a list.
    pub fn contiguity_check_list(&self) -> (v: Vec<Check>)
        ensures
            v@ == self.contiguity_checks(),
    {
        let mut v = Vec::new();
        v.push(ensure_contiguous(ArrayName::Obs, &self.obs));
        v.push(ensure_contiguous(ArrayName::Rewards, &self.rewards));
        v.push(ensure_contiguous(ArrayName::Terminated, &self.terminated));
        v.push(ensure_contiguous(ArrayName::Truncated, &self.truncated));
        v.push(ensure_contiguous(ArrayName::Actor, &self.actor));
        v.push(ensure_contiguous(ArrayName::DecisionKind, &self.decision_kind));
        v.push(ensure_contiguous(ArrayName::DecisionId, &self.decision_id));
        v.push(ensure_contiguous(ArrayName::EngineStatus, &self.engine_status));
        v.push(ensure_contiguous(ArrayName::SpecHash, &self.spec_hash));
        v.push(ensure_contiguous(ArrayName::Actions, &self.actions));
        v
    }
}

/// Checks that the buffers of `out` are shaped for `steps` steps of
/// `num_envs` environments, reporting the first buffer that is not.
pub fn ensure_batch_out_trajectory_nomask_dims(out: &TrajectoryNoMaskOut, enc: Encoding, steps: usize, num_envs: usize) -> (r: Check)
    ensures
        r == first_failure(out.dims_checks(enc, steps, num_envs)),
        r is Ok <==> all_hold(out.dims_checks(enc, steps, num_envs)),
{
    run_checks(&out.dims_check_list(enc, steps, num_envs))
}

/// Mask-free rollout buffers laid out for `steps` steps of `num_envs`
/// environments pass the dimension checks for those sizes, and all of them can be borrowed as slices.
pub proof fn fresh_trajectory_nomask_out_is_accepted(out: TrajectoryNoMaskOut, enc: Encoding, steps: usize, num_envs: usize)
    requires
        out.is_fresh(enc, steps, num_envs),
    ensures
        all_hold(out.dims_checks(enc, steps, num_envs)),
        all_hold(out.contiguity_checks()),
{
}

/// Rollout buffers laid out for `steps` steps of `num_envs` environments are refused
/// by the dimension checks for any other step count or number of environments.
pub proof fn fresh_trajectory_out_refuses_other_sizes(
    out: TrajectoryOut,
    enc: Encoding,
    steps: usize,
    num_envs: usize,
    other_steps: usize,
    other_num_envs: usize,
)
    requires
        out.is_fresh(enc, steps, num_envs),
        other_steps != steps || other_num_envs != num_envs,
    ensures
        !all_hold(out.dims_checks(enc, other_steps, other_num_envs)),
        first_failure(out.dims_checks(enc, other_steps, other_num_envs)) is Err,
{
    let checks = out.dims_checks(enc, other_steps, other_num_envs);
    assert(checks[0] is Err);
    lemma_first_failure_bounds(checks);
}

/// Legal-ids rollout buffers laid out for `steps` steps of `num_envs` environments are refused
/// by the dimension checks for any other step count or number of environments.
pub proof fn fresh_trajectory_legal_ids_out_refuses_other_sizes(
    out: TrajectoryLegalIdsOut,
    enc: Encoding,
    steps: usize,
    num_envs: usize,
    other_steps: usize,
    other_num_envs: usize,
)
    requires
        out.is_fresh(enc, steps, num_envs),
        other_steps != steps || other_num_envs != num_envs,
    ensures
        !all_hold(out.dims_checks(enc, other_steps, other_num_envs)),
        first_failure(out.dims_checks(enc, other_steps, other_num_envs)) is Err,
{
    let checks = out.dims_checks(enc, other_steps, other_num_envs);
    assert(checks[1] is Err);
    lemma_first_failure_bounds(checks);
}

/// Mask-free rollout buffers laid out for `steps` steps of `num_envs` environments are refused
/// by the dimension checks for any other step count or number of environments.
pub proof fn fresh_trajectory_nomask_out_refuses_other_sizes(
    out: TrajectoryNoMaskOut,
    enc: Encoding,
    steps: usize,
    num_envs: usize,
    other_steps: usize,
    other_num_envs: usize,
)
    requires
        out.is_fresh(enc, steps, num_envs),
        other_steps != steps || other_num_envs != num_envs,
    ensures
        !all_hold(out.dims_checks(enc, other_steps, other_num_envs)),
        first_failure(out.dims_checks(enc, other_steps, other_num_envs)) is Err,
{
    let checks = out.dims_checks(enc, other_steps, other_num_envs);
    assert(checks[0] is Err);
    lemma_first_failure_bounds(checks);
}


/// Rollout buffers laid out for `steps` steps of `num_envs` environments are shaped
/// `(steps, num_envs, obs_len)` for `obs`, `(steps, num_envs, action_space)` for `masks`, and
/// `(steps, num_envs)` for every other buffer, `actions` included.
pub proof fn fresh_trajectory_out_shapes(out: TrajectoryOut, enc: Encoding, steps: usize, num_envs: usize)
    requires
        out.is_fresh(enc, steps, num_envs),
    ensures
        out.obs.shape@.len() == 3,
        out.obs.shape@[0] == steps,
        out.obs.shape@[1] == num_envs,
        out.obs.shape@[2] == enc.obs_len,
        out.masks.shape@.len() == 3,
        out.masks.shape@[0] == steps,
        out.masks.shape@[1] == num_envs,
        out.masks.shape@[2] == enc.action_space,
        out.rewards.shape@.len() == 2,
        out.rewards.shape@[0] == steps,
        out.rewards.shape@[1] == num_envs,
        out.terminated.shape@.len() == 2,
        out.terminated.shape@[0] == steps,
        out.terminated.shape@[1] == num_envs,
        out.truncated.shape@.len() == 2,
        out.truncated.shape@[0] == steps,
        out.truncated.shape@[1] == num_envs,
        out.actor.shape@.len() == 2,
        out.actor.shape@[0] == steps,
        out.actor.shape@[1] == num_envs,
        out.decision_kind.shape@.len() == 2,
        out.decision_kind.shape@[0] == steps,
        out.decision_kind.shape@[1] == num_envs,
        out.decision_id.shape@.len() == 2,
        out.decision_id.shape@[0] == steps,
        out.decision_id.shape@[1] == num_envs,
        out.engine_status.shape@.len() == 2,
        out.engine_status.shape@[0] == steps,
        out.engine_status.shape@[1] == num_envs,
        out.spec_hash.shape@.len() == 2,
        out.spec_hash.shape@[0] == steps,
        out.spec_hash.shape@[1] == num_envs,
        out.actions.shape@.len() == 2,
        out.actions.shape@[0] == steps,
        out.actions.shape@[1] == num_envs,
{
}

/// The rollout dimension checks accept exactly the buffers that lead with `(steps, num_envs)`,
/// with `obs_len` as the third extent of `obs` and `action_space` as that of `masks`.
pub proof fn trajectory_out_dims_accept_exactly(out: TrajectoryOut, enc: Encoding, steps: usize, num_envs: usize)
    ensures
        all_hold(out.dims_checks(enc, steps, num_envs)) <==> {
            &&& dim_at(out.obs.shape@, 0) == steps
            &&& dim_at(out.obs.shape@, 1) == num_envs
            &&& dim_at(out.obs.shape@, 2) == enc.obs_len
            &&& dim_at(out.masks.shape@, 0) == steps
            &&& dim_at(out.masks.shape@, 1) == num_envs
            &&& dim_at(out.masks.shape@, 2) == enc.action_space
            &&& dim_at(out.rewards.shape@, 0) == steps
            &&& dim_at(out.rewards.shape@, 1) == num_envs
            &&& dim_at(out.terminated.shape@, 0) == steps
            &&& dim_at(out.terminated.shape@, 1) == num_envs
            &&& dim_at(out.truncated.shape@, 0) == steps
            &&& dim_at(out.truncated.shape@, 1) == num_envs
            &&& dim_at(out.actor.shape@, 0) == steps
            &&& dim_at(out.actor.shape@, 1) == num_envs
            &&& dim_at(out.decision_kind.shape@, 0) == steps
            &&& dim_at(out.decision_kind.shape@, 1) == num_envs
            &&& dim_at(out.decision_id.shape@, 0) == steps
            &&& dim_at(out.decision_id.shape@, 1) == num_envs
            &&& dim_at(out.engine_status.shape@, 0) == steps
            &&& dim_at(out.engine_status.shape@, 1) == num_envs
            &&& dim_at(out.spec_hash.shape@, 0) == steps
            &&& dim_at(out.spec_hash.shape@, 1) == num_envs
            &&& dim_at(out.actions.shape@, 0) == steps
            &&& dim_at(out.actions.shape@, 1) == num_envs
        },
{
}


/// Legal-ids rollout buffers laid out for `steps` steps of `num_envs` environments are shaped
/// `(steps, num_envs, obs_len)` for `obs`, `(steps, num_envs * action_space)` for `legal_ids`,
/// `(steps, num_envs + 1)` for `legal_offsets`, and `(steps, num_envs)` for every other buffer.
pub proof fn fresh_trajectory_legal_ids_out_shapes(out: TrajectoryLegalIdsOut, enc: Encoding, steps: usize, num_envs: usize)
    requires
        out.is_fresh(enc, steps, num_envs),
        num_envs * enc.action_space <= usize::MAX,
        num_envs + 1 <= usize::MAX,
    ensures
        out.obs.shape@.len() == 3,
        out.obs.shape@[0] == steps,
        out.obs.shape@[1] == num_envs,
        out.obs.shape@[2] == enc.obs_len,
        out.legal_ids.shape@.len() == 2,
        out.legal_ids.shape@[0] == steps,
        out.legal_ids.shape@[1] == num_envs * enc.action_space,
        out.legal_offsets.shape@.len() == 2,
        out.legal_offsets.shape@[0] == steps,
        out.legal_offsets.shape@[1] == num_envs + 1,
        out.rewards.shape@.len() == 2,
        out.rewards.shape@[0] == steps,
        out.rewards.shape@[1] == num_envs,
        out.terminated.shape@.len() == 2,
        out.terminated.shape@[0] == steps,
        out.terminated.shape@[1] == num_envs,
        out.truncated.shape@.len() == 2,
        out.truncated.shape@[0] == steps,
        out.truncated.shape@[1] == num_envs,
        out.actor.shape@.len() == 2,
        out.actor.shape@[0] == steps,
        out.actor.shape@[1] == num_envs,
        out.decision_kind.shape@.len() == 2,
        out.decision_kind.shape@[0] == steps,
        out.decision_kind.shape@[1] == num_envs,
        out.decision_id.shape@.len() == 2,
        out.decision_id.shape@[0] == steps,
        out.decision_id.shape@[1] == num_envs,
        out.engine_status.shape@.len() == 2,
        out.engine_status.shape@[0] == steps,
        out.engine_status.shape@[1] == num_envs,
        out.spec_hash.shape@.len() == 2,
        out.spec_hash.shape@[0] == steps,
        out.spec_hash.shape@[1] == num_envs,
        out.actions.shape@.len() == 2,
        out.actions.shape@[0] == steps,
        out.actions.shape@[1] == num_envs,
{
}

/// The legal-ids rollout dimension checks accept exactly when the action space fits `u16`,
/// the id and offset counts fit `usize`, and every buffer leads with `steps` and then
/// `num_envs` (`num_envs * action_space` for `legal_ids`, `num_envs + 1` for `legal_offsets`),
/// with `obs_len` as the third extent of `obs`.
pub proof fn trajectory_legal_ids_out_dims_accept_exactly(out: TrajectoryLegalIdsOut, enc: Encoding, steps: usize, num_envs: usize)
    ensures
        all_hold(out.dims_checks(enc, steps, num_envs)) <==> {
            &&& enc.action_space <= u16::MAX
            &&& num_envs * enc.action_space <= usize::MAX
            &&& num_envs + 1 <= usize::MAX
            &&& dim_at(out.obs.shape@, 0) == steps
            &&& dim_at(out.obs.shape@, 1) == num_envs
            &&& dim_at(out.obs.shape@, 2) == enc.obs_len
            &&& dim_at(out.legal_ids.shape@, 0) == steps
            &&& dim_at(out.legal_ids.shape@, 1) == num_envs * enc.action_space
            &&& dim_at(out.legal_offsets.shape@, 0) == steps
            &&& dim_at(out.legal_offsets.shape@, 1) == num_envs + 1
            &&& dim_at(out.rewards.shape@, 0) == steps
            &&& dim_at(out.rewards.shape@, 1) == num_envs
            &&& dim_at(out.terminated.shape@, 0) == steps
            &&& dim_at(out.terminated.shape@, 1) == num_envs
            &&& dim_at(out.truncated.shape@, 0) == steps
            &&& dim_at(out.truncated.shape@, 1) == num_envs
            &&& dim_at(out.actor.shape@, 0) == steps
            &&& dim_at(out.actor.shape@, 1) == num_envs
            &&& dim_at(out.decision_kind.shape@, 0) == steps
            &&& dim_at(out.decision_kind.shape@, 1) == num_envs
            &&& dim_at(out.decision_id.shape@, 0) == steps
            &&& dim_at(out.decision_id.shape@, 1) == num_envs
            &&& dim_at(out.engine_status.shape@, 0) == steps
            &&& dim_at(out.engine_status.shape@, 1) == num_envs
            &&& dim_at(out.spec_hash.shape@, 0) == steps
            &&& dim_at(out.spec_hash.shape@, 1) == num_envs
            &&& dim_at(out.actions.shape@, 0) == steps
            &&& dim_at(out.actions.shape@, 1) == num_envs
        },
{
}


/// Mask-free rollout buffers laid out for `steps` steps of `num_envs` environments are shaped
/// `(steps, num_envs, obs_len)` for `obs` and `(steps, num_envs)` for every other buffer.
pub proof fn fresh_trajectory_nomask_out_shapes(out: TrajectoryNoMaskOut, enc: Encoding, steps: usize, num_envs: usize)
    requires
        out.is_fresh(enc, steps, num_envs),
    ensures
        out.obs.shape@.len() == 3,
        out.obs.shape@[0] == steps,
        out.obs.shape@[1] == num_envs,
        out.obs.shape@[2] == enc.obs_len,
        out.rewards.shape@.len() == 2,
        out.rewards.shape@[0] == steps,
        out.rewards.shape@[1] == num_envs,
        out.terminated.shape@.len() == 2,
        out.terminated.shape@[0] == steps,
        out.terminated.shape@[1] == num_envs,
        out.truncated.shape@.len() == 2,
        out.truncated.shape@[0] == steps,
        out.truncated.shape@[1] == num_envs,
        out.actor.shape@.len() == 2,
        out.actor.shape@[0] == steps,
        out.actor.shape@[1] == num_envs,
        out.decision_kind.shape@.len() == 2,
        out.decision_kind.shape@[0] == steps,
        out.decision_kind.shape@[1] == num_envs,
        out.decision_id.shape@.len() == 2,
        out.decision_id.shape@[0] == steps,
        out.decision_id.shape@[1] == num_envs,
        out.engine_status.shape@.len() == 2,
        out.engine_status.shape@[0] == steps,
        out.engine_status.shape@[1] == num_envs,
        out.spec_hash.shape@.len() == 2,
        out.spec_hash.shape@[0] == steps,
        out.spec_hash.shape@[1] == num_envs,
        out.actions.shape@.len() == 2,
        out.actions.shape@[0] == steps,
        out.actions.shape@[1] == num_envs,
{
}

/// The mask-free rollout dimension checks accept exactly the buffers that lead with
/// `(steps, num_envs)`, with `obs_len` as the third extent of `obs`.
pub proof fn trajectory_nomask_out_dims_accept_exactly(out: TrajectoryNoMaskOut, enc: Encoding, steps: usize, num_envs: usize)
    ensures
        all_hold(out.dims_checks(enc, steps, num_envs)) <==> {
            &&& dim_at(out.obs.shape@, 0) == steps
            &&& dim_at(out.obs.shape@, 1) == num_envs
            &&& dim_at(out.obs.shape@, 2) == enc.obs_len
            &&& dim_at(out.rewards.shape@, 0) == steps
            &&& dim_at(out.rewards.shape@, 1) == num_envs
            &&& dim_at(out.terminated.shape@, 0) == steps
            &&& dim_at(out.terminated.shape@, 1) == num_envs
            &&& dim_at(out.truncated.shape@, 0) == steps
            &&& dim_at(out.truncated.shape@, 1) == num_envs
            &&& dim_at(out.actor.shape@, 0) == steps
            &&& dim_at(out.actor.shape@, 1) == num_envs
            &&& dim_at(out.decision_kind.shape@, 0) == steps
            &&& dim_at(out.decision_kind.shape@, 1) == num_envs
            &&& dim_at(out.decision_id.shape@, 0) == steps
            &&& dim_at(out.decision_id.shape@, 1) == num_envs
            &&& dim_at(out.engine_status.shape@, 0) == steps
            &&& dim_at(out.engine_status.shape@, 1) == num_envs
            &&& dim_at(out.spec_hash.shape@, 0) == steps
            &&& dim_at(out.spec_hash.shape@, 1) == num_envs
            &&& dim_at(out.actions.shape@, 0) == steps
            &&& dim_at(out.actions.shape@, 1) == num_envs
        },
{
}

} // verus!
