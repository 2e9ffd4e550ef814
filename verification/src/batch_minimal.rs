//! Per-step output buffers of a pool: their layout, and the checks run on them.
use vstd::prelude::*;

use crate::errors::{ArrayName, BufferError};
use crate::layout::{fresh_view, is_fresh_view, shape1, shape2, Encoding};
use crate::shape::{
    dim_at,
    action_space_u16_check, all_hold, contiguity_check, ensure_action_space_u16,
    ensure_contiguous, ensure_first_dim, ensure_legal_ids_dims, ensure_legal_offsets_dims,
    first_dim_check, first_failure, lemma_first_failure_bounds, group_checks, legal_ids_dim_check, legal_offsets_dim_check,
    run_checks, ArrayView, Check,
};

verus! {

broadcast use group_checks;

/// The per-step output buffers with a dense action mask (Python classes
/// `BatchOutMinimal` and `BatchOutMinimalI16`, which differ only in the
/// element type of `obs`).
pub struct MinimalOut {
    pub obs: ArrayView,
    pub masks: ArrayView,
    pub rewards: ArrayView,
    pub terminated: ArrayView,
    pub truncated: ArrayView,
    pub actor: ArrayView,
    pub decision_kind: ArrayView,
    pub decision_id: ArrayView,
    pub engine_status: ArrayView,
    pub spec_hash: ArrayView,
}

impl MinimalOut {
    /// The buffers are the ones laid out for `num_envs` environments:
    /// `obs` is `(num_envs, obs_len)`, `masks` is `(num_envs, action_space)`,
    /// every other buffer holds `num_envs` entries, and all are contiguous.
    pub open spec fn is_fresh(self, enc: Encoding, num_envs: usize) -> bool {
        &&& is_fresh_view(self.obs, seq![num_envs, enc.obs_len])
        &&& is_fresh_view(self.masks, seq![num_envs, enc.action_space])
        &&& is_fresh_view(self.rewards, seq![num_envs])
        &&& is_fresh_view(self.terminated, seq![num_envs])
        &&& is_fresh_view(self.truncated, seq![num_envs])
        &&& is_fresh_view(self.actor, seq![num_envs])
        &&& is_fresh_view(self.decision_kind, seq![num_envs])
        &&& is_fresh_view(self.decision_id, seq![num_envs])
        &&& is_fresh_view(self.engine_status, seq![num_envs])
        &&& is_fresh_view(self.spec_hash, seq![num_envs])
    }

    /// The dimension checks of `ensure_batch_out_minimal_dims`, in the order they are run.
    pub open spec fn dims_checks(self, enc: Encoding, num_envs: usize) -> Seq<Check> {
        seq![
            first_dim_check(ArrayName::Obs, self.obs.shape@, num_envs, Some(enc.obs_len)),
            first_dim_check(ArrayName::Masks, self.masks.shape@, num_envs, Some(enc.action_space)),
            first_dim_check(ArrayName::Rewards, self.rewards.shape@, num_envs, None),
            first_dim_check(ArrayName::Terminated, self.terminated.shape@, num_envs, None),
            first_dim_check(ArrayName::Truncated, self.truncated.shape@, num_envs, None),
            first_dim_check(ArrayName::Actor, self.actor.shape@, num_envs, None),
            first_dim_check(ArrayName::DecisionKind, self.decision_kind.shape@, num_envs, None),
            first_dim_check(ArrayName::DecisionId, self.decision_id.shape@, num_envs, None),
            first_dim_check(ArrayName::EngineStatus, self.engine_status.shape@, num_envs, None),
            first_dim_check(ArrayName::SpecHash, self.spec_hash.shape@, num_envs, None),
        ]
    }

    /// The checks that every buffer can be borrowed as a slice, in the order the buffers are borrowed.
    pub open spec fn contiguity_checks(self) -> Seq<Check> {
        seq![
            contiguity_check(ArrayName::Obs, self.obs.contiguous),
            contiguity_check(ArrayName::Masks, self.masks.contiguous),
            contiguity_check(ArrayName::Rewards, self.rewards.contiguous),
            contiguity_check(ArrayName::Terminated, self.terminated.contiguous),
            contiguity_check(ArrayName::Truncated, self.truncated.contiguous),
            contiguity_check(ArrayName::Actor, self.actor.contiguous),
            contiguity_check(ArrayName::DecisionKind, self.decision_kind.contiguous),
            contiguity_check(ArrayName::DecisionId, self.decision_id.contiguous),
            contiguity_check(ArrayName::EngineStatus, self.engine_status.contiguous),
            contiguity_check(ArrayName::SpecHash, self.spec_hash.contiguous),
        ]
    }

    /// Lays out the buffers for `num_envs` environments; zero environments are refused.
    pub fn new(enc: Encoding, num_envs: usize) -> (r: Result<Self, BufferError>)
        ensures
            num_envs == 0 ==> r == Err::<Self, BufferError>(BufferError::ZeroEnvs),
            num_envs > 0 ==> (r matches Ok(out) && out.is_fresh(enc, num_envs)),
    {
        if num_envs == 0 {
            return Err(BufferError::ZeroEnvs);
        }
        Ok(
            MinimalOut {
                obs: fresh_view(shape2(num_envs, enc.obs_len)),
                masks: fresh_view(shape2(num_envs, enc.action_space)),
                rewards: fresh_view(shape1(num_envs)),
                terminated: fresh_view(shape1(num_envs)),
                truncated: fresh_view(shape1(num_envs)),
                actor: fresh_view(shape1(num_envs)),
                decision_kind: fresh_view(shape1(num_envs)),
                decision_id: fresh_view(shape1(num_envs)),
                engine_status: fresh_view(shape1(num_envs)),
                spec_hash: fresh_view(shape1(num_envs)),
            },
        )
    }

    /// The dimension checks, as a list.
    pub fn dims_check_list(&self, enc: Encoding, num_envs: usize) -> (v: Vec<Check>)
        ensures
            v@ == self.dims_checks(enc, num_envs),
    {
        let mut v = Vec::new();
        v.push(ensure_first_dim(ArrayName::Obs, &self.obs, num_envs, Some(enc.obs_len)));
        v.push(ensure_first_dim(ArrayName::Masks, &self.masks, num_envs, Some(enc.action_space)));
        v.push(ensure_first_dim(ArrayName::Rewards, &self.rewards, num_envs, None));
        v.push(ensure_first_dim(ArrayName::Terminated, &self.terminated, num_envs, None));
        v.push(ensure_first_dim(ArrayName::Truncated, &self.truncated, num_envs, None));
        v.push(ensure_first_dim(ArrayName::Actor, &self.actor, num_envs, None));
        v.push(ensure_first_dim(ArrayName::DecisionKind, &self.decision_kind, num_envs, None));
        v.push(ensure_first_dim(ArrayName::DecisionId, &self.decision_id, num_envs, None));
        v.push(ensure_first_dim(ArrayName::EngineStatus, &self.engine_status, num_envs, None));
        v.push(ensure_first_dim(ArrayName::SpecHash, &self.spec_hash, num_envs, None));
        v
    }

    /// The contiguity checks, as a list.
    pub fn contiguity_check_list(&self) -> (v: Vec<Check>)
        ensures
            v@ == self.contiguity_checks(),
    {
        let mut v = Vec::new();
        v.push(ensure_contiguous(ArrayName::Obs, &self.obs));
        v.push(ensure_contiguous(ArrayName::Masks, &self.masks));
        v.push(ensure_contiguous(ArrayName::Rewards, &self.rewards));
        v.push(ensure_contiguous(ArrayName::Terminated, &self.terminated));
        v.push(ensure_contiguous(ArrayName::Truncated, &self.truncated));
        v.push(ensure_contiguous(ArrayName::Actor, &self.actor));
        v.push(ensure_contiguous(ArrayName::DecisionKind, &self.decision_kind));
        v.push(ensure_contiguous(ArrayName::DecisionId, &self.decision_id));
        v.push(ensure_contiguous(ArrayName::EngineStatus, &self.engine_status));
        v.push(ensure_contiguous(ArrayName::SpecHash, &self.spec_hash));
        v
    }
}

/// Checks that the buffers of `out` are shaped for `num_envs` environments,
/// reporting the first buffer that is not.
pub fn ensure_batch_out_minimal_dims(out: &MinimalOut, enc: Encoding, num_envs: usize) -> (r: Check)
    ensures
        r == first_failure(out.dims_checks(enc, num_envs)),
        r is Ok <==> all_hold(out.dims_checks(enc, num_envs)),
{
    run_checks(&out.dims_check_list(enc, num_envs))
}

/// Buffers laid out for `num_envs` environments pass the dimension checks
/// for `num_envs` environments, and all of them can be borrowed as slices.
pub proof fn fresh_minimal_out_is_accepted(out: MinimalOut, enc: Encoding, num_envs: usize)
    requires
        out.is_fresh(enc, num_envs),
    ensures
        all_hold(out.dims_checks(enc, num_envs)),
        all_hold(out.contiguity_checks()),
{
}

/// The per-step output buffers that list the legal action ids of every
/// environment instead of a dense mask (Python class
/// `BatchOutMinimalI16LegalIds`): environment `i`'s ids are
/// `legal_ids[legal_offsets[i]..legal_offsets[i + 1]]`.
pub struct MinimalLegalIdsOut {
    pub obs: ArrayView,
    pub legal_ids: ArrayView,
    pub legal_offsets: ArrayView,
    pub rewards: ArrayView,
    pub terminated: ArrayView,
    pub truncated: ArrayView,
    pub actor: ArrayView,
    pub decision_kind: ArrayView,
    pub decision_id: ArrayView,
    pub engine_status: ArrayView,
    pub spec_hash: ArrayView,
}

impl MinimalLegalIdsOut {
    /// The buffers are the ones laid out for `num_envs` environments:
    /// `obs` is `(num_envs, obs_len)`, `legal_ids` holds
    /// `num_envs * action_space` entries, `legal_offsets` holds
    /// `num_envs + 1`, every other buffer holds `num_envs`, and all are contiguous.
    pub open spec fn is_fresh(self, enc: Encoding, num_envs: usize) -> bool {
        &&& is_fresh_view(self.obs, seq![num_envs, enc.obs_len])
        &&& is_fresh_view(self.legal_ids, seq![(num_envs * enc.action_space) as usize])
        &&& is_fresh_view(self.legal_offsets, seq![(num_envs + 1) as usize])
        &&& is_fresh_view(self.rewards, seq![num_envs])
        &&& is_fresh_view(self.terminated, seq![num_envs])
        &&& is_fresh_view(self.truncated, seq![num_envs])
        &&& is_fresh_view(self.actor, seq![num_envs])
        &&& is_fresh_view(self.decision_kind, seq![num_envs])
        &&& is_fresh_view(self.decision_id, seq![num_envs])
        &&& is_fresh_view(self.engine_status, seq![num_envs])
        &&& is_fresh_view(self.spec_hash, seq![num_envs])
    }

    /// The dimension checks of `ensure_batch_out_minimal_i16_legal_ids_dims`, in the order they are run.
    pub open spec fn dims_checks(self, enc: Encoding, num_envs: usize) -> Seq<Check> {
        seq![
            action_space_u16_check(enc.action_space),
            first_dim_check(ArrayName::Obs, self.obs.shape@, num_envs, Some(enc.obs_len)),
            legal_ids_dim_check(self.legal_ids.shape@, None, num_envs, enc.action_space),
            legal_offsets_dim_check(self.legal_offsets.shape@, None, num_envs),
            first_dim_check(ArrayName::Rewards, self.rewards.shape@, num_envs, None),
            first_dim_check(ArrayName::Terminated, self.terminated.shape@, num_envs, None),
            first_dim_check(ArrayName::Truncated, self.truncated.shape@, num_envs, None),
            first_dim_check(ArrayName::Actor, self.actor.shape@, num_envs, None),
            first_dim_check(ArrayName::DecisionKind, self.decision_kind.shape@, num_envs, None),
            first_dim_check(ArrayName::DecisionId, self.decision_id.shape@, num_envs, None),
            first_dim_check(ArrayName::EngineStatus, self.engine_status.shape@, num_envs, None),
            first_dim_check(ArrayName::SpecHash, self.spec_hash.shape@, num_envs, None),
        ]
    }

    /// The checks that every buffer can be borrowed as a slice, in the order the buffers are borrowed.
    pub open spec fn contiguity_checks(self) -> Seq<Check> {
        seq![
            contiguity_check(ArrayName::Obs, self.obs.contiguous),
            contiguity_check(ArrayName::LegalIds, self.legal_ids.contiguous),
            contiguity_check(ArrayName::LegalOffsets, self.legal_offsets.contiguous),
            contiguity_check(ArrayName::Rewards, self.rewards.contiguous),
            contiguity_check(ArrayName::Terminated, self.terminated.contiguous),
            contiguity_check(ArrayName::Truncated, self.truncated.contiguous),
            contiguity_check(ArrayName::Actor, self.actor.contiguous),
            contiguity_check(ArrayName::DecisionKind, self.decision_kind.contiguous),
            contiguity_check(ArrayName::DecisionId, self.decision_id.contiguous),
            contiguity_check(ArrayName::EngineStatus, self.engine_status.contiguous),
            contiguity_check(ArrayName::SpecHash, self.spec_hash.contiguous),
        ]
    }

    /// Lays out the buffers for `num_envs` environments. An action space
    /// that does not fit `u16` is refused first, then zero environments.
    pub fn new(enc: Encoding, num_envs: usize) -> (r: Result<Self, BufferError>)
        requires
            enc.action_space <= u16::MAX && num_envs > 0 ==> num_envs * enc.action_space <= usize::MAX && num_envs + 1 <= usize::MAX,
        ensures
            enc.action_space > u16::MAX ==> r == Err::<Self, BufferError>(BufferError::ActionSpaceTooLarge { action_space: enc.action_space }),
            enc.action_space <= u16::MAX && num_envs == 0 ==> r == Err::<Self, BufferError>(BufferError::ZeroEnvs),
            enc.action_space <= u16::MAX && num_envs > 0 ==> (r matches Ok(out) && out.is_fresh(enc, num_envs)),
    {
        if enc.action_space > u16::MAX as usize {
            return Err(BufferError::ActionSpaceTooLarge { action_space: enc.action_space });
        }
        if num_envs == 0 {
            return Err(BufferError::ZeroEnvs);
        }
        Ok(
            MinimalLegalIdsOut {
                obs: fresh_view(shape2(num_envs, enc.obs_len)),
                legal_ids: fresh_view(shape1(num_envs * enc.action_space)),
                legal_offsets: fresh_view(shape1(num_envs + 1)),
                rewards: fresh_view(shape1(num_envs)),
                terminated: fresh_view(shape1(num_envs)),
                truncated: fresh_view(shape1(num_envs)),
                actor: fresh_view(shape1(num_envs)),
                decision_kind: fresh_view(shape1(num_envs)),
                decision_id: fresh_view(shape1(num_envs)),
                engine_status: fresh_view(shape1(num_envs)),
                spec_hash: fresh_view(shape1(num_envs)),
            },
        )
    }

    /// The dimension checks, as a list.
    pub fn dims_check_list(&self, enc: Encoding, num_envs: usize) -> (v: Vec<Check>)
        ensures
            v@ == self.dims_checks(enc, num_envs),
    {
        let mut v = Vec::new();
        v.push(ensure_action_space_u16(enc.action_space));
        v.push(ensure_first_dim(ArrayName::Obs, &self.obs, num_envs, Some(enc.obs_len)));
        v.push(ensure_legal_ids_dims(&self.legal_ids, None, num_envs, enc.action_space));
        v.push(ensure_legal_offsets_dims(&self.legal_offsets, None, num_envs));
        v.push(ensure_first_dim(ArrayName::Rewards, &self.rewards, num_envs, None));
        v.push(ensure_first_dim(ArrayName::Terminated, &self.terminated, num_envs, None));
        v.push(ensure_first_dim(ArrayName::Truncated, &self.truncated, num_envs, None));
        v.push(ensure_first_dim(ArrayName::Actor, &self.actor, num_envs, None));
        v.push(ensure_first_dim(ArrayName::DecisionKind, &self.decision_kind, num_envs, None));
        v.push(ensure_first_dim(ArrayName::DecisionId, &self.decision_id, num_envs, None));
        v.push(ensure_first_dim(ArrayName::EngineStatus, &self.engine_status, num_envs, None));
        v.push(ensure_first_dim(ArrayName::SpecHash, &self.spec_hash, num_envs, None));
        v
    }

    /// The contiguity checks, as a list.
    pub fn contiguity_check_list(&self) -> (v: Vec<Check>)
        ensures
            v@ == self.contiguity_checks(),
    {
        let mut v = Vec::new();
        v.push(ensure_contiguous(ArrayName::Obs, &self.obs));
        v.push(ensure_contiguous(ArrayName::LegalIds, &self.legal_ids));
        v.push(ensure_contiguous(ArrayName::LegalOffsets, &self.legal_offsets));
        v.push(ensure_contiguous(ArrayName::Rewards, &self.rewards));
        v.push(ensure_contiguous(ArrayName::Terminated, &self.terminated));
        v.push(ensure_contiguous(ArrayName::Truncated, &self.truncated));
        v.push(ensure_contiguous(ArrayName::Actor, &self.actor));
        v.push(ensure_contiguous(ArrayName::DecisionKind, &self.decision_kind));
        v.push(ensure_contiguous(ArrayName::DecisionId, &self.decision_id));
        v.push(ensure_contiguous(ArrayName::EngineStatus, &self.engine_status));
        v.push(ensure_contiguous(ArrayName::SpecHash, &self.spec_hash));
        v
    }
}

/// Checks that the action space fits `u16` and that the buffers of `out`
/// are shaped for `num_envs` environments, reporting the first failure.
pub fn ensure_batch_out_minimal_i16_legal_ids_dims(out: &MinimalLegalIdsOut, enc: Encoding, num_envs: usize) -> (r: Check)
    ensures
        r == first_failure(out.dims_checks(enc, num_envs)),
        r is Ok <==> all_hold(out.dims_checks(enc, num_envs)),
{
    run_checks(&out.dims_check_list(enc, num_envs))
}

/// Legal-ids buffers laid out for `num_envs` environments pass the
/// dimension checks for `num_envs` environments whenever the action space
/// fits `u16` and the sizes fit `usize`, and all of them can be borrowed as slices.
pub proof fn fresh_minimal_legal_ids_out_is_accepted(out: MinimalLegalIdsOut, enc: Encoding, num_envs: usize)
    requires
        out.is_fresh(enc, num_envs),
        enc.action_space <= u16::MAX,
        num_envs * enc.action_space <= usize::MAX,
        num_envs + 1 <= usize::MAX,
    ensures
        all_hold(out.dims_checks(enc, num_envs)),
        all_hold(out.contiguity_checks()),
{
}

/// The per-step output buffers without any action mask (Python class `BatchOutMinimalNoMask`).
pub struct MinimalNoMaskOut {
    pub obs: ArrayView,
    pub rewards: ArrayView,
    pub terminated: ArrayView,
    pub truncated: ArrayView,
    pub actor: ArrayView,
    pub decision_kind: ArrayView,
    pub decision_id: ArrayView,
    pub engine_status: ArrayView,
    pub spec_hash: ArrayView,
}

impl MinimalNoMaskOut {
    /// The buffers are the ones laid out for `num_envs` environments:
    /// `obs` is `(num_envs, obs_len)`, every other buffer holds `num_envs`
    /// entries, and all are contiguous.
    pub open spec fn is_fresh(self, enc: Encoding, num_envs: usize) -> bool {
        &&& is_fresh_view(self.obs, seq![num_envs, enc.obs_len])
        &&& is_fresh_view(self.rewards, seq![num_envs])
        &&& is_fresh_view(self.terminated, seq![num_envs])
        &&& is_fresh_view(self.truncated, seq![num_envs])
        &&& is_fresh_view(self.actor, seq![num_envs])
        &&& is_fresh_view(self.decision_kind, seq![num_envs])
        &&& is_fresh_view(self.decision_id, seq![num_envs])
        &&& is_fresh_view(self.engine_status, seq![num_envs])
        &&& is_fresh_view(self.spec_hash, seq![num_envs])
    }

    /// The dimension checks of `ensure_batch_out_minimal_nomask_dims`, in the order they are run.
    pub open spec fn dims_checks(self, enc: Encoding, num_envs: usize) -> Seq<Check> {
        seq![
            first_dim_check(ArrayName::Obs, self.obs.shape@, num_envs, Some(enc.obs_len)),
            first_dim_check(ArrayName::Rewards, self.rewards.shape@, num_envs, None),
            first_dim_check(ArrayName::Terminated, self.terminated.shape@, num_envs, None),
            first_dim_check(ArrayName::Truncated, self.truncated.shape@, num_envs, None),
            first_dim_check(ArrayName::Actor, self.actor.shape@, num_envs, None),
            first_dim_check(ArrayName::DecisionKind, self.decision_kind.shape@, num_envs, None),
            first_dim_check(ArrayName::DecisionId, self.decision_id.shape@, num_envs, None),
            first_dim_check(ArrayName::EngineStatus, self.engine_status.shape@, num_envs, None),
            first_dim_check(ArrayName::SpecHash, self.spec_hash.shape@, num_envs, None),
        ]
    }

    /// The checks that every buffer can be borrowed as a slice, in the order the buffers are borrowed.
    pub open spec fn contiguity_checks(self) -> Seq<Check> {
        seq![
            contiguity_check(ArrayName::Obs, self.obs.contiguous),
            contiguity_check(ArrayName::Rewards, self.rewards.contiguous),
            contiguity_check(ArrayName::Terminated, self.terminated.contiguous),
            contiguity_check(ArrayName::Truncated, self.truncated.contiguous),
            contiguity_check(ArrayName::Actor, self.actor.contiguous),
            contiguity_check(ArrayName::DecisionKind, self.decision_kind.contiguous),
            contiguity_check(ArrayName::DecisionId, self.decision_id.contiguous),
            contiguity_check(ArrayName::EngineStatus, self.engine_status.contiguous),
            contiguity_check(ArrayName::SpecHash, self.spec_hash.contiguous),
        ]
    }

    /// Lays out the buffers for `num_envs` environments; zero environments are refused.
    pub fn new(enc: Encoding, num_envs: usize) -> (r: Result<Self, BufferError>)
        ensures
            num_envs == 0 ==> r == Err::<Self, BufferError>(BufferError::ZeroEnvs),
            num_envs > 0 ==> (r matches Ok(out) && out.is_fresh(enc, num_envs)),
    {
        if num_envs == 0 {
            return Err(BufferError::ZeroEnvs);
        }
        Ok(
            MinimalNoMaskOut {
                obs: fresh_view(shape2(num_envs, enc.obs_len)),
                rewards: fresh_view(shape1(num_envs)),
                terminated: fresh_view(shape1(num_envs)),
                truncated: fresh_view(shape1(num_envs)),
                actor: fresh_view(shape1(num_envs)),
                decision_kind: fresh_view(shape1(num_envs)),
                decision_id: fresh_view(shape1(num_envs)),
                engine_status: fresh_view(shape1(num_envs)),
                spec_hash: fresh_view(shape1(num_envs)),
            },
        )
    }

    /// The dimension checks, as a list.
    pub fn dims_check_list(&self, enc: Encoding, num_envs: usize) -> (v: Vec<Check>)
        ensures
            v@ == self.dims_checks(enc, num_envs),
    {
        let mut v = Vec::new();
        v.push(ensure_first_dim(ArrayName::Obs, &self.obs, num_envs, Some(enc.obs_len)));
        v.push(ensure_first_dim(ArrayName::Rewards, &self.rewards, num_envs, None));
        v.push(ensure_first_dim(ArrayName::Terminated, &self.terminated, num_envs, None));
        v.push(ensure_first_dim(ArrayName::Truncated, &self.truncated, num_envs, None));
        v.push(ensure_first_dim(ArrayName::Actor, &self.actor, num_envs, None));
        v.push(ensure_first_dim(ArrayName::DecisionKind, &self.decision_kind, num_envs, None));
        v.push(ensure_first_dim(ArrayName::DecisionId, &self.decision_id, num_envs, None));
        v.push(ensure_first_dim(ArrayName::EngineStatus, &self.engine_status, num_envs, None));
        v.push(ensure_first_dim(ArrayName::SpecHash, &self.spec_hash, num_envs, None));
        v
    }

    /// The contiguity checks, as a list.
    pub fn contiguity_check_list(&self) -> (v: Vec<Check>)
        ensures
            v@ == self.contiguity_checks(),
    {
        let mut v = Vec::new();
        v.push(ensure_contiguous(ArrayName::Obs, &self.obs));
        v.push(ensure_contiguous(ArrayName::Rewards, &self.rewards));
        v.push(ensure_contiguous(ArrayName::Terminated, &self.terminated));
        v.push(ensure_contiguous(ArrayName::Truncated, &self.truncated));
        v.push(ensure_contiguous(ArrayName::Actor, &self.actor));
        v.push(ensure_contiguous(ArrayName::DecisionKind, &self.decision_kind));
        v.push(ensure_contiguous(ArrayName::DecisionId, &self.decision_id));
        v.push(ensure_contiguous(ArrayName::EngineStatus, &self.engine_status));
        v.push(ensure_contiguous(ArrayName::SpecHash, &self.spec_hash));
        v
    }
}

/// Checks that the buffers of `out` are shaped for `num_envs` environments,
/// reporting the first buffer that is not.
pub fn ensure_batch_out_minimal_nomask_dims(out: &MinimalNoMaskOut, enc: Encoding, num_envs: usize) -> (r: Check)
    ensures
        r == first_failure(out.dims_checks(enc, num_envs)),
        r is Ok <==> all_hold(out.dims_checks(enc, num_envs)),
{
    run_checks(&out.dims_check_list(enc, num_envs))
}

/// Mask-free buffers laid out for `num_envs` environments pass the dimension
/// checks for `num_envs` environments, and all of them can be borrowed as slices.
pub proof fn fresh_minimal_nomask_out_is_accepted(out: MinimalNoMaskOut, enc: Encoding, num_envs: usize)
    requires
        out.is_fresh(enc, num_envs),
    ensures
        all_hold(out.dims_checks(enc, num_envs)),
        all_hold(out.contiguity_checks()),
{
}

/// Minimal buffers laid out for `num_envs` environments are refused by the
/// dimension checks for any other number of environments.
pub proof fn fresh_minimal_out_refuses_other_sizes(out: MinimalOut, enc: Encoding, num_envs: usize, other_num_envs: usize)
    requires
        out.is_fresh(enc, num_envs),
        other_num_envs != num_envs,
    ensures
        !all_hold(out.dims_checks(enc, other_num_envs)),
        first_failure(out.dims_checks(enc, other_num_envs)) is Err,
{
    let checks = out.dims_checks(enc, other_num_envs);
    assert(checks[0] is Err);
    lemma_first_failure_bounds(checks);
}

/// Legal-ids buffers laid out for `num_envs` environments are refused by the
/// dimension checks for any other number of environments.
pub proof fn fresh_minimal_legal_ids_out_refuses_other_sizes(out: MinimalLegalIdsOut, enc: Encoding, num_envs: usize, other_num_envs: usize)
    requires
        out.is_fresh(enc, num_envs),
        other_num_envs != num_envs,
    ensures
        !all_hold(out.dims_checks(enc, other_num_envs)),
        first_failure(out.dims_checks(enc, other_num_envs)) is Err,
{
    let checks = out.dims_checks(enc, other_num_envs);
    assert(checks[1] is Err);
    lemma_first_failure_bounds(checks);
}

/// Mask-free buffers laid out for `num_envs` environments are refused by the
/// dimension checks for any other number of environments.
pub proof fn fresh_minimal_nomask_out_refuses_other_sizes(out: MinimalNoMaskOut, enc: Encoding, num_envs: usize, other_num_envs: usize)
    requires
        out.is_fresh(enc, num_envs),
        other_num_envs != num_envs,
    ensures
        !all_hold(out.dims_checks(enc, other_num_envs)),
        first_failure(out.dims_checks(enc, other_num_envs)) is Err,
{
    let checks = out.dims_checks(enc, other_num_envs);
    assert(checks[0] is Err);
    lemma_first_failure_bounds(checks);
}


/// Minimal buffers laid out for `num_envs` environments are shaped `(num_envs, obs_len)` for
/// `obs`, `(num_envs, action_space)` for `masks`, and `(num_envs,)` for every other buffer.
pub proof fn fresh_minimal_out_shapes(out: MinimalOut, enc: Encoding, num_envs: usize)
    requires
        out.is_fresh(enc, num_envs),
    ensures
        out.obs.shape@.len() == 2,
        out.obs.shape@[0] == num_envs,
        out.obs.shape@[1] == enc.obs_len,
        out.masks.shape@.len() == 2,
        out.masks.shape@[0] == num_envs,
        out.masks.shape@[1] == enc.action_space,
        out.rewards.shape@.len() == 1,
        out.rewards.shape@[0] == num_envs,
        out.terminated.shape@.len() == 1,
        out.terminated.shape@[0] == num_envs,
        out.truncated.shape@.len() == 1,
        out.truncated.shape@[0] == num_envs,
        out.actor.shape@.len() == 1,
        out.actor.shape@[0] == num_envs,
        out.decision_kind.shape@.len() == 1,
        out.decision_kind.shape@[0] == num_envs,
        out.decision_id.shape@.len() == 1,
        out.decision_id.shape@[0] == num_envs,
        out.engine_status.shape@.len() == 1,
        out.engine_status.shape@[0] == num_envs,
        out.spec_hash.shape@.len() == 1,
        out.spec_hash.shape@[0] == num_envs,
{
}

/// The minimal dimension checks accept exactly the buffers whose `obs` leads with
/// `(num_envs, obs_len)`, whose `masks` leads with `(num_envs, action_space)`, and whose
/// other buffers have `num_envs` entries along their first axis.
pub proof fn minimal_out_dims_accept_exactly(out: MinimalOut, enc: Encoding, num_envs: usize)
    ensures
        all_hold(out.dims_checks(enc, num_envs)) <==> {
            &&& dim_at(out.obs.shape@, 0) == num_envs
            &&& dim_at(out.obs.shape@, 1) == enc.obs_len
            &&& dim_at(out.masks.shape@, 0) == num_envs
            &&& dim_at(out.masks.shape@, 1) == enc.action_space
            &&& dim_at(out.rewards.shape@, 0) == num_envs
            &&& dim_at(out.terminated.shape@, 0) == num_envs
            &&& dim_at(out.truncated.shape@, 0) == num_envs
            &&& dim_at(out.actor.shape@, 0) == num_envs
            &&& dim_at(out.decision_kind.shape@, 0) == num_envs
            &&& dim_at(out.decision_id.shape@, 0) == num_envs
            &&& dim_at(out.engine_status.shape@, 0) == num_envs
            &&& dim_at(out.spec_hash.shape@, 0) == num_envs
        },
{
}


/// Legal-ids buffers laid out for `num_envs` environments are shaped `(num_envs, obs_len)` for
/// `obs`, `(num_envs * action_space,)` for `legal_ids`, `(num_envs + 1,)` for
/// `legal_offsets`, and `(num_envs,)` for every other buffer.
pub proof fn fresh_minimal_legal_ids_out_shapes(out: MinimalLegalIdsOut, enc: Encoding, num_envs: usize)
    requires
        out.is_fresh(enc, num_envs),
        num_envs * enc.action_space <= usize::MAX,
        num_envs + 1 <= usize::MAX,
    ensures
        out.obs.shape@.len() == 2,
        out.obs.shape@[0] == num_envs,
        out.obs.shape@[1] == enc.obs_len,
        out.legal_ids.shape@.len() == 1,
        out.legal_ids.shape@[0] == num_envs * enc.action_space,
        out.legal_offsets.shape@.len() == 1,
        out.legal_offsets.shape@[0] == num_envs + 1,
        out.rewards.shape@.len() == 1,
        out.rewards.shape@[0] == num_envs,
        out.terminated.shape@.len() == 1,
        out.terminated.shape@[0] == num_envs,
        out.truncated.shape@.len() == 1,
        out.truncated.shape@[0] == num_envs,
        out.actor.shape@.len() == 1,
        out.actor.shape@[0] == num_envs,
        out.decision_kind.shape@.len() == 1,
        out.decision_kind.shape@[0] == num_envs,
        out.decision_id.shape@.len() == 1,
        out.decision_id.shape@[0] == num_envs,
        out.engine_status.shape@.len() == 1,
        out.engine_status.shape@[0] == num_envs,
        out.spec_hash.shape@.len() == 1,
        out.spec_hash.shape@[0] == num_envs,
{
}

/// The legal-ids dimension checks accept exactly when the action space fits `u16`, the
/// id and offset counts fit `usize`, `obs` leads with `(num_envs, obs_len)`, `legal_ids`
/// holds `num_envs * action_space` entries, `legal_offsets` holds `num_envs + 1`, and
/// every other buffer has `num_envs` entries along its first axis.
pub proof fn minimal_legal_ids_out_dims_accept_exactly(out: MinimalLegalIdsOut, enc: Encoding, num_envs: usize)
    ensures
        all_hold(out.dims_checks(enc, num_envs)) <==> {
            &&& enc.action_space <= u16::MAX
            &&& num_envs * enc.action_space <= usize::MAX
            &&& num_envs + 1 <= usize::MAX
            &&& dim_at(out.obs.shape@, 0) == num_envs
            &&& dim_at(out.obs.shape@, 1) == enc.obs_len
            &&& dim_at(out.legal_ids.shape@, 0) == num_envs * enc.action_space
            &&& dim_at(out.legal_offsets.shape@, 0) == num_envs + 1
            &&& dim_at(out.rewards.shape@, 0) == num_envs
            &&& dim_at(out.terminated.shape@, 0) == num_envs
            &&& dim_at(out.truncated.shape@, 0) == num_envs
            &&& dim_at(out.actor.shape@, 0) == num_envs
            &&& dim_at(out.decision_kind.shape@, 0) == num_envs
            &&& dim_at(out.decision_id.shape@, 0) == num_envs
            &&& dim_at(out.engine_status.shape@, 0) == num_envs
            &&& dim_at(out.spec_hash.shape@, 0) == num_envs
        },
{
}


/// Mask-free buffers laid out for `num_envs` environments are shaped `(num_envs, obs_len)` for
/// `obs` and `(num_envs,)` for every other buffer.
pub proof fn fresh_minimal_nomask_out_shapes(out: MinimalNoMaskOut, enc: Encoding, num_envs: usize)
    requires
        out.is_fresh(enc, num_envs),
    ensures
        out.obs.shape@.len() == 2,
        out.obs.shape@[0] == num_envs,
        out.obs.shape@[1] == enc.obs_len,
        out.rewards.shape@.len() == 1,
        out.rewards.shape@[0] == num_envs,
        out.terminated.shape@.len() == 1,
        out.terminated.shape@[0] == num_envs,
        out.truncated.shape@.len() == 1,
        out.truncated.shape@[0] == num_envs,
        out.actor.shape@.len() == 1,
        out.actor.shape@[0] == num_envs,
        out.decision_kind.shape@.len() == 1,
        out.decision_kind.shape@[0] == num_envs,
        out.decision_id.shape@.len() == 1,
        out.decision_id.shape@[0] == num_envs,
        out.engine_status.shape@.len() == 1,
        out.engine_status.shape@[0] == num_envs,
        out.spec_hash.shape@.len() == 1,
        out.spec_hash.shape@[0] == num_envs,
{
}

/// The mask-free dimension checks accept exactly the buffers whose `obs` leads with
/// `(num_envs, obs_len)` and whose other buffers have `num_envs` entries along their first axis.
pub proof fn minimal_nomask_out_dims_accept_exactly(out: MinimalNoMaskOut, enc: Encoding, num_envs: usize)
    ensures
        all_hold(out.dims_checks(enc, num_envs)) <==> {
            &&& dim_at(out.obs.shape@, 0) == num_envs
            &&& dim_at(out.obs.shape@, 1) == enc.obs_len
            &&& dim_at(out.rewards.shape@, 0) == num_envs
            &&& dim_at(out.terminated.shape@, 0) == num_envs
            &&& dim_at(out.truncated.shape@, 0) == num_envs
            &&& dim_at(out.actor.shape@, 0) == num_envs
            &&& dim_at(out.decision_kind.shape@, 0) == num_envs
            &&& dim_at(out.decision_id.shape@, 0) == num_envs
            &&& dim_at(out.engine_status.shape@, 0) == num_envs
            &&& dim_at(out.spec_hash.shape@, 0) == num_envs
        },
{
}

} // verus!
