//! Debug output buffers of a pool: their layout, and the checks run on them.
use vstd::prelude::*;

use crate::errors::{ArrayName, BufferError};
use crate::layout::{fresh_view, is_fresh_view, shape1, shape2, Encoding};
use crate::shape::{
    dim_at,
    all_hold, contiguity_check, ensure_contiguous, ensure_first_dim, first_dim_check,
    first_failure, group_checks, lemma_first_failure_bounds, run_checks, ArrayView, Check,
};

verus! {

broadcast use group_checks;

/// The per-step output buffers of a debug pool, with fingerprints and the
/// recent event codes of every environment (Python class `BatchOutDebug`).
pub struct DebugOut {
    pub obs: ArrayView,
    pub masks: ArrayView,
    pub rewards: ArrayView,
    pub terminated: ArrayView,
    pub truncated: ArrayView,
    pub actor: ArrayView,
    pub decision_id: ArrayView,
    pub engine_status: ArrayView,
    pub spec_hash: ArrayView,
    pub decision_kind: ArrayView,
    pub state_fingerprint: ArrayView,
    pub events_fingerprint: ArrayView,
    pub mask_fingerprint: ArrayView,
    pub event_counts: ArrayView,
    pub event_codes: ArrayView,
}

impl DebugOut {
    /// The buffers are the ones laid out for `num_envs` environments and an
    /// event ring of `event_capacity` codes: `obs` is `(num_envs, obs_len)`,
    /// `masks` is `(num_envs, action_space)`, `event_codes` is
    /// `(num_envs, event_capacity)`, every other buffer holds `num_envs`
    /// entries, and all are contiguous.
    pub open spec fn is_fresh(self, enc: Encoding, num_envs: usize, event_capacity: usize) -> bool {
        &&& is_fresh_view(self.obs, seq![num_envs, enc.obs_len])
        &&& is_fresh_view(self.masks, seq![num_envs, enc.action_space])
        &&& is_fresh_view(self.rewards, seq![num_envs])
        &&& is_fresh_view(self.terminated, seq![num_envs])
        &&& is_fresh_view(self.truncated, seq![num_envs])
        &&& is_fresh_view(self.actor, seq![num_envs])
        &&& is_fresh_view(self.decision_id, seq![num_envs])
        &&& is_fresh_view(self.engine_status, seq![num_envs])
        &&& is_fresh_view(self.spec_hash, seq![num_envs])
        &&& is_fresh_view(self.decision_kind, seq![num_envs])
        &&& is_fresh_view(self.state_fingerprint, seq![num_envs])
        &&& is_fresh_view(self.events_fingerprint, seq![num_envs])
        &&& is_fresh_view(self.mask_fingerprint, seq![num_envs])
        &&& is_fresh_view(self.event_counts, seq![num_envs])
        &&& is_fresh_view(self.event_codes, seq![num_envs, event_capacity])
    }

    /// The dimension checks of `ensure_batch_out_debug_dims`, in the order they are run.
    pub open spec fn dims_checks(self, enc: Encoding, num_envs: usize, event_capacity: usize) -> Seq<Check> {
        seq![
            first_dim_check(ArrayName::Obs, self.obs.shape@, num_envs, Some(enc.obs_len)),
            first_dim_check(ArrayName::Masks, self.masks.shape@, num_envs, Some(enc.action_space)),
            first_dim_check(ArrayName::Rewards, self.rewards.shape@, num_envs, None),
            first_dim_check(ArrayName::Terminated, self.terminated.shape@, num_envs, None),
            first_dim_check(ArrayName::Truncated, self.truncated.shape@, num_envs, None),
            first_dim_check(ArrayName::Actor, self.actor.shape@, num_envs, None),
            first_dim_check(ArrayName::DecisionId, self.decision_id.shape@, num_envs, None),
            first_dim_check(ArrayName::EngineStatus, self.engine_status.shape@, num_envs, None),
            first_dim_check(ArrayName::SpecHash, self.spec_hash.shape@, num_envs, None),
            first_dim_check(ArrayName::DecisionKind, self.decision_kind.shape@, num_envs, None),
            first_dim_check(ArrayName::StateFingerprint, self.state_fingerprint.shape@, num_envs, None),
            first_dim_check(ArrayName::EventsFingerprint, self.events_fingerprint.shape@, num_envs, None),
            first_dim_check(ArrayName::MaskFingerprint, self.mask_fingerprint.shape@, num_envs, None),
            first_dim_check(ArrayName::EventCounts, self.event_counts.shape@, num_envs, None),
            first_dim_check(ArrayName::EventCodes, self.event_codes.shape@, num_envs, Some(event_capacity)),
        ]
    }

    /// The checks that every buffer can be borrowed as a slice, in the order the buffers are borrowed.
    pub open spec fn contiguity_checks(self) -> Seq<Check> {
        seq![
            contiguity_check(ArrayName::Obs, self.obs.contiguous),
            contiguity_check(ArrayName::Masks, self.masks.contiguous),
            contiguity_check(ArrayName::Rewards, self.rewards.contiguous),
            contiguity_check(ArrayName::Terminated, self.terminated.contiguous),
            contiguity_check(ArrayName::Truncated, self.truncated.contiguous),
            contiguity_check(ArrayName::Actor, self.actor.contiguous),
            contiguity_check(ArrayName::DecisionKind, self.decision_kind.contiguous),
            contiguity_check(ArrayName::DecisionId, self.decision_id.contiguous),
            contiguity_check(ArrayName::EngineStatus, self.engine_status.contiguous),
            contiguity_check(ArrayName::SpecHash, self.spec_hash.contiguous),
            contiguity_check(ArrayName::StateFingerprint, self.state_fingerprint.contiguous),
            contiguity_check(ArrayName::EventsFingerprint, self.events_fingerprint.contiguous),
            contiguity_check(ArrayName::MaskFingerprint, self.mask_fingerprint.contiguous),
            contiguity_check(ArrayName::EventCounts, self.event_counts.contiguous),
            contiguity_check(ArrayName::EventCodes, self.event_codes.contiguous),
        ]
    }

    /// Lays out the buffers for `num_envs` environments and `event_capacity` codes; zero environments are refused.
    pub fn new(enc: Encoding, num_envs: usize, event_capacity: usize) -> (r: Result<Self, BufferError>)
        ensures
            num_envs == 0 ==> r == Err::<Self, BufferError>(BufferError::ZeroEnvs),
            num_envs > 0 ==> (r matches Ok(out) && out.is_fresh(enc, num_envs, event_capacity)),
    {
        if num_envs == 0 {
            return Err(BufferError::ZeroEnvs);
        }
        Ok(
            DebugOut {
                obs: fresh_view(shape2(num_envs, enc.obs_len)),
                masks: fresh_view(shape2(num_envs, enc.action_space)),
                rewards: fresh_view(shape1(num_envs)),
                terminated: fresh_view(shape1(num_envs)),
                truncated: fresh_view(shape1(num_envs)),
                actor: fresh_view(shape1(num_envs)),
                decision_id: fresh_view(shape1(num_envs)),
                engine_status: fresh_view(shape1(num_envs)),
                spec_hash: fresh_view(shape1(num_envs)),
                decision_kind: fresh_view(shape1(num_envs)),
                state_fingerprint: fresh_view(shape1(num_envs)),
                events_fingerprint: fresh_view(shape1(num_envs)),
                mask_fingerprint: fresh_view(shape1(num_envs)),
                event_counts: fresh_view(shape1(num_envs)),
                event_codes: fresh_view(shape2(num_envs, event_capacity)),
            },
        )
    }

    /// The dimension checks, as a list.
    pub fn dims_check_list(&self, enc: Encoding, num_envs: usize, event_capacity: usize) -> (v: Vec<Check>)
        ensures
            v@ == self.dims_checks(enc, num_envs, event_capacity),
    {
        let mut v = Vec::new();
        v.push(ensure_first_dim(ArrayName::Obs, &self.obs, num_envs, Some(enc.obs_len)));
        v.push(ensure_first_dim(ArrayName::Masks, &self.masks, num_envs, Some(enc.action_space)));
        v.push(ensure_first_dim(ArrayName::Rewards, &self.rewards, num_envs, None));
        v.push(ensure_first_dim(ArrayName::Terminated, &self.terminated, num_envs, None));
        v.push(ensure_first_dim(ArrayName::Truncated, &self.truncated, num_envs, None));
        v.push(ensure_first_dim(ArrayName::Actor, &self.actor, num_envs, None));
        v.push(ensure_first_dim(ArrayName::DecisionId, &self.decision_id, num_envs, None));
        v.push(ensure_first_dim(ArrayName::EngineStatus, &self.engine_status, num_envs, None));
        v.push(ensure_first_dim(ArrayName::SpecHash, &self.spec_hash, num_envs, None));
        v.push(ensure_first_dim(ArrayName::DecisionKind, &self.decision_kind, num_envs, None));
        v.push(ensure_first_dim(ArrayName::StateFingerprint, &self.state_fingerprint, num_envs, None));
        v.push(ensure_first_dim(ArrayName::EventsFingerprint, &self.events_fingerprint, num_envs, None));
        v.push(ensure_first_dim(ArrayName::MaskFingerprint, &self.mask_fingerprint, num_envs, None));
        v.push(ensure_first_dim(ArrayName::EventCounts, &self.event_counts, num_envs, None));
        v.push(ensure_first_dim(ArrayName::EventCodes, &self.event_codes, num_envs, Some(event_capacity)));
        v
    }

    /// The contiguity checks, as a list.
    pub fn contiguity_check_list(&self) -> (v: Vec<Check>)
        ensures
            v@ == self.contiguity_checks(),
    {
        let mut v = Vec::new();
        v.push(ensure_contiguous(ArrayName::Obs, &self.obs));
        v.push(ensure_contiguous(ArrayName::Masks, &self.masks));
        v.push(ensure_contiguous(ArrayName::Rewards, &self.rewards));
        v.push(ensure_contiguous(ArrayName::Terminated, &self.terminated));
        v.push(ensure_contiguous(ArrayName::Truncated, &self.truncated));
        v.push(ensure_contiguous(ArrayName::Actor, &self.actor));
        v.push(ensure_contiguous(ArrayName::DecisionKind, &self.decision_kind));
        v.push(ensure_contiguous(ArrayName::DecisionId, &self.decision_id));
        v.push(ensure_contiguous(ArrayName::EngineStatus, &self.engine_status));
        v.push(ensure_contiguous(ArrayName::SpecHash, &self.spec_hash));
        v.push(ensure_contiguous(ArrayName::StateFingerprint, &self.state_fingerprint));
        v.push(ensure_contiguous(ArrayName::EventsFingerprint, &self.events_fingerprint));
        v.push(ensure_contiguous(ArrayName::MaskFingerprint, &self.mask_fingerprint));
        v.push(ensure_contiguous(ArrayName::EventCounts, &self.event_counts));
        v.push(ensure_contiguous(ArrayName::EventCodes, &self.event_codes));
        v
    }
}

/// Checks that the buffers of `out` are shaped for `num_envs` environments
/// and `event_capacity` event codes, reporting the first buffer that is not.
pub fn ensure_batch_out_debug_dims(out: &DebugOut, enc: Encoding, num_envs: usize, event_capacity: usize) -> (r: Check)
    ensures
        r == first_failure(out.dims_checks(enc, num_envs, event_capacity)),
        r is Ok <==> all_hold(out.dims_checks(enc, num_envs, event_capacity)),
{
    run_checks(&out.dims_check_list(enc, num_envs, event_capacity))
}

/// Debug buffers laid out for `num_envs` environments and `event_capacity`
/// codes pass the dimension checks for those sizes, and all of them can be borrowed as slices.
pub proof fn fresh_debug_out_is_accepted(out: DebugOut, enc: Encoding, num_envs: usize, event_capacity: usize)
    requires
        out.is_fresh(enc, num_envs, event_capacity),
    ensures
        all_hold(out.dims_checks(enc, num_envs, event_capacity)),
        all_hold(out.contiguity_checks()),
{
}

/// Debug buffers laid out for `num_envs` environments and `event_capacity`
/// codes are refused by the dimension checks for any other number of
/// environments or event capacity.
pub proof fn fresh_debug_out_refuses_other_sizes(
    out: DebugOut,
    enc: Encoding,
    num_envs: usize,
    event_capacity: usize,
    other_num_envs: usize,
    other_event_capacity: usize,
)
    requires
        out.is_fresh(enc, num_envs, event_capacity),
        other_num_envs != num_envs || other_event_capacity != event_capacity,
    ensures
        !all_hold(out.dims_checks(enc, other_num_envs, other_event_capacity)),
        first_failure(out.dims_checks(enc, other_num_envs, other_event_capacity)) is Err,
{
    let checks = out.dims_checks(enc, other_num_envs, other_event_capacity);
    if other_num_envs != num_envs {
        assert(checks[0] is Err);
    } else {
        assert(checks[14] is Err);
    }
    lemma_first_failure_bounds(checks);
}


/// Debug buffers laid out for `num_envs` environments and `event_capacity` codes are shaped
/// `(num_envs, obs_len)` for `obs`, `(num_envs, action_space)` for `masks`,
/// `(num_envs, event_capacity)` for `event_codes`, and `(num_envs,)` for every other buffer.
pub proof fn fresh_debug_out_shapes(out: DebugOut, enc: Encoding, num_envs: usize, event_capacity: usize)
    requires
        out.is_fresh(enc, num_envs, event_capacity),
    ensures
        out.obs.shape@.len() == 2,
        out.obs.shape@[0] == num_envs,
        out.obs.shape@[1] == enc.obs_len,
        out.masks.shape@.len() == 2,
        out.masks.shape@[0] == num_envs,
        out.masks.shape@[1] == enc.action_space,
        out.rewards.shape@.len() == 1,
        out.rewards.shape@[0] == num_envs,
        out.terminated.shape@.len() == 1,
        out.terminated.shape@[0] == num_envs,
        out.truncated.shape@.len() == 1,
        out.truncated.shape@[0] == num_envs,
        out.actor.shape@.len() == 1,
        out.actor.shape@[0] == num_envs,
        out.decision_id.shape@.len() == 1,
        out.decision_id.shape@[0] == num_envs,
        out.engine_status.shape@.len() == 1,
        out.engine_status.shape@[0] == num_envs,
        out.spec_hash.shape@.len() == 1,
        out.spec_hash.shape@[0] == num_envs,
        out.decision_kind.shape@.len() == 1,
        out.decision_kind.shape@[0] == num_envs,
        out.state_fingerprint.shape@.len() == 1,
        out.state_fingerprint.shape@[0] == num_envs,
        out.events_fingerprint.shape@.len() == 1,
        out.events_fingerprint.shape@[0] == num_envs,
        out.mask_fingerprint.shape@.len() == 1,
        out.mask_fingerprint.shape@[0] == num_envs,
        out.event_counts.shape@.len() == 1,
        out.event_counts.shape@[0] == num_envs,
        out.event_codes.shape@.len() == 2,
        out.event_codes.shape@[0] == num_envs,
        out.event_codes.shape@[1] == event_capacity,
{
}

/// The debug dimension checks accept exactly the buffers whose `obs` leads with
/// `(num_envs, obs_len)`, whose `masks` leads with `(num_envs, action_space)`, whose
/// `event_codes` leads with `(num_envs, event_capacity)`, and whose other buffers have
/// `num_envs` entries along their first axis.
pub proof fn debug_out_dims_accept_exactly(out: DebugOut, enc: Encoding, num_envs: usize, event_capacity: usize)
    ensures
        all_hold(out.dims_checks(enc, num_envs, event_capacity)) <==> {
            &&& dim_at(out.obs.shape@, 0) == num_envs
            &&& dim_at(out.obs.shape@, 1) == enc.obs_len
            &&& dim_at(out.masks.shape@, 0) == num_envs
            &&& dim_at(out.masks.shape@, 1) == enc.action_space
            &&& dim_at(out.rewards.shape@, 0) == num_envs
            &&& dim_at(out.terminated.shape@, 0) == num_envs
            &&& dim_at(out.truncated.shape@, 0) == num_envs
            &&& dim_at(out.actor.shape@, 0) == num_envs
            &&& dim_at(out.decision_id.shape@, 0) == num_envs
            &&& dim_at(out.engine_status.shape@, 0) == num_envs
            &&& dim_at(out.spec_hash.shape@, 0) == num_envs
            &&& dim_at(out.decision_kind.shape@, 0) == num_envs
            &&& dim_at(out.state_fingerprint.shape@, 0) == num_envs
            &&& dim_at(out.events_fingerprint.shape@, 0) == num_envs
            &&& dim_at(out.mask_fingerprint.shape@, 0) == num_envs
            &&& dim_at(out.event_counts.shape@, 0) == num_envs
            &&& dim_at(out.event_codes.shape@, 0) == num_envs
            &&& dim_at(out.event_codes.shape@, 1) == event_capacity
        },
{
}

} // verus!
