//! The checks a pool call runs on its arguments before it hands them to the
//! engine, in the order the binding runs them; the first that fails is the
//! error the call reports.
use vstd::prelude::*;

use crate::batch_debug::{fresh_debug_out_is_accepted, DebugOut};
use crate::batch_minimal::{
    fresh_minimal_legal_ids_out_is_accepted, fresh_minimal_nomask_out_is_accepted,
    fresh_minimal_out_is_accepted, MinimalLegalIdsOut, MinimalNoMaskOut, MinimalOut,
};
use crate::batch_trajectory::{
    fresh_trajectory_legal_ids_out_is_accepted, fresh_trajectory_nomask_out_is_accepted,
    fresh_trajectory_out_is_accepted, TrajectoryLegalIdsOut, TrajectoryNoMaskOut, TrajectoryOut,
};
use crate::errors::{ArrayName, BufferError};
use crate::layout::Encoding;
use crate::shape::{
    all_hold, arg_len_check, contiguity_check, dim_at, ensure_arg_contiguous, ensure_arg_len, ensure_contiguous,
    ensure_len, first_failure, group_checks, index_checks, indices_and_seeds_check,
    lemma_first_failure_append, lemma_first_failure_bounds, len_check, run_checks,
    validate_indices_and_seeds, ArrayView, Check, SliceArg,
};

verus! {

broadcast use group_checks;

/// What the binding reads of a pool: the encoding sizes, the number of
/// environments, and the capacity of the debug event ring.
#[derive(Clone, Copy)]
pub struct PoolLayout {
    pub enc: Encoding,
    pub num_envs: usize,
    pub event_capacity: usize,
}

/// The per-step output buffers a call writes into.
pub enum OutBatch {
    Minimal(MinimalOut),
    LegalIds(MinimalLegalIdsOut),
    NoMask(MinimalNoMaskOut),
    Debug(DebugOut),
}

/// The rollout output buffers a call writes into.
pub enum OutTrajectory {
    Full(TrajectoryOut),
    LegalIds(TrajectoryLegalIdsOut),
    NoMask(TrajectoryNoMaskOut),
}

impl PoolLayout {
    /// The action space fits the `u16` legal-id encoding, and the legal-id
    /// buffer sizes of this pool fit `usize`.
    pub open spec fn legal_ids_fit(self) -> bool {
        &&& self.enc.action_space <= u16::MAX
        &&& self.num_envs * self.enc.action_space <= usize::MAX
        &&& self.num_envs + 1 <= usize::MAX
    }
}

impl OutBatch {
    /// The buffers are the ones laid out for `pool`.
    pub open spec fn is_fresh(self, pool: PoolLayout) -> bool {
        match self {
            OutBatch::Minimal(o) => o.is_fresh(pool.enc, pool.num_envs),
            OutBatch::LegalIds(o) => o.is_fresh(pool.enc, pool.num_envs),
            OutBatch::NoMask(o) => o.is_fresh(pool.enc, pool.num_envs),
            OutBatch::Debug(o) => o.is_fresh(pool.enc, pool.num_envs, pool.event_capacity),
        }
    }

    /// The dimension checks of the buffers against `pool`.
    pub open spec fn dims_checks(self, pool: PoolLayout) -> Seq<Check> {
        match self {
            OutBatch::Minimal(o) => o.dims_checks(pool.enc, pool.num_envs),
            OutBatch::LegalIds(o) => o.dims_checks(pool.enc, pool.num_envs),
            OutBatch::NoMask(o) => o.dims_checks(pool.enc, pool.num_envs),
            OutBatch::Debug(o) => o.dims_checks(pool.enc, pool.num_envs, pool.event_capacity),
        }
    }

    /// The checks that the buffers can be borrowed as slices.
    pub open spec fn contiguity_checks(self) -> Seq<Check> {
        match self {
            OutBatch::Minimal(o) => o.contiguity_checks(),
            OutBatch::LegalIds(o) => o.contiguity_checks(),
            OutBatch::NoMask(o) => o.contiguity_checks(),
            OutBatch::Debug(o) => o.contiguity_checks(),
        }
    }

    /// The dimension checks, as a list.
    pub fn dims_check_list(&self, pool: &PoolLayout) -> (v: Vec<Check>)
        ensures
            v@ == self.dims_checks(*pool),
    {
        match self {
            OutBatch::Minimal(o) => o.dims_check_list(pool.enc, pool.num_envs),
            OutBatch::LegalIds(o) => o.dims_check_list(pool.enc, pool.num_envs),
            OutBatch::NoMask(o) => o.dims_check_list(pool.enc, pool.num_envs),
            OutBatch::Debug(o) => o.dims_check_list(pool.enc, pool.num_envs, pool.event_capacity),
        }
    }

    /// The contiguity checks, as a list.
    pub fn contiguity_check_list(&self) -> (v: Vec<Check>)
        ensures
            v@ == self.contiguity_checks(),
    {
        match self {
            OutBatch::Minimal(o) => o.contiguity_check_list(),
            OutBatch::LegalIds(o) => o.contiguity_check_list(),
            OutBatch::NoMask(o) => o.contiguity_check_list(),
            OutBatch::Debug(o) => o.contiguity_check_list(),
        }
    }
}

impl OutTrajectory {
    /// The number of steps the buffers were laid out for.
    pub open spec fn spec_steps(self) -> usize {
        match self {
            OutTrajectory::Full(o) => o.steps,
            OutTrajectory::LegalIds(o) => o.steps,
            OutTrajectory::NoMask(o) => o.steps,
        }
    }

    /// The buffers are the ones laid out for `steps` steps of `pool`.
    pub open spec fn is_fresh(self, pool: PoolLayout, steps: usize) -> bool {
        match self {
            OutTrajectory::Full(o) => o.is_fresh(pool.enc, steps, pool.num_envs),
            OutTrajectory::LegalIds(o) => o.is_fresh(pool.enc, steps, pool.num_envs),
            OutTrajectory::NoMask(o) => o.is_fresh(pool.enc, steps, pool.num_envs),
        }
    }

    /// The dimension checks of the buffers against `steps` steps of `pool`.
    pub open spec fn dims_checks(self, pool: PoolLayout, steps: usize) -> Seq<Check> {
        match self {
            OutTrajectory::Full(o) => o.dims_checks(pool.enc, steps, pool.num_envs),
            OutTrajectory::LegalIds(o) => o.dims_checks(pool.enc, steps, pool.num_envs),
            OutTrajectory::NoMask(o) => o.dims_checks(pool.enc, steps, pool.num_envs),
        }
    }

    /// The checks that the buffers can be borrowed as slices.
    pub open spec fn contiguity_checks(self) -> Seq<Check> {
        match self {
            OutTrajectory::Full(o) => o.contiguity_checks(),
            OutTrajectory::LegalIds(o) => o.contiguity_checks(),
            OutTrajectory::NoMask(o) => o.contiguity_checks(),
        }
    }

    /// The number of steps the buffers were laid out for.
    pub fn steps(&self) -> (s: usize)
        ensures
            s == self.spec_steps(),
    {
        match self {
            OutTrajectory::Full(o) => o.steps,
            OutTrajectory::LegalIds(o) => o.steps,
            OutTrajectory::NoMask(o) => o.steps,
        }
    }

    /// The dimension checks, as a list.
    pub fn dims_check_list(&self, pool: &PoolLayout, steps: usize) -> (v: Vec<Check>)
        ensures
            v@ == self.dims_checks(*pool, steps),
    {
        match self {
            OutTrajectory::Full(o) => o.dims_check_list(pool.enc, steps, pool.num_envs),
            OutTrajectory::LegalIds(o) => o.dims_check_list(pool.enc, steps, pool.num_envs),
            OutTrajectory::NoMask(o) => o.dims_check_list(pool.enc, steps, pool.num_envs),
        }
    }

    /// The contiguity checks, as a list.
    pub fn contiguity_check_list(&self) -> (v: Vec<Check>)
        ensures
            v@ == self.contiguity_checks(),
    {
        match self {
            OutTrajectory::Full(o) => o.contiguity_check_list(),
            OutTrajectory::LegalIds(o) => o.contiguity_check_list(),
            OutTrajectory::NoMask(o) => o.contiguity_check_list(),
        }
    }
}

/// Checking that a rollout is asked for as many steps as its buffers hold.
pub open spec fn steps_check(steps: usize, buffer_steps: usize) -> Check {
    if steps != buffer_steps {
        Err(BufferError::StepsMismatch)
    } else {
        Ok(())
    }
}

/// Checking that logits are shaped `(num_envs, action_space)`.
pub open spec fn logits_shape_check(shape: Seq<usize>, num_envs: usize, action_space: usize) -> Check {
    if dim_at(shape, 0) != num_envs || dim_at(shape, 1) != action_space {
        Err(BufferError::LogitsShape)
    } else {
        Ok(())
    }
}

/// Checking that a caller-provided ids buffer holds at least `num_envs * action_space` entries.
pub open spec fn ids_capacity_check(len: usize, num_envs: usize, action_space: usize) -> Check {
    if num_envs * action_space > usize::MAX {
        Err(BufferError::IdsSizeOverflow)
    } else if len < num_envs * action_space {
        Err(BufferError::IdsTooSmall { got: len, need: (num_envs * action_space) as usize })
    } else {
        Ok(())
    }
}

/// Checking that a caller-provided offsets buffer holds at least `num_envs + 1` entries.
pub open spec fn offsets_capacity_check(len: usize, num_envs: usize) -> Check {
    if num_envs + 1 > usize::MAX {
        Err(BufferError::OffsetsSizeOverflow)
    } else if len < num_envs + 1 {
        Err(BufferError::OffsetsTooSmall { got: len, need: (num_envs + 1) as usize })
    } else {
        Ok(())
    }
}

/// Checking that one action id is given per environment.
pub open spec fn action_ids_len_check(len: usize, num_envs: usize) -> Check {
    if len != num_envs {
        Err(BufferError::ActionIdsLenMismatch)
    } else {
        Ok(())
    }
}

/// Checks that a rollout is asked for as many steps as its buffers hold.
pub fn ensure_steps(steps: usize, buffer_steps: usize) -> (r: Check)
    ensures
        r == steps_check(steps, buffer_steps),
{
    if steps != buffer_steps {
        return Err(BufferError::StepsMismatch);
    }
    Ok(())
}

/// Checks that logits are shaped `(num_envs, action_space)`.
pub fn ensure_logits_shape(logits: &ArrayView, num_envs: usize, action_space: usize) -> (r: Check)
    ensures
        r == logits_shape_check(logits.shape@, num_envs, action_space),
        r is Ok <==> dim_at(logits.shape@, 0) == num_envs && dim_at(logits.shape@, 1) == action_space,
        r is Err ==> r == Err::<(), BufferError>(BufferError::LogitsShape),
{
    let rows = if logits.shape.len() > 0 {
        logits.shape[0]
    } else {
        0
    };
    let cols = if logits.shape.len() > 1 {
        logits.shape[1]
    } else {
        0
    };
    if rows != num_envs || cols != action_space {
        return Err(BufferError::LogitsShape);
    }
    Ok(())
}

/// Checks that a caller-provided ids buffer of length `len` can hold the
/// legal ids of every environment.
pub fn ensure_ids_capacity(len: usize, num_envs: usize, action_space: usize) -> (r: Check)
    ensures
        r == ids_capacity_check(len, num_envs, action_space),
{
    match num_envs.checked_mul(action_space) {
        None => Err(BufferError::IdsSizeOverflow),
        Some(need) => if len < need {
            Err(BufferError::IdsTooSmall { got: len, need })
        } else {
            Ok(())
        },
    }
}

/// Checks that a caller-provided offsets buffer of length `len` can hold
/// the offsets of every environment and the end offset.
pub fn ensure_offsets_capacity(len: usize, num_envs: usize) -> (r: Check)
    ensures
        r == offsets_capacity_check(len, num_envs),
{
    match num_envs.checked_add(1) {
        None => Err(BufferError::OffsetsSizeOverflow),
        Some(need) => if len < need {
            Err(BufferError::OffsetsTooSmall { got: len, need })
        } else {
            Ok(())
        },
    }
}

/// The checks `head`, then `middle`, then `tail`, as one list.
pub fn checks_in_order(head: Vec<Check>, middle: Vec<Check>, tail: Vec<Check>) -> (v: Vec<Check>)
    ensures
        v@ == head@ + middle@ + tail@,
{
    let mut v = head;
    let mut middle = middle;
    let mut tail = tail;
    v.append(&mut middle);
    v.append(&mut tail);
    v
}

impl PoolLayout {
    /// The checks of a reset into `out`: its dimensions, then that it can be borrowed.
    pub open spec fn reset_checks(self, out: OutBatch) -> Seq<Check> {
        out.dims_checks(self) + out.contiguity_checks()
    }

    /// The checks of a reset of the environments flagged in `done_mask`.
    pub open spec fn reset_done_checks(self, done_mask: SliceArg, out: OutBatch) -> Seq<Check> {
        out.dims_checks(self) + seq![arg_len_check(ArrayName::DoneMask, done_mask, self.num_envs)]
            + out.contiguity_checks()
    }

    /// The checks of a step with one action per environment.
    pub open spec fn step_checks(self, actions: SliceArg, out: OutBatch) -> Seq<Check> {
        out.dims_checks(self) + seq![arg_len_check(ArrayName::Actions, actions, self.num_envs)]
            + out.contiguity_checks()
    }

    /// The checks of a step that samples a legal action per environment from per-environment seeds.
    pub open spec fn step_sample_uniform_checks(self, seeds: SliceArg, actions: SliceArg, out: OutBatch) -> Seq<
        Check,
    > {
        out.dims_checks(self) + seq![
            arg_len_check(ArrayName::Seeds, seeds, self.num_envs),
            arg_len_check(ArrayName::Actions, actions, self.num_envs),
        ] + out.contiguity_checks()
    }

    /// The checks of a reset that clears the environments whose error code is set.
    pub open spec fn auto_reset_checks(self, codes: SliceArg, out: OutBatch) -> Seq<Check> {
        out.dims_checks(self) + seq![contiguity_check(ArrayName::Codes, codes.contiguous)]
            + out.contiguity_checks()
    }

    /// The checks of a reset of chosen environments with chosen episode seeds.
    pub open spec fn reset_with_seeds_checks(
        self,
        indices: Seq<usize>,
        seeds_len: nat,
        out: OutBatch,
    ) -> Seq<Check> {
        out.dims_checks(self) + seq![indices_and_seeds_check(indices, seeds_len, self.num_envs)]
            + out.contiguity_checks()
    }

    /// The checks of a step whose actions are chosen from per-environment logits.
    pub open spec fn step_select_logits_checks(
        self,
        logits: Seq<usize>,
        logits_contiguous: bool,
        actions: SliceArg,
        out: OutBatch,
    ) -> Seq<Check> {
        out.dims_checks(self) + seq![
            logits_shape_check(logits, self.num_envs, self.enc.action_space),
            contiguity_check(ArrayName::Logits, logits_contiguous),
            arg_len_check(ArrayName::Actions, actions, self.num_envs),
        ] + out.contiguity_checks()
    }

    /// The checks of a step whose actions are sampled from per-environment logits and seeds.
    pub open spec fn step_sample_logits_checks(
        self,
        logits: Seq<usize>,
        logits_contiguous: bool,
        seeds: SliceArg,
        actions: SliceArg,
        out: OutBatch,
    ) -> Seq<Check> {
        out.dims_checks(self) + seq![
            logits_shape_check(logits, self.num_envs, self.enc.action_space),
            contiguity_check(ArrayName::Logits, logits_contiguous),
            arg_len_check(ArrayName::Seeds, seeds, self.num_envs),
            arg_len_check(ArrayName::Actions, actions, self.num_envs),
        ] + out.contiguity_checks()
    }

    /// The checks of a rollout of `steps` steps into `out`.
    pub open spec fn rollout_checks(self, steps: usize, out: OutTrajectory) -> Seq<Check> {
        out.dims_checks(self, steps) + seq![steps_check(steps, out.spec_steps())]
            + out.contiguity_checks()
    }

    /// The checks of a rollout of `steps` steps whose actions are sampled from per-environment seeds.
    pub open spec fn rollout_sample_checks(self, steps: usize, seeds: SliceArg, out: OutTrajectory) -> Seq<
        Check,
    > {
        out.dims_checks(self, steps) + seq![
            steps_check(steps, out.spec_steps()),
            contiguity_check(ArrayName::Seeds, seeds.contiguous),
        ] + out.contiguity_checks()
    }

    /// The checks of listing the legal action ids of every environment into caller buffers.
    pub open spec fn legal_action_ids_checks(self, ids: SliceArg, offsets: SliceArg) -> Seq<Check> {
        seq![
            contiguity_check(ArrayName::Ids, ids.contiguous),
            contiguity_check(ArrayName::Offsets, offsets.contiguous),
            ids_capacity_check(ids.len, self.num_envs, self.enc.action_space),
            offsets_capacity_check(offsets.len, self.num_envs),
        ]
    }

    /// The checks of sampling one legal action per environment into a caller buffer.
    pub open spec fn sample_uniform_checks(self, seeds: SliceArg, actions: SliceArg) -> Seq<Check> {
        seq![
            contiguity_check(ArrayName::Seeds, seeds.contiguous),
            contiguity_check(ArrayName::Actions, actions.contiguous),
            len_check(ArrayName::Seeds, seeds.len, self.num_envs),
            len_check(ArrayName::Actions, actions.len, self.num_envs),
        ]
    }

    /// The checks of choosing one action per environment from logits.
    pub open spec fn select_logits_checks(self, logits: Seq<usize>, logits_contiguous: bool, actions: SliceArg) -> Seq<
        Check,
    > {
        seq![
            logits_shape_check(logits, self.num_envs, self.enc.action_space),
            contiguity_check(ArrayName::Logits, logits_contiguous),
            arg_len_check(ArrayName::Actions, actions, self.num_envs),
        ]
    }

    /// The checks of sampling one action per environment from logits and seeds.
    pub open spec fn sample_logits_checks(
        self,
        logits: Seq<usize>,
        logits_contiguous: bool,
        seeds: SliceArg,
        actions: SliceArg,
    ) -> Seq<Check> {
        seq![
            logits_shape_check(logits, self.num_envs, self.enc.action_space),
            contiguity_check(ArrayName::Logits, logits_contiguous),
            arg_len_check(ArrayName::Seeds, seeds, self.num_envs),
            arg_len_check(ArrayName::Actions, actions, self.num_envs),
        ]
    }

    /// The checks of listing the legal action ids and sampling one of them per environment.
    pub open spec fn legal_ids_and_sample_checks(
        self,
        ids: SliceArg,
        offsets: SliceArg,
        seeds: SliceArg,
        actions: SliceArg,
    ) -> Seq<Check> {
        seq![
            contiguity_check(ArrayName::Seeds, seeds.contiguous),
            contiguity_check(ArrayName::Ids, ids.contiguous),
            contiguity_check(ArrayName::Offsets, offsets.contiguous),
            contiguity_check(ArrayName::Actions, actions.contiguous),
            ids_capacity_check(ids.len, self.num_envs, self.enc.action_space),
            offsets_capacity_check(offsets.len, self.num_envs),
            len_check(ArrayName::Seeds, seeds.len, self.num_envs),
            len_check(ArrayName::Actions, actions.len, self.num_envs),
        ]
    }

    /// Checks a reset into `out` (`reset_into`, `reset_indices_into`,
    /// `reset_debug_into` and their buffer variants).
    pub fn check_reset(&self, out: &OutBatch) -> (r: Check)
        ensures
            r == first_failure(self.reset_checks(*out)),
            r is Ok <==> all_hold(self.reset_checks(*out)),
    {
        let v = checks_in_order(out.dims_check_list(self), Vec::new(), out.contiguity_check_list());
        assert(v@ =~= self.reset_checks(*out));
        run_checks(&v)
    }

    /// Checks a reset of the environments flagged in `done_mask` (`reset_done_into` and its variants).
    pub fn check_reset_done(&self, done_mask: SliceArg, out: &OutBatch) -> (r: Check)
        ensures
            r == first_failure(self.reset_done_checks(done_mask, *out)),
            r is Ok <==> all_hold(self.reset_done_checks(done_mask, *out)),
    {
        let mut mid = Vec::new();
        mid.push(ensure_arg_len(ArrayName::DoneMask, done_mask, self.num_envs));
        let v = checks_in_order(out.dims_check_list(self), mid, out.contiguity_check_list());
        assert(v@ =~= self.reset_done_checks(done_mask, *out));
        run_checks(&v)
    }

    /// Checks a step with one action per environment (`step_into`,
    /// `step_first_legal_into`, `step_debug_into` and their variants).
    pub fn check_step(&self, actions: SliceArg, out: &OutBatch) -> (r: Check)
        ensures
            r == first_failure(self.step_checks(actions, *out)),
            r is Ok <==> all_hold(self.step_checks(actions, *out)),
    {
        let mut mid = Vec::new();
        mid.push(ensure_arg_len(ArrayName::Actions, actions, self.num_envs));
        let v = checks_in_order(out.dims_check_list(self), mid, out.contiguity_check_list());
        assert(v@ =~= self.step_checks(actions, *out));
        run_checks(&v)
    }

    /// Checks a step that samples legal actions from seeds
    /// (`step_sample_legal_action_ids_uniform_into` and its variants).
    pub fn check_step_sample_uniform(&self, seeds: SliceArg, actions: SliceArg, out: &OutBatch) -> (r: Check)
        ensures
            r == first_failure(self.step_sample_uniform_checks(seeds, actions, *out)),
            r is Ok <==> all_hold(self.step_sample_uniform_checks(seeds, actions, *out)),
    {
        let mut mid = Vec::new();
        mid.push(ensure_arg_len(ArrayName::Seeds, seeds, self.num_envs));
        mid.push(ensure_arg_len(ArrayName::Actions, actions, self.num_envs));
        let v = checks_in_order(out.dims_check_list(self), mid, out.contiguity_check_list());
        assert(v@ =~= self.step_sample_uniform_checks(seeds, actions, *out));
        run_checks(&v)
    }

    /// Checks a reset of the environments with a nonzero error code
    /// (`auto_reset_on_error_codes_into` and its variant).
    pub fn check_auto_reset(&self, codes: SliceArg, out: &OutBatch) -> (r: Check)
        ensures
            r == first_failure(self.auto_reset_checks(codes, *out)),
            r is Ok <==> all_hold(self.auto_reset_checks(codes, *out)),
    {
        let mut mid = Vec::new();
        mid.push(ensure_arg_contiguous(ArrayName::Codes, codes));
        let v = checks_in_order(out.dims_check_list(self), mid, out.contiguity_check_list());
        assert(v@ =~= self.auto_reset_checks(codes, *out));
        run_checks(&v)
    }

    /// Checks a reset of chosen environments with chosen episode seeds
    /// (`reset_indices_with_episode_seeds_into` and its variants).
    pub fn check_reset_with_seeds(&self, indices: &Vec<usize>, episode_seeds: &Vec<u64>, out: &OutBatch) -> (r:
        Check)
        ensures
            r == first_failure(self.reset_with_seeds_checks(indices@, episode_seeds@.len(), *out)),
            r is Ok <==> all_hold(self.reset_with_seeds_checks(indices@, episode_seeds@.len(), *out)),
    {
        let mut mid = Vec::new();
        mid.push(validate_indices_and_seeds(indices, episode_seeds, self.num_envs));
        let v = checks_in_order(out.dims_check_list(self), mid, out.contiguity_check_list());
        assert(v@ =~= self.reset_with_seeds_checks(indices@, episode_seeds@.len(), *out));
        run_checks(&v)
    }

    /// Checks a step whose actions are chosen from logits (`step_select_from_logits_into` and its variants).
    pub fn check_step_select_logits(&self, logits: &ArrayView, actions: SliceArg, out: &OutBatch) -> (r: Check)
        ensures
            r == first_failure(
                self.step_select_logits_checks(logits.shape@, logits.contiguous, actions, *out),
            ),
            r is Ok <==> all_hold(
                self.step_select_logits_checks(logits.shape@, logits.contiguous, actions, *out),
            ),
    {
        let mut mid = Vec::new();
        mid.push(ensure_logits_shape(logits, self.num_envs, self.enc.action_space));
        mid.push(ensure_contiguous(ArrayName::Logits, logits));
        mid.push(ensure_arg_len(ArrayName::Actions, actions, self.num_envs));
        let v = checks_in_order(out.dims_check_list(self), mid, out.contiguity_check_list());
        assert(v@ =~= self.step_select_logits_checks(logits.shape@, logits.contiguous, actions, *out));
        run_checks(&v)
    }

    /// Checks a step whose actions are sampled from logits and seeds
    /// (`step_sample_from_logits_into` and its variants).
    pub fn check_step_sample_logits(
        &self,
        logits: &ArrayView,
        seeds: SliceArg,
        actions: SliceArg,
        out: &OutBatch,
    ) -> (r: Check)
        ensures
            r == first_failure(
                self.step_sample_logits_checks(logits.shape@, logits.contiguous, seeds, actions, *out),
            ),
            r is Ok <==> all_hold(
                self.step_sample_logits_checks(logits.shape@, logits.contiguous, seeds, actions, *out),
            ),
    {
        let mut mid = Vec::new();
        mid.push(ensure_logits_shape(logits, self.num_envs, self.enc.action_space));
        mid.push(ensure_contiguous(ArrayName::Logits, logits));
        mid.push(ensure_arg_len(ArrayName::Seeds, seeds, self.num_envs));
        mid.push(ensure_arg_len(ArrayName::Actions, actions, self.num_envs));
        let v = checks_in_order(out.dims_check_list(self), mid, out.contiguity_check_list());
        assert(v@ =~= self.step_sample_logits_checks(logits.shape@, logits.contiguous, seeds, actions, *out));
        run_checks(&v)
    }

    /// Checks a rollout of `steps` steps (`rollout_first_legal_into` and its variants).
    pub fn check_rollout(&self, steps: usize, out: &OutTrajectory) -> (r: Check)
        ensures
            r == first_failure(self.rollout_checks(steps, *out)),
            r is Ok <==> all_hold(self.rollout_checks(steps, *out)),
    {
        let mut mid = Vec::new();
        mid.push(ensure_steps(steps, out.steps()));
        let v = checks_in_order(out.dims_check_list(self, steps), mid, out.contiguity_check_list());
        assert(v@ =~= self.rollout_checks(steps, *out));
        run_checks(&v)
    }

    /// Checks a rollout whose actions are sampled from seeds
    /// (`rollout_sample_legal_action_ids_uniform_into` and its variants).
    pub fn check_rollout_sample(&self, steps: usize, seeds: SliceArg, out: &OutTrajectory) -> (r: Check)
        ensures
            r == first_failure(self.rollout_sample_checks(steps, seeds, *out)),
            r is Ok <==> all_hold(self.rollout_sample_checks(steps, seeds, *out)),
    {
        let mut mid = Vec::new();
        mid.push(ensure_steps(steps, out.steps()));
        mid.push(ensure_arg_contiguous(ArrayName::Seeds, seeds));
        let v = checks_in_order(out.dims_check_list(self, steps), mid, out.contiguity_check_list());
        assert(v@ =~= self.rollout_sample_checks(steps, seeds, *out));
        run_checks(&v)
    }

    /// Checks the caller buffers of `legal_action_ids_into`.
    pub fn check_legal_action_ids(&self, ids: SliceArg, offsets: SliceArg) -> (r: Check)
        ensures
            r == first_failure(self.legal_action_ids_checks(ids, offsets)),
            r is Ok <==> all_hold(self.legal_action_ids_checks(ids, offsets)),
    {
        let mut v = Vec::new();
        v.push(ensure_arg_contiguous(ArrayName::Ids, ids));
        v.push(ensure_arg_contiguous(ArrayName::Offsets, offsets));
        v.push(ensure_ids_capacity(ids.len, self.num_envs, self.enc.action_space));
        v.push(ensure_offsets_capacity(offsets.len, self.num_envs));
        assert(v@ =~= self.legal_action_ids_checks(ids, offsets));
        run_checks(&v)
    }

    /// Checks the arguments of `sample_legal_action_ids_uniform_into`.
    pub fn check_sample_uniform(&self, seeds: SliceArg, actions: SliceArg) -> (r: Check)
        ensures
            r == first_failure(self.sample_uniform_checks(seeds, actions)),
            r is Ok <==> all_hold(self.sample_uniform_checks(seeds, actions)),
    {
        let mut v = Vec::new();
        v.push(ensure_arg_contiguous(ArrayName::Seeds, seeds));
        v.push(ensure_arg_contiguous(ArrayName::Actions, actions));
        v.push(ensure_len(ArrayName::Seeds, seeds.len, self.num_envs));
        v.push(ensure_len(ArrayName::Actions, actions.len, self.num_envs));
        assert(v@ =~= self.sample_uniform_checks(seeds, actions));
        run_checks(&v)
    }

    /// Checks the arguments of `select_actions_from_logits_into`.
    pub fn check_select_logits(&self, logits: &ArrayView, actions: SliceArg) -> (r: Check)
        ensures
            r == first_failure(self.select_logits_checks(logits.shape@, logits.contiguous, actions)),
            r is Ok <==> all_hold(self.select_logits_checks(logits.shape@, logits.contiguous, actions)),
    {
        let mut v = Vec::new();
        v.push(ensure_logits_shape(logits, self.num_envs, self.enc.action_space));
        v.push(ensure_contiguous(ArrayName::Logits, logits));
        v.push(ensure_arg_len(ArrayName::Actions, actions, self.num_envs));
        assert(v@ =~= self.select_logits_checks(logits.shape@, logits.contiguous, actions));
        run_checks(&v)
    }

    /// Checks the arguments of `sample_actions_from_logits_into`.
    pub fn check_sample_logits(&self, logits: &ArrayView, seeds: SliceArg, actions: SliceArg) -> (r: Check)
        ensures
            r == first_failure(
                self.sample_logits_checks(logits.shape@, logits.contiguous, seeds, actions),
            ),
            r is Ok <==> all_hold(
                self.sample_logits_checks(logits.shape@, logits.contiguous, seeds, actions),
            ),
    {
        let mut v = Vec::new();
        v.push(ensure_logits_shape(logits, self.num_envs, self.enc.action_space));
        v.push(ensure_contiguous(ArrayName::Logits, logits));
        v.push(ensure_arg_len(ArrayName::Seeds, seeds, self.num_envs));
        v.push(ensure_arg_len(ArrayName::Actions, actions, self.num_envs));
        assert(v@ =~= self.sample_logits_checks(logits.shape@, logits.contiguous, seeds, actions));
        run_checks(&v)
    }

    /// Checks the arguments of `legal_action_ids_and_sample_uniform_into`.
    pub fn check_legal_ids_and_sample(
        &self,
        ids: SliceArg,
        offsets: SliceArg,
        seeds: SliceArg,
        actions: SliceArg,
    ) -> (r: Check)
        ensures
            r == first_failure(self.legal_ids_and_sample_checks(ids, offsets, seeds, actions)),
            r is Ok <==> all_hold(self.legal_ids_and_sample_checks(ids, offsets, seeds, actions)),
    {
        let mut v = Vec::new();
        v.push(ensure_arg_contiguous(ArrayName::Seeds, seeds));
        v.push(ensure_arg_contiguous(ArrayName::Ids, ids));
        v.push(ensure_arg_contiguous(ArrayName::Offsets, offsets));
        v.push(ensure_arg_contiguous(ArrayName::Actions, actions));
        v.push(ensure_ids_capacity(ids.len, self.num_envs, self.enc.action_space));
        v.push(ensure_offsets_capacity(offsets.len, self.num_envs));
        v.push(ensure_len(ArrayName::Seeds, seeds.len, self.num_envs));
        v.push(ensure_len(ArrayName::Actions, actions.len, self.num_envs));
        assert(v@ =~= self.legal_ids_and_sample_checks(ids, offsets, seeds, actions));
        run_checks(&v)
    }

    /// Checks that `describe_action_ids` is given one action id per environment.
    pub fn check_action_ids_len(&self, len: usize) -> (r: Check)
        ensures
            r == action_ids_len_check(len, self.num_envs),
            r is Ok <==> len == self.num_envs,
    {
        if len != self.num_envs {
            return Err(BufferError::ActionIdsLenMismatch);
        }
        Ok(())
    }
}

/// Buffers laid out for a pool are accepted by a reset of that pool, and by
/// a step of that pool given one action per environment in a contiguous array.
pub proof fn fresh_out_batch_accepts_reset_and_step(pool: PoolLayout, out: OutBatch, actions: SliceArg)
    requires
        out.is_fresh(pool),
        out is LegalIds ==> pool.legal_ids_fit(),
        actions.contiguous,
        actions.len == pool.num_envs,
    ensures
        all_hold(pool.reset_checks(out)),
        all_hold(pool.step_checks(actions, out)),
{
    match out {
        OutBatch::Minimal(o) => fresh_minimal_out_is_accepted(o, pool.enc, pool.num_envs),
        OutBatch::LegalIds(o) => fresh_minimal_legal_ids_out_is_accepted(o, pool.enc, pool.num_envs),
        OutBatch::NoMask(o) => fresh_minimal_nomask_out_is_accepted(o, pool.enc, pool.num_envs),
        OutBatch::Debug(o) => fresh_debug_out_is_accepted(
            o,
            pool.enc,
            pool.num_envs,
            pool.event_capacity,
        ),
    }
}

/// Rollout buffers laid out for `steps` steps of a pool are accepted by a
/// rollout of `steps` steps of that pool.
pub proof fn fresh_trajectory_accepts_rollout(pool: PoolLayout, steps: usize, out: OutTrajectory)
    requires
        out.is_fresh(pool, steps),
        out is LegalIds ==> pool.legal_ids_fit(),
    ensures
        all_hold(pool.rollout_checks(steps, out)),
{
    match out {
        OutTrajectory::Full(o) => fresh_trajectory_out_is_accepted(o, pool.enc, steps, pool.num_envs),
        OutTrajectory::LegalIds(o) => fresh_trajectory_legal_ids_out_is_accepted(
            o,
            pool.enc,
            steps,
            pool.num_envs,
        ),
        OutTrajectory::NoMask(o) => fresh_trajectory_nomask_out_is_accepted(
            o,
            pool.enc,
            steps,
            pool.num_envs,
        ),
    }
}

/// The `legal_ids` and `legal_offsets` buffers of a legal-ids batch laid out
/// for a pool are large enough to be handed to `legal_action_ids_into` of that pool.
pub proof fn legal_ids_batch_fits_legal_action_ids(pool: PoolLayout, out: MinimalLegalIdsOut)
    requires
        out.is_fresh(pool.enc, pool.num_envs),
        pool.legal_ids_fit(),
    ensures
        all_hold(
            pool.legal_action_ids_checks(
                SliceArg { contiguous: out.legal_ids.contiguous, len: out.legal_ids.shape@[0] },
                SliceArg {
                    contiguous: out.legal_offsets.contiguous,
                    len: out.legal_offsets.shape@[0],
                },
            ),
        ),
{
}

/// A seeded reset that passes its checks gives one seed per index and names
/// only environments of the pool.
pub proof fn accepted_seeded_reset_names_pool_envs(
    pool: PoolLayout,
    indices: Seq<usize>,
    seeds_len: nat,
    out: OutBatch,
)
    requires
        all_hold(pool.reset_with_seeds_checks(indices, seeds_len, out)),
    ensures
        indices.len() == seeds_len,
        forall|i: int| 0 <= i < indices.len() ==> #[trigger] indices[i] < pool.num_envs,
{
    let c = indices_and_seeds_check(indices, seeds_len, pool.num_envs);
    assert(seq![c].len() == 1);
    assert(seq![c][0] is Ok);
    assert(c is Ok);
    lemma_first_failure_bounds(index_checks(indices, pool.num_envs));
    assert forall|i: int| 0 <= i < indices.len() implies #[trigger] indices[i] < pool.num_envs by {
        assert(index_checks(indices, pool.num_envs)[i] is Ok);
    }
}

/// A step that passes its checks was given one action per environment, and
/// its output buffers are shaped for the pool.
pub proof fn accepted_step_has_one_action_per_env(pool: PoolLayout, actions: SliceArg, out: OutBatch)
    requires
        all_hold(pool.step_checks(actions, out)),
    ensures
        actions.contiguous,
        actions.len == pool.num_envs,
        all_hold(out.dims_checks(pool)),
        all_hold(out.contiguity_checks()),
{
    assert(seq![arg_len_check(ArrayName::Actions, actions, pool.num_envs)][0] is Ok);
}

/// The logits check accepts exactly the logits with one row per environment
/// and one column per action id, and refuses every other shape, the
/// transposed one `(action_space, num_envs)` included when the two differ.
pub proof fn logits_check_accepts_exactly_rows_by_actions(shape: Seq<usize>, num_envs: usize, action_space: usize)
    ensures
        logits_shape_check(shape, num_envs, action_space) is Ok <==> dim_at(shape, 0) == num_envs && dim_at(
            shape,
            1,
        ) == action_space,
        logits_shape_check(shape, num_envs, action_space) is Err ==> logits_shape_check(
            shape,
            num_envs,
            action_space,
        ) == Err::<(), BufferError>(BufferError::LogitsShape),
        num_envs != action_space ==> logits_shape_check(seq![action_space, num_envs], num_envs, action_space)
            is Err,
{
}


/// Three lists of checks run one after the other report the first failure of
/// the first list, else of the second, else of the third.
proof fn three_lists_fail_in_order(a: Seq<Check>, b: Seq<Check>, c: Seq<Check>)
    ensures
        first_failure(a + b + c) == (if first_failure(a) is Err {
            first_failure(a)
        } else if first_failure(b) is Err {
            first_failure(b)
        } else {
            first_failure(c)
        }),
        first_failure(a) is Err <==> !all_hold(a),
{
    lemma_first_failure_append(a + b, c);
    lemma_first_failure_append(a, b);
    lemma_first_failure_bounds(a);
}


/// A reset checks the shapes of its output buffers before it borrows them. The error reported is that of the first of these that fails.
pub proof fn reset_checks_shapes_then_borrowing(pool: PoolLayout, out: OutBatch)
    ensures
        first_failure(pool.reset_checks(out)) == (if !all_hold(out.dims_checks(pool)) {
            first_failure(out.dims_checks(pool))
        } else {
            first_failure(out.contiguity_checks())
        }),
{
    lemma_first_failure_append(out.dims_checks(pool), out.contiguity_checks());
    lemma_first_failure_bounds(out.dims_checks(pool));
}

/// A reset of flagged environments checks the buffer shapes, then the done mask, then that the buffers can be borrowed. The error reported is that of the first of these that fails.
pub proof fn reset_done_checks_shapes_then_done_mask_then_borrowing(pool: PoolLayout, done_mask: SliceArg, out: OutBatch)
    ensures
        first_failure(pool.reset_done_checks(done_mask, out)) == (if !all_hold(out.dims_checks(pool)) {
            first_failure(out.dims_checks(pool))
        } else if arg_len_check(ArrayName::DoneMask, done_mask, pool.num_envs) is Err {
            arg_len_check(ArrayName::DoneMask, done_mask, pool.num_envs)
        } else {
            first_failure(out.contiguity_checks())
        }),
{
    three_lists_fail_in_order(out.dims_checks(pool), seq![arg_len_check(ArrayName::DoneMask, done_mask, pool.num_envs)], out.contiguity_checks());
    reveal_with_fuel(first_failure, 2);
    assert(seq![arg_len_check(ArrayName::DoneMask, done_mask, pool.num_envs)].drop_first() =~= Seq::<Check>::empty());
}

/// A step checks the buffer shapes, then the actions, then that the buffers can be borrowed. The error reported is that of the first of these that fails.
pub proof fn step_checks_shapes_then_actions_then_borrowing(pool: PoolLayout, actions: SliceArg, out: OutBatch)
    ensures
        first_failure(pool.step_checks(actions, out)) == (if !all_hold(out.dims_checks(pool)) {
            first_failure(out.dims_checks(pool))
        } else if arg_len_check(ArrayName::Actions, actions, pool.num_envs) is Err {
            arg_len_check(ArrayName::Actions, actions, pool.num_envs)
        } else {
            first_failure(out.contiguity_checks())
        }),
{
    three_lists_fail_in_order(out.dims_checks(pool), seq![arg_len_check(ArrayName::Actions, actions, pool.num_envs)], out.contiguity_checks());
    reveal_with_fuel(first_failure, 2);
    assert(seq![arg_len_check(ArrayName::Actions, actions, pool.num_envs)].drop_first() =~= Seq::<Check>::empty());
}

/// A sampling step checks the buffer shapes, then the seeds, then the actions, then that the buffers can be borrowed. The error reported is that of the first of these that fails.
pub proof fn step_sample_uniform_checks_shapes_then_seeds_then_actions(pool: PoolLayout, seeds: SliceArg, actions: SliceArg, out: OutBatch)
    ensures
        first_failure(pool.step_sample_uniform_checks(seeds, actions, out)) == (if !all_hold(out.dims_checks(pool)) {
            first_failure(out.dims_checks(pool))
        } else if arg_len_check(ArrayName::Seeds, seeds, pool.num_envs) is Err {
            arg_len_check(ArrayName::Seeds, seeds, pool.num_envs)
        } else if arg_len_check(ArrayName::Actions, actions, pool.num_envs) is Err {
            arg_len_check(ArrayName::Actions, actions, pool.num_envs)
        } else {
            first_failure(out.contiguity_checks())
        }),
{
    three_lists_fail_in_order(out.dims_checks(pool), seq![arg_len_check(ArrayName::Seeds, seeds, pool.num_envs), arg_len_check(ArrayName::Actions, actions, pool.num_envs)], out.contiguity_checks());
    reveal_with_fuel(first_failure, 3);
    assert(seq![arg_len_check(ArrayName::Seeds, seeds, pool.num_envs), arg_len_check(ArrayName::Actions, actions, pool.num_envs)].drop_first() =~= seq![arg_len_check(ArrayName::Actions, actions, pool.num_envs)]);
    assert(seq![arg_len_check(ArrayName::Actions, actions, pool.num_envs)].drop_first() =~= Seq::<Check>::empty());
}

/// A reset on error codes checks the buffer shapes, then the codes, then that the buffers can be borrowed. The error reported is that of the first of these that fails.
pub proof fn auto_reset_checks_shapes_then_codes_then_borrowing(pool: PoolLayout, codes: SliceArg, out: OutBatch)
    ensures
        first_failure(pool.auto_reset_checks(codes, out)) == (if !all_hold(out.dims_checks(pool)) {
            first_failure(out.dims_checks(pool))
        } else if contiguity_check(ArrayName::Codes, codes.contiguous) is Err {
            contiguity_check(ArrayName::Codes, codes.contiguous)
        } else {
            first_failure(out.contiguity_checks())
        }),
{
    three_lists_fail_in_order(out.dims_checks(pool), seq![contiguity_check(ArrayName::Codes, codes.contiguous)], out.contiguity_checks());
    reveal_with_fuel(first_failure, 2);
    assert(seq![contiguity_check(ArrayName::Codes, codes.contiguous)].drop_first() =~= Seq::<Check>::empty());
}

/// A seeded reset checks the buffer shapes, then the indices and seeds, then that the buffers can be borrowed. The error reported is that of the first of these that fails.
pub proof fn seeded_reset_checks_shapes_then_indices_then_borrowing(pool: PoolLayout, indices: Seq<usize>, seeds_len: nat, out: OutBatch)
    ensures
        first_failure(pool.reset_with_seeds_checks(indices, seeds_len, out)) == (if !all_hold(out.dims_checks(pool)) {
            first_failure(out.dims_checks(pool))
        } else if indices_and_seeds_check(indices, seeds_len, pool.num_envs) is Err {
            indices_and_seeds_check(indices, seeds_len, pool.num_envs)
        } else {
            first_failure(out.contiguity_checks())
        }),
{
    three_lists_fail_in_order(out.dims_checks(pool), seq![indices_and_seeds_check(indices, seeds_len, pool.num_envs)], out.contiguity_checks());
    reveal_with_fuel(first_failure, 2);
    assert(seq![indices_and_seeds_check(indices, seeds_len, pool.num_envs)].drop_first() =~= Seq::<Check>::empty());
}

/// A step from logits checks the buffer shapes, then the logits' shape and contiguity, then the actions, then that the buffers can be borrowed. The error reported is that of the first of these that fails.
pub proof fn step_select_logits_checks_shapes_then_logits_then_actions(pool: PoolLayout, logits: Seq<usize>, logits_contiguous: bool, actions: SliceArg, out: OutBatch)
    ensures
        first_failure(pool.step_select_logits_checks(logits, logits_contiguous, actions, out)) == (if !all_hold(out.dims_checks(pool)) {
            first_failure(out.dims_checks(pool))
        } else if logits_shape_check(logits, pool.num_envs, pool.enc.action_space) is Err {
            logits_shape_check(logits, pool.num_envs, pool.enc.action_space)
        } else if contiguity_check(ArrayName::Logits, logits_contiguous) is Err {
            contiguity_check(ArrayName::Logits, logits_contiguous)
        } else if arg_len_check(ArrayName::Actions, actions, pool.num_envs) is Err {
            arg_len_check(ArrayName::Actions, actions, pool.num_envs)
        } else {
            first_failure(out.contiguity_checks())
        }),
{
    three_lists_fail_in_order(out.dims_checks(pool), seq![logits_shape_check(logits, pool.num_envs, pool.enc.action_space), contiguity_check(ArrayName::Logits, logits_contiguous), arg_len_check(ArrayName::Actions, actions, pool.num_envs)], out.contiguity_checks());
    reveal_with_fuel(first_failure, 4);
    assert(seq![logits_shape_check(logits, pool.num_envs, pool.enc.action_space), contiguity_check(ArrayName::Logits, logits_contiguous), arg_len_check(ArrayName::Actions, actions, pool.num_envs)].drop_first() =~= seq![contiguity_check(ArrayName::Logits, logits_contiguous), arg_len_check(ArrayName::Actions, actions, pool.num_envs)]);
    assert(seq![contiguity_check(ArrayName::Logits, logits_contiguous), arg_len_check(ArrayName::Actions, actions, pool.num_envs)].drop_first() =~= seq![arg_len_check(ArrayName::Actions, actions, pool.num_envs)]);
    assert(seq![arg_len_check(ArrayName::Actions, actions, pool.num_envs)].drop_first() =~= Seq::<Check>::empty());
}

/// A step sampled from logits checks the buffer shapes, then the logits' shape and contiguity, then the seeds, then the actions, then that the buffers can be borrowed. The error reported is that of the first of these that fails.
pub proof fn step_sample_logits_checks_shapes_then_logits_then_seeds_then_actions(pool: PoolLayout, logits: Seq<usize>, logits_contiguous: bool, seeds: SliceArg, actions: SliceArg, out: OutBatch)
    ensures
        first_failure(pool.step_sample_logits_checks(logits, logits_contiguous, seeds, actions, out)) == (if !all_hold(out.dims_checks(pool)) {
            first_failure(out.dims_checks(pool))
        } else if logits_shape_check(logits, pool.num_envs, pool.enc.action_space) is Err {
            logits_shape_check(logits, pool.num_envs, pool.enc.action_space)
        } else if contiguity_check(ArrayName::Logits, logits_contiguous) is Err {
            contiguity_check(ArrayName::Logits, logits_contiguous)
        } else if arg_len_check(ArrayName::Seeds, seeds, pool.num_envs) is Err {
            arg_len_check(ArrayName::Seeds, seeds, pool.num_envs)
        } else if arg_len_check(ArrayName::Actions, actions, pool.num_envs) is Err {
            arg_len_check(ArrayName::Actions, actions, pool.num_envs)
        } else {
            first_failure(out.contiguity_checks())
        }),
{
    three_lists_fail_in_order(out.dims_checks(pool), seq![logits_shape_check(logits, pool.num_envs, pool.enc.action_space), contiguity_check(ArrayName::Logits, logits_contiguous), arg_len_check(ArrayName::Seeds, seeds, pool.num_envs), arg_len_check(ArrayName::Actions, actions, pool.num_envs)], out.contiguity_checks());
    reveal_with_fuel(first_failure, 5);
    assert(seq![logits_shape_check(logits, pool.num_envs, pool.enc.action_space), contiguity_check(ArrayName::Logits, logits_contiguous), arg_len_check(ArrayName::Seeds, seeds, pool.num_envs), arg_len_check(ArrayName::Actions, actions, pool.num_envs)].drop_first() =~= seq![contiguity_check(ArrayName::Logits, logits_contiguous), arg_len_check(ArrayName::Seeds, seeds, pool.num_envs), arg_len_check(ArrayName::Actions, actions, pool.num_envs)]);
    assert(seq![contiguity_check(ArrayName::Logits, logits_contiguous), arg_len_check(ArrayName::Seeds, seeds, pool.num_envs), arg_len_check(ArrayName::Actions, actions, pool.num_envs)].drop_first() =~= seq![arg_len_check(ArrayName::Seeds, seeds, pool.num_envs), arg_len_check(ArrayName::Actions, actions, pool.num_envs)]);
    assert(seq![arg_len_check(ArrayName::Seeds, seeds, pool.num_envs), arg_len_check(ArrayName::Actions, actions, pool.num_envs)].drop_first() =~= seq![arg_len_check(ArrayName::Actions, actions, pool.num_envs)]);
    assert(seq![arg_len_check(ArrayName::Actions, actions, pool.num_envs)].drop_first() =~= Seq::<Check>::empty());
}

/// A rollout checks the buffer shapes, then the step count, then that the buffers can be borrowed. The error reported is that of the first of these that fails.
pub proof fn rollout_checks_shapes_then_steps_then_borrowing(pool: PoolLayout, steps: usize, traj: OutTrajectory)
    ensures
        first_failure(pool.rollout_checks(steps, traj)) == (if !all_hold(traj.dims_checks(pool, steps)) {
            first_failure(traj.dims_checks(pool, steps))
        } else if steps_check(steps, traj.spec_steps()) is Err {
            steps_check(steps, traj.spec_steps())
        } else {
            first_failure(traj.contiguity_checks())
        }),
{
    three_lists_fail_in_order(traj.dims_checks(pool, steps), seq![steps_check(steps, traj.spec_steps())], traj.contiguity_checks());
    reveal_with_fuel(first_failure, 2);
    assert(seq![steps_check(steps, traj.spec_steps())].drop_first() =~= Seq::<Check>::empty());
}

/// A sampling rollout checks the buffer shapes, then the step count, then the seeds, then that the buffers can be borrowed. The error reported is that of the first of these that fails.
pub proof fn rollout_sample_checks_shapes_then_steps_then_seeds(pool: PoolLayout, steps: usize, seeds: SliceArg, traj: OutTrajectory)
    ensures
        first_failure(pool.rollout_sample_checks(steps, seeds, traj)) == (if !all_hold(traj.dims_checks(pool, steps)) {
            first_failure(traj.dims_checks(pool, steps))
        } else if steps_check(steps, traj.spec_steps()) is Err {
            steps_check(steps, traj.spec_steps())
        } else if contiguity_check(ArrayName::Seeds, seeds.contiguous) is Err {
            contiguity_check(ArrayName::Seeds, seeds.contiguous)
        } else {
            first_failure(traj.contiguity_checks())
        }),
{
    three_lists_fail_in_order(traj.dims_checks(pool, steps), seq![steps_check(steps, traj.spec_steps()), contiguity_check(ArrayName::Seeds, seeds.contiguous)], traj.contiguity_checks());
    reveal_with_fuel(first_failure, 3);
    assert(seq![steps_check(steps, traj.spec_steps()), contiguity_check(ArrayName::Seeds, seeds.contiguous)].drop_first() =~= seq![contiguity_check(ArrayName::Seeds, seeds.contiguous)]);
    assert(seq![contiguity_check(ArrayName::Seeds, seeds.contiguous)].drop_first() =~= Seq::<Check>::empty());
}


/// Listing legal ids into caller buffers checks that the ids and then the offsets buffer are contiguous, then the capacity of each, in that order. The error reported is that of the first of these that fails.
pub proof fn legal_action_ids_checks_contiguity_then_capacity(pool: PoolLayout, ids: SliceArg, offsets: SliceArg)
    ensures
        first_failure(pool.legal_action_ids_checks(ids, offsets)) == (if contiguity_check(ArrayName::Ids, ids.contiguous) is Err {
            contiguity_check(ArrayName::Ids, ids.contiguous)
        } else if contiguity_check(ArrayName::Offsets, offsets.contiguous) is Err {
            contiguity_check(ArrayName::Offsets, offsets.contiguous)
        } else if ids_capacity_check(ids.len, pool.num_envs, pool.enc.action_space) is Err {
            ids_capacity_check(ids.len, pool.num_envs, pool.enc.action_space)
        } else if offsets_capacity_check(offsets.len, pool.num_envs) is Err {
            offsets_capacity_check(offsets.len, pool.num_envs)
        } else {
            Ok(())
        }),
{
    reveal_with_fuel(first_failure, 5);
    assert(seq![contiguity_check(ArrayName::Ids, ids.contiguous), contiguity_check(ArrayName::Offsets, offsets.contiguous), ids_capacity_check(ids.len, pool.num_envs, pool.enc.action_space), offsets_capacity_check(offsets.len, pool.num_envs)].drop_first() =~= seq![contiguity_check(ArrayName::Offsets, offsets.contiguous), ids_capacity_check(ids.len, pool.num_envs, pool.enc.action_space), offsets_capacity_check(offsets.len, pool.num_envs)]);
    assert(seq![contiguity_check(ArrayName::Offsets, offsets.contiguous), ids_capacity_check(ids.len, pool.num_envs, pool.enc.action_space), offsets_capacity_check(offsets.len, pool.num_envs)].drop_first() =~= seq![ids_capacity_check(ids.len, pool.num_envs, pool.enc.action_space), offsets_capacity_check(offsets.len, pool.num_envs)]);
    assert(seq![ids_capacity_check(ids.len, pool.num_envs, pool.enc.action_space), offsets_capacity_check(offsets.len, pool.num_envs)].drop_first() =~= seq![offsets_capacity_check(offsets.len, pool.num_envs)]);
    assert(seq![offsets_capacity_check(offsets.len, pool.num_envs)].drop_first() =~= Seq::<Check>::empty());
}

/// Sampling into a caller buffer checks that the seeds and then the actions are contiguous, then the length of each, in that order. The error reported is that of the first of these that fails.
pub proof fn sample_uniform_checks_contiguity_then_lengths(pool: PoolLayout, seeds: SliceArg, actions: SliceArg)
    ensures
        first_failure(pool.sample_uniform_checks(seeds, actions)) == (if contiguity_check(ArrayName::Seeds, seeds.contiguous) is Err {
            contiguity_check(ArrayName::Seeds, seeds.contiguous)
        } else if contiguity_check(ArrayName::Actions, actions.contiguous) is Err {
            contiguity_check(ArrayName::Actions, actions.contiguous)
        } else if len_check(ArrayName::Seeds, seeds.len, pool.num_envs) is Err {
            len_check(ArrayName::Seeds, seeds.len, pool.num_envs)
        } else if len_check(ArrayName::Actions, actions.len, pool.num_envs) is Err {
            len_check(ArrayName::Actions, actions.len, pool.num_envs)
        } else {
            Ok(())
        }),
{
    reveal_with_fuel(first_failure, 5);
    assert(seq![contiguity_check(ArrayName::Seeds, seeds.contiguous), contiguity_check(ArrayName::Actions, actions.contiguous), len_check(ArrayName::Seeds, seeds.len, pool.num_envs), len_check(ArrayName::Actions, actions.len, pool.num_envs)].drop_first() =~= seq![contiguity_check(ArrayName::Actions, actions.contiguous), len_check(ArrayName::Seeds, seeds.len, pool.num_envs), len_check(ArrayName::Actions, actions.len, pool.num_envs)]);
    assert(seq![contiguity_check(ArrayName::Actions, actions.contiguous), len_check(ArrayName::Seeds, seeds.len, pool.num_envs), len_check(ArrayName::Actions, actions.len, pool.num_envs)].drop_first() =~= seq![len_check(ArrayName::Seeds, seeds.len, pool.num_envs), len_check(ArrayName::Actions, actions.len, pool.num_envs)]);
    assert(seq![len_check(ArrayName::Seeds, seeds.len, pool.num_envs), len_check(ArrayName::Actions, actions.len, pool.num_envs)].drop_first() =~= seq![len_check(ArrayName::Actions, actions.len, pool.num_envs)]);
    assert(seq![len_check(ArrayName::Actions, actions.len, pool.num_envs)].drop_first() =~= Seq::<Check>::empty());
}

/// Choosing actions from logits checks the logits' shape, then their contiguity, then the actions. The error reported is that of the first of these that fails.
pub proof fn select_logits_checks_logits_then_actions(pool: PoolLayout, logits: Seq<usize>, logits_contiguous: bool, actions: SliceArg)
    ensures
        first_failure(pool.select_logits_checks(logits, logits_contiguous, actions)) == (if logits_shape_check(logits, pool.num_envs, pool.enc.action_space) is Err {
            logits_shape_check(logits, pool.num_envs, pool.enc.action_space)
        } else if contiguity_check(ArrayName::Logits, logits_contiguous) is Err {
            contiguity_check(ArrayName::Logits, logits_contiguous)
        } else if arg_len_check(ArrayName::Actions, actions, pool.num_envs) is Err {
            arg_len_check(ArrayName::Actions, actions, pool.num_envs)
        } else {
            Ok(())
        }),
{
    reveal_with_fuel(first_failure, 4);
    assert(seq![logits_shape_check(logits, pool.num_envs, pool.enc.action_space), contiguity_check(ArrayName::Logits, logits_contiguous), arg_len_check(ArrayName::Actions, actions, pool.num_envs)].drop_first() =~= seq![contiguity_check(ArrayName::Logits, logits_contiguous), arg_len_check(ArrayName::Actions, actions, pool.num_envs)]);
    assert(seq![contiguity_check(ArrayName::Logits, logits_contiguous), arg_len_check(ArrayName::Actions, actions, pool.num_envs)].drop_first() =~= seq![arg_len_check(ArrayName::Actions, actions, pool.num_envs)]);
    assert(seq![arg_len_check(ArrayName::Actions, actions, pool.num_envs)].drop_first() =~= Seq::<Check>::empty());
}

/// Sampling actions from logits checks the logits' shape, then their contiguity, then the seeds, then the actions. The error reported is that of the first of these that fails.
pub proof fn sample_logits_checks_logits_then_seeds_then_actions(pool: PoolLayout, logits: Seq<usize>, logits_contiguous: bool, seeds: SliceArg, actions: SliceArg)
    ensures
        first_failure(pool.sample_logits_checks(logits, logits_contiguous, seeds, actions)) == (if logits_shape_check(logits, pool.num_envs, pool.enc.action_space) is Err {
            logits_shape_check(logits, pool.num_envs, pool.enc.action_space)
        } else if contiguity_check(ArrayName::Logits, logits_contiguous) is Err {
            contiguity_check(ArrayName::Logits, logits_contiguous)
        } else if arg_len_check(ArrayName::Seeds, seeds, pool.num_envs) is Err {
            arg_len_check(ArrayName::Seeds, seeds, pool.num_envs)
        } else if arg_len_check(ArrayName::Actions, actions, pool.num_envs) is Err {
            arg_len_check(ArrayName::Actions, actions, pool.num_envs)
        } else {
            Ok(())
        }),
{
    reveal_with_fuel(first_failure, 5);
    assert(seq![logits_shape_check(logits, pool.num_envs, pool.enc.action_space), contiguity_check(ArrayName::Logits, logits_contiguous), arg_len_check(ArrayName::Seeds, seeds, pool.num_envs), arg_len_check(ArrayName::Actions, actions, pool.num_envs)].drop_first() =~= seq![contiguity_check(ArrayName::Logits, logits_contiguous), arg_len_check(ArrayName::Seeds, seeds, pool.num_envs), arg_len_check(ArrayName::Actions, actions, pool.num_envs)]);
    assert(seq![contiguity_check(ArrayName::Logits, logits_contiguous), arg_len_check(ArrayName::Seeds, seeds, pool.num_envs), arg_len_check(ArrayName::Actions, actions, pool.num_envs)].drop_first() =~= seq![arg_len_check(ArrayName::Seeds, seeds, pool.num_envs), arg_len_check(ArrayName::Actions, actions, pool.num_envs)]);
    assert(seq![arg_len_check(ArrayName::Seeds, seeds, pool.num_envs), arg_len_check(ArrayName::Actions, actions, pool.num_envs)].drop_first() =~= seq![arg_len_check(ArrayName::Actions, actions, pool.num_envs)]);
    assert(seq![arg_len_check(ArrayName::Actions, actions, pool.num_envs)].drop_first() =~= Seq::<Check>::empty());
}

/// Listing legal ids and sampling among them checks the contiguity of the seeds, ids, offsets and actions, then the capacity of the ids and offsets buffers, then the lengths of the seeds and actions, in that order. The error reported is that of the first of these that fails.
pub proof fn legal_ids_and_sample_checks_contiguity_then_sizes(pool: PoolLayout, ids: SliceArg, offsets: SliceArg, seeds: SliceArg, actions: SliceArg)
    ensures
        first_failure(pool.legal_ids_and_sample_checks(ids, offsets, seeds, actions)) == (if contiguity_check(ArrayName::Seeds, seeds.contiguous) is Err {
            contiguity_check(ArrayName::Seeds, seeds.contiguous)
        } else if contiguity_check(ArrayName::Ids, ids.contiguous) is Err {
            contiguity_check(ArrayName::Ids, ids.contiguous)
        } else if contiguity_check(ArrayName::Offsets, offsets.contiguous) is Err {
            contiguity_check(ArrayName::Offsets, offsets.contiguous)
        } else if contiguity_check(ArrayName::Actions, actions.contiguous) is Err {
            contiguity_check(ArrayName::Actions, actions.contiguous)
        } else if ids_capacity_check(ids.len, pool.num_envs, pool.enc.action_space) is Err {
            ids_capacity_check(ids.len, pool.num_envs, pool.enc.action_space)
        } else if offsets_capacity_check(offsets.len, pool.num_envs) is Err {
            offsets_capacity_check(offsets.len, pool.num_envs)
        } else if len_check(ArrayName::Seeds, seeds.len, pool.num_envs) is Err {
            len_check(ArrayName::Seeds, seeds.len, pool.num_envs)
        } else if len_check(ArrayName::Actions, actions.len, pool.num_envs) is Err {
            len_check(ArrayName::Actions, actions.len, pool.num_envs)
        } else {
            Ok(())
        }),
{
    reveal_with_fuel(first_failure, 9);
    assert(seq![contiguity_check(ArrayName::Seeds, seeds.contiguous), contiguity_check(ArrayName::Ids, ids.contiguous), contiguity_check(ArrayName::Offsets, offsets.contiguous), contiguity_check(ArrayName::Actions, actions.contiguous), ids_capacity_check(ids.len, pool.num_envs, pool.enc.action_space), offsets_capacity_check(offsets.len, pool.num_envs), len_check(ArrayName::Seeds, seeds.len, pool.num_envs), len_check(ArrayName::Actions, actions.len, pool.num_envs)].drop_first() =~= seq![contiguity_check(ArrayName::Ids, ids.contiguous), contiguity_check(ArrayName::Offsets, offsets.contiguous), contiguity_check(ArrayName::Actions, actions.contiguous), ids_capacity_check(ids.len, pool.num_envs, pool.enc.action_space), offsets_capacity_check(offsets.len, pool.num_envs), len_check(ArrayName::Seeds, seeds.len, pool.num_envs), len_check(ArrayName::Actions, actions.len, pool.num_envs)]);
    assert(seq![contiguity_check(ArrayName::Ids, ids.contiguous), contiguity_check(ArrayName::Offsets, offsets.contiguous), contiguity_check(ArrayName::Actions, actions.contiguous), ids_capacity_check(ids.len, pool.num_envs, pool.enc.action_space), offsets_capacity_check(offsets.len, pool.num_envs), len_check(ArrayName::Seeds, seeds.len, pool.num_envs), len_check(ArrayName::Actions, actions.len, pool.num_envs)].drop_first() =~= seq![contiguity_check(ArrayName::Offsets, offsets.contiguous), contiguity_check(ArrayName::Actions, actions.contiguous), ids_capacity_check(ids.len, pool.num_envs, pool.enc.action_space), offsets_capacity_check(offsets.len, pool.num_envs), len_check(ArrayName::Seeds, seeds.len, pool.num_envs), len_check(ArrayName::Actions, actions.len, pool.num_envs)]);
    assert(seq![contiguity_check(ArrayName::Offsets, offsets.contiguous), contiguity_check(ArrayName::Actions, actions.contiguous), ids_capacity_check(ids.len, pool.num_envs, pool.enc.action_space), offsets_capacity_check(offsets.len, pool.num_envs), len_check(ArrayName::Seeds, seeds.len, pool.num_envs), len_check(ArrayName::Actions, actions.len, pool.num_envs)].drop_first() =~= seq![contiguity_check(ArrayName::Actions, actions.contiguous), ids_capacity_check(ids.len, pool.num_envs, pool.enc.action_space), offsets_capacity_check(offsets.len, pool.num_envs), len_check(ArrayName::Seeds, seeds.len, pool.num_envs), len_check(ArrayName::Actions, actions.len, pool.num_envs)]);
    assert(seq![contiguity_check(ArrayName::Actions, actions.contiguous), ids_capacity_check(ids.len, pool.num_envs, pool.enc.action_space), offsets_capacity_check(offsets.len, pool.num_envs), len_check(ArrayName::Seeds, seeds.len, pool.num_envs), len_check(ArrayName::Actions, actions.len, pool.num_envs)].drop_first() =~= seq![ids_capacity_check(ids.len, pool.num_envs, pool.enc.action_space), offsets_capacity_check(offsets.len, pool.num_envs), len_check(ArrayName::Seeds, seeds.len, pool.num_envs), len_check(ArrayName::Actions, actions.len, pool.num_envs)]);
    assert(seq![ids_capacity_check(ids.len, pool.num_envs, pool.enc.action_space), offsets_capacity_check(offsets.len, pool.num_envs), len_check(ArrayName::Seeds, seeds.len, pool.num_envs), len_check(ArrayName::Actions, actions.len, pool.num_envs)].drop_first() =~= seq![offsets_capacity_check(offsets.len, pool.num_envs), len_check(ArrayName::Seeds, seeds.len, pool.num_envs), len_check(ArrayName::Actions, actions.len, pool.num_envs)]);
    assert(seq![offsets_capacity_check(offsets.len, pool.num_envs), len_check(ArrayName::Seeds, seeds.len, pool.num_envs), len_check(ArrayName::Actions, actions.len, pool.num_envs)].drop_first() =~= seq![len_check(ArrayName::Seeds, seeds.len, pool.num_envs), len_check(ArrayName::Actions, actions.len, pool.num_envs)]);
    assert(seq![len_check(ArrayName::Seeds, seeds.len, pool.num_envs), len_check(ArrayName::Actions, actions.len, pool.num_envs)].drop_first() =~= seq![len_check(ArrayName::Actions, actions.len, pool.num_envs)]);
    assert(seq![len_check(ArrayName::Actions, actions.len, pool.num_envs)].drop_first() =~= Seq::<Check>::empty());
}

/// A caller ids buffer is accepted exactly when `num_envs * action_space`
/// fits `usize` and the buffer holds at least that many entries, and an
/// offsets buffer exactly when `num_envs + 1` fits and it holds that many; a
/// refusal reports the overflow or the length found and the one needed. A
/// rollout's step count is accepted exactly when it equals the buffers', and
/// a description request exactly when it gives one action id per environment.
pub proof fn caller_buffer_checks_report_the_shortfall(
    len: usize,
    num_envs: usize,
    action_space: usize,
    steps: usize,
    buffer_steps: usize,
)
    ensures
        ids_capacity_check(len, num_envs, action_space) is Ok <==> num_envs * action_space <= usize::MAX && len
            >= num_envs * action_space,
        num_envs * action_space > usize::MAX ==> ids_capacity_check(len, num_envs, action_space) == Err::<
            (),
            BufferError,
        >(BufferError::IdsSizeOverflow),
        num_envs * action_space <= usize::MAX && len < num_envs * action_space ==> ids_capacity_check(
            len,
            num_envs,
            action_space,
        ) == Err::<(), BufferError>(
            BufferError::IdsTooSmall { got: len, need: (num_envs * action_space) as usize },
        ),
        offsets_capacity_check(len, num_envs) is Ok <==> num_envs + 1 <= usize::MAX && len >= num_envs + 1,
        num_envs + 1 > usize::MAX ==> offsets_capacity_check(len, num_envs) == Err::<(), BufferError>(
            BufferError::OffsetsSizeOverflow,
        ),
        num_envs + 1 <= usize::MAX && len < num_envs + 1 ==> offsets_capacity_check(len, num_envs) == Err::<
            (),
            BufferError,
        >(BufferError::OffsetsTooSmall { got: len, need: (num_envs + 1) as usize }),
        steps_check(steps, buffer_steps) is Ok <==> steps == buffer_steps,
        steps != buffer_steps ==> steps_check(steps, buffer_steps) == Err::<(), BufferError>(
            BufferError::StepsMismatch,
        ),
        action_ids_len_check(len, num_envs) is Ok <==> len == num_envs,
        len != num_envs ==> action_ids_len_check(len, num_envs) == Err::<(), BufferError>(
            BufferError::ActionIdsLenMismatch,
        ),
{
}

} // verus!
