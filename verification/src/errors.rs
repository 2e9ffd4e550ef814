//! Error values of the binding layer.
use vstd::prelude::*;

verus! {

/// The arrays that the binding reads or fills, named as Python sees them.
#[derive(Clone, Copy, Debug, PartialEq, Eq, Structural)]
pub enum ArrayName {
    Obs,
    Masks,
    LegalIds,
    LegalOffsets,
    Rewards,
    Terminated,
    Truncated,
    Actor,
    DecisionKind,
    DecisionId,
    EngineStatus,
    SpecHash,
    Actions,
    StateFingerprint,
    EventsFingerprint,
    MaskFingerprint,
    EventCounts,
    EventCodes,
    DoneMask,
    Seeds,
    Codes,
    Logits,
    Ids,
    Offsets,
}

/// An axis of an output buffer whose extent is checked.
#[derive(Clone, Copy, Debug, PartialEq, Eq, Structural)]
pub enum Axis {
    First,
    Second,
    Third,
}

/// Why a batch buffer, an input array or a buffer request was refused.
///
/// Every variant is reported to Python as a `ValueError`.
#[derive(Clone, Copy, Debug, PartialEq, Eq, Structural)]
pub enum BufferError {
    /// An output buffer has the wrong extent along an axis.
    DimMismatch { name: ArrayName, axis: Axis, got: usize, expected: usize },
    /// An input array does not hold one entry per environment.
    LenMismatch { name: ArrayName, got: usize, expected: usize },
    /// An array is not laid out contiguously in memory.
    NotContiguous { name: ArrayName },
    /// The action space does not fit the `u16` legal-id encoding.
    ActionSpaceTooLarge { action_space: usize },
    /// `num_envs * action_space` overflows for a legal-ids output buffer.
    LegalIdsSizeOverflow,
    /// `num_envs + 1` overflows for a legal-offsets output buffer.
    LegalOffsetsSizeOverflow,
    /// `num_envs * action_space` overflows for a caller-provided ids buffer.
    IdsSizeOverflow,
    /// `num_envs + 1` overflows for a caller-provided offsets buffer.
    OffsetsSizeOverflow,
    /// A caller-provided ids buffer is shorter than `num_envs * action_space`.
    IdsTooSmall { got: usize, need: usize },
    /// A caller-provided offsets buffer is shorter than `num_envs + 1`.
    OffsetsTooSmall { got: usize, need: usize },
    /// A rollout was asked for a step count other than the trajectory buffer's.
    StepsMismatch,
    /// Logits are not shaped `(num_envs, action_space)`.
    LogitsShape,
    /// `indices` and `episode_seeds` have different lengths.
    IndicesSeedsLenMismatch { got: usize, expected: usize },
    /// `indices[pos]` names no environment of the pool.
    IndexOutOfBounds { pos: usize, index: usize, max: usize },
    /// The action ids passed for description are not one per environment.
    ActionIdsLenMismatch,
    /// A buffer or pool was asked for zero environments.
    ZeroEnvs,
    /// A trajectory buffer was asked for zero steps or zero environments.
    ZeroStepsOrEnvs,
}

} // verus!
