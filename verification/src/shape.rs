//! Shapes of arrays and the elementary checks run on them.
use vstd::prelude::*;

use crate::errors::{ArrayName, Axis, BufferError};

verus! {

/// The outcome of one check: `Ok(())` when it holds, the error to report otherwise.
pub type Check = Result<(), BufferError>;

/// What the binding reads of a numpy array: its shape, and whether its
/// elements can be borrowed as one contiguous slice.
pub struct ArrayView {
    pub shape: Vec<usize>,
    pub contiguous: bool,
}

/// What the binding reads of a one-dimensional input array: whether it is
/// contiguous, and its length.
#[derive(Clone, Copy)]
pub struct SliceArg {
    pub contiguous: bool,
    pub len: usize,
}

/// The extent of `shape` along `axis`; an axis the array does not have counts as 0.
pub open spec fn dim_at(shape: Seq<usize>, axis: int) -> usize {
    if 0 <= axis < shape.len() {
        shape[axis]
    } else {
        0
    }
}

/// The first check of `checks` that fails, or `Ok(())` when all of them hold.
pub open spec fn first_failure(checks: Seq<Check>) -> Check
    decreases checks.len(),
{
    if checks.len() == 0 {
        Ok(())
    } else if checks[0] is Err {
        checks[0]
    } else {
        first_failure(checks.drop_first())
    }
}

/// Every check of `checks` holds.
pub open spec fn all_hold(checks: Seq<Check>) -> bool {
    forall|i: int| 0 <= i < checks.len() ==> (#[trigger] checks[i]) is Ok
}

/// Checking the first extent of a buffer, and its second one when one is expected.
pub open spec fn first_dim_check(
    name: ArrayName,
    shape: Seq<usize>,
    expected: usize,
    expected_second: Option<usize>,
) -> Check {
    if dim_at(shape, 0) != expected {
        Err(BufferError::DimMismatch { name, axis: Axis::First, got: dim_at(shape, 0), expected })
    } else {
        match expected_second {
            Some(second) => if dim_at(shape, 1) != second {
                Err(
                    BufferError::DimMismatch {
                        name,
                        axis: Axis::Second,
                        got: dim_at(shape, 1),
                        expected: second,
                    },
                )
            } else {
                Ok(())
            },
            None => Ok(()),
        }
    }
}

/// Checking the third extent of a buffer.
pub open spec fn third_dim_check(name: ArrayName, shape: Seq<usize>, expected: usize) -> Check {
    if dim_at(shape, 2) != expected {
        Err(BufferError::DimMismatch { name, axis: Axis::Third, got: dim_at(shape, 2), expected })
    } else {
        Ok(())
    }
}

/// Checking that an input holds one entry per environment.
pub open spec fn len_check(name: ArrayName, len: usize, expected: usize) -> Check {
    if len != expected {
        Err(BufferError::LenMismatch { name, got: len, expected })
    } else {
        Ok(())
    }
}

/// Checking that an array can be borrowed as one slice.
pub open spec fn contiguity_check(name: ArrayName, contiguous: bool) -> Check {
    if contiguous {
        Ok(())
    } else {
        Err(BufferError::NotContiguous { name })
    }
}

/// Borrowing an input as a slice, then checking its length.
pub open spec fn arg_len_check(name: ArrayName, arg: SliceArg, expected: usize) -> Check {
    if !arg.contiguous {
        Err(BufferError::NotContiguous { name })
    } else {
        len_check(name, arg.len, expected)
    }
}

/// Checking that the action space fits the `u16` legal-id encoding.
pub open spec fn action_space_u16_check(action_space: usize) -> Check {
    if action_space > u16::MAX {
        Err(BufferError::ActionSpaceTooLarge { action_space })
    } else {
        Ok(())
    }
}

/// Checking the legal-ids buffer, whose length along the axis after the
/// optional leading `steps` axis must be `num_envs * action_space`.
pub open spec fn legal_ids_dim_check(
    shape: Seq<usize>,
    steps: Option<usize>,
    num_envs: usize,
    action_space: usize,
) -> Check {
    if num_envs * action_space > usize::MAX {
        Err(BufferError::LegalIdsSizeOverflow)
    } else {
        match steps {
            None => first_dim_check(ArrayName::LegalIds, shape, (num_envs * action_space) as usize, None),
            Some(steps) => first_dim_check(
                ArrayName::LegalIds,
                shape,
                steps,
                Some((num_envs * action_space) as usize),
            ),
        }
    }
}

/// Checking the legal-offsets buffer, whose length along the axis after the
/// optional leading `steps` axis must be `num_envs + 1`.
pub open spec fn legal_offsets_dim_check(shape: Seq<usize>, steps: Option<usize>, num_envs: usize) -> Check {
    if num_envs + 1 > usize::MAX {
        Err(BufferError::LegalOffsetsSizeOverflow)
    } else {
        match steps {
            None => first_dim_check(ArrayName::LegalOffsets, shape, (num_envs + 1) as usize, None),
            Some(steps) => first_dim_check(
                ArrayName::LegalOffsets,
                shape,
                steps,
                Some((num_envs + 1) as usize),
            ),
        }
    }
}

/// Checks the legal-ids buffer of a legal-ids batch: after the optional
/// leading `steps` axis it must hold `num_envs * action_space` entries, and
/// that product must not overflow.
pub fn ensure_legal_ids_dims(
    arr: &ArrayView,
    steps: Option<usize>,
    num_envs: usize,
    action_space: usize,
) -> (r: Check)
    ensures
        r == legal_ids_dim_check(arr.shape@, steps, num_envs, action_space),
{
    match num_envs.checked_mul(action_space) {
        None => Err(BufferError::LegalIdsSizeOverflow),
        Some(expected) => match steps {
            None => ensure_first_dim(ArrayName::LegalIds, arr, expected, None),
            Some(steps) => ensure_first_two_dims(ArrayName::LegalIds, arr, steps, expected),
        },
    }
}

/// Checks the legal-offsets buffer of a legal-ids batch: after the optional
/// leading `steps` axis it must hold `num_envs + 1` entries, and that sum
/// must not overflow.
pub fn ensure_legal_offsets_dims(arr: &ArrayView, steps: Option<usize>, num_envs: usize) -> (r: Check)
    ensures
        r == legal_offsets_dim_check(arr.shape@, steps, num_envs),
{
    match num_envs.checked_add(1) {
        None => Err(BufferError::LegalOffsetsSizeOverflow),
        Some(expected) => match steps {
            None => ensure_first_dim(ArrayName::LegalOffsets, arr, expected, None),
            Some(steps) => ensure_first_two_dims(ArrayName::LegalOffsets, arr, steps, expected),
        },
    }
}

/// Checks that the first extent of `arr` is `expected` and, when
/// `expected_second` is given, that its second extent is that value.
pub fn ensure_first_dim(
    name: ArrayName,
    arr: &ArrayView,
    expected: usize,
    expected_second: Option<usize>,
) -> (r: Check)
    ensures
        r == first_dim_check(name, arr.shape@, expected, expected_second),
{
    let first_dim = if arr.shape.len() > 0 {
        arr.shape[0]
    } else {
        0
    };
    if first_dim != expected {
        return Err(BufferError::DimMismatch { name, axis: Axis::First, got: first_dim, expected });
    }
    if let Some(expected_second) = expected_second {
        let second_dim = if arr.shape.len() > 1 {
            arr.shape[1]
        } else {
            0
        };
        if second_dim != expected_second {
            return Err(
                BufferError::DimMismatch {
                    name,
                    axis: Axis::Second,
                    got: second_dim,
                    expected: expected_second,
                },
            );
        }
    }
    Ok(())
}

/// Checks that `arr` has extents `expected_first` and `expected_second` along its first two axes.
pub fn ensure_first_two_dims(
    name: ArrayName,
    arr: &ArrayView,
    expected_first: usize,
    expected_second: usize,
) -> (r: Check)
    ensures
        r == first_dim_check(name, arr.shape@, expected_first, Some(expected_second)),
{
    ensure_first_dim(name, arr, expected_first, Some(expected_second))
}

/// Checks that the third extent of `arr` is `expected`.
pub fn ensure_third_dim(name: ArrayName, arr: &ArrayView, expected: usize) -> (r: Check)
    ensures
        r == third_dim_check(name, arr.shape@, expected),
{
    let third_dim = if arr.shape.len() > 2 {
        arr.shape[2]
    } else {
        0
    };
    if third_dim != expected {
        return Err(BufferError::DimMismatch { name, axis: Axis::Third, got: third_dim, expected });
    }
    Ok(())
}

/// Checks that an input of length `len` holds one entry per environment.
pub fn ensure_len(name: ArrayName, len: usize, expected: usize) -> (r: Check)
    ensures
        r == len_check(name, len, expected),
{
    if len != expected {
        return Err(BufferError::LenMismatch { name, got: len, expected });
    }
    Ok(())
}

/// Checks that an array can be borrowed as one contiguous slice.
pub fn ensure_contiguous(name: ArrayName, arr: &ArrayView) -> (r: Check)
    ensures
        r == contiguity_check(name, arr.contiguous),
{
    if arr.contiguous {
        Ok(())
    } else {
        Err(BufferError::NotContiguous { name })
    }
}

/// Checks that an input can be borrowed as one contiguous slice.
pub fn ensure_arg_contiguous(name: ArrayName, arg: SliceArg) -> (r: Check)
    ensures
        r == contiguity_check(name, arg.contiguous),
{
    if arg.contiguous {
        Ok(())
    } else {
        Err(BufferError::NotContiguous { name })
    }
}

/// Borrows an input as a slice and checks that it holds one entry per environment.
pub fn ensure_arg_len(name: ArrayName, arg: SliceArg, expected: usize) -> (r: Check)
    ensures
        r == arg_len_check(name, arg, expected),
{
    if !arg.contiguous {
        return Err(BufferError::NotContiguous { name });
    }
    ensure_len(name, arg.len, expected)
}

/// Checks that the action space fits the `u16` legal-id encoding.
pub fn ensure_action_space_u16(action_space: usize) -> (r: Check)
    ensures
        r == action_space_u16_check(action_space),
        r is Ok <==> action_space <= 65535,
{
    if action_space > u16::MAX as usize {
        return Err(BufferError::ActionSpaceTooLarge { action_space });
    }
    Ok(())
}

/// The largest valid environment index of a pool of `num_envs`, saturating at zero.
pub open spec fn max_env_index(num_envs: usize) -> usize {
    if num_envs == 0 {
        0
    } else {
        (num_envs - 1) as usize
    }
}

/// Checking that `indices[pos] == index` names an environment of a pool of `num_envs`.
pub open spec fn index_check(pos: int, index: usize, num_envs: usize) -> Check {
    if index >= num_envs {
        Err(BufferError::IndexOutOfBounds { pos: pos as usize, index, max: max_env_index(num_envs) })
    } else {
        Ok(())
    }
}

/// The bounds checks of `indices`, one per position, in order.
pub open spec fn index_checks(indices: Seq<usize>, num_envs: usize) -> Seq<Check> {
    Seq::new(indices.len(), |pos: int| index_check(pos, indices[pos], num_envs))
}

/// Checking the environment indices and episode seeds of a seeded reset:
/// one seed per index, then every index in bounds, the first offending
/// position being reported.
pub open spec fn indices_and_seeds_check(indices: Seq<usize>, seeds_len: nat, num_envs: usize) -> Check {
    if indices.len() != seeds_len {
        Err(BufferError::IndicesSeedsLenMismatch { got: indices.len() as usize, expected: seeds_len as usize })
    } else {
        first_failure(index_checks(indices, num_envs))
    }
}

/// Checks that `indices` and `episode_seeds` have the same length and that
/// every index names an environment of a pool of `num_envs`; an index out of
/// bounds is reported at its first position.
pub fn validate_indices_and_seeds(indices: &Vec<usize>, episode_seeds: &Vec<u64>, num_envs: usize) -> (r: Check)
    ensures
        r == indices_and_seeds_check(indices@, episode_seeds@.len(), num_envs),
        r is Ok <==> indices@.len() == episode_seeds@.len() && forall|i: int|
            0 <= i < indices@.len() ==> #[trigger] indices@[i] < num_envs,
{
    if indices.len() != episode_seeds.len() {
        return Err(
            BufferError::IndicesSeedsLenMismatch { got: indices.len(), expected: episode_seeds.len() },
        );
    }
    let max = if num_envs == 0 {
        0
    } else {
        num_envs - 1
    };
    let ghost spec_checks = index_checks(indices@, num_envs);
    let mut checks: Vec<Check> = Vec::new();
    let mut pos: usize = 0;
    while pos < indices.len()
        invariant
            pos <= indices@.len(),
            spec_checks == index_checks(indices@, num_envs),
            checks@ == spec_checks.take(pos as int),
            max == max_env_index(num_envs),
        decreases indices@.len() - pos,
    {
        let idx = indices[pos];
        let c = if idx >= num_envs {
            Err(BufferError::IndexOutOfBounds { pos, index: idx, max })
        } else {
            Ok(())
        };
        assert(c == spec_checks[pos as int]);
        checks.push(c);
        assert(spec_checks.take(pos + 1) =~= spec_checks.take(pos as int).push(c));
        pos = pos + 1;
    }
    assert(spec_checks.take(pos as int) =~= spec_checks);
    let r = run_checks(&checks);
    proof {
        if r is Ok {
            assert forall|i: int| 0 <= i < indices@.len() implies #[trigger] indices@[i] < num_envs by {
                assert(spec_checks[i] is Ok);
            }
        } else {
            let i = choose|i: int| 0 <= i < spec_checks.len() && !(spec_checks[i] is Ok);
            assert(indices@[i] >= num_envs);
        }
    }
    r
}

/// Runs `checks` in order and reports the first one that fails.
pub fn run_checks(checks: &Vec<Check>) -> (r: Check)
    ensures
        r == first_failure(checks@),
        r is Ok <==> all_hold(checks@),
{
    let mut i: usize = 0;
    assert(checks@.skip(0) =~= checks@);
    while i < checks.len()
        invariant
            i <= checks@.len(),
            first_failure(checks@) == first_failure(checks@.skip(i as int)),
            all_hold(checks@.take(i as int)),
        decreases checks@.len() - i,
    {
        let c = checks[i];
        assert(checks@.skip(i as int)[0] == c);
        if c.is_err() {
            assert(checks@[i as int] == c);
            return c;
        }
        assert(checks@.skip(i as int).drop_first() =~= checks@.skip(i + 1));
        assert(checks@.take(i + 1) =~= checks@.take(i as int).push(c));
        i = i + 1;
    }
    assert(checks@.skip(i as int) =~= Seq::<Check>::empty());
    assert(checks@.take(i as int) =~= checks@);
    Ok(())
}

/// `first_failure` is `Ok` exactly when every check holds, and an error it
/// reports is the error of some check.
pub proof fn lemma_first_failure_bounds(checks: Seq<Check>)
    ensures
        first_failure(checks) is Ok <==> all_hold(checks),
        first_failure(checks) is Err ==> exists|i: int|
            0 <= i < checks.len() && checks[i] == first_failure(checks),
    decreases checks.len(),
{
    if checks.len() > 0 {
        lemma_first_failure_bounds(checks.drop_first());
        if checks[0] is Ok {
            if all_hold(checks.drop_first()) {
                assert forall|i: int| 0 <= i < checks.len() implies (#[trigger] checks[i]) is Ok by {
                    if i > 0 {
                        assert(checks[i] == checks.drop_first()[i - 1]);
                    }
                }
            } else {
                let j = choose|j: int|
                    0 <= j < checks.drop_first().len() && !(checks.drop_first()[j] is Ok);
                assert(checks[j + 1] == checks.drop_first()[j]);
            }
            if first_failure(checks) is Err {
                let j = choose|j: int|
                    0 <= j < checks.drop_first().len() && checks.drop_first()[j] == first_failure(
                        checks.drop_first(),
                    );
                assert(checks[j + 1] == checks.drop_first()[j]);
            }
        }
    }
}

/// The error `first_failure` reports is that of the earliest failing check:
/// every check before it holds.
pub proof fn lemma_first_failure_is_earliest(checks: Seq<Check>)
    ensures
        first_failure(checks) is Err ==> exists|i: int|
            0 <= i < checks.len() && checks[i] == first_failure(checks) && (forall|j: int|
                0 <= j < i ==> (#[trigger] checks[j]) is Ok),
    decreases checks.len(),
{
    if checks.len() > 0 && checks[0] is Ok {
        let rest = checks.drop_first();
        lemma_first_failure_is_earliest(rest);
        if first_failure(checks) is Err {
            let k = choose|k: int|
                0 <= k < rest.len() && rest[k] == first_failure(rest) && (forall|j: int|
                    0 <= j < k ==> (#[trigger] rest[j]) is Ok);
            assert(checks[k + 1] == rest[k]);
            assert forall|j: int| 0 <= j < k + 1 implies (#[trigger] checks[j]) is Ok by {
                if j > 0 {
                    assert(checks[j] == rest[j - 1]);
                }
            }
        }
    }
}

/// Running two lists of checks one after the other reports the first
/// failure of the first list, or, when all of it holds, the first failure of the second.
pub proof fn lemma_first_failure_append(a: Seq<Check>, b: Seq<Check>)
    ensures
        first_failure(a + b) == (if first_failure(a) is Err {
            first_failure(a)
        } else {
            first_failure(b)
        }),
    decreases a.len(),
{
    if a.len() == 0 {
        assert(a + b =~= b);
    } else {
        assert((a + b)[0] == a[0]);
        assert((a + b).drop_first() =~= a.drop_first() + b);
        lemma_first_failure_append(a.drop_first(), b);
    }
}

/// An extent check accepts exactly the arrays whose first extent is the
/// expected one and, when a second is expected, whose second extent is that
/// one; a refusal names the array, the axis that differs, the extent found
/// there and the one expected, and the first axis is reported before the second.
pub proof fn extent_check_reports_the_mismatch(
    name: ArrayName,
    shape: Seq<usize>,
    expected: usize,
    expected_second: Option<usize>,
)
    ensures
        first_dim_check(name, shape, expected, expected_second) is Ok <==> dim_at(shape, 0) == expected && (
        expected_second matches Some(second) ==> dim_at(shape, 1) == second),
        dim_at(shape, 0) != expected ==> first_dim_check(name, shape, expected, expected_second) == Err::<
            (),
            BufferError,
        >(BufferError::DimMismatch { name, axis: Axis::First, got: dim_at(shape, 0), expected }),
        dim_at(shape, 0) == expected ==> match expected_second {
            Some(second) => dim_at(shape, 1) != second ==> first_dim_check(
                name,
                shape,
                expected,
                expected_second,
            ) == Err::<(), BufferError>(
                BufferError::DimMismatch { name, axis: Axis::Second, got: dim_at(shape, 1), expected: second },
            ),
            None => first_dim_check(name, shape, expected, expected_second) is Ok,
        },
        third_dim_check(name, shape, expected) is Ok <==> dim_at(shape, 2) == expected,
        dim_at(shape, 2) != expected ==> third_dim_check(name, shape, expected) == Err::<(), BufferError>(
            BufferError::DimMismatch { name, axis: Axis::Third, got: dim_at(shape, 2), expected },
        ),
{
}

/// An input is accepted exactly when it is contiguous and holds one entry per
/// environment; contiguity is checked first, and a length refusal reports the
/// length found and the one expected.
pub proof fn input_checks_report_the_mismatch(name: ArrayName, arg: SliceArg, len: usize, expected: usize)
    ensures
        contiguity_check(name, arg.contiguous) is Ok <==> arg.contiguous,
        !arg.contiguous ==> contiguity_check(name, arg.contiguous) == Err::<(), BufferError>(
            BufferError::NotContiguous { name },
        ),
        len_check(name, len, expected) is Ok <==> len == expected,
        len != expected ==> len_check(name, len, expected) == Err::<(), BufferError>(
            BufferError::LenMismatch { name, got: len, expected },
        ),
        arg_len_check(name, arg, expected) is Ok <==> arg.contiguous && arg.len == expected,
        !arg.contiguous ==> arg_len_check(name, arg, expected) == Err::<(), BufferError>(
            BufferError::NotContiguous { name },
        ),
        arg.contiguous && arg.len != expected ==> arg_len_check(name, arg, expected) == Err::<
            (),
            BufferError,
        >(BufferError::LenMismatch { name, got: arg.len, expected }),
        action_space_u16_check(len) is Ok <==> len <= 65535,
{
}

/// The legal-id buffer checks refuse an action space wider than `u16` with
/// its size, an id count `num_envs * action_space` that overflows `usize` as
/// an ids overflow, and an offset count `num_envs + 1` that overflows as an
/// offsets overflow, whatever the buffers' shapes.
pub proof fn legal_id_checks_report_overflow(
    shape: Seq<usize>,
    steps: Option<usize>,
    num_envs: usize,
    action_space: usize,
)
    ensures
        action_space_u16_check(action_space) is Ok <==> action_space <= u16::MAX,
        action_space > u16::MAX ==> action_space_u16_check(action_space) == Err::<(), BufferError>(
            BufferError::ActionSpaceTooLarge { action_space },
        ),
        num_envs * action_space > usize::MAX ==> legal_ids_dim_check(shape, steps, num_envs, action_space)
            == Err::<(), BufferError>(BufferError::LegalIdsSizeOverflow),
        num_envs + 1 > usize::MAX ==> legal_offsets_dim_check(shape, steps, num_envs) == Err::<
            (),
            BufferError,
        >(BufferError::LegalOffsetsSizeOverflow),
{
}

/// A seeded reset is refused for a length mismatch, reporting the number of
/// indices and of seeds, or else for the first index that names no
/// environment: the refusal gives its position and value, every index before
/// it is in range, and the largest valid index is reported.
pub proof fn seeded_reset_reports_the_first_bad_index(indices: Seq<usize>, seeds_len: nat, num_envs: usize)
    requires
        indices.len() <= usize::MAX,
        seeds_len <= usize::MAX,
    ensures
        indices.len() != seeds_len ==> indices_and_seeds_check(indices, seeds_len, num_envs) == Err::<
            (),
            BufferError,
        >(
            BufferError::IndicesSeedsLenMismatch {
                got: indices.len() as usize,
                expected: seeds_len as usize,
            },
        ),
        indices_and_seeds_check(indices, seeds_len, num_envs) is Ok <==> indices.len() == seeds_len && (
        forall|i: int| 0 <= i < indices.len() ==> #[trigger] indices[i] < num_envs),
        indices.len() == seeds_len ==> match indices_and_seeds_check(indices, seeds_len, num_envs) {
            Err(BufferError::IndexOutOfBounds { pos, index, max }) => {
                &&& pos < indices.len()
                &&& index == indices[pos as int]
                &&& index >= num_envs
                &&& forall|j: int| 0 <= j < pos ==> #[trigger] indices[j] < num_envs
                &&& num_envs > 0 ==> max == num_envs - 1
                &&& num_envs == 0 ==> max == 0
            },
            Err(_) => false,
            Ok(_) => true,
        },
{
    let checks = index_checks(indices, num_envs);
    lemma_first_failure_bounds(checks);
    lemma_first_failure_is_earliest(checks);
    if indices.len() == seeds_len {
        if first_failure(checks) is Err {
            let k = choose|k: int|
                0 <= k < checks.len() && checks[k] == first_failure(checks) && (forall|j: int|
                    0 <= j < k ==> (#[trigger] checks[j]) is Ok);
            assert(checks[k] == index_check(k, indices[k], num_envs));
            assert forall|j: int| 0 <= j < k implies #[trigger] indices[j] < num_envs by {
                assert(checks[j] is Ok);
            }
        } else {
            assert forall|i: int| 0 <= i < indices.len() implies #[trigger] indices[i] < num_envs by {
                assert(checks[i] is Ok);
            }
        }
    }
    if indices.len() == seeds_len && (forall|i: int| 0 <= i < indices.len() ==> #[trigger] indices[i] < num_envs) {
        assert forall|i: int| 0 <= i < checks.len() implies (#[trigger] checks[i]) is Ok by {
            assert(indices[i] < num_envs);
        }
    }
}

/// A list of checks extended by one more holds exactly when the list holds and the new check holds.
pub broadcast proof fn lemma_all_hold_push(checks: Seq<Check>, c: Check)
    ensures
        #[trigger] all_hold(checks.push(c)) <==> all_hold(checks) && c is Ok,
{
    if all_hold(checks.push(c)) {
        assert forall|i: int| 0 <= i < checks.len() implies (#[trigger] checks[i]) is Ok by {
            assert(checks.push(c)[i] == checks[i]);
        }
        assert(checks.push(c)[checks.len() as int] == c);
    }
}

/// Two lists of checks, one after the other, hold exactly when both hold.
pub broadcast proof fn lemma_all_hold_append(a: Seq<Check>, b: Seq<Check>)
    ensures
        #[trigger] all_hold(a + b) <==> all_hold(a) && all_hold(b),
{
    if all_hold(a + b) {
        assert forall|i: int| 0 <= i < a.len() implies (#[trigger] a[i]) is Ok by {
            assert((a + b)[i] == a[i]);
        }
        assert forall|i: int| 0 <= i < b.len() implies (#[trigger] b[i]) is Ok by {
            assert((a + b)[a.len() + i] == b[i]);
        }
    }
}

/// The empty list of checks holds.
pub broadcast proof fn lemma_all_hold_empty()
    ensures
        #[trigger] all_hold(Seq::<Check>::empty()),
{
}

pub broadcast group group_checks {
    lemma_all_hold_push,
    lemma_all_hold_append,
    lemma_all_hold_empty,
}

} // verus!
