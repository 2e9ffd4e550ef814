//! Fixed encoding sizes and freshly laid-out buffers.
use vstd::prelude::*;

use crate::errors::ArrayName;
use crate::shape::ArrayView;

verus! {

/// The sizes that the engine's encodings fix.
#[derive(Clone, Copy)]
pub struct Encoding {
    /// Length of one observation vector.
    pub obs_len: usize,
    /// Number of action ids.
    pub action_space: usize,
    /// Hash of the observation and action specification.
    pub spec_hash: u64,
}

/// `view` is a contiguous array of shape `shape`, as a freshly allocated buffer is.
pub open spec fn is_fresh_view(view: ArrayView, shape: Seq<usize>) -> bool {
    view.shape@ == shape && view.contiguous
}

/// A contiguous array of the given shape, as a freshly allocated buffer is.
pub fn fresh_view(shape: Vec<usize>) -> (v: ArrayView)
    ensures
        v.shape@ == shape@,
        v.contiguous,
{
    ArrayView { shape, contiguous: true }
}

/// A one-dimensional shape.
pub fn shape1(a: usize) -> (v: Vec<usize>)
    ensures
        v@ == seq![a],
{
    let mut v = Vec::new();
    v.push(a);
    v
}

/// A two-dimensional shape.
pub fn shape2(a: usize, b: usize) -> (v: Vec<usize>)
    ensures
        v@ == seq![a, b],
{
    let mut v = Vec::new();
    v.push(a);
    v.push(b);
    v
}

/// A three-dimensional shape.
pub fn shape3(a: usize, b: usize, c: usize) -> (v: Vec<usize>)
    ensures
        v@ == seq![a, b, c],
{
    let mut v = Vec::new();
    v.push(a);
    v.push(b);
    v.push(c);
    v
}

/// The value a fresh buffer is filled with: every `spec_hash` entry holds
/// the specification hash, every other entry is zero (`false` for flags).
pub fn initial_fill(name: ArrayName, enc: Encoding) -> (v: u64)
    ensures
        v == (if name == ArrayName::SpecHash {
            enc.spec_hash
        } else {
            0
        }),
{
    match name {
        ArrayName::SpecHash => enc.spec_hash,
        _ => 0,
    }
}

} // verus!
