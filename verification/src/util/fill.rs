//! Buffers of a given length filled with one value.

use vstd::prelude::*;

use crate::color::Rgb;

verus! {

/// `n` pixels of the colour `color`.
pub fn colors(n: usize, color: Rgb) -> (out: Vec<Rgb>)
    ensures
        out@ == Seq::new(n as nat, |i: int| color),
{
    let mut out: Vec<Rgb> = Vec::new();
    while out.len() < n
        invariant
            out.len() <= n,
            forall|i: int| 0 <= i < out.len() ==> out@[i] == color,
        decreases n - out.len(),
    {
        out.push(color);
    }
    assert(out@ =~= Seq::new(n as nat, |i: int| color));
    out
}

/// `n` flags, all `value`.
pub fn flags(n: usize, value: bool) -> (out: Vec<bool>)
    ensures
        out@ == Seq::new(n as nat, |i: int| value),
{
    let mut out: Vec<bool> = Vec::new();
    while out.len() < n
        invariant
            out.len() <= n,
            forall|i: int| 0 <= i < out.len() ==> out@[i] == value,
        decreases n - out.len(),
    {
        out.push(value);
    }
    assert(out@ =~= Seq::new(n as nat, |i: int| value));
    out
}

/// `n` counters, all zero.
pub fn zeros(n: usize) -> (out: Vec<usize>)
    ensures
        out@ == Seq::new(n as nat, |i: int| 0usize),
{
    let mut out: Vec<usize> = Vec::new();
    while out.len() < n
        invariant
            out.len() <= n,
            forall|i: int| 0 <= i < out.len() ==> out@[i] == 0usize,
        decreases n - out.len(),
    {
        out.push(0);
    }
    assert(out@ =~= Seq::new(n as nat, |i: int| 0usize));
    out
}

/// Copies `src` over `dst`, which has the same length.
pub fn copy_colors(dst: &mut Vec<Rgb>, src: &Vec<Rgb>)
    requires
        old(dst)@.len() == src@.len(),
    ensures
        final(dst)@ == src@,
{
    let n: usize = src.len();
    let mut i: usize = 0;
    while i < n
        invariant
            i <= n,
            src@.len() == n,
            dst@.len() == n,
            forall|j: int| 0 <= j < i ==> dst@[j] == src@[j],
        decreases n - i,
    {
        dst[i] = src[i];
        i += 1;
    }
    assert(dst@ =~= src@);
}

/// Sets every pixel of `dst` to `color`.
pub fn paint_all(dst: &mut Vec<Rgb>, color: Rgb)
    ensures
        final(dst)@ == Seq::new(old(dst)@.len(), |i: int| color),
{
    let n: usize = dst.len();
    let mut i: usize = 0;
    while i < n
        invariant
            i <= n,
            dst@.len() == n,
            forall|j: int| 0 <= j < i ==> dst@[j] == color,
        decreases n - i,
    {
        dst[i] = color;
        i += 1;
    }
    assert(dst@ =~= Seq::new(n as nat, |i: int| color));
}

} // verus!
